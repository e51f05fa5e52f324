//! PWM dead-time resolver: picks the timer dead-time clock divider and
//! the 8-bit non-uniform code whose achievable dead time lies closest
//! to a requested tick count, over every representable (divider, code)
//! pair. The smaller divider wins a tie across dividers (finest
//! resolution); the lower count wins a tie within one divider.

use vstd::prelude::*;

use crate::search::resolve_min_error;
use crate::search::spec_abs_err;

verus! {

/// Division ratio between the timer clock and the dead-time generator
/// clock.
#[derive(Clone, Copy, PartialEq, Eq, Structural, Debug)]
pub enum Ckd {
    Div1,
    Div2,
    Div4,
}

impl Ckd {
    /// Division factor this selector encodes.
    pub open spec fn spec_divisor(self) -> u16 {
        match self {
            Ckd::Div1 => 1,
            Ckd::Div2 => 2,
            Ckd::Div4 => 4,
        }
    }

    /// Division factor this selector encodes.
    pub fn divisor(self) -> (r: u16)
        ensures
            r == self.spec_divisor(),
    {
        match self {
            Ckd::Div1 => 1,
            Ckd::Div2 => 2,
            Ckd::Div4 => 4,
        }
    }

    /// Register field encoding of this selector.
    pub fn to_bits(self) -> (r: u8)
        ensures
            r == (match self {
                Ckd::Div1 => 0u8,
                Ckd::Div2 => 1u8,
                Ckd::Div4 => 2u8,
            }),
    {
        match self {
            Ckd::Div1 => 0,
            Ckd::Div2 => 1,
            Ckd::Div4 => 2,
        }
    }
}

/// Whether a tick count is expressible by some 8-bit code: the four
/// code regions reach 0 to 127 in steps of 1, 128 to 254 in steps of
/// 2, 256 to 504 in steps of 8, and 512 to 1008 in steps of 16.
pub open spec fn spec_representable(r: int) -> bool {
    ||| 0 <= r <= 127
    ||| (128 <= r <= 254 && r % 2 == 0)
    ||| (256 <= r <= 504 && r % 8 == 0)
    ||| (512 <= r <= 1008 && r % 16 == 0)
}

/// Tick count the hardware generates for a code: the four regions of
/// the dead-time generator field.
pub open spec fn spec_decode(code: u8) -> int {
    if code < 128 {
        code as int
    } else if code < 192 {
        (code as int - 64) * 2
    } else if code < 224 {
        (code as int - 160) * 8
    } else {
        (code as int - 192) * 16
    }
}

/// Code that generates a representable tick count.
pub open spec fn spec_encode(r: int) -> u8 {
    if r <= 127 {
        r as u8
    } else if r <= 254 {
        (r / 2 + 64) as u8
    } else if r <= 504 {
        (r / 8 + 160) as u8
    } else {
        (r / 16 + 192) as u8
    }
}

/// Largest representable count at most `t`, saturating at the largest
/// representable count.
pub open spec fn spec_floor_repr(t: int) -> int {
    if t <= 127 {
        t
    } else if t <= 255 {
        t - t % 2
    } else if t <= 511 {
        t - t % 8
    } else if t <= 1023 {
        t - t % 16
    } else {
        1008
    }
}

/// Smallest representable count at least `t`, for `t` within the
/// representable span.
pub open spec fn spec_ceil_repr(t: int) -> int {
    if t <= 127 {
        t
    } else if t <= 254 {
        t + t % 2
    } else if t <= 256 {
        256
    } else if t <= 504 {
        t + (8 - t % 8) % 8
    } else if t <= 512 {
        512
    } else {
        t + (16 - t % 16) % 16
    }
}

/// Distance between the requested count and an achieved dead time.
pub open spec fn spec_abs_diff(value: u16, achieved: int) -> int {
    if achieved >= value {
        achieved - value
    } else {
        value as int - achieved
    }
}

/// Best representable count for one divider: of the nearest
/// representable counts below and above the per-divider target, the
/// one whose dead time lies closer to the requested count; the lower
/// one on a tie. A count beyond the representable span saturates at
/// the maximum.
pub open spec fn spec_best_repr(value: u16, d: int) -> int {
    let fl = spec_floor_repr(value as int / d);
    let up = (value as int + d - 1) / d;
    if up > 1008 {
        fl
    } else {
        let ce = spec_ceil_repr(up);
        if value as int - fl * d <= ce * d - value as int {
            fl
        } else {
            ce
        }
    }
}

/// Dead time (in timer ticks) that the candidate for the given divider
/// reaches for the requested count.
pub open spec fn spec_dead_time_achieved(value: u16, ckd: Ckd) -> int {
    spec_best_repr(value, ckd.spec_divisor() as int) * ckd.spec_divisor()
}

/// Absolute error of the candidate for the given divider against the
/// requested count.
pub open spec fn spec_dead_time_error(value: u16, ckd: Ckd) -> int {
    spec_abs_diff(value, spec_dead_time_achieved(value, ckd))
}

/// Divider whose candidate has minimal error; on ties the smaller
/// divider wins, keeping the finest dead-time resolution.
pub open spec fn spec_best_ckd(value: u16) -> Ckd {
    let e1 = spec_dead_time_error(value, Ckd::Div1);
    let e2 = spec_dead_time_error(value, Ckd::Div2);
    let e4 = spec_dead_time_error(value, Ckd::Div4);
    if e1 <= e2 && e1 <= e4 {
        Ckd::Div1
    } else if e2 <= e4 {
        Ckd::Div2
    } else {
        Ckd::Div4
    }
}

/// Code the resolver pairs with a divider for the requested count.
pub open spec fn spec_dead_time_code(value: u16, ckd: Ckd) -> u8 {
    spec_encode(spec_best_repr(value, ckd.spec_divisor() as int))
}

/// The floor is representable, at most `t`, and maximal: no
/// representable count between it and `t`.
pub proof fn lemma_floor_repr_props(t: int)
    requires
        0 <= t,
    ensures
        spec_representable(spec_floor_repr(t)),
        spec_floor_repr(t) <= t,
        spec_floor_repr(t) <= 1008,
        forall|r: int| spec_representable(r) && r <= t ==> r <= spec_floor_repr(t),
{
}

/// The ceiling is representable, at least `t`, and minimal: no
/// representable count between `t` and it.
pub proof fn lemma_ceil_repr_props(t: int)
    requires
        0 <= t <= 1008,
    ensures
        spec_representable(spec_ceil_repr(t)),
        spec_ceil_repr(t) >= t,
        spec_ceil_repr(t) <= 1008,
        forall|r: int| spec_representable(r) && r >= t ==> r >= spec_ceil_repr(t),
{
}

/// Every code decodes to a representable count.
pub proof fn lemma_decode_representable(code: u8)
    ensures
        spec_representable(spec_decode(code)),
        0 <= spec_decode(code) <= 1008,
{
}

/// Round-trip law of the code regions: encoding a representable count
/// and decoding the code yields the count again, exactly.
pub proof fn lemma_code_round_trip(r: int)
    requires
        spec_representable(r),
    ensures
        spec_decode(spec_encode(r)) == r,
{
}

/// The per-divider candidate is representable and within the span.
pub proof fn lemma_best_repr_in_range(value: u16, d: int)
    requires
        d == 1 || d == 2 || d == 4,
    ensures
        spec_representable(spec_best_repr(value, d)),
        0 <= spec_best_repr(value, d) <= 1008,
{
    lemma_floor_repr_props(value as int / d);
    let up = (value as int + d - 1) / d;
    if up <= 1008 {
        lemma_ceil_repr_props(up);
    }
}

/// Within one divider, no representable count reaches a dead time
/// closer to the requested count than the chosen candidate's.
pub proof fn lemma_best_repr_minimal(value: u16, d: int, r: int)
    requires
        d == 1 || d == 2 || d == 4,
        spec_representable(r),
    ensures
        spec_abs_diff(value, spec_best_repr(value, d) * d) <= spec_abs_diff(value, r * d),
{
    let v = value as int;
    let t = v / d;
    let up = (v + d - 1) / d;
    lemma_floor_repr_props(t);
    let fl = spec_floor_repr(t);
    assert(fl * d <= t * d <= v && r <= t ==> r * d <= t * d) by (nonlinear_arith)
        requires
            d >= 1,
            fl <= t,
            t == v / d,
            v >= 0,
    ;
    assert(t * d <= v) by (nonlinear_arith)
        requires
            d >= 1,
            t == v / d,
            v >= 0,
    ;
    if r * d <= v {
        // The count sits on the floor side: it is at most the floor,
        // so its dead time is at most the floor's.
        assert(r <= t) by (nonlinear_arith)
            requires
                d >= 1,
                r * d <= v,
                t == v / d,
                v >= 0,
        ;
        assert(r <= fl);
        assert(r * d <= fl * d) by (nonlinear_arith)
            requires
                d >= 1,
                r <= fl,
        ;
        assert(fl * d <= v) by (nonlinear_arith)
            requires
                d >= 1,
                fl <= t,
                t * d <= v,
                t == v / d,
        ;
        if up <= 1008 {
            lemma_ceil_repr_props(up);
        }
    } else {
        // The count sits on the ceiling side: it is at least the
        // ceiling, so its dead time is at least the ceiling's.
        assert(r >= up) by (nonlinear_arith)
            requires
                d >= 1,
                r * d > v,
                up == (v + d - 1) / d,
                v >= 0,
        ;
        assert(up <= 1008);
        lemma_ceil_repr_props(up);
        let ce = spec_ceil_repr(up);
        assert(r >= ce);
        assert(r * d >= ce * d) by (nonlinear_arith)
            requires
                d >= 1,
                r >= ce,
        ;
        assert(ce * d >= v) by (nonlinear_arith)
            requires
                d >= 1,
                ce >= up,
                up == (v + d - 1) / d,
                v >= 0,
        ;
        assert(fl * d <= v) by (nonlinear_arith)
            requires
                d >= 1,
                fl <= t,
                t == v / d,
                v >= 0,
        ;
    }
}

/// Minimal-error law of the dead-time resolver: no representable
/// (divider, code) pair reaches a dead time closer to the requested
/// count than the chosen pair's.
pub proof fn lemma_dead_time_minimal(value: u16, other: Ckd, code: u8)
    ensures
        spec_dead_time_error(value, spec_best_ckd(value)) <= spec_abs_diff(
            value,
            spec_decode(code) * other.spec_divisor(),
        ),
{
    lemma_decode_representable(code);
    lemma_best_repr_minimal(value, other.spec_divisor() as int, spec_decode(code));
}

/// Exactness law for small counts: every count below the first region
/// bound is directly representable, so the resolver returns the
/// smallest divider with zero error.
pub proof fn lemma_dead_time_exact_small(value: u16)
    requires
        value < 128,
    ensures
        spec_best_ckd(value) == Ckd::Div1,
        spec_dead_time_error(value, Ckd::Div1) == 0,
        spec_dead_time_code(value, Ckd::Div1) == value as u8,
{
}

/// Largest representable count at most the target, saturating at the
/// top of the representable span.
fn floor_repr(t: u16) -> (r: u16)
    ensures
        r == spec_floor_repr(t as int),
        r <= 1008,
{
    if t <= 127 {
        t
    } else if t <= 255 {
        t - t % 2
    } else if t <= 511 {
        t - t % 8
    } else if t <= 1023 {
        t - t % 16
    } else {
        1008
    }
}

/// Smallest representable count at least the target.
fn ceil_repr(t: u16) -> (r: u16)
    requires
        t <= 1008,
    ensures
        r == spec_ceil_repr(t as int),
        r <= 1008,
{
    if t <= 127 {
        t
    } else if t <= 254 {
        t + t % 2
    } else if t <= 256 {
        256
    } else if t <= 504 {
        t + (8 - t % 8) % 8
    } else if t <= 512 {
        512
    } else {
        t + (16 - t % 16) % 16
    }
}

/// Code for a representable count.
fn encode_repr(r: u16) -> (code: u8)
    requires
        spec_representable(r as int),
    ensures
        code == spec_encode(r as int),
{
    if r <= 127 {
        r as u8
    } else if r <= 254 {
        (r / 2 + 64) as u8
    } else if r <= 504 {
        (r / 8 + 160) as u8
    } else {
        (r / 16 + 192) as u8
    }
}

/// Best representable count for one divider.
fn best_repr(value: u16, d: u16) -> (r: u16)
    requires
        d == 1 || d == 2 || d == 4,
    ensures
        r == spec_best_repr(value, d as int),
        spec_representable(r as int),
        r <= 1008,
{
    proof {
        lemma_best_repr_in_range(value, d as int);
        lemma_floor_repr_props(value as int / d as int);
    }
    let fl = floor_repr(value / d);
    let up32: u32 = (value as u32 + d as u32 - 1) / (d as u32);
    if up32 > 1008 {
        fl
    } else {
        proof {
            lemma_ceil_repr_props(up32 as int);
        }
        let ce = ceil_repr(up32 as u16);
        proof {
            assert(fl as int * d as int <= value) by (nonlinear_arith)
                requires
                    d >= 1,
                    fl as int <= value as int / d as int,
            ;
            assert(ce as int * d as int >= value) by (nonlinear_arith)
                requires
                    d >= 1,
                    ce as int >= up32 as int,
                    up32 as int == (value as int + d as int - 1) / d as int,
            ;
        }
        if value - fl * d <= ce * d - value {
            fl
        } else {
            ce
        }
    }
}

/// Resolves a requested dead time in timer ticks to the clock divider
/// and 8-bit code whose achievable dead time has minimal error over
/// every representable (divider, code) pair: per divider the nearest
/// representable count (the lower one on a tie), and across dividers
/// the smallest divider that reaches the minimal error. A count beyond
/// every representable value saturates at the maximum.
pub fn compute_dead_time_value(value: u16) -> (r: (Ckd, u8))
    ensures
        r.0 == spec_best_ckd(value),
        r.1 == spec_dead_time_code(value, r.0),
{
    let r1 = best_repr(value, 1);
    let r2 = best_repr(value, 2);
    let r4 = best_repr(value, 4);

    let mut achieved: Vec<u32> = Vec::new();
    achieved.push(r1 as u32);
    achieved.push((r2 as u32) * 2);
    achieved.push((r4 as u32) * 4);

    let i = resolve_min_error(value as u32, &achieved);

    proof {
        assert(achieved@[0] == spec_dead_time_achieved(value, Ckd::Div1));
        assert(achieved@[1] == spec_dead_time_achieved(value, Ckd::Div2));
        assert(achieved@[2] == spec_dead_time_achieved(value, Ckd::Div4));
        assert(spec_abs_err(value as u32, achieved@[0] as u32) == spec_dead_time_error(
            value,
            Ckd::Div1,
        ));
        assert(spec_abs_err(value as u32, achieved@[1] as u32) == spec_dead_time_error(
            value,
            Ckd::Div2,
        ));
        assert(spec_abs_err(value as u32, achieved@[2] as u32) == spec_dead_time_error(
            value,
            Ckd::Div4,
        ));
    }

    if i == 0 {
        (Ckd::Div1, encode_repr(r1))
    } else if i == 1 {
        (Ckd::Div2, encode_repr(r2))
    } else {
        (Ckd::Div4, encode_repr(r4))
    }
}

} // verus!

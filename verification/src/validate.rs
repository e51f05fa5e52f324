//! Constraint validator: resolves the frequency of every node of the
//! clock tree from the declared topology and fails on any violated
//! hardware limit, before any register is touched.

use vstd::prelude::*;

use crate::config::AHBPrescaler;
use crate::config::APBPrescaler;
use crate::config::ChipFamily;
use crate::config::Config;
use crate::config::HseMode;
use crate::config::Pll;
use crate::config::PllSource;
use crate::config::Sysclk;
use crate::config::TimerPrescaler;
use crate::config::VoltageScale;
use crate::time::Hertz;

verus! {

/// Lower bound of the medium VCO output window, shared by all families.
pub const VCO_MIN: u32 = 150_000_000;

/// Upper bound of the medium VCO output window, shared by all families.
pub const VCO_MAX: u32 = 420_000_000;

/// A violated configuration constraint. Every variant is fatal: bring-up
/// must not continue with a partially valid clock tree.
#[derive(Clone, Copy, PartialEq, Eq, Structural, Debug)]
pub enum ClockError {
    /// An enabled PLL's source selector is the `Disable` encoding.
    PllSourceNotSelected,
    /// An enabled PLL selects an oscillator the topology leaves off.
    PllSourceNotEnabled,
    /// Two enabled PLLs select different sources; all enabled PLLs
    /// must share one source selector.
    PllSourceMismatch,
    /// A PLL reference clock exceeds the highest reference band.
    PllRefClockOutOfRange,
    /// A PLL VCO frequency falls outside both the medium window and the
    /// wide window its reference band permits.
    PllVcoOutOfRange,
    /// The first PLL's P divider must be even on these families.
    Pll1DivPNotEven,
    /// The selected system clock source resolves to no frequency.
    SysclkSourceNotEnabled,
    /// The external oscillator mode is not available on this family.
    HseModeUnsupported,
    /// The CPU-domain clock exceeds its voltage-scale ceiling.
    CpuClockTooHigh,
    /// The AHB clock exceeds its voltage-scale ceiling.
    AhbClockTooHigh,
    /// An APB bus clock exceeds its voltage-scale ceiling.
    ApbClockTooHigh,
    /// The bus clock exceeds the highest flash timing tier.
    FlashClockTooHigh,
}

/// Reference-frequency band of a PLL input; selects the permitted VCO
/// window and is programmed into the range selector field.
#[derive(Clone, Copy, PartialEq, Eq, Structural, Debug)]
pub enum PllRefRange {
    /// Reference below 2 MHz; the wide VCO window is not permitted.
    Range1,
    /// Reference of 2 MHz or more, below 4 MHz.
    Range2,
    /// Reference of 4 MHz or more, below 8 MHz.
    Range4,
    /// Reference of 8 MHz or more, up to and including 16 MHz.
    Range8,
}

/// Which VCO output window an enabled PLL runs in.
#[derive(Clone, Copy, PartialEq, Eq, Structural, Debug)]
pub enum VcoRange {
    /// 150 to 420 MHz, available to every reference band.
    Medium,
    /// The family-specific wide window, unavailable to the lowest band.
    Wide,
}

/// Resolved frequencies of one PLL's output taps; a tap whose divider is
/// unset stays `None`.
#[derive(Clone, Copy, PartialEq, Eq, Structural, Debug)]
pub struct PllOutput {
    /// P tap frequency.
    pub p: Option<Hertz>,
    /// Q tap frequency.
    pub q: Option<Hertz>,
    /// R tap frequency.
    pub r: Option<Hertz>,
}

/// Everything the validator learns about one enabled PLL: its output
/// frequencies and the range selections its registers need.
#[derive(Clone, Copy, PartialEq, Eq, Structural, Debug)]
pub struct ResolvedPll {
    /// Output tap frequencies.
    pub out: PllOutput,
    /// Reference band selector.
    pub ref_range: PllRefRange,
    /// VCO window selector.
    pub vco_range: VcoRange,
}

/// Fully resolved clock tree: an optional frequency for every node, where
/// `None` means the node is disabled or unused, never that it failed.
#[derive(Clone, Copy, PartialEq, Eq, Structural, Debug)]
pub struct ResolvedClockTree {
    /// System clock.
    pub sys: Option<Hertz>,
    /// AHB bus clock.
    pub hclk: Option<Hertz>,
    /// APB1 bus clock.
    pub apb1: Option<Hertz>,
    /// APB2 bus clock.
    pub apb2: Option<Hertz>,
    /// APB3 bus clock.
    pub apb3: Option<Hertz>,
    /// APB4 bus clock; H7-class parts only.
    pub apb4: Option<Hertz>,
    /// Timer kernel clock of the APB1 domain.
    pub apb1_tim: Option<Hertz>,
    /// Timer kernel clock of the APB2 domain.
    pub apb2_tim: Option<Hertz>,
    /// Internal fast oscillator.
    pub hsi: Option<Hertz>,
    /// External oscillator.
    pub hse: Option<Hertz>,
    /// Internal low-power oscillator.
    pub csi: Option<Hertz>,
    /// Internal 48 MHz oscillator.
    pub hsi48: Option<Hertz>,
    /// First PLL's output taps.
    pub pll1: PllOutput,
    /// Second PLL's output taps.
    pub pll2: PllOutput,
    /// Third PLL's output taps.
    pub pll3: PllOutput,
}

/// Frequency of the internal fast oscillator after its prescaler, when
/// enabled.
pub open spec fn spec_osc_hsi(c: Config) -> Option<Hertz> {
    match c.hsi {
        Some(p) => Some(Hertz((crate::HSI_FREQ as int / p.spec_divisor() as int) as u32)),
        None => None,
    }
}

/// Declared frequency of the external oscillator, when enabled.
pub open spec fn spec_osc_hse(c: Config) -> Option<Hertz> {
    match c.hse {
        Some(h) => Some(h.freq),
        None => None,
    }
}

/// Frequency of the internal low-power oscillator, when enabled.
pub open spec fn spec_osc_csi(c: Config) -> Option<Hertz> {
    if c.csi {
        Some(Hertz(crate::CSI_FREQ))
    } else {
        None
    }
}

/// Frequency of the internal 48 MHz oscillator, when enabled.
pub open spec fn spec_osc_hsi48(c: Config) -> Option<Hertz> {
    if c.hsi48 {
        Some(Hertz(crate::HSI48_FREQ))
    } else {
        None
    }
}

/// The configuration of the PLL in the given slot.
pub open spec fn spec_pll_config(c: Config, num: int) -> Option<Pll> {
    if num == 0 {
        c.pll1
    } else if num == 1 {
        c.pll2
    } else {
        c.pll3
    }
}

/// Input frequency an enabled PLL draws from its selected source.
pub open spec fn spec_pll_input(c: Config, src: PllSource) -> Result<Hertz, ClockError> {
    match src {
        PllSource::Disable => Err(ClockError::PllSourceNotSelected),
        PllSource::Hsi => match spec_osc_hsi(c) {
            Some(h) => Ok(h),
            None => Err(ClockError::PllSourceNotEnabled),
        },
        PllSource::Csi => match spec_osc_csi(c) {
            Some(h) => Ok(h),
            None => Err(ClockError::PllSourceNotEnabled),
        },
        PllSource::Hse => match spec_osc_hse(c) {
            Some(h) => Ok(h),
            None => Err(ClockError::PllSourceNotEnabled),
        },
    }
}

/// Band of a PLL reference frequency; `None` above 16 MHz.
pub open spec fn spec_ref_range(ref_hz: int) -> Option<PllRefRange> {
    if ref_hz <= 1_999_999 {
        Some(PllRefRange::Range1)
    } else if ref_hz <= 3_999_999 {
        Some(PllRefRange::Range2)
    } else if ref_hz <= 7_999_999 {
        Some(PllRefRange::Range4)
    } else if ref_hz <= 16_000_000 {
        Some(PllRefRange::Range8)
    } else {
        None
    }
}

/// Lower bound of the family's wide VCO window.
pub open spec fn spec_vco_wide_min(f: ChipFamily) -> int {
    match f {
        ChipFamily::H5 => 128_000_000,
        ChipFamily::H7 => 192_000_000,
    }
}

/// Upper bound of the family's wide VCO window.
pub open spec fn spec_vco_wide_max(f: ChipFamily) -> int {
    match f {
        ChipFamily::H5 => 560_000_000,
        ChipFamily::H7 => 960_000_000,
    }
}

/// VCO window a given VCO frequency falls in, if any. The wide window is
/// permitted only when the reference band is not the lowest.
pub open spec fn spec_vco_range(f: ChipFamily, rng: PllRefRange, vco: int) -> Option<VcoRange> {
    if VCO_MIN <= vco <= VCO_MAX {
        Some(VcoRange::Medium)
    } else if rng != PllRefRange::Range1 && spec_vco_wide_min(f) <= vco <= spec_vco_wide_max(f) {
        Some(VcoRange::Wide)
    } else {
        None
    }
}

/// Frequency of one output tap: the VCO frequency divided by the tap's
/// divider, or `None` when the tap is disabled.
pub open spec fn spec_pll_tap(vco: int, div: Option<crate::config::PllDiv>) -> Option<Hertz> {
    match div {
        Some(d) => Some(Hertz((vco / d.spec_value() as int) as u32)),
        None => None,
    }
}

/// Resolution of one enabled PLL: reference band, VCO window, output
/// frequencies, and every constraint along the way.
pub open spec fn spec_resolve_enabled_pll(c: Config, num: int, pll: Pll) -> Result<
    ResolvedPll,
    ClockError,
> {
    match spec_pll_input(c, pll.source) {
        Err(e) => Err(e),
        Ok(in_clk) => {
            let ref_hz = in_clk.0 as int / pll.prediv.spec_value() as int;
            match spec_ref_range(ref_hz) {
                None => Err(ClockError::PllRefClockOutOfRange),
                Some(rng) => {
                    let vco = ref_hz * pll.mul.spec_value() as int;
                    match spec_vco_range(c.family, rng, vco) {
                        None => Err(ClockError::PllVcoOutOfRange),
                        Some(vr) => {
                            if num == 0 && (match pll.divp {
                                Some(d) => d.spec_value() % 2 == 1,
                                None => false,
                            }) {
                                Err(ClockError::Pll1DivPNotEven)
                            } else {
                                Ok(ResolvedPll {
                                    out: PllOutput {
                                        p: spec_pll_tap(vco, pll.divp),
                                        q: spec_pll_tap(vco, pll.divq),
                                        r: spec_pll_tap(vco, pll.divr),
                                    },
                                    ref_range: rng,
                                    vco_range: vr,
                                })
                            }
                        },
                    }
                },
            }
        },
    }
}

/// Resolution of one PLL slot: a disabled slot resolves to `None` and can
/// violate nothing.
pub open spec fn spec_resolve_pll(c: Config, num: int) -> Result<Option<ResolvedPll>, ClockError> {
    match spec_pll_config(c, num) {
        None => Ok(None),
        Some(pll) => match spec_resolve_enabled_pll(c, num, pll) {
            Ok(rp) => Ok(Some(rp)),
            Err(e) => Err(e),
        },
    }
}

/// Whether every enabled PLL selects the same source: the cross-PLL
/// invariant, checked before any PLL is resolved.
pub open spec fn spec_pll_sources_consistent(c: Config) -> bool {
    &&& (match (c.pll1, c.pll2) {
        (Some(a), Some(b)) => a.source == b.source,
        _ => true,
    })
    &&& (match (c.pll1, c.pll3) {
        (Some(a), Some(b)) => a.source == b.source,
        _ => true,
    })
    &&& (match (c.pll2, c.pll3) {
        (Some(a), Some(b)) => a.source == b.source,
        _ => true,
    })
}

/// Whether the declared external oscillator mode exists on the family.
pub open spec fn spec_hse_mode_supported(c: Config) -> bool {
    match c.hse {
        Some(h) => !(c.family == ChipFamily::H7 && h.mode == HseMode::BypassDigital),
        None => true,
    }
}

/// The frequency the designated system clock source resolves to.
pub open spec fn spec_sys_clock(c: Config, pll1p: Option<Hertz>) -> Result<Hertz, ClockError> {
    let chosen = match c.sys {
        Sysclk::Hsi => spec_osc_hsi(c),
        Sysclk::Csi => spec_osc_csi(c),
        Sysclk::Hse => spec_osc_hse(c),
        Sysclk::Pll1P => pll1p,
    };
    match chosen {
        Some(h) => Ok(h),
        None => Err(ClockError::SysclkSourceNotEnabled),
    }
}

/// Voltage-scale ceiling of the CPU-domain clock. On families without a
/// separate CPU domain it coincides with the AHB ceiling.
pub open spec fn spec_max_cpu_clk(f: ChipFamily, vs: VoltageScale) -> int {
    match f {
        ChipFamily::H5 => spec_max_hclk(f, vs),
        ChipFamily::H7 => match vs {
            VoltageScale::Scale0 => 480_000_000,
            VoltageScale::Scale1 => 400_000_000,
            VoltageScale::Scale2 => 300_000_000,
            VoltageScale::Scale3 => 200_000_000,
        },
    }
}

/// Voltage-scale ceiling of the AHB bus clock.
pub open spec fn spec_max_hclk(f: ChipFamily, vs: VoltageScale) -> int {
    match f {
        ChipFamily::H5 => match vs {
            VoltageScale::Scale0 => 250_000_000,
            VoltageScale::Scale1 => 200_000_000,
            VoltageScale::Scale2 => 150_000_000,
            VoltageScale::Scale3 => 100_000_000,
        },
        ChipFamily::H7 => match vs {
            VoltageScale::Scale0 => 240_000_000,
            VoltageScale::Scale1 => 200_000_000,
            VoltageScale::Scale2 => 150_000_000,
            VoltageScale::Scale3 => 100_000_000,
        },
    }
}

/// Voltage-scale ceiling of every APB bus clock.
pub open spec fn spec_max_pclk(f: ChipFamily, vs: VoltageScale) -> int {
    match f {
        ChipFamily::H5 => spec_max_hclk(f, vs),
        ChipFamily::H7 => match vs {
            VoltageScale::Scale0 => 120_000_000,
            VoltageScale::Scale1 => 100_000_000,
            VoltageScale::Scale2 => 75_000_000,
            VoltageScale::Scale3 => 50_000_000,
        },
    }
}

/// Timer kernel clock of an APB domain: equal to the AHB clock while the
/// bus divider stays within the policy's window, else the bus clock times
/// the policy's multiplier.
pub open spec fn spec_apb_div_tim(apb: APBPrescaler, clk: Hertz, tim: TimerPrescaler) -> Hertz {
    match tim {
        TimerPrescaler::DefaultX2 => match apb {
            APBPrescaler::Div1 => clk,
            APBPrescaler::Div2 => clk,
            APBPrescaler::Div4 => Hertz((clk.0 as int / 2) as u32),
            APBPrescaler::Div8 => Hertz((clk.0 as int / 4) as u32),
            APBPrescaler::Div16 => Hertz((clk.0 as int / 8) as u32),
        },
        TimerPrescaler::DefaultX4 => match apb {
            APBPrescaler::Div1 => clk,
            APBPrescaler::Div2 => clk,
            APBPrescaler::Div4 => clk,
            APBPrescaler::Div8 => Hertz((clk.0 as int / 2) as u32),
            APBPrescaler::Div16 => Hertz((clk.0 as int / 4) as u32),
        },
    }
}

/// Resolution of the bus tree below a given system clock, with every
/// ceiling check.
pub open spec fn spec_resolve_buses(c: Config, sys: Hertz) -> Result<ResolvedClockTree, ClockError> {
    let cpu = sys.0 as int / c.d1c_pre.spec_divisor() as int;
    let hclk = sys.0 as int / c.ahb_pre.spec_divisor() as int;
    if c.family == ChipFamily::H7 && cpu > spec_max_cpu_clk(c.family, c.voltage_scale) {
        Err(ClockError::CpuClockTooHigh)
    } else if hclk > spec_max_hclk(c.family, c.voltage_scale) {
        Err(ClockError::AhbClockTooHigh)
    } else {
        let hclk_hz = Hertz(hclk as u32);
        let apb1 = hclk / c.apb1_pre.spec_divisor() as int;
        let apb2 = hclk / c.apb2_pre.spec_divisor() as int;
        let apb3 = hclk / c.apb3_pre.spec_divisor() as int;
        let apb4 = hclk / c.apb4_pre.spec_divisor() as int;
        let pclk_max = spec_max_pclk(c.family, c.voltage_scale);
        if apb1 > pclk_max || apb2 > pclk_max || apb3 > pclk_max || (c.family == ChipFamily::H7
            && apb4 > pclk_max) {
            Err(ClockError::ApbClockTooHigh)
        } else {
            Ok(ResolvedClockTree {
                sys: Some(sys),
                hclk: Some(hclk_hz),
                apb1: Some(Hertz(apb1 as u32)),
                apb2: Some(Hertz(apb2 as u32)),
                apb3: Some(Hertz(apb3 as u32)),
                apb4: if c.family == ChipFamily::H7 {
                    Some(Hertz(apb4 as u32))
                } else {
                    None
                },
                apb1_tim: Some(spec_apb_div_tim(c.apb1_pre, hclk_hz, c.timer_prescaler)),
                apb2_tim: Some(spec_apb_div_tim(c.apb2_pre, hclk_hz, c.timer_prescaler)),
                hsi: spec_osc_hsi(c),
                hse: spec_osc_hse(c),
                csi: spec_osc_csi(c),
                hsi48: spec_osc_hsi48(c),
                pll1: PllOutput { p: None, q: None, r: None },
                pll2: PllOutput { p: None, q: None, r: None },
                pll3: PllOutput { p: None, q: None, r: None },
            })
        }
    }
}

/// Output taps of a PLL slot's resolution.
pub open spec fn spec_slot_output(slot: Option<ResolvedPll>) -> PllOutput {
    match slot {
        Some(rp) => rp.out,
        None => PllOutput { p: None, q: None, r: None },
    }
}

/// Full validation: resolves every node of the clock tree and fails on
/// the first violated constraint, in bring-up order.
pub open spec fn spec_validate(c: Config) -> Result<ResolvedClockTree, ClockError> {
    if !spec_hse_mode_supported(c) {
        Err(ClockError::HseModeUnsupported)
    } else if !spec_pll_sources_consistent(c) {
        Err(ClockError::PllSourceMismatch)
    } else {
        match spec_resolve_pll(c, 0) {
            Err(e) => Err(e),
            Ok(slot1) => match spec_resolve_pll(c, 1) {
                Err(e) => Err(e),
                Ok(slot2) => match spec_resolve_pll(c, 2) {
                    Err(e) => Err(e),
                    Ok(slot3) => match spec_sys_clock(c, spec_slot_output(slot1).p) {
                        Err(e) => Err(e),
                        Ok(sys) => match spec_resolve_buses(c, sys) {
                            Err(e) => Err(e),
                            Ok(tree) => Ok(ResolvedClockTree {
                                pll1: spec_slot_output(slot1),
                                pll2: spec_slot_output(slot2),
                                pll3: spec_slot_output(slot3),
                                ..tree
                            }),
                        },
                    },
                },
            },
        }
    }
}

/// Identifier of one node of the clock tree, for frequency queries by
/// peripheral drivers.
#[derive(Clone, Copy, PartialEq, Eq, Structural, Debug)]
pub enum ClockId {
    Sys,
    Hclk,
    Apb1,
    Apb2,
    Apb3,
    Apb4,
    Apb1Tim,
    Apb2Tim,
    Hsi,
    Hse,
    Csi,
    Hsi48,
    Pll1P,
    Pll1Q,
    Pll1R,
    Pll2P,
    Pll2Q,
    Pll2R,
    Pll3P,
    Pll3Q,
    Pll3R,
}

/// Frequency of the identified node; `None` when the node is not
/// driven.
pub open spec fn spec_frequency(tree: ResolvedClockTree, id: ClockId) -> Option<Hertz> {
    match id {
        ClockId::Sys => tree.sys,
        ClockId::Hclk => tree.hclk,
        ClockId::Apb1 => tree.apb1,
        ClockId::Apb2 => tree.apb2,
        ClockId::Apb3 => tree.apb3,
        ClockId::Apb4 => tree.apb4,
        ClockId::Apb1Tim => tree.apb1_tim,
        ClockId::Apb2Tim => tree.apb2_tim,
        ClockId::Hsi => tree.hsi,
        ClockId::Hse => tree.hse,
        ClockId::Csi => tree.csi,
        ClockId::Hsi48 => tree.hsi48,
        ClockId::Pll1P => tree.pll1.p,
        ClockId::Pll1Q => tree.pll1.q,
        ClockId::Pll1R => tree.pll1.r,
        ClockId::Pll2P => tree.pll2.p,
        ClockId::Pll2Q => tree.pll2.q,
        ClockId::Pll2R => tree.pll2.r,
        ClockId::Pll3P => tree.pll3.p,
        ClockId::Pll3Q => tree.pll3.q,
        ClockId::Pll3R => tree.pll3.r,
    }
}

impl ResolvedClockTree {
    /// Frequency of the identified node, for peripheral drivers asking
    /// after their kernel clock; `None` when that node is not driven.
    pub fn frequency(&self, id: ClockId) -> (r: Option<Hertz>)
        ensures
            r == spec_frequency(*self, id),
    {
        match id {
            ClockId::Sys => self.sys,
            ClockId::Hclk => self.hclk,
            ClockId::Apb1 => self.apb1,
            ClockId::Apb2 => self.apb2,
            ClockId::Apb3 => self.apb3,
            ClockId::Apb4 => self.apb4,
            ClockId::Apb1Tim => self.apb1_tim,
            ClockId::Apb2Tim => self.apb2_tim,
            ClockId::Hsi => self.hsi,
            ClockId::Hse => self.hse,
            ClockId::Csi => self.csi,
            ClockId::Hsi48 => self.hsi48,
            ClockId::Pll1P => self.pll1.p,
            ClockId::Pll1Q => self.pll1.q,
            ClockId::Pll1R => self.pll1.r,
            ClockId::Pll2P => self.pll2.p,
            ClockId::Pll2Q => self.pll2.q,
            ClockId::Pll2R => self.pll2.r,
            ClockId::Pll3P => self.pll3.p,
            ClockId::Pll3Q => self.pll3.q,
            ClockId::Pll3R => self.pll3.r,
        }
    }
}

/// Whether a PLL slot's P output divider is unset, counting a disabled
/// slot as unset.
pub open spec fn spec_divp_unset(pll: Option<Pll>) -> bool {
    match pll {
        None => true,
        Some(p) => p.divp is None,
    }
}

/// Whether a PLL slot's Q output divider is unset, counting a disabled
/// slot as unset.
pub open spec fn spec_divq_unset(pll: Option<Pll>) -> bool {
    match pll {
        None => true,
        Some(p) => p.divq is None,
    }
}

/// Whether a PLL slot's R output divider is unset, counting a disabled
/// slot as unset.
pub open spec fn spec_divr_unset(pll: Option<Pll>) -> bool {
    match pll {
        None => true,
        Some(p) => p.divr is None,
    }
}

/// Determinism law: validation is a pure function of the topology, so
/// two resolutions of identical inputs are identical trees.
pub proof fn lemma_validate_deterministic(
    c: Config,
    r1: Result<ResolvedClockTree, ClockError>,
    r2: Result<ResolvedClockTree, ClockError>,
)
    requires
        r1 == spec_validate(c),
        r2 == spec_validate(c),
    ensures
        r1 == r2,
{
}

/// Ceiling law: every bus clock of a tree that passed validation lies at
/// or below its voltage-scale ceiling; a topology that would exceed one
/// never resolves.
pub proof fn lemma_resolved_tree_respects_ceilings(c: Config)
    requires
        spec_validate(c) is Ok,
    ensures
        spec_validate(c) matches Ok(tree) ==> {
            &&& tree.hclk matches Some(h) && h.0 <= spec_max_hclk(c.family, c.voltage_scale)
            &&& tree.apb1 matches Some(h) && h.0 <= spec_max_pclk(c.family, c.voltage_scale)
            &&& tree.apb2 matches Some(h) && h.0 <= spec_max_pclk(c.family, c.voltage_scale)
            &&& tree.apb3 matches Some(h) && h.0 <= spec_max_pclk(c.family, c.voltage_scale)
            &&& c.family == ChipFamily::H7 ==> (tree.apb4 matches Some(h) && h.0 <= spec_max_pclk(
                c.family,
                c.voltage_scale,
            ))
            &&& c.family == ChipFamily::H7 ==> (tree.sys matches Some(s)
                && s.0 as int / c.d1c_pre.spec_divisor() as int <= spec_max_cpu_clk(
                c.family,
                c.voltage_scale,
            ))
        },
{
}

/// Population law: a tree that passed validation carries a frequency on
/// every node the topology drives — the system clock, every bus clock
/// of the family, and both timer kernel clocks.
pub proof fn lemma_resolved_tree_fully_populated(c: Config)
    requires
        spec_validate(c) is Ok,
    ensures
        spec_validate(c) matches Ok(tree) ==> {
            &&& tree.sys is Some
            &&& tree.hclk is Some
            &&& tree.apb1 is Some
            &&& tree.apb2 is Some
            &&& tree.apb3 is Some
            &&& (tree.apb4 is Some <==> c.family == ChipFamily::H7)
            &&& tree.apb1_tim is Some
            &&& tree.apb2_tim is Some
        },
{
}

/// Disabled-implies-absent law: a PLL output tap whose divider is unset
/// resolves to `None` in the validated tree, never to a stale or zero
/// frequency.
pub proof fn lemma_disabled_output_absent(c: Config)
    requires
        spec_validate(c) is Ok,
    ensures
        spec_validate(c) matches Ok(tree) ==> {
            &&& spec_divp_unset(c.pll1) ==> tree.pll1.p is None
            &&& spec_divq_unset(c.pll1) ==> tree.pll1.q is None
            &&& spec_divr_unset(c.pll1) ==> tree.pll1.r is None
            &&& spec_divp_unset(c.pll2) ==> tree.pll2.p is None
            &&& spec_divq_unset(c.pll2) ==> tree.pll2.q is None
            &&& spec_divr_unset(c.pll2) ==> tree.pll2.r is None
            &&& spec_divp_unset(c.pll3) ==> tree.pll3.p is None
            &&& spec_divq_unset(c.pll3) ==> tree.pll3.q is None
            &&& spec_divr_unset(c.pll3) ==> tree.pll3.r is None
        },
{
}

/// Frequency of the internal fast oscillator after its prescaler, when
/// enabled.
pub fn osc_hsi(c: &Config) -> (r: Option<Hertz>)
    ensures
        r == spec_osc_hsi(*c),
{
    match c.hsi {
        Some(p) => Some(Hertz(crate::HSI_FREQ / p.divisor())),
        None => None,
    }
}

/// Declared frequency of the external oscillator, when enabled.
pub fn osc_hse(c: &Config) -> (r: Option<Hertz>)
    ensures
        r == spec_osc_hse(*c),
{
    match c.hse {
        Some(h) => Some(h.freq),
        None => None,
    }
}

/// Frequency of the internal low-power oscillator, when enabled.
pub fn osc_csi(c: &Config) -> (r: Option<Hertz>)
    ensures
        r == spec_osc_csi(*c),
{
    if c.csi {
        Some(Hertz(crate::CSI_FREQ))
    } else {
        None
    }
}

/// Frequency of the internal 48 MHz oscillator, when enabled.
pub fn osc_hsi48(c: &Config) -> (r: Option<Hertz>)
    ensures
        r == spec_osc_hsi48(*c),
{
    if c.hsi48 {
        Some(Hertz(crate::HSI48_FREQ))
    } else {
        None
    }
}

/// Resolves one PLL slot: a disabled slot yields `Ok(None)`; an enabled
/// one yields its reference band, VCO window and output frequencies, or
/// the first violated constraint.
pub fn resolve_pll(c: &Config, num: usize) -> (r: Result<Option<ResolvedPll>, ClockError>)
    requires
        num < 3,
    ensures
        r == spec_resolve_pll(*c, num as int),
{
    let pll = match (if num == 0 {
        c.pll1
    } else if num == 1 {
        c.pll2
    } else {
        c.pll3
    }) {
        None => {
            return Ok(None);
        },
        Some(pll) => pll,
    };

    let in_clk = match pll.source {
        PllSource::Disable => {
            return Err(ClockError::PllSourceNotSelected);
        },
        PllSource::Hsi => match osc_hsi(c) {
            Some(h) => h,
            None => {
                return Err(ClockError::PllSourceNotEnabled);
            },
        },
        PllSource::Csi => match osc_csi(c) {
            Some(h) => h,
            None => {
                return Err(ClockError::PllSourceNotEnabled);
            },
        },
        PllSource::Hse => match osc_hse(c) {
            Some(h) => h,
            None => {
                return Err(ClockError::PllSourceNotEnabled);
            },
        },
    };

    let ref_clk: u32 = in_clk.0 / (pll.prediv.value() as u32);

    let ref_range = if ref_clk <= 1_999_999 {
        PllRefRange::Range1
    } else if ref_clk <= 3_999_999 {
        PllRefRange::Range2
    } else if ref_clk <= 7_999_999 {
        PllRefRange::Range4
    } else if ref_clk <= 16_000_000 {
        PllRefRange::Range8
    } else {
        return Err(ClockError::PllRefClockOutOfRange);
    };

    let mul: u16 = pll.mul.value();
    proof {
        assert(ref_clk as int * mul as int <= 16_000_000 * 512) by (nonlinear_arith)
            requires
                ref_clk <= 16_000_000,
                mul <= 512,
        ;
    }
    let vco_wide: u64 = (ref_clk as u64) * (mul as u64);
    let wide_allowed = ref_range != PllRefRange::Range1;
    let vco_range = if (VCO_MIN as u64) <= vco_wide && vco_wide <= (VCO_MAX as u64) {
        VcoRange::Medium
    } else {
        let (wide_min, wide_max): (u64, u64) = match c.family {
            ChipFamily::H5 => (128_000_000, 560_000_000),
            ChipFamily::H7 => (192_000_000, 960_000_000),
        };
        if wide_allowed && wide_min <= vco_wide && vco_wide <= wide_max {
            VcoRange::Wide
        } else {
            return Err(ClockError::PllVcoOutOfRange);
        }
    };

    let vco: u32 = vco_wide as u32;

    if num == 0 {
        if let Some(d) = pll.divp {
            if d.value() % 2 == 1 {
                return Err(ClockError::Pll1DivPNotEven);
            }
        }
    }

    let p = match pll.divp {
        Some(d) => Some(Hertz(vco / (d.value() as u32))),
        None => None,
    };
    let q = match pll.divq {
        Some(d) => Some(Hertz(vco / (d.value() as u32))),
        None => None,
    };
    let r = match pll.divr {
        Some(d) => Some(Hertz(vco / (d.value() as u32))),
        None => None,
    };

    Ok(
        Some(
            ResolvedPll {
                out: PllOutput { p, q, r },
                ref_range,
                vco_range,
            },
        ),
    )
}

/// Timer kernel clock of an APB domain under the given multiplier policy,
/// where `clk` is the AHB clock the domain divides from.
pub fn apb_div_tim(apb: &APBPrescaler, clk: Hertz, tim: TimerPrescaler) -> (r: Hertz)
    ensures
        r == spec_apb_div_tim(*apb, clk, tim),
{
    match (tim, apb) {
        (TimerPrescaler::DefaultX2, APBPrescaler::Div1) => clk,
        (TimerPrescaler::DefaultX2, APBPrescaler::Div2) => clk,
        (TimerPrescaler::DefaultX2, APBPrescaler::Div4) => Hertz(clk.0 / 2),
        (TimerPrescaler::DefaultX2, APBPrescaler::Div8) => Hertz(clk.0 / 4),
        (TimerPrescaler::DefaultX2, APBPrescaler::Div16) => Hertz(clk.0 / 8),
        (TimerPrescaler::DefaultX4, APBPrescaler::Div1) => clk,
        (TimerPrescaler::DefaultX4, APBPrescaler::Div2) => clk,
        (TimerPrescaler::DefaultX4, APBPrescaler::Div4) => clk,
        (TimerPrescaler::DefaultX4, APBPrescaler::Div8) => Hertz(clk.0 / 2),
        (TimerPrescaler::DefaultX4, APBPrescaler::Div16) => Hertz(clk.0 / 4),
    }
}

/// Validates the whole topology: computes every node's frequency and
/// checks every hardware limit, returning the resolved tree or the first
/// violated constraint. Touches no hardware; a pure function of the
/// configuration.
pub fn validate(c: &Config) -> (r: Result<ResolvedClockTree, ClockError>)
    ensures
        r == spec_validate(*c),
{
    if let Some(h) = c.hse {
        if c.family == ChipFamily::H7 && h.mode == HseMode::BypassDigital {
            return Err(ClockError::HseModeUnsupported);
        }
    }

    if let (Some(a), Some(b)) = (c.pll1, c.pll2) {
        if a.source != b.source {
            return Err(ClockError::PllSourceMismatch);
        }
    }
    if let (Some(a), Some(b)) = (c.pll1, c.pll3) {
        if a.source != b.source {
            return Err(ClockError::PllSourceMismatch);
        }
    }
    if let (Some(a), Some(b)) = (c.pll2, c.pll3) {
        if a.source != b.source {
            return Err(ClockError::PllSourceMismatch);
        }
    }

    let slot1 = match resolve_pll(c, 0) {
        Ok(s) => s,
        Err(e) => {
            return Err(e);
        },
    };
    let slot2 = match resolve_pll(c, 1) {
        Ok(s) => s,
        Err(e) => {
            return Err(e);
        },
    };
    let slot3 = match resolve_pll(c, 2) {
        Ok(s) => s,
        Err(e) => {
            return Err(e);
        },
    };

    let pll1 = match slot1 {
        Some(rp) => rp.out,
        None => PllOutput { p: None, q: None, r: None },
    };
    let pll2 = match slot2 {
        Some(rp) => rp.out,
        None => PllOutput { p: None, q: None, r: None },
    };
    let pll3 = match slot3 {
        Some(rp) => rp.out,
        None => PllOutput { p: None, q: None, r: None },
    };

    let chosen = match c.sys {
        Sysclk::Hsi => osc_hsi(c),
        Sysclk::Csi => osc_csi(c),
        Sysclk::Hse => osc_hse(c),
        Sysclk::Pll1P => pll1.p,
    };
    let sys = match chosen {
        Some(h) => h,
        None => {
            return Err(ClockError::SysclkSourceNotEnabled);
        },
    };

    match resolve_buses(c, sys) {
        Err(e) => Err(e),
        Ok(tree) => Ok(ResolvedClockTree { pll1, pll2, pll3, ..tree }),
    }
}

/// Resolves the bus tree below the given system clock and checks every
/// voltage-scale ceiling.
fn resolve_buses(c: &Config, sys: Hertz) -> (r: Result<ResolvedClockTree, ClockError>)
    ensures
        r == spec_resolve_buses(*c, sys),
{
    let cpu: u32 = sys.0 / c.d1c_pre.divisor();
    let hclk: u32 = sys.0 / c.ahb_pre.divisor();

    let (cpu_max, hclk_max, pclk_max): (u32, u32, u32) = match (c.family, c.voltage_scale) {
        (ChipFamily::H5, VoltageScale::Scale0) => (250_000_000, 250_000_000, 250_000_000),
        (ChipFamily::H5, VoltageScale::Scale1) => (200_000_000, 200_000_000, 200_000_000),
        (ChipFamily::H5, VoltageScale::Scale2) => (150_000_000, 150_000_000, 150_000_000),
        (ChipFamily::H5, VoltageScale::Scale3) => (100_000_000, 100_000_000, 100_000_000),
        (ChipFamily::H7, VoltageScale::Scale0) => (480_000_000, 240_000_000, 120_000_000),
        (ChipFamily::H7, VoltageScale::Scale1) => (400_000_000, 200_000_000, 100_000_000),
        (ChipFamily::H7, VoltageScale::Scale2) => (300_000_000, 150_000_000, 75_000_000),
        (ChipFamily::H7, VoltageScale::Scale3) => (200_000_000, 100_000_000, 50_000_000),
    };

    if c.family == ChipFamily::H7 && cpu > cpu_max {
        return Err(ClockError::CpuClockTooHigh);
    }
    if hclk > hclk_max {
        return Err(ClockError::AhbClockTooHigh);
    }

    let hclk_hz = Hertz(hclk);
    let apb1: u32 = hclk / c.apb1_pre.divisor();
    let apb2: u32 = hclk / c.apb2_pre.divisor();
    let apb3: u32 = hclk / c.apb3_pre.divisor();
    let apb4: u32 = hclk / c.apb4_pre.divisor();

    if apb1 > pclk_max || apb2 > pclk_max || apb3 > pclk_max || (c.family == ChipFamily::H7 && apb4
        > pclk_max) {
        return Err(ClockError::ApbClockTooHigh);
    }

    Ok(
        ResolvedClockTree {
            sys: Some(sys),
            hclk: Some(hclk_hz),
            apb1: Some(Hertz(apb1)),
            apb2: Some(Hertz(apb2)),
            apb3: Some(Hertz(apb3)),
            apb4: if c.family == ChipFamily::H7 {
                Some(Hertz(apb4))
            } else {
                None
            },
            apb1_tim: Some(apb_div_tim(&c.apb1_pre, hclk_hz, c.timer_prescaler)),
            apb2_tim: Some(apb_div_tim(&c.apb2_pre, hclk_hz, c.timer_prescaler)),
            hsi: osc_hsi(c),
            hse: osc_hse(c),
            csi: osc_csi(c),
            hsi48: osc_hsi48(c),
            pll1: PllOutput { p: None, q: None, r: None },
            pll2: PllOutput { p: None, q: None, r: None },
            pll3: PllOutput { p: None, q: None, r: None },
        },
    )
}

} // verus!

//! Complementary PWM driver model: the decision layer of a PWM driver
//! with complementary outputs on an advanced 16-bit timer. The struct
//! mirrors the timer's programmed state as plain values; a thin hardware
//! layer writes each change to the corresponding registers.

use vstd::prelude::*;

use crate::dead_time::compute_dead_time_value;
use crate::dead_time::spec_best_ckd;
use crate::dead_time::spec_dead_time_code;
use crate::dead_time::Ckd;
use crate::time::Hertz;

verus! {

/// Timer channel selector.
#[derive(Clone, Copy, PartialEq, Eq, Structural, Debug)]
pub enum Channel {
    Ch1,
    Ch2,
    Ch3,
    Ch4,
}

/// Output polarity of a PWM output.
#[derive(Clone, Copy, PartialEq, Eq, Structural, Debug)]
pub enum OutputPolarity {
    ActiveHigh,
    ActiveLow,
}

/// Drive type of a configured output pin.
#[derive(Clone, Copy, PartialEq, Eq, Structural, Debug)]
pub enum OutputType {
    PushPull,
    OpenDrain,
}

/// Counting mode of the timer.
#[derive(Clone, Copy, PartialEq, Eq, Structural, Debug)]
pub enum CountingMode {
    /// Counts up to the period, then restarts at zero.
    EdgeAlignedUp,
    /// Counts down from the period, then restarts at the period.
    EdgeAlignedDown,
    /// Counts up and down alternately; compare interrupts while
    /// counting down.
    CenterAlignedDownInterrupts,
    /// Counts up and down alternately; compare interrupts while
    /// counting up.
    CenterAlignedUpInterrupts,
    /// Counts up and down alternately; compare interrupts both ways.
    CenterAlignedBothInterrupts,
}

impl CountingMode {
    /// Whether the mode counts up and down alternately, halving the
    /// effective output frequency.
    pub open spec fn spec_is_center_aligned(self) -> bool {
        match self {
            CountingMode::EdgeAlignedUp => false,
            CountingMode::EdgeAlignedDown => false,
            CountingMode::CenterAlignedDownInterrupts => true,
            CountingMode::CenterAlignedUpInterrupts => true,
            CountingMode::CenterAlignedBothInterrupts => true,
        }
    }

    /// Whether the mode counts up and down alternately.
    pub fn is_center_aligned(self) -> (r: bool)
        ensures
            r == self.spec_is_center_aligned(),
    {
        match self {
            CountingMode::EdgeAlignedUp => false,
            CountingMode::EdgeAlignedDown => false,
            CountingMode::CenterAlignedDownInterrupts => true,
            CountingMode::CenterAlignedUpInterrupts => true,
            CountingMode::CenterAlignedBothInterrupts => true,
        }
    }
}

/// A pin configured as a main PWM output of one channel. The electrical
/// pin setup itself is the hardware layer's work.
#[derive(Clone, Copy, PartialEq, Eq, Structural, Debug)]
pub struct PwmPin {
    /// Channel the pin drives.
    pub channel: Channel,
    /// Drive type the pin was configured with.
    pub output_type: OutputType,
}

/// A pin configured as a complementary PWM output of one channel. The
/// electrical pin setup itself is the hardware layer's work.
#[derive(Clone, Copy, PartialEq, Eq, Structural, Debug)]
pub struct ComplementaryPwmPin {
    /// Channel the pin drives.
    pub channel: Channel,
    /// Drive type the pin was configured with.
    pub output_type: OutputType,
}

impl ComplementaryPwmPin {
    /// Records a pin configured as the complementary output of the
    /// given channel.
    pub fn new(channel: Channel, output_type: OutputType) -> (r: ComplementaryPwmPin)
        ensures
            r == (ComplementaryPwmPin { channel, output_type }),
    {
        ComplementaryPwmPin { channel, output_type }
    }
}

impl PwmPin {
    /// Records a pin configured as the main output of the given
    /// channel.
    pub fn new(channel: Channel, output_type: OutputType) -> (r: PwmPin)
        ensures
            r == (PwmPin { channel, output_type }),
    {
        PwmPin { channel, output_type }
    }
}

/// Programmed state of one timer channel.
#[derive(Clone, Copy, PartialEq, Eq, Structural, Debug)]
pub struct ChannelState {
    /// Main output enabled.
    pub enabled: bool,
    /// Complementary output enabled.
    pub complementary_enabled: bool,
    /// Compare value; the duty in timer ticks.
    pub compare_value: u16,
    /// Main output polarity.
    pub polarity: OutputPolarity,
    /// Complementary output polarity.
    pub complementary_polarity: OutputPolarity,
}

/// A freshly configured, idle channel: outputs off, zero duty, active
/// high.
pub open spec fn spec_idle_channel() -> ChannelState {
    ChannelState {
        enabled: false,
        complementary_enabled: false,
        compare_value: 0,
        polarity: OutputPolarity::ActiveHigh,
        complementary_polarity: OutputPolarity::ActiveHigh,
    }
}

/// Multiplier the counting mode imposes on the requested frequency: a
/// center-aligned counter passes the period twice per cycle.
pub open spec fn spec_frequency_multiplier(m: CountingMode) -> u32 {
    if m.spec_is_center_aligned() {
        2
    } else {
        1
    }
}

/// Kernel clock ticks per output cycle at the target frequency.
pub open spec fn spec_total_ticks(kernel: Hertz, target: int) -> int {
    kernel.0 as int / target
}

/// Smallest counter prescaler under which the cycle's ticks fit the
/// 16-bit counter.
pub open spec fn spec_prescaler(total: int) -> int {
    (total - 1) / 65536
}

/// Counter period (the maximum compare value) under that prescaler.
pub open spec fn spec_period(total: int) -> int {
    total / (spec_prescaler(total) + 1) - 1
}

/// Whether a requested output frequency is reachable from the kernel
/// clock: positive, no overflow once the counting mode's multiplier is
/// applied, and at least one kernel tick per cycle (the prescaler
/// covers arbitrarily slow cycles beyond the 16-bit counter).
pub open spec fn spec_valid_frequency(kernel: Hertz, freq: Hertz, m: CountingMode) -> bool {
    &&& freq.0 > 0
    &&& freq.0 * spec_frequency_multiplier(m) <= u32::MAX
    &&& kernel.0 as int / (freq.0 * spec_frequency_multiplier(m)) >= 1
}

/// PWM driver with support for standard and complementary outputs: the
/// programmed timer state as plain values.
#[derive(Clone, Copy, PartialEq, Eq, Structural, Debug)]
pub struct ComplementaryPwm {
    /// Kernel clock the timer counts at, from the resolved clock tree.
    pub kernel_clock: Hertz,
    /// Counting mode programmed at construction.
    pub counting_mode: CountingMode,
    /// Requested output frequency.
    pub frequency: Hertz,
    /// Programmed counter prescaler.
    pub prescaler: u16,
    /// Programmed period: the maximum compare value.
    pub max_compare_value: u16,
    /// First channel.
    pub ch1: ChannelState,
    /// Second channel.
    pub ch2: ChannelState,
    /// Third channel.
    pub ch3: ChannelState,
    /// Fourth channel.
    pub ch4: ChannelState,
    /// Dead-time generator clock divider.
    pub dead_time_ckd: Ckd,
    /// Dead-time generator 8-bit code.
    pub dead_time_code: u8,
}

/// The state of the given channel.
pub open spec fn spec_channel(s: ComplementaryPwm, ch: Channel) -> ChannelState {
    match ch {
        Channel::Ch1 => s.ch1,
        Channel::Ch2 => s.ch2,
        Channel::Ch3 => s.ch3,
        Channel::Ch4 => s.ch4,
    }
}

/// The driver state with the given channel replaced.
pub open spec fn spec_with_channel(
    s: ComplementaryPwm,
    ch: Channel,
    cs: ChannelState,
) -> ComplementaryPwm {
    match ch {
        Channel::Ch1 => ComplementaryPwm { ch1: cs, ..s },
        Channel::Ch2 => ComplementaryPwm { ch2: cs, ..s },
        Channel::Ch3 => ComplementaryPwm { ch3: cs, ..s },
        Channel::Ch4 => ComplementaryPwm { ch4: cs, ..s },
    }
}

/// Maximum duty value: the period, plus one on edge-aligned counters
/// whose compare matches on the period tick itself.
pub open spec fn spec_max_duty(s: ComplementaryPwm) -> int {
    if s.counting_mode.spec_is_center_aligned() {
        s.max_compare_value as int
    } else {
        s.max_compare_value as int + 1
    }
}

impl ComplementaryPwm {
    /// Creates a new complementary PWM driver over the timer fed by the
    /// given kernel clock, with every declared pin already configured
    /// and every channel idle.
    pub fn new(
        kernel_clock: Hertz,
        _ch1: Option<PwmPin>,
        _ch1n: Option<ComplementaryPwmPin>,
        _ch2: Option<PwmPin>,
        _ch2n: Option<ComplementaryPwmPin>,
        _ch3: Option<PwmPin>,
        _ch3n: Option<ComplementaryPwmPin>,
        _ch4: Option<PwmPin>,
        _ch4n: Option<ComplementaryPwmPin>,
        freq: Hertz,
        counting_mode: CountingMode,
    ) -> (r: ComplementaryPwm)
        requires
            spec_valid_frequency(kernel_clock, freq, counting_mode),
        ensures
            r == spec_new_pwm(kernel_clock, freq, counting_mode),
    {
        Self::new_inner(kernel_clock, freq, counting_mode)
    }

    /// Shared construction: program the counting mode and frequency and
    /// leave every channel idle.
    fn new_inner(kernel_clock: Hertz, freq: Hertz, counting_mode: CountingMode) -> (r:
        ComplementaryPwm)
        requires
            spec_valid_frequency(kernel_clock, freq, counting_mode),
        ensures
            r == spec_new_pwm(kernel_clock, freq, counting_mode),
    {
        let mut this = ComplementaryPwm {
            kernel_clock,
            counting_mode,
            frequency: freq,
            prescaler: 0,
            max_compare_value: 0,
            ch1: idle_channel(),
            ch2: idle_channel(),
            ch3: idle_channel(),
            ch4: idle_channel(),
            dead_time_ckd: Ckd::Div1,
            dead_time_code: 0,
        };
        this.set_frequency(freq);
        this
    }

    /// Sets the PWM output frequency by reprogramming the prescaler
    /// and the period. The maximum duty value changes with it, so
    /// every channel's duty must be set again afterwards.
    pub fn set_frequency(&mut self, freq: Hertz)
        requires
            spec_valid_frequency(old(self).kernel_clock, freq, old(self).counting_mode),
        ensures
            *final(self) == (ComplementaryPwm {
                frequency: freq,
                prescaler: (spec_prescaler(
                    spec_total_ticks(
                        old(self).kernel_clock,
                        freq.0 * spec_frequency_multiplier(old(self).counting_mode),
                    ),
                )) as u16,
                max_compare_value: (spec_period(
                    spec_total_ticks(
                        old(self).kernel_clock,
                        freq.0 * spec_frequency_multiplier(old(self).counting_mode),
                    ),
                )) as u16,
                ..*old(self)
            }),
    {
        let multiplier: u32 = if self.counting_mode.is_center_aligned() {
            2
        } else {
            1
        };
        let target: u32 = freq.0 * multiplier;
        let total: u32 = self.kernel_clock.0 / target;
        let psc: u32 = (total - 1) / 65536;
        proof {
            assert(total <= (psc + 1) * 65536) by (nonlinear_arith)
                requires
                    psc == (total - 1) as int / 65536,
                    total >= 1,
            ;
            assert(total as int / (psc + 1) as int <= 65536) by (nonlinear_arith)
                requires
                    total <= (psc + 1) * 65536,
                    psc >= 0,
            ;
            assert(total as int / (psc + 1) as int >= 1) by (nonlinear_arith)
                requires
                    psc + 1 <= total,
                    psc >= 0,
            ;
        }
        let arr: u32 = total / (psc + 1) - 1;
        self.frequency = freq;
        self.prescaler = psc as u16;
        self.max_compare_value = arr as u16;
    }

    /// Maximum duty value at the programmed frequency; a duty of this
    /// value is 100%.
    pub fn get_max_duty(&self) -> (r: u16)
        requires
            self.counting_mode.spec_is_center_aligned() || self.max_compare_value < 65535,
        ensures
            r == spec_max_duty(*self),
    {
        if self.counting_mode.is_center_aligned() {
            self.max_compare_value
        } else {
            self.max_compare_value + 1
        }
    }

    /// Enables the given channel: the main output first, then the
    /// complementary output.
    pub fn enable(&mut self, channel: Channel)
        ensures
            *final(self) == spec_with_channel(
                *old(self),
                channel,
                (ChannelState {
                    enabled: true,
                    complementary_enabled: true,
                    ..spec_channel(*old(self), channel)
                }),
            ),
    {
        let cs = self.channel_state(channel);
        self.set_channel_state(
            channel,
            ChannelState { enabled: true, complementary_enabled: true, ..cs },
        );
    }

    /// Disables the given channel: the complementary output first, then
    /// the main output.
    pub fn disable(&mut self, channel: Channel)
        ensures
            *final(self) == spec_with_channel(
                *old(self),
                channel,
                (ChannelState {
                    enabled: false,
                    complementary_enabled: false,
                    ..spec_channel(*old(self), channel)
                }),
            ),
    {
        let cs = self.channel_state(channel);
        self.set_channel_state(
            channel,
            ChannelState { enabled: false, complementary_enabled: false, ..cs },
        );
    }

    /// Sets the duty of the given channel, from 0 for fully off to the
    /// maximum duty value for fully on.
    pub fn set_duty(&mut self, channel: Channel, duty: u16)
        requires
            old(self).counting_mode.spec_is_center_aligned() || old(self).max_compare_value
                < 65535,
            duty as int <= spec_max_duty(*old(self)),
        ensures
            *final(self) == spec_with_channel(
                *old(self),
                channel,
                (ChannelState { compare_value: duty, ..spec_channel(*old(self), channel) }),
            ),
    {
        let cs = self.channel_state(channel);
        self.set_channel_state(channel, ChannelState { compare_value: duty, ..cs });
    }

    /// Sets the polarity of both outputs of the given channel.
    pub fn set_polarity(&mut self, channel: Channel, polarity: OutputPolarity)
        ensures
            *final(self) == spec_with_channel(
                *old(self),
                channel,
                (ChannelState {
                    polarity,
                    complementary_polarity: polarity,
                    ..spec_channel(*old(self), channel)
                }),
            ),
    {
        let cs = self.channel_state(channel);
        self.set_channel_state(
            channel,
            ChannelState { polarity, complementary_polarity: polarity, ..cs },
        );
    }

    /// Resolves and programs the dead time, in dead-time generator
    /// ticks: the divider and code closest to the requested value.
    pub fn set_dead_time(&mut self, value: u16)
        ensures
            *final(self) == (ComplementaryPwm {
                dead_time_ckd: spec_best_ckd(value),
                dead_time_code: spec_dead_time_code(value, spec_best_ckd(value)),
                ..*old(self)
            }),
    {
        let (ckd, code) = compute_dead_time_value(value);
        self.dead_time_ckd = ckd;
        self.dead_time_code = code;
    }

    /// The programmed state of the given channel.
    pub fn channel_state(&self, channel: Channel) -> (r: ChannelState)
        ensures
            r == spec_channel(*self, channel),
    {
        match channel {
            Channel::Ch1 => self.ch1,
            Channel::Ch2 => self.ch2,
            Channel::Ch3 => self.ch3,
            Channel::Ch4 => self.ch4,
        }
    }

    /// Replaces the programmed state of the given channel.
    fn set_channel_state(&mut self, channel: Channel, cs: ChannelState)
        ensures
            *final(self) == spec_with_channel(*old(self), channel, cs),
    {
        match channel {
            Channel::Ch1 => {
                self.ch1 = cs;
            },
            Channel::Ch2 => {
                self.ch2 = cs;
            },
            Channel::Ch3 => {
                self.ch3 = cs;
            },
            Channel::Ch4 => {
                self.ch4 = cs;
            },
        }
    }
}

/// The driver state right after construction: idle channels, no dead
/// time, the prescaler and period programmed for the requested
/// frequency.
pub open spec fn spec_new_pwm(kernel: Hertz, freq: Hertz, m: CountingMode) -> ComplementaryPwm {
    ComplementaryPwm {
        kernel_clock: kernel,
        counting_mode: m,
        frequency: freq,
        prescaler: (spec_prescaler(spec_total_ticks(kernel, freq.0 * spec_frequency_multiplier(m)))) as u16,
        max_compare_value: (spec_period(spec_total_ticks(kernel, freq.0 * spec_frequency_multiplier(m)))) as u16,
        ch1: spec_idle_channel(),
        ch2: spec_idle_channel(),
        ch3: spec_idle_channel(),
        ch4: spec_idle_channel(),
        dead_time_ckd: Ckd::Div1,
        dead_time_code: 0,
    }
}

/// A freshly configured, idle channel.
fn idle_channel() -> (r: ChannelState)
    ensures
        r == spec_idle_channel(),
{
    ChannelState {
        enabled: false,
        complementary_enabled: false,
        compare_value: 0,
        polarity: OutputPolarity::ActiveHigh,
        complementary_polarity: OutputPolarity::ActiveHigh,
    }
}

} // verus!

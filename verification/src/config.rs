//! Declarative clock topology model: which oscillators run, how each PLL
//! is divided and multiplied, which source drives the system clock, and
//! how the bus prescalers and supply are set. Pure data; the validator
//! turns it into resolved frequencies.

use vstd::prelude::*;

use crate::time::Hertz;

verus! {

/// Silicon family whose limit tables and register layout apply.
#[derive(Clone, Copy, PartialEq, Eq, Structural, Debug)]
pub enum ChipFamily {
    /// H5-class parts: no separate CPU-domain divider, narrow
    /// wide-VCO window.
    H5,
    /// H7-class parts (RM0399-style power supply): CPU-domain divider,
    /// broad wide-VCO window.
    H7,
}

/// Core supply voltage operating point; `Scale0` is the fastest and most
/// power-hungry, `Scale3` the slowest. Every frequency ceiling and the
/// flash timing table are indexed by it.
#[derive(Clone, Copy, PartialEq, Eq, Structural, Debug)]
pub enum VoltageScale {
    Scale0,
    Scale1,
    Scale2,
    Scale3,
}

/// How the external high-speed oscillator input is driven.
#[derive(Clone, Copy, PartialEq, Eq, Structural, Debug)]
pub enum HseMode {
    /// Crystal/ceramic oscillator.
    Oscillator,
    /// External analog clock, low swing.
    Bypass,
    /// External digital clock, full swing; H5-class parts only.
    BypassDigital,
}

/// External high-speed oscillator settings.
#[derive(Clone, Copy, PartialEq, Eq, Structural, Debug)]
pub struct Hse {
    /// Nominal frequency of the external clock or crystal.
    pub freq: Hertz,
    /// Drive mode of the oscillator input.
    pub mode: HseMode,
}

/// Divider applied to the internal fast oscillator's base frequency.
#[derive(Clone, Copy, PartialEq, Eq, Structural, Debug)]
pub enum HSIPrescaler {
    Div1,
    Div2,
    Div4,
    Div8,
}

impl HSIPrescaler {
    /// Division factor this prescaler encodes.
    pub open spec fn spec_divisor(self) -> u32 {
        match self {
            HSIPrescaler::Div1 => 1,
            HSIPrescaler::Div2 => 2,
            HSIPrescaler::Div4 => 4,
            HSIPrescaler::Div8 => 8,
        }
    }

    /// Division factor this prescaler encodes.
    pub fn divisor(self) -> (r: u32)
        ensures
            r == self.spec_divisor(),
            1 <= r <= 8,
    {
        match self {
            HSIPrescaler::Div1 => 1,
            HSIPrescaler::Div2 => 2,
            HSIPrescaler::Div4 => 4,
            HSIPrescaler::Div8 => 8,
        }
    }
}

/// Reference-clock source feeding a PLL.
#[derive(Clone, Copy, PartialEq, Eq, Structural, Debug)]
pub enum PllSource {
    /// No source selected; invalid on an enabled PLL.
    Disable,
    /// Internal fast oscillator.
    Hsi,
    /// Internal low-power oscillator.
    Csi,
    /// External oscillator.
    Hse,
}

/// PLL input pre-divider (DIVM), 1 to 63.
#[derive(Clone, Copy, PartialEq, Eq, Structural, Debug)]
pub struct PllPreDiv {
    value: u8,
}

impl PllPreDiv {
    /// The divider the hardware field can hold.
    #[verifier::type_invariant]
    pub closed spec fn inv(self) -> bool {
        1 <= self.value <= 63
    }

    /// Division factor.
    pub closed spec fn spec_value(self) -> u8 {
        self.value
    }

    /// Wrap a division factor; `None` outside the representable 1..=63.
    pub fn new(value: u8) -> (r: Option<PllPreDiv>)
        ensures
            (1 <= value <= 63) <==> r is Some,
            r is Some ==> r->0.spec_value() == value,
    {
        if 1 <= value && value <= 63 {
            Some(PllPreDiv { value })
        } else {
            None
        }
    }

    /// Division factor.
    pub fn value(self) -> (r: u8)
        ensures
            r == self.spec_value(),
            1 <= r <= 63,
    {
        proof {
            use_type_invariant(self);
        }
        self.value
    }
}

/// PLL multiplication factor (DIVN), 4 to 512.
#[derive(Clone, Copy, PartialEq, Eq, Structural, Debug)]
pub struct PllMul {
    value: u16,
}

impl PllMul {
    /// The multiplier the hardware field can hold.
    #[verifier::type_invariant]
    pub closed spec fn inv(self) -> bool {
        4 <= self.value <= 512
    }

    /// Multiplication factor.
    pub closed spec fn spec_value(self) -> u16 {
        self.value
    }

    /// Wrap a multiplication factor; `None` outside the representable
    /// 4..=512.
    pub fn new(value: u16) -> (r: Option<PllMul>)
        ensures
            (4 <= value <= 512) <==> r is Some,
            r is Some ==> r->0.spec_value() == value,
    {
        if 4 <= value && value <= 512 {
            Some(PllMul { value })
        } else {
            None
        }
    }

    /// Multiplication factor.
    pub fn value(self) -> (r: u16)
        ensures
            r == self.spec_value(),
            4 <= r <= 512,
    {
        proof {
            use_type_invariant(self);
        }
        self.value
    }
}

/// PLL output divider (DIVP/DIVQ/DIVR), 1 to 128.
#[derive(Clone, Copy, PartialEq, Eq, Structural, Debug)]
pub struct PllDiv {
    value: u8,
}

impl PllDiv {
    /// The divider the hardware field can hold.
    #[verifier::type_invariant]
    pub closed spec fn inv(self) -> bool {
        1 <= self.value <= 128
    }

    /// Division factor.
    pub closed spec fn spec_value(self) -> u8 {
        self.value
    }

    /// Wrap a division factor; `None` outside the representable 1..=128.
    pub fn new(value: u8) -> (r: Option<PllDiv>)
        ensures
            (1 <= value <= 128) <==> r is Some,
            r is Some ==> r->0.spec_value() == value,
    {
        if 1 <= value && value <= 128 {
            Some(PllDiv { value })
        } else {
            None
        }
    }

    /// Division factor.
    pub fn value(self) -> (r: u8)
        ensures
            r == self.spec_value(),
            1 <= r <= 128,
    {
        proof {
            use_type_invariant(self);
        }
        self.value
    }
}

/// One PLL's configuration. An output divider left `None` disables that
/// output tap.
#[derive(Clone, Copy, PartialEq, Eq, Structural, Debug)]
pub struct Pll {
    /// Reference-clock source selection.
    pub source: PllSource,
    /// Input pre-divider (DIVM).
    pub prediv: PllPreDiv,
    /// Multiplication factor (DIVN).
    pub mul: PllMul,
    /// P output divider; `None` disables the P output.
    pub divp: Option<PllDiv>,
    /// Q output divider; `None` disables the Q output.
    pub divq: Option<PllDiv>,
    /// R output divider; `None` disables the R output.
    pub divr: Option<PllDiv>,
}

/// AHB/CPU-domain prescaler.
#[derive(Clone, Copy, PartialEq, Eq, Structural, Debug)]
pub enum AHBPrescaler {
    Div1,
    Div2,
    Div4,
    Div8,
    Div16,
    Div64,
    Div128,
    Div256,
    Div512,
}

impl AHBPrescaler {
    /// Division factor this prescaler encodes.
    pub open spec fn spec_divisor(self) -> u32 {
        match self {
            AHBPrescaler::Div1 => 1,
            AHBPrescaler::Div2 => 2,
            AHBPrescaler::Div4 => 4,
            AHBPrescaler::Div8 => 8,
            AHBPrescaler::Div16 => 16,
            AHBPrescaler::Div64 => 64,
            AHBPrescaler::Div128 => 128,
            AHBPrescaler::Div256 => 256,
            AHBPrescaler::Div512 => 512,
        }
    }

    /// Division factor this prescaler encodes.
    pub fn divisor(self) -> (r: u32)
        ensures
            r == self.spec_divisor(),
            1 <= r <= 512,
    {
        match self {
            AHBPrescaler::Div1 => 1,
            AHBPrescaler::Div2 => 2,
            AHBPrescaler::Div4 => 4,
            AHBPrescaler::Div8 => 8,
            AHBPrescaler::Div16 => 16,
            AHBPrescaler::Div64 => 64,
            AHBPrescaler::Div128 => 128,
            AHBPrescaler::Div256 => 256,
            AHBPrescaler::Div512 => 512,
        }
    }
}

/// APB bus prescaler.
#[derive(Clone, Copy, PartialEq, Eq, Structural, Debug)]
pub enum APBPrescaler {
    Div1,
    Div2,
    Div4,
    Div8,
    Div16,
}

impl APBPrescaler {
    /// Division factor this prescaler encodes.
    pub open spec fn spec_divisor(self) -> u32 {
        match self {
            APBPrescaler::Div1 => 1,
            APBPrescaler::Div2 => 2,
            APBPrescaler::Div4 => 4,
            APBPrescaler::Div8 => 8,
            APBPrescaler::Div16 => 16,
        }
    }

    /// Division factor this prescaler encodes.
    pub fn divisor(self) -> (r: u32)
        ensures
            r == self.spec_divisor(),
            1 <= r <= 16,
    {
        match self {
            APBPrescaler::Div1 => 1,
            APBPrescaler::Div2 => 2,
            APBPrescaler::Div4 => 4,
            APBPrescaler::Div8 => 8,
            APBPrescaler::Div16 => 16,
        }
    }
}

/// System clock source selection.
#[derive(Clone, Copy, PartialEq, Eq, Structural, Debug)]
pub enum Sysclk {
    /// Internal fast oscillator.
    Hsi,
    /// Internal low-power oscillator.
    Csi,
    /// External oscillator.
    Hse,
    /// P output of the first PLL.
    Pll1P,
}

/// Default multiplier policy for the timer kernel clocks derived from each
/// APB bus clock.
#[derive(Clone, Copy, PartialEq, Eq, Structural, Debug)]
pub enum TimerPrescaler {
    /// Timer kernel clock equals the AHB clock when the APB prescaler
    /// divides by 1 or 2, else twice the APB clock.
    DefaultX2,
    /// Timer kernel clock equals the AHB clock when the APB prescaler
    /// divides by 1, 2 or 4, else four times the APB clock.
    DefaultX4,
}

/// SMPS step-down converter output level, used by the supply
/// configurations that run the converter.
#[derive(Clone, Copy, PartialEq, Eq, Structural, Debug)]
pub enum SMPSSupplyVoltage {
    /// 1.8 V output.
    V1_8,
    /// 2.5 V output.
    V2_5,
}

/// Power supply topology of the core voltage domains, applied once at the
/// start of bring-up on H7-class parts.
#[derive(Clone, Copy, PartialEq, Eq, Structural, Debug)]
pub enum SupplyConfig {
    /// Reset-default supply: LDO active, converter enabled at its reset
    /// level and free to feed the LDO.
    Default,
    /// Core domains fed from the LDO alone; converter disabled.
    LDO,
    /// Core domains fed directly from the converter; LDO bypassed.
    DirectSMPS,
    /// Converter at the given level supplies the LDO, which feeds the
    /// core domains.
    SMPSLDO(SMPSSupplyVoltage),
    /// Converter at the given level supplies external circuits and may
    /// supply the LDO.
    SMPSExternalLDO(SMPSSupplyVoltage),
    /// Converter at the given level supplies external circuits; the LDO
    /// is bypassed and the core is fed externally.
    SMPSExternalLDOBypass(SMPSSupplyVoltage),
    /// Converter disabled and LDO bypassed; core fed from an external
    /// source.
    SMPSDisabledLDOBypass,
}

/// Configuration of the core clocks: the topology the caller declares and
/// the validator resolves.
#[derive(Clone, Copy, PartialEq, Eq, Structural, Debug)]
#[non_exhaustive]
pub struct Config {
    /// Silicon family whose limits and register layout apply.
    pub family: ChipFamily,
    /// Internal fast oscillator: enabled with the given divider, or off.
    pub hsi: Option<HSIPrescaler>,
    /// External oscillator settings, or off.
    pub hse: Option<Hse>,
    /// Internal low-power oscillator enabled.
    pub csi: bool,
    /// Internal 48 MHz oscillator enabled.
    pub hsi48: bool,
    /// System clock source.
    pub sys: Sysclk,
    /// First PLL, or off.
    pub pll1: Option<Pll>,
    /// Second PLL, or off.
    pub pll2: Option<Pll>,
    /// Third PLL, or off.
    pub pll3: Option<Pll>,
    /// CPU-domain divider; used on families with a separate core domain.
    pub d1c_pre: AHBPrescaler,
    /// AHB bus divider.
    pub ahb_pre: AHBPrescaler,
    /// APB1 bus divider.
    pub apb1_pre: APBPrescaler,
    /// APB2 bus divider.
    pub apb2_pre: APBPrescaler,
    /// APB3 bus divider.
    pub apb3_pre: APBPrescaler,
    /// APB4 bus divider; used on H7-class parts.
    pub apb4_pre: APBPrescaler,
    /// Timer kernel clock multiplier policy.
    pub timer_prescaler: TimerPrescaler,
    /// Core supply operating point.
    pub voltage_scale: VoltageScale,
    /// Power supply topology; used on H7-class parts.
    pub supply_config: SupplyConfig,
}

impl Config {
    /// The default topology for the given family: internal fast
    /// oscillator undivided as system clock, internal 48 MHz oscillator
    /// on, no external oscillator, no PLLs, every divider 1,
    /// lowest-power voltage scale, LDO supply.
    pub fn new(family: ChipFamily) -> (r: Config)
        ensures
            r == (Config {
                family,
                hsi: Some(HSIPrescaler::Div1),
                hse: None,
                csi: false,
                hsi48: true,
                sys: Sysclk::Hsi,
                pll1: None,
                pll2: None,
                pll3: None,
                d1c_pre: AHBPrescaler::Div1,
                ahb_pre: AHBPrescaler::Div1,
                apb1_pre: APBPrescaler::Div1,
                apb2_pre: APBPrescaler::Div1,
                apb3_pre: APBPrescaler::Div1,
                apb4_pre: APBPrescaler::Div1,
                timer_prescaler: TimerPrescaler::DefaultX2,
                voltage_scale: VoltageScale::Scale3,
                supply_config: SupplyConfig::LDO,
            }),
    {
        Config {
            family,
            hsi: Some(HSIPrescaler::Div1),
            hse: None,
            csi: false,
            hsi48: true,
            sys: Sysclk::Hsi,
            pll1: None,
            pll2: None,
            pll3: None,
            d1c_pre: AHBPrescaler::Div1,
            ahb_pre: AHBPrescaler::Div1,
            apb1_pre: APBPrescaler::Div1,
            apb2_pre: APBPrescaler::Div1,
            apb3_pre: APBPrescaler::Div1,
            apb4_pre: APBPrescaler::Div1,
            timer_prescaler: TimerPrescaler::DefaultX2,
            voltage_scale: VoltageScale::Scale3,
            supply_config: SupplyConfig::LDO,
        }
    }
}

} // verus!

//! Bring-up sequencer: the ordered state machine that carries the chip
//! from its power-on clock state to the validated target state. Each
//! transition yields the register writes and hardware-acknowledgment
//! polls it requires, as plain data; a thin hardware layer performs
//! them. States are strictly ordered and never revisited.

use vstd::prelude::*;

use crate::config::AHBPrescaler;
use crate::config::APBPrescaler;
use crate::config::ChipFamily;
use crate::config::Config;
use crate::config::HSIPrescaler;
use crate::config::HseMode;
use crate::config::PllDiv;
use crate::config::PllMul;
use crate::config::PllPreDiv;
use crate::config::PllSource;
use crate::config::SMPSSupplyVoltage;
use crate::config::SupplyConfig;
use crate::config::Sysclk;
use crate::config::TimerPrescaler;
use crate::config::VoltageScale;
use crate::flash::FlashTiming;
use crate::time::Hertz;

verus! {

/// SMPS step-down converter level field, including its reset encoding.
#[derive(Clone, Copy, PartialEq, Eq, Structural, Debug)]
pub enum SmpsLevel {
    /// Reset-default level.
    Reset,
    /// 1.8 V output.
    V1_8,
    /// 2.5 V output.
    V2_5,
}

/// Field values of the power-supply control register write that applies
/// a supply configuration. A `None` field is left untouched.
#[derive(Clone, Copy, PartialEq, Eq, Structural, Debug)]
pub struct SupplyFields {
    /// Converter output level.
    pub sdlevel: Option<SmpsLevel>,
    /// Converter forced on to feed external circuits.
    pub sdexthp: Option<bool>,
    /// Converter enabled.
    pub sden: bool,
    /// LDO enabled.
    pub ldoen: bool,
    /// LDO bypassed.
    pub bypass: bool,
}

/// Converter level field owed to a declared converter voltage.
pub open spec fn spec_smps_level(v: SMPSSupplyVoltage) -> SmpsLevel {
    match v {
        SMPSSupplyVoltage::V1_8 => SmpsLevel::V1_8,
        SMPSSupplyVoltage::V2_5 => SmpsLevel::V2_5,
    }
}

/// Supply-register fields owed to each supply configuration.
pub open spec fn spec_supply_fields(sc: SupplyConfig) -> SupplyFields {
    match sc {
        SupplyConfig::Default => SupplyFields {
            sdlevel: Some(SmpsLevel::Reset),
            sdexthp: Some(false),
            sden: true,
            ldoen: true,
            bypass: false,
        },
        SupplyConfig::LDO => SupplyFields {
            sdlevel: None,
            sdexthp: None,
            sden: false,
            ldoen: true,
            bypass: false,
        },
        SupplyConfig::DirectSMPS => SupplyFields {
            sdlevel: None,
            sdexthp: Some(false),
            sden: true,
            ldoen: false,
            bypass: false,
        },
        SupplyConfig::SMPSLDO(v) => SupplyFields {
            sdlevel: Some(spec_smps_level(v)),
            sdexthp: Some(false),
            sden: true,
            ldoen: true,
            bypass: false,
        },
        SupplyConfig::SMPSExternalLDO(v) => SupplyFields {
            sdlevel: Some(spec_smps_level(v)),
            sdexthp: Some(true),
            sden: true,
            ldoen: true,
            bypass: false,
        },
        SupplyConfig::SMPSExternalLDOBypass(v) => SupplyFields {
            sdlevel: Some(spec_smps_level(v)),
            sdexthp: Some(true),
            sden: true,
            ldoen: false,
            bypass: true,
        },
        SupplyConfig::SMPSDisabledLDOBypass => SupplyFields {
            sdlevel: None,
            sdexthp: None,
            sden: false,
            ldoen: false,
            bypass: true,
        },
    }
}

/// Computes the supply-register fields a supply configuration asks for.
pub fn supply_fields(sc: SupplyConfig) -> (r: SupplyFields)
    ensures
        r == spec_supply_fields(sc),
{
    match sc {
        SupplyConfig::Default => SupplyFields {
            sdlevel: Some(SmpsLevel::Reset),
            sdexthp: Some(false),
            sden: true,
            ldoen: true,
            bypass: false,
        },
        SupplyConfig::LDO => SupplyFields {
            sdlevel: None,
            sdexthp: None,
            sden: false,
            ldoen: true,
            bypass: false,
        },
        SupplyConfig::DirectSMPS => SupplyFields {
            sdlevel: None,
            sdexthp: Some(false),
            sden: true,
            ldoen: false,
            bypass: false,
        },
        SupplyConfig::SMPSLDO(v) => SupplyFields {
            sdlevel: Some(smps_level(v)),
            sdexthp: Some(false),
            sden: true,
            ldoen: true,
            bypass: false,
        },
        SupplyConfig::SMPSExternalLDO(v) => SupplyFields {
            sdlevel: Some(smps_level(v)),
            sdexthp: Some(true),
            sden: true,
            ldoen: true,
            bypass: false,
        },
        SupplyConfig::SMPSExternalLDOBypass(v) => SupplyFields {
            sdlevel: Some(smps_level(v)),
            sdexthp: Some(true),
            sden: true,
            ldoen: false,
            bypass: true,
        },
        SupplyConfig::SMPSDisabledLDOBypass => SupplyFields {
            sdlevel: None,
            sdexthp: None,
            sden: false,
            ldoen: false,
            bypass: true,
        },
    }
}

/// Converter level field owed to a declared converter voltage.
fn smps_level(v: SMPSSupplyVoltage) -> (r: SmpsLevel)
    ensures
        r == spec_smps_level(v),
{
    match v {
        SMPSSupplyVoltage::V1_8 => SmpsLevel::V1_8,
        SMPSSupplyVoltage::V2_5 => SmpsLevel::V2_5,
    }
}

/// Register field values that program one PLL before it is enabled.
#[derive(Clone, Copy, PartialEq, Eq, Structural, Debug)]
pub struct PllRegisters {
    /// Source selector.
    pub source: PllSource,
    /// Input pre-divider.
    pub prediv: PllPreDiv,
    /// Multiplication factor.
    pub mul: PllMul,
    /// Reference band selector.
    pub ref_range: crate::validate::PllRefRange,
    /// VCO window selector.
    pub vco_range: crate::validate::VcoRange,
    /// P output divider; `None` leaves the tap disabled.
    pub divp: Option<PllDiv>,
    /// Q output divider; `None` leaves the tap disabled.
    pub divq: Option<PllDiv>,
    /// R output divider; `None` leaves the tap disabled.
    pub divr: Option<PllDiv>,
}

/// One register write or hardware-acknowledgment poll of the bring-up
/// sequence. A poll blocks until the named hardware flag asserts; a
/// clock that never stabilizes is a fatal fault, so polls carry no
/// timeout.
#[derive(Clone, Copy, PartialEq, Eq, Structural, Debug)]
pub enum Action {
    /// Write the supply-control fields, as one observed-atomic update.
    ConfigureSupply(SupplyFields),
    /// Poll until the supply reports its operating point valid.
    AwaitSupplyReady,
    /// Write the voltage scale selector.
    SetVoltageScale(VoltageScale),
    /// Poll until the voltage scale is in effect.
    AwaitVoltageScaleReady,
    /// Enable the overdrive step of the fastest scale.
    EnableOverdrive,
    /// Enable the internal fast oscillator, programming its divider
    /// first when one is configured.
    EnableHsi(Option<HSIPrescaler>),
    /// Poll the internal fast oscillator's ready flag.
    AwaitHsiReady,
    /// Switch the system clock mux to the given source.
    SelectSystemClock(Sysclk),
    /// Poll until the reported system clock source equals the requested
    /// one.
    AwaitSystemClockSwitched(Sysclk),
    /// Turn the external oscillator off.
    DisableHse,
    /// Program the external oscillator's mode and enable it.
    EnableHse(HseMode),
    /// Poll the external oscillator's ready flag.
    AwaitHseReady,
    /// Enable the internal 48 MHz oscillator.
    EnableHsi48,
    /// Poll the internal 48 MHz oscillator's ready flag.
    AwaitHsi48Ready,
    /// Drive the internal low-power oscillator's enable to the flag.
    SetCsiEnabled(bool),
    /// Poll the internal low-power oscillator's ready flag.
    AwaitCsiReady,
    /// Stop the PLL in the given slot.
    DisablePll(u8),
    /// Poll until the PLL in the given slot reports stopped.
    AwaitPllStopped(u8),
    /// Drive the stopped PLL's pre-divider field to the unused encoding
    /// to save power.
    ClearPllPrescaler(u8),
    /// Program every field of the PLL in the given slot.
    ConfigurePll(u8, PllRegisters),
    /// Enable the PLL in the given slot.
    EnablePll(u8),
    /// Poll the lock flag of the PLL in the given slot.
    AwaitPllLocked(u8),
    /// Program the flash wait states and programming delay.
    SetFlashTiming(FlashTiming),
    /// Poll until the flash reports the programmed wait states.
    AwaitFlashTiming(FlashTiming),
    /// Write the CPU-domain divider, the APB3 divider and the AHB
    /// divider; H7-class parts.
    SetCoreDividers(AHBPrescaler, APBPrescaler, AHBPrescaler),
    /// Poll until the CPU-domain divider reports the written value;
    /// H7-class parts.
    AwaitCoreDividerLatched(AHBPrescaler),
    /// Write the APB1 and APB2 dividers; H7-class parts.
    SetApb12Dividers(APBPrescaler, APBPrescaler),
    /// Write the APB4 divider; H7-class parts.
    SetApb4Divider(APBPrescaler),
    /// Write the AHB divider; H5-class parts.
    SetAhbDivider(AHBPrescaler),
    /// Poll until the AHB divider reports the written value; H5-class
    /// parts.
    AwaitAhbDividerLatched(AHBPrescaler),
    /// Write the APB1, APB2 and APB3 dividers; H5-class parts.
    SetApbDividers(APBPrescaler, APBPrescaler, APBPrescaler),
    /// Write the timer kernel clock multiplier policy.
    SetTimerMultiplier(TimerPrescaler),
    /// Enable the I/O compensation cell, as one observed-atomic update.
    EnableCompensationCell,
    /// Poll the compensation cell's ready flag.
    AwaitCompensationCellReady,
    /// Apply the per-peripheral kernel clock mux selections.
    ApplyPeripheralClockMuxes,
    /// Turn the internal fast oscillator off.
    DisableHsi,
}

/// The bring-up states, in their strict order. `Ready` is terminal.
#[derive(Clone, Copy, PartialEq, Eq, Structural, Debug)]
pub enum BringUpState {
    /// Power-on state; nothing applied yet.
    Reset,
    /// System clock forced onto the always-available internal
    /// oscillator.
    SafeIntermediateClock,
    /// Every oscillator the topology needs is enabled and confirmed.
    OscillatorsStable,
    /// Every PLL slot programmed and locked, or stopped.
    PllsConfigured,
    /// Flash timing, prescalers and the system clock mux applied.
    SystemClockSwitched,
    /// Divider latches confirmed against the written values.
    PrescalersApplied,
    /// Per-peripheral kernel clock muxes applied.
    PeripheralMuxesConfigured,
    /// Terminal state; the resolved tree is the read-only truth.
    Ready,
}

impl BringUpState {
    /// Position of the state in the strict bring-up order.
    pub open spec fn spec_index(self) -> int {
        match self {
            BringUpState::Reset => 0,
            BringUpState::SafeIntermediateClock => 1,
            BringUpState::OscillatorsStable => 2,
            BringUpState::PllsConfigured => 3,
            BringUpState::SystemClockSwitched => 4,
            BringUpState::PrescalersApplied => 5,
            BringUpState::PeripheralMuxesConfigured => 6,
            BringUpState::Ready => 7,
        }
    }

    /// The state that follows in the strict order; `Ready` follows
    /// itself.
    pub open spec fn spec_next(self) -> BringUpState {
        match self {
            BringUpState::Reset => BringUpState::SafeIntermediateClock,
            BringUpState::SafeIntermediateClock => BringUpState::OscillatorsStable,
            BringUpState::OscillatorsStable => BringUpState::PllsConfigured,
            BringUpState::PllsConfigured => BringUpState::SystemClockSwitched,
            BringUpState::SystemClockSwitched => BringUpState::PrescalersApplied,
            BringUpState::PrescalersApplied => BringUpState::PeripheralMuxesConfigured,
            BringUpState::PeripheralMuxesConfigured => BringUpState::Ready,
            BringUpState::Ready => BringUpState::Ready,
        }
    }
}

/// Ordering law of the bring-up machine: each transition moves exactly
/// one position forward in the strict state order, and only `Ready`
/// stays in place; no transition ever moves backward.
pub proof fn lemma_state_order_strict(s: BringUpState)
    ensures
        s != BringUpState::Ready ==> s.spec_next().spec_index() == s.spec_index() + 1,
        s == BringUpState::Ready ==> s.spec_next() == s,
{
}

/// Voltage-scale programming steps. On H7-class parts the fastest scale
/// is reached through the next-fastest scale plus the overdrive step.
pub open spec fn spec_vos_actions(c: Config) -> Seq<Action> {
    match c.family {
        ChipFamily::H5 => seq![
            Action::SetVoltageScale(c.voltage_scale),
            Action::AwaitVoltageScaleReady,
        ],
        ChipFamily::H7 => if c.voltage_scale == VoltageScale::Scale0 {
            seq![
                Action::SetVoltageScale(VoltageScale::Scale1),
                Action::AwaitVoltageScaleReady,
                Action::EnableOverdrive,
                Action::AwaitVoltageScaleReady,
            ]
        } else {
            seq![Action::SetVoltageScale(c.voltage_scale), Action::AwaitVoltageScaleReady]
        },
    }
}

/// First transition: supply and voltage scale, then the internal fast
/// oscillator as the safe intermediate system clock, so no later write
/// can disturb a source the system clock still references.
pub open spec fn spec_reset_actions(c: Config) -> Seq<Action> {
    (match c.family {
        ChipFamily::H7 => seq![
            Action::ConfigureSupply(spec_supply_fields(c.supply_config)),
            Action::AwaitSupplyReady,
        ],
        ChipFamily::H5 => seq![],
    }) + spec_vos_actions(c) + seq![
        Action::EnableHsi(c.hsi),
        Action::AwaitHsiReady,
        Action::SelectSystemClock(Sysclk::Hsi),
        Action::AwaitSystemClockSwitched(Sysclk::Hsi),
    ]
}

/// Second transition: enable each oscillator the topology requires and
/// confirm its ready flag; leave the unused external oscillator off.
pub open spec fn spec_oscillator_actions(c: Config) -> Seq<Action> {
    (match c.hse {
        None => seq![Action::DisableHse],
        Some(h) => seq![Action::EnableHse(h.mode), Action::AwaitHseReady],
    }) + (if c.hsi48 {
        seq![Action::EnableHsi48, Action::AwaitHsi48Ready]
    } else {
        seq![]
    }) + seq![Action::SetCsiEnabled(c.csi)] + (if c.csi {
        seq![Action::AwaitCsiReady]
    } else {
        seq![]
    })
}

/// Third transition, one slot: a disabled PLL is stopped, its stop
/// confirmed and its pre-divider parked; an enabled one is fully
/// programmed before it is enabled, then its lock confirmed.
pub open spec fn spec_pll_slot_actions(
    c: Config,
    num: u8,
    slot: Option<crate::validate::ResolvedPll>,
) -> Seq<Action> {
    match crate::validate::spec_pll_config(c, num as int) {
        None => seq![
            Action::DisablePll(num),
            Action::AwaitPllStopped(num),
            Action::ClearPllPrescaler(num),
        ],
        Some(pll) => match slot {
            Some(rp) => seq![
                Action::ConfigurePll(
                    num,
                    PllRegisters {
                        source: pll.source,
                        prediv: pll.prediv,
                        mul: pll.mul,
                        ref_range: rp.ref_range,
                        vco_range: rp.vco_range,
                        divp: pll.divp,
                        divq: pll.divq,
                        divr: pll.divr,
                    },
                ),
                Action::EnablePll(num),
                Action::AwaitPllLocked(num),
            ],
            None => seq![],
        },
    }
}

/// Third transition: all three PLL slots, in slot order.
pub open spec fn spec_pll_actions(
    c: Config,
    slot1: Option<crate::validate::ResolvedPll>,
    slot2: Option<crate::validate::ResolvedPll>,
    slot3: Option<crate::validate::ResolvedPll>,
) -> Seq<Action> {
    spec_pll_slot_actions(c, 0, slot1) + spec_pll_slot_actions(c, 1, slot2)
        + spec_pll_slot_actions(c, 2, slot3)
}

/// Fourth transition: program flash timing before the bus clock rises,
/// apply the dividers (confirming the core divider before anything
/// depends on it), set the timer multiplier policy, then switch the
/// system clock mux and confirm the switch.
pub open spec fn spec_switch_actions(c: Config, flash: FlashTiming) -> Seq<Action> {
    seq![Action::SetFlashTiming(flash), Action::AwaitFlashTiming(flash)] + (match c.family {
        ChipFamily::H7 => seq![
            Action::SetCoreDividers(c.d1c_pre, c.apb3_pre, c.ahb_pre),
            Action::AwaitCoreDividerLatched(c.d1c_pre),
            Action::SetApb12Dividers(c.apb1_pre, c.apb2_pre),
            Action::SetApb4Divider(c.apb4_pre),
        ],
        ChipFamily::H5 => seq![
            Action::SetAhbDivider(c.ahb_pre),
            Action::AwaitAhbDividerLatched(c.ahb_pre),
            Action::SetApbDividers(c.apb1_pre, c.apb2_pre, c.apb3_pre),
        ],
    }) + seq![
        Action::SetTimerMultiplier(c.timer_prescaler),
        Action::SelectSystemClock(c.sys),
        Action::AwaitSystemClockSwitched(c.sys),
    ]
}

/// Ordering law of the switch transition: the flash wait states are
/// programmed and confirmed first, before any divider changes, and the
/// system clock mux is switched last and then confirmed, so the flash
/// timing margin holds at every instant of the transition.
pub proof fn lemma_flash_programmed_before_switch(c: Config, flash: FlashTiming)
    ensures
        ({
            let acts = spec_switch_actions(c, flash);
            &&& acts.len() >= 5
            &&& acts[0] == Action::SetFlashTiming(flash)
            &&& acts[1] == Action::AwaitFlashTiming(flash)
            &&& acts[acts.len() - 2] == Action::SelectSystemClock(c.sys)
            &&& acts[acts.len() - 1] == Action::AwaitSystemClockSwitched(c.sys)
        }),
{
    let acts = spec_switch_actions(c, flash);
    match c.family {
        ChipFamily::H7 => {
            assert(acts =~= seq![
                Action::SetFlashTiming(flash),
                Action::AwaitFlashTiming(flash),
                Action::SetCoreDividers(c.d1c_pre, c.apb3_pre, c.ahb_pre),
                Action::AwaitCoreDividerLatched(c.d1c_pre),
                Action::SetApb12Dividers(c.apb1_pre, c.apb2_pre),
                Action::SetApb4Divider(c.apb4_pre),
                Action::SetTimerMultiplier(c.timer_prescaler),
                Action::SelectSystemClock(c.sys),
                Action::AwaitSystemClockSwitched(c.sys),
            ]);
        },
        ChipFamily::H5 => {
            assert(acts =~= seq![
                Action::SetFlashTiming(flash),
                Action::AwaitFlashTiming(flash),
                Action::SetAhbDivider(c.ahb_pre),
                Action::AwaitAhbDividerLatched(c.ahb_pre),
                Action::SetApbDividers(c.apb1_pre, c.apb2_pre, c.apb3_pre),
                Action::SetTimerMultiplier(c.timer_prescaler),
                Action::SelectSystemClock(c.sys),
                Action::AwaitSystemClockSwitched(c.sys),
            ]);
        },
    }
}

/// Fifth transition: confirm the latched divider once more after the
/// switch, so the applied prescalers are known to equal the requested
/// ones.
pub open spec fn spec_confirm_actions(c: Config) -> Seq<Action> {
    match c.family {
        ChipFamily::H7 => seq![Action::AwaitCoreDividerLatched(c.d1c_pre)],
        ChipFamily::H5 => seq![Action::AwaitAhbDividerLatched(c.ahb_pre)],
    }
}

/// Sixth transition: the I/O compensation cell where the low-power
/// oscillator feeds it, then the per-peripheral kernel clock muxes.
pub open spec fn spec_mux_actions(c: Config) -> Seq<Action> {
    (if c.family == ChipFamily::H7 && c.csi {
        seq![Action::EnableCompensationCell, Action::AwaitCompensationCellReady]
    } else {
        seq![]
    }) + seq![Action::ApplyPeripheralClockMuxes]
}

/// Final transition: turn off the bring-up oscillator when the final
/// topology no longer needs it.
pub open spec fn spec_finish_actions(c: Config) -> Seq<Action> {
    if c.hsi is None {
        seq![Action::DisableHsi]
    } else {
        seq![]
    }
}

/// The actions of the transition leaving the given state; none leave
/// `Ready`.
pub open spec fn spec_stage_actions(
    c: Config,
    slot1: Option<crate::validate::ResolvedPll>,
    slot2: Option<crate::validate::ResolvedPll>,
    slot3: Option<crate::validate::ResolvedPll>,
    flash: FlashTiming,
    state: BringUpState,
) -> Seq<Action> {
    match state {
        BringUpState::Reset => spec_reset_actions(c),
        BringUpState::SafeIntermediateClock => spec_oscillator_actions(c),
        BringUpState::OscillatorsStable => spec_pll_actions(c, slot1, slot2, slot3),
        BringUpState::PllsConfigured => spec_switch_actions(c, flash),
        BringUpState::SystemClockSwitched => spec_confirm_actions(c),
        BringUpState::PrescalersApplied => spec_mux_actions(c),
        BringUpState::PeripheralMuxesConfigured => spec_finish_actions(c),
        BringUpState::Ready => seq![],
    }
}

/// The bring-up sequencer: a validated configuration, its resolved tree,
/// and the state reached so far. Each call of [`Sequencer::advance`]
/// yields the next transition's actions until `Ready`.
#[derive(Clone, Copy, PartialEq, Eq, Structural, Debug)]
pub struct Sequencer {
    /// The validated topology being applied.
    pub config: Config,
    /// The resolved clock tree, the read-only truth once `Ready`.
    pub tree: crate::validate::ResolvedClockTree,
    /// Resolution of the first PLL slot, when enabled.
    pub pll1: Option<crate::validate::ResolvedPll>,
    /// Resolution of the second PLL slot, when enabled.
    pub pll2: Option<crate::validate::ResolvedPll>,
    /// Resolution of the third PLL slot, when enabled.
    pub pll3: Option<crate::validate::ResolvedPll>,
    /// Flash timing owed to the resolved AHB clock.
    pub flash: FlashTiming,
    /// State reached so far.
    pub state: BringUpState,
}

impl Sequencer {
    /// Validates the topology and prepares the sequence; any violated
    /// constraint aborts here, before any hardware would be touched.
    pub fn new(config: Config) -> (r: Result<Sequencer, crate::validate::ClockError>)
        ensures
            match r {
                Ok(s) => {
                    &&& s.config == config
                    &&& s.state == BringUpState::Reset
                    &&& Ok::<_, crate::validate::ClockError>(s.tree) == crate::validate::spec_validate(config)
                    &&& Ok::<_, crate::validate::ClockError>(s.pll1) == crate::validate::spec_resolve_pll(config, 0)
                    &&& Ok::<_, crate::validate::ClockError>(s.pll2) == crate::validate::spec_resolve_pll(config, 1)
                    &&& Ok::<_, crate::validate::ClockError>(s.pll3) == crate::validate::spec_resolve_pll(config, 2)
                    &&& s.tree.hclk matches Some(h) && Ok::<_, crate::validate::ClockError>(s.flash)
                        == crate::flash::spec_flash_setup(config.family, h, config.voltage_scale)
                },
                Err(e) => {
                    ||| crate::validate::spec_validate(config) == Err::<
                        crate::validate::ResolvedClockTree,
                        _,
                    >(e)
                    ||| (crate::validate::spec_validate(config) matches Ok(tree)
                        && tree.hclk matches Some(h) && crate::flash::spec_flash_setup(
                        config.family,
                        h,
                        config.voltage_scale,
                    ) == Err::<FlashTiming, _>(e))
                },
            },
    {
        let tree = match crate::validate::validate(&config) {
            Ok(t) => t,
            Err(e) => {
                return Err(e);
            },
        };
        let pll1 = match crate::validate::resolve_pll(&config, 0) {
            Ok(s) => s,
            Err(e) => {
                return Err(e);
            },
        };
        let pll2 = match crate::validate::resolve_pll(&config, 1) {
            Ok(s) => s,
            Err(e) => {
                return Err(e);
            },
        };
        let pll3 = match crate::validate::resolve_pll(&config, 2) {
            Ok(s) => s,
            Err(e) => {
                return Err(e);
            },
        };
        let hclk = match tree.hclk {
            Some(h) => h,
            None => {
                proof {
                    assert(false);
                }
                Hertz(0)
            },
        };
        let flash = match crate::flash::flash_setup(config.family, hclk, config.voltage_scale) {
            Ok(f) => f,
            Err(e) => {
                return Err(e);
            },
        };
        Ok(
            Sequencer {
                config,
                tree,
                pll1,
                pll2,
                pll3,
                flash,
                state: BringUpState::Reset,
            },
        )
    }

    /// Performs one transition: moves to the next state in the strict
    /// order and returns the register writes and polls of that
    /// transition, in the order the hardware layer must perform them.
    /// In `Ready` nothing remains: the state stays and no action is
    /// returned.
    pub fn advance(&mut self) -> (acts: Vec<Action>)
        ensures
            final(self).config == old(self).config,
            final(self).tree == old(self).tree,
            final(self).pll1 == old(self).pll1,
            final(self).pll2 == old(self).pll2,
            final(self).pll3 == old(self).pll3,
            final(self).flash == old(self).flash,
            final(self).state == old(self).state.spec_next(),
            acts@ == spec_stage_actions(
                old(self).config,
                old(self).pll1,
                old(self).pll2,
                old(self).pll3,
                old(self).flash,
                old(self).state,
            ),
    {
        let acts = match self.state {
            BringUpState::Reset => reset_actions(&self.config),
            BringUpState::SafeIntermediateClock => oscillator_actions(&self.config),
            BringUpState::OscillatorsStable => pll_actions(
                &self.config,
                self.pll1,
                self.pll2,
                self.pll3,
            ),
            BringUpState::PllsConfigured => switch_actions(&self.config, self.flash),
            BringUpState::SystemClockSwitched => confirm_actions(&self.config),
            BringUpState::PrescalersApplied => mux_actions(&self.config),
            BringUpState::PeripheralMuxesConfigured => finish_actions(&self.config),
            BringUpState::Ready => Vec::new(),
        };
        self.state = match self.state {
            BringUpState::Reset => BringUpState::SafeIntermediateClock,
            BringUpState::SafeIntermediateClock => BringUpState::OscillatorsStable,
            BringUpState::OscillatorsStable => BringUpState::PllsConfigured,
            BringUpState::PllsConfigured => BringUpState::SystemClockSwitched,
            BringUpState::SystemClockSwitched => BringUpState::PrescalersApplied,
            BringUpState::PrescalersApplied => BringUpState::PeripheralMuxesConfigured,
            BringUpState::PeripheralMuxesConfigured => BringUpState::Ready,
            BringUpState::Ready => BringUpState::Ready,
        };
        acts
    }
}

/// Builds the first transition's actions.
fn reset_actions(c: &Config) -> (acts: Vec<Action>)
    ensures
        acts@ == spec_reset_actions(*c),
{
    let mut acts: Vec<Action> = Vec::new();
    if c.family == ChipFamily::H7 {
        acts.push(Action::ConfigureSupply(supply_fields(c.supply_config)));
        acts.push(Action::AwaitSupplyReady);
    }
    match c.family {
        ChipFamily::H5 => {
            acts.push(Action::SetVoltageScale(c.voltage_scale));
            acts.push(Action::AwaitVoltageScaleReady);
        },
        ChipFamily::H7 => {
            if c.voltage_scale == VoltageScale::Scale0 {
                acts.push(Action::SetVoltageScale(VoltageScale::Scale1));
                acts.push(Action::AwaitVoltageScaleReady);
                acts.push(Action::EnableOverdrive);
                acts.push(Action::AwaitVoltageScaleReady);
            } else {
                acts.push(Action::SetVoltageScale(c.voltage_scale));
                acts.push(Action::AwaitVoltageScaleReady);
            }
        },
    }
    acts.push(Action::EnableHsi(c.hsi));
    acts.push(Action::AwaitHsiReady);
    acts.push(Action::SelectSystemClock(Sysclk::Hsi));
    acts.push(Action::AwaitSystemClockSwitched(Sysclk::Hsi));
    proof {
        assert(acts@ =~= spec_reset_actions(*c));
    }
    acts
}

/// Builds the second transition's actions.
fn oscillator_actions(c: &Config) -> (acts: Vec<Action>)
    ensures
        acts@ == spec_oscillator_actions(*c),
{
    let mut acts: Vec<Action> = Vec::new();
    match c.hse {
        None => {
            acts.push(Action::DisableHse);
        },
        Some(h) => {
            acts.push(Action::EnableHse(h.mode));
            acts.push(Action::AwaitHseReady);
        },
    }
    if c.hsi48 {
        acts.push(Action::EnableHsi48);
        acts.push(Action::AwaitHsi48Ready);
    }
    acts.push(Action::SetCsiEnabled(c.csi));
    if c.csi {
        acts.push(Action::AwaitCsiReady);
    }
    proof {
        assert(acts@ =~= spec_oscillator_actions(*c));
    }
    acts
}

/// Builds the third transition's actions for one PLL slot.
fn pll_slot_actions(
    c: &Config,
    num: u8,
    slot: Option<crate::validate::ResolvedPll>,
    acts: &mut Vec<Action>,
)
    requires
        num < 3,
    ensures
        final(acts)@ == old(acts)@ + spec_pll_slot_actions(*c, num, slot),
{
    let pll = if num == 0 {
        c.pll1
    } else if num == 1 {
        c.pll2
    } else {
        c.pll3
    };
    match pll {
        None => {
            acts.push(Action::DisablePll(num));
            acts.push(Action::AwaitPllStopped(num));
            acts.push(Action::ClearPllPrescaler(num));
        },
        Some(p) => match slot {
            Some(rp) => {
                acts.push(
                    Action::ConfigurePll(
                        num,
                        PllRegisters {
                            source: p.source,
                            prediv: p.prediv,
                            mul: p.mul,
                            ref_range: rp.ref_range,
                            vco_range: rp.vco_range,
                            divp: p.divp,
                            divq: p.divq,
                            divr: p.divr,
                        },
                    ),
                );
                acts.push(Action::EnablePll(num));
                acts.push(Action::AwaitPllLocked(num));
            },
            None => {},
        },
    }
    proof {
        assert(acts@ =~= old(acts)@ + spec_pll_slot_actions(*c, num, slot));
    }
}

/// Builds the third transition's actions.
fn pll_actions(
    c: &Config,
    slot1: Option<crate::validate::ResolvedPll>,
    slot2: Option<crate::validate::ResolvedPll>,
    slot3: Option<crate::validate::ResolvedPll>,
) -> (acts: Vec<Action>)
    ensures
        acts@ == spec_pll_actions(*c, slot1, slot2, slot3),
{
    let mut acts: Vec<Action> = Vec::new();
    pll_slot_actions(c, 0, slot1, &mut acts);
    pll_slot_actions(c, 1, slot2, &mut acts);
    pll_slot_actions(c, 2, slot3, &mut acts);
    proof {
        assert(acts@ =~= spec_pll_actions(*c, slot1, slot2, slot3));
    }
    acts
}

/// Builds the fourth transition's actions.
fn switch_actions(c: &Config, flash: FlashTiming) -> (acts: Vec<Action>)
    ensures
        acts@ == spec_switch_actions(*c, flash),
{
    let mut acts: Vec<Action> = Vec::new();
    acts.push(Action::SetFlashTiming(flash));
    acts.push(Action::AwaitFlashTiming(flash));
    match c.family {
        ChipFamily::H7 => {
            acts.push(Action::SetCoreDividers(c.d1c_pre, c.apb3_pre, c.ahb_pre));
            acts.push(Action::AwaitCoreDividerLatched(c.d1c_pre));
            acts.push(Action::SetApb12Dividers(c.apb1_pre, c.apb2_pre));
            acts.push(Action::SetApb4Divider(c.apb4_pre));
        },
        ChipFamily::H5 => {
            acts.push(Action::SetAhbDivider(c.ahb_pre));
            acts.push(Action::AwaitAhbDividerLatched(c.ahb_pre));
            acts.push(Action::SetApbDividers(c.apb1_pre, c.apb2_pre, c.apb3_pre));
        },
    }
    acts.push(Action::SetTimerMultiplier(c.timer_prescaler));
    acts.push(Action::SelectSystemClock(c.sys));
    acts.push(Action::AwaitSystemClockSwitched(c.sys));
    proof {
        assert(acts@ =~= spec_switch_actions(*c, flash));
    }
    acts
}

/// Builds the fifth transition's actions.
fn confirm_actions(c: &Config) -> (acts: Vec<Action>)
    ensures
        acts@ == spec_confirm_actions(*c),
{
    let mut acts: Vec<Action> = Vec::new();
    match c.family {
        ChipFamily::H7 => {
            acts.push(Action::AwaitCoreDividerLatched(c.d1c_pre));
        },
        ChipFamily::H5 => {
            acts.push(Action::AwaitAhbDividerLatched(c.ahb_pre));
        },
    }
    proof {
        assert(acts@ =~= spec_confirm_actions(*c));
    }
    acts
}

/// Builds the sixth transition's actions.
fn mux_actions(c: &Config) -> (acts: Vec<Action>)
    ensures
        acts@ == spec_mux_actions(*c),
{
    let mut acts: Vec<Action> = Vec::new();
    if c.family == ChipFamily::H7 && c.csi {
        acts.push(Action::EnableCompensationCell);
        acts.push(Action::AwaitCompensationCellReady);
    }
    acts.push(Action::ApplyPeripheralClockMuxes);
    proof {
        assert(acts@ =~= spec_mux_actions(*c));
    }
    acts
}

/// Builds the final transition's actions.
fn finish_actions(c: &Config) -> (acts: Vec<Action>)
    ensures
        acts@ == spec_finish_actions(*c),
{
    let mut acts: Vec<Action> = Vec::new();
    if c.hsi.is_none() {
        acts.push(Action::DisableHsi);
    }
    proof {
        assert(acts@ =~= spec_finish_actions(*c));
    }
    acts
}

} // verus!

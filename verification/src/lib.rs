//! Clock-tree configuration resolver and bring-up sequencer for an
//! STM32 H-series reference-clock subsystem, together with the PWM
//! dead-time resolver that shares its discrete-parameter search.

pub mod adapter;
pub mod config;
pub mod dead_time;
pub mod flash;
pub mod pwm;
pub mod search;
pub mod sequencer;
pub mod time;
pub mod validate;

pub use adapter::BlockingAsync;
pub use config::AHBPrescaler;
pub use config::APBPrescaler;
pub use config::ChipFamily;
pub use config::Config;
pub use config::HSIPrescaler;
pub use config::Hse;
pub use config::HseMode;
pub use config::Pll;
pub use config::PllDiv;
pub use config::PllMul;
pub use config::PllPreDiv;
pub use config::PllSource;
pub use config::SMPSSupplyVoltage;
pub use config::SupplyConfig;
pub use config::Sysclk;
pub use config::TimerPrescaler;
pub use config::VoltageScale;
pub use dead_time::compute_dead_time_value;
pub use dead_time::Ckd;
pub use flash::flash_setup;
pub use flash::FlashTiming;
pub use pwm::Channel;
pub use pwm::ChannelState;
pub use pwm::ComplementaryPwm;
pub use pwm::ComplementaryPwmPin;
pub use pwm::CountingMode;
pub use pwm::OutputPolarity;
pub use pwm::OutputType;
pub use pwm::PwmPin;
pub use search::abs_err;
pub use search::resolve_min_error;
pub use search::spec_abs_err;
pub use sequencer::supply_fields;
pub use sequencer::Action;
pub use sequencer::BringUpState;
pub use sequencer::PllRegisters;
pub use sequencer::Sequencer;
pub use sequencer::SmpsLevel;
pub use sequencer::SupplyFields;
pub use time::Hertz;
pub use validate::apb_div_tim;
pub use validate::resolve_pll;
pub use validate::validate;
pub use validate::ClockError;
pub use validate::ClockId;
pub use validate::PllOutput;
pub use validate::PllRefRange;
pub use validate::ResolvedClockTree;
pub use validate::ResolvedPll;
pub use validate::VcoRange;

use vstd::prelude::*;

verus! {

/// Base frequency of the internal fast (HSI) oscillator.
pub const HSI_FREQ: u32 = 64_000_000;

/// Frequency of the internal low-power (CSI) oscillator.
pub const CSI_FREQ: u32 = 4_000_000;

/// Frequency of the internal 48 MHz (HSI48) oscillator.
pub const HSI48_FREQ: u32 = 48_000_000;

} // verus!

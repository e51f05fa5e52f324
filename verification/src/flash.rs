//! Flash timing selector: derives the memory wait-state count and the
//! high-frequency programming flag from the resolved bus clock and the
//! voltage scale. A tiered table per family and scale; each tier is
//! valid up to and including its frequency bound, and the first covering
//! tier (the minimum wait-state count) wins.

use vstd::prelude::*;

use crate::config::ChipFamily;
use crate::config::VoltageScale;
use crate::time::Hertz;
use crate::validate::ClockError;

verus! {

/// Memory timing parameters applied around any bus-clock change.
#[derive(Clone, Copy, PartialEq, Eq, Structural, Debug)]
pub struct FlashTiming {
    /// Wait states inserted on every read access.
    pub latency: u8,
    /// Programming delay tier for high bus frequencies.
    pub wrhighfreq: u8,
}

/// Flash timing owed to a bus clock on an H5-class part.
pub open spec fn spec_flash_setup_h5(clk: int, vs: VoltageScale) -> Result<
    FlashTiming,
    ClockError,
> {
    match vs {
        VoltageScale::Scale0 => if clk <= 42_000_000 {
            Ok(FlashTiming { latency: 0, wrhighfreq: 0 })
        } else if clk <= 84_000_000 {
            Ok(FlashTiming { latency: 1, wrhighfreq: 0 })
        } else if clk <= 126_000_000 {
            Ok(FlashTiming { latency: 2, wrhighfreq: 1 })
        } else if clk <= 168_000_000 {
            Ok(FlashTiming { latency: 3, wrhighfreq: 1 })
        } else if clk <= 210_000_000 {
            Ok(FlashTiming { latency: 4, wrhighfreq: 2 })
        } else if clk <= 250_000_000 {
            Ok(FlashTiming { latency: 5, wrhighfreq: 2 })
        } else {
            Err(ClockError::FlashClockTooHigh)
        },
        VoltageScale::Scale1 => if clk <= 34_000_000 {
            Ok(FlashTiming { latency: 0, wrhighfreq: 0 })
        } else if clk <= 68_000_000 {
            Ok(FlashTiming { latency: 1, wrhighfreq: 0 })
        } else if clk <= 102_000_000 {
            Ok(FlashTiming { latency: 2, wrhighfreq: 1 })
        } else if clk <= 136_000_000 {
            Ok(FlashTiming { latency: 3, wrhighfreq: 1 })
        } else if clk <= 170_000_000 {
            Ok(FlashTiming { latency: 4, wrhighfreq: 2 })
        } else if clk <= 200_000_000 {
            Ok(FlashTiming { latency: 5, wrhighfreq: 2 })
        } else {
            Err(ClockError::FlashClockTooHigh)
        },
        VoltageScale::Scale2 => if clk <= 30_000_000 {
            Ok(FlashTiming { latency: 0, wrhighfreq: 0 })
        } else if clk <= 60_000_000 {
            Ok(FlashTiming { latency: 1, wrhighfreq: 0 })
        } else if clk <= 90_000_000 {
            Ok(FlashTiming { latency: 2, wrhighfreq: 1 })
        } else if clk <= 120_000_000 {
            Ok(FlashTiming { latency: 3, wrhighfreq: 1 })
        } else if clk <= 150_000_000 {
            Ok(FlashTiming { latency: 4, wrhighfreq: 2 })
        } else {
            Err(ClockError::FlashClockTooHigh)
        },
        VoltageScale::Scale3 => if clk <= 20_000_000 {
            Ok(FlashTiming { latency: 0, wrhighfreq: 0 })
        } else if clk <= 40_000_000 {
            Ok(FlashTiming { latency: 1, wrhighfreq: 0 })
        } else if clk <= 60_000_000 {
            Ok(FlashTiming { latency: 2, wrhighfreq: 1 })
        } else if clk <= 80_000_000 {
            Ok(FlashTiming { latency: 3, wrhighfreq: 1 })
        } else if clk <= 100_000_000 {
            Ok(FlashTiming { latency: 4, wrhighfreq: 2 })
        } else {
            Err(ClockError::FlashClockTooHigh)
        },
    }
}

/// Flash timing owed to a bus clock on an H7-class part.
pub open spec fn spec_flash_setup_h7(clk: int, vs: VoltageScale) -> Result<
    FlashTiming,
    ClockError,
> {
    match vs {
        VoltageScale::Scale0 => if clk <= 70_000_000 {
            Ok(FlashTiming { latency: 0, wrhighfreq: 0 })
        } else if clk <= 140_000_000 {
            Ok(FlashTiming { latency: 1, wrhighfreq: 1 })
        } else if clk <= 185_000_000 {
            Ok(FlashTiming { latency: 2, wrhighfreq: 1 })
        } else if clk <= 210_000_000 {
            Ok(FlashTiming { latency: 2, wrhighfreq: 2 })
        } else if clk <= 225_000_000 {
            Ok(FlashTiming { latency: 3, wrhighfreq: 2 })
        } else if clk <= 240_000_000 {
            Ok(FlashTiming { latency: 4, wrhighfreq: 2 })
        } else {
            Err(ClockError::FlashClockTooHigh)
        },
        VoltageScale::Scale1 => if clk <= 70_000_000 {
            Ok(FlashTiming { latency: 0, wrhighfreq: 0 })
        } else if clk <= 140_000_000 {
            Ok(FlashTiming { latency: 1, wrhighfreq: 1 })
        } else if clk <= 185_000_000 {
            Ok(FlashTiming { latency: 2, wrhighfreq: 1 })
        } else if clk <= 210_000_000 {
            Ok(FlashTiming { latency: 2, wrhighfreq: 2 })
        } else if clk <= 225_000_000 {
            Ok(FlashTiming { latency: 3, wrhighfreq: 2 })
        } else {
            Err(ClockError::FlashClockTooHigh)
        },
        VoltageScale::Scale2 => if clk <= 55_000_000 {
            Ok(FlashTiming { latency: 0, wrhighfreq: 0 })
        } else if clk <= 110_000_000 {
            Ok(FlashTiming { latency: 1, wrhighfreq: 1 })
        } else if clk <= 165_000_000 {
            Ok(FlashTiming { latency: 2, wrhighfreq: 1 })
        } else if clk <= 224_000_000 {
            Ok(FlashTiming { latency: 3, wrhighfreq: 2 })
        } else {
            Err(ClockError::FlashClockTooHigh)
        },
        VoltageScale::Scale3 => if clk <= 45_000_000 {
            Ok(FlashTiming { latency: 0, wrhighfreq: 0 })
        } else if clk <= 90_000_000 {
            Ok(FlashTiming { latency: 1, wrhighfreq: 1 })
        } else if clk <= 135_000_000 {
            Ok(FlashTiming { latency: 2, wrhighfreq: 1 })
        } else if clk <= 180_000_000 {
            Ok(FlashTiming { latency: 3, wrhighfreq: 2 })
        } else if clk <= 224_000_000 {
            Ok(FlashTiming { latency: 4, wrhighfreq: 2 })
        } else {
            Err(ClockError::FlashClockTooHigh)
        },
    }
}

/// Flash timing owed to a bus clock at a voltage scale: the lowest tier
/// whose bound covers the clock; a clock above the family's highest tier
/// is a fatal configuration error.
pub open spec fn spec_flash_setup(f: ChipFamily, clk: Hertz, vs: VoltageScale) -> Result<
    FlashTiming,
    ClockError,
> {
    match f {
        ChipFamily::H5 => spec_flash_setup_h5(clk.0 as int, vs),
        ChipFamily::H7 => spec_flash_setup_h7(clk.0 as int, vs),
    }
}

/// Coverage law: the flash table of every family reaches at least as
/// high as the AHB ceiling of the same voltage scale, so a bus clock
/// that passed validation always has a flash timing tier.
pub proof fn lemma_validated_clock_has_flash_tier(f: ChipFamily, clk: Hertz, vs: VoltageScale)
    requires
        clk.0 <= crate::validate::spec_max_hclk(f, vs),
    ensures
        spec_flash_setup(f, clk, vs) is Ok,
{
}

/// Derives the flash wait-state count and high-frequency flag owed to
/// the given bus clock at the given voltage scale.
pub fn flash_setup(f: ChipFamily, clk: Hertz, vs: VoltageScale) -> (r: Result<
    FlashTiming,
    ClockError,
>)
    ensures
        r == spec_flash_setup(f, clk, vs),
{
    let c = clk.0;
    let (t0, t1, t2, t3, t4, t5): (u32, u32, u32, u32, u32, u32) = match (f, vs) {
        (ChipFamily::H5, VoltageScale::Scale0) => (
            42_000_000,
            84_000_000,
            126_000_000,
            168_000_000,
            210_000_000,
            250_000_000,
        ),
        (ChipFamily::H5, VoltageScale::Scale1) => (
            34_000_000,
            68_000_000,
            102_000_000,
            136_000_000,
            170_000_000,
            200_000_000,
        ),
        (ChipFamily::H5, VoltageScale::Scale2) => (
            30_000_000,
            60_000_000,
            90_000_000,
            120_000_000,
            150_000_000,
            0,
        ),
        (ChipFamily::H5, VoltageScale::Scale3) => (
            20_000_000,
            40_000_000,
            60_000_000,
            80_000_000,
            100_000_000,
            0,
        ),
        (ChipFamily::H7, VoltageScale::Scale0) => (
            70_000_000,
            140_000_000,
            185_000_000,
            210_000_000,
            225_000_000,
            240_000_000,
        ),
        (ChipFamily::H7, VoltageScale::Scale1) => (
            70_000_000,
            140_000_000,
            185_000_000,
            210_000_000,
            225_000_000,
            0,
        ),
        (ChipFamily::H7, VoltageScale::Scale2) => (
            55_000_000,
            110_000_000,
            165_000_000,
            224_000_000,
            0,
            0,
        ),
        (ChipFamily::H7, VoltageScale::Scale3) => (
            45_000_000,
            90_000_000,
            135_000_000,
            180_000_000,
            224_000_000,
            0,
        ),
    };
    let wr = match f {
        ChipFamily::H5 => (0u8, 0u8, 1u8, 1u8, 2u8, 2u8),
        ChipFamily::H7 => (0u8, 1u8, 1u8, 2u8, 2u8, 2u8),
    };
    let lat = match (f, vs) {
        (ChipFamily::H7, VoltageScale::Scale0) => (0u8, 1u8, 2u8, 2u8, 3u8, 4u8),
        (ChipFamily::H7, VoltageScale::Scale1) => (0u8, 1u8, 2u8, 2u8, 3u8, 0u8),
        _ => (0u8, 1u8, 2u8, 3u8, 4u8, 5u8),
    };
    if c <= t0 {
        Ok(FlashTiming { latency: lat.0, wrhighfreq: wr.0 })
    } else if t1 != 0 && c <= t1 {
        Ok(FlashTiming { latency: lat.1, wrhighfreq: wr.1 })
    } else if t2 != 0 && c <= t2 {
        Ok(FlashTiming { latency: lat.2, wrhighfreq: wr.2 })
    } else if t3 != 0 && c <= t3 {
        Ok(FlashTiming { latency: lat.3, wrhighfreq: wr.3 })
    } else if t4 != 0 && c <= t4 {
        Ok(FlashTiming { latency: lat.4, wrhighfreq: wr.4 })
    } else if t5 != 0 && c <= t5 {
        Ok(FlashTiming { latency: lat.5, wrhighfreq: wr.5 })
    } else {
        Err(ClockError::FlashClockTooHigh)
    }
}

} // verus!

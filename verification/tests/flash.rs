use clocktree::flash_setup;
use clocktree::ChipFamily;
use clocktree::ClockError;
use clocktree::FlashTiming;
use clocktree::Hertz;
use clocktree::VoltageScale;

fn timing(latency: u8, wrhighfreq: u8) -> FlashTiming {
    FlashTiming { latency, wrhighfreq }
}

#[test]
fn h5_scale0_tiers() {
    let f = ChipFamily::H5;
    let vs = VoltageScale::Scale0;
    assert_eq!(flash_setup(f, Hertz(0), vs), Ok(timing(0, 0)));
    assert_eq!(flash_setup(f, Hertz(42_000_000), vs), Ok(timing(0, 0)));
    assert_eq!(flash_setup(f, Hertz(42_000_001), vs), Ok(timing(1, 0)));
    assert_eq!(flash_setup(f, Hertz(126_000_000), vs), Ok(timing(2, 1)));
    assert_eq!(flash_setup(f, Hertz(210_000_000), vs), Ok(timing(4, 2)));
    assert_eq!(flash_setup(f, Hertz(250_000_000), vs), Ok(timing(5, 2)));
    assert_eq!(
        flash_setup(f, Hertz(250_000_001), vs),
        Err(ClockError::FlashClockTooHigh)
    );
}

#[test]
fn h5_lower_scales_shift_the_tiers_down() {
    let f = ChipFamily::H5;
    assert_eq!(
        flash_setup(f, Hertz(100_000_000), VoltageScale::Scale1),
        Ok(timing(2, 1))
    );
    assert_eq!(
        flash_setup(f, Hertz(100_000_000), VoltageScale::Scale2),
        Ok(timing(3, 1))
    );
    assert_eq!(
        flash_setup(f, Hertz(100_000_000), VoltageScale::Scale3),
        Ok(timing(4, 2))
    );
    assert_eq!(
        flash_setup(f, Hertz(100_000_001), VoltageScale::Scale3),
        Err(ClockError::FlashClockTooHigh)
    );
}

#[test]
fn h7_scale0_tiers() {
    let f = ChipFamily::H7;
    let vs = VoltageScale::Scale0;
    assert_eq!(flash_setup(f, Hertz(64_000_000), vs), Ok(timing(0, 0)));
    assert_eq!(flash_setup(f, Hertz(140_000_000), vs), Ok(timing(1, 1)));
    assert_eq!(flash_setup(f, Hertz(200_000_000), vs), Ok(timing(2, 2)));
    assert_eq!(flash_setup(f, Hertz(185_000_000), vs), Ok(timing(2, 1)));
    assert_eq!(flash_setup(f, Hertz(240_000_000), vs), Ok(timing(4, 2)));
    assert_eq!(
        flash_setup(f, Hertz(240_000_001), vs),
        Err(ClockError::FlashClockTooHigh)
    );
}

#[test]
fn h7_scale3_tiers() {
    let f = ChipFamily::H7;
    let vs = VoltageScale::Scale3;
    assert_eq!(flash_setup(f, Hertz(45_000_000), vs), Ok(timing(0, 0)));
    assert_eq!(flash_setup(f, Hertz(64_000_000), vs), Ok(timing(1, 1)));
    assert_eq!(flash_setup(f, Hertz(224_000_000), vs), Ok(timing(4, 2)));
    assert_eq!(
        flash_setup(f, Hertz(230_000_000), vs),
        Err(ClockError::FlashClockTooHigh)
    );
}

#[test]
fn wait_states_never_decrease_with_frequency() {
    // The lookup is a monotone step function of the clock at each
    // scale.
    for vs in [
        VoltageScale::Scale0,
        VoltageScale::Scale1,
        VoltageScale::Scale2,
        VoltageScale::Scale3,
    ] {
        for f in [ChipFamily::H5, ChipFamily::H7] {
            let mut last: i32 = -1;
            for mhz in 0..=260u32 {
                match flash_setup(f, Hertz(mhz * 1_000_000), vs) {
                    Ok(t) => {
                        assert!(t.latency as i32 >= last);
                        last = t.latency as i32;
                    }
                    Err(e) => assert_eq!(e, ClockError::FlashClockTooHigh),
                }
            }
        }
    }
}

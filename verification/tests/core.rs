use clocktree::abs_err;
use clocktree::PllDiv;
use clocktree::PllMul;
use clocktree::PllPreDiv;
use clocktree::resolve_min_error;
use clocktree::BlockingAsync;
use clocktree::ChipFamily;
use clocktree::Config;
use clocktree::HSIPrescaler;
use clocktree::Hertz;
use clocktree::SupplyConfig;
use clocktree::Sysclk;
use clocktree::TimerPrescaler;
use clocktree::VoltageScale;

#[test]
fn hertz_arithmetic() {
    assert_eq!(Hertz(25_000_000).div(5), Hertz(5_000_000));
    assert_eq!(Hertz(5_000_000).checked_mul(160), Some(Hertz(800_000_000)));
    assert_eq!(Hertz(3_000_000_000).checked_mul(2), None);
    assert_eq!(Hertz(3_000_000_000).saturating_mul(2), Hertz(u32::MAX));
    assert_eq!(Hertz(100).saturating_mul(3), Hertz(300));
    assert!(Hertz(1).le(Hertz(2)));
    assert!(Hertz(2).le(Hertz(2)));
    assert!(!Hertz(3).le(Hertz(2)));
    assert!(Hertz(150).in_range(Hertz(100), Hertz(200)));
    assert!(!Hertz(99).in_range(Hertz(100), Hertz(200)));
}

#[test]
fn min_error_takes_the_first_minimum() {
    let candidates = vec![10u32, 7, 13, 7];
    assert_eq!(resolve_min_error(8, &candidates), 1);
    // An exact candidate wins outright.
    let exact = vec![3u32, 8, 1];
    assert_eq!(resolve_min_error(8, &exact), 1);
    // A single candidate is always chosen.
    assert_eq!(resolve_min_error(1000, &vec![1u32]), 0);
}

#[test]
fn abs_err_is_symmetric() {
    assert_eq!(abs_err(10, 3), 7);
    assert_eq!(abs_err(3, 10), 7);
    assert_eq!(abs_err(5, 5), 0);
}

#[test]
fn default_configuration() {
    let c = Config::new(ChipFamily::H7);
    assert_eq!(c.hsi, Some(HSIPrescaler::Div1));
    assert_eq!(c.hse, None);
    assert!(!c.csi);
    assert!(c.hsi48);
    assert_eq!(c.sys, Sysclk::Hsi);
    assert!(c.pll1.is_none() && c.pll2.is_none() && c.pll3.is_none());
    assert_eq!(c.timer_prescaler, TimerPrescaler::DefaultX2);
    assert_eq!(c.voltage_scale, VoltageScale::Scale3);
    assert_eq!(c.supply_config, SupplyConfig::LDO);
}

#[test]
fn blocking_async_wraps_and_returns_the_driver() {
    let adapter = BlockingAsync::new(42u32);
    assert_eq!(adapter.into_inner(), 42);
}

#[test]
fn divider_newtypes_reject_out_of_range_values() {
    assert!(PllPreDiv::new(0).is_none());
    assert_eq!(PllPreDiv::new(63).unwrap().value(), 63);
    assert!(PllPreDiv::new(64).is_none());

    assert!(PllMul::new(3).is_none());
    assert_eq!(PllMul::new(512).unwrap().value(), 512);
    assert!(PllMul::new(513).is_none());

    assert!(PllDiv::new(0).is_none());
    assert_eq!(PllDiv::new(128).unwrap().value(), 128);
    assert!(PllDiv::new(129).is_none());
}

use clocktree::validate;
use clocktree::ClockId;
use clocktree::apb_div_tim;
use clocktree::APBPrescaler;
use clocktree::TimerPrescaler;
use clocktree::ChipFamily;
use clocktree::ClockError;
use clocktree::Config;
use clocktree::HSIPrescaler;
use clocktree::Hertz;
use clocktree::Hse;
use clocktree::HseMode;
use clocktree::Pll;
use clocktree::PllDiv;
use clocktree::PllMul;
use clocktree::PllPreDiv;
use clocktree::PllSource;
use clocktree::Sysclk;
use clocktree::VoltageScale;

fn pll(source: PllSource, prediv: u8, mul: u16, divp: Option<u8>, divq: Option<u8>, divr: Option<u8>) -> Pll {
    Pll {
        source,
        prediv: PllPreDiv::new(prediv).unwrap(),
        mul: PllMul::new(mul).unwrap(),
        divp: divp.map(|d| PllDiv::new(d).unwrap()),
        divq: divq.map(|d| PllDiv::new(d).unwrap()),
        divr: divr.map(|d| PllDiv::new(d).unwrap()),
    }
}

#[test]
fn hse_25_mhz_prediv_5_vco_800_mhz_uses_wide_range_on_h7() {
    // 25 MHz / 5 = 5 MHz reference (band at most 8 MHz); x160 gives an
    // 800 MHz VCO, above the medium window but inside H7's wide window.
    let mut c = Config::new(ChipFamily::H7);
    c.hse = Some(Hse {
        freq: Hertz(25_000_000),
        mode: HseMode::Oscillator,
    });
    c.pll1 = Some(pll(PllSource::Hse, 5, 160, Some(2), None, None));
    c.sys = Sysclk::Pll1P;
    c.voltage_scale = VoltageScale::Scale0;
    c.d1c_pre = clocktree::AHBPrescaler::Div1;
    c.ahb_pre = clocktree::AHBPrescaler::Div2;
    c.apb1_pre = clocktree::APBPrescaler::Div2;
    c.apb2_pre = clocktree::APBPrescaler::Div2;
    c.apb3_pre = clocktree::APBPrescaler::Div2;
    c.apb4_pre = clocktree::APBPrescaler::Div2;

    let tree = validate(&c).unwrap();
    assert_eq!(tree.sys, Some(Hertz(400_000_000)));
    assert_eq!(tree.pll1.p, Some(Hertz(400_000_000)));
    assert_eq!(tree.hclk, Some(Hertz(200_000_000)));
    assert_eq!(tree.apb1, Some(Hertz(100_000_000)));
}

#[test]
fn hse_25_mhz_vco_800_mhz_fails_on_h5() {
    // The same 800 MHz VCO exceeds H5's wide window (at most 560 MHz).
    let mut c = Config::new(ChipFamily::H5);
    c.hse = Some(Hse {
        freq: Hertz(25_000_000),
        mode: HseMode::Oscillator,
    });
    c.pll1 = Some(pll(PllSource::Hse, 5, 160, Some(2), None, None));
    c.sys = Sysclk::Pll1P;

    assert_eq!(validate(&c), Err(ClockError::PllVcoOutOfRange));
}

#[test]
fn default_topology_at_lowest_scale_resolves_to_hsi_base() {
    // The defaults themselves: internal fast oscillator undivided as
    // system clock, every divider 1, lowest-power scale. The core
    // clock equals the oscillator base and stays within the
    // lowest-scale ceiling.
    let c = Config::new(ChipFamily::H5);
    assert_eq!(c.voltage_scale, VoltageScale::Scale3);

    let tree = validate(&c).unwrap();
    assert_eq!(tree.sys, Some(Hertz(64_000_000)));
    assert_eq!(tree.hclk, Some(Hertz(64_000_000)));
    assert_eq!(tree.apb1, Some(Hertz(64_000_000)));
    assert_eq!(tree.apb1_tim, Some(Hertz(64_000_000)));
    assert_eq!(tree.hsi48, Some(Hertz(48_000_000)));
    assert_eq!(tree.apb4, None);
}

#[test]
fn mismatched_pll_sources_fail_before_anything_on_h7() {
    let mut c = Config::new(ChipFamily::H7);
    c.hse = Some(Hse {
        freq: Hertz(8_000_000),
        mode: HseMode::Oscillator,
    });
    c.pll1 = Some(pll(PllSource::Hsi, 8, 50, Some(2), None, None));
    c.pll2 = Some(pll(PllSource::Hse, 2, 100, Some(2), None, None));

    assert_eq!(validate(&c), Err(ClockError::PllSourceMismatch));
}

#[test]
fn mismatched_pll_sources_fail_on_h5_too() {
    // The cross-PLL source invariant holds on every family.
    let mut c = Config::new(ChipFamily::H5);
    c.hse = Some(Hse {
        freq: Hertz(8_000_000),
        mode: HseMode::Oscillator,
    });
    c.pll1 = Some(pll(PllSource::Hsi, 8, 50, Some(2), None, None));
    c.pll2 = Some(pll(PllSource::Hse, 2, 100, Some(2), None, None));

    assert_eq!(validate(&c), Err(ClockError::PllSourceMismatch));
}

#[test]
fn validation_is_deterministic() {
    let mut c = Config::new(ChipFamily::H7);
    c.voltage_scale = VoltageScale::Scale0;
    c.pll1 = Some(pll(PllSource::Hsi, 8, 50, Some(2), Some(4), None));
    c.sys = Sysclk::Pll1P;
    assert_eq!(validate(&c), validate(&c));
}

#[test]
fn unset_output_dividers_resolve_to_none() {
    let mut c = Config::new(ChipFamily::H7);
    c.voltage_scale = VoltageScale::Scale0;
    // 64 MHz / 8 = 8 MHz reference; x50 = 400 MHz VCO (medium window).
    c.pll1 = Some(pll(PllSource::Hsi, 8, 50, Some(2), None, None));
    c.sys = Sysclk::Pll1P;
    c.apb1_pre = clocktree::APBPrescaler::Div2;
    c.apb2_pre = clocktree::APBPrescaler::Div2;
    c.apb3_pre = clocktree::APBPrescaler::Div2;
    c.apb4_pre = clocktree::APBPrescaler::Div2;

    let tree = validate(&c).unwrap();
    assert_eq!(tree.pll1.p, Some(Hertz(200_000_000)));
    assert_eq!(tree.pll1.q, None);
    assert_eq!(tree.pll1.r, None);
    assert_eq!(tree.pll2.p, None);
    assert_eq!(tree.pll3.p, None);
}

#[test]
fn pll_source_disable_is_rejected() {
    let mut c = Config::new(ChipFamily::H7);
    c.pll1 = Some(pll(PllSource::Disable, 8, 50, Some(2), None, None));
    assert_eq!(validate(&c), Err(ClockError::PllSourceNotSelected));
}

#[test]
fn pll_source_left_off_is_rejected() {
    let mut c = Config::new(ChipFamily::H7);
    c.pll1 = Some(pll(PllSource::Hse, 1, 50, Some(2), None, None));
    assert_eq!(validate(&c), Err(ClockError::PllSourceNotEnabled));
}

#[test]
fn pll_reference_above_16_mhz_is_rejected() {
    let mut c = Config::new(ChipFamily::H7);
    c.hse = Some(Hse {
        freq: Hertz(25_000_000),
        mode: HseMode::Oscillator,
    });
    c.pll1 = Some(pll(PllSource::Hse, 1, 50, Some(2), None, None));
    assert_eq!(validate(&c), Err(ClockError::PllRefClockOutOfRange));
}

#[test]
fn wide_vco_needs_reference_above_lowest_band() {
    // 1 MHz reference sits in the lowest band, where only the medium
    // window is allowed: a 500 MHz VCO then fails even on H7.
    let mut c = Config::new(ChipFamily::H7);
    c.hsi = Some(HSIPrescaler::Div2);
    c.pll1 = Some(pll(PllSource::Hsi, 32, 500, Some(2), None, None));
    assert_eq!(validate(&c), Err(ClockError::PllVcoOutOfRange));
}

#[test]
fn pll1_odd_p_divider_is_rejected() {
    let mut c = Config::new(ChipFamily::H7);
    c.pll1 = Some(pll(PllSource::Hsi, 8, 50, Some(3), None, None));
    assert_eq!(validate(&c), Err(ClockError::Pll1DivPNotEven));
}

#[test]
fn pll2_odd_p_divider_is_allowed() {
    let mut c = Config::new(ChipFamily::H7);
    c.voltage_scale = VoltageScale::Scale0;
    c.pll2 = Some(pll(PllSource::Hsi, 8, 50, Some(3), None, None));
    let tree = validate(&c).unwrap();
    // 400 MHz VCO / 3.
    assert_eq!(tree.pll2.p, Some(Hertz(133_333_333)));
}

#[test]
fn disabled_sysclk_source_is_rejected() {
    let mut c = Config::new(ChipFamily::H7);
    c.sys = Sysclk::Hse;
    assert_eq!(validate(&c), Err(ClockError::SysclkSourceNotEnabled));
}

#[test]
fn digital_bypass_is_h5_only() {
    let mut c = Config::new(ChipFamily::H7);
    c.hse = Some(Hse {
        freq: Hertz(8_000_000),
        mode: HseMode::BypassDigital,
    });
    assert_eq!(validate(&c), Err(ClockError::HseModeUnsupported));

    let mut c5 = Config::new(ChipFamily::H5);
    c5.hse = Some(Hse {
        freq: Hertz(8_000_000),
        mode: HseMode::BypassDigital,
    });
    assert!(validate(&c5).is_ok());
}

#[test]
fn cpu_ceiling_violation_is_rejected() {
    let mut c = Config::new(ChipFamily::H7);
    c.hse = Some(Hse {
        freq: Hertz(500_000_000),
        mode: HseMode::Bypass,
    });
    c.sys = Sysclk::Hse;
    c.voltage_scale = VoltageScale::Scale0;
    assert_eq!(validate(&c), Err(ClockError::CpuClockTooHigh));
}

#[test]
fn ahb_ceiling_violation_is_rejected() {
    let mut c = Config::new(ChipFamily::H7);
    c.hse = Some(Hse {
        freq: Hertz(500_000_000),
        mode: HseMode::Bypass,
    });
    c.sys = Sysclk::Hse;
    c.voltage_scale = VoltageScale::Scale0;
    c.d1c_pre = clocktree::AHBPrescaler::Div2;
    c.ahb_pre = clocktree::AHBPrescaler::Div2;
    assert_eq!(validate(&c), Err(ClockError::AhbClockTooHigh));
}

#[test]
fn apb_ceiling_violation_is_rejected_not_truncated() {
    // 64 MHz on every bus exceeds the 50 MHz APB ceiling of H7's lowest
    // scale: validation fails rather than clamping anything.
    let mut c = Config::new(ChipFamily::H7);
    c.voltage_scale = VoltageScale::Scale3;
    assert_eq!(validate(&c), Err(ClockError::ApbClockTooHigh));
}

#[test]
fn hsi_divider_scales_the_base_frequency() {
    let mut c = Config::new(ChipFamily::H5);
    c.hsi = Some(HSIPrescaler::Div4);
    let tree = validate(&c).unwrap();
    assert_eq!(tree.sys, Some(Hertz(16_000_000)));
    assert_eq!(tree.hsi, Some(Hertz(16_000_000)));
}

#[test]
fn csi_as_system_clock() {
    let mut c = Config::new(ChipFamily::H5);
    c.csi = true;
    c.sys = Sysclk::Csi;
    let tree = validate(&c).unwrap();
    assert_eq!(tree.sys, Some(Hertz(4_000_000)));
    assert_eq!(tree.csi, Some(Hertz(4_000_000)));
}

#[test]
fn timer_clocks_follow_the_multiplier_policy() {
    let hclk = Hertz(200_000_000);
    // Doubled policy: buses divided by more than 2 get twice their bus
    // clock.
    assert_eq!(apb_div_tim(&APBPrescaler::Div1, hclk, TimerPrescaler::DefaultX2), hclk);
    assert_eq!(apb_div_tim(&APBPrescaler::Div2, hclk, TimerPrescaler::DefaultX2), hclk);
    assert_eq!(
        apb_div_tim(&APBPrescaler::Div4, hclk, TimerPrescaler::DefaultX2),
        Hertz(100_000_000)
    );
    assert_eq!(
        apb_div_tim(&APBPrescaler::Div16, hclk, TimerPrescaler::DefaultX2),
        Hertz(25_000_000)
    );
    // Quadrupled policy: buses divided by up to 4 keep the AHB clock.
    assert_eq!(apb_div_tim(&APBPrescaler::Div4, hclk, TimerPrescaler::DefaultX4), hclk);
    assert_eq!(
        apb_div_tim(&APBPrescaler::Div16, hclk, TimerPrescaler::DefaultX4),
        Hertz(50_000_000)
    );
}

#[test]
fn timer_clock_in_resolved_tree() {
    let mut c = Config::new(ChipFamily::H7);
    c.pll1 = Some(pll(PllSource::Hsi, 8, 50, Some(2), None, None));
    c.sys = Sysclk::Pll1P;
    c.ahb_pre = clocktree::AHBPrescaler::Div1;
    c.apb1_pre = clocktree::APBPrescaler::Div4;
    c.apb2_pre = clocktree::APBPrescaler::Div4;
    c.apb3_pre = clocktree::APBPrescaler::Div4;
    c.apb4_pre = clocktree::APBPrescaler::Div4;
    c.voltage_scale = VoltageScale::Scale1;

    let tree = validate(&c).unwrap();
    assert_eq!(tree.hclk, Some(Hertz(200_000_000)));
    assert_eq!(tree.apb1, Some(Hertz(50_000_000)));
    assert_eq!(tree.apb1_tim, Some(Hertz(100_000_000)));
}

#[test]
fn frequency_queries_key_every_node() {
    let mut c = Config::new(ChipFamily::H7);
    c.voltage_scale = VoltageScale::Scale0;
    c.pll1 = Some(pll(PllSource::Hsi, 8, 50, Some(2), Some(4), None));
    c.sys = Sysclk::Pll1P;
    c.apb1_pre = clocktree::APBPrescaler::Div2;
    c.apb2_pre = clocktree::APBPrescaler::Div2;
    c.apb3_pre = clocktree::APBPrescaler::Div2;
    c.apb4_pre = clocktree::APBPrescaler::Div2;

    let tree = validate(&c).unwrap();
    assert_eq!(tree.frequency(ClockId::Sys), Some(Hertz(200_000_000)));
    assert_eq!(tree.frequency(ClockId::Hclk), Some(Hertz(200_000_000)));
    assert_eq!(tree.frequency(ClockId::Apb1), Some(Hertz(100_000_000)));
    assert_eq!(tree.frequency(ClockId::Pll1P), Some(Hertz(200_000_000)));
    assert_eq!(tree.frequency(ClockId::Pll1Q), Some(Hertz(100_000_000)));
    assert_eq!(tree.frequency(ClockId::Pll1R), None);
    assert_eq!(tree.frequency(ClockId::Hse), None);
    assert_eq!(tree.frequency(ClockId::Hsi), Some(Hertz(64_000_000)));
    assert_eq!(tree.frequency(ClockId::Hsi48), Some(Hertz(48_000_000)));
    assert_eq!(tree.frequency(ClockId::Csi), None);
}

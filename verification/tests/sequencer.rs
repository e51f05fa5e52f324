use clocktree::supply_fields;
use clocktree::Pll;
use clocktree::PllDiv;
use clocktree::PllMul;
use clocktree::PllPreDiv;
use clocktree::PllRefRange;
use clocktree::PllSource;
use clocktree::VcoRange;
use clocktree::Action;
use clocktree::BringUpState;
use clocktree::ChipFamily;
use clocktree::ClockError;
use clocktree::Config;
use clocktree::FlashTiming;
use clocktree::HSIPrescaler;
use clocktree::Hertz;
use clocktree::Hse;
use clocktree::HseMode;
use clocktree::SMPSSupplyVoltage;
use clocktree::SmpsLevel;
use clocktree::SupplyConfig;
use clocktree::Sysclk;
use clocktree::VoltageScale;
use clocktree::Sequencer;

fn h7_config() -> Config {
    let mut c = Config::new(ChipFamily::H7);
    c.hse = Some(Hse {
        freq: Hertz(25_000_000),
        mode: HseMode::Oscillator,
    });
    c.voltage_scale = VoltageScale::Scale1;
    c
}

#[test]
fn invalid_topology_never_reaches_hardware() {
    let mut c = Config::new(ChipFamily::H7);
    c.sys = Sysclk::Hse;
    assert_eq!(
        Sequencer::new(c).map(|s| s.state),
        Err(ClockError::SysclkSourceNotEnabled)
    );
}

#[test]
fn states_run_forward_to_ready_and_stay() {
    let mut s = Sequencer::new(h7_config()).unwrap();
    let expected = [
        BringUpState::Reset,
        BringUpState::SafeIntermediateClock,
        BringUpState::OscillatorsStable,
        BringUpState::PllsConfigured,
        BringUpState::SystemClockSwitched,
        BringUpState::PrescalersApplied,
        BringUpState::PeripheralMuxesConfigured,
        BringUpState::Ready,
    ];
    for (i, st) in expected.iter().enumerate() {
        assert_eq!(s.state, *st);
        let acts = s.advance();
        if i + 1 < expected.len() {
            assert_eq!(s.state, expected[i + 1]);
        } else {
            // Ready is terminal: no actions, no movement.
            assert_eq!(s.state, BringUpState::Ready);
            assert!(acts.is_empty());
        }
    }
}

#[test]
fn first_transition_parks_the_system_clock_on_hsi() {
    let mut s = Sequencer::new(h7_config()).unwrap();
    let acts = s.advance();
    // Supply first, then voltage scale, then the safe intermediate
    // clock.
    assert_eq!(
        acts[0],
        Action::ConfigureSupply(supply_fields(SupplyConfig::LDO))
    );
    assert_eq!(acts[1], Action::AwaitSupplyReady);
    assert_eq!(acts[2], Action::SetVoltageScale(VoltageScale::Scale1));
    assert_eq!(acts[3], Action::AwaitVoltageScaleReady);
    assert_eq!(acts[4], Action::EnableHsi(Some(HSIPrescaler::Div1)));
    assert_eq!(acts[5], Action::AwaitHsiReady);
    assert_eq!(acts[6], Action::SelectSystemClock(Sysclk::Hsi));
    assert_eq!(acts[7], Action::AwaitSystemClockSwitched(Sysclk::Hsi));
    assert_eq!(acts.len(), 8);
}

#[test]
fn fastest_scale_goes_through_overdrive_on_h7() {
    let mut c = h7_config();
    c.voltage_scale = VoltageScale::Scale0;
    let mut s = Sequencer::new(c).unwrap();
    let acts = s.advance();
    assert_eq!(acts[2], Action::SetVoltageScale(VoltageScale::Scale1));
    assert_eq!(acts[3], Action::AwaitVoltageScaleReady);
    assert_eq!(acts[4], Action::EnableOverdrive);
    assert_eq!(acts[5], Action::AwaitVoltageScaleReady);
}

#[test]
fn oscillator_transition_enables_what_the_topology_needs() {
    let mut s = Sequencer::new(h7_config()).unwrap();
    s.advance();
    let acts = s.advance();
    assert_eq!(acts[0], Action::EnableHse(HseMode::Oscillator));
    assert_eq!(acts[1], Action::AwaitHseReady);
    // The internal 48 MHz oscillator is on by default.
    assert_eq!(acts[2], Action::EnableHsi48);
    assert_eq!(acts[3], Action::AwaitHsi48Ready);
    // The low-power oscillator enable is always driven; off here, so
    // nothing is awaited.
    assert_eq!(acts[4], Action::SetCsiEnabled(false));
    assert_eq!(acts.len(), 5);
}

#[test]
fn unused_plls_are_stopped_and_parked() {
    let mut s = Sequencer::new(h7_config()).unwrap();
    s.advance();
    s.advance();
    let acts = s.advance();
    assert_eq!(acts.len(), 9);
    for slot in 0..3u8 {
        assert_eq!(acts[3 * slot as usize], Action::DisablePll(slot));
        assert_eq!(acts[3 * slot as usize + 1], Action::AwaitPllStopped(slot));
        assert_eq!(acts[3 * slot as usize + 2], Action::ClearPllPrescaler(slot));
    }
}

#[test]
fn flash_timing_is_programmed_before_the_switch() {
    let mut s = Sequencer::new(h7_config()).unwrap();
    s.advance();
    s.advance();
    s.advance();
    let acts = s.advance();
    // 64 MHz at scale 1 on H7: no extra wait state needed.
    assert_eq!(acts[0], Action::SetFlashTiming(FlashTiming { latency: 0, wrhighfreq: 0 }));
    assert_eq!(acts[1], Action::AwaitFlashTiming(FlashTiming { latency: 0, wrhighfreq: 0 }));
    let flash_pos = 0;
    let switch_pos = acts
        .iter()
        .position(|a| *a == Action::SelectSystemClock(Sysclk::Hsi))
        .unwrap();
    assert!(flash_pos < switch_pos);
    // The switch is confirmed last.
    assert_eq!(
        acts[acts.len() - 1],
        Action::AwaitSystemClockSwitched(Sysclk::Hsi)
    );
}

#[test]
fn hsi_left_enabled_when_it_is_the_system_clock() {
    let mut s = Sequencer::new(h7_config()).unwrap();
    for _ in 0..6 {
        s.advance();
    }
    assert_eq!(s.state, BringUpState::PeripheralMuxesConfigured);
    let acts = s.advance();
    assert!(acts.is_empty());
    assert_eq!(s.state, BringUpState::Ready);
}

#[test]
fn bringup_oscillator_disabled_when_unused() {
    let mut c = h7_config();
    c.hsi = None;
    c.sys = Sysclk::Hse;
    let mut s = Sequencer::new(c).unwrap();
    for _ in 0..6 {
        s.advance();
    }
    let acts = s.advance();
    assert_eq!(acts, vec![Action::DisableHsi]);
}

#[test]
fn supply_fields_follow_the_configuration() {
    let ldo = supply_fields(SupplyConfig::LDO);
    assert!(!ldo.sden && ldo.ldoen && !ldo.bypass);
    assert_eq!(ldo.sdlevel, None);

    let smps = supply_fields(SupplyConfig::SMPSLDO(SMPSSupplyVoltage::V1_8));
    assert_eq!(smps.sdlevel, Some(SmpsLevel::V1_8));
    assert_eq!(smps.sdexthp, Some(false));
    assert!(smps.sden && smps.ldoen && !smps.bypass);

    let ext = supply_fields(SupplyConfig::SMPSExternalLDOBypass(SMPSSupplyVoltage::V2_5));
    assert_eq!(ext.sdlevel, Some(SmpsLevel::V2_5));
    assert_eq!(ext.sdexthp, Some(true));
    assert!(ext.sden && !ext.ldoen && ext.bypass);

    let off = supply_fields(SupplyConfig::SMPSDisabledLDOBypass);
    assert!(!off.sden && !off.ldoen && off.bypass);
}

#[test]
fn h5_first_transition_has_no_supply_step() {
    let mut c = Config::new(ChipFamily::H5);
    c.voltage_scale = VoltageScale::Scale2;
    let mut s = Sequencer::new(c).unwrap();
    let acts = s.advance();
    assert_eq!(acts[0], Action::SetVoltageScale(VoltageScale::Scale2));
    assert_eq!(acts[1], Action::AwaitVoltageScaleReady);
    assert_eq!(acts[2], Action::EnableHsi(Some(HSIPrescaler::Div1)));
}

#[test]
fn h5_switch_transition_uses_the_h5_divider_registers() {
    let c = Config::new(ChipFamily::H5);
    let mut s = Sequencer::new(c).unwrap();
    s.advance();
    s.advance();
    s.advance();
    let acts = s.advance();
    assert!(acts.contains(&Action::SetAhbDivider(clocktree::AHBPrescaler::Div1)));
    assert!(acts.contains(&Action::SetApbDividers(
        clocktree::APBPrescaler::Div1,
        clocktree::APBPrescaler::Div1,
        clocktree::APBPrescaler::Div1,
    )));
    assert!(!acts.iter().any(|a| matches!(a, Action::SetCoreDividers(_, _, _))));
}

#[test]
fn enabled_pll_is_programmed_before_it_is_enabled() {
    let mut c = Config::new(ChipFamily::H7);
    c.voltage_scale = VoltageScale::Scale1;
    // 64 MHz / 8 = 8 MHz reference, x50 = 400 MHz VCO.
    c.pll1 = Some(Pll {
        source: PllSource::Hsi,
        prediv: PllPreDiv::new(8).unwrap(),
        mul: PllMul::new(50).unwrap(),
        divp: Some(PllDiv::new(2).unwrap()),
        divq: None,
        divr: None,
    });
    let mut s = Sequencer::new(c).unwrap();
    s.advance();
    s.advance();
    let acts = s.advance();
    match &acts[0] {
        Action::ConfigurePll(0, regs) => {
            assert_eq!(regs.source, PllSource::Hsi);
            assert_eq!(regs.prediv.value(), 8);
            assert_eq!(regs.mul.value(), 50);
            assert_eq!(regs.ref_range, PllRefRange::Range8);
            assert_eq!(regs.vco_range, VcoRange::Medium);
            assert_eq!(regs.divp.map(|d| d.value()), Some(2));
            assert_eq!(regs.divq, None);
        }
        other => panic!("unexpected first action: {:?}", other),
    }
    assert_eq!(acts[1], Action::EnablePll(0));
    assert_eq!(acts[2], Action::AwaitPllLocked(0));
    // The remaining slots are unused and parked.
    assert_eq!(acts[3], Action::DisablePll(1));
    assert_eq!(acts.len(), 9);
}

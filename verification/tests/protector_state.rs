use power_desk::protector::{
    Protector, ProtectorLoopAction, ProtectorLoopState, ProtectorPhase, ProtectorPollEvent,
    ProtectorReading, TemperatureConfig, VinPinAction, VinState, MAX_FAIL_TIMES,
};

fn reading(pin_high: bool) -> ProtectorReading {
    ProtectorReading {
        temperature_0: 36.5f32.to_bits(),
        temperature_1: 31.25f32.to_bits(),
        millivolts: 12000.5f64.to_bits(),
        amps: Some(2.25f64.to_bits()),
        watts: Some(27.0f64.to_bits()),
        vin_pin_high: pin_high,
    }
}

#[test]
fn vin_state_wire_codes() {
    assert_eq!(VinState::Normal.to_u8(), 0);
    assert_eq!(VinState::Shutdown.to_u8(), 1);
    assert_eq!(VinState::Protection.to_u8(), 2);
    for code in 0u8..3 {
        assert_eq!(VinState::from_u8(code).to_u8(), code);
    }
}

#[test]
fn default_thresholds_are_the_float_bit_patterns() {
    let config = TemperatureConfig::default();
    assert_eq!(config.hysteresis, 60.0f32.to_bits());
    assert_eq!(config.over_shutdown, 70.0f32.to_bits());
    let protector = Protector::new();
    assert_eq!(protector.temperature_config, config);
    assert!(!protector.shutdown);
}

#[test]
fn telemetry_cycle_negates_input_current() {
    let mut protector = Protector::new();
    let snapshot = protector.run_task_once(&reading(true));
    // the sign bit flips, nothing else moves
    assert_eq!(f64::from_bits(snapshot.amps), -2.25);
    assert_eq!(f64::from_bits(snapshot.watts), 27.0);
    assert_eq!(f32::from_bits(snapshot.temperature_0), 36.5);
    assert_eq!(snapshot.vin_status, VinState::Normal);
}

#[test]
fn unconverted_readings_keep_previous_values() {
    let mut protector = Protector::new();
    protector.run_task_once(&reading(true));
    let partial = ProtectorReading {
        amps: None,
        watts: None,
        ..reading(true)
    };
    let snapshot = protector.run_task_once(&partial);
    assert_eq!(f64::from_bits(snapshot.amps), -2.25);
    assert_eq!(f64::from_bits(snapshot.watts), 27.0);
}

#[test]
fn override_forces_shutdown_regardless_of_pin_level() {
    let mut protector = Protector::new();
    let action = protector.apply_vin_override(VinState::Protection);
    assert_eq!(action, VinPinAction::DriveOpenDrainLow);

    // whatever the GPIO reads, the published state is Shutdown
    let snapshot = protector.run_task_once(&reading(true));
    assert_eq!(snapshot.vin_status, VinState::Shutdown);
    let snapshot = protector.run_task_once(&reading(false));
    assert_eq!(snapshot.vin_status, VinState::Shutdown);

    // a Shutdown override holds it down too
    let action = protector.apply_vin_override(VinState::Shutdown);
    assert_eq!(action, VinPinAction::DriveOpenDrainLow);
    let snapshot = protector.run_task_once(&reading(true));
    assert_eq!(snapshot.vin_status, VinState::Shutdown);

    // only a Normal override releases the rail
    let action = protector.apply_vin_override(VinState::Normal);
    assert_eq!(action, VinPinAction::ReleaseToInput);
    let snapshot = protector.run_task_once(&reading(true));
    assert_eq!(snapshot.vin_status, VinState::Normal);
    // with the rail released, a low pin reads back as Protection
    let snapshot = protector.run_task_once(&reading(false));
    assert_eq!(snapshot.vin_status, VinState::Protection);
}

#[test]
fn reinit_after_exactly_max_failures() {
    let mut state = ProtectorLoopState::new();
    assert_eq!(state.next_action(), ProtectorLoopAction::Init);

    state.apply_init_result(false);
    assert_eq!(state.next_action(), ProtectorLoopAction::Init);
    state.apply_init_result(true);
    assert_eq!(state.next_action(), ProtectorLoopAction::Poll);

    // two failures keep the loop polling; the third sends it back to init
    assert_eq!(MAX_FAIL_TIMES, 3);
    state.apply_poll_event(ProtectorPollEvent::ReadErr);
    assert_eq!(state.phase, ProtectorPhase::Running);
    state.apply_poll_event(ProtectorPollEvent::TickTimeout);
    assert_eq!(state.phase, ProtectorPhase::Running);
    state.apply_poll_event(ProtectorPollEvent::ReadErr);
    assert_eq!(state.phase, ProtectorPhase::NeedInit);
    assert_eq!(state.next_action(), ProtectorLoopAction::Init);
}

#[test]
fn successful_read_restores_the_fail_budget() {
    let mut state = ProtectorLoopState::new();
    state.apply_init_result(true);
    state.apply_poll_event(ProtectorPollEvent::ReadErr);
    state.apply_poll_event(ProtectorPollEvent::ReadErr);
    state.apply_poll_event(ProtectorPollEvent::ReadOk);
    assert_eq!(state.fail_times, 0);
    // the budget is whole again: two more failures do not re-init
    state.apply_poll_event(ProtectorPollEvent::ReadErr);
    state.apply_poll_event(ProtectorPollEvent::ReadErr);
    assert_eq!(state.phase, ProtectorPhase::Running);
    // an override also restores it
    state.apply_poll_event(ProtectorPollEvent::VinOverride(VinState::Normal));
    assert_eq!(state.fail_times, 0);
}

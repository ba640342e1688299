use power_desk::bus::ChargeChannelSeriesItem;
use power_desk::charge_channel::{ChargeChannel, PollCycleOutcome};

#[test]
fn poll_skipped_when_offline_or_degraded() {
    // offline, power-monitor-only and controller-only channels are skipped,
    // whatever the bus would have returned
    for &(ina_ok, sw_ok) in &[(false, false), (true, false), (false, true)] {
        let mut channel = ChargeChannel::new();
        channel.apply_ina226_probe(ina_ok);
        channel.apply_sw3526_probe(sw_ok);
        for &monitor_ok in &[false, true] {
            for &ticker_won in &[false, true] {
                for &controller_ok in &[false, true] {
                    assert_eq!(
                        channel.poll_once_outcome(monitor_ok, ticker_won, controller_ok),
                        PollCycleOutcome::Skipped
                    );
                }
            }
        }
    }
}

#[test]
fn poll_abandoned_when_ticker_wins() {
    let mut channel = ChargeChannel::new();
    channel.apply_ina226_probe(true);
    channel.apply_sw3526_probe(true);
    // ticker fired first: no snapshot, no error surfaced
    assert_eq!(
        channel.poll_once_outcome(true, true, false),
        PollCycleOutcome::Abandoned
    );
    assert_eq!(
        channel.poll_once_outcome(true, true, true),
        PollCycleOutcome::Abandoned
    );
}

#[test]
fn poll_published_only_when_everything_completed() {
    let mut channel = ChargeChannel::new();
    channel.apply_ina226_probe(true);
    channel.apply_sw3526_probe(true);
    assert_eq!(
        channel.poll_once_outcome(true, false, true),
        PollCycleOutcome::Published
    );
    assert_eq!(
        channel.poll_once_outcome(false, false, true),
        PollCycleOutcome::INA226Failed
    );
    assert_eq!(
        channel.poll_once_outcome(true, false, false),
        PollCycleOutcome::SW3526Failed
    );
}

#[test]
fn readings_overwrite_only_converted_values() {
    let mut channel = ChargeChannel::new();
    let mv = 5000.25f64.to_bits();
    let amps = 1.5f64.to_bits();
    let watts = 7.5f64.to_bits();
    channel.apply_ina226_reading(mv, Some(amps), Some(watts));
    assert_eq!(channel.current_channel_state.millivolts, mv);
    assert_eq!(channel.current_channel_state.amps, amps);
    assert_eq!(channel.current_channel_state.watts, watts);

    // a reading the monitor could not convert keeps the previous value
    let mv2 = 4999.75f64.to_bits();
    channel.apply_ina226_reading(mv2, None, None);
    assert_eq!(channel.current_channel_state.millivolts, mv2);
    assert_eq!(channel.current_channel_state.amps, amps);
    assert_eq!(channel.current_channel_state.watts, watts);
}

#[test]
fn controller_registers_fill_the_snapshot() {
    let mut channel = ChargeChannel::new();
    channel.apply_sw3526_limits(65, 9000);
    channel.apply_sw3526_status(4, 0x12, 0x03, 3250);
    let expected = ChargeChannelSeriesItem {
        millivolts: 0,
        amps: 0,
        watts: 0,
        protocol: 4,
        system_status: 0x12,
        abnormal_case: 0x03,
        buck_output_millivolts: 9000,
        buck_output_limit_milliamps: 3250,
        limit_watts: 65,
    };
    assert_eq!(channel.current_channel_state, expected);
}

use power_desk::i2c_mux::{ChargeChannelIndex, I2cMux, MuxPort};

const ALL_CHANNELS: [ChargeChannelIndex; 4] = [
    ChargeChannelIndex::Ch0,
    ChargeChannelIndex::Ch1,
    ChargeChannelIndex::Ch2,
    ChargeChannelIndex::Ch3,
];

#[test]
fn route_activates_one_port_and_disconnects_the_other_chip() {
    let mut mux = I2cMux::new();
    mux.apply_probe_results(true, true);

    let plan = mux.select_plan(ChargeChannelIndex::Ch0);
    assert_eq!(plan.mux_0_write, Some(MuxPort::Ch0));
    assert_eq!(plan.mux_1_write, Some(MuxPort::Disconnected));

    let plan = mux.select_plan(ChargeChannelIndex::Ch1);
    assert_eq!(plan.mux_0_write, Some(MuxPort::Disconnected));
    assert_eq!(plan.mux_1_write, Some(MuxPort::Ch1));

    let plan = mux.select_plan(ChargeChannelIndex::Ch2);
    assert_eq!(plan.mux_0_write, Some(MuxPort::Ch1));
    assert_eq!(plan.mux_1_write, Some(MuxPort::Disconnected));

    let plan = mux.select_plan(ChargeChannelIndex::Ch3);
    assert_eq!(plan.mux_0_write, Some(MuxPort::Disconnected));
    assert_eq!(plan.mux_1_write, Some(MuxPort::Ch0));
}

#[test]
fn select_skips_the_unavailable_owning_chip() {
    // the first chip never answered its probe
    let mut mux = I2cMux::new();
    mux.apply_probe_results(false, true);

    // a channel owned by the missing chip: no write to it, the other chip
    // still receives its setting
    let plan = mux.select_plan(ChargeChannelIndex::Ch0);
    assert_eq!(plan.mux_0_write, None);
    assert_eq!(plan.mux_1_write, Some(MuxPort::Disconnected));

    let plan = mux.select_plan(ChargeChannelIndex::Ch2);
    assert_eq!(plan.mux_0_write, None);
    assert_eq!(plan.mux_1_write, Some(MuxPort::Disconnected));

    // channels owned by the surviving chip still route fully
    let plan = mux.select_plan(ChargeChannelIndex::Ch1);
    assert_eq!(plan.mux_0_write, None);
    assert_eq!(plan.mux_1_write, Some(MuxPort::Ch1));
}

#[test]
fn availability_follows_the_owning_chip() {
    let mut mux = I2cMux::new();
    for ch in ALL_CHANNELS {
        assert!(!mux.get_channel_available(ch));
    }

    mux.apply_probe_results(true, false);
    assert!(mux.get_channel_available(ChargeChannelIndex::Ch0));
    assert!(!mux.get_channel_available(ChargeChannelIndex::Ch1));
    assert!(mux.get_channel_available(ChargeChannelIndex::Ch2));
    assert!(!mux.get_channel_available(ChargeChannelIndex::Ch3));

    mux.apply_probe_results(false, true);
    assert!(!mux.get_channel_available(ChargeChannelIndex::Ch0));
    assert!(mux.get_channel_available(ChargeChannelIndex::Ch1));
    assert!(!mux.get_channel_available(ChargeChannelIndex::Ch2));
    assert!(mux.get_channel_available(ChargeChannelIndex::Ch3));
}

#[test]
fn channel_numbers() {
    for (i, ch) in ALL_CHANNELS.into_iter().enumerate() {
        assert_eq!(ch.to_u8(), i as u8);
    }
}

use power_desk::bus::{ChargeChannelSeriesItem, ProtectorSeriesItem};
use power_desk::mqtt::{
    get_channel_str, serialize_charge_channel_series_item, serialize_protector,
    vin_override_from_byte,
};
use power_desk::protector::VinState;

#[test]
fn channel_names() {
    assert_eq!(get_channel_str(0), "ch0");
    assert_eq!(get_channel_str(1), "ch1");
    assert_eq!(get_channel_str(2), "ch2");
    assert_eq!(get_channel_str(3), "ch3");
    assert_eq!(get_channel_str(4), "unknown");
    assert_eq!(get_channel_str(255), "unknown");
}

#[test]
fn channel_snapshot_framing() {
    let mut item = ChargeChannelSeriesItem::default();
    item.millivolts = 5000.0f64.to_bits();
    item.limit_watts = 65;
    let (topic, payload) = serialize_charge_channel_series_item(&item, 2);
    assert_eq!(topic, "power-desk/test/ch2/series");
    assert_eq!(payload, item.to_bytes());

    let (topic, _) = serialize_charge_channel_series_item(&item, 0);
    assert_eq!(topic, "power-desk/test/ch0/series");
    let (topic, _) = serialize_charge_channel_series_item(&item, 9);
    assert_eq!(topic, "power-desk/test/unknown/series");
}

#[test]
fn protector_snapshot_framing() {
    let mut item = ProtectorSeriesItem::default();
    item.temperature_0 = 25.0f32.to_bits();
    item.vin_status = VinState::Shutdown;
    let (topic, payload) = serialize_protector(&item);
    assert_eq!(topic, "power-desk/test/protector");
    assert_eq!(payload, item.to_bytes());
    assert_eq!(payload.len(), 33);
}

#[test]
fn vin_override_decoding() {
    assert_eq!(vin_override_from_byte(0), Some(VinState::Normal));
    assert_eq!(vin_override_from_byte(1), Some(VinState::Shutdown));
    assert_eq!(vin_override_from_byte(2), Some(VinState::Protection));
    assert_eq!(vin_override_from_byte(3), None);
    assert_eq!(vin_override_from_byte(255), None);
}

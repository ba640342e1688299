use power_desk::bus::{ChargeChannelSeriesItem, ProtectorSeriesItem};
use power_desk::protector::VinState;

fn sample_channel_item() -> ChargeChannelSeriesItem {
    ChargeChannelSeriesItem {
        millivolts: 5012.75f64.to_bits(),
        amps: 1.5f64.to_bits(),
        watts: (-2.25f64).to_bits(),
        protocol: 7,
        system_status: 0xA5,
        abnormal_case: 0x01,
        buck_output_millivolts: 9020,
        buck_output_limit_milliamps: 3250,
        limit_watts: 65,
    }
}

fn sample_protector_item() -> ProtectorSeriesItem {
    ProtectorSeriesItem {
        temperature_0: 36.5f32.to_bits(),
        temperature_1: (-1.75f32).to_bits(),
        millivolts: 11980.5f64.to_bits(),
        amps: (-2.25f64).to_bits(),
        watts: 27.0f64.to_bits(),
        vin_status: VinState::Protection,
    }
}

#[test]
fn channel_item_layout_matches_float_le_bytes() {
    let item = sample_channel_item();
    let bytes = item.to_bytes();
    assert_eq!(bytes.len(), 32);
    assert_eq!(&bytes[0..8], &5012.75f64.to_le_bytes());
    assert_eq!(&bytes[8..16], &1.5f64.to_le_bytes());
    assert_eq!(&bytes[16..24], &(-2.25f64).to_le_bytes());
    assert_eq!(&bytes[24..27], &[7, 0xA5, 0x01]);
    assert_eq!(&bytes[27..29], &9020u16.to_le_bytes());
    assert_eq!(&bytes[29..31], &3250u16.to_le_bytes());
    assert_eq!(bytes[31], 65);
}

#[test]
fn channel_item_roundtrip_is_exact() {
    let item = sample_channel_item();
    let bytes = item.to_bytes();
    let decoded = ChargeChannelSeriesItem::from_bytes(&bytes);
    assert_eq!(decoded, item);
    // bit-for-bit on the floats
    assert_eq!(f64::from_bits(decoded.millivolts), 5012.75);
    assert_eq!(f64::from_bits(decoded.watts), -2.25);
}

#[test]
fn zeroed_channel_item_roundtrip() {
    let item = ChargeChannelSeriesItem::default();
    let bytes = item.to_bytes();
    assert_eq!(bytes, vec![0u8; 32]);
    assert_eq!(ChargeChannelSeriesItem::from_bytes(&bytes), item);
}

#[test]
fn protector_item_layout_matches_float_le_bytes() {
    let item = sample_protector_item();
    let bytes = item.to_bytes();
    assert_eq!(bytes.len(), 33);
    assert_eq!(&bytes[0..4], &36.5f32.to_le_bytes());
    assert_eq!(&bytes[4..8], &(-1.75f32).to_le_bytes());
    assert_eq!(&bytes[8..16], &11980.5f64.to_le_bytes());
    assert_eq!(&bytes[16..24], &(-2.25f64).to_le_bytes());
    assert_eq!(&bytes[24..32], &27.0f64.to_le_bytes());
    assert_eq!(bytes[32], 2);
}

#[test]
fn protector_item_roundtrip_is_exact() {
    let item = sample_protector_item();
    let bytes = item.to_bytes();
    let decoded = ProtectorSeriesItem::from_bytes(&bytes).unwrap();
    assert_eq!(decoded, item);
    assert_eq!(f32::from_bits(decoded.temperature_1), -1.75);

    let default_item = ProtectorSeriesItem::default();
    let bytes = default_item.to_bytes();
    assert_eq!(ProtectorSeriesItem::from_bytes(&bytes), Some(default_item));
}

#[test]
fn protector_image_with_bad_state_code_is_rejected() {
    let mut bytes = sample_protector_item().to_bytes();
    bytes[32] = 3;
    assert_eq!(ProtectorSeriesItem::from_bytes(&bytes), None);
}

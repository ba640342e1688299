//! Telemetry framing for the external publisher: the topic each snapshot
//! goes out under, its wire payload, and the decoding of the remote rail
//! override.
//!
//! The network transport itself is an external collaborator; it drains the
//! mailboxes and hands the values framed here to the wire.

use vstd::prelude::*;

use crate::bus::{ChargeChannelSeriesItem, ProtectorSeriesItem};
use crate::protector::VinState;

verus! {

/// Short name of a charge channel, used as a topic segment.
pub fn get_channel_str(ch: u8) -> (r: &'static str)
    ensures
        ch == 0 ==> r@ == "ch0"@,
        ch == 1 ==> r@ == "ch1"@,
        ch == 2 ==> r@ == "ch2"@,
        ch == 3 ==> r@ == "ch3"@,
        ch > 3 ==> r@ == "unknown"@,
{
    match ch {
        0 => "ch0",
        1 => "ch1",
        2 => "ch2",
        3 => "ch3",
        _ => "unknown",
    }
}

/// Frames one charge-channel snapshot for publication: the channel's
/// telemetry topic and the snapshot's wire image.
pub fn serialize_charge_channel_series_item(
    value: &ChargeChannelSeriesItem,
    ch: u8,
) -> (r: (&'static str, Vec<u8>))
    ensures
        ch == 0 ==> r.0@ == "power-desk/test/ch0/series"@,
        ch == 1 ==> r.0@ == "power-desk/test/ch1/series"@,
        ch == 2 ==> r.0@ == "power-desk/test/ch2/series"@,
        ch == 3 ==> r.0@ == "power-desk/test/ch3/series"@,
        ch > 3 ==> r.0@ == "power-desk/test/unknown/series"@,
        r.1@ == value.spec_to_bytes(),
{
    let topic: &'static str = match ch {
        0 => "power-desk/test/ch0/series",
        1 => "power-desk/test/ch1/series",
        2 => "power-desk/test/ch2/series",
        3 => "power-desk/test/ch3/series",
        _ => "power-desk/test/unknown/series",
    };
    (topic, value.to_bytes())
}

/// Frames one protector snapshot for publication: the protector topic and
/// the snapshot's wire image.
pub fn serialize_protector(value: &ProtectorSeriesItem) -> (r: (&'static str, Vec<u8>))
    ensures
        r.0@ == "power-desk/test/protector"@,
        r.1@ == value.spec_to_bytes(),
{
    ("power-desk/test/protector", value.to_bytes())
}

/// Decodes the single byte of a remote rail-override message.  Bytes that
/// denote no rail state are rejected rather than acted on.
pub fn vin_override_from_byte(byte: u8) -> (r: Option<VinState>)
    ensures
        byte <= 2 ==> r == Some(VinState::spec_from_u8(byte)),
        byte > 2 ==> r is None,
{
    if byte <= 2 {
        Some(VinState::from_u8(byte))
    } else {
        None
    }
}

} // verus!

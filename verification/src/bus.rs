//! The snapshot values the core publishes into its mailboxes, and their
//! fixed little-endian wire images.
//!
//! Float-valued readings are carried as IEEE-754 bit patterns (`u32` for
//! 32-bit floats, `u64` for 64-bit floats): the wire image of such a field
//! is exactly the float's own little-endian bytes, so encoding here is
//! bit-for-bit the same as encoding the float.

use vstd::bytes::*;
use vstd::prelude::*;

use crate::protector::VinState;

verus! {

/// Byte size of a [`ProtectorSeriesItem`] wire image: two 32-bit floats,
/// three 64-bit floats, one state code.
pub const PROTECTOR_SERIES_ITEM_BYTES: usize = 33;

/// Byte size of a [`ChargeChannelSeriesItem`] wire image: three 64-bit
/// floats, three register codes, two 16-bit integers, one 8-bit integer.
pub const CHARGE_CHANNEL_SERIES_ITEM_BYTES: usize = 32;

/// One poll cycle's protector telemetry: two temperatures (32-bit float
/// bit patterns), the input rail's millivolts, amps and watts (64-bit
/// float bit patterns), and the rail state.
#[derive(Debug, Clone, Copy, PartialEq, Eq, Structural)]
pub struct ProtectorSeriesItem {
    pub temperature_0: u32,
    pub temperature_1: u32,
    pub millivolts: u64,
    pub amps: u64,
    pub watts: u64,
    pub vin_status: VinState,
}

impl ProtectorSeriesItem {
    /// The all-zero snapshot: every reading zero, rail `Normal`.
    pub open spec fn spec_default() -> Self {
        ProtectorSeriesItem {
            temperature_0: 0,
            temperature_1: 0,
            millivolts: 0,
            amps: 0,
            watts: 0,
            vin_status: VinState::Normal,
        }
    }

    /// Builds the all-zero snapshot.
    pub fn new_zeroed() -> (r: Self)
        ensures
            r == Self::spec_default(),
    {
        ProtectorSeriesItem {
            temperature_0: 0,
            temperature_1: 0,
            millivolts: 0,
            amps: 0,
            watts: 0,
            vin_status: VinState::Normal,
        }
    }

    /// The fixed little-endian wire image of the snapshot.
    pub open spec fn spec_to_bytes(self) -> Seq<u8> {
        spec_u32_to_le_bytes(self.temperature_0) + spec_u32_to_le_bytes(self.temperature_1)
            + spec_u64_to_le_bytes(self.millivolts) + spec_u64_to_le_bytes(self.amps)
            + spec_u64_to_le_bytes(self.watts) + seq![self.vin_status.spec_to_u8()]
    }

    /// The snapshot a wire image denotes.
    pub open spec fn spec_from_bytes(s: Seq<u8>) -> Self
        recommends
            s.len() == PROTECTOR_SERIES_ITEM_BYTES,
            s[32] <= 2,
    {
        ProtectorSeriesItem {
            temperature_0: spec_u32_from_le_bytes(s.subrange(0, 4)),
            temperature_1: spec_u32_from_le_bytes(s.subrange(4, 8)),
            millivolts: spec_u64_from_le_bytes(s.subrange(8, 16)),
            amps: spec_u64_from_le_bytes(s.subrange(16, 24)),
            watts: spec_u64_from_le_bytes(s.subrange(24, 32)),
            vin_status: VinState::spec_from_u8(s[32]),
        }
    }

    /// Serialises the snapshot into its wire image.
    pub fn to_bytes(&self) -> (r: Vec<u8>)
        ensures
            r@ == self.spec_to_bytes(),
            r@.len() == PROTECTOR_SERIES_ITEM_BYTES,
    {
        let mut buffer = u32_to_le_bytes(self.temperature_0);
        let mut part = u32_to_le_bytes(self.temperature_1);
        buffer.append(&mut part);
        let mut part = u64_to_le_bytes(self.millivolts);
        buffer.append(&mut part);
        let mut part = u64_to_le_bytes(self.amps);
        buffer.append(&mut part);
        let mut part = u64_to_le_bytes(self.watts);
        buffer.append(&mut part);
        buffer.push(self.vin_status.to_u8());
        proof {
            assert(buffer@ =~= self.spec_to_bytes());
        }
        buffer
    }

    /// Deserialises a wire image.  The image is rejected exactly when its
    /// state code denotes no rail state.
    pub fn from_bytes(bytes: &[u8]) -> (r: Option<Self>)
        requires
            bytes@.len() == PROTECTOR_SERIES_ITEM_BYTES,
        ensures
            bytes@[32] <= 2 ==> r == Some(Self::spec_from_bytes(bytes@)),
            bytes@[32] > 2 ==> r is None,
    {
        let vin_code = *vstd::slice::slice_index_get(bytes, 32);
        if vin_code > 2 {
            return None;
        }
        Some(
            ProtectorSeriesItem {
                temperature_0: u32_from_le_bytes(vstd::slice::slice_subrange(bytes, 0, 4)),
                temperature_1: u32_from_le_bytes(vstd::slice::slice_subrange(bytes, 4, 8)),
                millivolts: u64_from_le_bytes(vstd::slice::slice_subrange(bytes, 8, 16)),
                amps: u64_from_le_bytes(vstd::slice::slice_subrange(bytes, 16, 24)),
                watts: u64_from_le_bytes(vstd::slice::slice_subrange(bytes, 24, 32)),
                vin_status: VinState::from_u8(vin_code),
            },
        )
    }

    /// Serialising and then deserialising a snapshot reproduces it exactly,
    /// bit for bit in every field.
    pub proof fn lemma_bytes_roundtrip(self)
        ensures
            self.spec_to_bytes().len() == PROTECTOR_SERIES_ITEM_BYTES,
            self.spec_to_bytes()[32] == self.vin_status.spec_to_u8(),
            Self::spec_from_bytes(self.spec_to_bytes()) == self,
    {
        lemma_auto_spec_u32_to_from_le_bytes();
        lemma_auto_spec_u64_to_from_le_bytes();
        let s = self.spec_to_bytes();
        assert(s.subrange(0, 4) =~= spec_u32_to_le_bytes(self.temperature_0));
        assert(s.subrange(4, 8) =~= spec_u32_to_le_bytes(self.temperature_1));
        assert(s.subrange(8, 16) =~= spec_u64_to_le_bytes(self.millivolts));
        assert(s.subrange(16, 24) =~= spec_u64_to_le_bytes(self.amps));
        assert(s.subrange(24, 32) =~= spec_u64_to_le_bytes(self.watts));
    }
}

impl Default for ProtectorSeriesItem {
    fn default() -> (r: Self)
        ensures
            r == Self::spec_default(),
    {
        Self::new_zeroed()
    }
}

/// One poll cycle's charge-channel telemetry: bus millivolts, amps and
/// watts (64-bit float bit patterns), the negotiated-protocol, system
/// status and abnormal-case register codes, the buck converter's output
/// millivolts and current limit, and the wattage limit.
#[derive(Debug, Clone, Copy, PartialEq, Eq, Structural)]
pub struct ChargeChannelSeriesItem {
    pub millivolts: u64,
    pub amps: u64,
    pub watts: u64,
    pub protocol: u8,
    pub system_status: u8,
    pub abnormal_case: u8,
    pub buck_output_millivolts: u16,
    pub buck_output_limit_milliamps: u16,
    pub limit_watts: u8,
}

impl ChargeChannelSeriesItem {
    /// The all-zero snapshot.
    pub open spec fn spec_default() -> Self {
        ChargeChannelSeriesItem {
            millivolts: 0,
            amps: 0,
            watts: 0,
            protocol: 0,
            system_status: 0,
            abnormal_case: 0,
            buck_output_millivolts: 0,
            buck_output_limit_milliamps: 0,
            limit_watts: 0,
        }
    }

    /// Builds the all-zero snapshot.
    pub fn new_zeroed() -> (r: Self)
        ensures
            r == Self::spec_default(),
    {
        ChargeChannelSeriesItem {
            millivolts: 0,
            amps: 0,
            watts: 0,
            protocol: 0,
            system_status: 0,
            abnormal_case: 0,
            buck_output_millivolts: 0,
            buck_output_limit_milliamps: 0,
            limit_watts: 0,
        }
    }

    /// The fixed little-endian wire image of the snapshot.
    pub open spec fn spec_to_bytes(self) -> Seq<u8> {
        spec_u64_to_le_bytes(self.millivolts) + spec_u64_to_le_bytes(self.amps)
            + spec_u64_to_le_bytes(self.watts)
            + seq![self.protocol, self.system_status, self.abnormal_case]
            + spec_u16_to_le_bytes(self.buck_output_millivolts)
            + spec_u16_to_le_bytes(self.buck_output_limit_milliamps) + seq![self.limit_watts]
    }

    /// The snapshot a wire image denotes.
    pub open spec fn spec_from_bytes(s: Seq<u8>) -> Self
        recommends
            s.len() == CHARGE_CHANNEL_SERIES_ITEM_BYTES,
    {
        ChargeChannelSeriesItem {
            millivolts: spec_u64_from_le_bytes(s.subrange(0, 8)),
            amps: spec_u64_from_le_bytes(s.subrange(8, 16)),
            watts: spec_u64_from_le_bytes(s.subrange(16, 24)),
            protocol: s[24],
            system_status: s[25],
            abnormal_case: s[26],
            buck_output_millivolts: spec_u16_from_le_bytes(s.subrange(27, 29)),
            buck_output_limit_milliamps: spec_u16_from_le_bytes(s.subrange(29, 31)),
            limit_watts: s[31],
        }
    }

    /// Serialises the snapshot into its wire image.
    pub fn to_bytes(&self) -> (r: Vec<u8>)
        ensures
            r@ == self.spec_to_bytes(),
            r@.len() == CHARGE_CHANNEL_SERIES_ITEM_BYTES,
    {
        let mut buffer = u64_to_le_bytes(self.millivolts);
        let mut part = u64_to_le_bytes(self.amps);
        buffer.append(&mut part);
        let mut part = u64_to_le_bytes(self.watts);
        buffer.append(&mut part);
        buffer.push(self.protocol);
        buffer.push(self.system_status);
        buffer.push(self.abnormal_case);
        let mut part = u16_to_le_bytes(self.buck_output_millivolts);
        buffer.append(&mut part);
        let mut part = u16_to_le_bytes(self.buck_output_limit_milliamps);
        buffer.append(&mut part);
        buffer.push(self.limit_watts);
        proof {
            assert(buffer@ =~= self.spec_to_bytes());
        }
        buffer
    }

    /// Deserialises a wire image; every 32-byte image denotes a snapshot.
    pub fn from_bytes(bytes: &[u8]) -> (r: Self)
        requires
            bytes@.len() == CHARGE_CHANNEL_SERIES_ITEM_BYTES,
        ensures
            r == Self::spec_from_bytes(bytes@),
    {
        ChargeChannelSeriesItem {
            millivolts: u64_from_le_bytes(vstd::slice::slice_subrange(bytes, 0, 8)),
            amps: u64_from_le_bytes(vstd::slice::slice_subrange(bytes, 8, 16)),
            watts: u64_from_le_bytes(vstd::slice::slice_subrange(bytes, 16, 24)),
            protocol: *vstd::slice::slice_index_get(bytes, 24),
            system_status: *vstd::slice::slice_index_get(bytes, 25),
            abnormal_case: *vstd::slice::slice_index_get(bytes, 26),
            buck_output_millivolts: u16_from_le_bytes(
                vstd::slice::slice_subrange(bytes, 27, 29),
            ),
            buck_output_limit_milliamps: u16_from_le_bytes(
                vstd::slice::slice_subrange(bytes, 29, 31),
            ),
            limit_watts: *vstd::slice::slice_index_get(bytes, 31),
        }
    }

    /// Serialising and then deserialising a snapshot reproduces it exactly,
    /// bit for bit in every field.
    pub proof fn lemma_bytes_roundtrip(self)
        ensures
            self.spec_to_bytes().len() == CHARGE_CHANNEL_SERIES_ITEM_BYTES,
            Self::spec_from_bytes(self.spec_to_bytes()) == self,
    {
        lemma_auto_spec_u16_to_from_le_bytes();
        lemma_auto_spec_u64_to_from_le_bytes();
        let s = self.spec_to_bytes();
        assert(s.subrange(0, 8) =~= spec_u64_to_le_bytes(self.millivolts));
        assert(s.subrange(8, 16) =~= spec_u64_to_le_bytes(self.amps));
        assert(s.subrange(16, 24) =~= spec_u64_to_le_bytes(self.watts));
        assert(s.subrange(27, 29) =~= spec_u16_to_le_bytes(self.buck_output_millivolts));
        assert(s.subrange(29, 31) =~= spec_u16_to_le_bytes(self.buck_output_limit_milliamps));
    }
}

impl Default for ChargeChannelSeriesItem {
    fn default() -> (r: Self)
        ensures
            r == Self::spec_default(),
    {
        Self::new_zeroed()
    }
}

} // verus!

//! The persisted WiFi configuration record: a magic-tagged, versioned,
//! checksummed block holding the network name and password.
//!
//! The record's integrity checksum is the reflected CRC-16 with polynomial
//! 0xA001, computed over the whole block except the checksum field itself.

use vstd::bytes::*;
use vstd::prelude::*;

verus! {

/// The record's magic tag: the four bytes "WIFI", little-endian.
pub const WIFI_CONFIG_MAGIC: u32 = 0x57494649;

/// The current layout version of the record.
pub const WIFI_CONFIG_VERSION: u16 = 1;

/// Capacity of the network-name field, in bytes.
pub const WIFI_SSID_CAPACITY: usize = 32;

/// Capacity of the password field, in bytes.
pub const WIFI_PASSWORD_CAPACITY: usize = 64;

/// One CRC-16 bit step: shift right, folding in the reflected polynomial
/// when a one bit falls out.
pub open spec fn spec_crc16_shift(crc: u16) -> u16 {
    if crc & 1 != 0 {
        (crc >> 1) ^ 0xA001
    } else {
        crc >> 1
    }
}

/// `n` CRC-16 bit steps.
pub open spec fn spec_crc16_shift_n(crc: u16, n: nat) -> u16
    decreases n,
{
    if n == 0 {
        crc
    } else {
        spec_crc16_shift_n(spec_crc16_shift(crc), (n - 1) as nat)
    }
}

/// Folds one byte into a running CRC-16: mix the byte in, then eight bit
/// steps.
pub open spec fn spec_crc16_byte(crc: u16, byte: u8) -> u16 {
    spec_crc16_shift_n(crc ^ (byte as u16), 8)
}

/// Folds a byte sequence into a running CRC-16, first byte first.
pub open spec fn spec_crc16_fold(crc: u16, s: Seq<u8>) -> u16
    decreases s.len(),
{
    if s.len() == 0 {
        crc
    } else {
        spec_crc16_fold(spec_crc16_byte(crc, s.first()), s.drop_first())
    }
}

/// The CRC-16 of a byte sequence, from the customary initial value 0xFFFF.
pub open spec fn spec_crc16(s: Seq<u8>) -> u16 {
    spec_crc16_fold(0xFFFF, s)
}

/// Peeling a bit step off the outside of `n + 1` steps equals taking it
/// after the first `n`.
proof fn lemma_crc16_shift_n_unfold_outer(crc: u16, n: nat)
    ensures
        spec_crc16_shift_n(crc, n + 1) == spec_crc16_shift(spec_crc16_shift_n(crc, n)),
    decreases n,
{
    assert(spec_crc16_shift_n(crc, n + 1) == spec_crc16_shift_n(spec_crc16_shift(crc), n));
    if n == 0 {
        assert(spec_crc16_shift_n(spec_crc16_shift(crc), 0) == spec_crc16_shift(crc));
        assert(spec_crc16_shift_n(crc, 0) == crc);
    } else {
        lemma_crc16_shift_n_unfold_outer(spec_crc16_shift(crc), (n - 1) as nat);
        assert(spec_crc16_shift_n(crc, n) == spec_crc16_shift_n(
            spec_crc16_shift(crc),
            (n - 1) as nat,
        ));
    }
}

/// Folding a sequence extended by one byte folds that byte last.
proof fn lemma_crc16_fold_snoc(crc: u16, s: Seq<u8>, byte: u8)
    ensures
        spec_crc16_fold(crc, s.push(byte)) == spec_crc16_byte(spec_crc16_fold(crc, s), byte),
    decreases s.len(),
{
    let extended = s.push(byte);
    assert(extended.len() == s.len() + 1);
    if s.len() == 0 {
        assert(extended.first() == byte);
        assert(extended.drop_first() =~= Seq::<u8>::empty());
        assert(spec_crc16_fold(crc, extended) == spec_crc16_fold(
            spec_crc16_byte(crc, byte),
            extended.drop_first(),
        ));
        assert(spec_crc16_fold(spec_crc16_byte(crc, byte), extended.drop_first())
            == spec_crc16_byte(crc, byte));
        assert(spec_crc16_fold(crc, s) == crc);
    } else {
        assert(extended.first() == s.first());
        assert(extended.drop_first() =~= s.drop_first().push(byte));
        assert(spec_crc16_fold(crc, extended) == spec_crc16_fold(
            spec_crc16_byte(crc, s.first()),
            extended.drop_first(),
        ));
        lemma_crc16_fold_snoc(spec_crc16_byte(crc, s.first()), s.drop_first(), byte);
        assert(spec_crc16_fold(crc, s) == spec_crc16_fold(
            spec_crc16_byte(crc, s.first()),
            s.drop_first(),
        ));
    }
}

/// Computes the CRC-16 of a byte string.
pub fn crc16(data: &[u8]) -> (r: u16)
    ensures
        r == spec_crc16(data@),
{
    let ghost all = data@;
    let mut crc: u16 = 0xFFFF;
    let mut i: usize = 0;
    while i < data.len()
        invariant
            i <= data.len(),
            all == data@,
            crc == spec_crc16_fold(0xFFFF, all.take(i as int)),
        decreases data.len() - i,
    {
        let byte = *vstd::slice::slice_index_get(data, i);
        let entry = crc ^ (byte as u16);
        let ghost entry_value = entry;
        crc = entry;
        let mut bit: usize = 0;
        while bit < 8
            invariant
                bit <= 8,
                crc == spec_crc16_shift_n(entry_value, bit as nat),
            decreases 8 - bit,
        {
            proof {
                lemma_crc16_shift_n_unfold_outer(entry_value, bit as nat);
            }
            if crc & 1 != 0 {
                crc = (crc >> 1) ^ 0xA001;
            } else {
                crc = crc >> 1;
            }
            bit = bit + 1;
        }
        proof {
            lemma_crc16_fold_snoc(0xFFFF, all.take(i as int), all[i as int]);
            assert(all.take(i + 1) =~= all.take(i as int).push(all[i as int]));
        }
        i = i + 1;
    }
    proof {
        assert(all.take(data@.len() as int) =~= all);
    }
    crc
}

/// The persisted WiFi configuration record.  The name and password fields
/// always hold their full capacity, zero-padded beyond the stored length.
#[derive(Debug, Clone)]
pub struct WifiConfig {
    pub magic: u32,
    pub version: u16,
    /// CRC-16 of the record, excluding this field.
    pub checksum: u16,
    /// Bytes of the network name actually stored, 0 to 32.
    pub ssid_len: u8,
    /// Bytes of the password actually stored, 0 to 64.
    pub password_len: u8,
    /// Flag bits, reserved.
    pub flags: u8,
    /// Padding byte, keeps the layout aligned.
    pub reserved: u8,
    pub ssid: Vec<u8>,
    pub password: Vec<u8>,
}

impl WifiConfig {
    /// The record's fields have their fixed capacities.
    pub open spec fn wf(self) -> bool {
        &&& self.ssid@.len() == WIFI_SSID_CAPACITY
        &&& self.password@.len() == WIFI_PASSWORD_CAPACITY
    }

    /// The bytes the checksum covers: the record's little-endian image
    /// with the checksum field left out.
    pub open spec fn spec_checksum_input(self) -> Seq<u8> {
        spec_u32_to_le_bytes(self.magic) + spec_u16_to_le_bytes(self.version)
            + seq![self.ssid_len, self.password_len, self.flags, self.reserved] + self.ssid@
            + self.password@
    }

    /// The record is coherent: tagged, of the current version, with
    /// in-range lengths and a matching checksum.
    pub open spec fn spec_is_valid(self) -> bool {
        &&& self.magic == WIFI_CONFIG_MAGIC
        &&& self.version == WIFI_CONFIG_VERSION
        &&& self.ssid_len <= WIFI_SSID_CAPACITY
        &&& self.password_len <= WIFI_PASSWORD_CAPACITY
        &&& self.checksum == spec_crc16(self.spec_checksum_input())
    }

    /// A fresh record: tagged and versioned, empty name and password,
    /// checksum not yet computed.
    pub fn new() -> (r: Self)
        ensures
            r.wf(),
            r.magic == WIFI_CONFIG_MAGIC,
            r.version == WIFI_CONFIG_VERSION,
            r.checksum == 0,
            r.ssid_len == 0,
            r.password_len == 0,
            r.flags == 0,
            r.reserved == 0,
            forall|i: int| 0 <= i < WIFI_SSID_CAPACITY ==> r.ssid@[i] == 0,
            forall|i: int| 0 <= i < WIFI_PASSWORD_CAPACITY ==> r.password@[i] == 0,
    {
        WifiConfig {
            magic: WIFI_CONFIG_MAGIC,
            version: WIFI_CONFIG_VERSION,
            checksum: 0,
            ssid_len: 0,
            password_len: 0,
            flags: 0,
            reserved: 0,
            ssid: zeroed_vec(WIFI_SSID_CAPACITY),
            password: zeroed_vec(WIFI_PASSWORD_CAPACITY),
        }
    }

    /// Stores a network name of at most 32 bytes: the field is refilled
    /// with the name followed by zero padding.  A longer name is rejected
    /// and the record does not move.
    pub fn set_ssid(&mut self, ssid: &[u8]) -> (r: Result<(), &'static str>)
        requires
            old(self).wf(),
        ensures
            final(self).wf(),
            ssid@.len() > WIFI_SSID_CAPACITY ==> r is Err && *final(self) == *old(self),
            ssid@.len() <= WIFI_SSID_CAPACITY ==> {
                &&& r is Ok
                &&& final(self).ssid_len == ssid@.len()
                &&& final(self).ssid@.subrange(0, ssid@.len() as int) == ssid@
                &&& forall|i: int|
                    ssid@.len() <= i < WIFI_SSID_CAPACITY ==> final(self).ssid@[i] == 0
                &&& final(self).password == old(self).password
                &&& final(self).magic == old(self).magic
                &&& final(self).version == old(self).version
                &&& final(self).checksum == old(self).checksum
                &&& final(self).password_len == old(self).password_len
                &&& final(self).flags == old(self).flags
                &&& final(self).reserved == old(self).reserved
            },
    {
        if ssid.len() > WIFI_SSID_CAPACITY {
            return Err("SSID too long (max 32 bytes)");
        }
        self.ssid = padded_copy(ssid, WIFI_SSID_CAPACITY);
        self.ssid_len = ssid.len() as u8;
        Ok(())
    }

    /// Stores a password of at most 64 bytes: the field is refilled with
    /// the password followed by zero padding.  A longer password is
    /// rejected and the record does not move.
    pub fn set_password(&mut self, password: &[u8]) -> (r: Result<(), &'static str>)
        requires
            old(self).wf(),
        ensures
            final(self).wf(),
            password@.len() > WIFI_PASSWORD_CAPACITY ==> r is Err && *final(self) == *old(self),
            password@.len() <= WIFI_PASSWORD_CAPACITY ==> {
                &&& r is Ok
                &&& final(self).password_len == password@.len()
                &&& final(self).password@.subrange(0, password@.len() as int) == password@
                &&& forall|i: int|
                    password@.len() <= i < WIFI_PASSWORD_CAPACITY ==> final(self).password@[i] == 0
                &&& final(self).ssid == old(self).ssid
                &&& final(self).magic == old(self).magic
                &&& final(self).version == old(self).version
                &&& final(self).checksum == old(self).checksum
                &&& final(self).ssid_len == old(self).ssid_len
                &&& final(self).flags == old(self).flags
                &&& final(self).reserved == old(self).reserved
            },
    {
        if password.len() > WIFI_PASSWORD_CAPACITY {
            return Err("Password too long (max 64 bytes)");
        }
        self.password = padded_copy(password, WIFI_PASSWORD_CAPACITY);
        self.password_len = password.len() as u8;
        Ok(())
    }

    /// The stored network name: the field's first `ssid_len` bytes.  A
    /// length beyond the field's capacity denotes no name.
    pub fn get_ssid(&self) -> (r: Option<Vec<u8>>)
        requires
            self.wf(),
        ensures
            self.ssid_len <= WIFI_SSID_CAPACITY ==> (r matches Some(v) && v@
                == self.ssid@.subrange(0, self.ssid_len as int)),
            self.ssid_len > WIFI_SSID_CAPACITY ==> r is None,
    {
        if self.ssid_len as usize > WIFI_SSID_CAPACITY {
            return None;
        }
        Some(copy_prefix(&self.ssid, self.ssid_len as usize))
    }

    /// The stored password: the field's first `password_len` bytes.  A
    /// length beyond the field's capacity denotes no password.
    pub fn get_password(&self) -> (r: Option<Vec<u8>>)
        requires
            self.wf(),
        ensures
            self.password_len <= WIFI_PASSWORD_CAPACITY ==> (r matches Some(v) && v@
                == self.password@.subrange(0, self.password_len as int)),
            self.password_len > WIFI_PASSWORD_CAPACITY ==> r is None,
    {
        if self.password_len as usize > WIFI_PASSWORD_CAPACITY {
            return None;
        }
        Some(copy_prefix(&self.password, self.password_len as usize))
    }

    /// Computes the record's CRC-16, over everything but the checksum
    /// field.
    pub fn calculate_checksum(&self) -> (r: u16)
        requires
            self.wf(),
        ensures
            r == spec_crc16(self.spec_checksum_input()),
    {
        let mut data: Vec<u8> = u32_to_le_bytes(self.magic);
        let mut part = u16_to_le_bytes(self.version);
        data.append(&mut part);
        data.push(self.ssid_len);
        data.push(self.password_len);
        data.push(self.flags);
        data.push(self.reserved);
        append_bytes(&mut data, &self.ssid);
        append_bytes(&mut data, &self.password);
        proof {
            assert(data@ =~= self.spec_checksum_input());
        }
        crc16(data.as_slice())
    }

    /// Recomputes the checksum field from the record's current contents.
    pub fn update_checksum(&mut self)
        requires
            old(self).wf(),
        ensures
            final(self).wf(),
            *final(self) == (WifiConfig {
                checksum: spec_crc16(old(self).spec_checksum_input()),
                ..*old(self)
            }),
            final(self).spec_checksum_input() == old(self).spec_checksum_input(),
    {
        self.checksum = self.calculate_checksum();
    }

    /// Whether the checksum field matches the record's contents.
    pub fn verify_checksum(&self) -> (r: bool)
        requires
            self.wf(),
        ensures
            r == (self.checksum == spec_crc16(self.spec_checksum_input())),
    {
        self.checksum == self.calculate_checksum()
    }

    /// Whether the record is coherent: tagged, of the current version,
    /// with in-range lengths and a matching checksum.
    pub fn is_valid(&self) -> (r: bool)
        requires
            self.wf(),
        ensures
            r == self.spec_is_valid(),
    {
        self.magic == WIFI_CONFIG_MAGIC && self.version == WIFI_CONFIG_VERSION
            && self.ssid_len as usize <= WIFI_SSID_CAPACITY
            && self.password_len as usize <= WIFI_PASSWORD_CAPACITY && self.verify_checksum()
    }
}

/// A checksum refreshed by [`WifiConfig::update_checksum`] verifies: the
/// checksum field is excluded from its own input, so writing it cannot
/// invalidate it.
pub proof fn lemma_update_checksum_verifies(c: WifiConfig)
    ensures
        ({
            let updated = WifiConfig { checksum: spec_crc16(c.spec_checksum_input()), ..c };
            updated.checksum == spec_crc16(updated.spec_checksum_input())
        }),
{
    let updated = WifiConfig { checksum: spec_crc16(c.spec_checksum_input()), ..c };
    assert(updated.spec_checksum_input() =~= c.spec_checksum_input());
}

/// A vector of `len` zero bytes.
fn zeroed_vec(len: usize) -> (r: Vec<u8>)
    ensures
        r@.len() == len,
        forall|i: int| 0 <= i < len ==> r@[i] == 0,
{
    let mut v: Vec<u8> = Vec::new();
    let mut i: usize = 0;
    while i < len
        invariant
            i <= len,
            v@.len() == i,
            forall|j: int| 0 <= j < i ==> v@[j] == 0,
        decreases len - i,
    {
        v.push(0);
        i = i + 1;
    }
    v
}

/// `data` followed by zero padding up to `capacity` bytes.
fn padded_copy(data: &[u8], capacity: usize) -> (r: Vec<u8>)
    requires
        data@.len() <= capacity,
    ensures
        r@.len() == capacity,
        r@.subrange(0, data@.len() as int) == data@,
        forall|i: int| data@.len() <= i < capacity ==> r@[i] == 0,
{
    let mut v: Vec<u8> = Vec::new();
    let mut i: usize = 0;
    while i < capacity
        invariant
            i <= capacity,
            data@.len() <= capacity,
            v@.len() == i,
            forall|j: int| 0 <= j < i && j < data@.len() ==> v@[j] == data@[j],
            forall|j: int| data@.len() <= j < i ==> v@[j] == 0,
        decreases capacity - i,
    {
        if i < data.len() {
            v.push(*vstd::slice::slice_index_get(data, i));
        } else {
            v.push(0);
        }
        i = i + 1;
    }
    proof {
        assert(v@.subrange(0, data@.len() as int) =~= data@);
    }
    v
}

/// The first `len` bytes of `data`, copied out.
fn copy_prefix(data: &Vec<u8>, len: usize) -> (r: Vec<u8>)
    requires
        len <= data@.len(),
    ensures
        r@ == data@.subrange(0, len as int),
{
    let mut v: Vec<u8> = Vec::new();
    let mut i: usize = 0;
    while i < len
        invariant
            i <= len,
            len <= data@.len(),
            v@.len() == i,
            forall|j: int| 0 <= j < i ==> v@[j] == data@[j],
        decreases len - i,
    {
        v.push(data[i]);
        i = i + 1;
    }
    proof {
        assert(v@ =~= data@.subrange(0, len as int));
    }
    v
}

/// Appends a copy of `src` to `dst`.
fn append_bytes(dst: &mut Vec<u8>, src: &Vec<u8>)
    ensures
        final(dst)@ == old(dst)@ + src@,
{
    let mut i: usize = 0;
    while i < src.len()
        invariant
            i <= src@.len(),
            dst@ == old(dst)@ + src@.subrange(0, i as int),
        decreases src@.len() - i,
    {
        dst.push(src[i]);
        proof {
            assert(old(dst)@ + src@.subrange(0, i + 1) =~= (old(dst)@ + src@.subrange(
                0,
                i as int,
            )).push(src@[i as int]));
        }
        i = i + 1;
    }
    proof {
        assert(src@.subrange(0, src@.len() as int) =~= src@);
    }
}

} // verus!

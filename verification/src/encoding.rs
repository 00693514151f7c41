//! Little-endian wire encoding of the fixed-size update payloads: the
//! byte buffers carried by configuration and order updates, read and
//! written without any external serializer.

use vstd::prelude::*;

use crate::state::Pubkey;

verus! {

/// Number of bytes in the fixed-size value buffer of a configuration
/// update; large enough for the widest value, a 32-byte address.
pub const UPDATE_GLOBAL_CONFIG_BYTE_SIZE: usize = 32;

/// The u16 encoded little-endian by the first two bytes of `s`.
pub open spec fn le_u16(s: Seq<u8>) -> u16
    recommends
        s.len() >= 2,
{
    (s[0] as u16) | ((s[1] as u16) << 8)
}

/// The u64 encoded little-endian by the first eight bytes of `s`.
pub open spec fn le_u64(s: Seq<u8>) -> u64
    recommends
        s.len() >= 8,
{
    (s[0] as u64) | ((s[1] as u64) << 8) | ((s[2] as u64) << 16) | ((s[3] as u64) << 24) | (
    (s[4] as u64) << 32) | ((s[5] as u64) << 40) | ((s[6] as u64) << 48) | ((s[7] as u64) << 56)
}

/// The two-byte little-endian encoding of `x`.
pub open spec fn u16_le_seq(x: u16) -> Seq<u8> {
    seq![(x & 0xff) as u8, ((x >> 8) & 0xff) as u8]
}

/// The eight-byte little-endian encoding of `x`.
pub open spec fn u64_le_seq(x: u64) -> Seq<u8> {
    seq![
        (x & 0xff) as u8,
        ((x >> 8) & 0xff) as u8,
        ((x >> 16) & 0xff) as u8,
        ((x >> 24) & 0xff) as u8,
        ((x >> 32) & 0xff) as u8,
        ((x >> 40) & 0xff) as u8,
        ((x >> 48) & 0xff) as u8,
        ((x >> 56) & 0xff) as u8,
    ]
}

/// Encoding a u16 and reading it back yields the same value.
pub proof fn lemma_u16_le_round_trip(x: u16)
    ensures
        le_u16(u16_le_seq(x)) == x,
{
    assert((((x & 0xff) as u8) as u16) | (((((x >> 8) & 0xff) as u8) as u16) << 8) == x)
        by (bit_vector);
}

/// Encoding a u64 and reading it back yields the same value.
pub proof fn lemma_u64_le_round_trip(x: u64)
    ensures
        le_u64(u64_le_seq(x)) == x,
{
    assert((((x & 0xff) as u8) as u64) | (((((x >> 8) & 0xff) as u8) as u64) << 8) | (((((x >> 16)
        & 0xff) as u8) as u64) << 16) | (((((x >> 24) & 0xff) as u8) as u64) << 24) | (((((x >> 32)
        & 0xff) as u8) as u64) << 32) | (((((x >> 40) & 0xff) as u8) as u64) << 40) | (((((x >> 48)
        & 0xff) as u8) as u64) << 48) | (((((x >> 56) & 0xff) as u8) as u64) << 56) == x)
        by (bit_vector);
}

/// Reads the u16 stored little-endian at the start of `bytes`.
pub fn read_u16_le(bytes: &[u8]) -> (r: u16)
    requires
        bytes@.len() >= 2,
    ensures
        r == le_u16(bytes@),
{
    (bytes[0] as u16) | ((bytes[1] as u16) << 8)
}

/// Reads the u64 stored little-endian at the start of `bytes`.
pub fn read_u64_le(bytes: &[u8]) -> (r: u64)
    requires
        bytes@.len() >= 8,
    ensures
        r == le_u64(bytes@),
{
    (bytes[0] as u64) | ((bytes[1] as u64) << 8) | ((bytes[2] as u64) << 16) | ((bytes[3]
        as u64) << 24) | ((bytes[4] as u64) << 32) | ((bytes[5] as u64) << 40) | ((bytes[6]
        as u64) << 48) | ((bytes[7] as u64) << 56)
}

/// Reads the address stored in the first 32 bytes of `bytes`.
pub fn read_pubkey(bytes: &[u8]) -> (r: Pubkey)
    requires
        bytes@.len() >= 32,
    ensures
        r@ == bytes@.subrange(0, 32),
{
    let mut out: [u8; 32] = [0u8; 32];
    let mut i: usize = 0;
    while i < 32
        invariant
            i <= 32,
            bytes@.len() >= 32,
            out@.len() == 32,
            forall|j: int| 0 <= j < i ==> out@[j] == bytes@[j],
        decreases 32 - i,
    {
        out[i] = bytes[i];
        i += 1;
    }
    proof {
        assert(out@ =~= bytes@.subrange(0, 32));
    }
    Pubkey::new(out)
}

/// Appends the two little-endian bytes of `x`.
pub fn push_u16_le(out: &mut Vec<u8>, x: u16)
    ensures
        final(out)@ == old(out)@ + u16_le_seq(x),
{
    out.push((x & 0xff) as u8);
    out.push(((x >> 8) & 0xff) as u8);
    proof {
        assert(final(out)@ =~= old(out)@ + u16_le_seq(x));
    }
}

/// Appends the eight little-endian bytes of `x`.
pub fn push_u64_le(out: &mut Vec<u8>, x: u64)
    ensures
        final(out)@ == old(out)@ + u64_le_seq(x),
{
    out.push((x & 0xff) as u8);
    out.push(((x >> 8) & 0xff) as u8);
    out.push(((x >> 16) & 0xff) as u8);
    out.push(((x >> 24) & 0xff) as u8);
    out.push(((x >> 32) & 0xff) as u8);
    out.push(((x >> 40) & 0xff) as u8);
    out.push(((x >> 48) & 0xff) as u8);
    out.push(((x >> 56) & 0xff) as u8);
    proof {
        assert(final(out)@ =~= old(out)@ + u64_le_seq(x));
    }
}

/// One typed value for a configuration update, with its wire encoding
/// into the fixed-size value buffer.
#[derive(Clone, Copy, Debug)]
pub enum UpdateGlobalConfigValue {
    Bool(bool),
    U16(u16),
    U64(u64),
    Key(Pubkey),
}

impl UpdateGlobalConfigValue {
    /// Encodes the value little-endian at the start of a zero-filled
    /// fixed-size buffer, as `update_global_config` reads it back.
    pub fn to_raw_bytes_array(&self) -> (r: Vec<u8>)
        ensures
            r@.len() == UPDATE_GLOBAL_CONFIG_BYTE_SIZE,
            match *self {
                UpdateGlobalConfigValue::Bool(v) => r@[0] == (if v {
                    1u8
                } else {
                    0u8
                }) && forall|j: int| 1 <= j < 32 ==> r@[j] == 0u8,
                UpdateGlobalConfigValue::U16(v) => le_u16(r@) == v,
                UpdateGlobalConfigValue::U64(v) => le_u64(r@) == v,
                UpdateGlobalConfigValue::Key(v) => r@.subrange(0, 32) == v@,
            },
    {
        match self {
            UpdateGlobalConfigValue::Bool(v) => {
                let byte: u8 = if *v {
                    1
                } else {
                    0
                };
                let single = [byte];
                to_value_buffer(single.as_slice())
            },
            UpdateGlobalConfigValue::U16(v) => {
                let mut bytes: Vec<u8> = Vec::new();
                push_u16_le(&mut bytes, *v);
                let out = to_value_buffer(bytes.as_slice());
                proof {
                    lemma_u16_le_round_trip(*v);
                    assert forall|i: int| 0 <= i < 2 implies out@[i] == u16_le_seq(*v)[i] by {
                        assert(out@.subrange(0, 2)[i] == u16_le_seq(*v)[i]);
                    }
                    lemma_le_u16_prefix(out@, u16_le_seq(*v));
                }
                out
            },
            UpdateGlobalConfigValue::U64(v) => {
                let mut bytes: Vec<u8> = Vec::new();
                push_u64_le(&mut bytes, *v);
                let out = to_value_buffer(bytes.as_slice());
                proof {
                    lemma_u64_le_round_trip(*v);
                    assert forall|i: int| 0 <= i < 8 implies out@[i] == u64_le_seq(*v)[i] by {
                        assert(out@.subrange(0, 8)[i] == u64_le_seq(*v)[i]);
                    }
                    lemma_le_u64_prefix(out@, u64_le_seq(*v));
                }
                out
            },
            UpdateGlobalConfigValue::Key(v) => {
                let out = to_value_buffer(v.bytes.as_slice());
                proof {
                    assert(out@.subrange(0, 32) =~= v@);
                }
                out
            },
        }
    }
}

/// Reading a u16 looks only at the first two bytes.
pub proof fn lemma_le_u16_prefix(s: Seq<u8>, t: Seq<u8>)
    requires
        s.len() >= 2,
        t.len() >= 2,
        forall|i: int| 0 <= i < 2 ==> s[i] == t[i],
    ensures
        le_u16(s) == le_u16(t),
{
}

/// Reading a u64 looks only at the first eight bytes.
pub proof fn lemma_le_u64_prefix(s: Seq<u8>, t: Seq<u8>)
    requires
        s.len() >= 8,
        t.len() >= 8,
        forall|i: int| 0 <= i < 8 ==> s[i] == t[i],
    ensures
        le_u64(s) == le_u64(t),
{
}

/// Writes `data` into a fresh zero-filled value buffer of the fixed
/// configuration-update size.
pub fn to_value_buffer(data: &[u8]) -> (r: Vec<u8>)
    requires
        data@.len() <= UPDATE_GLOBAL_CONFIG_BYTE_SIZE,
    ensures
        r@.len() == UPDATE_GLOBAL_CONFIG_BYTE_SIZE,
        r@.subrange(0, data@.len() as int) == data@,
        forall|j: int| data@.len() <= j < UPDATE_GLOBAL_CONFIG_BYTE_SIZE ==> r@[j] == 0u8,
{
    let mut out: Vec<u8> = Vec::new();
    let mut i: usize = 0;
    while i < data.len()
        invariant
            i <= data@.len(),
            data@.len() <= UPDATE_GLOBAL_CONFIG_BYTE_SIZE,
            out@.len() == i,
            forall|j: int| 0 <= j < i ==> out@[j] == data@[j],
        decreases data@.len() - i,
    {
        out.push(data[i]);
        i += 1;
    }
    while out.len() < UPDATE_GLOBAL_CONFIG_BYTE_SIZE
        invariant
            data@.len() <= out@.len() <= UPDATE_GLOBAL_CONFIG_BYTE_SIZE,
            forall|j: int| 0 <= j < data@.len() ==> out@[j] == data@[j],
            forall|j: int| data@.len() <= j < out@.len() ==> out@[j] == 0u8,
        decreases UPDATE_GLOBAL_CONFIG_BYTE_SIZE - out@.len(),
    {
        out.push(0u8);
    }
    proof {
        assert(out@.subrange(0, data@.len() as int) =~= data@);
    }
    out
}

} // verus!

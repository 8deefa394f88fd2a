//! The binary codec: a header-only encoder that emits exactly eight bytes,
//! and a partial decoder that admits any input of at least twelve bytes and
//! reads up to sixteen. The two sides are deliberately asymmetric: the
//! decoder expects two 32-bit counts between the version and the lock time
//! that the encoder never emits.

use vstd::prelude::*;
use vstd::bytes::lemma_auto_spec_u32_to_from_le_bytes;
use vstd::bytes::spec_u32_from_le_bytes;
use vstd::bytes::spec_u32_to_le_bytes;
use vstd::bytes::u32_from_le_bytes;
use vstd::bytes::u32_to_le_bytes;
use vstd::slice::slice_subrange;
use crate::builder::initial_builder_data;
use crate::builder::with_lock_time;
use crate::builder::with_version;
use crate::errors::BitcoinError;
use crate::tx::LegacyTransaction;
use crate::tx::TxData;

verus! {

/// The unsigned 32-bit value with the same two's-complement bit pattern
/// as the signed `v`.
pub open spec fn u32_bits_of_i32(v: i32) -> u32 {
    (if v >= 0 {
        v as int
    } else {
        v as int + 0x1_0000_0000
    }) as u32
}

/// The signed 32-bit value whose two's-complement bit pattern is `x`.
pub open spec fn i32_of_u32_bits(x: u32) -> i32 {
    (if x < 0x8000_0000 {
        x as int
    } else {
        x as int - 0x1_0000_0000
    }) as i32
}

/// Reading a signed value back from its bit pattern recovers it.
pub proof fn lemma_i32_bits_round_trip(v: i32)
    ensures
        i32_of_u32_bits(u32_bits_of_i32(v)) == v,
{
}

/// The byte form of a transaction: its version and its lock time, each as
/// four little-endian bytes, and nothing else. Inputs and outputs do not
/// appear in the encoding.
pub open spec fn spec_encode(d: TxData) -> Seq<u8> {
    spec_u32_to_le_bytes(u32_bits_of_i32(d.version)) + spec_u32_to_le_bytes(d.lock_time)
}

/// Decoding succeeds exactly on inputs of at least twelve bytes: enough
/// for a version, one 32-bit count, and a lock time. (The decoder goes on
/// to read up to sixteen; the admission check is deliberately weaker.)
pub open spec fn decode_admissible(d: Seq<u8>) -> bool {
    d.len() >= 12
}

/// The version a successful decode of `d` yields: its first four bytes,
/// read as a little-endian signed 32-bit value.
pub open spec fn spec_decoded_version(d: Seq<u8>) -> i32 {
    i32_of_u32_bits(spec_u32_from_le_bytes(d.subrange(0, 4)))
}

/// The lock time a successful decode of `d` yields: bytes 12 to 15, read
/// little-endian, when all four are present; zero on a short read, where
/// the field's zero-initialized buffer is left unfilled.
pub open spec fn spec_decoded_lock_time(d: Seq<u8>) -> u32 {
    if d.len() >= 16 {
        spec_u32_from_le_bytes(d.subrange(12, 16))
    } else {
        0
    }
}

impl LegacyTransaction {
    /// Encodes the transaction in its simplified header-only byte form:
    /// four little-endian bytes of version, then four of lock time. The
    /// operation cannot fail and the result is always exactly eight bytes.
    pub fn encode(&self) -> (r: Vec<u8>)
        ensures
            r@ == spec_encode(self@),
            r@.len() == 8,
    {
        let bits: u32 = if self.version >= 0 {
            self.version as u32
        } else {
            ((self.version as i64) + 0x1_0000_0000i64) as u32
        };
        let mut r = u32_to_le_bytes(bits);
        let mut tail = u32_to_le_bytes(self.lock_time);
        r.append(&mut tail);
        r
    }

    /// Partially decodes a byte sequence: fails with `InvalidTransaction`
    /// on fewer than twelve bytes, and otherwise yields a transaction with
    /// the decoded version and lock time and with empty input and output
    /// sequences. The two counts in bytes 4 to 11 are a capacity hint only
    /// and never materialize elements; trailing bytes are ignored.
    pub fn decode(data: &[u8]) -> (r: Result<LegacyTransaction, BitcoinError>)
        ensures
            r is Ok <==> decode_admissible(data@),
            (r matches Ok(t) ==> {
                &&& t@.version == spec_decoded_version(data@)
                &&& t@.lock_time == spec_decoded_lock_time(data@)
                &&& t@.inputs.len() == 0
                &&& t@.outputs.len() == 0
            }),
            (r matches Err(e) ==> e@ is InvalidTransaction),
    {
        let n = data.len();
        if n < 12 {
            return Err(BitcoinError::InvalidTransaction);
        }
        let vbits = u32_from_le_bytes(slice_subrange(data, 0, 4));
        let version: i32 = if vbits < 0x8000_0000u32 {
            vbits as i32
        } else {
            ((vbits as i64) - 0x1_0000_0000i64) as i32
        };
        let lock_time: u32 = if n >= 16 {
            u32_from_le_bytes(slice_subrange(data, 12, 16))
        } else {
            0
        };
        let t = LegacyTransaction { version, inputs: Vec::new(), outputs: Vec::new(), lock_time };
        proof {
            assert(t@.inputs =~= Seq::<crate::tx::TxInputData>::empty());
            assert(t@.outputs =~= Seq::<crate::tx::TxOutputData>::empty());
        }
        Ok(t)
    }
}

/// Byte serialization of a record. A record that does not override the
/// default serializes to an empty byte sequence.
pub trait BitcoinSerialize {
    fn serialize(&self) -> Vec<u8> {
        Vec::new()
    }
}

impl BitcoinSerialize for LegacyTransaction {
    /// The transaction serializes in its header-only encoding.
    fn serialize(&self) -> (r: Vec<u8>)
        ensures
            r@ == spec_encode(self@),
    {
        self.encode()
    }
}

/// The encoding is injective in the version and the lock time, and depends
/// on nothing else: two transaction states encode to the same bytes exactly
/// when they agree on both fields, whatever their inputs and outputs.
pub proof fn lemma_encode_injective(d1: TxData, d2: TxData)
    ensures
        spec_encode(d1) == spec_encode(d2) <==> (d1.version == d2.version && d1.lock_time
            == d2.lock_time),
{
    lemma_auto_spec_u32_to_from_le_bytes();
    let a1 = spec_u32_to_le_bytes(u32_bits_of_i32(d1.version));
    let b1 = spec_u32_to_le_bytes(d1.lock_time);
    let a2 = spec_u32_to_le_bytes(u32_bits_of_i32(d2.version));
    let b2 = spec_u32_to_le_bytes(d2.lock_time);
    if spec_encode(d1) == spec_encode(d2) {
        assert((a1 + b1).subrange(0, 4) =~= a1);
        assert((a2 + b2).subrange(0, 4) =~= a2);
        assert((a1 + b1).subrange(4, 8) =~= b1);
        assert((a2 + b2).subrange(4, 8) =~= b2);
        assert(u32_bits_of_i32(d1.version) == u32_bits_of_i32(d2.version));
        lemma_i32_bits_round_trip(d1.version);
        lemma_i32_bits_round_trip(d2.version);
    }
}

/// Round trip through the asymmetric formats: building with a version and
/// a lock time, encoding, and inserting eight zero bytes between the two
/// encoded fields — where the decoder expects the two counts — yields an
/// input the decoder accepts, and it recovers exactly the version and the
/// lock time that were built.
pub proof fn lemma_build_encode_decode_round_trip(v: i32, lt: u32)
    ensures
        ({
            let built = with_lock_time(with_version(initial_builder_data(), v), lt);
            let e = spec_encode(built);
            let d = e.subrange(0, 4) + Seq::<u8>::new(8, |i: int| 0) + e.subrange(4, 8);
            &&& decode_admissible(d)
            &&& spec_decoded_version(d) == v
            &&& spec_decoded_lock_time(d) == lt
        }),
{
    lemma_auto_spec_u32_to_from_le_bytes();
    let built = with_lock_time(with_version(initial_builder_data(), v), lt);
    let e = spec_encode(built);
    let d = e.subrange(0, 4) + Seq::<u8>::new(8, |i: int| 0) + e.subrange(4, 8);
    let a = spec_u32_to_le_bytes(u32_bits_of_i32(v));
    let b = spec_u32_to_le_bytes(lt);
    assert(e =~= a + b);
    assert(d.subrange(0, 4) =~= a);
    assert(d.subrange(12, 16) =~= b);
    lemma_i32_bits_round_trip(v);
}

/// The realignment above is needed: with the eight zero bytes appended
/// after the encoding instead, the lock-time bytes lie beyond the window
/// the decoder reads, and the decoded lock time no longer depends on the
/// lock time that was encoded — any two lock times decode alike.
pub proof fn lemma_appended_padding_loses_lock_time(v: i32, lt1: u32, lt2: u32)
    ensures
        ({
            let d1 = spec_encode(with_lock_time(with_version(initial_builder_data(), v), lt1))
                + Seq::<u8>::new(8, |i: int| 0);
            let d2 = spec_encode(with_lock_time(with_version(initial_builder_data(), v), lt2))
                + Seq::<u8>::new(8, |i: int| 0);
            &&& decode_admissible(d1)
            &&& spec_decoded_version(d1) == v
            &&& spec_decoded_lock_time(d1) == spec_decoded_lock_time(d2)
        }),
{
    lemma_auto_spec_u32_to_from_le_bytes();
    let d1 = spec_encode(with_lock_time(with_version(initial_builder_data(), v), lt1))
        + Seq::<u8>::new(8, |i: int| 0);
    let d2 = spec_encode(with_lock_time(with_version(initial_builder_data(), v), lt2))
        + Seq::<u8>::new(8, |i: int| 0);
    assert(d1.subrange(0, 4) =~= spec_u32_to_le_bytes(u32_bits_of_i32(v)));
    assert(d1.subrange(12, 16) =~= Seq::<u8>::new(4, |i: int| 0));
    assert(d2.subrange(12, 16) =~= Seq::<u8>::new(4, |i: int| 0));
    lemma_i32_bits_round_trip(v);
}

} // verus!

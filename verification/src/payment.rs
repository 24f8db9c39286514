//! The fixed-layout payment record and its binary codec.
//!
//! A record is encoded as the concatenation, in order, of
//! `sender` (32 bytes) · `recipient` (32 bytes) · `amount` (8 bytes,
//! little-endian) · `timestamp` (8 bytes, little-endian, two's complement) ·
//! `nonce` (32 bytes) · `signature` (64 bytes): 176 bytes exactly, with no
//! padding, no optional fields and no version tag. Decoding accepts exactly
//! the byte strings of this shape and nothing else.

use crate::error::PaymentError;
use vstd::bytes::lemma_auto_spec_u64_to_from_le_bytes;
use vstd::bytes::spec_u64_from_le_bytes;
use vstd::bytes::spec_u64_to_le_bytes;
use vstd::bytes::u64_from_le_bytes;
use vstd::bytes::u64_to_le_bytes;
use vstd::prelude::*;
use vstd::slice::slice_subrange;

verus! {

/// Exact number of bytes in an encoded payment record.
pub const PAYLOAD_LEN: usize = 176;

/// One intended value transfer, as encoded by a client before submission.
///
/// `timestamp`, `nonce` and `signature` are carried but not interpreted by
/// the handler: the timestamp is advisory, the nonce is not checked for
/// replay, and authorization is delegated to the host's signer flag rather
/// than to the embedded signature bytes.
#[derive(Clone, Copy, Debug, PartialEq, Eq)]
pub struct OfflinePayment {
    pub sender: [u8; 32],
    pub recipient: [u8; 32],
    pub amount: u64,
    pub timestamp: i64,
    pub nonce: [u8; 32],
    pub signature: [u8; 64],
}

/// The signed 64-bit value whose two's-complement bit pattern is `u`.
pub open spec fn spec_i64_from_u64(u: u64) -> i64 {
    if u < 0x8000_0000_0000_0000 {
        u as i64
    } else {
        (u - 0x1_0000_0000_0000_0000) as i64
    }
}

/// The two's-complement bit pattern of `x`, read as an unsigned 64-bit value.
pub open spec fn spec_u64_from_i64(x: i64) -> u64 {
    if x >= 0 {
        x as u64
    } else {
        (x + 0x1_0000_0000_0000_0000) as u64
    }
}

/// The signed 64-bit value encoded little-endian by the 8-byte sequence `s`.
pub open spec fn spec_i64_from_le_bytes(s: Seq<u8>) -> i64 {
    spec_i64_from_u64(spec_u64_from_le_bytes(s))
}

/// The 8-byte little-endian encoding of the signed 64-bit value `x`.
pub open spec fn spec_i64_to_le_bytes(x: i64) -> Seq<u8> {
    spec_u64_to_le_bytes(spec_u64_from_i64(x))
}

/// Reading a signed value out of a bit pattern and writing it back yields
/// the same pattern.
pub proof fn lemma_i64_from_u64_round_trip(u: u64)
    ensures
        spec_u64_from_i64(spec_i64_from_u64(u)) == u,
{
}

/// Writing a signed value as its bit pattern and reading it back yields the
/// same value.
pub proof fn lemma_u64_from_i64_round_trip(x: i64)
    ensures
        spec_i64_from_u64(spec_u64_from_i64(x)) == x,
{
}

/// `p` is exactly the record that the 176-byte sequence `b` encodes.
pub open spec fn decodes_to(b: Seq<u8>, p: OfflinePayment) -> bool {
    &&& b.len() == PAYLOAD_LEN
    &&& p.sender@ == b.subrange(0, 32)
    &&& p.recipient@ == b.subrange(32, 64)
    &&& p.amount == spec_u64_from_le_bytes(b.subrange(64, 72))
    &&& p.timestamp == spec_i64_from_le_bytes(b.subrange(72, 80))
    &&& p.nonce@ == b.subrange(80, 112)
    &&& p.signature@ == b.subrange(112, 176)
}

/// The deterministic binary encoding of `p`: the six fields concatenated in
/// layout order.
pub open spec fn spec_encode(p: OfflinePayment) -> Seq<u8> {
    p.sender@ + p.recipient@ + spec_u64_to_le_bytes(p.amount) + spec_i64_to_le_bytes(p.timestamp)
        + p.nonce@ + p.signature@
}

/// Copies `N` bytes of `data` starting at `start` into a fresh array.
fn read_bytes<const N: usize>(data: &[u8], start: usize) -> (out: [u8; N])
    requires
        start + N <= data@.len() <= usize::MAX,
    ensures
        out@ == data@.subrange(start as int, start as int + N),
{
    let mut out: [u8; N] = [0u8; N];
    let mut i: usize = 0;
    while i < N
        invariant
            i <= N,
            start + N <= data@.len() <= usize::MAX,
            forall|j: int| 0 <= j < i ==> out@[j] == data@[start + j],
        decreases N - i,
    {
        out[i] = data[start + i];
        i += 1;
    }
    assert(out@ =~= data@.subrange(start as int, start as int + N));
    out
}

/// Appends the `N` bytes of `a` to `out`.
fn extend_from_array<const N: usize>(out: &mut Vec<u8>, a: &[u8; N])
    ensures
        final(out)@ == old(out)@ + a@,
{
    let mut i: usize = 0;
    while i < N
        invariant
            i <= N,
            out@ == old(out)@ + a@.subrange(0, i as int),
        decreases N - i,
    {
        out.push(a[i]);
        assert(a@.subrange(0, i as int).push(a@[i as int]) =~= a@.subrange(0, i + 1));
        i += 1;
    }
    assert(old(out)@ + a@.subrange(0, N as int) =~= old(out)@ + a@);
}

impl OfflinePayment {
    /// Decodes a payment record from `data`.
    ///
    /// Succeeds exactly on payloads of the fixed 176-byte layout; any
    /// truncation or extension fails with `DecodeFailure`, and decoding has
    /// no other effect.
    pub fn try_from_slice(data: &[u8]) -> (r: Result<OfflinePayment, PaymentError>)
        ensures
            r is Ok <==> data@.len() == PAYLOAD_LEN,
            r is Ok ==> decodes_to(data@, r->Ok_0),
            r is Err ==> r->Err_0 == PaymentError::DecodeFailure,
    {
        if data.len() != PAYLOAD_LEN {
            return Err(PaymentError::DecodeFailure);
        }
        let sender: [u8; 32] = read_bytes(data, 0);
        let recipient: [u8; 32] = read_bytes(data, 32);
        let amount = u64_from_le_bytes(slice_subrange(data, 64, 72));
        let timestamp_bits = u64_from_le_bytes(slice_subrange(data, 72, 80));
        let timestamp = i64_from_bits(timestamp_bits);
        let nonce: [u8; 32] = read_bytes(data, 80);
        let signature: [u8; 64] = read_bytes(data, 112);
        Ok(OfflinePayment { sender, recipient, amount, timestamp, nonce, signature })
    }

    /// Encodes the record into its unique 176-byte layout.
    ///
    /// The result decodes back to `self`, and every successfully decoded
    /// payload re-encodes to the original bytes.
    pub fn to_bytes(&self) -> (r: Vec<u8>)
        ensures
            r@ == spec_encode(*self),
            decodes_to(r@, *self),
    {
        let mut out: Vec<u8> = Vec::new();
        extend_from_array(&mut out, &self.sender);
        extend_from_array(&mut out, &self.recipient);
        let mut amount_bytes = u64_to_le_bytes(self.amount);
        out.append(&mut amount_bytes);
        let mut timestamp_bytes = u64_to_le_bytes(bits_from_i64(self.timestamp));
        out.append(&mut timestamp_bytes);
        extend_from_array(&mut out, &self.nonce);
        extend_from_array(&mut out, &self.signature);
        proof {
            lemma_encode_then_decode(*self);
        }
        out
    }
}

/// Reinterprets a little-endian bit pattern as a signed 64-bit value.
fn i64_from_bits(u: u64) -> (x: i64)
    ensures
        x == spec_i64_from_u64(u),
{
    if u < 0x8000_0000_0000_0000 {
        u as i64
    } else {
        -1 - ((u64::MAX - u) as i64)
    }
}

/// Reinterprets a signed 64-bit value as its two's-complement bit pattern.
fn bits_from_i64(x: i64) -> (u: u64)
    ensures
        u == spec_u64_from_i64(x),
{
    if x >= 0 {
        x as u64
    } else {
        u64::MAX - ((-1 - x) as u64)
    }
}

/// Round-trip law, one direction: any record decoded from a well-formed
/// payload re-encodes to exactly the original bytes.
pub proof fn lemma_decode_then_encode(b: Seq<u8>, p: OfflinePayment)
    requires
        decodes_to(b, p),
    ensures
        spec_encode(p) == b,
{
    lemma_auto_spec_u64_to_from_le_bytes();
    lemma_i64_from_u64_round_trip(spec_u64_from_le_bytes(b.subrange(72, 80)));
    assert(spec_u64_to_le_bytes(p.amount) =~= b.subrange(64, 72));
    assert(spec_i64_to_le_bytes(p.timestamp) =~= b.subrange(72, 80));
    assert(spec_encode(p) =~= b);
}

/// Round-trip law, other direction: the encoding of any record decodes back
/// to that record, field for field.
pub proof fn lemma_encode_then_decode(p: OfflinePayment)
    ensures
        decodes_to(spec_encode(p), p),
{
    lemma_auto_spec_u64_to_from_le_bytes();
    lemma_u64_from_i64_round_trip(p.timestamp);
    let b = spec_encode(p);
    assert(p.sender@ =~= b.subrange(0, 32));
    assert(p.recipient@ =~= b.subrange(32, 64));
    assert(spec_u64_to_le_bytes(p.amount) =~= b.subrange(64, 72));
    assert(spec_i64_to_le_bytes(p.timestamp) =~= b.subrange(72, 80));
    assert(p.nonce@ =~= b.subrange(80, 112));
    assert(p.signature@ =~= b.subrange(112, 176));
}

} // verus!

//! Serialisation primitives, taken from the `ssz` crate.
//!
//! The functions of this module are the only place where the crate is called.
//! Their contracts restate what its source does for the two kinds of value that
//! this library serialises: 64-bit integers and 32-byte strings.
use vstd::bytes::spec_u64_from_le_bytes;
use vstd::bytes::spec_u64_to_le_bytes;
use vstd::prelude::*;

verus! {

/// Why a value could not be read from a byte string.
#[derive(Clone, Copy, Debug, PartialEq, Eq, Structural)]
pub enum DecodeError {
    /// The bytes end before the value does.
    TooShort,
}

/// The `width` bytes of `bytes` that begin at `index`, where `bytes` reaches that far.
pub open spec fn field_at(bytes: Seq<u8>, index: int, width: int) -> Option<Seq<u8>> {
    if 0 <= index && index + width <= bytes.len() {
        Some(bytes.subrange(index, index + width))
    } else {
        None
    }
}

/// `ssz::Encode::encode` for a `u64`: its eight bytes, least significant first.
#[verifier::external_body]
pub(crate) fn encode_u64(n: u64) -> (bytes: Vec<u8>)
    ensures
        bytes@ == spec_u64_to_le_bytes(n),
{
    ssz::Encode::encode(&n)
}

/// `ssz::Decode::decode_as` for a `u64`, reading from a byte slice: the number
/// whose eight bytes, least significant first, begin the slice, together with
/// the count of bytes read; `None` where the slice holds fewer than eight.
#[verifier::external_body]
pub(crate) fn decode_u64(bytes: &[u8]) -> (decoded: Option<(u64, usize)>)
    ensures
        bytes@.len() < 8 ==> decoded is None,
        bytes@.len() >= 8 ==> decoded == Some(
            (spec_u64_from_le_bytes(bytes@.subrange(0, 8)), 8usize),
        ),
{
    let mut input = bytes;
    <u64 as ssz::Decode>::decode_as(&mut input)
}

/// `ssz::Encode::encode` for a `[u8; 32]`: the 32 bytes as they stand.
#[verifier::external_body]
pub(crate) fn encode_bytes32(value: &[u8; 32]) -> (bytes: Vec<u8>)
    ensures
        bytes@ == value@,
{
    ssz::Encode::encode(value)
}

/// `ssz::Decode::decode_as` for a `[u8; 32]`, reading from a byte slice: the
/// first 32 bytes of the slice, together with the count of bytes read; `None`
/// where the slice holds fewer than 32.
#[verifier::external_body]
pub(crate) fn decode_bytes32(bytes: &[u8]) -> (decoded: Option<([u8; 32], usize)>)
    ensures
        bytes@.len() < 32 ==> decoded is None,
        bytes@.len() >= 32 ==> decoded is Some,
        decoded matches Some((value, read)) ==> value@ == bytes@.subrange(0, 32) && read == 32,
{
    let mut input = bytes;
    <[u8; 32] as ssz::Decode>::decode_as(&mut input)
}

} // verus!

//! A 256-bit hash value.
use crate::codec::decode_bytes32;
use crate::codec::encode_bytes32;
use crate::codec::field_at;
use crate::codec::DecodeError;
use vstd::prelude::*;
use vstd::slice::slice_subrange;
use vstd::std_specs::cmp::PartialEqSpecImpl;

verus! {

/// A hash of 32 bytes. Its view is the sequence of those bytes.
#[derive(Clone, Copy, Debug, Eq, Hash)]
pub struct Hash256 {
    bytes: [u8; 32],
}

impl View for Hash256 {
    type V = Seq<u8>;

    closed spec fn view(&self) -> Seq<u8> {
        self.bytes@
    }
}

impl PartialEq for Hash256 {
    fn eq(&self, other: &Hash256) -> (equal: bool) {
        let mut i: usize = 0;
        while i < 32
            invariant
                i <= 32,
                forall|j: int| 0 <= j < i ==> self.bytes[j] == other.bytes[j],
            decreases 32 - i,
        {
            if self.bytes[i] != other.bytes[i] {
                return false;
            }
            i += 1;
        }
        assert(self@ =~= other@);
        true
    }
}

impl PartialEqSpecImpl for Hash256 {
    open spec fn obeys_eq_spec() -> bool {
        true
    }

    open spec fn eq_spec(&self, other: &Hash256) -> bool {
        self@ == other@
    }
}

impl Hash256 {
    /// The hash whose bytes are all zero.
    pub fn zero() -> (hash: Hash256)
        ensures
            hash@ == Seq::new(32, |i: int| 0u8),
    {
        let hash = Hash256 { bytes: [0u8;32] };
        assert(hash@ =~= Seq::new(32, |i: int| 0u8));
        hash
    }

    pub fn new(bytes: [u8; 32]) -> (hash: Hash256)
        ensures
            hash@ == bytes@,
    {
        Hash256 { bytes }
    }

    pub fn to_bytes(&self) -> (bytes: [u8; 32])
        ensures
            bytes@ == self@,
    {
        self.bytes
    }

    /// Every hash has exactly 32 bytes.
    pub proof fn lemma_length(self)
        ensures
            self@.len() == 32,
    {
    }

    /// Two hashes are the same exactly when their bytes are equal.
    pub proof fn lemma_equal_by_bytes(a: Hash256, b: Hash256)
        ensures
            (a == b) == (a@ == b@),
    {
        if a@ == b@ {
            assert(a.bytes =~= b.bytes);
        }
    }

    /// Appends the 32 bytes of the hash to `buffer`.
    pub fn ssz_append(&self, buffer: &mut Vec<u8>)
        ensures
            final(buffer)@ == old(buffer)@ + self@,
    {
        let mut encoded = encode_bytes32(&self.bytes);
        buffer.append(&mut encoded);
    }

    /// Reads a hash from the 32 bytes of `bytes` that begin at `index`, and
    /// gives it with the index of the byte that follows.
    pub fn ssz_decode(bytes: &[u8], index: usize) -> (decoded: Result<(Hash256, usize), DecodeError>)
        ensures
            match field_at(bytes@, index as int, 32) {
                None => decoded == Err::<(Hash256, usize), DecodeError>(DecodeError::TooShort),
                Some(field) => decoded matches Ok((hash, next)) && hash@ == field && next == index
                    + 32,
            },
    {
        if index > bytes.len() {
            return Err(DecodeError::TooShort);
        }
        let rest = slice_subrange(bytes, index, bytes.len());
        match decode_bytes32(rest) {
            None => Err(DecodeError::TooShort),
            Some((value, read)) => {
                assert(rest@.subrange(0, 32) =~= bytes@.subrange(index as int, index + 32));
                Ok((Hash256 { bytes: value }, index + read))
            },
        }
    }

    /// What was appended is read back: the 32 bytes of a hash, wherever they
    /// stand in a byte string, decode to that hash.
    pub proof fn lemma_ssz_round_trip(self, before: Seq<u8>, after: Seq<u8>)
        ensures
            field_at(before + self@ + after, before.len() as int, 32) == Some(self@),
    {
        let bytes = before + self@ + after;
        assert(bytes.subrange(before.len() as int, before.len() as int + 32) =~= self@);
    }
}

} // verus!

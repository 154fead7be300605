//! A crosslink: the record of a shard block at a slot.
use crate::codec::field_at;
use crate::codec::DecodeError;
use crate::hash256::Hash256;
use crate::slot_epoch::Slot;
use vstd::bytes::lemma_auto_spec_u64_to_from_le_bytes;
use vstd::bytes::spec_u64_from_le_bytes;
use vstd::bytes::spec_u64_to_le_bytes;
use vstd::prelude::*;
use vstd::std_specs::cmp::PartialEqSpecImpl;

verus! {

/// The root of a shard block, with the slot that it belongs to.
#[derive(Debug, Eq)]
pub struct Crosslink {
    pub slot: Slot,
    pub shard_block_root: Hash256,
}

impl Clone for Crosslink {
    fn clone(&self) -> (copy: Crosslink)
        ensures
            copy == *self,
    {
        Crosslink { slot: self.slot, shard_block_root: self.shard_block_root }
    }
}

impl PartialEq for Crosslink {
    fn eq(&self, other: &Crosslink) -> (equal: bool) {
        self.slot == other.slot && self.shard_block_root == other.shard_block_root
    }
}

impl PartialEqSpecImpl for Crosslink {
    open spec fn obeys_eq_spec() -> bool {
        true
    }

    open spec fn eq_spec(&self, other: &Crosslink) -> bool {
        self.slot == other.slot && self.shard_block_root@ == other.shard_block_root@
    }
}

impl Crosslink {
    /// The crosslink at slot zero whose root is all zero bytes.
    pub fn zero() -> (crosslink: Crosslink)
        ensures
            crosslink.slot@ == 0,
            crosslink.shard_block_root@ == Seq::new(32, |i: int| 0u8),
    {
        Crosslink { slot: Slot::new(0), shard_block_root: Hash256::zero() }
    }

    /// The serialised form: the slot in eight bytes, least significant first,
    /// then the 32 bytes of the root.
    pub open spec fn ssz_bytes(&self) -> Seq<u8> {
        spec_u64_to_le_bytes(self.slot@) + self.shard_block_root@
    }

    /// Appends the serialised form to `buffer`.
    pub fn ssz_append(&self, buffer: &mut Vec<u8>)
        ensures
            final(buffer)@ == old(buffer)@ + self.ssz_bytes(),
    {
        self.slot.ssz_append(buffer);
        self.shard_block_root.ssz_append(buffer);
        assert(buffer@ =~= old(buffer)@ + self.ssz_bytes());
    }

    /// Reads a crosslink from the 40 bytes of `bytes` that begin at `index`,
    /// and gives it with the index of the byte that follows.
    pub fn ssz_decode(bytes: &[u8], index: usize) -> (decoded: Result<(Crosslink, usize), DecodeError>)
        ensures
            match field_at(bytes@, index as int, 40) {
                None => decoded == Err::<(Crosslink, usize), DecodeError>(DecodeError::TooShort),
                Some(field) => decoded matches Ok((crosslink, next)) && crosslink.slot@
                    == spec_u64_from_le_bytes(field.subrange(0, 8))
                    && crosslink.shard_block_root@ == field.subrange(8, 40) && next == index + 40,
            },
    {
        let (slot, index_of_root) = match Slot::ssz_decode(bytes, index) {
            Ok(pair) => pair,
            Err(e) => return Err(e),
        };
        let (shard_block_root, next) = match Hash256::ssz_decode(bytes, index_of_root) {
            Ok(pair) => pair,
            Err(e) => return Err(e),
        };
        proof {
            let field = bytes@.subrange(index as int, index + 40);
            assert(field.subrange(0, 8) =~= bytes@.subrange(index as int, index + 8));
            assert(field.subrange(8, 40) =~= bytes@.subrange(index + 8, index + 40));
        }
        Ok((Crosslink { slot, shard_block_root }, next))
    }

    /// What was appended is read back: the serialised form of a crosslink,
    /// wherever it stands in a byte string, has 40 bytes and decodes to the
    /// slot and the root of that crosslink.
    pub proof fn lemma_ssz_round_trip(self, before: Seq<u8>, after: Seq<u8>)
        ensures
            self.ssz_bytes().len() == 40,
            field_at(before + self.ssz_bytes() + after, before.len() as int, 40) == Some(
                self.ssz_bytes(),
            ),
            spec_u64_from_le_bytes(self.ssz_bytes().subrange(0, 8)) == self.slot@,
            self.ssz_bytes().subrange(8, 40) == self.shard_block_root@,
    {
        lemma_auto_spec_u64_to_from_le_bytes();
        self.shard_block_root.lemma_length();
        let bytes = before + self.ssz_bytes() + after;
        assert(bytes.subrange(before.len() as int, before.len() as int + 40) =~= self.ssz_bytes());
        assert(self.ssz_bytes().subrange(0, 8) =~= spec_u64_to_le_bytes(self.slot@));
        assert(self.ssz_bytes().subrange(8, 40) =~= self.shard_block_root@);
    }
}

} // verus!

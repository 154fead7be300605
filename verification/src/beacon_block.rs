//! The values that pass between the block producer and its collaborators.
//!
//! A candidate block is held here only as far as the producer handles it: the
//! slot it is for, the root that its proposer signs, and the proposer's
//! signature. What else a block holds, and how its root is computed, belongs to
//! whoever assembles the block.
use crate::hash256::Hash256;
use crate::slot_epoch::Slot;
use vstd::prelude::*;
use vstd::std_specs::cmp::PartialEqSpecImpl;

verus! {

/// A validator's public key, in its serialised form.
#[derive(Debug, Eq)]
pub struct PublicKey {
    pub bytes: Vec<u8>,
}

/// A signature, in its serialised form.
#[derive(Debug, Eq)]
pub struct Signature {
    pub bytes: Vec<u8>,
}

/// A block, as proposed by one validator for one slot.
#[derive(Debug, Eq)]
pub struct BeaconBlock {
    /// The slot that the block is for.
    pub slot: Slot,
    /// The root over which the proposer's signature is made.
    pub proposal_root: Hash256,
    /// The proposer's signature.
    pub signature: Signature,
}

impl View for PublicKey {
    type V = Seq<u8>;

    open spec fn view(&self) -> Seq<u8> {
        self.bytes@
    }
}

impl View for Signature {
    type V = Seq<u8>;

    open spec fn view(&self) -> Seq<u8> {
        self.bytes@
    }
}

impl Clone for PublicKey {
    fn clone(&self) -> (copy: PublicKey)
        ensures
            copy@ == self@,
    {
        let bytes = self.bytes.clone();
        assert(bytes@ =~= self.bytes@);
        PublicKey { bytes }
    }
}

impl Clone for Signature {
    fn clone(&self) -> (copy: Signature)
        ensures
            copy@ == self@,
    {
        let bytes = self.bytes.clone();
        assert(bytes@ =~= self.bytes@);
        Signature { bytes }
    }
}

impl Clone for BeaconBlock {
    fn clone(&self) -> (copy: BeaconBlock)
        ensures
            copy.slot == self.slot,
            copy.proposal_root == self.proposal_root,
            copy.signature@ == self.signature@,
    {
        BeaconBlock {
            slot: self.slot,
            proposal_root: self.proposal_root,
            signature: self.signature.clone(),
        }
    }
}

impl PartialEq for PublicKey {
    fn eq(&self, other: &PublicKey) -> (equal: bool) {
        let equal = self.bytes == other.bytes;
        assert(equal == (self@ =~= other@));
        equal
    }
}

impl PartialEqSpecImpl for PublicKey {
    open spec fn obeys_eq_spec() -> bool {
        true
    }

    open spec fn eq_spec(&self, other: &PublicKey) -> bool {
        self@ == other@
    }
}

impl PartialEq for Signature {
    fn eq(&self, other: &Signature) -> (equal: bool) {
        let equal = self.bytes == other.bytes;
        assert(equal == (self@ =~= other@));
        equal
    }
}

impl PartialEqSpecImpl for Signature {
    open spec fn obeys_eq_spec() -> bool {
        true
    }

    open spec fn eq_spec(&self, other: &Signature) -> bool {
        self@ == other@
    }
}

impl PartialEq for BeaconBlock {
    fn eq(&self, other: &BeaconBlock) -> (equal: bool) {
        self.slot == other.slot && self.proposal_root == other.proposal_root && self.signature
            == other.signature
    }
}

impl PartialEqSpecImpl for BeaconBlock {
    open spec fn obeys_eq_spec() -> bool {
        true
    }

    open spec fn eq_spec(&self, other: &BeaconBlock) -> bool {
        &&& self.slot == other.slot
        &&& self.proposal_root@ == other.proposal_root@
        &&& self.signature@ == other.signature@
    }
}

impl BeaconBlock {
    /// The same block, carrying `signature` as its proposer's signature.
    pub fn signed(self, signature: Signature) -> (block: BeaconBlock)
        ensures
            block == (BeaconBlock { signature, ..self }),
    {
        BeaconBlock { slot: self.slot, proposal_root: self.proposal_root, signature }
    }
}

} // verus!

//! The collaborators of a block producer.
//!
//! A producer reads the time from a `SlotClock`, asks a `DutiesReader` whether a
//! slot is its own, talks to the chain through a `BeaconNode`, signs with a
//! `Signer`, and consults a `SlashingProtection` before it signs a block. Each
//! is a trait for its users to implement. The producer makes no assumption on
//! what an implementation answers: its contracts hold for every answer.
use crate::beacon_block::BeaconBlock;
use crate::beacon_block::PublicKey;
use crate::beacon_block::Signature;
use crate::slot_epoch::Slot;
use vstd::prelude::*;
use vstd::std_specs::cmp::PartialEqSpecImpl;

verus! {

/// A failure of the beacon node.
#[derive(Debug)]
pub enum BeaconNodeError {
    RemoteFailure(String),
    DecodeFailure,
}

impl Clone for BeaconNodeError {
    fn clone(&self) -> (copy: BeaconNodeError)
        ensures
            copy == *self,
    {
        match self {
            BeaconNodeError::RemoteFailure(message) => BeaconNodeError::RemoteFailure(
                message.clone(),
            ),
            BeaconNodeError::DecodeFailure => BeaconNodeError::DecodeFailure,
        }
    }
}

impl PartialEq for BeaconNodeError {
    fn eq(&self, other: &BeaconNodeError) -> (equal: bool) {
        match (self, other) {
            (BeaconNodeError::RemoteFailure(a), BeaconNodeError::RemoteFailure(b)) => *a == *b,
            (BeaconNodeError::DecodeFailure, BeaconNodeError::DecodeFailure) => true,
            _ => false,
        }
    }
}

impl PartialEqSpecImpl for BeaconNodeError {
    open spec fn obeys_eq_spec() -> bool {
        true
    }

    open spec fn eq_spec(&self, other: &BeaconNodeError) -> bool {
        self.same_as(*other)
    }
}

impl BeaconNodeError {
    /// Whether two failures are of one kind and carry the same message.
    pub open spec fn same_as(self, other: BeaconNodeError) -> bool {
        match (self, other) {
            (BeaconNodeError::RemoteFailure(a), BeaconNodeError::RemoteFailure(b)) => a@ == b@,
            (BeaconNodeError::DecodeFailure, BeaconNodeError::DecodeFailure) => true,
            _ => false,
        }
    }
}

/// What the beacon node made of a block that it was asked to publish.
#[derive(Debug)]
pub enum PublishOutcome {
    ValidBlock,
    InvalidBlock(String),
}

impl Clone for PublishOutcome {
    fn clone(&self) -> (copy: PublishOutcome)
        ensures
            copy == *self,
    {
        match self {
            PublishOutcome::ValidBlock => PublishOutcome::ValidBlock,
            PublishOutcome::InvalidBlock(message) => PublishOutcome::InvalidBlock(message.clone()),
        }
    }
}

impl PartialEq for PublishOutcome {
    fn eq(&self, other: &PublishOutcome) -> (equal: bool) {
        match (self, other) {
            (PublishOutcome::ValidBlock, PublishOutcome::ValidBlock) => true,
            (PublishOutcome::InvalidBlock(a), PublishOutcome::InvalidBlock(b)) => *a == *b,
            _ => false,
        }
    }
}

impl PartialEqSpecImpl for PublishOutcome {
    open spec fn obeys_eq_spec() -> bool {
        true
    }

    open spec fn eq_spec(&self, other: &PublishOutcome) -> bool {
        match (*self, *other) {
            (PublishOutcome::ValidBlock, PublishOutcome::ValidBlock) => true,
            (PublishOutcome::InvalidBlock(a), PublishOutcome::InvalidBlock(b)) => a@ == b@,
            _ => false,
        }
    }
}

/// Why the duties of a slot could not be told.
#[derive(Clone, Copy, Debug, PartialEq, Eq, Structural)]
pub enum DutiesReaderError {
    /// The validator is not known to the duties store.
    UnknownValidator,
    /// The duties of the slot's epoch have not been loaded.
    UnknownEpoch,
    /// The store was set up with epochs of no slots.
    EpochLengthIsZero,
    /// The store's shared state is corrupt.
    Poisoned,
}

/// A source of the present slot.
pub trait SlotClock {
    type Error;

    /// The present slot; `None` where there is none yet.
    fn present_slot(&self) -> Result<Option<Slot>, Self::Error>;
}

/// Tells a validator its duties.
pub trait DutiesReader {
    /// Whether the validator is to propose the block of `slot`.
    fn is_block_production_slot(&self, slot: Slot) -> Result<bool, DutiesReaderError>;
}

/// The part of a beacon node through which blocks are produced and published.
pub trait BeaconNode {
    /// The proposer nonce of the validator with key `pubkey`.
    fn proposer_nonce(&self, pubkey: &PublicKey) -> Result<u64, BeaconNodeError>;

    /// A candidate block for `slot`; `Ok(None)` where the node cannot assemble one.
    fn produce_beacon_block(&self, slot: Slot, randao_reveal: &Signature) -> Result<
        Option<BeaconBlock>,
        BeaconNodeError,
    >;

    /// Hands a signed block to the node for publication.
    fn publish_beacon_block(&self, block: BeaconBlock) -> Result<PublishOutcome, BeaconNodeError>;
}

/// Signs messages with a key that it keeps to itself.
pub trait Signer {
    /// A signature over `message`, or `None` where the signer declines.
    fn bls_sign(&self, message: &[u8]) -> Option<Signature>;
}

/// Guards a validator against signing blocks for which it could be slashed.
pub trait SlashingProtection {
    /// Whether signing `block` is safe, given what has been recorded so far.
    fn is_safe(&self, block: &BeaconBlock) -> bool;

    /// Records that the validator is about to sign `block`.
    fn record(&mut self, block: &BeaconBlock);
}

/// The protection that keeps no history and finds every block safe.
#[derive(Clone, Copy, Debug, Default, PartialEq, Eq)]
pub struct AlwaysSafe;

impl SlashingProtection for AlwaysSafe {
    fn is_safe(&self, block: &BeaconBlock) -> (safe: bool)
        ensures
            safe,
    {
        true
    }

    fn record(&mut self, block: &BeaconBlock) {
    }
}

} // verus!

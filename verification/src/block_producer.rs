//! The block producer: a polling state machine for one validator.
//!
//! On each poll the producer reads the present slot, asks whether that slot is
//! the validator's to propose in, and if so runs the production of a block:
//! nonce, RANDAO reveal, candidate block, safety check, signature, publication.
//! It keeps one piece of state, the last slot for which production was started,
//! and never starts production twice for a slot.
//!
//! What a poll returns depends on what the collaborators answer, and the
//! producer makes no assumption on that. Its contracts say that every poll is
//! one of those that the `protocol` module describes: for some answers of the
//! collaborators, the result, the new state and the exchanges with the
//! collaborators are what the protocol makes of those answers.
use crate::beacon_block::BeaconBlock;
use crate::beacon_block::PublicKey;
use crate::beacon_block::Signature;
use crate::codec::encode_u64;
use crate::protocol::duty_result;
use crate::protocol::is_processed;
use crate::protocol::not_later;
use crate::protocol::poll_exchanges;
use crate::protocol::poll_result;
use crate::protocol::poll_state;
use crate::protocol::production_exchanges;
use crate::protocol::production_result;
use crate::protocol::publication_result;
use crate::protocol::randao_message_of;
use crate::protocol::reading_result;
use crate::protocol::reading_without_cause;
use crate::protocol::signing_exchanges;
use crate::protocol::Answers;
use crate::protocol::Exchange;
use crate::protocol::ProductionAnswers;
use crate::slot_epoch::Slot;
use crate::traits::AlwaysSafe;
use crate::traits::BeaconNode;
use crate::traits::BeaconNodeError;
use crate::traits::DutiesReader;
use crate::traits::DutiesReaderError;
use crate::traits::PublishOutcome;
use crate::traits::Signer;
use crate::traits::SlashingProtection;
use crate::traits::SlotClock;
use std::sync::Arc;
use vstd::prelude::*;
use vstd::std_specs::cmp::PartialEqSpecImpl;
use vstd::std_specs::convert::FromSpecImpl;

verus! {

/// How a poll ended, where it ended with a decision. Each carries the slot
/// that the poll was made in.
#[derive(Clone, Copy, Debug, PartialEq, Eq, Structural)]
pub enum PollOutcome {
    /// A new block was produced.
    BlockProduced(Slot),
    /// A block was not produced as it would have been slashable.
    SlashableBlockNotProduced(Slot),
    /// The validator duties did not require a block to be produced.
    BlockProductionNotRequired(Slot),
    /// The duties for the present epoch were not found.
    ProducerDutiesUnknown(Slot),
    /// The slot has already been processed, execution was skipped.
    SlotAlreadyProcessed(Slot),
    /// The beacon node was unable to produce a block at that slot.
    BeaconNodeUnableToProduceBlock(Slot),
    /// The signer failed to sign the message.
    SignerRejection(Slot),
    /// The public key for this validator is not an active validator.
    ValidatorIsUnknown(Slot),
}

/// How a poll ended, where it ended with a failure.
#[derive(Debug)]
pub enum Error {
    SlotClockError,
    SlotUnknowable,
    EpochMapPoisoned,
    SlotClockPoisoned,
    EpochLengthIsZero,
    BeaconNodeError(BeaconNodeError),
}

impl PartialEq for Error {
    fn eq(&self, other: &Error) -> (equal: bool) {
        match (self, other) {
            (Error::SlotClockError, Error::SlotClockError) => true,
            (Error::SlotUnknowable, Error::SlotUnknowable) => true,
            (Error::EpochMapPoisoned, Error::EpochMapPoisoned) => true,
            (Error::SlotClockPoisoned, Error::SlotClockPoisoned) => true,
            (Error::EpochLengthIsZero, Error::EpochLengthIsZero) => true,
            (Error::BeaconNodeError(a), Error::BeaconNodeError(b)) => *a == *b,
            _ => false,
        }
    }
}

impl PartialEqSpecImpl for Error {
    open spec fn obeys_eq_spec() -> bool {
        true
    }

    open spec fn eq_spec(&self, other: &Error) -> bool {
        match (*self, *other) {
            (Error::SlotClockError, Error::SlotClockError) => true,
            (Error::SlotUnknowable, Error::SlotUnknowable) => true,
            (Error::EpochMapPoisoned, Error::EpochMapPoisoned) => true,
            (Error::SlotClockPoisoned, Error::SlotClockPoisoned) => true,
            (Error::EpochLengthIsZero, Error::EpochLengthIsZero) => true,
            (Error::BeaconNodeError(a), Error::BeaconNodeError(b)) => a.same_as(b),
            _ => false,
        }
    }
}

impl From<BeaconNodeError> for Error {
    fn from(e: BeaconNodeError) -> (error: Error) {
        Error::BeaconNodeError(e)
    }
}

impl FromSpecImpl<BeaconNodeError> for Error {
    open spec fn obeys_from_spec() -> bool {
        true
    }

    open spec fn from_spec(e: BeaconNodeError) -> Error {
        Error::BeaconNodeError(e)
    }
}

impl PollOutcome {
    /// The slot that the poll was made in.
    pub open spec fn slot(self) -> Slot {
        match self {
            PollOutcome::BlockProduced(slot) => slot,
            PollOutcome::SlashableBlockNotProduced(slot) => slot,
            PollOutcome::BlockProductionNotRequired(slot) => slot,
            PollOutcome::ProducerDutiesUnknown(slot) => slot,
            PollOutcome::SlotAlreadyProcessed(slot) => slot,
            PollOutcome::BeaconNodeUnableToProduceBlock(slot) => slot,
            PollOutcome::SignerRejection(slot) => slot,
            PollOutcome::ValidatorIsUnknown(slot) => slot,
        }
    }

    /// Whether the outcome says that its slot is done with: production was
    /// started for it, in this poll or before. The three outcomes that leave
    /// the slot open are `BlockProductionNotRequired`, `ProducerDutiesUnknown`
    /// and `ValidatorIsUnknown`.
    pub open spec fn settles_slot(self) -> bool {
        match self {
            PollOutcome::BlockProduced(_) => true,
            PollOutcome::SlashableBlockNotProduced(_) => true,
            PollOutcome::BeaconNodeUnableToProduceBlock(_) => true,
            PollOutcome::SignerRejection(_) => true,
            PollOutcome::SlotAlreadyProcessed(_) => true,
            PollOutcome::BlockProductionNotRequired(_) => false,
            PollOutcome::ProducerDutiesUnknown(_) => false,
            PollOutcome::ValidatorIsUnknown(_) => false,
        }
    }
}

/// The slot that a reading of the clock gives, or the failure that it stands for.
pub fn slot_of_reading<E>(reading: Result<Option<Slot>, E>) -> (result: Result<Slot, Error>)
    ensures
        result == reading_result(reading),
{
    match reading {
        Err(_) => Err(Error::SlotClockError),
        Ok(None) => Err(Error::SlotUnknowable),
        Ok(Some(slot)) => Ok(slot),
    }
}

/// How a poll in `slot` ends on the answer of the duties reader, if it ends
/// there: `None` where a block is due.
pub fn result_of_duty(slot: Slot, duty: Result<bool, DutiesReaderError>) -> (result: Option<
    Result<PollOutcome, Error>,
>)
    ensures
        result == duty_result(slot, duty),
{
    match duty {
        Ok(true) => None,
        Ok(false) => Some(Ok(PollOutcome::BlockProductionNotRequired(slot))),
        Err(DutiesReaderError::UnknownEpoch) => Some(Ok(PollOutcome::ProducerDutiesUnknown(slot))),
        Err(DutiesReaderError::UnknownValidator) => Some(
            Ok(PollOutcome::ValidatorIsUnknown(slot)),
        ),
        Err(DutiesReaderError::EpochLengthIsZero) => Some(Err(Error::EpochLengthIsZero)),
        Err(DutiesReaderError::Poisoned) => Some(Err(Error::EpochMapPoisoned)),
    }
}

/// How production for `slot` ends once the beacon node has answered the
/// request to publish: with its failure, or else with `BlockProduced`,
/// whatever the node made of the block.
pub fn result_of_publication(
    slot: Slot,
    publication: Result<PublishOutcome, BeaconNodeError>,
) -> (result: Result<PollOutcome, Error>)
    ensures
        result == publication_result(slot, publication),
{
    match publication {
        Err(e) => Err(Error::from(e)),
        Ok(_) => Ok(PollOutcome::BlockProduced(slot)),
    }
}

/// The message that a proposer signs as its RANDAO reveal: the proposer nonce
/// in eight bytes, least significant first.
pub fn randao_message(nonce: u64) -> (message: Vec<u8>)
    ensures
        message@ == randao_message_of(nonce),
{
    encode_u64(nonce)
}

/// A polling state machine which performs the block production duties of one
/// validator, based upon its duties (`DutiesReader`) and a concept of time
/// (`SlotClock`).
///
/// It relies upon an outside service to keep the duties up to date.
pub struct BlockProducer<
    T: SlotClock,
    U: BeaconNode,
    V: DutiesReader,
    W: Signer,
    P: SlashingProtection,
> {
    pub last_processed_slot: Option<Slot>,
    pubkey: PublicKey,
    epoch_map: Arc<V>,
    slot_clock: Arc<T>,
    beacon_node: Arc<U>,
    signer: Arc<W>,
    protection: P,
    exchanges: Ghost<Seq<Exchange>>,
}

impl<T: SlotClock, U: BeaconNode, V: DutiesReader, W: Signer> BlockProducer<T, U, V, W, AlwaysSafe> {
    /// A producer that has processed no slot yet and finds every block safe to sign.
    pub fn new(
        pubkey: PublicKey,
        epoch_map: Arc<V>,
        slot_clock: Arc<T>,
        beacon_node: Arc<U>,
        signer: Arc<W>,
    ) -> (producer: Self)
        ensures
            producer.last_processed() is None,
            producer.pubkey() == pubkey,
            producer.collaborators() == (epoch_map, slot_clock, beacon_node, signer),
            producer.exchanges() == Seq::<Exchange>::empty(),
    {
        BlockProducer {
            last_processed_slot: None,
            pubkey,
            epoch_map,
            slot_clock,
            beacon_node,
            signer,
            protection: AlwaysSafe,
            exchanges: Ghost(Seq::empty()),
        }
    }
}

impl<
    T: SlotClock,
    U: BeaconNode,
    V: DutiesReader,
    W: Signer,
    P: SlashingProtection,
> BlockProducer<T, U, V, W, P> {
    /// The last slot for which this producer started production.
    pub closed spec fn last_processed(&self) -> Option<Slot> {
        self.last_processed_slot
    }

    /// The key of the validator that this producer works for.
    pub closed spec fn pubkey(&self) -> PublicKey {
        self.pubkey
    }

    /// The collaborators of this producer: its duties reader, its clock, its
    /// beacon node and its signer.
    pub closed spec fn collaborators(&self) -> (Arc<V>, Arc<T>, Arc<U>, Arc<W>) {
        (self.epoch_map, self.slot_clock, self.beacon_node, self.signer)
    }

    /// All exchanges that this producer has had with its collaborators, from
    /// the first to the latest.
    pub closed spec fn exchanges(&self) -> Seq<Exchange> {
        self.exchanges@
    }

    /// A producer that has processed no slot yet and asks `protection` before
    /// it signs a block.
    pub fn with_protection(
        pubkey: PublicKey,
        epoch_map: Arc<V>,
        slot_clock: Arc<T>,
        beacon_node: Arc<U>,
        signer: Arc<W>,
        protection: P,
    ) -> (producer: Self)
        ensures
            producer.last_processed() is None,
            producer.pubkey() == pubkey,
            producer.collaborators() == (epoch_map, slot_clock, beacon_node, signer),
            producer.exchanges() == Seq::<Exchange>::empty(),
    {
        BlockProducer {
            last_processed_slot: None,
            pubkey,
            epoch_map,
            slot_clock,
            beacon_node,
            signer,
            protection,
            exchanges: Ghost(Seq::empty()),
        }
    }

    /// "Poll" to see if the validator is required to take any action.
    ///
    /// The slot clock will be read and any new actions undertaken. Whatever the
    /// collaborators answer, the poll is one that the protocol describes: its
    /// result, the state it leaves and the exchanges it adds are those of
    /// `poll_result`, `poll_state` and `poll_exchanges` on the same answers.
    /// In particular the last processed slot never moves back, and a slot that
    /// the outcome settles is processed from then on.
    pub fn poll(&mut self) -> (result: Result<PollOutcome, Error>)
        ensures
            exists|answers: Answers|
                {
                    &&& result == poll_result(old(self).last_processed(), answers)
                    &&& final(self).last_processed() == poll_state(
                        old(self).last_processed(),
                        answers,
                    )
                    &&& final(self).exchanges() == old(self).exchanges() + poll_exchanges(
                        old(self).last_processed(),
                        old(self).pubkey(),
                        answers,
                    )
                },
            not_later(old(self).last_processed(), final(self).last_processed()),
            result matches Ok(outcome) ==> (outcome.settles_slot() ==> is_processed(
                final(self).last_processed(),
                outcome.slot(),
            )),
            final(self).pubkey() == old(self).pubkey(),
            final(self).collaborators() == old(self).collaborators(),
    {
        let ghost last = self.last_processed_slot;
        let ghost before = self.exchanges@;
        let reading = self.read_clock();
        let ghost present_slot = reading_without_cause(reading);
        let slot = match slot_of_reading(reading) {
            Ok(slot) => slot,
            Err(e) => {
                proof {
                    let answers = Answers {
                        present_slot,
                        duty: arbitrary(),
                        production: arbitrary(),
                    };
                    assert(Err::<PollOutcome, Error>(e) == poll_result(last, answers));
                    assert(last == poll_state(last, answers));
                    assert(self.exchanges@ =~= before + poll_exchanges(
                        last,
                        self.pubkey,
                        answers,
                    ));
                }
                return Err(e);
            },
        };
        if self.is_processed_slot(slot) {
            proof {
                let answers = Answers { present_slot, duty: arbitrary(), production: arbitrary() };
                assert(Ok::<PollOutcome, Error>(PollOutcome::SlotAlreadyProcessed(slot))
                    == poll_result(last, answers));
                assert(last == poll_state(last, answers));
                assert(self.exchanges@ =~= before + poll_exchanges(last, self.pubkey, answers));
            }
            return Ok(PollOutcome::SlotAlreadyProcessed(slot));
        }
        let duty = self.ask_duty(slot);
        match result_of_duty(slot, duty) {
            Some(result) => {
                proof {
                    let answers = Answers { present_slot, duty, production: arbitrary() };
                    assert(result == poll_result(last, answers));
                    assert(last == poll_state(last, answers));
                    assert(self.exchanges@ =~= before + poll_exchanges(
                        last,
                        self.pubkey,
                        answers,
                    ));
                }
                result
            },
            None => {
                self.last_processed_slot = Some(slot);
                let ghost asked_duty = self.exchanges@;
                let result = self.produce_block(slot);
                proof {
                    let production = choose|production: ProductionAnswers|
                        result == production_result(slot, production) && self.exchanges@
                            == asked_duty + production_exchanges(slot, self.pubkey, production);
                    let answers = Answers { present_slot, duty, production };
                    assert(result == poll_result(last, answers));
                    assert(Some(slot) == poll_state(last, answers));
                    assert(self.exchanges@ =~= before + poll_exchanges(
                        last,
                        self.pubkey,
                        answers,
                    ));
                }
                result
            },
        }
    }

    /// Whether `slot` is done with: production was started for it or for a
    /// later slot.
    pub fn is_processed_slot(&self, slot: Slot) -> (processed: bool)
        ensures
            processed == is_processed(self.last_processed(), slot),
    {
        match self.last_processed_slot {
            Some(processed_slot) => processed_slot.as_u64() >= slot.as_u64(),
            None => false,
        }
    }

    /// Produce a block at some slot.
    ///
    /// Assumes that a block is required at this slot (does not check the
    /// duties), and leaves the last processed slot as it is. Whatever the
    /// collaborators answer, the result and the exchanges are those of
    /// `production_result` and `production_exchanges` on the same answers. In
    /// particular no block is signed or published unless the slashing
    /// protection has found it safe.
    pub fn produce_block(&mut self, slot: Slot) -> (result: Result<PollOutcome, Error>)
        ensures
            exists|answers: ProductionAnswers|
                {
                    &&& result == production_result(slot, answers)
                    &&& final(self).exchanges() == old(self).exchanges() + production_exchanges(
                        slot,
                        old(self).pubkey(),
                        answers,
                    )
                },
            final(self).last_processed() == old(self).last_processed(),
            final(self).pubkey() == old(self).pubkey(),
            final(self).collaborators() == old(self).collaborators(),
    {
        let ghost before = self.exchanges@;
        let ghost pubkey = self.pubkey;
        let nonce = self.ask_nonce();
        let producer_nonce = match nonce {
            Ok(producer_nonce) => producer_nonce,
            Err(e) => {
                proof {
                    let answers = ProductionAnswers {
                        nonce,
                        randao_reveal: arbitrary(),
                        candidate: arbitrary(),
                        safe: arbitrary(),
                        signature: arbitrary(),
                        publication: arbitrary(),
                    };
                    assert(Err::<PollOutcome, Error>(Error::BeaconNodeError(e))
                        == production_result(slot, answers));
                    assert(self.exchanges@ =~= before + production_exchanges(
                        slot,
                        pubkey,
                        answers,
                    ));
                }
                return Err(Error::from(e));
            },
        };
        let message = randao_message(producer_nonce);
        let randao_reveal = self.ask_signature(message.as_slice());
        let randao = match randao_reveal {
            Some(randao) => randao,
            None => {
                proof {
                    let answers = ProductionAnswers {
                        nonce,
                        randao_reveal,
                        candidate: arbitrary(),
                        safe: arbitrary(),
                        signature: arbitrary(),
                        publication: arbitrary(),
                    };
                    assert(Ok::<PollOutcome, Error>(PollOutcome::SignerRejection(slot))
                        == production_result(slot, answers));
                    assert(self.exchanges@ =~= before + production_exchanges(
                        slot,
                        pubkey,
                        answers,
                    ));
                }
                return Ok(PollOutcome::SignerRejection(slot));
            },
        };
        let candidate = self.ask_candidate(slot, &randao);
        let block = match candidate {
            Ok(Some(block)) => block,
            Ok(None) => {
                proof {
                    let answers = ProductionAnswers {
                        nonce,
                        randao_reveal,
                        candidate,
                        safe: arbitrary(),
                        signature: arbitrary(),
                        publication: arbitrary(),
                    };
                    assert(Ok::<PollOutcome, Error>(
                        PollOutcome::BeaconNodeUnableToProduceBlock(slot),
                    ) == production_result(slot, answers));
                    assert(self.exchanges@ =~= before + production_exchanges(
                        slot,
                        pubkey,
                        answers,
                    ));
                }
                return Ok(PollOutcome::BeaconNodeUnableToProduceBlock(slot));
            },
            Err(e) => {
                proof {
                    let answers = ProductionAnswers {
                        nonce,
                        randao_reveal,
                        candidate,
                        safe: arbitrary(),
                        signature: arbitrary(),
                        publication: arbitrary(),
                    };
                    assert(Err::<PollOutcome, Error>(Error::BeaconNodeError(e))
                        == production_result(slot, answers));
                    assert(self.exchanges@ =~= before + production_exchanges(
                        slot,
                        pubkey,
                        answers,
                    ));
                }
                return Err(Error::from(e));
            },
        };
        let safe = self.safe_to_produce(&block);
        if !safe {
            proof {
                let answers = ProductionAnswers {
                    nonce,
                    randao_reveal,
                    candidate,
                    safe,
                    signature: arbitrary(),
                    publication: arbitrary(),
                };
                assert(Ok::<PollOutcome, Error>(PollOutcome::SlashableBlockNotProduced(slot))
                    == production_result(slot, answers));
                assert(self.exchanges@ =~= before + production_exchanges(slot, pubkey, answers));
            }
            return Ok(PollOutcome::SlashableBlockNotProduced(slot));
        }
        let ghost unsigned = block;
        let signed = match self.sign_block(block) {
            Some(signed) => signed,
            None => {
                proof {
                    let answers = ProductionAnswers {
                        nonce,
                        randao_reveal,
                        candidate,
                        safe,
                        signature: None,
                        publication: arbitrary(),
                    };
                    assert(Ok::<PollOutcome, Error>(PollOutcome::SignerRejection(slot))
                        == production_result(slot, answers));
                    assert(self.exchanges@ =~= before + production_exchanges(
                        slot,
                        pubkey,
                        answers,
                    ));
                }
                return Ok(PollOutcome::SignerRejection(slot));
            },
        };
        let ghost signature = signed.signature;
        let publication = self.ask_publication(signed);
        let result = result_of_publication(slot, publication);
        proof {
            let answers = ProductionAnswers {
                nonce,
                randao_reveal,
                candidate,
                safe,
                signature: Some(signature),
                publication,
            };
            assert(result == production_result(slot, answers));
            assert(signing_exchanges(unsigned, answers).len() == 4);
            assert(self.exchanges@ =~= before + production_exchanges(slot, pubkey, answers));
        }
        result
    }

    /// Consumes a block, returning that block signed by the validator's key,
    /// or `None` where the signer declines. The block is recorded with the
    /// slashing protection, then the signer is shown the root of the block.
    ///
    /// Important: this function will not check to ensure the block is not
    /// slashable. This must be done upstream.
    fn sign_block(&mut self, block: BeaconBlock) -> (signed: Option<BeaconBlock>)
        ensures
            final(self).exchanges() == old(self).exchanges().push(Exchange::Record(block)).push(
                Exchange::Signing(
                    block.proposal_root@,
                    match signed {
                        Some(signed_block) => Some(signed_block.signature),
                        None => None,
                    },
                ),
            ),
            signed matches Some(signed_block) ==> signed_block == (BeaconBlock {
                signature: signed_block.signature,
                ..block
            }),
            final(self).last_processed() == old(self).last_processed(),
            final(self).pubkey() == old(self).pubkey(),
            final(self).collaborators() == old(self).collaborators(),
    {
        self.store_produce(&block);
        let root = block.proposal_root.to_bytes();
        match self.ask_signature(root.as_slice()) {
            None => None,
            Some(signature) => Some(block.signed(signature)),
        }
    }

    /// Returns `true` if signing a block is safe (non-slashable), as far as
    /// the slashing protection can tell.
    fn safe_to_produce(&mut self, block: &BeaconBlock) -> (safe: bool)
        ensures
            final(self).exchanges() == old(self).exchanges().push(
                Exchange::SafetyCheck(*block, safe),
            ),
            final(self).last_processed() == old(self).last_processed(),
            final(self).pubkey() == old(self).pubkey(),
            final(self).collaborators() == old(self).collaborators(),
    {
        let safe = self.protection.is_safe(block);
        proof {
            self.exchanges@ = self.exchanges@.push(Exchange::SafetyCheck(*block, safe));
        }
        safe
    }

    /// Record that a block is about to be signed, so that slashable blocks may
    /// not be signed in the future.
    fn store_produce(&mut self, block: &BeaconBlock)
        ensures
            final(self).exchanges() == old(self).exchanges().push(Exchange::Record(*block)),
            final(self).last_processed() == old(self).last_processed(),
            final(self).pubkey() == old(self).pubkey(),
            final(self).collaborators() == old(self).collaborators(),
    {
        self.protection.record(block);
        proof {
            self.exchanges@ = self.exchanges@.push(Exchange::Record(*block));
        }
    }

    /// Reads the clock.
    fn read_clock(&mut self) -> (reading: Result<Option<Slot>, T::Error>)
        ensures
            final(self).exchanges() == old(self).exchanges().push(
                Exchange::PresentSlot(reading_without_cause(reading)),
            ),
            final(self).last_processed() == old(self).last_processed(),
            final(self).pubkey() == old(self).pubkey(),
            final(self).collaborators() == old(self).collaborators(),
    {
        let reading = self.slot_clock.present_slot();
        proof {
            self.exchanges@ = self.exchanges@.push(
                Exchange::PresentSlot(reading_without_cause(reading)),
            );
        }
        reading
    }

    /// Asks the duties reader whether `slot` is a production slot.
    fn ask_duty(&mut self, slot: Slot) -> (duty: Result<bool, DutiesReaderError>)
        ensures
            final(self).exchanges() == old(self).exchanges().push(Exchange::Duty(slot, duty)),
            final(self).last_processed() == old(self).last_processed(),
            final(self).pubkey() == old(self).pubkey(),
            final(self).collaborators() == old(self).collaborators(),
    {
        let duty = self.epoch_map.is_block_production_slot(slot);
        proof {
            self.exchanges@ = self.exchanges@.push(Exchange::Duty(slot, duty));
        }
        duty
    }

    /// Asks the beacon node for the proposer nonce of this validator.
    fn ask_nonce(&mut self) -> (nonce: Result<u64, BeaconNodeError>)
        ensures
            final(self).exchanges() == old(self).exchanges().push(
                Exchange::Nonce(old(self).pubkey(), nonce),
            ),
            final(self).last_processed() == old(self).last_processed(),
            final(self).pubkey() == old(self).pubkey(),
            final(self).collaborators() == old(self).collaborators(),
    {
        let nonce = self.beacon_node.proposer_nonce(&self.pubkey);
        proof {
            self.exchanges@ = self.exchanges@.push(Exchange::Nonce(self.pubkey, nonce));
        }
        nonce
    }

    /// Asks the signer for a signature over `message`.
    fn ask_signature(&mut self, message: &[u8]) -> (signature: Option<Signature>)
        ensures
            final(self).exchanges() == old(self).exchanges().push(
                Exchange::Signing(message@, signature),
            ),
            final(self).last_processed() == old(self).last_processed(),
            final(self).pubkey() == old(self).pubkey(),
            final(self).collaborators() == old(self).collaborators(),
    {
        let signature = self.signer.bls_sign(message);
        proof {
            self.exchanges@ = self.exchanges@.push(Exchange::Signing(message@, signature));
        }
        signature
    }

    /// Asks the beacon node for a candidate block for `slot`.
    fn ask_candidate(&mut self, slot: Slot, randao_reveal: &Signature) -> (candidate: Result<
        Option<BeaconBlock>,
        BeaconNodeError,
    >)
        ensures
            final(self).exchanges() == old(self).exchanges().push(
                Exchange::Candidate(slot, *randao_reveal, candidate),
            ),
            final(self).last_processed() == old(self).last_processed(),
            final(self).pubkey() == old(self).pubkey(),
            final(self).collaborators() == old(self).collaborators(),
    {
        let candidate = self.beacon_node.produce_beacon_block(slot, randao_reveal);
        proof {
            self.exchanges@ = self.exchanges@.push(
                Exchange::Candidate(slot, *randao_reveal, candidate),
            );
        }
        candidate
    }

    /// Asks the beacon node to publish `block`.
    fn ask_publication(&mut self, block: BeaconBlock) -> (publication: Result<
        PublishOutcome,
        BeaconNodeError,
    >)
        ensures
            final(self).exchanges() == old(self).exchanges().push(
                Exchange::Publication(block, publication),
            ),
            final(self).last_processed() == old(self).last_processed(),
            final(self).pubkey() == old(self).pubkey(),
            final(self).collaborators() == old(self).collaborators(),
    {
        let ghost handed = block;
        let publication = self.beacon_node.publish_beacon_block(block);
        proof {
            self.exchanges@ = self.exchanges@.push(Exchange::Publication(handed, publication));
        }
        publication
    }
}

} // verus!

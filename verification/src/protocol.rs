//! What a poll is, apart from the code that carries it out.
//!
//! A poll asks its collaborators a question at a time and decides on each
//! answer how to go on. `Answers` holds the answers of one poll.
//! `poll_result` and `poll_state` say what the poll returns and where it
//! leaves the producer, and `poll_exchanges` says which questions were asked,
//! with what, and in which order. The producer's contract ties every poll to
//! these three; the laws of the producer are proved of them here.
use crate::beacon_block::BeaconBlock;
use crate::beacon_block::PublicKey;
use crate::beacon_block::Signature;
use crate::block_producer::Error;
use crate::block_producer::PollOutcome;
use crate::slot_epoch::Slot;
use crate::traits::BeaconNodeError;
use crate::traits::DutiesReaderError;
use crate::traits::PublishOutcome;
use vstd::bytes::spec_u64_to_le_bytes;
use vstd::prelude::*;

verus! {

/// What the collaborators answer while a block is produced, in the order in
/// which they are asked. An answer is read only if all answers before it let
/// production go on.
pub struct ProductionAnswers {
    /// The beacon node, asked for the proposer nonce.
    pub nonce: Result<u64, BeaconNodeError>,
    /// The signer, asked to sign the RANDAO reveal.
    pub randao_reveal: Option<Signature>,
    /// The beacon node, asked for a candidate block.
    pub candidate: Result<Option<BeaconBlock>, BeaconNodeError>,
    /// The slashing protection, asked whether the candidate is safe to sign.
    pub safe: bool,
    /// The signer, asked to sign the candidate.
    pub signature: Option<Signature>,
    /// The beacon node, asked to publish the signed block.
    pub publication: Result<PublishOutcome, BeaconNodeError>,
}

/// What the collaborators answer in the course of one poll.
pub struct Answers {
    /// The clock, asked for the present slot. A failure of the clock stands
    /// here without its cause.
    pub present_slot: Result<Option<Slot>, ()>,
    /// The duties reader, asked whether the present slot is a production slot.
    pub duty: Result<bool, DutiesReaderError>,
    /// The answers during production.
    pub production: ProductionAnswers,
}

/// One exchange between a producer and a collaborator: what the collaborator
/// was handed, and what it answered.
pub enum Exchange {
    /// The clock was asked for the present slot.
    PresentSlot(Result<Option<Slot>, ()>),
    /// The duties reader was asked whether a slot is a production slot.
    Duty(Slot, Result<bool, DutiesReaderError>),
    /// The beacon node was asked for the proposer nonce of a validator.
    Nonce(PublicKey, Result<u64, BeaconNodeError>),
    /// The signer was asked to sign a message.
    Signing(Seq<u8>, Option<Signature>),
    /// The beacon node was asked for a candidate block for a slot, and was
    /// handed a RANDAO reveal.
    Candidate(Slot, Signature, Result<Option<BeaconBlock>, BeaconNodeError>),
    /// The slashing protection was asked whether a block is safe to sign.
    SafetyCheck(BeaconBlock, bool),
    /// The slashing protection was told to record a block.
    Record(BeaconBlock),
    /// The beacon node was asked to publish a block.
    Publication(BeaconBlock, Result<PublishOutcome, BeaconNodeError>),
}

/// Whether `slot` is done with for a producer whose last processed slot is `last`.
pub open spec fn is_processed(last: Option<Slot>, slot: Slot) -> bool {
    last matches Some(processed) && processed@ >= slot@
}

/// `a` is not later than `b`, where `None` comes before every slot.
pub open spec fn not_later(a: Option<Slot>, b: Option<Slot>) -> bool {
    a matches Some(x) ==> (b matches Some(y) && x@ <= y@)
}

/// A reading of the clock without the cause of its failure.
pub open spec fn reading_without_cause<E>(reading: Result<Option<Slot>, E>) -> Result<
    Option<Slot>,
    (),
> {
    match reading {
        Err(_) => Err(()),
        Ok(slot) => Ok(slot),
    }
}

/// The slot that a reading of the clock gives, or the failure that it stands for.
pub open spec fn reading_result<E>(reading: Result<Option<Slot>, E>) -> Result<Slot, Error> {
    match reading {
        Err(_) => Err(Error::SlotClockError),
        Ok(None) => Err(Error::SlotUnknowable),
        Ok(Some(slot)) => Ok(slot),
    }
}

/// How a poll in `slot` ends on the answer of the duties reader, if it ends
/// there: `None` where a block is due and production begins.
pub open spec fn duty_result(slot: Slot, duty: Result<bool, DutiesReaderError>) -> Option<
    Result<PollOutcome, Error>,
> {
    match duty {
        Ok(true) => None,
        Ok(false) => Some(Ok(PollOutcome::BlockProductionNotRequired(slot))),
        Err(DutiesReaderError::UnknownEpoch) => Some(Ok(PollOutcome::ProducerDutiesUnknown(slot))),
        Err(DutiesReaderError::UnknownValidator) => Some(
            Ok(PollOutcome::ValidatorIsUnknown(slot)),
        ),
        Err(DutiesReaderError::EpochLengthIsZero) => Some(Err(Error::EpochLengthIsZero)),
        Err(DutiesReaderError::Poisoned) => Some(Err(Error::EpochMapPoisoned)),
    }
}

/// How production ends once the beacon node has answered the request to publish.
pub open spec fn publication_result(
    slot: Slot,
    publication: Result<PublishOutcome, BeaconNodeError>,
) -> Result<PollOutcome, Error> {
    match publication {
        Err(e) => Err(Error::BeaconNodeError(e)),
        Ok(_) => Ok(PollOutcome::BlockProduced(slot)),
    }
}

/// How the production of a block for `slot` ends on the given answers.
pub open spec fn production_result(slot: Slot, answers: ProductionAnswers) -> Result<
    PollOutcome,
    Error,
> {
    match answers.nonce {
        Err(e) => Err(Error::BeaconNodeError(e)),
        Ok(_) => match answers.randao_reveal {
            None => Ok(PollOutcome::SignerRejection(slot)),
            Some(_) => match answers.candidate {
                Err(e) => Err(Error::BeaconNodeError(e)),
                Ok(None) => Ok(PollOutcome::BeaconNodeUnableToProduceBlock(slot)),
                Ok(Some(_)) => if !answers.safe {
                    Ok(PollOutcome::SlashableBlockNotProduced(slot))
                } else {
                    match answers.signature {
                        None => Ok(PollOutcome::SignerRejection(slot)),
                        Some(_) => publication_result(slot, answers.publication),
                    }
                },
            },
        },
    }
}

/// The message that a proposer with nonce `nonce` signs as its RANDAO reveal:
/// the nonce in eight bytes, least significant first.
pub open spec fn randao_message_of(nonce: u64) -> Seq<u8> {
    spec_u64_to_le_bytes(nonce)
}

/// The exchanges in the production of a block for `slot`, by the validator
/// with key `pubkey`, in their order. Each exchange is handed what the
/// exchanges before it brought: the signer is shown the nonce that the node
/// gave, the node is handed the reveal that the signer made, the slashing
/// protection is shown the candidate that the node assembled, the signer is
/// shown the root of that candidate, and the node is asked to publish that
/// candidate under the signature that the signer made.
pub open spec fn production_exchanges(
    slot: Slot,
    pubkey: PublicKey,
    answers: ProductionAnswers,
) -> Seq<Exchange> {
    let asked_nonce = seq![Exchange::Nonce(pubkey, answers.nonce)];
    match (answers.nonce, answers.randao_reveal, answers.candidate) {
        (Err(_), _, _) => asked_nonce,
        (Ok(nonce), None, _) => asked_nonce.push(
            Exchange::Signing(randao_message_of(nonce), answers.randao_reveal),
        ),
        (Ok(nonce), Some(randao_reveal), Ok(Some(block))) => asked_nonce.push(
            Exchange::Signing(randao_message_of(nonce), answers.randao_reveal),
        ).push(Exchange::Candidate(slot, randao_reveal, answers.candidate))
            + signing_exchanges(block, answers),
        (Ok(nonce), Some(randao_reveal), _) => asked_nonce.push(
            Exchange::Signing(randao_message_of(nonce), answers.randao_reveal),
        ).push(Exchange::Candidate(slot, randao_reveal, answers.candidate)),
    }
}

/// The exchanges in the production of a block from the moment the beacon node
/// has handed over the candidate `block`.
pub open spec fn signing_exchanges(block: BeaconBlock, answers: ProductionAnswers) -> Seq<
    Exchange,
> {
    let checked = seq![Exchange::SafetyCheck(block, answers.safe)];
    if !answers.safe {
        checked
    } else {
        let asked_signature = checked.push(Exchange::Record(block)).push(
            Exchange::Signing(block.proposal_root@, answers.signature),
        );
        match answers.signature {
            None => asked_signature,
            Some(signature) => asked_signature.push(
                Exchange::Publication(BeaconBlock { signature, ..block }, answers.publication),
            ),
        }
    }
}

/// Whether production gets as far as asking the beacon node to publish.
pub open spec fn reaches_publication(answers: ProductionAnswers) -> bool {
    &&& answers.nonce is Ok
    &&& answers.randao_reveal is Some
    &&& answers.candidate matches Ok(Some(_))
    &&& answers.safe
    &&& answers.signature is Some
}

/// Whether a poll on the given answers starts the production of a block.
pub open spec fn starts_production(last: Option<Slot>, answers: Answers) -> bool {
    answers.present_slot matches Ok(Some(slot)) && !is_processed(last, slot) && answers.duty
        == Ok::<bool, DutiesReaderError>(true)
}

/// What a poll returns, for a producer whose last processed slot is `last`.
pub open spec fn poll_result(last: Option<Slot>, answers: Answers) -> Result<PollOutcome, Error> {
    match reading_result(answers.present_slot) {
        Err(e) => Err(e),
        Ok(slot) => if is_processed(last, slot) {
            Ok(PollOutcome::SlotAlreadyProcessed(slot))
        } else {
            match duty_result(slot, answers.duty) {
                Some(result) => result,
                None => production_result(slot, answers.production),
            }
        },
    }
}

/// The last processed slot after a poll, for a producer whose last processed
/// slot was `last`: the present slot where the poll started production, and
/// `last` where it did not.
pub open spec fn poll_state(last: Option<Slot>, answers: Answers) -> Option<Slot> {
    match answers.present_slot {
        Ok(Some(slot)) if starts_production(last, answers) => Some(slot),
        _ => last,
    }
}

/// The exchanges of a poll, in their order, for a producer whose last
/// processed slot is `last` and whose validator has the key `pubkey`: the
/// reading of the clock; then, for a slot that is not yet processed, the
/// question to the duties reader; then, where a block is due, the exchanges
/// of production.
pub open spec fn poll_exchanges(last: Option<Slot>, pubkey: PublicKey, answers: Answers) -> Seq<
    Exchange,
> {
    let read_clock = seq![Exchange::PresentSlot(answers.present_slot)];
    match answers.present_slot {
        Ok(Some(slot)) if !is_processed(last, slot) => {
            let asked_duty = read_clock.push(Exchange::Duty(slot, answers.duty));
            if starts_production(last, answers) {
                asked_duty + production_exchanges(slot, pubkey, answers.production)
            } else {
                asked_duty
            }
        },
        _ => read_clock,
    }
}

/// The last processed slot after a run of polls, one for each entry of `run`.
pub open spec fn state_after(last: Option<Slot>, run: Seq<Answers>) -> Option<Slot>
    decreases run.len(),
{
    if run.len() == 0 {
        last
    } else {
        poll_state(state_after(last, run.drop_last()), run.last())
    }
}

/// Polling twice does not produce twice: once a poll has ended with an outcome
/// that settles slot `s` (a block was produced, production was given up, or
/// the slot had been processed before), every later poll that reads a slot
/// `s_now` not after `s` returns `SlotAlreadyProcessed(s_now)`, whatever the
/// other collaborators would answer, leaves the state as it is, and asks
/// nothing of anyone but the clock.
pub proof fn lemma_poll_idempotent(
    last: Option<Slot>,
    pubkey: PublicKey,
    first: Answers,
    second: Answers,
    s_now: Slot,
)
    requires
        poll_result(last, first) matches Ok(outcome) && outcome.settles_slot(),
        second.present_slot == Ok::<Option<Slot>, ()>(Some(s_now)),
        s_now@ <= poll_result(last, first)->Ok_0.slot()@,
    ensures
        poll_result(poll_state(last, first), second) == Ok::<PollOutcome, Error>(
            PollOutcome::SlotAlreadyProcessed(s_now),
        ),
        poll_state(poll_state(last, first), second) == poll_state(last, first),
        poll_exchanges(poll_state(last, first), pubkey, second) == seq![
            Exchange::PresentSlot(second.present_slot),
        ],
{
}

/// A slot is not tried again after a failure of the beacon node: once a poll
/// that read slot `s` has ended with `Error::BeaconNodeError`, every later poll
/// that reads a slot `s_now` not after `s` returns
/// `SlotAlreadyProcessed(s_now)` and leaves the state as it is.
pub proof fn lemma_no_retry_after_node_failure(
    last: Option<Slot>,
    first: Answers,
    second: Answers,
    s: Slot,
    s_now: Slot,
)
    requires
        first.present_slot == Ok::<Option<Slot>, ()>(Some(s)),
        poll_result(last, first) matches Err(Error::BeaconNodeError(_)),
        second.present_slot == Ok::<Option<Slot>, ()>(Some(s_now)),
        s_now@ <= s@,
    ensures
        poll_result(poll_state(last, first), second) == Ok::<PollOutcome, Error>(
            PollOutcome::SlotAlreadyProcessed(s_now),
        ),
        poll_state(poll_state(last, first), second) == poll_state(last, first),
{
}

/// The last processed slot never moves back in a poll.
pub proof fn lemma_poll_monotonic(last: Option<Slot>, answers: Answers)
    ensures
        not_later(last, poll_state(last, answers)),
{
}

/// The last processed slot never moves back, across any run of polls.
pub proof fn lemma_polls_monotonic(last: Option<Slot>, run: Seq<Answers>)
    ensures
        not_later(last, state_after(last, run)),
    decreases run.len(),
{
    if run.len() > 0 {
        lemma_polls_monotonic(last, run.drop_last());
        lemma_poll_monotonic(state_after(last, run.drop_last()), run.last());
    }
}

/// What the result of a poll tells about the state. A poll that reports its
/// slot as already processed found it so and changes nothing. Every other
/// poll that ends with a decision found its slot not yet processed: if the
/// decision settles the slot, the slot is the new state, and otherwise the
/// state is as it was. A poll that ends with a failure of the beacon node has
/// moved the state to the slot it read, and a poll that ends with any other
/// failure changes nothing.
pub proof fn lemma_poll_state_by_result(last: Option<Slot>, answers: Answers)
    ensures
        match poll_result(last, answers) {
            Ok(PollOutcome::SlotAlreadyProcessed(slot)) => is_processed(last, slot) && poll_state(
                last,
                answers,
            ) == last,
            Ok(outcome) => !is_processed(last, outcome.slot()) && poll_state(last, answers) == (
            if outcome.settles_slot() {
                Some(outcome.slot())
            } else {
                last
            }),
            Err(Error::BeaconNodeError(_)) => starts_production(last, answers) && poll_state(
                last,
                answers,
            ) == Some(answers.present_slot->Ok_0->Some_0),
            Err(_) => poll_state(last, answers) == last,
        },
        starts_production(last, answers) <==> poll_state(last, answers) != last,
{
}

/// Each failure of a poll, with the answers on which it comes: a clock that
/// fails, a clock that knows no slot, a duties reader that reports epochs of
/// no slots or corrupt state for a slot not yet processed, and a beacon node
/// that fails during production. No poll reports a poisoned clock.
pub proof fn lemma_poll_failures(last: Option<Slot>, answers: Answers)
    ensures
        poll_result(last, answers) == Err::<PollOutcome, Error>(Error::SlotClockError)
            <==> answers.present_slot is Err,
        poll_result(last, answers) == Err::<PollOutcome, Error>(Error::SlotUnknowable)
            <==> answers.present_slot == Ok::<Option<Slot>, ()>(None),
        poll_result(last, answers) == Err::<PollOutcome, Error>(Error::EpochLengthIsZero) <==> (
        answers.present_slot matches Ok(Some(slot)) && !is_processed(last, slot) && answers.duty
            == Err::<bool, DutiesReaderError>(DutiesReaderError::EpochLengthIsZero)),
        poll_result(last, answers) == Err::<PollOutcome, Error>(Error::EpochMapPoisoned) <==> (
        answers.present_slot matches Ok(Some(slot)) && !is_processed(last, slot) && answers.duty
            == Err::<bool, DutiesReaderError>(DutiesReaderError::Poisoned)),
        poll_result(last, answers) matches Err(Error::BeaconNodeError(_)) <==> (starts_production(
            last,
            answers,
        ) && production_result(answers.present_slot->Ok_0->Some_0, answers.production) is Err),
        poll_result(last, answers) != Err::<PollOutcome, Error>(Error::SlotClockPoisoned),
{
}

/// How production ends, by how far it gets. It ends with `BlockProduced`
/// exactly where it reaches publication and the beacon node does not fail
/// there, and it reaches publication only with a candidate that was found
/// safe and then signed. It ends with `SlashableBlockNotProduced` exactly
/// where the slashing protection finds the candidate unsafe. Whatever
/// decision it ends with settles the slot.
pub proof fn lemma_production_results(slot: Slot, answers: ProductionAnswers)
    ensures
        reaches_publication(answers) ==> answers.safe && production_result(slot, answers)
            == publication_result(slot, answers.publication),
        production_result(slot, answers) == Ok::<PollOutcome, Error>(
            PollOutcome::BlockProduced(slot),
        ) <==> reaches_publication(answers) && answers.publication is Ok,
        production_result(slot, answers) == Ok::<PollOutcome, Error>(
            PollOutcome::SlashableBlockNotProduced(slot),
        ) <==> answers.nonce is Ok && answers.randao_reveal is Some && (answers.candidate matches Ok(
            Some(_),
        )) && !answers.safe,
        production_result(slot, answers) matches Ok(outcome) ==> outcome.slot() == slot
            && outcome.settles_slot(),
{
}

/// No block is published that the slashing protection did not find safe, and
/// none that the signer did not sign. Production asks the beacon node to
/// publish at most once, as its last exchange, and only where it reaches
/// publication. The block it hands over is then the candidate of the beacon
/// node with the signature that the signer gave over its root, and the
/// exchanges before that one hold the safety check on that candidate, with
/// the answer that it is safe, and its record. Where the candidate is found
/// unsafe, the safety check is the last exchange: nothing is recorded, signed
/// or published.
pub proof fn lemma_publication_only_after_safety(
    slot: Slot,
    pubkey: PublicKey,
    answers: ProductionAnswers,
)
    ensures
        forall|i: int|
            0 <= i < production_exchanges(slot, pubkey, answers).len() && (
            #[trigger] production_exchanges(slot, pubkey, answers)[i]) is Publication ==> {
                &&& reaches_publication(answers)
                &&& i == production_exchanges(slot, pubkey, answers).len() - 1
                &&& i == 6
                &&& production_exchanges(slot, pubkey, answers)[i] == Exchange::Publication(
                    BeaconBlock {
                        signature: answers.signature->Some_0,
                        ..answers.candidate->Ok_0->Some_0
                    },
                    answers.publication,
                )
                &&& production_exchanges(slot, pubkey, answers)[3] == Exchange::SafetyCheck(
                    answers.candidate->Ok_0->Some_0,
                    true,
                )
                &&& production_exchanges(slot, pubkey, answers)[4] == Exchange::Record(
                    answers.candidate->Ok_0->Some_0,
                )
                &&& production_exchanges(slot, pubkey, answers)[5] == Exchange::Signing(
                    answers.candidate->Ok_0->Some_0.proposal_root@,
                    answers.signature,
                )
            },
        reaches_publication(answers) ==> production_exchanges(slot, pubkey, answers).len() == 7
            && production_exchanges(slot, pubkey, answers)[6] is Publication,
        production_result(slot, answers) == Ok::<PollOutcome, Error>(
            PollOutcome::SlashableBlockNotProduced(slot),
        ) ==> production_exchanges(slot, pubkey, answers).len() == 4 && production_exchanges(
            slot,
            pubkey,
            answers,
        ).last() == Exchange::SafetyCheck(answers.candidate->Ok_0->Some_0, false),
{
}

} // verus!

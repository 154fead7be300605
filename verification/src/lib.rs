//! The block-production duty of a validator, with the units of time it runs on.
pub mod beacon_block;
pub mod block_producer;
pub mod codec;
pub mod crosslink;
pub mod hash256;
pub mod protocol;
pub mod slot_epoch;
pub mod traits;

pub use crate::beacon_block::BeaconBlock;
pub use crate::beacon_block::PublicKey;
pub use crate::beacon_block::Signature;
pub use crate::block_producer::BlockProducer;
pub use crate::block_producer::Error;
pub use crate::block_producer::PollOutcome;
pub use crate::crosslink::Crosslink;
pub use crate::hash256::Hash256;
pub use crate::slot_epoch::Epoch;
pub use crate::slot_epoch::Slot;
pub use crate::slot_epoch::SlotIter;
pub use crate::traits::AlwaysSafe;
pub use crate::traits::BeaconNode;
pub use crate::traits::BeaconNodeError;
pub use crate::traits::DutiesReader;
pub use crate::traits::DutiesReaderError;
pub use crate::traits::PublishOutcome;
pub use crate::traits::Signer;
pub use crate::traits::SlashingProtection;
pub use crate::traits::SlotClock;

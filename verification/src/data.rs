//! The data an authoring attempt works on.
//!
//! Hashes, headers and validation data are carried as plain values: a hash
//! is its bytes, a header is the pair of its hash and its number.  Block and
//! proof are type parameters: the orchestration never looks inside them, it
//! only hands them through.

use crate::inherent::InherentDataBag;
use crate::slots::SlotWindow;
use vstd::prelude::*;

verus! {

/// A block header, reduced to what an attempt reads of it: the header's own
/// hash and its block number.
pub struct Header {
    /// Hash of this header.
    pub hash: Vec<u8>,
    /// Number of the block this header belongs to.
    pub number: u64,
}

/// The validation data the primary chain persisted for the chain being
/// authored: the facts a candidate must be anchored to.
pub struct ValidationData {
    /// Encoded head of the chain being authored, as the primary chain saw it.
    pub parent_head: Vec<u8>,
    /// Number of the primary-chain block the data was taken at.
    pub relay_parent_number: u32,
    /// Storage root of that primary-chain block.
    pub relay_parent_storage_root: Vec<u8>,
    /// Largest proof size the primary chain accepts.
    pub max_pov_size: u32,
}

/// What anchors one attempt to the primary chain: the hash of the
/// primary-chain block the attempt builds on, and the validation data
/// persisted there.  Supplied per attempt by the caller; read-only.
pub struct RelayContext {
    /// Hash of the primary-chain block the attempt builds on.
    pub relay_parent_hash: Vec<u8>,
    /// Validation data persisted at that block.
    pub validation_data: ValidationData,
}

/// Everything one authoring attempt runs on.  Constructed fresh per attempt,
/// immutable thereafter, owned solely by that attempt.
pub struct SlotDescriptor {
    /// Index of the slot the attempt falls into.
    pub slot_index: u64,
    /// Width of one slot, in milliseconds.
    pub duration_ms: u64,
    /// The environment facts the block must embed.
    pub inherent_data: InherentDataBag,
    /// Head of the chain the block is built on.
    pub chain_head: Header,
    /// The wall-clock instant the attempt started at, in milliseconds.
    pub timestamp_ms: u64,
    /// The instant the attempt's budget runs out at, in milliseconds.
    pub deadline_ms: u64,
}

/// A produced candidate: the block and the proof of its state transition.
/// Produced at most once per successful attempt; ownership passes to the
/// caller.
pub struct Candidate<Block, Proof> {
    /// The proposed block.
    pub block: Block,
    /// The proof recorded while building it.
    pub proof: Proof,
}

/// The descriptor an attempt with window `window` over `chain_head` runs on,
/// once its inherent data is in hand.
pub open spec fn spec_slot_descriptor(
    window: SlotWindow,
    duration_ms: u64,
    inherent_data: InherentDataBag,
    chain_head: Header,
) -> SlotDescriptor {
    (SlotDescriptor {
        slot_index: window.slot_index,
        duration_ms: duration_ms,
        inherent_data: inherent_data,
        chain_head: chain_head,
        timestamp_ms: window.timestamp_ms,
        deadline_ms: window.deadline_ms,
    })
}

/// Builds the descriptor for one attempt.
pub fn build_slot_descriptor(
    window: SlotWindow,
    duration_ms: u64,
    inherent_data: InherentDataBag,
    chain_head: Header,
) -> (descriptor: SlotDescriptor)
    ensures
        descriptor == spec_slot_descriptor(window, duration_ms, inherent_data, chain_head),
{
    SlotDescriptor {
        slot_index: window.slot_index,
        duration_ms: duration_ms,
        inherent_data: inherent_data,
        chain_head: chain_head,
        timestamp_ms: window.timestamp_ms,
        deadline_ms: window.deadline_ms,
    }
}

} // verus!

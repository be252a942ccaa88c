//! The capabilities the host plugs in.
//!
//! Candidate production consumes three external capabilities: a factory
//! that builds a per-attempt provider set, the provider set itself, and the
//! long-lived authoring engine.  Each is a trait the host implements; their
//! behaviour is theirs alone, and the orchestration promises nothing about
//! what they answer — only about what it does with the answer.

use crate::data::{RelayContext, SlotDescriptor};
use crate::inherent::InherentDataBag;
use vstd::prelude::*;

verus! {

/// Builds a per-attempt provider set for a parent hash and a relay context.
/// Logically stateless; may fail with a provider-specific cause.
pub trait InherentDataProviderFactory<Providers> {
    /// Asks for the provider set of one attempt.
    fn create_inherent_data_providers(
        &self,
        parent_hash: &Vec<u8>,
        relay: &RelayContext,
    ) -> Result<Providers, String>;
}

/// A per-attempt provider set: materializes the inherent data bag once.
/// May fail with a provider-specific cause.
pub trait InherentDataProviders {
    /// Materializes the environment facts of this attempt.
    fn create_inherent_data(&self) -> Result<InherentDataBag, String>;
}

/// The long-lived, stateful authoring capability: asked once per attempt to
/// author for a slot, it answers with a block and its proof, or with
/// nothing when it declines or fails.
pub trait AuthoringEngine<Block, Proof> {
    /// Attempts to author for the given slot.
    fn on_slot(&mut self, descriptor: SlotDescriptor) -> Option<(Block, Proof)>;
}

} // verus!

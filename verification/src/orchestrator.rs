//! Candidate production behind one public operation.
//!
//! [`AuraConsensus`] owns the provider factory and, behind an
//! exclusive-access handle, the authoring engine.  Its
//! [`produce_candidate`](AuraConsensus::produce_candidate) runs one attempt
//! of the [`crate::machine`] conversation from beginning to end: slot
//! window, inherent data, authoring.  Every unavailability collapses into
//! "no candidate"; nothing is raised.

use crate::data::{Candidate, Header, RelayContext, SlotDescriptor, ValidationData};
use crate::inherent::InherentDataBag;
use crate::machine::{AttemptAction, AttemptEvent, AttemptMachine, AttemptOutcome};
use crate::ports::{AuthoringEngine, InherentDataProviderFactory, InherentDataProviders};
use vstd::pervasive::unreached;
use vstd::prelude::*;

verus! {

/// Exclusive-access handle around the one shared authoring engine.
///
/// The handle owns the engine for its lifetime; an attempt reaches the
/// engine only through [`attempt`](AuthoringHandle::attempt), which takes
/// the handle exclusively, so no two attempts are ever inside the engine at
/// once.  The handle also counts the calls the engine has received.
pub struct AuthoringHandle<Engine> {
    engine: Engine,
    attempts: u64,
}

impl<Engine> AuthoringHandle<Engine> {
    /// How many authoring calls the engine has received through this handle.
    pub closed spec fn attempts(&self) -> u64 {
        self.attempts
    }

    /// The engine the handle owns.
    pub closed spec fn spec_engine(&self) -> Engine {
        self.engine
    }

    /// Takes sole ownership of the engine.
    pub fn new(engine: Engine) -> (handle: AuthoringHandle<Engine>)
        ensures
            handle.attempts() == 0,
            handle.spec_engine() == engine,
    {
        AuthoringHandle { engine, attempts: 0 }
    }

    /// Reads the number of authoring calls made so far.
    pub fn attempt_count(&self) -> (count: u64)
        ensures
            count == self.attempts(),
    {
        self.attempts
    }

    /// Dissolves the handle and gives the engine back.
    pub fn into_engine(self) -> (engine: Engine)
        ensures
            engine == self.spec_engine(),
    {
        self.engine
    }

    /// Holds the engine's execution right for exactly one authoring call and
    /// passes its answer through.  The descriptor's deadline is advisory
    /// here: the engine itself is responsible for respecting its budget.
    pub fn attempt<Block, Proof>(&mut self, descriptor: SlotDescriptor) -> (answer: Option<
        (Block, Proof),
    >) where Engine: AuthoringEngine<Block, Proof>
        requires
            old(self).attempts() < u64::MAX,
        ensures
            final(self).attempts() == old(self).attempts() + 1,
    {
        self.attempts = self.attempts + 1;
        self.engine.on_slot(descriptor)
    }
}

/// Relay-anchored, slot-cadenced candidate production.
pub struct AuraConsensus<Factory, Engine> {
    inherent_data_provider_factory: Factory,
    authoring: AuthoringHandle<Engine>,
    slot_duration_ms: u64,
    attempt_budget_ms: u64,
}

impl<Factory, Engine> AuraConsensus<Factory, Engine> {
    /// Width of one slot, in milliseconds.
    pub closed spec fn slot_duration(&self) -> u64 {
        self.slot_duration_ms
    }

    /// Time budget of one attempt, in milliseconds.
    pub closed spec fn attempt_budget(&self) -> u64 {
        self.attempt_budget_ms
    }

    /// How many calls the authoring engine has received.
    pub closed spec fn authoring_attempts(&self) -> u64 {
        self.authoring.attempts()
    }

    /// The provider factory the instance owns.
    pub closed spec fn spec_factory(&self) -> Factory {
        self.inherent_data_provider_factory
    }

    /// Well-formedness: slots have a positive width.
    pub open spec fn wf(&self) -> bool {
        self.slot_duration() > 0
    }

    /// Creates a new instance over a provider factory and an authoring
    /// engine, with the given slot duration and attempt budget.
    pub fn new(
        inherent_data_provider_factory: Factory,
        authoring_engine: Engine,
        slot_duration_ms: u64,
        attempt_budget_ms: u64,
    ) -> (consensus: AuraConsensus<Factory, Engine>)
        requires
            slot_duration_ms > 0,
        ensures
            consensus.wf(),
            consensus.slot_duration() == slot_duration_ms,
            consensus.attempt_budget() == attempt_budget_ms,
            consensus.authoring_attempts() == 0,
            consensus.spec_engine() == authoring_engine,
            consensus.spec_factory() == inherent_data_provider_factory,
    {
        AuraConsensus {
            inherent_data_provider_factory,
            authoring: AuthoringHandle::new(authoring_engine),
            slot_duration_ms,
            attempt_budget_ms,
        }
    }

    /// Reads the number of calls the authoring engine has received.
    pub fn authoring_attempt_count(&self) -> (count: u64)
        ensures
            count == self.authoring_attempts(),
    {
        self.authoring.attempt_count()
    }

    /// Asks the factory for this attempt's provider set and the set for its
    /// inherent data, absorbing either failure into `None` through
    /// [`absorb_failure`]: a transient environmental-data outage must not
    /// end the authoring loop, and a materialized bag is handed back
    /// exactly as the provider set built it.  The causes of a failure are
    /// reported by [`run_attempt`](AuraConsensus::run_attempt), which
    /// callers wanting them should use instead.
    pub fn inherent_data<Providers>(
        &self,
        parent_hash: &Vec<u8>,
        relay: &RelayContext,
    ) -> Option<InherentDataBag> where
        Factory: InherentDataProviderFactory<Providers>,
        Providers: InherentDataProviders,
    {
        let created = self.inherent_data_provider_factory.create_inherent_data_providers(
            parent_hash,
            relay,
        );
        match absorb_failure(created) {
            Some(providers) => absorb_failure(providers.create_inherent_data()),
            None => None,
        }
    }

    /// The engine the instance owns.
    pub closed spec fn spec_engine(&self) -> Engine {
        self.authoring.spec_engine()
    }

    /// Tears the instance down and gives the authoring engine back.
    pub fn into_engine(self) -> (engine: Engine)
        ensures
            engine == self.spec_engine(),
    {
        self.authoring.into_engine()
    }

    /// Runs one whole authoring attempt and reports how it ended.
    ///
    /// The outcome says exactly when the engine was reached: an attempt
    /// skipped for provider creation or inherent data leaves the engine
    /// untouched; a produced candidate or a declined attempt means exactly
    /// one engine call.
    pub fn run_attempt<Providers, Block, Proof>(
        &mut self,
        parent_header: Header,
        relay_parent_hash: Vec<u8>,
        validation_data: ValidationData,
        now_ms: u64,
    ) -> (outcome: AttemptOutcome<Block, Proof>) where
        Factory: InherentDataProviderFactory<Providers>,
        Providers: InherentDataProviders,
        Engine: AuthoringEngine<Block, Proof>,

        requires
            old(self).wf(),
            now_ms + old(self).attempt_budget() <= u64::MAX,
            old(self).authoring_attempts() < u64::MAX,
        ensures
            final(self).wf(),
            final(self).slot_duration() == old(self).slot_duration(),
            final(self).attempt_budget() == old(self).attempt_budget(),
            final(self).spec_factory() == old(self).spec_factory(),
            outcome is SkippedProviderCreation ==> final(self).authoring_attempts() == old(
                self,
            ).authoring_attempts(),
            outcome is SkippedInherentData ==> final(self).authoring_attempts() == old(
                self,
            ).authoring_attempts(),
            outcome is Produced ==> final(self).authoring_attempts() == old(
                self,
            ).authoring_attempts() + 1,
            outcome is EngineDeclined ==> final(self).authoring_attempts() == old(
                self,
            ).authoring_attempts() + 1,
    {
        let (machine, _action) = AttemptMachine::<Block, Proof>::begin(
            parent_header,
            now_ms,
            self.slot_duration_ms,
            self.attempt_budget_ms,
        );
        let relay = RelayContext { relay_parent_hash, validation_data };
        let created = self.inherent_data_provider_factory.create_inherent_data_providers(
            machine.chain_head_hash(),
            &relay,
        );
        match created {
            Err(cause) => {
                let (finished, _) = machine.step(AttemptEvent::ProvidersFailed(cause));
                finished.into_outcome()
            },
            Ok(providers) => {
                let (awaiting_data, _action) = machine.step(AttemptEvent::ProvidersCreated);
                match providers.create_inherent_data() {
                    Err(cause) => {
                        let (finished, _) = awaiting_data.step(
                            AttemptEvent::InherentDataFailed(cause),
                        );
                        finished.into_outcome()
                    },
                    Ok(inherent_data) => {
                        let (awaiting_authoring, action) = awaiting_data.step(
                            AttemptEvent::InherentDataReady(inherent_data),
                        );
                        match action {
                            AttemptAction::Author(descriptor) => {
                                let answer = self.authoring.attempt(descriptor);
                                let (finished, _) = awaiting_authoring.step(
                                    AttemptEvent::AuthoringResolved(answer),
                                );
                                finished.into_outcome()
                            },
                            _ => unreached(),
                        }
                    },
                }
            },
        }
    }

    /// Attempts to produce a candidate for `parent_header`, anchored to the
    /// primary-chain block `relay_parent_hash` with its persisted
    /// `validation_data`, at wall-clock instant `now_ms`.
    ///
    /// Returns the produced candidate, or nothing when any phase of the
    /// attempt was unavailable: the round is skipped, never escalated.  A
    /// candidate is returned only for an attempt that actually reached the
    /// engine, and one invocation reaches the engine at most once.
    pub fn produce_candidate<Providers, Block, Proof>(
        &mut self,
        parent_header: Header,
        relay_parent_hash: Vec<u8>,
        validation_data: ValidationData,
        now_ms: u64,
    ) -> (candidate: Option<Candidate<Block, Proof>>) where
        Factory: InherentDataProviderFactory<Providers>,
        Providers: InherentDataProviders,
        Engine: AuthoringEngine<Block, Proof>,

        requires
            old(self).wf(),
            now_ms + old(self).attempt_budget() <= u64::MAX,
            old(self).authoring_attempts() < u64::MAX,
        ensures
            final(self).wf(),
            final(self).slot_duration() == old(self).slot_duration(),
            final(self).attempt_budget() == old(self).attempt_budget(),
            final(self).spec_factory() == old(self).spec_factory(),
            final(self).authoring_attempts() <= old(self).authoring_attempts() + 1,
            candidate is Some ==> final(self).authoring_attempts() == old(
                self,
            ).authoring_attempts() + 1,
    {
        let outcome = self.run_attempt(parent_header, relay_parent_hash, validation_data, now_ms);
        candidate_of_outcome(outcome)
    }
}

/// The assembler's absorption rule, applied to one fallible phase: a
/// failure becomes `None` and goes no further, and a success hands its
/// value through exactly as it came.
pub fn absorb_failure<Value>(result: Result<Value, String>) -> (absorbed: Option<Value>)
    ensures
        result matches Ok(value) ==> absorbed == Some(value),
        result is Err ==> absorbed is None,
{
    match result {
        Ok(value) => Some(value),
        Err(_cause) => None,
    }
}

/// The candidate an outcome carries: exactly the produced one, nothing for
/// a skipped or declined attempt.
pub fn candidate_of_outcome<Block, Proof>(outcome: AttemptOutcome<Block, Proof>) -> (candidate:
    Option<Candidate<Block, Proof>>)
    ensures
        outcome matches AttemptOutcome::Produced(produced) ==> candidate == Some(produced),
        !(outcome is Produced) ==> candidate is None,
{
    match outcome {
        AttemptOutcome::Produced(produced) => Some(produced),
        _ => None,
    }
}

/// Everything [`build_aura_consensus`] needs.
pub struct BuildAuraConsensusParams<Factory, Engine> {
    /// Builds the per-attempt provider sets.
    pub inherent_data_provider_factory: Factory,
    /// The one long-lived authoring engine, already wired to its proposer,
    /// import sink, sync oracle, backoff strategy and key store.
    pub authoring_engine: Engine,
    /// Width of one slot, in milliseconds.
    pub slot_duration_ms: u64,
    /// Time budget of one attempt, in milliseconds.
    pub attempt_budget_ms: u64,
}

/// One-time wiring: constructs exactly one [`AuraConsensus`] owning exactly
/// one authoring engine.
pub fn build_aura_consensus<Factory, Engine>(
    params: BuildAuraConsensusParams<Factory, Engine>,
) -> (consensus: AuraConsensus<Factory, Engine>)
    requires
        params.slot_duration_ms > 0,
    ensures
        consensus.wf(),
        consensus.slot_duration() == params.slot_duration_ms,
        consensus.attempt_budget() == params.attempt_budget_ms,
        consensus.authoring_attempts() == 0,
        consensus.spec_engine() == params.authoring_engine,
        consensus.spec_factory() == params.inherent_data_provider_factory,
{
    AuraConsensus::new(
        params.inherent_data_provider_factory,
        params.authoring_engine,
        params.slot_duration_ms,
        params.attempt_budget_ms,
    )
}

} // verus!

//! The per-attempt orchestration machine.
//!
//! One authoring attempt is a short conversation with three asynchronous
//! capabilities: a provider factory is asked for a provider set, the set is
//! asked to materialize the inherent data, and the authoring engine is asked
//! to author for the slot.  The machine holds the decisions of that
//! conversation: the host performs each emitted [`AttemptAction`], feeds the
//! result back as an [`AttemptEvent`], and the machine says what to do next.
//! Every failure is absorbed into a finished, skipped attempt; nothing is
//! raised further.

use crate::data::{Candidate, Header, SlotDescriptor, spec_slot_descriptor, build_slot_descriptor};
use crate::inherent::InherentDataBag;
use crate::slots::{SlotWindow, slot_window_at, spec_slot_window};
use vstd::pervasive::unreached;
use vstd::prelude::*;

verus! {

/// What a capability answered: the result of the action the machine asked
/// the host to perform.
pub enum AttemptEvent<Block, Proof> {
    /// The provider factory yielded a provider set.
    ProvidersCreated,
    /// The provider factory failed; the cause is carried for the operator.
    ProvidersFailed(String),
    /// The provider set materialized the inherent data.
    InherentDataReady(InherentDataBag),
    /// The provider set failed; the cause is carried for the operator.
    InherentDataFailed(String),
    /// The authoring engine resolved: a block and its proof, or nothing.
    AuthoringResolved(Option<(Block, Proof)>),
}

/// What the host must do next.
pub enum AttemptAction {
    /// Ask the provider factory for a provider set.
    CreateProviders,
    /// Ask the provider set to materialize the inherent data.
    CreateInherentData,
    /// Acquire the engine's execution right and author for this descriptor.
    Author(SlotDescriptor),
    /// The attempt is over; nothing is left to do.
    Stop,
}

/// How an attempt ended.
pub enum AttemptOutcome<Block, Proof> {
    /// The engine authored a block; here is the candidate.
    Produced(Candidate<Block, Proof>),
    /// No candidate: the provider factory could not build a provider set.
    SkippedProviderCreation(String),
    /// No candidate: the provider set could not materialize its data.
    SkippedInherentData(String),
    /// No candidate: the engine declined or failed to author.
    EngineDeclined,
}

/// The state of one authoring attempt.
pub enum AttemptMachine<Block, Proof> {
    /// Waiting for the provider factory.
    AwaitingProviders { window: SlotWindow, duration_ms: u64, chain_head: Header },
    /// Waiting for the provider set to materialize the inherent data.
    AwaitingInherentData { window: SlotWindow, duration_ms: u64, chain_head: Header },
    /// Waiting for the authoring engine.
    AwaitingAuthoring,
    /// The attempt is over.
    Finished(AttemptOutcome<Block, Proof>),
}

/// The machine's whole transition function: state and event in, state and
/// action out.  An event that does not answer the pending action leaves the
/// state as it was, with nothing to do; a finished attempt stays finished.
pub open spec fn attempt_transition<Block, Proof>(
    machine: AttemptMachine<Block, Proof>,
    event: AttemptEvent<Block, Proof>,
) -> (AttemptMachine<Block, Proof>, AttemptAction) {
    match (machine, event) {
        (
            AttemptMachine::AwaitingProviders { window, duration_ms, chain_head },
            AttemptEvent::ProvidersCreated,
        ) => (
            AttemptMachine::AwaitingInherentData { window, duration_ms, chain_head },
            AttemptAction::CreateInherentData,
        ),
        (
            AttemptMachine::AwaitingProviders { .. },
            AttemptEvent::ProvidersFailed(cause),
        ) => (
            AttemptMachine::Finished(AttemptOutcome::SkippedProviderCreation(cause)),
            AttemptAction::Stop,
        ),
        (
            AttemptMachine::AwaitingInherentData { window, duration_ms, chain_head },
            AttemptEvent::InherentDataReady(inherent_data),
        ) => (
            AttemptMachine::AwaitingAuthoring,
            AttemptAction::Author(
                spec_slot_descriptor(window, duration_ms, inherent_data, chain_head),
            ),
        ),
        (
            AttemptMachine::AwaitingInherentData { .. },
            AttemptEvent::InherentDataFailed(cause),
        ) => (
            AttemptMachine::Finished(AttemptOutcome::SkippedInherentData(cause)),
            AttemptAction::Stop,
        ),
        (
            AttemptMachine::AwaitingAuthoring,
            AttemptEvent::AuthoringResolved(Some((block, proof))),
        ) => (
            AttemptMachine::Finished(AttemptOutcome::Produced(Candidate { block, proof })),
            AttemptAction::Stop,
        ),
        (
            AttemptMachine::AwaitingAuthoring,
            AttemptEvent::AuthoringResolved(None),
        ) => (AttemptMachine::Finished(AttemptOutcome::EngineDeclined), AttemptAction::Stop),
        (other, _) => (other, AttemptAction::Stop),
    }
}

/// The state an attempt over `chain_head`, started at `now_ms`, begins in.
pub open spec fn spec_attempt_start<Block, Proof>(
    chain_head: Header,
    now_ms: u64,
    duration_ms: u64,
    budget_ms: u64,
) -> AttemptMachine<Block, Proof> {
    (AttemptMachine::AwaitingProviders {
        window: spec_slot_window(now_ms, duration_ms, budget_ms),
        duration_ms: duration_ms,
        chain_head: chain_head,
    })
}

/// The state the machine is left in after feeding it `events`, one by one.
pub open spec fn attempt_run<Block, Proof>(
    machine: AttemptMachine<Block, Proof>,
    events: Seq<AttemptEvent<Block, Proof>>,
) -> AttemptMachine<Block, Proof>
    decreases events.len(),
{
    if events.len() == 0 {
        machine
    } else {
        attempt_run(attempt_transition(machine, events[0]).0, events.skip(1))
    }
}

/// Whether feeding `events` into the machine ever makes it ask the host to
/// author: that is, whether the authoring engine receives a call.
pub open spec fn run_requests_authoring<Block, Proof>(
    machine: AttemptMachine<Block, Proof>,
    events: Seq<AttemptEvent<Block, Proof>>,
) -> bool
    decreases events.len(),
{
    if events.len() == 0 {
        false
    } else {
        attempt_transition(machine, events[0]).1 is Author || run_requests_authoring(
            attempt_transition(machine, events[0]).0,
            events.skip(1),
        )
    }
}

/// How many times feeding `events` into the machine makes it ask the host
/// to author.
pub open spec fn run_author_count<Block, Proof>(
    machine: AttemptMachine<Block, Proof>,
    events: Seq<AttemptEvent<Block, Proof>>,
) -> nat
    decreases events.len(),
{
    if events.len() == 0 {
        0
    } else {
        (if attempt_transition(machine, events[0]).1 is Author {
            1nat
        } else {
            0nat
        }) + run_author_count(attempt_transition(machine, events[0]).0, events.skip(1))
    }
}

/// An attempt that has already requested authoring, or is over, never
/// requests it again.
pub proof fn lemma_no_second_authoring<Block, Proof>(
    machine: AttemptMachine<Block, Proof>,
    events: Seq<AttemptEvent<Block, Proof>>,
)
    requires
        machine is AwaitingAuthoring || machine is Finished,
    ensures
        run_author_count(machine, events) == 0,
    decreases events.len(),
{
    if events.len() > 0 {
        lemma_no_second_authoring(attempt_transition(machine, events[0]).0, events.skip(1));
    }
}

/// One attempt asks the host to author at most once, from any state and
/// under any events: the engine processes at most one slot per invocation.
pub proof fn lemma_at_most_one_authoring<Block, Proof>(
    machine: AttemptMachine<Block, Proof>,
    events: Seq<AttemptEvent<Block, Proof>>,
)
    ensures
        run_author_count(machine, events) <= 1,
    decreases events.len(),
{
    if events.len() > 0 {
        let stepped = attempt_transition(machine, events[0]);
        if stepped.1 is Author {
            lemma_no_second_authoring(stepped.0, events.skip(1));
        } else {
            lemma_at_most_one_authoring(stepped.0, events.skip(1));
        }
    }
}

/// A candidate comes only out of an authoring request: an attempt that has
/// not yet asked for the engine and ends with a produced candidate must
/// have asked for it along the way.
pub proof fn lemma_candidate_needs_authoring<Block, Proof>(
    machine: AttemptMachine<Block, Proof>,
    events: Seq<AttemptEvent<Block, Proof>>,
)
    requires
        machine is AwaitingProviders || machine is AwaitingInherentData || (machine
            matches AttemptMachine::Finished(outcome) && !(outcome is Produced)),
        attempt_run(machine, events) matches AttemptMachine::Finished(outcome) && outcome
            is Produced,
    ensures
        run_requests_authoring(machine, events),
    decreases events.len(),
{
    if events.len() > 0 {
        let stepped = attempt_transition(machine, events[0]);
        if !(stepped.1 is Author) {
            lemma_candidate_needs_authoring(stepped.0, events.skip(1));
        }
    }
}

/// A finished attempt never asks for anything again: whatever events arrive,
/// the authoring engine receives no call.
pub proof fn lemma_finished_requests_nothing<Block, Proof>(
    outcome: AttemptOutcome<Block, Proof>,
    events: Seq<AttemptEvent<Block, Proof>>,
)
    ensures
        !run_requests_authoring(AttemptMachine::Finished(outcome), events),
        attempt_run(AttemptMachine::Finished(outcome), events) == AttemptMachine::Finished(
            outcome,
        ),
    decreases events.len(),
{
    if events.len() > 0 {
        lemma_finished_requests_nothing(outcome, events.skip(1));
    }
}

/// If the provider factory fails, the attempt finishes with no candidate,
/// and the authoring engine receives zero calls, whatever happens afterward.
pub proof fn lemma_provider_failure_authors_nothing<Block, Proof>(
    machine: AttemptMachine<Block, Proof>,
    cause: String,
    later_events: Seq<AttemptEvent<Block, Proof>>,
)
    requires
        machine is AwaitingProviders,
    ensures
        ({
            let stepped = attempt_transition(machine, AttemptEvent::ProvidersFailed(cause));
            &&& stepped.0 == AttemptMachine::<Block, Proof>::Finished(
                AttemptOutcome::SkippedProviderCreation(cause),
            )
            &&& !(stepped.1 is Author)
            &&& !run_requests_authoring(stepped.0, later_events)
        }),
{
    lemma_finished_requests_nothing(
        AttemptOutcome::<Block, Proof>::SkippedProviderCreation(cause),
        later_events,
    );
}

/// If the provider set cannot materialize the inherent data, the attempt
/// finishes with no candidate, and the authoring engine receives zero calls,
/// whatever happens afterward.
pub proof fn lemma_inherent_failure_authors_nothing<Block, Proof>(
    machine: AttemptMachine<Block, Proof>,
    cause: String,
    later_events: Seq<AttemptEvent<Block, Proof>>,
)
    requires
        machine is AwaitingInherentData,
    ensures
        ({
            let stepped = attempt_transition(machine, AttemptEvent::InherentDataFailed(cause));
            &&& stepped.0 == AttemptMachine::<Block, Proof>::Finished(
                AttemptOutcome::SkippedInherentData(cause),
            )
            &&& !(stepped.1 is Author)
            &&& !run_requests_authoring(stepped.0, later_events)
        }),
{
    lemma_finished_requests_nothing(
        AttemptOutcome::<Block, Proof>::SkippedInherentData(cause),
        later_events,
    );
}

/// The engine's answer passes through unchanged: a block and proof become a
/// candidate wrapping exactly that block and proof, and no answer becomes no
/// candidate.
pub proof fn lemma_authoring_passthrough<Block, Proof>(answer: Option<(Block, Proof)>)
    ensures
        ({
            let stepped = attempt_transition(
                AttemptMachine::<Block, Proof>::AwaitingAuthoring,
                AttemptEvent::AuthoringResolved(answer),
            );
            &&& answer matches Some((block, proof)) ==> stepped.0 == AttemptMachine::<
                Block,
                Proof,
            >::Finished(AttemptOutcome::Produced((Candidate { block, proof })))
            &&& answer is None ==> stepped.0 == AttemptMachine::<Block, Proof>::Finished(
                AttemptOutcome::EngineDeclined,
            )
            &&& stepped.1 is Stop
        }),
{
}

impl<Block, Proof> AttemptMachine<Block, Proof> {
    /// Starts an attempt over `chain_head` at wall-clock instant `now_ms`:
    /// computes the slot window and asks for a provider set first.
    pub fn begin(chain_head: Header, now_ms: u64, duration_ms: u64, budget_ms: u64) -> (started: (
        AttemptMachine<Block, Proof>,
        AttemptAction,
    ))
        requires
            duration_ms > 0,
            now_ms + budget_ms <= u64::MAX,
        ensures
            started.0 == spec_attempt_start::<Block, Proof>(
                chain_head,
                now_ms,
                duration_ms,
                budget_ms,
            ),
            started.1 == AttemptAction::CreateProviders,
    {
        let window = slot_window_at(now_ms, duration_ms, budget_ms);
        (
            AttemptMachine::AwaitingProviders { window, duration_ms, chain_head },
            AttemptAction::CreateProviders,
        )
    }

    /// Feeds one event into the machine and yields what to do next, exactly
    /// as [`attempt_transition`] says.
    pub fn step(self, event: AttemptEvent<Block, Proof>) -> (stepped: (
        AttemptMachine<Block, Proof>,
        AttemptAction,
    ))
        ensures
            stepped == attempt_transition(self, event),
    {
        match (self, event) {
            (
                AttemptMachine::AwaitingProviders { window, duration_ms, chain_head },
                AttemptEvent::ProvidersCreated,
            ) => (
                AttemptMachine::AwaitingInherentData { window, duration_ms, chain_head },
                AttemptAction::CreateInherentData,
            ),
            (
                AttemptMachine::AwaitingProviders { .. },
                AttemptEvent::ProvidersFailed(cause),
            ) => (
                AttemptMachine::Finished(AttemptOutcome::SkippedProviderCreation(cause)),
                AttemptAction::Stop,
            ),
            (
                AttemptMachine::AwaitingInherentData { window, duration_ms, chain_head },
                AttemptEvent::InherentDataReady(inherent_data),
            ) => {
                let descriptor = build_slot_descriptor(
                    window,
                    duration_ms,
                    inherent_data,
                    chain_head,
                );
                (AttemptMachine::AwaitingAuthoring, AttemptAction::Author(descriptor))
            },
            (
                AttemptMachine::AwaitingInherentData { .. },
                AttemptEvent::InherentDataFailed(cause),
            ) => (
                AttemptMachine::Finished(AttemptOutcome::SkippedInherentData(cause)),
                AttemptAction::Stop,
            ),
            (
                AttemptMachine::AwaitingAuthoring,
                AttemptEvent::AuthoringResolved(Some((block, proof))),
            ) => (
                AttemptMachine::Finished(AttemptOutcome::Produced(Candidate { block, proof })),
                AttemptAction::Stop,
            ),
            (
                AttemptMachine::AwaitingAuthoring,
                AttemptEvent::AuthoringResolved(None),
            ) => (AttemptMachine::Finished(AttemptOutcome::EngineDeclined), AttemptAction::Stop),
            (other, _) => (other, AttemptAction::Stop),
        }
    }

    /// Whether the attempt is over.
    pub fn is_finished(&self) -> (finished: bool)
        ensures
            finished == self is Finished,
    {
        match self {
            AttemptMachine::Finished(_) => true,
            _ => false,
        }
    }

    /// The outcome a finished attempt ended with.
    pub fn into_outcome(self) -> (outcome: AttemptOutcome<Block, Proof>)
        requires
            self is Finished,
        ensures
            outcome == self->Finished_0,
    {
        match self {
            AttemptMachine::Finished(outcome) => outcome,
            _ => unreached(),
        }
    }

    /// Hash of the chain head the attempt builds on, read while the provider
    /// set is being asked for.
    pub fn chain_head_hash(&self) -> (hash: &Vec<u8>)
        requires
            self is AwaitingProviders,
        ensures
            hash == self->AwaitingProviders_chain_head.hash,
    {
        match self {
            AttemptMachine::AwaitingProviders { chain_head, .. } => &chain_head.hash,
            _ => unreached(),
        }
    }
}

} // verus!

use aura_consensus::data::{Header, RelayContext, SlotDescriptor, ValidationData};
use aura_consensus::inherent::InherentDataBag;
use aura_consensus::machine::{AttemptAction, AttemptEvent, AttemptMachine, AttemptOutcome};
use aura_consensus::orchestrator::{
    absorb_failure, build_aura_consensus, AuraConsensus, BuildAuraConsensusParams,
};
use aura_consensus::ports::{AuthoringEngine, InherentDataProviderFactory, InherentDataProviders};

type Block = Vec<u8>;
type Proof = Vec<u8>;

fn parent() -> Header {
    Header {
        hash: vec![0xaa; 32],
        number: 41,
    }
}

fn validation_data() -> ValidationData {
    ValidationData {
        parent_head: vec![1, 2, 3],
        relay_parent_number: 1000,
        relay_parent_storage_root: vec![0xbb; 32],
        max_pov_size: 5_000_000,
    }
}

/// A provider factory that always yields a working provider set.
struct ReadyFactory;

/// A provider factory that cannot reach its sources.
struct UnreachableFactory;

/// A provider set that materializes one timestamp-like fact.
struct ReadyProviders;

/// A provider set that fails to materialize its data.
struct BrokenProviders;

impl InherentDataProviderFactory<ReadyProviders> for ReadyFactory {
    fn create_inherent_data_providers(
        &self,
        parent_hash: &Vec<u8>,
        relay: &RelayContext,
    ) -> Result<ReadyProviders, String> {
        assert_eq!(parent_hash, &vec![0xaa; 32]);
        assert_eq!(relay.validation_data.relay_parent_number, 1000);
        Ok(ReadyProviders)
    }
}

impl InherentDataProviderFactory<ReadyProviders> for UnreachableFactory {
    fn create_inherent_data_providers(
        &self,
        _parent_hash: &Vec<u8>,
        _relay: &RelayContext,
    ) -> Result<ReadyProviders, String> {
        Err("network unreachable".to_string())
    }
}

impl InherentDataProviders for ReadyProviders {
    fn create_inherent_data(&self) -> Result<InherentDataBag, String> {
        let mut bag = InherentDataBag::new();
        bag.insert(1, vec![9, 9, 9]).unwrap();
        Ok(bag)
    }
}

impl InherentDataProviders for BrokenProviders {
    fn create_inherent_data(&self) -> Result<InherentDataBag, String> {
        Err("no timestamp source".to_string())
    }
}

/// A factory whose provider sets cannot materialize their data.
struct FactoryOfBroken;

impl InherentDataProviderFactory<BrokenProviders> for FactoryOfBroken {
    fn create_inherent_data_providers(
        &self,
        _parent_hash: &Vec<u8>,
        _relay: &RelayContext,
    ) -> Result<BrokenProviders, String> {
        Ok(BrokenProviders)
    }
}

/// An engine that answers a fixed block and proof, records every descriptor
/// it sees, and detects re-entrant use of itself.
struct RecordingEngine {
    answer: Option<(Block, Proof)>,
    seen_slots: Vec<u64>,
    depth: u32,
    max_depth: u32,
}

impl RecordingEngine {
    fn answering(answer: Option<(Block, Proof)>) -> RecordingEngine {
        RecordingEngine {
            answer,
            seen_slots: Vec::new(),
            depth: 0,
            max_depth: 0,
        }
    }
}

impl AuthoringEngine<Block, Proof> for RecordingEngine {
    fn on_slot(&mut self, descriptor: SlotDescriptor) -> Option<(Block, Proof)> {
        self.depth += 1;
        if self.depth > self.max_depth {
            self.max_depth = self.depth;
        }
        self.seen_slots.push(descriptor.slot_index);
        self.depth -= 1;
        self.answer.clone()
    }
}

#[test]
fn successful_attempt_wraps_exactly_the_engines_answer() {
    // Both phases succeed and the engine answers a block and a proof: the
    // result is a candidate wrapping exactly that block and proof.
    let engine = RecordingEngine::answering(Some((b"B123".to_vec(), b"STORAGE-PROOF".to_vec())));
    let mut consensus = AuraConsensus::new(ReadyFactory, engine, 12000, 500);
    let candidate = consensus
        .produce_candidate(parent(), vec![0xcc; 32], validation_data(), 36005)
        .expect("both phases succeed, so a candidate is owed");
    assert_eq!(candidate.block, b"B123".to_vec());
    assert_eq!(candidate.proof, b"STORAGE-PROOF".to_vec());
    assert_eq!(consensus.authoring_attempt_count(), 1);
}

#[test]
fn unreachable_factory_skips_the_round_without_touching_the_engine() {
    // The provider factory fails: no candidate, and zero engine calls.
    let engine = RecordingEngine::answering(Some((b"B123".to_vec(), b"STORAGE-PROOF".to_vec())));
    let mut consensus = AuraConsensus::new(UnreachableFactory, engine, 12000, 500);
    let candidate = consensus.produce_candidate(parent(), vec![0xcc; 32], validation_data(), 36005);
    assert!(candidate.is_none());
    assert_eq!(consensus.authoring_attempt_count(), 0);
}

#[test]
fn broken_providers_skip_the_round_without_touching_the_engine() {
    // The provider set fails to materialize: no candidate, zero engine calls.
    let engine = RecordingEngine::answering(Some((b"B123".to_vec(), b"STORAGE-PROOF".to_vec())));
    let mut consensus = AuraConsensus::new(FactoryOfBroken, engine, 12000, 500);
    let candidate = consensus.produce_candidate(parent(), vec![0xcc; 32], validation_data(), 36005);
    assert!(candidate.is_none());
    assert_eq!(consensus.authoring_attempt_count(), 0);
}

#[test]
fn declining_engine_means_no_candidate() {
    let engine = RecordingEngine::answering(None);
    let mut consensus = AuraConsensus::new(ReadyFactory, engine, 12000, 500);
    let candidate = consensus.produce_candidate(parent(), vec![0xcc; 32], validation_data(), 36005);
    assert!(candidate.is_none());
    assert_eq!(consensus.authoring_attempt_count(), 1);
}

#[test]
fn attempts_never_overlap_in_the_engine() {
    // A re-entrancy-detecting engine: across repeated invocations it is
    // entered strictly one call at a time, each for the right slot.
    let engine = RecordingEngine::answering(Some((b"B123".to_vec(), b"STORAGE-PROOF".to_vec())));
    let mut consensus = AuraConsensus::new(ReadyFactory, engine, 12000, 500);
    let mut round: u64 = 0;
    while round < 5 {
        let now_ms = 36005 + round * 12000;
        let candidate =
            consensus.produce_candidate(parent(), vec![0xcc; 32], validation_data(), now_ms);
        assert!(candidate.is_some());
        round += 1;
    }
    assert_eq!(consensus.authoring_attempt_count(), 5);
    let engine = consensus.into_engine();
    assert_eq!(engine.max_depth, 1);
    assert_eq!(engine.seen_slots, vec![3, 4, 5, 6, 7]);
}

#[test]
fn run_attempt_reports_each_skip_with_its_cause() {
    let engine = RecordingEngine::answering(None);
    let mut consensus = AuraConsensus::new(UnreachableFactory, engine, 12000, 500);
    let outcome: AttemptOutcome<Block, Proof> =
        consensus.run_attempt(parent(), vec![0xcc; 32], validation_data(), 36005);
    match outcome {
        AttemptOutcome::SkippedProviderCreation(cause) => {
            assert_eq!(cause, "network unreachable")
        }
        _ => panic!("the factory failure must be reported as such"),
    }

    let engine = RecordingEngine::answering(None);
    let mut consensus = AuraConsensus::new(FactoryOfBroken, engine, 12000, 500);
    let outcome: AttemptOutcome<Block, Proof> =
        consensus.run_attempt(parent(), vec![0xcc; 32], validation_data(), 36005);
    match outcome {
        AttemptOutcome::SkippedInherentData(cause) => {
            assert_eq!(cause, "no timestamp source")
        }
        _ => panic!("the materialization failure must be reported as such"),
    }

    let engine = RecordingEngine::answering(None);
    let mut consensus = AuraConsensus::new(ReadyFactory, engine, 12000, 500);
    let outcome: AttemptOutcome<Block, Proof> =
        consensus.run_attempt(parent(), vec![0xcc; 32], validation_data(), 36005);
    assert!(matches!(outcome, AttemptOutcome::EngineDeclined));
}

#[test]
fn absorption_hands_a_success_through_and_swallows_a_failure() {
    assert_eq!(absorb_failure::<u64>(Ok(7)), Some(7));
    assert_eq!(absorb_failure::<u64>(Err("outage".to_string())), None);
    let mut bag = InherentDataBag::new();
    bag.insert(2, vec![5]).unwrap();
    let handed_back = absorb_failure(Ok(bag)).expect("a success is handed through");
    assert_eq!(handed_back.len(), 1);
    assert_eq!(handed_back.get(2).unwrap(), &vec![5]);
}

#[test]
fn assembler_absorbs_both_failure_phases() {
    let relay = RelayContext {
        relay_parent_hash: vec![0xcc; 32],
        validation_data: validation_data(),
    };

    let consensus = AuraConsensus::new(ReadyFactory, RecordingEngine::answering(None), 12000, 500);
    let bag = consensus
        .inherent_data(&vec![0xaa; 32], &relay)
        .expect("a working factory and set must yield the data");
    assert_eq!(bag.get(1).unwrap(), &vec![9, 9, 9]);

    let consensus =
        AuraConsensus::new(UnreachableFactory, RecordingEngine::answering(None), 12000, 500);
    assert!(consensus.inherent_data(&vec![0xaa; 32], &relay).is_none());

    let consensus =
        AuraConsensus::new(FactoryOfBroken, RecordingEngine::answering(None), 12000, 500);
    assert!(consensus.inherent_data(&vec![0xaa; 32], &relay).is_none());
}

#[test]
fn builder_wires_one_idle_orchestrator() {
    let params = BuildAuraConsensusParams {
        inherent_data_provider_factory: ReadyFactory,
        authoring_engine: RecordingEngine::answering(None),
        slot_duration_ms: 12000,
        attempt_budget_ms: 500,
    };
    let consensus = build_aura_consensus(params);
    assert_eq!(consensus.authoring_attempt_count(), 0);
}

#[test]
fn machine_builds_the_descriptor_from_window_and_data() {
    let (machine, action) =
        AttemptMachine::<Block, Proof>::begin(parent(), 36005, 12000, 500);
    assert!(matches!(action, AttemptAction::CreateProviders));
    let (machine, action) = machine.step(AttemptEvent::ProvidersCreated);
    assert!(matches!(action, AttemptAction::CreateInherentData));
    let mut bag = InherentDataBag::new();
    bag.insert(1, vec![7]).unwrap();
    let (_machine, action) = machine.step(AttemptEvent::InherentDataReady(bag));
    match action {
        AttemptAction::Author(descriptor) => {
            assert_eq!(descriptor.slot_index, 3);
            assert_eq!(descriptor.duration_ms, 12000);
            assert_eq!(descriptor.timestamp_ms, 36005);
            assert_eq!(descriptor.deadline_ms, 36505);
            assert_eq!(descriptor.chain_head.number, 41);
            assert_eq!(descriptor.inherent_data.get(1).unwrap(), &vec![7]);
        }
        _ => panic!("ready data must lead straight to an authoring request"),
    }
}

#[test]
fn machine_absorbs_failures_into_a_finished_attempt() {
    let (machine, _) = AttemptMachine::<Block, Proof>::begin(parent(), 36005, 12000, 500);
    let (machine, action) =
        machine.step(AttemptEvent::ProvidersFailed("network unreachable".to_string()));
    assert!(matches!(action, AttemptAction::Stop));
    match machine.into_outcome() {
        AttemptOutcome::SkippedProviderCreation(cause) => {
            assert_eq!(cause, "network unreachable")
        }
        _ => panic!("a factory failure finishes the attempt as skipped"),
    }
}

#[test]
fn machine_passes_the_engines_answer_through() {
    let (machine, _) = AttemptMachine::<Block, Proof>::begin(parent(), 36005, 12000, 500);
    let (machine, _) = machine.step(AttemptEvent::ProvidersCreated);
    let (machine, _) = machine.step(AttemptEvent::InherentDataReady(InherentDataBag::new()));
    let (machine, _) = machine.step(AttemptEvent::AuthoringResolved(Some((
        b"B123".to_vec(),
        b"STORAGE-PROOF".to_vec(),
    ))));
    match machine.into_outcome() {
        AttemptOutcome::Produced(candidate) => {
            assert_eq!(candidate.block, b"B123".to_vec());
            assert_eq!(candidate.proof, b"STORAGE-PROOF".to_vec());
        }
        _ => panic!("an answered attempt must carry the candidate through"),
    }
}

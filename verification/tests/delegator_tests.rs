use cuckoo_miner::delegator::{
    nonce_value_from_digest, Delegator, DelegatorAction, DelegatorEvent, DifficultyPolicy,
    JobSharedData,
};
use cuckoo_miner::error::CuckooMinerError;
use cuckoo_miner::miner::{CuckooMiner, CuckooMinerConfig, CuckooMinerSolution};
use cuckoo_miner::registry::{LoadOutcome, Registry, SlotFlags};
use tiny_keccak::Hasher;

fn loaded_registry() -> Registry {
    let mut registry = Registry::new();
    let outcome = LoadOutcome {
        opened: true,
        path: String::from("plugins/cuckoo_simple_30.so"),
        open_error: String::new(),
        resolved: SlotFlags::full(),
    };
    registry.load(&outcome).unwrap();
    registry
}

fn ready_miner() -> CuckooMiner {
    CuckooMiner::new(CuckooMinerConfig::new(), loaded_registry()).unwrap()
}

#[test]
fn shared_data_starts_running_with_nothing_found() {
    let shared = JobSharedData::new(7, "00aa", "bb11", 42);
    assert_eq!(shared.job_id, 7);
    assert_eq!(shared.pre_nonce, "00aa");
    assert_eq!(shared.post_nonce, "bb11");
    assert_eq!(shared.difficulty, 42);
    assert!(shared.running_flag);
    assert!(!shared.solution_found);
    assert!(shared.solutions.is_empty());
}

#[test]
fn get_solution_pops_one_or_nothing() {
    let mut shared = JobSharedData::new(1, "", "", 0);
    assert!(shared.get_solution().is_none());
    let mut first = CuckooMinerSolution::new();
    first.nonce = [0, 0, 0, 0, 0, 0, 0, 1];
    let mut second = CuckooMinerSolution::new();
    second.nonce = [0, 0, 0, 0, 0, 0, 0, 2];
    shared.solutions.push(first);
    shared.solutions.push(second);
    assert_eq!(shared.get_solution().unwrap().nonce, second.nonce);
    assert_eq!(shared.get_solution().unwrap().nonce, first.nonce);
    assert!(shared.get_solution().is_none());
}

#[test]
fn stop_jobs_clears_only_the_running_flag() {
    let mut shared = JobSharedData::new(1, "aa", "bb", 9);
    shared.solutions.push(CuckooMinerSolution::new());
    shared.stop_jobs();
    assert!(!shared.running_flag);
    assert_eq!(shared.job_id, 1);
    assert_eq!(shared.difficulty, 9);
    assert_eq!(shared.solutions.len(), 1);
}

#[test]
fn handle_calls_return_while_worker_churns() {
    // both handle operations are single bounded steps: a long burst of them
    // completes promptly even interleaved with worker transitions
    let (mut delegator, mut shared) = ready_miner()
        .notify(1, "00", "ff", 0, DifficultyPolicy::AcceptAll)
        .unwrap();
    delegator.step(DelegatorEvent::Started(1), &mut shared);
    for _ in 0..10_000 {
        let _ = shared.get_solution();
        delegator.step(DelegatorEvent::Capacity(1), &mut shared);
        delegator.step(DelegatorEvent::Pushed(1), &mut shared);
    }
    shared.stop_jobs();
    assert!(!shared.running_flag);
}

#[test]
fn delegator_decodes_its_fragments() {
    let d = Delegator::new(3, "00010a", "ff", 5, DifficultyPolicy::ValueAtLeast);
    assert_eq!(d.config.job_id, 3);
    assert_eq!(d.config.pre_nonce, vec![0x00, 0x01, 0x0a]);
    assert_eq!(d.config.post_nonce, vec![0xff]);
    assert_eq!(d.config.difficulty, 5);
    assert!(matches!(d.next_action(), DelegatorAction::StartProcessing));
}

#[test]
fn candidate_header_is_sha3_of_spliced_fragments() {
    let d = Delegator::new(1, "00010203", "f0f1", 0, DifficultyPolicy::AcceptAll);
    let (nonce, digest) = d.get_next_hash();
    let mut header = vec![0x00, 0x01, 0x02, 0x03];
    header.extend_from_slice(&nonce.to_be_bytes());
    header.extend_from_slice(&[0xf0, 0xf1]);
    let mut sha3 = tiny_keccak::Sha3::v256();
    sha3.update(&header);
    let mut expected = [0u8; 32];
    sha3.finalize(&mut expected);
    assert_eq!(digest, expected);
}

#[test]
fn stub_plugin_with_capacity_forever_stops_within_two_events() {
    // stub: queue capacity 1 forever, output empty forever
    let (mut delegator, mut shared) = ready_miner()
        .notify(1, "0001", "0203", 0, DifficultyPolicy::AcceptAll)
        .unwrap();
    delegator.step(DelegatorEvent::Started(1), &mut shared);
    for _ in 0..100 {
        match delegator.next_action() {
            DelegatorAction::QueryCapacity => {
                delegator.step(DelegatorEvent::Capacity(1), &mut shared)
            },
            DelegatorAction::PushCandidate => {
                delegator.step(DelegatorEvent::Pushed(1), &mut shared)
            },
            DelegatorAction::ReadOutput => {
                delegator.step(DelegatorEvent::OutputRead(0, CuckooMinerSolution::new()), &mut shared)
            },
            other => panic!("unexpected action while running: {:?}", other),
        }
    }
    shared.stop_jobs();
    // whatever the stub reports, two more events reach Exit
    delegator.step(DelegatorEvent::Capacity(1), &mut shared);
    assert!(matches!(delegator.next_action(), DelegatorAction::StopProcessing));
    delegator.step(DelegatorEvent::StopAcknowledged(1), &mut shared);
    assert!(matches!(delegator.next_action(), DelegatorAction::Exit));
}

#[test]
fn plugin_unloaded_under_the_job_is_fatal() {
    let (mut delegator, mut shared) = ready_miner()
        .notify(1, "00", "ff", 0, DifficultyPolicy::AcceptAll)
        .unwrap();
    delegator.step(DelegatorEvent::Started(1), &mut shared);
    delegator.step(DelegatorEvent::PluginGone, &mut shared);
    assert!(matches!(delegator.next_action(), DelegatorAction::Exit));
}

#[test]
fn start_failure_is_fatal_to_the_job() {
    let (mut delegator, mut shared) = ready_miner()
        .notify(1, "00", "ff", 0, DifficultyPolicy::AcceptAll)
        .unwrap();
    delegator.step(DelegatorEvent::Started(0), &mut shared);
    assert!(matches!(delegator.next_action(), DelegatorAction::Exit));
}

#[test]
fn idle_pass_rests_instead_of_spinning() {
    let (mut delegator, mut shared) = ready_miner()
        .notify(1, "00", "ff", 0, DifficultyPolicy::AcceptAll)
        .unwrap();
    delegator.step(DelegatorEvent::Started(1), &mut shared);
    // no capacity and no output in the whole pass: the delegator rests
    delegator.step(DelegatorEvent::Capacity(0), &mut shared);
    delegator.step(DelegatorEvent::OutputRead(0, CuckooMinerSolution::new()), &mut shared);
    assert!(matches!(delegator.next_action(), DelegatorAction::Rest));
    delegator.step(DelegatorEvent::Rested, &mut shared);
    assert!(matches!(delegator.next_action(), DelegatorAction::QueryCapacity));
}

#[test]
fn difficulty_filter_discards_low_valued_solutions() {
    let mut sol = CuckooMinerSolution::new();
    let mut cycle = [0u32; 42];
    for i in 0..42 {
        cycle[i] = i as u32 * 3 + 1;
    }
    sol.set_solution(cycle);
    let value = nonce_value_from_digest(&sol.hash());
    assert!(value < u64::MAX, "digest value leaves room for a higher target");

    // a target at the solution's value accepts it
    let (mut delegator, mut shared) = ready_miner()
        .notify(1, "00", "ff", value, DifficultyPolicy::ValueAtLeast)
        .unwrap();
    delegator.step(DelegatorEvent::Started(1), &mut shared);
    delegator.step(DelegatorEvent::Capacity(0), &mut shared);
    delegator.step(DelegatorEvent::OutputRead(1, sol), &mut shared);
    assert!(shared.solution_found);
    assert_eq!(shared.solutions.len(), 1);

    // a target one above the solution's value rejects it silently
    let (mut delegator, mut shared) = ready_miner()
        .notify(1, "00", "ff", value + 1, DifficultyPolicy::ValueAtLeast)
        .unwrap();
    delegator.step(DelegatorEvent::Started(1), &mut shared);
    delegator.step(DelegatorEvent::Capacity(0), &mut shared);
    delegator.step(DelegatorEvent::OutputRead(1, sol), &mut shared);
    assert!(!shared.solution_found);
    assert!(shared.solutions.is_empty());
}

#[test]
fn end_to_end_stub_plugin_yields_the_one_solution() {
    // stub plugin: capacity once then full, accepts exactly one push, and
    // immediately yields one solution identified by nonce 0x0102030405060708
    let miner = ready_miner();
    let (mut delegator, mut shared) = miner
        .notify(11, "0001", "0203", 0, DifficultyPolicy::ValueAtLeast)
        .unwrap();

    assert!(matches!(delegator.next_action(), DelegatorAction::StartProcessing));
    delegator.step(DelegatorEvent::Started(1), &mut shared);

    assert!(matches!(delegator.next_action(), DelegatorAction::QueryCapacity));
    delegator.step(DelegatorEvent::Capacity(1), &mut shared);

    assert!(matches!(delegator.next_action(), DelegatorAction::PushCandidate));
    let (_nonce, _hash) = delegator.get_next_hash();
    delegator.step(DelegatorEvent::Pushed(1), &mut shared);

    assert!(matches!(delegator.next_action(), DelegatorAction::QueryCapacity));
    delegator.step(DelegatorEvent::Capacity(0), &mut shared);

    assert!(matches!(delegator.next_action(), DelegatorAction::ReadOutput));
    let mut sol = CuckooMinerSolution::new();
    let mut cycle = [0u32; 42];
    for i in 0..42 {
        cycle[i] = i as u32 + 1;
    }
    sol.set_solution(cycle);
    sol.nonce = [0x01, 0x02, 0x03, 0x04, 0x05, 0x06, 0x07, 0x08];
    delegator.step(DelegatorEvent::OutputRead(1, sol), &mut shared);
    delegator.step(DelegatorEvent::OutputRead(0, CuckooMinerSolution::new()), &mut shared);

    let popped = shared.get_solution().expect("the accepted solution is waiting");
    assert_eq!(popped.get_nonce_as_u64(), 0x0102030405060708);
    assert_eq!(popped.solution_nonces, cycle);
    assert!(shared.get_solution().is_none());

    shared.stop_jobs();
    delegator.step(DelegatorEvent::Capacity(1), &mut shared);
    delegator.step(DelegatorEvent::StopAcknowledged(1), &mut shared);
    assert!(matches!(delegator.next_action(), DelegatorAction::Exit));
}

#[test]
fn notify_refuses_an_unusable_miner() {
    let mut config = CuckooMinerConfig::new();
    config.parameter_list = vec![(String::from("N"), 1)];
    let miner = CuckooMiner::new(config, loaded_registry()).unwrap();
    // the configured parameter was never applied
    let r = miner.notify(1, "00", "ff", 0, DifficultyPolicy::AcceptAll);
    assert!(matches!(r, Err(CuckooMinerError::PluginNotLoaded)));
}

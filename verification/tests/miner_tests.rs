use cuckoo_miner::error::{CuckooMinerError, ParameterRejection};
use cuckoo_miner::miner::{CuckooMiner, CuckooMinerConfig, CuckooMinerSolution};
use cuckoo_miner::registry::{LoadOutcome, Registry, SlotFlags};
use cuckoo_miner::surface::{
    get_parameter_outcome, parameter_list_outcome, push_outcome, queue_capacity_outcome,
    read_output_outcome, set_parameter_outcome, solve_outcome, start_processing_outcome,
    stop_processing_outcome, ParameterListReply,
};

fn loaded_registry() -> Registry {
    let mut registry = Registry::new();
    let outcome = LoadOutcome {
        opened: true,
        path: String::from("plugins/cuckoo_simple_30.so"),
        open_error: String::new(),
        resolved: SlotFlags::full(),
    };
    registry.load(&outcome).unwrap();
    registry
}

fn ready_miner() -> CuckooMiner {
    CuckooMiner::new(CuckooMinerConfig::new(), loaded_registry()).unwrap()
}

#[test]
fn mine_maps_every_reply_code() {
    let miner = ready_miner();
    for code in 0u32..=255 {
        let r = miner.mine(code);
        match code {
            0 => assert_eq!(r.unwrap(), false),
            1 => assert_eq!(r.unwrap(), true),
            _ => match r {
                Err(CuckooMinerError::UnexpectedResult(c)) => assert_eq!(c, code),
                _ => panic!("expected UnexpectedResult for code {}", code),
            },
        }
    }
}

#[test]
fn solve_outcome_maps_every_reply_code() {
    for code in 0u32..=255 {
        let r = solve_outcome(code);
        match code {
            0 => assert_eq!(r.unwrap(), false),
            1 => assert_eq!(r.unwrap(), true),
            _ => assert!(matches!(r, Err(CuckooMinerError::UnexpectedResult(c)) if c == code)),
        }
    }
}

#[test]
fn miner_over_empty_registry_is_refused() {
    let r = CuckooMiner::new(CuckooMinerConfig::new(), Registry::new());
    assert!(matches!(r, Err(CuckooMinerError::PluginNotLoaded)));
}

fn three_param_config() -> CuckooMinerConfig {
    let mut config = CuckooMinerConfig::new();
    config.parameter_list = vec![
        (String::from("NUM_THREADS"), 4),
        (String::from("NUM_TRIMS"), 0),
        (String::from("DEVICE"), 1),
    ];
    config
}

#[test]
fn rejected_parameter_never_yields_a_usable_miner() {
    // whichever position the rejected entry stands in
    for bad_position in 0..3 {
        let mut miner = CuckooMiner::new(three_param_config(), loaded_registry()).unwrap();
        assert!(!miner.is_ready());
        for position in 0..3 {
            let pending = miner.pending_parameter();
            let raw = if position == bad_position { 2 } else { 0 };
            let r = miner.set_parameter(raw);
            if position == bad_position {
                let (name, value) = pending.unwrap();
                match r {
                    Err(CuckooMinerError::ParameterError(f)) => {
                        assert_eq!(f.name, name);
                        assert_eq!(f.value, value);
                        assert!(matches!(f.reason, ParameterRejection::OutOfRange));
                    },
                    _ => panic!("expected ParameterError"),
                }
            }
            // even after further accepted replies the miner stays unusable
            assert_eq!(miner.is_ready(), false);
        }
        assert!(!miner.is_ready());
        assert!(matches!(miner.mine(1), Err(CuckooMinerError::PluginNotLoaded)));
    }
}

#[test]
fn accepted_parameters_make_the_miner_ready() {
    let mut miner = CuckooMiner::new(three_param_config(), loaded_registry()).unwrap();
    assert!(!miner.is_ready());
    assert!(matches!(miner.mine(1), Err(CuckooMinerError::PluginNotLoaded)));
    for _ in 0..3 {
        assert!(miner.set_parameter(0).is_ok());
    }
    assert!(miner.pending_parameter().is_none());
    assert!(miner.is_ready());
    assert_eq!(miner.mine(1).unwrap(), true);
}

#[test]
fn pending_parameters_come_in_order() {
    let mut miner = CuckooMiner::new(three_param_config(), loaded_registry()).unwrap();
    let first = miner.pending_parameter().unwrap();
    assert_eq!(first.0, "NUM_THREADS");
    assert_eq!(first.1, 4);
    miner.set_parameter(0).unwrap();
    let second = miner.pending_parameter().unwrap();
    assert_eq!(second.0, "NUM_TRIMS");
    assert_eq!(second.1, 0);
}

#[test]
fn set_parameter_outcome_maps_reasons() {
    assert!(set_parameter_outcome("N", 3, 0).is_ok());
    match set_parameter_outcome("N", 3, 1) {
        Err(CuckooMinerError::ParameterError(f)) => {
            assert_eq!(f.name, "N");
            assert_eq!(f.value, 3);
            assert!(matches!(f.reason, ParameterRejection::NotFound));
        },
        _ => panic!("expected ParameterError"),
    }
    match set_parameter_outcome("N", 3, 2) {
        Err(CuckooMinerError::ParameterError(f)) => {
            assert!(matches!(f.reason, ParameterRejection::OutOfRange));
        },
        _ => panic!("expected ParameterError"),
    }
    match set_parameter_outcome("N", 3, 9) {
        Err(CuckooMinerError::ParameterError(f)) => {
            assert!(matches!(f.reason, ParameterRejection::Unknown(9)));
        },
        _ => panic!("expected ParameterError"),
    }
}

#[test]
fn get_parameter_outcome_maps_codes() {
    assert_eq!(get_parameter_outcome("N", 0, 77).unwrap(), 77);
    assert!(matches!(
        get_parameter_outcome("N", 1, 0),
        Err(CuckooMinerError::ParameterError(_))
    ));
    assert!(matches!(
        get_parameter_outcome("N", 5, 0),
        Err(CuckooMinerError::UnexpectedResult(5))
    ));
}

#[test]
fn parameter_list_outcome_maps_codes() {
    assert!(matches!(parameter_list_outcome(0), Ok(ParameterListReply::Written)));
    assert!(matches!(parameter_list_outcome(3), Ok(ParameterListReply::BufferTooSmall)));
    assert!(matches!(parameter_list_outcome(2), Err(CuckooMinerError::UnexpectedResult(2))));
}

#[test]
fn queue_replies_map_codes() {
    assert_eq!(queue_capacity_outcome(1).unwrap(), true);
    assert_eq!(queue_capacity_outcome(0).unwrap(), false);
    assert!(matches!(queue_capacity_outcome(7), Err(CuckooMinerError::UnexpectedResult(7))));
    assert_eq!(push_outcome(1).unwrap(), true);
    assert_eq!(push_outcome(0).unwrap(), false);
    assert!(matches!(push_outcome(4), Err(CuckooMinerError::UnexpectedResult(4))));
    assert_eq!(read_output_outcome(1).unwrap(), true);
    assert_eq!(read_output_outcome(0).unwrap(), false);
    assert!(matches!(read_output_outcome(9), Err(CuckooMinerError::UnexpectedResult(9))));
}

#[test]
fn processing_replies_map_codes() {
    assert!(start_processing_outcome(1).is_ok());
    assert!(matches!(start_processing_outcome(0), Err(CuckooMinerError::ProcessingError)));
    assert!(stop_processing_outcome(1).is_ok());
    assert!(matches!(stop_processing_outcome(3), Err(CuckooMinerError::ProcessingError)));
}

#[test]
fn fresh_solution_is_all_zero() {
    let sol = CuckooMinerSolution::new();
    assert_eq!(sol.solution_nonces, [0u32; 42]);
    assert_eq!(sol.nonce, [0u8; 8]);
}

#[test]
fn set_solution_replaces_the_cycle_only() {
    let mut sol = CuckooMinerSolution::new();
    sol.nonce = [1, 2, 3, 4, 5, 6, 7, 8];
    let mut cycle = [0u32; 42];
    for i in 0..42 {
        cycle[i] = i as u32 + 100;
    }
    sol.set_solution(cycle);
    assert_eq!(sol.solution_nonces, cycle);
    assert_eq!(sol.nonce, [1, 2, 3, 4, 5, 6, 7, 8]);
}

#[test]
fn nonce_reads_back_as_u64() {
    let mut sol = CuckooMinerSolution::new();
    sol.nonce = [0x01, 0x02, 0x03, 0x04, 0x05, 0x06, 0x07, 0x08];
    assert_eq!(sol.get_nonce_as_u64(), 0x0102030405060708);
}

#[test]
fn to_u64s_widens_every_nonce() {
    let mut sol = CuckooMinerSolution::new();
    let mut cycle = [0u32; 42];
    for i in 0..42 {
        cycle[i] = u32::MAX - i as u32;
    }
    sol.set_solution(cycle);
    let wide = sol.to_u64s();
    assert_eq!(wide.len(), 42);
    for i in 0..42 {
        assert_eq!(wide[i], (u32::MAX - i as u32) as u64);
    }
}

#[test]
fn solutions_compare_by_cycle_not_nonce() {
    let mut a = CuckooMinerSolution::new();
    let mut b = CuckooMinerSolution::new();
    a.nonce = [1; 8];
    b.nonce = [2; 8];
    assert!(a == b);
    let mut cycle = [0u32; 42];
    cycle[41] = 7;
    b.set_solution(cycle);
    assert!(a != b);
}

#[test]
fn solution_hash_matches_the_digest_of_its_big_endian_bytes() {
    let mut sol = CuckooMinerSolution::new();
    let mut cycle = [0u32; 42];
    for i in 0..42 {
        cycle[i] = 0x01020304u32.wrapping_mul(i as u32 + 1);
    }
    sol.set_solution(cycle);
    let mut bytes = Vec::new();
    for n in cycle.iter() {
        bytes.extend_from_slice(&n.to_be_bytes());
    }
    let direct = blake2_rfc::blake2b::blake2b(32, &[], &bytes);
    assert_eq!(sol.hash(), direct.as_bytes());
}

#[test]
fn default_config_is_empty() {
    let config = CuckooMinerConfig::new();
    assert_eq!(config.plugin_full_path, "");
    assert!(config.parameter_list.is_empty());
}

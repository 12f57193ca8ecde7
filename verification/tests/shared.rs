use create2_vanity::address::{compute_create2_address, CodeHash, FactoryAddress, Salt};
use create2_vanity::record::{make_record, SearchConfig, TrialRecord};
use create2_vanity::shared::SharedSearch;
use rayon::iter::{IntoParallelIterator, ParallelIterator};

const SHARED_FACTORY: [u8; 20] = [
    0x00, 0x00, 0x00, 0xf2, 0x52, 0x9c, 0xaf, 0xe4, 0x7f, 0x13, 0xbc, 0x4d, 0x67, 0x4e, 0x34, 0x3a,
    0x97, 0xa8, 0x70, 0xc1,
];

fn shared_config(target_zeros: usize) -> SearchConfig {
    SearchConfig {
        factory: FactoryAddress { bytes: SHARED_FACTORY },
        code_hash: CodeHash { bytes: [0u8; 32] },
        target_zeros,
    }
}

fn salt_number(number: u64) -> Salt {
    let mut bytes = [0u8; 32];
    bytes[24..].copy_from_slice(&number.to_be_bytes());
    Salt { bytes }
}

fn is_hit(config: &SearchConfig, record: &TrialRecord) -> bool {
    let address = compute_create2_address(&config.factory, &record.salt, &config.code_hash);
    address == record.address
        && address.score() == record.score
        && record.score >= config.target_zeros
}

#[test]
fn new_shared_state_has_counted_nothing() {
    let shared = SharedSearch::new(shared_config(4));
    assert_eq!(shared.config(), shared_config(4));
    assert_eq!(shared.trials(), 0);
    assert_eq!(shared.found_count(), 0);
    assert_eq!(shared.found(0), None);
}

#[test]
fn shared_trial_counts_and_registers() {
    let shared = SharedSearch::new(shared_config(2));
    assert_eq!(shared.run_trial(salt_number(0)), None);
    assert_eq!(shared.run_trial(salt_number(60)), None);
    assert_eq!(shared.trials(), 2);
    assert_eq!(shared.found_count(), 0);
    let hit = shared.run_trial(salt_number(2710)).unwrap();
    assert_eq!(hit, make_record(&shared_config(2), salt_number(2710)));
    assert_eq!(hit.score, 3);
    assert_eq!(shared.trials(), 3);
    assert_eq!(shared.found_count(), 1);
    assert_eq!(shared.found(0), Some(hit));
    assert_eq!(shared.found(1), None);
    let second = shared.run_trial(salt_number(122)).unwrap();
    assert_eq!(shared.found(1), Some(second));
    assert_eq!(shared.trials(), 4);
}

#[test]
fn shared_random_trial_with_zero_target_always_hits() {
    let shared = SharedSearch::new(shared_config(0));
    for done in 1..=20 {
        let record = shared.run_random_trial().unwrap();
        assert!(is_hit(&shared_config(0), &record));
        assert_eq!(shared.trials(), done);
        assert_eq!(shared.found_count(), done);
    }
}

#[test]
fn shared_random_trial_with_unreachable_target_never_hits() {
    let shared = SharedSearch::new(shared_config(41));
    for done in 1..=20 {
        assert_eq!(shared.run_random_trial(), None);
        assert_eq!(shared.trials(), done);
    }
    assert_eq!(shared.found_count(), 0);
}

#[test]
fn parallel_trials_are_all_counted() {
    for size in [1usize, 10, 10_000] {
        let shared = SharedSearch::new(shared_config(2));
        let mut attempted = 0;
        for _ in 0..3 {
            let found: Vec<TrialRecord> =
                (0..size).into_par_iter().filter_map(|_| shared.run_random_trial()).collect();
            attempted += size;
            assert_eq!(shared.trials(), attempted);
            assert!(found.len() <= size);
            for record in &found {
                assert!(is_hit(&shared_config(2), record));
            }
        }
    }
}

#[test]
fn parallel_appends_lose_no_record() {
    let shared = SharedSearch::new(shared_config(0));
    let size = 5_000;
    let found: Vec<TrialRecord> =
        (0..size).into_par_iter().filter_map(|i| shared.run_trial(salt_number(i as u64))).collect();
    assert_eq!(found.len(), size);
    assert_eq!(shared.trials(), size);
    assert_eq!(shared.found_count(), size);
    let mut seen = vec![0usize; size];
    for index in 0..size {
        let record = shared.found(index).unwrap();
        assert!(is_hit(&shared_config(0), &record));
        let mut number = [0u8; 8];
        number.copy_from_slice(&record.salt.bytes[24..]);
        seen[u64::from_be_bytes(number) as usize] += 1;
    }
    assert!(seen.iter().all(|count| *count == 1));
    for i in 0..size {
        assert_eq!(found[i], make_record(&shared_config(0), salt_number(i as u64)));
    }
}

#[test]
fn parallel_registry_holds_only_hits() {
    let target = 1;
    let shared = SharedSearch::new(shared_config(target));
    let found: Vec<TrialRecord> =
        (0..4_000u64).into_par_iter().filter_map(|i| shared.run_trial(salt_number(i))).collect();
    assert!(found.iter().any(|record| record.salt == salt_number(60)));
    assert!(found.iter().any(|record| record.salt == salt_number(122)));
    assert!(found.iter().any(|record| record.salt == salt_number(2710)));
    assert_eq!(shared.found_count(), found.len());
    for index in 0..shared.found_count() {
        let record = shared.found(index).unwrap();
        assert!(record.score >= target);
        assert!(is_hit(&shared_config(target), &record));
    }
}

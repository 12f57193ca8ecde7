//! The state of a search in a form that many workers can share: an atomic
//! trial counter and a registry behind a lock.

use crate::address::Salt;
use crate::record::{evaluate_trial, is_hit, trial_outcome};
use crate::record::{lemma_registry_scores_bounded, ResultRegistry, SearchConfig, TrialRecord};
use crate::search::generate_salt;
use std::sync::atomic::{AtomicUsize, Ordering};
use vstd::prelude::*;
use vstd::rwlock::RwLock;

verus! {

/// What the lock of a shared search admits: a well-formed registry for the
/// configured target in which every record is a hit of the search.
pub open spec fn registry_fits(registry: ResultRegistry, config: SearchConfig) -> bool {
    &&& registry.wf()
    &&& registry.spec_threshold() == config.target_zeros
    &&& forall|i: int| 0 <= i < registry@.len() ==> is_hit(config, #[trigger] registry@[i])
}

/// The state that the workers of one search share. The counter is atomic and
/// the registry is locked for the time of one append or one read, so a
/// reference to the state can be handed to any number of threads.
pub struct SharedSearch {
    config: SearchConfig,
    trials: AtomicUsize,
    registry: RwLock<ResultRegistry, spec_fn(ResultRegistry) -> bool>,
}

impl SharedSearch {
    /// The configuration of the search.
    pub closed spec fn spec_config(&self) -> SearchConfig {
        self.config
    }

    /// The state is well formed: its lock admits exactly the registries that
    /// fit the configuration.
    pub closed spec fn wf(&self) -> bool {
        forall|registry: ResultRegistry|
            #[trigger] self.registry.inv(registry) <==> registry_fits(registry, self.config)
    }

    /// A state in which no trial has run.
    pub fn new(config: SearchConfig) -> (shared: SharedSearch)
        ensures
            shared.wf(),
            shared.spec_config() == config,
    {
        let ghost admits = |registry: ResultRegistry| registry_fits(registry, config);
        let registry = RwLock::new(ResultRegistry::new(config.target_zeros), Ghost(admits));
        SharedSearch { config, trials: AtomicUsize::new(0), registry }
    }

    /// The configuration of the search.
    pub fn config(&self) -> (config: SearchConfig)
        ensures
            config == self.spec_config(),
    {
        self.config
    }

    /// The number of trials counted so far. Workers may count on while the
    /// value is read, so nothing is stated of it.
    pub fn trials(&self) -> usize {
        self.trials.load(Ordering::Relaxed)
    }

    /// The number of records registered at the moment of the read: the size
    /// of a registry that fits the search. Workers may register more at any
    /// time, so which of these sizes comes back is not told beforehand. With
    /// a target that no address reaches, the registry stays empty.
    pub fn found_count(&self) -> (count: usize)
        requires
            self.wf(),
        ensures
            exists|registry: ResultRegistry|
                #[trigger] registry_fits(registry, self.spec_config()) && count
                    == registry@.len(),
            self.spec_config().target_zeros > 40 ==> count == 0,
    {
        let handle = self.registry.acquire_read();
        let registry = handle.borrow();
        let count = registry.len();
        proof {
            assert(registry_fits(*registry, self.spec_config()) && count == registry@.len());
            if count > 0 {
                lemma_registry_scores_bounded(*registry, 0);
            }
        }
        handle.release_read();
        count
    }

    /// The record registered at `index`, if there is one by now. Whatever
    /// the workers did, it is a hit of this search.
    pub fn found(&self, index: usize) -> (record: Option<TrialRecord>)
        requires
            self.wf(),
        ensures
            record matches Some(r) ==> is_hit(self.spec_config(), r@),
    {
        let handle = self.registry.acquire_read();
        let record = handle.borrow().get(index);
        handle.release_read();
        record
    }

    /// Runs the trial of `salt`: counts it, and registers and reports its
    /// record if the score reaches the target.
    pub fn run_trial(&self, salt: Salt) -> (outcome: Option<TrialRecord>)
        requires
            self.wf(),
        ensures
            outcome is Some <==> trial_outcome(self.spec_config(), salt@) is Some,
            outcome matches Some(record) ==> Some(record@) == trial_outcome(
                self.spec_config(),
                salt@,
            ) && record.salt == salt,
    {
        self.trials.fetch_add(1, Ordering::Relaxed);
        let outcome = evaluate_trial(&self.config, salt);
        if let Some(record) = outcome {
            let (mut registry, handle) = self.registry.acquire_write();
            registry.offer(record);
            handle.release_write(registry);
        }
        outcome
    }

    /// Runs one trial on a fresh salt. Whatever salt was drawn, a record
    /// that comes back is a hit of this search, and with a target of zero
    /// one always comes back.
    pub fn run_random_trial(&self) -> (outcome: Option<TrialRecord>)
        requires
            self.wf(),
        ensures
            outcome matches Some(record) ==> is_hit(self.spec_config(), record@),
            self.spec_config().target_zeros == 0 ==> outcome is Some,
    {
        self.run_trial(generate_salt())
    }
}

} // verus!

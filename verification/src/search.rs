//! The search engine: salts, trials, batches and the state they share.

use crate::address::Salt;
use crate::record::{evaluate_trial, is_hit, record_views, trial_outcome, trial_record};
use crate::record::{lemma_registry_holds_only_qualifying, RecordView, ResultRegistry};
use crate::record::{SearchConfig, TrialRecord};
use vstd::prelude::*;

verus! {

/// Trusted: `rand::random::<u8>()`, one byte from the thread's generator.
/// Nothing is promised of the byte. The generator is seeded from the
/// operating system on a thread's first call and panics there if the system
/// has no randomness to give: a search cannot run without it.
#[verifier::external_body]
pub(crate) fn random_byte() -> u8 {
    rand::random()
}

/// The views of a list of salts, in order.
pub open spec fn salt_views(salts: Seq<Salt>) -> Seq<Seq<u8>> {
    salts.map_values(|s: Salt| s@)
}

/// The records that a batch reports: those of its qualifying trials, in the
/// order of the salts.
pub open spec fn batch_found(config: SearchConfig, salts: Seq<Seq<u8>>) -> Seq<RecordView>
    decreases salts.len(),
{
    if salts.len() == 0 {
        Seq::empty()
    } else {
        let earlier = batch_found(config, salts.drop_last());
        match trial_outcome(config, salts.last()) {
            Some(record) => earlier.push(record),
            None => earlier,
        }
    }
}

/// Draws a fresh salt, byte by byte.
pub fn generate_salt() -> (salt: Salt)
    ensures
        salt@.len() == 32,
{
    let mut bytes = [0u8; 32];
    let mut i: usize = 0;
    while i < 32
        invariant
            i <= 32,
        decreases 32 - i,
    {
        bytes[i] = random_byte();
        i += 1;
    }
    Salt { bytes }
}

/// Draws `count` fresh salts.
pub fn generate_salts(count: usize) -> (salts: Vec<Salt>)
    ensures
        salts@.len() == count,
{
    let mut salts: Vec<Salt> = Vec::new();
    let mut i: usize = 0;
    while i < count
        invariant
            i <= count,
            salts@.len() == i,
        decreases count - i,
    {
        salts.push(generate_salt());
        i += 1;
    }
    salts
}

/// Every record that a batch reports is the record of one of its salts and
/// reaches the target.
pub proof fn lemma_batch_found_qualify(config: SearchConfig, salts: Seq<Seq<u8>>, index: int)
    requires
        0 <= index < batch_found(config, salts).len(),
    ensures
        batch_found(config, salts)[index] == trial_record(
            config,
            batch_found(config, salts)[index].salt,
        ),
        batch_found(config, salts)[index].score >= config.target_zeros,
        salts.contains(batch_found(config, salts)[index].salt),
        batch_found(config, salts).len() <= salts.len(),
    decreases salts.len(),
{
    let earlier = batch_found(config, salts.drop_last());
    if index < earlier.len() {
        lemma_batch_found_qualify(config, salts.drop_last(), index);
        let salt = earlier[index].salt;
        let k = choose|k: int| 0 <= k < salts.drop_last().len() && salts.drop_last()[k] == salt;
        assert(salts[k] == salt);
    } else {
        lemma_batch_found_bounded(config, salts.drop_last());
        assert(salts[salts.len() - 1] == salts.last());
    }
}

/// A batch reports at most one record per salt.
pub proof fn lemma_batch_found_bounded(config: SearchConfig, salts: Seq<Seq<u8>>)
    ensures
        batch_found(config, salts).len() <= salts.len(),
    decreases salts.len(),
{
    if salts.len() > 0 {
        lemma_batch_found_bounded(config, salts.drop_last());
    }
}

/// With a target of zero every trial qualifies, so a batch reports one
/// record per salt, the first being that of the first salt.
pub proof fn lemma_zero_target_finds_all(config: SearchConfig, salts: Seq<Seq<u8>>)
    requires
        config.target_zeros == 0,
    ensures
        batch_found(config, salts).len() == salts.len(),
        salts.len() > 0 ==> batch_found(config, salts)[0] == trial_record(config, salts[0]),
    decreases salts.len(),
{
    if salts.len() > 0 {
        lemma_zero_target_finds_all(config, salts.drop_last());
    }
}

/// The state that the trials of one search share: the configuration, the
/// count of trials run and the registry of qualifying records.
pub struct SearchContext {
    config: SearchConfig,
    trials: usize,
    registry: ResultRegistry,
}

impl SearchContext {
    /// The configuration of the search.
    pub closed spec fn spec_config(&self) -> SearchConfig {
        self.config
    }

    /// The number of trials run so far.
    pub closed spec fn spec_trials(&self) -> nat {
        self.trials as nat
    }

    /// The records registered so far, oldest first.
    pub closed spec fn found(&self) -> Seq<RecordView> {
        self.registry@
    }

    /// The context is well formed: its registry is, for the configured
    /// target, and each record in it is the record of its own salt.
    pub closed spec fn wf(&self) -> bool {
        &&& self.registry.wf()
        &&& self.registry.spec_threshold() == self.config.target_zeros
        &&& forall|i: int|
            0 <= i < self.registry@.len() ==> (#[trigger] self.registry@[i]) == trial_record(
                self.config,
                self.registry@[i].salt,
            )
    }

    /// A context in which no trial has run.
    pub fn new(config: SearchConfig) -> (context: SearchContext)
        ensures
            context.wf(),
            context.spec_config() == config,
            context.spec_trials() == 0,
            context.found() == Seq::<RecordView>::empty(),
    {
        SearchContext { config, trials: 0, registry: ResultRegistry::new(config.target_zeros) }
    }

    /// The configuration of the search.
    pub fn config(&self) -> (config: SearchConfig)
        ensures
            config == self.spec_config(),
    {
        self.config
    }

    /// The number of trials run so far.
    pub fn trials(&self) -> (trials: usize)
        ensures
            trials == self.spec_trials(),
    {
        self.trials
    }

    /// The registry of qualifying records.
    pub fn registry(&self) -> (registry: &ResultRegistry)
        requires
            self.wf(),
        ensures
            registry.wf(),
            registry@ == self.found(),
            registry.spec_threshold() == self.spec_config().target_zeros,
    {
        &self.registry
    }

    /// Runs the trial of `salt`: counts it, and registers and reports its
    /// record if the score reaches the target.
    pub fn run_trial(&mut self, salt: Salt) -> (outcome: Option<TrialRecord>)
        requires
            old(self).wf(),
            old(self).spec_trials() < usize::MAX,
        ensures
            final(self).wf(),
            final(self).spec_config() == old(self).spec_config(),
            final(self).spec_trials() == old(self).spec_trials() + 1,
            outcome is Some <==> trial_outcome(old(self).spec_config(), salt@) is Some,
            outcome matches Some(record) ==> Some(record@) == trial_outcome(
                old(self).spec_config(),
                salt@,
            ) && record.salt == salt,
            final(self).found() == match trial_outcome(old(self).spec_config(), salt@) {
                Some(record) => old(self).found().push(record),
                None => old(self).found(),
            },
    {
        self.trials = self.trials + 1;
        let outcome = evaluate_trial(&self.config, salt);
        if let Some(record) = outcome {
            self.registry.offer(record);
        }
        outcome
    }

    /// Runs one trial for each of `salts`, in order, and returns the records
    /// of those that qualified.
    pub fn run_batch_with(&mut self, salts: &Vec<Salt>) -> (found: Vec<TrialRecord>)
        requires
            old(self).wf(),
            old(self).spec_trials() + salts@.len() <= usize::MAX,
        ensures
            final(self).wf(),
            final(self).spec_config() == old(self).spec_config(),
            final(self).spec_trials() == old(self).spec_trials() + salts@.len(),
            record_views(found@) == batch_found(old(self).spec_config(), salt_views(salts@)),
            final(self).found() == old(self).found() + record_views(found@),
    {
        let mut found: Vec<TrialRecord> = Vec::new();
        let ghost config = self.config;
        let ghost views = salt_views(salts@);
        let mut i: usize = 0;
        while i < salts.len()
            invariant
                i <= salts@.len(),
                self.wf(),
                self.spec_config() == config,
                config == old(self).spec_config(),
                views == salt_views(salts@),
                self.spec_trials() == old(self).spec_trials() + i,
                old(self).spec_trials() + salts@.len() <= usize::MAX,
                record_views(found@) == batch_found(config, views.take(i as int)),
                self.found() == old(self).found() + record_views(found@),
            decreases salts@.len() - i,
        {
            let outcome = self.run_trial(salts[i]);
            proof {
                let next = views.take(i + 1);
                assert(next.drop_last() =~= views.take(i as int));
                assert(next.last() == salts@[i as int]@);
            }
            if let Some(record) = outcome {
                found.push(record);
            }
            i += 1;
        }
        assert(views.take(i as int) =~= views);
        found
    }

    /// Runs `batch_size` trials on fresh salts and returns the records of
    /// those that qualified. Whatever salts were drawn, the trials are
    /// counted one by one and the records are those of `batch_found`.
    pub fn run_batch(&mut self, batch_size: usize) -> (found: Vec<TrialRecord>)
        requires
            old(self).wf(),
            old(self).spec_trials() + batch_size <= usize::MAX,
        ensures
            final(self).wf(),
            final(self).spec_config() == old(self).spec_config(),
            final(self).spec_trials() == old(self).spec_trials() + batch_size,
            final(self).found() == old(self).found() + record_views(found@),
            exists|salts: Seq<Seq<u8>>|
                salts.len() == batch_size && record_views(found@) == #[trigger] batch_found(
                    old(self).spec_config(),
                    salts,
                ),
            found@.len() <= batch_size,
            old(self).spec_config().target_zeros == 0 ==> found@.len() == batch_size,
    {
        let salts = generate_salts(batch_size);
        let found = self.run_batch_with(&salts);
        proof {
            let views = salt_views(salts@);
            lemma_batch_found_bounded(old(self).spec_config(), views);
            if old(self).spec_config().target_zeros == 0 {
                lemma_zero_target_finds_all(old(self).spec_config(), views);
            }
        }
        found
    }
}

/// A well-formed context holds only hits of its own search: each record is
/// the record of its salt under the context's configuration, and its score
/// reaches the target.
pub proof fn lemma_context_holds_only_hits(context: SearchContext, index: int)
    requires
        context.wf(),
        0 <= index < context.found().len(),
    ensures
        is_hit(context.spec_config(), context.found()[index]),
{
    lemma_registry_holds_only_qualifying(context.registry, index);
}

} // verus!

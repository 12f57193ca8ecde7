//! Trial records and the registry that collects the qualifying ones.

use crate::address::{compute_create2_address, create2_address, zero_score};
use crate::address::lemma_zero_score_bounded;
use crate::address::{CodeHash, DerivedAddress, FactoryAddress, Salt};
use crate::hexfmt::hex_text;
use vstd::prelude::*;

verus! {

/// What a search is given: the factory, the code hash and the score to reach.
#[derive(Debug, Clone, Copy, PartialEq, Eq)]
pub struct SearchConfig {
    pub factory: FactoryAddress,
    pub code_hash: CodeHash,
    pub target_zeros: usize,
}

/// The result of one trial: the salt tried, the address it gives and the
/// score of that address.
#[derive(Debug, Clone, Copy, PartialEq, Eq)]
pub struct TrialRecord {
    pub address: DerivedAddress,
    pub salt: Salt,
    pub score: usize,
}

/// A trial record as plain values.
pub struct RecordView {
    pub address: Seq<u8>,
    pub salt: Seq<u8>,
    pub score: nat,
}

impl View for TrialRecord {
    type V = RecordView;

    open spec fn view(&self) -> RecordView {
        RecordView { address: self.address@, salt: self.salt@, score: self.score as nat }
    }
}

/// The record of the trial that tries `salt`.
pub open spec fn trial_record(config: SearchConfig, salt: Seq<u8>) -> RecordView {
    let address = create2_address(config.factory@, salt, config.code_hash@);
    RecordView { address, salt, score: zero_score(address) }
}

/// A record qualifies for a threshold when its score is that of its address
/// and reaches the threshold.
pub open spec fn qualifies(record: RecordView, threshold: nat) -> bool {
    record.score == zero_score(record.address) && record.score >= threshold
}

/// A record is a hit of a search when it is the record of its own salt and
/// its score reaches the target.
pub open spec fn is_hit(config: SearchConfig, record: RecordView) -> bool {
    record == trial_record(config, record.salt) && record.score >= config.target_zeros
}

/// What a trial reports: its record where the score reaches the target,
/// nothing otherwise.
pub open spec fn trial_outcome(config: SearchConfig, salt: Seq<u8>) -> Option<RecordView> {
    let record = trial_record(config, salt);
    if record.score >= config.target_zeros {
        Some(record)
    } else {
        None
    }
}

/// The views of a list of records, in order.
pub open spec fn record_views(records: Seq<TrialRecord>) -> Seq<RecordView> {
    records.map_values(|r: TrialRecord| r@)
}

impl TrialRecord {
    /// The address and the salt of the record, each as `0x` and its
    /// lowercase hex digits.
    pub fn hex_pair(&self) -> (pair: (String, String))
        ensures
            pair.0@ == seq!['0', 'x'] + hex_text(self@.address),
            pair.1@ == seq!['0', 'x'] + hex_text(self@.salt),
    {
        (self.address.to_prefixed_hex(), self.salt.to_prefixed_hex())
    }
}

/// Runs the trial of `salt`: derives the address and scores it.
pub fn make_record(config: &SearchConfig, salt: Salt) -> (record: TrialRecord)
    ensures
        record@ == trial_record(*config, salt@),
        record.salt == salt,
        record.score <= 40,
{
    let address = compute_create2_address(&config.factory, &salt, &config.code_hash);
    let score = address.score();
    TrialRecord { address, salt, score }
}

/// Runs the trial of `salt` and reports its record if the score reaches the
/// configured target.
pub fn evaluate_trial(config: &SearchConfig, salt: Salt) -> (outcome: Option<TrialRecord>)
    ensures
        outcome is Some <==> trial_outcome(*config, salt@) is Some,
        outcome matches Some(record) ==> Some(record@) == trial_outcome(*config, salt@)
            && record.salt == salt,
        config.target_zeros == 0 ==> outcome is Some,
        config.target_zeros > 40 ==> outcome is None,
{
    let record = make_record(config, salt);
    if record.score >= config.target_zeros {
        Some(record)
    } else {
        None
    }
}

/// The qualifying records found so far, for one threshold.
pub struct ResultRegistry {
    threshold: usize,
    records: Vec<TrialRecord>,
}

impl View for ResultRegistry {
    type V = Seq<RecordView>;

    closed spec fn view(&self) -> Seq<RecordView> {
        record_views(self.records@)
    }
}

impl ResultRegistry {
    /// The threshold that every record of the registry reaches.
    pub closed spec fn spec_threshold(&self) -> nat {
        self.threshold as nat
    }

    /// The registry is well formed: each of its records qualifies.
    pub closed spec fn wf(&self) -> bool {
        forall|i: int|
            0 <= i < self.records@.len() ==> qualifies(
                #[trigger] self.records@[i]@,
                self.threshold as nat,
            )
    }

    /// An empty registry for `threshold`.
    pub fn new(threshold: usize) -> (registry: ResultRegistry)
        ensures
            registry.wf(),
            registry.spec_threshold() == threshold,
            registry@ == Seq::<RecordView>::empty(),
    {
        ResultRegistry { threshold, records: Vec::new() }
    }

    /// The threshold of the registry.
    pub fn threshold(&self) -> (threshold: usize)
        ensures
            threshold == self.spec_threshold(),
    {
        self.threshold
    }

    /// The number of records.
    pub fn len(&self) -> (n: usize)
        ensures
            n == self@.len(),
    {
        self.records.len()
    }

    /// The record at `index`, or `None` past the end.
    pub fn get(&self, index: usize) -> (record: Option<TrialRecord>)
        requires
            self.wf(),
        ensures
            record is Some <==> index < self@.len(),
            record matches Some(r) ==> r@ == self@[index as int] && qualifies(
                r@,
                self.spec_threshold(),
            ),
    {
        if index < self.records.len() {
            Some(self.records[index])
        } else {
            None
        }
    }

    /// Appends `record` if it qualifies and says whether it did. A record
    /// that does not qualify leaves the registry as it was.
    pub fn offer(&mut self, record: TrialRecord) -> (accepted: bool)
        requires
            old(self).wf(),
        ensures
            final(self).wf(),
            final(self).spec_threshold() == old(self).spec_threshold(),
            accepted == qualifies(record@, old(self).spec_threshold()),
            final(self)@ == if accepted {
                old(self)@.push(record@)
            } else {
                old(self)@
            },
    {
        if record.score >= self.threshold && record.address.score() == record.score {
            self.records.push(record);
            true
        } else {
            false
        }
    }
}

/// A well-formed registry holds no record whose score is below its
/// threshold, and the score of each record is that of its address.
pub proof fn lemma_registry_holds_only_qualifying(registry: ResultRegistry, index: int)
    requires
        registry.wf(),
        0 <= index < registry@.len(),
    ensures
        registry@[index].score >= registry.spec_threshold(),
        registry@[index].score == zero_score(registry@[index].address),
{
}

/// No record of a well-formed registry scores above 40: its score is that
/// of a 20-byte address.
pub proof fn lemma_registry_scores_bounded(registry: ResultRegistry, index: int)
    requires
        registry.wf(),
        0 <= index < registry@.len(),
    ensures
        registry@[index].score <= 40,
{
    let record = registry.records@[index];
    assert(registry@[index] == record@);
    lemma_zero_score_bounded(record.address);
}

} // verus!

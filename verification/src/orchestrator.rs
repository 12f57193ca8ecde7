//! The control of a search: the states it passes through, the decision taken
//! after each batch and the bounded search built on them.

use crate::address::{create2_address, zero_score};
use crate::config::{config_result, ConfigError};
use crate::hexfmt::{hex_bytes, hex_text, lemma_hex_round_trip};
use crate::record::{is_hit, record_views, RecordView, SearchConfig, TrialRecord};
use crate::search::{batch_found, lemma_batch_found_qualify, SearchContext};
use vstd::prelude::*;

verus! {

/// Where a search stands.
#[derive(Debug, Clone, Copy, PartialEq, Eq)]
pub enum SearchState {
    /// The configuration is valid and no batch has run.
    Idle,
    /// Batches run, and none has reported a record yet.
    Searching,
    /// A record was selected and waits to be reported.
    Found(TrialRecord),
    /// The selected record was reported. Nothing follows.
    Reported(TrialRecord),
}

/// What happened outside the state machine.
#[derive(Debug)]
pub enum SearchEvent {
    /// The caller asks for the search to begin.
    Start,
    /// A batch ended and reported these records, in the order of its trials.
    BatchCompleted(Vec<TrialRecord>),
    /// The final report was written.
    ReportEmitted,
}

/// What the caller does next.
#[derive(Debug, Clone, Copy, PartialEq, Eq)]
pub enum SearchAction {
    /// Nothing: the search waits to be started.
    Wait,
    /// Run one more batch of trials.
    RunBatch,
    /// Write the final report for this record.
    EmitReport(TrialRecord),
    /// Hand this record to the caller and stop.
    Return(TrialRecord),
}

/// The position of a state in the order `Idle`, `Searching`, `Found`,
/// `Reported`.
pub open spec fn rank(state: SearchState) -> nat {
    match state {
        SearchState::Idle => 0,
        SearchState::Searching => 1,
        SearchState::Found(_) => 2,
        SearchState::Reported(_) => 3,
    }
}

/// The state that follows `state` on `event`. A batch without records keeps
/// the search going; of several records the first is selected. An event that
/// a state does not wait for changes nothing.
pub open spec fn next_state(state: SearchState, event: SearchEvent) -> SearchState {
    match (state, event) {
        (SearchState::Idle, SearchEvent::Start) => SearchState::Searching,
        (SearchState::Searching, SearchEvent::BatchCompleted(found)) => if found@.len() == 0 {
            SearchState::Searching
        } else {
            SearchState::Found(found@[0])
        },
        (SearchState::Found(record), SearchEvent::ReportEmitted) => SearchState::Reported(record),
        _ => state,
    }
}

/// The action that a state asks for.
pub open spec fn pending_action(state: SearchState) -> SearchAction {
    match state {
        SearchState::Idle => SearchAction::Wait,
        SearchState::Searching => SearchAction::RunBatch,
        SearchState::Found(record) => SearchAction::EmitReport(record),
        SearchState::Reported(record) => SearchAction::Return(record),
    }
}

/// Takes one step: the state that follows `state` on `event`, and the action
/// that the new state asks for.
pub fn step(state: SearchState, event: &SearchEvent) -> (next: (SearchState, SearchAction))
    ensures
        next.0 == next_state(state, *event),
        next.1 == pending_action(next.0),
{
    let following = match state {
        SearchState::Idle => match event {
            SearchEvent::Start => SearchState::Searching,
            _ => state,
        },
        SearchState::Searching => match event {
            SearchEvent::BatchCompleted(found) => if found.len() == 0 {
                SearchState::Searching
            } else {
                SearchState::Found(found[0])
            },
            _ => state,
        },
        SearchState::Found(record) => match event {
            SearchEvent::ReportEmitted => SearchState::Reported(record),
            _ => state,
        },
        SearchState::Reported(_) => state,
    };
    let action = match following {
        SearchState::Idle => SearchAction::Wait,
        SearchState::Searching => SearchAction::RunBatch,
        SearchState::Found(record) => SearchAction::EmitReport(record),
        SearchState::Reported(record) => SearchAction::Return(record),
    };
    (following, action)
}

/// No step goes back: a state is followed by itself or by the next state in
/// the order `Idle`, `Searching`, `Found`, `Reported`.
pub proof fn lemma_no_backward_transition(state: SearchState, event: SearchEvent)
    ensures
        rank(state) <= rank(next_state(state, event)) <= rank(state) + 1,
        rank(next_state(state, event)) == rank(state) ==> next_state(state, event) == state,
{
}

/// The state reached from `state` after a sequence of events, taken in order.
pub open spec fn state_after(state: SearchState, events: Seq<SearchEvent>) -> SearchState
    decreases events.len(),
{
    if events.len() == 0 {
        state
    } else {
        next_state(state_after(state, events.drop_last()), events.last())
    }
}

/// Whatever happens, a search never returns to an earlier state, and once it
/// has reported it stays as it is.
pub proof fn lemma_search_never_goes_back(state: SearchState, events: Seq<SearchEvent>)
    ensures
        rank(state) <= rank(state_after(state, events)),
        state is Reported ==> state_after(state, events) == state,
    decreases events.len(),
{
    if events.len() > 0 {
        lemma_search_never_goes_back(state, events.drop_last());
        lemma_no_backward_transition(state_after(state, events.drop_last()), events.last());
    }
}

/// `Reported` is terminal, and a selected record is never exchanged for
/// another.
pub proof fn lemma_selection_is_final(record: TrialRecord, event: SearchEvent)
    ensures
        next_state(SearchState::Reported(record), event) == SearchState::Reported(record),
        next_state(SearchState::Found(record), event) == SearchState::Found(record) || next_state(
            SearchState::Found(record),
            event,
        ) == SearchState::Reported(record),
{
}

/// Runs batches of `batch_size` trials on fresh salts until one of them
/// reports a record, or until `max_batches` have run. The record returned is
/// the first that the successful batch reported.
pub fn search(context: &mut SearchContext, batch_size: usize, max_batches: usize) -> (selected:
    Option<TrialRecord>)
    requires
        old(context).wf(),
        old(context).spec_trials() + batch_size * max_batches <= usize::MAX,
    ensures
        final(context).wf(),
        final(context).spec_config() == old(context).spec_config(),
        match selected {
            Some(record) => {
                &&& exists|batches: nat|
                    1 <= batches <= max_batches && final(context).spec_trials()
                        == #[trigger] trials_after(
                        old(context).spec_trials(),
                        batches,
                        batch_size as nat,
                    )
                &&& final(context).found().len() > old(context).found().len()
                &&& final(context).found().take(old(context).found().len() as int) == old(
                    context,
                ).found()
                &&& final(context).found()[old(context).found().len() as int] == record@
                &&& is_hit(old(context).spec_config(), record@)
            },
            None => {
                &&& final(context).spec_trials() == trials_after(
                    old(context).spec_trials(),
                    max_batches as nat,
                    batch_size as nat,
                )
                &&& final(context).found() == old(context).found()
            },
        },
        old(context).spec_config().target_zeros == 0 && batch_size > 0 && max_batches > 0 ==> {
            &&& selected is Some
            &&& final(context).spec_trials() == old(context).spec_trials() + batch_size
        },
{
    let ghost config = context.spec_config();
    let ghost before = context.found();
    let ghost start = context.spec_trials();
    let (searching, _) = step(SearchState::Idle, &SearchEvent::Start);
    let mut batches: usize = 0;
    while batches < max_batches
        invariant
            batches <= max_batches,
            searching == SearchState::Searching,
            config == old(context).spec_config(),
            before == old(context).found(),
            start == old(context).spec_trials(),
            context.wf(),
            context.spec_config() == config,
            context.found() == before,
            context.spec_trials() == trials_after(start, batches as nat, batch_size as nat),
            start + batch_size * max_batches <= usize::MAX,
            config.target_zeros == 0 && batch_size > 0 ==> batches == 0,
        decreases max_batches - batches,
    {
        assert((batches + 1) * batch_size <= batch_size * max_batches) by (nonlinear_arith)
            requires
                batches + 1 <= max_batches,
        ;
        assert((batches + 1) * batch_size == batches * batch_size + batch_size)
            by (nonlinear_arith);
        let found = context.run_batch(batch_size);
        batches += 1;
        let ghost reported = found@;
        let event = SearchEvent::BatchCompleted(found);
        let (_, action) = step(searching, &event);
        if let SearchAction::EmitReport(record) = action {
            proof {
                let salts = choose|salts: Seq<Seq<u8>>|
                    salts.len() == batch_size && record_views(reported) == #[trigger] batch_found(
                        config,
                        salts,
                    );
                lemma_batch_found_qualify(config, salts, 0);
                assert(record_views(reported)[0] == record@);
                assert(context.spec_trials() == trials_after(
                    start,
                    batches as nat,
                    batch_size as nat,
                ));
                assert(batches == 1 ==> batches * batch_size == batch_size) by (nonlinear_arith);
            }
            return Some(record);
        }
        assert(reported.len() == 0);
    }
    None
}

/// The trial count after `batches` batches of `batch_size` trials each.
pub open spec fn trials_after(start: nat, batches: nat, batch_size: nat) -> nat {
    start + batches * batch_size
}

/// What a search hands back: address and salt as `0x`-prefixed hex text. The
/// salt is 32 bytes, the address is the one that the factory gives with this
/// salt and code hash, and its score reaches the target.
pub open spec fn is_winning_pair(
    factory: Seq<u8>,
    code_hash: Seq<u8>,
    target: nat,
    address_text: Seq<char>,
    salt_text: Seq<char>,
) -> bool {
    let salt = hex_bytes(salt_text.skip(2));
    let address = create2_address(factory, salt, code_hash);
    &&& salt.len() == 32
    &&& salt_text == seq!['0', 'x'] + hex_text(salt)
    &&& address_text == seq!['0', 'x'] + hex_text(address)
    &&& zero_score(address) >= target
}

/// Searches for a salt whose address has at least `target_zeros` leading
/// zero digits: validates the configuration, then runs up to `max_batches`
/// batches of `batch_size` trials each. A malformed configuration is an
/// error and no trial runs. Otherwise the result is the pair of the first
/// record found, or `None` where no trial qualified.
pub fn generate_vanity_create2_address(
    factory_address: &str,
    init_code_hash: &str,
    target_zeros: usize,
    batch_size: usize,
    max_batches: usize,
) -> (result: Result<Option<(String, String)>, ConfigError>)
    requires
        batch_size * max_batches <= usize::MAX,
    ensures
        match result {
            Err(fault) => config_result(factory_address@, init_code_hash@) == Err::<
                (Seq<u8>, Seq<u8>),
                ConfigError,
            >(fault),
            Ok(found) => {
                &&& config_result(factory_address@, init_code_hash@) matches Ok(parts)
                &&& found matches Some(pair) ==> is_winning_pair(
                    parts.0,
                    parts.1,
                    target_zeros as nat,
                    pair.0@,
                    pair.1@,
                )
                &&& target_zeros == 0 && batch_size > 0 && max_batches > 0 ==> found is Some
            },
        },
{
    let config = match SearchConfig::parse(factory_address, init_code_hash, target_zeros) {
        Ok(config) => config,
        Err(fault) => {
            return Err(fault);
        },
    };
    let mut context = SearchContext::new(config);
    match search(&mut context, batch_size, max_batches) {
        Some(record) => {
            let pair = record.hex_pair();
            proof {
                lemma_hex_round_trip(record@.salt);
                assert(pair.1@.skip(2) =~= hex_text(record@.salt));
            }
            Ok(Some(pair))
        },
        None => Ok(None),
    }
}

/// The time between two progress samples, in milliseconds.
pub const REPORT_INTERVAL_MILLIS: u64 = 500;

/// The number of trials that a batch holds for each core of the machine.
pub const TRIALS_PER_CORE: usize = 1000;

/// The batch size for a machine with `cores` cores: `TRIALS_PER_CORE` trials
/// for each, or the largest size there is where that product does not fit.
pub fn default_batch_size(cores: usize) -> (batch_size: usize)
    ensures
        batch_size == if cores * TRIALS_PER_CORE <= usize::MAX {
            cores * TRIALS_PER_CORE
        } else {
            usize::MAX as int
        },
{
    if cores <= usize::MAX / TRIALS_PER_CORE {
        cores * TRIALS_PER_CORE
    } else {
        usize::MAX
    }
}

/// The ceiling on the trial count above which the progress reporter stops by
/// itself.
pub open spec fn reporter_ceiling() -> nat {
    (usize::MAX - 1000) as nat
}

/// Whether the progress reporter stops after a sample: once the search has
/// concluded, or once the trial count has reached the ceiling.
pub fn reporter_should_stop(trials: usize, concluded: bool) -> (stop: bool)
    ensures
        stop == (concluded || trials >= reporter_ceiling()),
{
    concluded || trials >= usize::MAX - 1000
}

} // verus!

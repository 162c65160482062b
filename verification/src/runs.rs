//! Whole runs: what holds of every sequence of events that a driver may
//! feed to the machine.

use vstd::prelude::*;
use crate::workflow::{
    lemma_commit_takes_message_verbatim, lemma_dry_run_never_commits,
    lemma_no_auto_stage_never_stages, lemma_step_advances, spec_rank, spec_step, ActionView,
    EventView, MachineState, Phase,
};

verus! {

/// The state a run ends in and the actions it asked for, when `events`
/// arrive one after the other in `state`. An event that does not answer the
/// pending action leaves no trace.
pub open spec fn spec_run(state: MachineState, events: Seq<EventView>) -> (
    MachineState,
    Seq<ActionView>,
)
    decreases events.len(),
{
    if events.len() == 0 {
        (state, Seq::empty())
    } else {
        let (before, actions) = spec_run(state, events.drop_last());
        match spec_step(before, events.last()) {
            Some((next, action)) => (next, actions.push(action)),
            None => (before, actions),
        }
    }
}

/// How many of `actions` ask for a commit.
pub open spec fn spec_commits(actions: Seq<ActionView>) -> nat
    decreases actions.len(),
{
    if actions.len() == 0 {
        0
    } else if actions.last() is Commit {
        spec_commits(actions.drop_last()) + 1
    } else {
        spec_commits(actions.drop_last())
    }
}

/// How many of `actions` ask for staging.
pub open spec fn spec_stagings(actions: Seq<ActionView>) -> nat
    decreases actions.len(),
{
    if actions.len() == 0 {
        0
    } else if actions.last() is StageAll {
        spec_stagings(actions.drop_last()) + 1
    } else {
        spec_stagings(actions.drop_last())
    }
}

/// A run is short: every action it asks for moves it forward, so from its
/// start it asks for at most eight, whatever the events and however many.
pub proof fn lemma_run_is_bounded(state: MachineState, events: Seq<EventView>)
    ensures
        spec_rank(state.phase) + spec_run(state, events).1.len() <= spec_rank(
            spec_run(state, events).0.phase,
        ),
        spec_run(state, events).1.len() <= 8,
        spec_run(state, events).0.options == state.options,
    decreases events.len(),
{
    if events.len() > 0 {
        lemma_run_is_bounded(state, events.drop_last());
        lemma_step_advances(spec_run(state, events.drop_last()).0, events.last());
    }
}

/// A run commits at most once, and once it has asked for the commit it is
/// past generating.
pub proof fn lemma_run_commits_at_most_once(state: MachineState, events: Seq<EventView>)
    requires
        spec_rank(state.phase) <= spec_rank(Phase::Generating),
    ensures
        spec_commits(spec_run(state, events).1) <= 1,
        spec_commits(spec_run(state, events).1) == 1 ==> spec_rank(
            spec_run(state, events).0.phase,
        ) > spec_rank(Phase::Generating),
    decreases events.len(),
{
    if events.len() > 0 {
        let (before, actions) = spec_run(state, events.drop_last());
        lemma_run_commits_at_most_once(state, events.drop_last());
        lemma_step_advances(before, events.last());
        lemma_commit_takes_message_verbatim(before, events.last());
        match spec_step(before, events.last()) {
            Some((next, action)) => {
                assert(actions.push(action).drop_last() == actions);
                assert(actions.push(action).last() == action);
            },
            None => {},
        }
    }
}

/// A dry run commits nothing, whatever the events.
pub proof fn lemma_dry_run_commits_nothing(state: MachineState, events: Seq<EventView>)
    requires
        state.options.dry_run,
    ensures
        spec_commits(spec_run(state, events).1) == 0,
    decreases events.len(),
{
    if events.len() > 0 {
        let (before, actions) = spec_run(state, events.drop_last());
        lemma_dry_run_commits_nothing(state, events.drop_last());
        lemma_run_is_bounded(state, events.drop_last());
        lemma_dry_run_never_commits(before, events.last());
        match spec_step(before, events.last()) {
            Some((next, action)) => {
                assert(actions.push(action).drop_last() == actions);
                assert(actions.push(action).last() == action);
            },
            None => {},
        }
    }
}

/// With automatic staging switched off a run stages nothing, whatever the
/// events.
pub proof fn lemma_no_auto_stage_stages_nothing(state: MachineState, events: Seq<EventView>)
    requires
        state.options.no_auto_stage,
    ensures
        spec_stagings(spec_run(state, events).1) == 0,
    decreases events.len(),
{
    if events.len() > 0 {
        let (before, actions) = spec_run(state, events.drop_last());
        lemma_no_auto_stage_stages_nothing(state, events.drop_last());
        lemma_run_is_bounded(state, events.drop_last());
        lemma_no_auto_stage_never_stages(before, events.last());
        match spec_step(before, events.last()) {
            Some((next, action)) => {
                assert(actions.push(action).drop_last() == actions);
                assert(actions.push(action).last() == action);
            },
            None => {},
        }
    }
}

/// A run that succeeds outside a dry run has asked for exactly one commit.
pub proof fn lemma_success_means_one_commit(state: MachineState, events: Seq<EventView>)
    requires
        spec_rank(state.phase) <= spec_rank(Phase::Generating),
        !state.options.dry_run,
        spec_run(state, events).0.phase == Phase::Done,
    ensures
        spec_commits(spec_run(state, events).1) == 1,
    decreases events.len(),
{
    if events.len() > 0 {
        let (before, actions) = spec_run(state, events.drop_last());
        lemma_run_is_bounded(state, events.drop_last());
        match spec_step(before, events.last()) {
            Some((next, action)) => {
                assert(actions.push(action).drop_last() == actions);
                assert(actions.push(action).last() == action);
                assert(before.phase == Phase::Committing);
                lemma_reaching_the_commit(state, events.drop_last());
            },
            None => {
                lemma_success_means_one_commit(state, events.drop_last());
            },
        }
    }
}

/// A run that waits for the commit to be created has asked for it.
pub proof fn lemma_reaching_the_commit(state: MachineState, events: Seq<EventView>)
    requires
        spec_rank(state.phase) <= spec_rank(Phase::Generating),
        spec_run(state, events).0.phase == Phase::Committing,
    ensures
        spec_commits(spec_run(state, events).1) == 1,
    decreases events.len(),
{
    if events.len() > 0 {
        let (before, actions) = spec_run(state, events.drop_last());
        lemma_run_commits_at_most_once(state, events.drop_last());
        match spec_step(before, events.last()) {
            Some((next, action)) => {
                assert(actions.push(action).drop_last() == actions);
                assert(actions.push(action).last() == action);
                assert(before.phase == Phase::Generating);
                assert(action is Commit);
            },
            None => {
                lemma_reaching_the_commit(state, events.drop_last());
            },
        }
    }
}

} // verus!

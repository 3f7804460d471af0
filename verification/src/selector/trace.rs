//! What holds of every run of the selector, whatever the events are.
//!
//! A run is a table and the events reported so far, which is the abstract
//! value of a [`Selector`](super::Selector). The stage it has reached is
//! [`stage_after`](super::stage_after), and the theorems below are stated over
//! that function: they hold of every selector at every moment.

use super::{
    action_of, lookup, next_stage, phase_of, stage_after, stage_wf, Event, Fault, Group, Phase,
    Stage, PROGRESS_STEPS,
};
use vstd::prelude::*;

verus! {

/// How many steps of the progress indicator were carried out during `events`:
/// the number of times `Done` answered a pending `Step`.
pub open spec fn steps_taken(table: Seq<Group>, events: Seq<Event>) -> nat
    decreases events.len(),
{
    if events.len() == 0 {
        0
    } else {
        let earlier = steps_taken(table, events.drop_last());
        if stage_after(table, events.drop_last()) is Stepping && events.last() == Event::Done {
            earlier + 1
        } else {
            earlier
        }
    }
}

/// Position of a phase in the order awaiting selection, dispatching, terminated.
pub open spec fn phase_rank(phase: Phase) -> nat {
    match phase {
        Phase::AwaitingSelection => 0,
        Phase::Dispatching => 1,
        Phase::Terminated => 2,
    }
}

/// The run that selects `selection` and then reports `done` completed actions.
pub open spec fn selection_then_done(selection: usize, done: nat) -> Seq<Event> {
    seq![Event::Selected(selection)] + Seq::new(done, |i: int| Event::Done)
}

/// The stage of a run that selects and then only reports completed actions.
pub open spec fn stage_of_progress(table: Seq<Group>, selection: usize, done: nat) -> Stage {
    if done == 0 {
        Stage::StartingProgress { selection }
    } else if done <= PROGRESS_STEPS {
        Stage::Stepping { selection, done: (done - 1) as u64 }
    } else if done == PROGRESS_STEPS + 1 {
        Stage::FinishingProgress { selection }
    } else {
        match lookup(table, selection as int) {
            Some(group) => if done == PROGRESS_STEPS + 2 {
                Stage::Dispatching { group }
            } else {
                Stage::Finished
            },
            None => Stage::Failed { fault: Fault::UnknownGroup },
        }
    }
}

/// What each stage of a run says about the events that led to it.
spec fn accounted(table: Seq<Group>, events: Seq<Event>) -> bool {
    let steps = steps_taken(table, events);
    match stage_after(table, events) {
        Stage::AwaitingSelection => events.len() == 0 && steps == 0,
        Stage::StartingProgress { selection } => {
            &&& events.len() > 0
            &&& events[0] == Event::Selected(selection)
            &&& steps == 0
        },
        Stage::Stepping { selection, done } => {
            &&& events.len() > 0
            &&& events[0] == Event::Selected(selection)
            &&& steps == done
            &&& done < PROGRESS_STEPS
        },
        Stage::FinishingProgress { selection } => {
            &&& events.len() > 0
            &&& events[0] == Event::Selected(selection)
            &&& steps == PROGRESS_STEPS
        },
        Stage::Dispatching { group } => {
            &&& events.len() > 0
            &&& steps == PROGRESS_STEPS
            &&& exists|selection: usize| #[trigger]
                lookup(table, selection as int) == Some(group) && events[0] == Event::Selected(
                    selection,
                )
        },
        Stage::Finished | Stage::Failed { .. } => true,
    }
}

proof fn lemma_accounted(table: Seq<Group>, events: Seq<Event>)
    ensures
        accounted(table, events),
    decreases events.len(),
{
    if events.len() > 0 {
        let before = events.drop_last();
        lemma_accounted(table, before);
        if before.len() > 0 {
            assert(before[0] == events[0]);
        }
        if let Stage::FinishingProgress { selection } = stage_after(table, before) {
            if events.last() == Event::Done && lookup(table, selection as int) is Some {
                assert(lookup(table, selection as int) == Some(table[selection as int]));
            }
        }
    }
}

proof fn lemma_terminated_stays(table: Seq<Group>, events: Seq<Event>, j: int, k: int)
    requires
        0 <= j <= k <= events.len(),
        phase_of(stage_after(table, events.take(j))) == Phase::Terminated,
    ensures
        stage_after(table, events.take(k)) == stage_after(table, events.take(j)),
    decreases k - j,
{
    if j < k {
        lemma_terminated_stays(table, events, j, k - 1);
        assert(events.take(k).drop_last() == events.take(k - 1));
    }
}

/// Every stage that a run reaches is well formed.
pub proof fn lemma_stages_are_well_formed(table: Seq<Group>, events: Seq<Event>)
    ensures
        stage_wf(stage_after(table, events)),
{
    lemma_accounted(table, events);
}

/// When a run is about to invoke a group, its first event was the selection
/// of an index of the table, and the group is the one bound to that index:
/// no other group is invoked.
pub proof fn lemma_dispatch_is_the_selected_group(
    table: Seq<Group>,
    events: Seq<Event>,
    group: Group,
)
    requires
        stage_after(table, events) == (Stage::Dispatching { group }),
    ensures
        events.len() > 0,
        events[0] is Selected,
        0 <= events[0]->Selected_0 < table.len(),
        group == table[events[0]->Selected_0 as int],
{
    lemma_accounted(table, events);
}

/// A run that selects and then only reports completed actions passes through
/// the stages in their fixed order.
pub proof fn lemma_progress_of_a_selection(table: Seq<Group>, selection: usize, done: nat)
    ensures
        stage_after(table, selection_then_done(selection, done)) == stage_of_progress(
            table,
            selection,
            done,
        ),
    decreases done,
{
    let events = selection_then_done(selection, done);
    if done == 0 {
        assert(events.drop_last() == Seq::<Event>::empty());
        assert(events.last() == Event::Selected(selection));
        assert(stage_after(table, events.drop_last()) == Stage::AwaitingSelection);
    } else {
        lemma_progress_of_a_selection(table, selection, (done - 1) as nat);
        assert(events.drop_last() == selection_then_done(selection, (done - 1) as nat));
        assert(events.last() == Event::Done);
    }
}

/// A run whose selection is an index of the table reaches the invocation of
/// the group bound to that index, once the progress indicator has been
/// started, stepped the fixed number of times and finished; and it ends with
/// success when that group has run.
pub proof fn lemma_valid_selection_is_dispatched(table: Seq<Group>, selection: usize)
    requires
        selection < table.len(),
    ensures
        stage_after(table, selection_then_done(selection, (PROGRESS_STEPS + 2) as nat)) == (
        Stage::Dispatching { group: table[selection as int] }),
        stage_after(table, selection_then_done(selection, (PROGRESS_STEPS + 3) as nat))
            == Stage::Finished,
{
    lemma_progress_of_a_selection(table, selection, (PROGRESS_STEPS + 2) as nat);
    lemma_progress_of_a_selection(table, selection, (PROGRESS_STEPS + 3) as nat);
}

/// A run whose selection lies outside the table fails once the progress
/// indicator is complete.
pub proof fn lemma_invalid_selection_fails(table: Seq<Group>, selection: usize)
    requires
        selection >= table.len(),
    ensures
        stage_after(table, selection_then_done(selection, (PROGRESS_STEPS + 2) as nat)) == (
        Stage::Failed { fault: Fault::UnknownGroup }),
{
    lemma_progress_of_a_selection(table, selection, (PROGRESS_STEPS + 2) as nat);
}

/// A run never invokes a group when the selected index lies outside the
/// table, however long it goes on.
pub proof fn lemma_out_of_range_never_dispatches(
    table: Seq<Group>,
    events: Seq<Event>,
    selection: usize,
    k: int,
)
    requires
        events.len() > 0,
        events[0] == Event::Selected(selection),
        selection >= table.len(),
        0 <= k <= events.len(),
    ensures
        !(stage_after(table, events.take(k)) is Dispatching),
{
    lemma_accounted(table, events.take(k));
}

/// When a run is about to invoke a group, the progress indicator has taken
/// exactly the fixed number of steps, whichever group was selected.
pub proof fn lemma_progress_completes_before_dispatch(table: Seq<Group>, events: Seq<Event>)
    requires
        stage_after(table, events) is Dispatching,
    ensures
        steps_taken(table, events) == PROGRESS_STEPS,
{
    lemma_accounted(table, events);
}

/// The progress indicator never takes more than the fixed number of steps.
pub proof fn lemma_steps_are_bounded(table: Seq<Group>, events: Seq<Event>)
    ensures
        steps_taken(table, events) <= PROGRESS_STEPS,
    decreases events.len(),
{
    if events.len() > 0 {
        lemma_steps_are_bounded(table, events.drop_last());
        lemma_accounted(table, events.drop_last());
    }
}

/// A run is about to invoke a group at one point at most: a group runs once.
pub proof fn lemma_dispatch_happens_once(table: Seq<Group>, events: Seq<Event>, j: int, k: int)
    requires
        0 <= j <= k <= events.len(),
        stage_after(table, events.take(j)) is Dispatching,
        stage_after(table, events.take(k)) is Dispatching,
    ensures
        j == k,
{
    if j < k {
        assert(events.take(j + 1).drop_last() == events.take(j));
        lemma_terminated_stays(table, events, j + 1, k);
    }
}

/// What a run asks for rests on the table and on the events alone: two runs
/// over the same table that are told the same events stand at the same stage
/// and ask for the same action, whenever and wherever they take place.
pub proof fn lemma_runs_are_repeatable(
    table: Seq<Group>,
    first: Seq<Event>,
    second: Seq<Event>,
)
    requires
        first == second,
    ensures
        stage_after(table, first) == stage_after(table, second),
        action_of(stage_after(table, first)) == action_of(stage_after(table, second)),
{
}

/// One event never takes a run back to an earlier phase.
pub proof fn lemma_phase_never_goes_back(table: Seq<Group>, stage: Stage, event: Event)
    ensures
        phase_rank(phase_of(stage)) <= phase_rank(phase_of(next_stage(table, stage, event))),
{
}

/// A run that has terminated stays as it is, whatever is reported to it.
pub proof fn lemma_terminated_is_final(table: Seq<Group>, stage: Stage, event: Event)
    requires
        phase_of(stage) == Phase::Terminated,
    ensures
        next_stage(table, stage, event) == stage,
{
}

} // verus!

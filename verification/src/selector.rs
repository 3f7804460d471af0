//! The demonstration selector as a state machine.
//!
//! The program around this module owns the terminal. It asks the selector
//! which [`Action`] is pending, performs it, and reports back with an
//! [`Event`]; the selector answers with the next action. Nothing here reads
//! or writes: every decision is a function of the table of groups and of the
//! events reported so far, and that pair is the abstract value of a
//! [`Selector`]. What holds of every such value is proved in [`trace`].

use crate::basics::{demonstrations, run_all, Demo};
use vstd::prelude::*;

pub mod trace;

verus! {

/// Number of steps the progress indicator takes between selection and dispatch.
pub const PROGRESS_STEPS: u64 = 20;

/// Pause after each step of the progress indicator, in milliseconds.
pub const STEP_DELAY_MILLIS: u64 = 30;

/// Entry of the menu that is highlighted when the prompt opens.
pub const DEFAULT_SELECTION: usize = 0;

/// A group of demonstrations that the menu offers as one entry.
#[derive(Clone, Copy, PartialEq, Eq, Structural, Debug)]
pub enum Group {
    Basics,
    AsyncAwait,
    Templates,
}

/// Why a run stopped without success.
#[derive(Clone, Copy, PartialEq, Eq, Structural, Debug)]
pub enum Fault {
    /// The operator made no selection, or the prompt was interrupted.
    NoSelection,
    /// The selected index lies outside the table of groups.
    UnknownGroup,
    /// An event arrived that does not answer the pending action.
    OutOfTurn,
}

/// What the program around the selector has to do next.
#[derive(Clone, Copy, PartialEq, Eq, Structural, Debug)]
pub enum Action {
    /// Show the menu and read one selection.
    Prompt,
    /// Put an empty progress indicator of [`PROGRESS_STEPS`] steps on screen.
    BeginProgress,
    /// Advance the progress indicator by one step, then pause.
    Step,
    /// Mark the progress indicator as complete.
    FinishProgress,
    /// Run every demonstration of the group, in order, once.
    Run(Group),
    /// Leave with success.
    Exit,
    /// Leave with failure.
    Abort(Fault),
}

/// What the program around the selector reports after an action.
#[derive(Clone, Copy, PartialEq, Eq, Structural, Debug)]
pub enum Event {
    /// The operator chose the entry with this index.
    Selected(usize),
    /// The prompt ended without a choice.
    SelectionFailed,
    /// The pending action was carried out.
    Done,
}

/// The three phases a run passes through, in this order.
#[derive(Clone, Copy, PartialEq, Eq, Structural, Debug)]
pub enum Phase {
    AwaitingSelection,
    Dispatching,
    Terminated,
}

/// Where a run stands. Each stage has exactly one pending action.
#[derive(Clone, Copy, PartialEq, Eq, Structural, Debug)]
pub enum Stage {
    AwaitingSelection,
    StartingProgress { selection: usize },
    /// `done` steps of the progress indicator have been taken.
    Stepping { selection: usize, done: u64 },
    FinishingProgress { selection: usize },
    Dispatching { group: Group },
    Finished,
    Failed { fault: Fault },
}

/// The table that the menu program starts with.
pub open spec fn standard_table() -> Seq<Group> {
    seq![Group::Basics, Group::AsyncAwait, Group::Templates]
}

/// The name under which the menu lists a group.
pub open spec fn group_name(group: Group) -> Seq<char> {
    match group {
        Group::Basics => "basics"@,
        Group::AsyncAwait => "async_await"@,
        Group::Templates => "templates"@,
    }
}

/// The demonstrations that running a group runs, in order. This crate holds
/// the demonstrations of the first group only; nothing of the other two is
/// part of it.
pub open spec fn demonstrations_of(group: Group) -> Seq<Demo> {
    match group {
        Group::Basics => demonstrations(),
        Group::AsyncAwait | Group::Templates => Seq::empty(),
    }
}

/// The group bound to an index of the table, if the index is in range.
pub open spec fn lookup(table: Seq<Group>, index: int) -> Option<Group> {
    if 0 <= index < table.len() {
        Some(table[index])
    } else {
        None
    }
}

/// A stage is well formed when its step count is below the fixed number of
/// steps: once the last step is taken the run moves on.
pub open spec fn stage_wf(stage: Stage) -> bool {
    stage matches Stage::Stepping { done, .. } ==> done < PROGRESS_STEPS
}

/// The action that is pending at a stage.
pub open spec fn action_of(stage: Stage) -> Action {
    match stage {
        Stage::AwaitingSelection => Action::Prompt,
        Stage::StartingProgress { .. } => Action::BeginProgress,
        Stage::Stepping { .. } => Action::Step,
        Stage::FinishingProgress { .. } => Action::FinishProgress,
        Stage::Dispatching { group } => Action::Run(group),
        Stage::Finished => Action::Exit,
        Stage::Failed { fault } => Action::Abort(fault),
    }
}

/// The phase a stage belongs to.
pub open spec fn phase_of(stage: Stage) -> Phase {
    match stage {
        Stage::AwaitingSelection => Phase::AwaitingSelection,
        Stage::StartingProgress { .. }
        | Stage::Stepping { .. }
        | Stage::FinishingProgress { .. }
        | Stage::Dispatching { .. } => Phase::Dispatching,
        Stage::Finished | Stage::Failed { .. } => Phase::Terminated,
    }
}

/// Whether `event` reports on the action that is pending at `stage`: the
/// prompt ends with a selection or without one, and every other action is
/// simply done. A run that has ended expects nothing.
pub open spec fn answers(stage: Stage, event: Event) -> bool {
    match stage {
        Stage::AwaitingSelection => event is Selected || event is SelectionFailed,
        Stage::Finished | Stage::Failed { .. } => false,
        _ => event is Done,
    }
}

/// The stage that follows `stage` when `event` is reported.
///
/// A run that has ended stays as it is, and an event that does not answer
/// the pending action ends the run. Otherwise the run moves on by one stage.
/// A selection starts the progress indicator whatever the index is; the
/// index is looked up only when the indicator is complete, and an index
/// outside the table ends the run there.
pub open spec fn next_stage(table: Seq<Group>, stage: Stage, event: Event) -> Stage {
    if phase_of(stage) == Phase::Terminated {
        stage
    } else if !answers(stage, event) {
        Stage::Failed { fault: Fault::OutOfTurn }
    } else {
        match stage {
            Stage::AwaitingSelection => match event {
                Event::Selected(selection) => Stage::StartingProgress { selection },
                _ => Stage::Failed { fault: Fault::NoSelection },
            },
            Stage::StartingProgress { selection } => Stage::Stepping { selection, done: 0 },
            Stage::Stepping { selection, done } => if done + 1 < PROGRESS_STEPS {
                Stage::Stepping { selection, done: (done + 1) as u64 }
            } else {
                Stage::FinishingProgress { selection }
            },
            Stage::FinishingProgress { selection } => match lookup(table, selection as int) {
                Some(group) => Stage::Dispatching { group },
                None => Stage::Failed { fault: Fault::UnknownGroup },
            },
            Stage::Dispatching { .. } => Stage::Finished,
            Stage::Finished | Stage::Failed { .. } => stage,
        }
    }
}

/// The stage a run has reached after `events`, starting at the prompt.
pub open spec fn stage_after(table: Seq<Group>, events: Seq<Event>) -> Stage
    decreases events.len(),
{
    if events.len() == 0 {
        Stage::AwaitingSelection
    } else {
        next_stage(table, stage_after(table, events.drop_last()), events.last())
    }
}

/// The table of groups the menu program offers, in menu order.
pub fn example_groups() -> (table: Vec<Group>)
    ensures
        table@ == standard_table(),
{
    let mut table: Vec<Group> = Vec::new();
    table.push(Group::Basics);
    table.push(Group::AsyncAwait);
    table.push(Group::Templates);
    table
}

/// The group at `index` of `table`; `None` exactly when the index is out of range.
pub fn group_at(table: &Vec<Group>, index: usize) -> (found: Option<Group>)
    ensures
        found == lookup(table@, index as int),
        found is Some <==> index < table.len(),
{
    if index < table.len() {
        Some(table[index])
    } else {
        None
    }
}

impl Group {
    /// The name under which the menu lists this group.
    pub fn name(self) -> (name: &'static str)
        ensures
            name@ == group_name(self),
    {
        match self {
            Group::Basics => "basics",
            Group::AsyncAwait => "async_await",
            Group::Templates => "templates",
        }
    }

    /// The demonstrations that running this group runs, in order.
    pub fn demonstrations(self) -> (order: Vec<Demo>)
        ensures
            order@ == demonstrations_of(self),
    {
        match self {
            Group::Basics => run_all(),
            Group::AsyncAwait | Group::Templates => Vec::new(),
        }
    }
}

/// The menu entries of `table`, in table order.
pub fn group_names(table: &Vec<Group>) -> (names: Vec<&'static str>)
    ensures
        names.len() == table.len(),
        forall|i: int| 0 <= i < table.len() ==> (#[trigger] names[i])@ == group_name(table[i]),
{
    let mut names: Vec<&'static str> = Vec::new();
    let mut i: usize = 0;
    while i < table.len()
        invariant
            i <= table.len(),
            names.len() == i,
            forall|j: int| 0 <= j < i ==> (#[trigger] names[j])@ == group_name(table[j]),
        decreases table.len() - i,
    {
        names.push(table[i].name());
        i += 1;
    }
    names
}

/// The abstract value of a [`Selector`]: the table it was made with and the
/// events that were reported to it so far.
pub struct Record {
    pub table: Seq<Group>,
    pub events: Seq<Event>,
}

impl Record {
    /// The stage that the run has reached.
    pub open spec fn stage(self) -> Stage {
        stage_after(self.table, self.events)
    }

    /// The action that is pending.
    pub open spec fn pending(self) -> Action {
        action_of(self.stage())
    }

    /// The phase of the run.
    pub open spec fn phase(self) -> Phase {
        phase_of(self.stage())
    }

    /// The index that the operator selected, if the run began with a selection.
    pub open spec fn selection(self) -> Option<usize> {
        if self.events.len() > 0 && self.events[0] is Selected {
            Some(self.events[0]->Selected_0)
        } else {
            None
        }
    }

    /// How many steps the progress indicator has taken.
    pub open spec fn steps(self) -> nat {
        trace::steps_taken(self.table, self.events)
    }
}

/// The stage of a run together with the events that led to it. The events
/// exist for the proofs only.
struct Progress {
    stage: Stage,
    events: Ghost<Seq<Event>>,
}

/// One run of the menu program, from the prompt to the exit.
pub struct Selector {
    table: Vec<Group>,
    progress: Progress,
}

impl View for Selector {
    type V = Record;

    closed spec fn view(&self) -> Record {
        Record { table: self.table@, events: self.progress.events@ }
    }
}

impl Selector {
    /// The stage that is kept is the stage that the events lead to.
    #[verifier::type_invariant]
    spec fn inv(self) -> bool {
        self.progress.stage == stage_after(self.table@, self.progress.events@)
    }

    /// A run over `table` that has not prompted yet.
    pub fn new(table: Vec<Group>) -> (selector: Selector)
        ensures
            selector@.table == table@,
            selector@.events == Seq::<Event>::empty(),
            selector@.stage() == Stage::AwaitingSelection,
    {
        Selector {
            table,
            progress: Progress { stage: Stage::AwaitingSelection, events: Ghost(Seq::empty()) },
        }
    }

    /// Where the run stands.
    pub fn stage(&self) -> (stage: Stage)
        ensures
            stage == self@.stage(),
    {
        proof {
            use_type_invariant(self);
        }
        self.progress.stage
    }

    /// The action the program has to perform now.
    ///
    /// When that is to run a group, the group is the one that the table binds
    /// to the selected index, and the progress indicator has taken all of its
    /// steps.
    pub fn pending(&self) -> (action: Action)
        ensures
            action == self@.pending(),
            action matches Action::Run(group) ==> {
                &&& self@.selection() matches Some(index)
                &&& lookup(self@.table, index as int) == Some(group)
                &&& self@.steps() == PROGRESS_STEPS
            },
    {
        proof {
            if let Stage::Dispatching { group } = self@.stage() {
                trace::lemma_dispatch_is_the_selected_group(self@.table, self@.events, group);
                trace::lemma_progress_completes_before_dispatch(self@.table, self@.events);
            }
        }
        match self.stage() {
            Stage::AwaitingSelection => Action::Prompt,
            Stage::StartingProgress { .. } => Action::BeginProgress,
            Stage::Stepping { .. } => Action::Step,
            Stage::FinishingProgress { .. } => Action::FinishProgress,
            Stage::Dispatching { group } => Action::Run(group),
            Stage::Finished => Action::Exit,
            Stage::Failed { fault } => Action::Abort(fault),
        }
    }

    /// The phase of the run.
    pub fn phase(&self) -> (phase: Phase)
        ensures
            phase == self@.phase(),
    {
        match self.stage() {
            Stage::AwaitingSelection => Phase::AwaitingSelection,
            Stage::Finished | Stage::Failed { .. } => Phase::Terminated,
            _ => Phase::Dispatching,
        }
    }

    /// The menu entries, in table order.
    pub fn names(&self) -> (names: Vec<&'static str>)
        ensures
            names.len() == self@.table.len(),
            forall|i: int|
                0 <= i < self@.table.len() ==> (#[trigger] names[i])@ == group_name(
                    self@.table[i],
                ),
    {
        group_names(&self.table)
    }

    /// Takes the report on the pending action and returns the action that is
    /// pending next. The table never changes.
    pub fn step(&mut self, event: Event) -> (action: Action)
        ensures
            final(self)@.table == old(self)@.table,
            final(self)@.events == old(self)@.events.push(event),
            final(self)@.stage() == next_stage(old(self)@.table, old(self)@.stage(), event),
            action == final(self)@.pending(),
            action matches Action::Run(group) ==> {
                &&& final(self)@.selection() matches Some(index)
                &&& lookup(final(self)@.table, index as int) == Some(group)
                &&& final(self)@.steps() == PROGRESS_STEPS
            },
    {
        let ghost events = self.progress.events@;
        proof {
            use_type_invariant(&*self);
            trace::lemma_stages_are_well_formed(self.table@, events);
            assert(events.push(event).drop_last() =~= events);
        }
        let next = match self.progress.stage {
            Stage::AwaitingSelection => match event {
                Event::Selected(selection) => Stage::StartingProgress { selection },
                Event::SelectionFailed => Stage::Failed { fault: Fault::NoSelection },
                Event::Done => Stage::Failed { fault: Fault::OutOfTurn },
            },
            Stage::StartingProgress { selection } => match event {
                Event::Done => Stage::Stepping { selection, done: 0 },
                _ => Stage::Failed { fault: Fault::OutOfTurn },
            },
            Stage::Stepping { selection, done } => match event {
                Event::Done => if done + 1 < PROGRESS_STEPS {
                    Stage::Stepping { selection, done: done + 1 }
                } else {
                    Stage::FinishingProgress { selection }
                },
                _ => Stage::Failed { fault: Fault::OutOfTurn },
            },
            Stage::FinishingProgress { selection } => match event {
                Event::Done => match group_at(&self.table, selection) {
                    Some(group) => Stage::Dispatching { group },
                    None => Stage::Failed { fault: Fault::UnknownGroup },
                },
                _ => Stage::Failed { fault: Fault::OutOfTurn },
            },
            Stage::Dispatching { .. } => match event {
                Event::Done => Stage::Finished,
                _ => Stage::Failed { fault: Fault::OutOfTurn },
            },
            Stage::Finished => Stage::Finished,
            Stage::Failed { fault } => Stage::Failed { fault },
        };
        self.progress = Progress { stage: next, events: Ghost(events.push(event)) };
        self.pending()
    }
}

} // verus!

use rust_code_examples::basics::{run_all, Demo};
use rust_code_examples::selector::{
    example_groups, group_at, group_names, Action, Event, Fault, Group, Phase, Selector, Stage,
    DEFAULT_SELECTION, PROGRESS_STEPS, STEP_DELAY_MILLIS,
};

/// Feeds a selection and then `Done` until the run ends, and returns every
/// action that was pending on the way, the final one included.
fn actions_after_selecting(table: Vec<Group>, selection: usize) -> Vec<Action> {
    let mut run = Selector::new(table);
    let mut actions = vec![run.pending()];
    let mut next = run.step(Event::Selected(selection));
    loop {
        actions.push(next);
        if run.phase() == Phase::Terminated {
            return actions;
        }
        next = run.step(Event::Done);
    }
}

fn steps_in(actions: &[Action]) -> usize {
    actions.iter().filter(|action| **action == Action::Step).count()
}

#[test]
fn selecting_the_first_entry_runs_basics() {
    let mut run = Selector::new(example_groups());
    assert_eq!(run.pending(), Action::Prompt);
    assert_eq!(run.step(Event::Selected(0)), Action::BeginProgress);
    assert_eq!(run.step(Event::Done), Action::Step);
    for _ in 0..19 {
        assert_eq!(run.step(Event::Done), Action::Step);
    }
    assert_eq!(run.step(Event::Done), Action::FinishProgress);
    assert_eq!(run.step(Event::Done), Action::Run(Group::Basics));
    assert_eq!(run.step(Event::Done), Action::Exit);
}

#[test]
fn selecting_the_first_entry_runs_every_demonstration_of_basics_once() {
    let actions = actions_after_selecting(example_groups(), 0);
    let runs: Vec<&Action> =
        actions.iter().filter(|action| matches!(action, Action::Run(_))).collect();
    assert_eq!(runs, vec![&Action::Run(Group::Basics)]);

    let order = Group::Basics.demonstrations();
    assert_eq!(order, run_all());
    assert_eq!(order.len(), 28);
    for (i, demo) in order.iter().enumerate() {
        assert_eq!(order.iter().position(|other| other == demo), Some(i));
    }
    assert_eq!(order[0], Demo::Ex1VariableRun);
    assert_eq!(order[27], Demo::BoxPointerTest);
}

#[test]
fn each_index_dispatches_the_group_bound_to_it() {
    let table = example_groups();
    for (index, group) in table.iter().enumerate() {
        let actions = actions_after_selecting(example_groups(), index);
        let runs: Vec<&Action> =
            actions.iter().filter(|action| matches!(action, Action::Run(_))).collect();
        assert_eq!(runs, vec![&Action::Run(*group)]);
        assert_eq!(actions.last(), Some(&Action::Exit));
    }
}

#[test]
fn the_table_has_three_groups_and_maps_every_index() {
    let table = example_groups();
    assert_eq!(table, vec![Group::Basics, Group::AsyncAwait, Group::Templates]);
    assert_eq!(group_at(&table, 0), Some(Group::Basics));
    assert_eq!(group_at(&table, 1), Some(Group::AsyncAwait));
    assert_eq!(group_at(&table, 2), Some(Group::Templates));
    assert_eq!(group_at(&table, 3), None);
    assert_eq!(group_at(&table, usize::MAX), None);
    assert_eq!(group_at(&Vec::new(), 0), None);
}

#[test]
fn the_menu_lists_the_names_in_table_order() {
    assert_eq!(group_names(&example_groups()), vec!["basics", "async_await", "templates"]);
    assert_eq!(Selector::new(example_groups()).names(), vec!["basics", "async_await", "templates"]);
    assert_eq!(
        group_names(&vec![Group::Templates, Group::Basics, Group::Templates]),
        vec!["templates", "basics", "templates"]
    );
    assert_eq!(group_names(&Vec::new()), Vec::<&str>::new());
    assert_eq!(Group::Basics.name(), "basics");
    assert_eq!(Group::AsyncAwait.name(), "async_await");
    assert_eq!(Group::Templates.name(), "templates");
}

#[test]
fn an_index_outside_the_table_runs_no_group() {
    for selection in [3usize, 4, 1000, usize::MAX] {
        let actions = actions_after_selecting(example_groups(), selection);
        assert!(actions.iter().all(|action| !matches!(action, Action::Run(_))));
        assert_eq!(actions.last(), Some(&Action::Abort(Fault::UnknownGroup)));
        assert_eq!(steps_in(&actions), 20);
    }
}

#[test]
fn an_empty_table_runs_no_group() {
    let actions = actions_after_selecting(Vec::new(), 0);
    assert!(actions.iter().all(|action| !matches!(action, Action::Run(_))));
    assert_eq!(actions.last(), Some(&Action::Abort(Fault::UnknownGroup)));
}

#[test]
fn the_progress_indicator_takes_twenty_steps_before_any_group_runs() {
    for selection in 0..3 {
        let actions = actions_after_selecting(example_groups(), selection);
        let dispatch = actions.iter().position(|action| matches!(action, Action::Run(_))).unwrap();
        assert_eq!(steps_in(&actions[..dispatch]), 20);
        assert_eq!(steps_in(&actions), 20);
        assert_eq!(actions[dispatch - 1], Action::FinishProgress);
        assert_eq!(actions[1], Action::BeginProgress);
    }
}

#[test]
fn the_progress_constants_are_twenty_steps_of_thirty_milliseconds() {
    assert_eq!(PROGRESS_STEPS, 20);
    assert_eq!(STEP_DELAY_MILLIS, 30);
    assert_eq!(DEFAULT_SELECTION, 0);
}

#[test]
fn a_failed_prompt_aborts_without_progress() {
    let mut run = Selector::new(example_groups());
    assert_eq!(run.step(Event::SelectionFailed), Action::Abort(Fault::NoSelection));
    assert_eq!(run.phase(), Phase::Terminated);
    assert_eq!(run.pending(), Action::Abort(Fault::NoSelection));
}

#[test]
fn an_event_out_of_turn_aborts() {
    let mut run = Selector::new(example_groups());
    assert_eq!(run.step(Event::Done), Action::Abort(Fault::OutOfTurn));

    let mut run = Selector::new(example_groups());
    run.step(Event::Selected(1));
    assert_eq!(run.step(Event::Selected(2)), Action::Abort(Fault::OutOfTurn));

    let mut run = Selector::new(example_groups());
    run.step(Event::Selected(1));
    run.step(Event::Done);
    assert_eq!(run.step(Event::SelectionFailed), Action::Abort(Fault::OutOfTurn));

    let mut run = Selector::new(example_groups());
    run.step(Event::Selected(1));
    for _ in 0..21 {
        run.step(Event::Done);
    }
    assert_eq!(run.pending(), Action::FinishProgress);
    assert_eq!(run.step(Event::Selected(0)), Action::Abort(Fault::OutOfTurn));

    let mut run = Selector::new(example_groups());
    run.step(Event::Selected(1));
    for _ in 0..22 {
        run.step(Event::Done);
    }
    assert_eq!(run.pending(), Action::Run(Group::AsyncAwait));
    assert_eq!(run.step(Event::SelectionFailed), Action::Abort(Fault::OutOfTurn));
}

#[test]
fn a_run_that_has_ended_stays_ended() {
    let mut run = Selector::new(example_groups());
    run.step(Event::Selected(2));
    for _ in 0..23 {
        run.step(Event::Done);
    }
    assert_eq!(run.pending(), Action::Exit);
    for event in [Event::Done, Event::Selected(0), Event::SelectionFailed] {
        assert_eq!(run.step(event), Action::Exit);
        assert_eq!(run.phase(), Phase::Terminated);
    }

    let mut run = Selector::new(example_groups());
    run.step(Event::SelectionFailed);
    for event in [Event::Done, Event::Selected(0), Event::SelectionFailed] {
        assert_eq!(run.step(event), Action::Abort(Fault::NoSelection));
    }
}

#[test]
fn the_phases_follow_each_other_and_never_go_back() {
    let mut run = Selector::new(example_groups());
    let mut phases = vec![run.phase()];
    run.step(Event::Selected(0));
    phases.push(run.phase());
    for _ in 0..24 {
        run.step(Event::Done);
        phases.push(run.phase());
    }
    assert_eq!(phases[0], Phase::AwaitingSelection);
    assert!(phases[1..24].iter().all(|phase| *phase == Phase::Dispatching));
    assert!(phases[24..].iter().all(|phase| *phase == Phase::Terminated));
}

#[test]
fn two_runs_over_the_same_events_ask_for_the_same_actions() {
    for selection in 0..5 {
        assert_eq!(
            actions_after_selecting(example_groups(), selection),
            actions_after_selecting(example_groups(), selection)
        );
    }
    assert_eq!(run_all(), run_all());
}

#[test]
fn only_the_first_group_holds_demonstrations() {
    assert_eq!(Group::Basics.demonstrations(), run_all());
    assert!(Group::AsyncAwait.demonstrations().is_empty());
    assert!(Group::Templates.demonstrations().is_empty());
}

#[test]
fn the_table_may_hold_a_group_twice() {
    let table = vec![Group::Templates, Group::Templates, Group::Basics];
    let actions = actions_after_selecting(table, 1);
    assert!(actions.contains(&Action::Run(Group::Templates)));
    assert!(!actions.contains(&Action::Run(Group::Basics)));
}

#[test]
fn the_stage_counts_the_steps_that_were_taken() {
    let mut run = Selector::new(example_groups());
    assert_eq!(run.stage(), Stage::AwaitingSelection);
    run.step(Event::Selected(2));
    assert_eq!(run.stage(), Stage::StartingProgress { selection: 2 });
    run.step(Event::Done);
    for done in 0..20 {
        assert_eq!(run.stage(), Stage::Stepping { selection: 2, done });
        run.step(Event::Done);
    }
    assert_eq!(run.stage(), Stage::FinishingProgress { selection: 2 });
    run.step(Event::Done);
    assert_eq!(run.stage(), Stage::Dispatching { group: Group::Templates });
    run.step(Event::Done);
    assert_eq!(run.stage(), Stage::Finished);

    let mut run = Selector::new(example_groups());
    run.step(Event::SelectionFailed);
    assert_eq!(run.stage(), Stage::Failed { fault: Fault::NoSelection });
}

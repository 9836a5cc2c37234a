use std::collections::HashMap;

use arch_sway::paths::progress_file;
use arch_sway::runner::{Place, RunOutcome, Step, TaskRunner};
use arch_sway::tasks::{Command, Info, RequireUser, StageCompleted, TaskError};

/// A stand-in for the machine: progress files by path.
struct Machine {
    files: HashMap<String, String>,
}

/// Drives `runner` in the context whose progress file is `current`, with
/// `result(i)` as the result of the task at position `i`. Returns the
/// positions run, the positions skipped and the outcome.
fn drive(
    runner: &TaskRunner,
    machine: &mut Machine,
    current: &str,
    result: &dyn Fn(usize) -> Result<String, TaskError>,
) -> (Vec<usize>, Vec<usize>, RunOutcome) {
    let mut p = runner.resume(machine.files.get(current).cloned());
    let mut ran = vec![];
    let mut skipped = vec![];
    loop {
        match runner.next_step(&mut p) {
            Step::Finished => return (ran, skipped, RunOutcome::Completed),
            Step::Skip(i) => skipped.push(i),
            Step::Run(i) => {
                ran.push(i);
                let reaction = runner.react(&mut p, result(i));
                if let Some(save) = reaction.save {
                    let path = match save.place {
                        Place::Current => current.to_string(),
                        Place::Moved(p) => p,
                    };
                    machine.files.insert(path, save.name);
                }
                if let Some(outcome) = reaction.stop {
                    return (ran, skipped, outcome);
                }
            }
        }
    }
}

fn ok(_: usize) -> Result<String, TaskError> {
    Ok(String::new())
}

fn four_tasks() -> TaskRunner {
    let mut r = TaskRunner::new();
    r.add(Command::new("A", "true", false, false));
    r.add(Command::new("B", "true", false, false));
    r.add(StageCompleted::new("C", "/new", "root"));
    r.add(Command::new("D", "true", false, false));
    r
}

#[test]
fn stage_boundary_then_resume_in_new_context() {
    let r = four_tasks();
    let mut m = Machine { files: HashMap::new() };
    let first = progress_file("", "root");
    let moved = progress_file("/new", "root");
    assert_eq!(moved, "/new/root/.arch-sway/progress");

    let (ran, skipped, outcome) = drive(&r, &mut m, &first, &ok);
    assert_eq!(ran, vec![0, 1, 2]);
    assert!(skipped.is_empty());
    assert!(matches!(outcome, RunOutcome::PausedForStageBoundary));
    assert_eq!(m.files.get(&moved).map(|s| s.as_str()), Some("C"));
    assert_eq!(m.files.get(&first).map(|s| s.as_str()), Some("B"));

    let (ran, skipped, outcome) = drive(&r, &mut m, &moved, &ok);
    assert_eq!(skipped, vec![0, 1, 2]);
    assert_eq!(ran, vec![3]);
    assert!(matches!(outcome, RunOutcome::Completed));
    assert_eq!(m.files.get(&moved).map(|s| s.as_str()), Some("D"));
}

#[test]
fn resume_runs_only_after_marker() {
    let mut r = TaskRunner::new();
    for name in ["a", "b", "c", "d", "e"] {
        r.add(Command::new(name, "true", false, false));
    }
    let mut m = Machine { files: HashMap::new() };
    m.files.insert("/p".to_string(), "b\n".to_string());
    let (ran, skipped, outcome) = drive(&r, &mut m, "/p", &ok);
    assert_eq!(skipped, vec![0, 1]);
    assert_eq!(ran, vec![2, 3, 4]);
    assert!(matches!(outcome, RunOutcome::Completed));
    assert_eq!(m.files.get("/p").map(|s| s.as_str()), Some("e"));
}

#[test]
fn no_marker_runs_from_the_first_task() {
    let mut r = TaskRunner::new();
    for name in ["a", "b", "c"] {
        r.add(Command::new(name, "true", false, false));
    }
    let mut m = Machine { files: HashMap::new() };
    let (ran, _, _) = drive(&r, &mut m, "/p", &ok);
    assert_eq!(ran, vec![0, 1, 2]);
    m.files.insert("/p".to_string(), "   ".to_string());
    let (ran, skipped, _) = drive(&r, &mut m, "/p", &ok);
    assert_eq!(ran, vec![0, 1, 2]);
    assert!(skipped.is_empty());
}

#[test]
fn unnamed_tasks_run_while_skipping_and_never_anchor() {
    let mut r = TaskRunner::new();
    r.add(Command::new("a", "true", false, false));
    r.add(Info::new("hello"));
    r.add(Command::new("", "true", false, false));
    r.add(Command::new("b", "true", false, false));
    r.add(Command::new("c", "true", false, false));
    let mut m = Machine { files: HashMap::new() };
    m.files.insert("/p".to_string(), "b".to_string());
    let (ran, skipped, outcome) = drive(&r, &mut m, "/p", &|i| {
        if i == 1 {
            Ok("hello".to_string())
        } else {
            Ok(String::new())
        }
    });
    assert_eq!(ran, vec![1, 2, 4]);
    assert_eq!(skipped, vec![0, 3]);
    assert!(matches!(outcome, RunOutcome::Completed));
    assert_eq!(m.files.get("/p").map(|s| s.as_str()), Some("c"));

    let mut only_unnamed = TaskRunner::new();
    only_unnamed.add(Command::new("", "true", false, false));
    let mut m = Machine { files: HashMap::new() };
    m.files.insert("/p".to_string(), "x".to_string());
    let (ran, _, _) = drive(&only_unnamed, &mut m, "/p", &ok);
    assert_eq!(ran, vec![0]);
    assert_eq!(m.files.get("/p").map(|s| s.as_str()), Some("x"));
}

#[test]
fn default_failure_aborts_without_marker() {
    let mut r = TaskRunner::new();
    for name in ["a", "b", "c"] {
        r.add(Command::new(name, "true", false, false));
    }
    let mut m = Machine { files: HashMap::new() };
    let (ran, _, outcome) = drive(&r, &mut m, "/p", &|i| {
        if i == 1 {
            Err(TaskError::new("boom"))
        } else {
            Ok(String::new())
        }
    });
    assert_eq!(ran, vec![0, 1]);
    match outcome {
        RunOutcome::Failed(e) => assert_eq!(e.message, "boom"),
        _ => panic!("expected a failure"),
    }
    assert_eq!(m.files.get("/p").map(|s| s.as_str()), Some("a"));
}

#[test]
fn stage_boundary_failure_persists_nothing() {
    let r = four_tasks();
    let mut m = Machine { files: HashMap::new() };
    let (ran, _, outcome) = drive(&r, &mut m, "/p", &|i| {
        if i == 2 {
            Err(TaskError::new("mv failed"))
        } else {
            Ok(String::new())
        }
    });
    assert_eq!(ran, vec![0, 1, 2]);
    assert!(matches!(outcome, RunOutcome::Failed(_)));
    assert_eq!(m.files.len(), 1);
    assert_eq!(m.files.get("/p").map(|s| s.as_str()), Some("B"));
}

#[test]
fn identity_check_never_persists() {
    let mut r = TaskRunner::new();
    r.add(RequireUser::new("install", "root"));
    r.add(Command::new("a", "true", false, false));
    let mut m = Machine { files: HashMap::new() };
    let (ran, _, outcome) = drive(&r, &mut m, "/p", &|i| {
        if i == 0 {
            Ok("root\n".to_string())
        } else {
            Err(TaskError::new("stop"))
        }
    });
    assert_eq!(ran, vec![0, 1]);
    assert!(matches!(outcome, RunOutcome::Failed(_)));
    assert!(m.files.is_empty());

    let (ran, _, outcome) = drive(&r, &mut m, "/p", &|_| Ok("user\n".to_string()));
    assert_eq!(ran, vec![0]);
    match outcome {
        RunOutcome::Failed(e) => {
            assert_eq!(e.message, "required user: root, current user: user")
        }
        _ => panic!("expected an identity mismatch"),
    }
    assert!(m.files.is_empty());
}

#[test]
fn info_output_is_shown_and_not_persisted() {
    let mut r = TaskRunner::new();
    r.add(Info::new("note"));
    let mut p = r.resume(None);
    assert!(matches!(r.next_step(&mut p), Step::Run(0)));
    let reaction = r.react(&mut p, Ok("note".to_string()));
    assert_eq!(reaction.output, "note");
    assert!(reaction.save.is_none());
    assert!(reaction.stop.is_none());
    assert!(matches!(r.next_step(&mut p), Step::Finished));
}

#[test]
fn list_shows_named_tasks_only() {
    let mut r = TaskRunner::new();
    r.add(Command::new("a", "true", false, false));
    r.add(Info::new("note"));
    r.add(RequireUser::new("install", "root"));
    assert_eq!(r.list(), vec!["a".to_string(), "check_required_user_root_for_install".to_string()]);
}

fn all_ok(n: usize) -> Vec<Result<String, TaskError>> {
    (0..n).map(|_| Ok(String::new())).collect()
}

#[test]
fn replay_of_the_two_stage_scenario() {
    let r = four_tasks();
    let first = r.replay(None, &all_ok(4));
    assert_eq!(first.executed, vec![0, 1, 2]);
    assert!(matches!(first.outcome, RunOutcome::PausedForStageBoundary));
    let saves: Vec<(usize, String, String)> = first
        .saves
        .iter()
        .map(|(i, s)| {
            let place = match &s.place {
                Place::Current => String::new(),
                Place::Moved(p) => p.clone(),
            };
            (*i, place, s.name.clone())
        })
        .collect();
    assert_eq!(
        saves,
        vec![
            (0, String::new(), "A".to_string()),
            (1, String::new(), "B".to_string()),
            (2, "/new/root/.arch-sway/progress".to_string(), "C".to_string()),
        ]
    );

    let second = r.replay(Some("C\n".to_string()), &all_ok(4));
    assert_eq!(second.executed, vec![3]);
    assert!(matches!(second.outcome, RunOutcome::Completed));
    assert_eq!(second.saves.len(), 1);
    assert_eq!(second.saves[0].0, 3);
    assert!(matches!(second.saves[0].1.place, Place::Current));
    assert_eq!(second.saves[0].1.name, "D");
}

#[test]
fn replay_stops_at_first_failure() {
    let r = four_tasks();
    let mut results = all_ok(4);
    results[0] = Err(TaskError::new("disk busy"));
    let replay = r.replay(None, &results);
    assert_eq!(replay.executed, vec![0]);
    assert!(replay.saves.is_empty());
    match replay.outcome {
        RunOutcome::Failed(e) => assert_eq!(e.message, "disk busy"),
        _ => panic!("expected a failure"),
    }
}

//! The task runner: resume logic and the reaction to each task's result.
//!
//! The runner is a state machine. The program that drives it asks for the
//! next step, performs the task's action when told to, hands the result back
//! and carries out the reaction (persist the marker, show output, stop). The
//! whole run that these steps make up is [`run_trace`], of which the laws at
//! the end of this module speak.
use vstd::prelude::*;

use crate::base_methods::{same_text, trim_text, trimmed};
use crate::tasks::{SignalModel, Task, TaskError, TaskSignal};

verus! {

/// An ordered list of tasks; insertion order is execution order.
pub struct TaskRunner {
    pub tasks: Vec<Task>,
}

/// Where the runner stands: the position of the next task, and the marker
/// still searched for (empty once execution has resumed).
pub struct Progress {
    pub next: usize,
    pub marker: String,
}

/// What the driver does next.
pub enum Step {
    /// The task at this position is not run (already completed earlier).
    Skip(usize),
    /// The task at this position is to be run, and its result handed back.
    Run(usize),
    /// Every task has been visited.
    Finished,
}

/// Where a progress marker is written.
pub enum Place {
    /// The progress file of the current execution context.
    Current,
    /// The given progress file, in the context of the next stage.
    Moved(String),
}

/// The mathematical value of a [`Place`].
pub enum PlaceModel {
    Current,
    Moved(Seq<char>),
}

/// A marker write: `name` at `place`.
pub struct Save {
    pub place: Place,
    pub name: String,
}

/// How a run of the pipeline ends.
pub enum RunOutcome {
    /// Every task was visited.
    Completed,
    /// A stage ended; the next invocation happens in another context.
    PausedForStageBoundary,
    /// A task failed; the invocation ends with failure status.
    Failed(TaskError),
}

/// The mathematical value of a [`RunOutcome`]: a failure with its message.
pub enum OutcomeModel {
    Completed,
    Paused,
    Failed(Seq<char>),
}

/// What the driver does with a task's result.
pub struct Reaction {
    /// The marker to write, if any.
    pub save: Option<Save>,
    /// The task's output, to show to the operator.
    pub output: String,
    /// Whether the invocation ends here, and how.
    pub stop: Option<RunOutcome>,
}

impl Place {
    pub open spec fn view(&self) -> PlaceModel {
        match self {
            Place::Current => PlaceModel::Current,
            Place::Moved(p) => PlaceModel::Moved(p@),
        }
    }
}

impl RunOutcome {
    pub open spec fn view(&self) -> OutcomeModel {
        match self {
            RunOutcome::Completed => OutcomeModel::Completed,
            RunOutcome::PausedForStageBoundary => OutcomeModel::Paused,
            RunOutcome::Failed(e) => OutcomeModel::Failed(e.message@),
        }
    }
}

pub open spec fn save_view(s: Option<Save>) -> Option<(PlaceModel, Seq<char>)> {
    match s {
        Some(s) => Some((s.place@, s.name@)),
        None => None,
    }
}

pub open spec fn stop_view(s: Option<RunOutcome>) -> Option<OutcomeModel> {
    match s {
        Some(o) => Some(o@),
        None => None,
    }
}

/// A task's result as text: its output, or its error message.
pub open spec fn result_view(r: Result<String, TaskError>) -> Result<Seq<char>, Seq<char>> {
    match r {
        Ok(s) => Ok(s@),
        Err(e) => Err(e.message@),
    }
}

/// The text of an optional string.
pub open spec fn text_view(o: Option<String>) -> Option<Seq<char>> {
    match o {
        Some(t) => Some(t@),
        None => None,
    }
}

/// The marker that a run starts from, given the text of the progress file
/// (`None`: no file, or it could not be read).
pub open spec fn initial_marker(saved: Option<Seq<char>>) -> Seq<char> {
    match saved {
        Some(t) => trimmed(t),
        None => Seq::empty(),
    }
}

/// A named task is skipped while a marker is still searched for; an unnamed
/// one always runs.
pub open spec fn skips(name: Seq<char>, marker: Seq<char>) -> bool {
    name.len() > 0 && marker.len() > 0
}

/// The marker searched for after skipping a task called `name`: reaching the
/// marked task ends the search.
pub open spec fn marker_after_skip(name: Seq<char>, marker: Seq<char>) -> Seq<char> {
    if name == marker {
        Seq::empty()
    } else {
        marker
    }
}

/// The message of an identity mismatch.
pub open spec fn identity_mismatch(expected: Seq<char>, current: Seq<char>) -> Seq<char> {
    "required user: "@ + expected + ", current user: "@ + current
}

/// Whether and how the invocation stops after a task with signal `sig` gave
/// `result`.
pub open spec fn stop_of(sig: SignalModel, result: Result<Seq<char>, Seq<char>>) -> Option<
    OutcomeModel,
> {
    match result {
        Err(m) => Some(OutcomeModel::Failed(m)),
        Ok(out) => match sig {
            SignalModel::StageCompleted(_) => Some(OutcomeModel::Paused),
            SignalModel::RequireUser(expected) => if trimmed(out) == expected {
                None
            } else {
                Some(OutcomeModel::Failed(identity_mismatch(expected, trimmed(out))))
            },
            _ => None,
        },
    }
}

/// The marker written after a task called `name` with signal `sig` gave
/// `result`: only successful, named Default and StageCompleted tasks anchor it.
pub open spec fn persisted(sig: SignalModel, name: Seq<char>, result: Result<Seq<char>, Seq<char>>) -> Option<
    (PlaceModel, Seq<char>),
> {
    if name.len() == 0 || result is Err {
        None
    } else {
        match sig {
            SignalModel::Default => Some((PlaceModel::Current, name)),
            SignalModel::StageCompleted(target) => Some((PlaceModel::Moved(target), name)),
            _ => None,
        }
    }
}

/// The output shown after a task gave `result`.
pub open spec fn output_of(result: Result<Seq<char>, Seq<char>>) -> Seq<char> {
    match result {
        Ok(out) => out,
        Err(_) => Seq::empty(),
    }
}

/// Everything one invocation does: the positions of the tasks run, in order;
/// the marker writes, each with the position of the task that made it; how
/// it ends.
pub struct Trace {
    pub executed: Seq<int>,
    pub saves: Seq<(int, PlaceModel, Seq<char>)>,
    pub end: OutcomeModel,
}

/// The invocation from position `pos` on, searching for `marker`, where the
/// task at position `i` gives `results[i]` when run.
pub open spec fn run_trace(
    tasks: Seq<Task>,
    pos: int,
    marker: Seq<char>,
    results: Seq<Result<Seq<char>, Seq<char>>>,
) -> Trace
    decreases tasks.len() - pos,
{
    if pos < 0 || pos >= tasks.len() {
        Trace { executed: Seq::empty(), saves: Seq::empty(), end: OutcomeModel::Completed }
    } else {
        let name = tasks[pos].name_view();
        if skips(name, marker) {
            run_trace(tasks, pos + 1, marker_after_skip(name, marker), results)
        } else {
            let sig = tasks[pos].signal_view();
            let saved = match persisted(sig, name, results[pos]) {
                Some((place, n)) => seq![(pos, place, n)],
                None => Seq::empty(),
            };
            match stop_of(sig, results[pos]) {
                Some(end) => Trace { executed: seq![pos], saves: saved, end },
                None => {
                    let rest = run_trace(tasks, pos + 1, marker, results);
                    Trace {
                        executed: seq![pos] + rest.executed,
                        saves: saved + rest.saves,
                        end: rest.end,
                    }
                },
            }
        }
    }
}

/// The names of the tasks that anchor progress, in order.
pub open spec fn named(tasks: Seq<Task>) -> Seq<Seq<char>>
    decreases tasks.len(),
{
    if tasks.len() == 0 {
        Seq::empty()
    } else {
        let rest = named(tasks.drop_last());
        if tasks.last().name_view().len() > 0 {
            rest.push(tasks.last().name_view())
        } else {
            rest
        }
    }
}

impl TaskRunner {
    pub fn new() -> (r: TaskRunner)
        ensures
            r.tasks@ == Seq::<Task>::empty(),
    {
        TaskRunner { tasks: Vec::new() }
    }

    /// Appends `task` to the pipeline.
    pub fn add(&mut self, task: Task)
        ensures
            final(self).tasks@ == old(self).tasks@.push(task),
    {
        self.tasks.push(task);
    }

    /// The names of the named tasks, in execution order (unnamed ones are
    /// not listed).
    pub fn list(&self) -> (r: Vec<String>)
        ensures
            r@.len() == named(self.tasks@).len(),
            forall|i: int| 0 <= i < r@.len() ==> #[trigger] r@[i]@ == named(self.tasks@)[i],
    {
        let mut r: Vec<String> = Vec::new();
        let mut i: usize = 0;
        while i < self.tasks.len()
            invariant
                i <= self.tasks@.len(),
                r@.len() == named(self.tasks@.subrange(0, i as int)).len(),
                forall|j: int|
                    0 <= j < r@.len() ==> #[trigger] r@[j]@ == named(
                        self.tasks@.subrange(0, i as int),
                    )[j],
            decreases self.tasks.len() - i,
        {
            let ghost before = self.tasks@.subrange(0, i as int);
            assert(self.tasks@.subrange(0, i + 1).drop_last() == before);
            let name = self.tasks[i].name();
            if name.unicode_len() > 0 {
                r.push(name);
            }
            i = i + 1;
        }
        assert(self.tasks@.subrange(0, i as int) == self.tasks@);
        r
    }

    /// Where a run starts, given the text of the progress file (`None`: the
    /// file is missing or could not be read, so nothing counts as done).
    pub fn resume(&self, saved: Option<String>) -> (r: Progress)
        ensures
            r.next == 0,
            r.marker@ == initial_marker(text_view(saved)),
    {
        match saved {
            Some(t) => Progress { next: 0, marker: trim_text(t.as_str()) },
            None => Progress { next: 0, marker: String::new() },
        }
    }

    /// Visits the next task: skips it, or asks for it to be run.
    pub fn next_step(&self, p: &mut Progress) -> (r: Step)
        ensures
            old(p).next >= self.tasks@.len() ==> r == Step::Finished && *final(p) == *old(p),
            old(p).next < self.tasks@.len() ==> {
                let name = self.tasks@[old(p).next as int].name_view();
                if skips(name, old(p).marker@) {
                    &&& r == Step::Skip(old(p).next)
                    &&& final(p).next == old(p).next + 1
                    &&& final(p).marker@ == marker_after_skip(name, old(p).marker@)
                } else {
                    r == Step::Run(old(p).next) && *final(p) == *old(p)
                }
            },
    {
        if p.next >= self.tasks.len() {
            return Step::Finished;
        }
        let i = p.next;
        let name = self.tasks[i].name();
        if name.unicode_len() > 0 && p.marker.unicode_len() > 0 {
            if same_text(name.as_str(), p.marker.as_str()) {
                p.marker = String::new();
            }
            p.next = i + 1;
            Step::Skip(i)
        } else {
            Step::Run(i)
        }
    }

    /// Takes the result of the task that [`Self::next_step`] asked to run, and
    /// says what follows from it.
    pub fn react(&self, p: &mut Progress, result: Result<String, TaskError>) -> (r: Reaction)
        requires
            old(p).next < self.tasks@.len(),
            !skips(self.tasks@[old(p).next as int].name_view(), old(p).marker@),
        ensures
            final(p).next == old(p).next + 1,
            final(p).marker == old(p).marker,
            ({
                let task = self.tasks@[old(p).next as int];
                &&& save_view(r.save) == persisted(
                    task.signal_view(),
                    task.name_view(),
                    result_view(result),
                )
                &&& stop_view(r.stop) == stop_of(task.signal_view(), result_view(result))
                &&& r.output@ == output_of(result_view(result))
            }),
    {
        let i = p.next;
        let n = self.tasks.len();
        assert(i < n);
        p.next = i + 1;
        let task = &self.tasks[i];
        let name = task.name();
        let signal = task.signal();
        match result {
            Err(e) => Reaction { save: None, output: String::new(), stop: Some(RunOutcome::Failed(e)) },
            Ok(out) => {
                let named = name.unicode_len() > 0;
                match signal {
                    TaskSignal::Default => {
                        let save = if named {
                            Some(Save { place: Place::Current, name })
                        } else {
                            None
                        };
                        Reaction { save, output: out, stop: None }
                    },
                    TaskSignal::Info => Reaction { save: None, output: out, stop: None },
                    TaskSignal::StageCompleted(target) => {
                        let save = if named {
                            Some(Save { place: Place::Moved(target), name })
                        } else {
                            None
                        };
                        Reaction { save, output: out, stop: Some(RunOutcome::PausedForStageBoundary) }
                    },
                    TaskSignal::RequireUser(expected) => {
                        let current = trim_text(out.as_str());
                        if same_text(current.as_str(), expected.as_str()) {
                            Reaction { save: None, output: out, stop: None }
                        } else {
                            let mut m = String::from_str("required user: ");
                            m.append(expected.as_str());
                            m.append(", current user: ");
                            m.append(current.as_str());
                            Reaction {
                                save: None,
                                output: out,
                                stop: Some(RunOutcome::Failed(TaskError { message: m })),
                            }
                        }
                    },
                }
            },
        }
    }
}

/// What a whole invocation decides, computed ahead of time by [`TaskRunner::replay`].
pub struct Replay {
    /// Positions of the tasks run, in order.
    pub executed: Vec<usize>,
    /// Marker writes, each with the position of the task that made it.
    pub saves: Vec<(usize, Save)>,
    pub outcome: RunOutcome,
}

impl Replay {
    pub open spec fn view(&self) -> Trace {
        Trace {
            executed: self.executed@.map_values(|i: usize| i as int),
            saves: self.saves@.map_values(|e: (usize, Save)| (e.0 as int, e.1.place@, e.1.name@)),
            end: self.outcome@,
        }
    }
}

/// The results of all tasks as text.
pub open spec fn results_view(results: Seq<Result<String, TaskError>>) -> Seq<
    Result<Seq<char>, Seq<char>>,
> {
    results.map_values(|r: Result<String, TaskError>| result_view(r))
}

fn copy_result(r: &Result<String, TaskError>) -> (c: Result<String, TaskError>)
    ensures
        result_view(c) == result_view(*r),
{
    match r {
        Ok(s) => Ok(s.clone()),
        Err(e) => Err(TaskError { message: e.message.clone() }),
    }
}

impl TaskRunner {
    /// Plays a whole invocation through [`Self::next_step`] and
    /// [`Self::react`], with `results[i]` as the result of the task at
    /// position `i`, without performing anything: which tasks run, which
    /// markers are written and how the invocation ends. A real driver makes
    /// the same calls, with results that the tasks' actions give.
    pub fn replay(&self, saved: Option<String>, results: &Vec<Result<String, TaskError>>) -> (r:
        Replay)
        requires
            results@.len() == self.tasks@.len(),
        ensures
            r@ == run_trace(
                self.tasks@,
                0,
                initial_marker(text_view(saved)),
                results_view(results@),
            ),
    {
        let ghost tasks = self.tasks@;
        let ghost rv = results_view(results@);
        let ghost init = initial_marker(text_view(saved));
        let mut p = self.resume(saved);
        assert(p.marker@ == init);
        let ghost full = run_trace(tasks, 0, p.marker@, rv);
        let mut executed: Vec<usize> = Vec::new();
        let mut saves: Vec<(usize, Save)> = Vec::new();
        let ghost mut acc = Trace {
            executed: Seq::empty(),
            saves: Seq::empty(),
            end: OutcomeModel::Completed,
        };
        while p.next < self.tasks.len()
            invariant
                tasks == self.tasks@,
                rv == results_view(results@),
                init == initial_marker(text_view(saved)),
                full == run_trace(tasks, 0, init, rv),
                results@.len() == tasks.len(),
                p.next <= tasks.len(),
                executed@.map_values(|i: usize| i as int) == acc.executed,
                saves@.map_values(|e: (usize, Save)| (e.0 as int, e.1.place@, e.1.name@))
                    == acc.saves,
                full.executed == acc.executed + run_trace(tasks, p.next as int, p.marker@, rv).executed,
                full.saves == acc.saves + run_trace(tasks, p.next as int, p.marker@, rv).saves,
                full.end == run_trace(tasks, p.next as int, p.marker@, rv).end,
            decreases tasks.len() - p.next,
        {
            let ghost pos = p.next as int;
            let ghost marker = p.marker@;
            let ghost rest = run_trace(tasks, pos, marker, rv);
            match self.next_step(&mut p) {
                Step::Skip(_) => {
                    assert(rest == run_trace(tasks, pos + 1, p.marker@, rv));
                },
                Step::Run(i) => {
                    let result = copy_result(&results[i]);
                    assert(result_view(result) == rv[pos]);
                    let reaction = self.react(&mut p, result);
                    let ghost next = run_trace(tasks, pos + 1, marker, rv);
                    let ghost saved_here = match save_view(reaction.save) {
                        Some((place, n)) => seq![(pos, place, n)],
                        None => Seq::<(int, PlaceModel, Seq<char>)>::empty(),
                    };
                    let ghost ex_before = executed@;
                    let ghost sv_before = saves@;
                    executed.push(i);
                    assert(executed@.map_values(|i: usize| i as int) == ex_before.map_values(
                        |i: usize| i as int,
                    ).push(pos));
                    match reaction.save {
                        Some(sv) => {
                            saves.push((i, sv));
                        },
                        None => {},
                    }
                    assert(saves@.map_values(|e: (usize, Save)| (e.0 as int, e.1.place@, e.1.name@))
                        == sv_before.map_values(
                        |e: (usize, Save)| (e.0 as int, e.1.place@, e.1.name@),
                    ) + saved_here);
                    proof {
                        acc = Trace {
                            executed: acc.executed.push(pos),
                            saves: acc.saves + saved_here,
                            end: acc.end,
                        };
                    }
                    match reaction.stop {
                        Some(outcome) => {
                            assert(rest.executed == seq![pos]);
                            assert(full.executed == acc.executed);
                            assert(full.saves == acc.saves);
                            return Replay { executed, saves, outcome };
                        },
                        None => {
                            assert(rest.executed == seq![pos] + next.executed);
                            assert(full.executed == acc.executed + next.executed);
                            assert(full.saves == acc.saves + next.saves);
                        },
                    }
                },
                Step::Finished => {},
            }
        }
        assert(full.executed == acc.executed);
        assert(full.saves == acc.saves);
        Replay { executed, saves, outcome: RunOutcome::Completed }
    }
}

/// Every position that a run from `pos` executes or saves from lies in
/// `pos..tasks.len()`.
proof fn lemma_trace_positions(
    tasks: Seq<Task>,
    pos: int,
    marker: Seq<char>,
    results: Seq<Result<Seq<char>, Seq<char>>>,
)
    requires
        0 <= pos,
    ensures
        forall|i: int|
            0 <= i < run_trace(tasks, pos, marker, results).executed.len() ==> pos <= (
            #[trigger] run_trace(tasks, pos, marker, results).executed[i]) < tasks.len(),
        forall|i: int|
            0 <= i < run_trace(tasks, pos, marker, results).saves.len() ==> pos <= (
            #[trigger] run_trace(tasks, pos, marker, results).saves[i]).0 < tasks.len(),
    decreases tasks.len() - pos,
{
    if pos < tasks.len() {
        let name = tasks[pos].name_view();
        if skips(name, marker) {
            lemma_trace_positions(tasks, pos + 1, marker_after_skip(name, marker), results);
        } else {
            lemma_trace_positions(tasks, pos + 1, marker, results);
        }
    }
}

proof fn lemma_skip_to_marked(
    tasks: Seq<Task>,
    j: int,
    k: int,
    results: Seq<Result<Seq<char>, Seq<char>>>,
)
    requires
        0 <= j <= k < tasks.len(),
        forall|l: int| 0 <= l <= k ==> #[trigger] tasks[l].name_view().len() > 0,
        forall|l: int| 0 <= l < k ==> #[trigger] tasks[l].name_view() != tasks[k].name_view(),
    ensures
        run_trace(tasks, j, tasks[k].name_view(), results) == run_trace(
            tasks,
            k + 1,
            Seq::empty(),
            results,
        ),
    decreases k - j,
{
    if j < k {
        lemma_skip_to_marked(tasks, j + 1, k, results);
    }
}

/// Resume correctness: when the marker names task `k`, a run skips every
/// task up to and including `k` and then does exactly what a fresh run from
/// `k + 1` does. This holds where task `k` and every task before it are named
/// (an unnamed task runs whenever it is reached) and no earlier task bears the
/// same name (the search stops at the first one).
pub proof fn lemma_resume_after_marker(
    tasks: Seq<Task>,
    k: int,
    results: Seq<Result<Seq<char>, Seq<char>>>,
)
    requires
        0 <= k < tasks.len(),
        forall|j: int| 0 <= j <= k ==> #[trigger] tasks[j].name_view().len() > 0,
        forall|j: int| 0 <= j < k ==> #[trigger] tasks[j].name_view() != tasks[k].name_view(),
    ensures
        run_trace(tasks, 0, tasks[k].name_view(), results) == run_trace(
            tasks,
            k + 1,
            Seq::empty(),
            results,
        ),
        forall|i: int|
            0 <= i < run_trace(tasks, 0, tasks[k].name_view(), results).executed.len() ==> (
            #[trigger] run_trace(tasks, 0, tasks[k].name_view(), results).executed[i]) > k,
{
    lemma_skip_to_marked(tasks, 0, k, results);
    lemma_trace_positions(tasks, k + 1, Seq::empty(), results);
}

proof fn lemma_fresh_run_in_order(
    tasks: Seq<Task>,
    pos: int,
    results: Seq<Result<Seq<char>, Seq<char>>>,
)
    requires
        0 <= pos,
    ensures
        pos < tasks.len() ==> run_trace(tasks, pos, Seq::empty(), results).executed.len() > 0,
        forall|i: int|
            0 <= i < run_trace(tasks, pos, Seq::empty(), results).executed.len() ==> (
            #[trigger] run_trace(tasks, pos, Seq::empty(), results).executed[i]) == pos + i,
    decreases tasks.len() - pos,
{
    if pos < tasks.len() {
        lemma_fresh_run_in_order(tasks, pos + 1, results);
        let t = run_trace(tasks, pos, Seq::empty(), results);
        let rest = run_trace(tasks, pos + 1, Seq::empty(), results);
        if stop_of(tasks[pos].signal_view(), results[pos]) is None {
            assert forall|i: int| 0 <= i < t.executed.len() implies #[trigger] t.executed[i]
                == pos + i by {
                if i > 0 {
                    assert(t.executed[i] == rest.executed[i - 1]);
                }
            }
        }
    }
}

/// No-marker start: without a marker, nothing is skipped; the first task runs
/// first and the tasks run in order, one after the other, until the run stops.
pub proof fn lemma_fresh_start(tasks: Seq<Task>, results: Seq<Result<Seq<char>, Seq<char>>>)
    ensures
        tasks.len() > 0 ==> run_trace(tasks, 0, Seq::empty(), results).executed.len() > 0
            && run_trace(tasks, 0, Seq::empty(), results).executed[0] == 0,
        forall|i: int|
            0 <= i < run_trace(tasks, 0, Seq::empty(), results).executed.len() ==> (
            #[trigger] run_trace(tasks, 0, Seq::empty(), results).executed[i]) == i,
{
    lemma_fresh_run_in_order(tasks, 0, results);
}

/// Unnamed tasks never anchor: whatever marker is searched for, an unnamed
/// task is run when reached, and no result of it writes a marker.
pub proof fn lemma_unnamed_task_never_anchors(
    task: Task,
    marker: Seq<char>,
    result: Result<Seq<char>, Seq<char>>,
)
    requires
        task.name_view().len() == 0,
    ensures
        !skips(task.name_view(), marker),
        persisted(task.signal_view(), task.name_view(), result) is None,
{
}

/// Default failure aborts: when a run executes a Default task at position `i`
/// and it fails, it is the last task run, the run fails, and every marker
/// written came from an earlier task.
pub proof fn lemma_default_failure_aborts(
    tasks: Seq<Task>,
    pos: int,
    marker: Seq<char>,
    results: Seq<Result<Seq<char>, Seq<char>>>,
    i: int,
)
    requires
        0 <= pos,
        run_trace(tasks, pos, marker, results).executed.contains(i),
        0 <= i < tasks.len(),
        tasks[i].signal_view() is Default,
        results[i] is Err,
    ensures
        run_trace(tasks, pos, marker, results).executed.last() == i,
        run_trace(tasks, pos, marker, results).end is Failed,
        forall|s: int|
            0 <= s < run_trace(tasks, pos, marker, results).saves.len() ==> (
            #[trigger] run_trace(tasks, pos, marker, results).saves[s]).0 < i,
    decreases tasks.len() - pos,
{
    let t = run_trace(tasks, pos, marker, results);
    if pos < tasks.len() {
        let name = tasks[pos].name_view();
        if skips(name, marker) {
            lemma_default_failure_aborts(tasks, pos + 1, marker_after_skip(name, marker), results, i);
        } else if stop_of(tasks[pos].signal_view(), results[pos]) is None {
            let rest = run_trace(tasks, pos + 1, marker, results);
            assert(pos != i);
            let k = choose|k: int| 0 <= k < t.executed.len() && t.executed[k] == i;
            assert(rest.executed[k - 1] == i);
            lemma_default_failure_aborts(tasks, pos + 1, marker, results, i);
            lemma_trace_positions(tasks, pos + 1, marker, results);
            assert(i >= pos + 1);
            assert forall|s: int| 0 <= s < t.saves.len() implies (#[trigger] t.saves[s]).0 < i by {
                if persisted(tasks[pos].signal_view(), name, results[pos]) is Some && s > 0 {
                    assert(t.saves[s] == rest.saves[s - 1]);
                }
            }
        } else {
            assert(t.executed == seq![pos]);
            assert(t.executed[0] == pos);
        }
    }
}

/// Stage boundary relocation: when a run executes a stage-ending task at
/// position `i` and it succeeds, it is the last task run, the run pauses for
/// the next stage, and the last marker written is the task's own name at the
/// task's target (for a named task; an unnamed one writes nothing).
pub proof fn lemma_stage_boundary_relocates(
    tasks: Seq<Task>,
    pos: int,
    marker: Seq<char>,
    results: Seq<Result<Seq<char>, Seq<char>>>,
    i: int,
    target: Seq<char>,
)
    requires
        0 <= pos,
        run_trace(tasks, pos, marker, results).executed.contains(i),
        0 <= i < tasks.len(),
        tasks[i].signal_view() == SignalModel::StageCompleted(target),
        results[i] is Ok,
    ensures
        run_trace(tasks, pos, marker, results).executed.last() == i,
        run_trace(tasks, pos, marker, results).end == OutcomeModel::Paused,
        tasks[i].name_view().len() > 0 ==> run_trace(tasks, pos, marker, results).saves.len() > 0
            && run_trace(tasks, pos, marker, results).saves.last() == (
            i,
            PlaceModel::Moved(target),
            tasks[i].name_view(),
        ),
    decreases tasks.len() - pos,
{
    let t = run_trace(tasks, pos, marker, results);
    if pos < tasks.len() {
        let name = tasks[pos].name_view();
        if skips(name, marker) {
            lemma_stage_boundary_relocates(
                tasks,
                pos + 1,
                marker_after_skip(name, marker),
                results,
                i,
                target,
            );
        } else if stop_of(tasks[pos].signal_view(), results[pos]) is None {
            let rest = run_trace(tasks, pos + 1, marker, results);
            assert(pos != i);
            let k = choose|k: int| 0 <= k < t.executed.len() && t.executed[k] == i;
            assert(rest.executed[k - 1] == i);
            lemma_stage_boundary_relocates(tasks, pos + 1, marker, results, i, target);
        } else {
            assert(t.executed == seq![pos]);
            assert(t.executed[0] == pos);
        }
    }
}

/// Only Default and stage-ending tasks write markers: an identity check or
/// an informational task never does, whatever its result.
pub proof fn lemma_identity_check_never_persists(
    tasks: Seq<Task>,
    pos: int,
    marker: Seq<char>,
    results: Seq<Result<Seq<char>, Seq<char>>>,
)
    requires
        0 <= pos,
    ensures
        forall|s: int|
            0 <= s < run_trace(tasks, pos, marker, results).saves.len() ==> {
                let k = (#[trigger] run_trace(tasks, pos, marker, results).saves[s]).0;
                &&& 0 <= k < tasks.len()
                &&& !(tasks[k].signal_view() is RequireUser)
                &&& !(tasks[k].signal_view() is Info)
            },
    decreases tasks.len() - pos,
{
    let t = run_trace(tasks, pos, marker, results);
    if pos < tasks.len() {
        let name = tasks[pos].name_view();
        if skips(name, marker) {
            lemma_identity_check_never_persists(tasks, pos + 1, marker_after_skip(name, marker), results);
        } else {
            let rest = run_trace(tasks, pos + 1, marker, results);
            lemma_identity_check_never_persists(tasks, pos + 1, marker, results);
            if stop_of(tasks[pos].signal_view(), results[pos]) is None {
                assert forall|s: int| 0 <= s < t.saves.len() implies {
                    let k = (#[trigger] t.saves[s]).0;
                    &&& 0 <= k < tasks.len()
                    &&& !(tasks[k].signal_view() is RequireUser)
                    &&& !(tasks[k].signal_view() is Info)
                } by {
                    if persisted(tasks[pos].signal_view(), name, results[pos]) is Some && s > 0 {
                        assert(t.saves[s] == rest.saves[s - 1]);
                    }
                }
            }
        }
    }
}

} // verus!

//! The decisions of the bounded fetch engine.
//!
//! The engine itself moves no bytes. It is asked what to do next, answers
//! with an action, and is told how each fetch that it started ended. Whoever
//! drives it performs the actions: starts the fetch of a task, reports a
//! skipped task, waits for a fetch in flight to end, or stops.
//!
//! Tasks are taken in order. At most `concurrency` fetches are in flight at
//! once. A task without an address is skipped: it is no failure, and the
//! driver is told so that it can report it. Under `FailFast` the first
//! failure stops the scheduling of new tasks; fetches in flight may end, and
//! what they bring is not recorded. Under `CollectAll` every task runs and
//! every failure is recorded.

use vstd::prelude::*;

verus! {

/// What the engine does once a task has failed.
#[derive(Clone, Copy, Debug, PartialEq, Eq, Structural)]
pub enum FailurePolicy {
    FailFast,
    CollectAll,
}

/// How far a task has come.
#[derive(Clone, Copy, Debug, PartialEq, Eq, Structural)]
pub enum TaskStatus {
    Pending,
    Skipped,
    InFlight,
    Succeeded,
    Failed,
}

/// What the driver is to do next.
#[derive(Clone, Copy, Debug, PartialEq, Eq, Structural)]
pub enum FetchAction {
    /// Start the fetch of the task with the given index.
    Start(usize),
    /// The task with the given index has nothing to fetch: report it and ask
    /// again.
    Skip(usize),
    /// Wait until a fetch in flight ends, and report how it ended.
    Wait,
    /// Nothing is left to do: take the result.
    Finish,
}

/// One file to fetch: where from and where to.
#[derive(Clone, Debug, PartialEq, Eq)]
pub struct FetchTask {
    pub url: String,
    pub destination: String,
}

/// A `FetchTask` with its texts as character sequences.
pub struct FetchTaskView {
    pub url: Seq<char>,
    pub destination: Seq<char>,
}

impl View for FetchTask {
    type V = FetchTaskView;

    open spec fn view(&self) -> FetchTaskView {
        FetchTaskView { url: self.url@, destination: self.destination@ }
    }
}

/// The failure of one task: which task, its address and destination, and
/// what went wrong.
#[derive(Clone, Debug, PartialEq, Eq)]
pub struct FetchError {
    pub task: usize,
    pub url: String,
    pub destination: String,
    pub reason: String,
}

/// A `FetchError` with its texts as character sequences.
pub struct FetchErrorView {
    pub task: int,
    pub url: Seq<char>,
    pub destination: Seq<char>,
    pub reason: Seq<char>,
}

impl View for FetchError {
    type V = FetchErrorView;

    open spec fn view(&self) -> FetchErrorView {
        FetchErrorView {
            task: self.task as int,
            url: self.url@,
            destination: self.destination@,
            reason: self.reason@,
        }
    }
}

/// The views of a list of tasks, in order.
pub open spec fn task_views(tasks: Seq<FetchTask>) -> Seq<FetchTaskView> {
    Seq::new(tasks.len(), |i: int| tasks[i]@)
}

/// The views of a list of failures, in order.
pub open spec fn error_views(errors: Seq<FetchError>) -> Seq<FetchErrorView> {
    Seq::new(errors.len(), |i: int| errors[i]@)
}

/// The reason of a failure as a character sequence, if there is one.
pub open spec fn reason_view(failure: Option<String>) -> Option<Seq<char>> {
    match failure {
        Some(reason) => Some(reason@),
        None => None,
    }
}

/// How many of the tasks are in flight.
pub open spec fn count_in_flight(statuses: Seq<TaskStatus>) -> int
    decreases statuses.len(),
{
    if statuses.len() == 0 {
        0
    } else {
        count_in_flight(statuses.drop_last()) + if statuses.last() == TaskStatus::InFlight {
            1int
        } else {
            0int
        }
    }
}

/// The state of an engine.
pub struct EngineState {
    pub tasks: Seq<FetchTaskView>,
    pub statuses: Seq<TaskStatus>,
    /// The index of the next task to schedule.
    pub next: int,
    /// The failures recorded so far, in the order in which they were told.
    pub failures: Seq<FetchErrorView>,
    pub concurrency: int,
    pub policy: FailurePolicy,
}

impl EngineState {
    /// The state before anything was scheduled.
    pub open spec fn initial(
        tasks: Seq<FetchTaskView>,
        concurrency: int,
        policy: FailurePolicy,
    ) -> EngineState {
        EngineState {
            tasks,
            statuses: Seq::new(tasks.len(), |i: int| TaskStatus::Pending),
            next: 0,
            failures: Seq::<FetchErrorView>::empty(),
            concurrency,
            policy,
        }
    }

    /// How many fetches are in flight.
    pub open spec fn in_flight(self) -> int {
        count_in_flight(self.statuses)
    }

    /// Whether task `task` is in flight.
    pub open spec fn is_in_flight(self, task: int) -> bool {
        0 <= task < self.statuses.len() && self.statuses[task] == TaskStatus::InFlight
    }

    /// Whether task `task` has come to an end, one way or another.
    pub open spec fn is_settled(self, task: int) -> bool {
        0 <= task < self.statuses.len() && (self.statuses[task] == TaskStatus::Skipped
            || self.statuses[task] == TaskStatus::Succeeded || self.statuses[task]
            == TaskStatus::Failed)
    }

    /// Whether the failure of task `task` is recorded.
    pub open spec fn lists_failure(self, task: int) -> bool {
        exists|k: int| 0 <= k < self.failures.len() && (#[trigger] self.failures[k]).task == task
    }

    /// Whether a failure has stopped the scheduling of new tasks.
    pub open spec fn stopped(self) -> bool {
        self.policy == FailurePolicy::FailFast && self.failures.len() > 0
    }

    /// What holds of every state that an engine reaches.
    pub open spec fn wf(self) -> bool {
        &&& self.concurrency >= 1
        &&& self.tasks.len() <= usize::MAX
        &&& self.statuses.len() == self.tasks.len()
        &&& 0 <= self.next <= self.tasks.len()
        &&& 0 <= self.in_flight() <= self.concurrency
        &&& forall|i: int|
            0 <= i < self.statuses.len() ==> ((#[trigger] self.statuses[i]) == TaskStatus::Pending
                <==> self.next <= i)
        &&& forall|i: int|
            0 <= i < self.statuses.len() ==> ((#[trigger] self.statuses[i]) == TaskStatus::Skipped
                ==> self.tasks[i].url.len() == 0)
        &&& forall|i: int|
            0 <= i < self.statuses.len() && self.tasks[i].url.len() == 0 ==> (
            #[trigger] self.statuses[i]) == TaskStatus::Pending || self.statuses[i]
                == TaskStatus::Skipped
        &&& forall|k: int|
            0 <= k < self.failures.len() ==> {
                let failure = #[trigger] self.failures[k];
                &&& 0 <= failure.task < self.tasks.len()
                &&& self.statuses[failure.task] == TaskStatus::Failed
                &&& failure.url == self.tasks[failure.task].url
                &&& failure.destination == self.tasks[failure.task].destination
            }
        &&& forall|k: int, m: int|
            0 <= k < m < self.failures.len() ==> (#[trigger] self.failures[k]).task != (
            #[trigger] self.failures[m]).task
        &&& self.policy == FailurePolicy::CollectAll ==> forall|i: int|
            0 <= i < self.statuses.len() && (#[trigger] self.statuses[i]) == TaskStatus::Failed
                ==> self.lists_failure(i)
        &&& self.policy == FailurePolicy::FailFast ==> self.failures.len() <= 1 && (forall|i: int|
            0 <= i < self.statuses.len() && (#[trigger] self.statuses[i]) == TaskStatus::Failed
                ==> self.failures.len() == 1)
        &&& self.concurrency == 1 ==> forall|k: int, j: int|
            0 <= k < j < self.statuses.len() && #[trigger] self.holds_back(k)
                ==> #[trigger] self.not_started(j)
    }

    /// Whether task `task` keeps a sequential engine from starting another:
    /// it is in flight, or it failed under `FailFast`.
    pub open spec fn holds_back(self, task: int) -> bool {
        self.statuses[task] == TaskStatus::InFlight || (self.policy == FailurePolicy::FailFast
            && self.statuses[task] == TaskStatus::Failed)
    }

    /// Whether the fetch of task `task` was never started: it is still
    /// pending, or it was skipped.
    pub open spec fn not_started(self, task: int) -> bool {
        self.statuses[task] == TaskStatus::Pending || self.statuses[task] == TaskStatus::Skipped
    }

    /// What the driver is to do in this state.
    pub open spec fn decision(self) -> FetchAction {
        if self.stopped() {
            if self.in_flight() > 0 {
                FetchAction::Wait
            } else {
                FetchAction::Finish
            }
        } else if self.next < self.tasks.len() {
            if self.tasks[self.next].url.len() == 0 {
                FetchAction::Skip(self.next as usize)
            } else if self.in_flight() < self.concurrency {
                FetchAction::Start(self.next as usize)
            } else {
                FetchAction::Wait
            }
        } else if self.in_flight() > 0 {
            FetchAction::Wait
        } else {
            FetchAction::Finish
        }
    }

    /// The state once the decision was handed out: a task that is started is
    /// in flight, a task that is skipped is settled, and the next task is up.
    pub open spec fn advanced(self) -> EngineState {
        match self.decision() {
            FetchAction::Start(task) => EngineState {
                statuses: self.statuses.update(task as int, TaskStatus::InFlight),
                next: self.next + 1,
                ..self
            },
            FetchAction::Skip(task) => EngineState {
                statuses: self.statuses.update(task as int, TaskStatus::Skipped),
                next: self.next + 1,
                ..self
            },
            FetchAction::Wait => self,
            FetchAction::Finish => self,
        }
    }

    /// Whether a failure told now is recorded: always under `CollectAll`,
    /// only the first under `FailFast`.
    pub open spec fn records_failure(self) -> bool {
        self.policy == FailurePolicy::CollectAll || self.failures.len() == 0
    }

    /// The state once the fetch of `task` ended, with the reason of its
    /// failure if it failed. A task that is not in flight changes nothing.
    pub open spec fn completed(self, task: int, failure: Option<Seq<char>>) -> EngineState {
        if !self.is_in_flight(task) {
            self
        } else {
            match failure {
                None => EngineState {
                    statuses: self.statuses.update(task, TaskStatus::Succeeded),
                    ..self
                },
                Some(reason) => EngineState {
                    statuses: self.statuses.update(task, TaskStatus::Failed),
                    failures: if self.records_failure() {
                        self.failures.push(
                            FetchErrorView {
                                task,
                                url: self.tasks[task].url,
                                destination: self.tasks[task].destination,
                                reason,
                            },
                        )
                    } else {
                        self.failures
                    },
                    ..self
                },
            }
        }
    }

    /// The result of the run: success if no failure was recorded, else the
    /// failures.
    pub open spec fn outcome(self) -> Result<(), Seq<FetchErrorView>> {
        if self.failures.len() == 0 {
            Ok(())
        } else {
            Err(self.failures)
        }
    }
}

/// Changing one task's status changes the count of fetches in flight by
/// what that task adds or takes away.
pub proof fn lemma_count_update(statuses: Seq<TaskStatus>, at: int, status: TaskStatus)
    requires
        0 <= at < statuses.len(),
    ensures
        count_in_flight(statuses.update(at, status)) == count_in_flight(statuses) + (if status
            == TaskStatus::InFlight {
            1int
        } else {
            0int
        }) - (if statuses[at] == TaskStatus::InFlight {
            1int
        } else {
            0int
        }),
    decreases statuses.len(),
{
    let changed = statuses.update(at, status);
    if at == statuses.len() - 1 {
        assert(changed.drop_last() == statuses.drop_last());
    } else {
        assert(changed.drop_last() == statuses.drop_last().update(at, status));
        lemma_count_update(statuses.drop_last(), at, status);
    }
}

/// The count of fetches in flight is never negative, and it is positive
/// exactly when some task is in flight.
pub proof fn lemma_count_positive(statuses: Seq<TaskStatus>)
    ensures
        count_in_flight(statuses) >= 0,
        count_in_flight(statuses) > 0 <==> exists|i: int|
            0 <= i < statuses.len() && (#[trigger] statuses[i]) == TaskStatus::InFlight,
    decreases statuses.len(),
{
    if statuses.len() > 0 {
        let front = statuses.drop_last();
        lemma_count_positive(front);
        if count_in_flight(front) > 0 {
            let i = choose|i: int|
                0 <= i < front.len() && (#[trigger] front[i]) == TaskStatus::InFlight;
            assert(statuses[i] == TaskStatus::InFlight);
        }
        if statuses.last() == TaskStatus::InFlight {
            assert(statuses[statuses.len() - 1] == TaskStatus::InFlight);
        }
        if exists|i: int|
            0 <= i < statuses.len() && (#[trigger] statuses[i]) == TaskStatus::InFlight {
            let i = choose|i: int|
                0 <= i < statuses.len() && (#[trigger] statuses[i]) == TaskStatus::InFlight;
            if i < front.len() {
                assert(front[i] == TaskStatus::InFlight);
            }
        }
    }
}

/// Before anything is scheduled, nothing is in flight.
pub proof fn lemma_initial_wf(tasks: Seq<FetchTaskView>, concurrency: int, policy: FailurePolicy)
    requires
        concurrency >= 1,
        tasks.len() <= usize::MAX,
    ensures
        EngineState::initial(tasks, concurrency, policy).wf(),
        EngineState::initial(tasks, concurrency, policy).in_flight() == 0,
{
    let state = EngineState::initial(tasks, concurrency, policy);
    lemma_count_positive(state.statuses);
}

/// Handing out a decision keeps the state well formed.
pub proof fn lemma_advanced_wf(state: EngineState)
    requires
        state.wf(),
    ensures
        state.advanced().wf(),
{
    let after = state.advanced();
    match state.decision() {
        FetchAction::Start(task) => {
            lemma_count_update(state.statuses, task as int, TaskStatus::InFlight);
            lemma_count_positive(state.statuses);
            assert forall|k: int, j: int|
                0 <= k < j < after.statuses.len() && state.concurrency == 1
                    && #[trigger] after.holds_back(k) implies #[trigger] after.not_started(
                j,
            ) by {
                if k != task {
                    assert(state.statuses[k] != TaskStatus::InFlight);
                    assert(!state.holds_back(k));
                }
            }
            assert forall|i: int|
                0 <= i < after.statuses.len() && (#[trigger] after.statuses[i])
                    == TaskStatus::Failed implies state.statuses[i] == TaskStatus::Failed by {}
            assert forall|k: int| 0 <= k < after.failures.len() implies after.statuses[(
            #[trigger] after.failures[k]).task] == TaskStatus::Failed by {
                assert(state.failures[k].task != task);
            }
            if state.policy == FailurePolicy::CollectAll {
                assert forall|i: int|
                    0 <= i < after.statuses.len() && (#[trigger] after.statuses[i])
                        == TaskStatus::Failed implies after.lists_failure(i) by {
                    assert(state.statuses[i] == TaskStatus::Failed);
                    assert(state.lists_failure(i));
                }
            }
        },
        FetchAction::Skip(task) => {
            lemma_count_update(state.statuses, task as int, TaskStatus::Skipped);
            assert forall|k: int, j: int|
                0 <= k < j < after.statuses.len() && state.concurrency == 1
                    && #[trigger] after.holds_back(k) implies #[trigger] after.not_started(
                j,
            ) by {
                assert(state.holds_back(k));
                assert(state.not_started(j));
            }
            assert forall|k: int| 0 <= k < after.failures.len() implies after.statuses[(
            #[trigger] after.failures[k]).task] == TaskStatus::Failed by {
                assert(state.failures[k].task != task);
            }
            if state.policy == FailurePolicy::CollectAll {
                assert forall|i: int|
                    0 <= i < after.statuses.len() && (#[trigger] after.statuses[i])
                        == TaskStatus::Failed implies after.lists_failure(i) by {
                    assert(state.statuses[i] == TaskStatus::Failed);
                    assert(state.lists_failure(i));
                }
            }
        },
        FetchAction::Wait => {},
        FetchAction::Finish => {},
    }
}

/// Telling the end of a fetch keeps the state well formed.
pub proof fn lemma_completed_wf(state: EngineState, task: int, failure: Option<Seq<char>>)
    requires
        state.wf(),
    ensures
        state.completed(task, failure).wf(),
{
    let after = state.completed(task, failure);
    if state.is_in_flight(task) {
        lemma_count_positive(state.statuses);
        assert(state.statuses[task] == TaskStatus::InFlight);
        assert forall|k: int, j: int|
            0 <= k < j < after.statuses.len() && state.concurrency == 1
                && #[trigger] after.holds_back(k) implies #[trigger] after.not_started(j) by {
            assert(state.holds_back(k));
            assert(state.not_started(j));
        }
        match failure {
            None => {
                lemma_count_update(state.statuses, task, TaskStatus::Succeeded);
                assert forall|k: int| 0 <= k < after.failures.len() implies after.statuses[(
                #[trigger] after.failures[k]).task] == TaskStatus::Failed by {
                    assert(state.failures[k].task != task);
                }
                if state.policy == FailurePolicy::CollectAll {
                    assert forall|i: int|
                        0 <= i < after.statuses.len() && (#[trigger] after.statuses[i])
                            == TaskStatus::Failed implies after.lists_failure(i) by {
                        assert(state.statuses[i] == TaskStatus::Failed);
                        assert(state.lists_failure(i));
                    }
                }
            },
            Some(reason) => {
                lemma_count_update(state.statuses, task, TaskStatus::Failed);
                assert forall|k: int| 0 <= k < state.failures.len() implies (
                #[trigger] state.failures[k]).task != task by {}
                if state.records_failure() {
                    let added = after.failures[state.failures.len() as int];
                    assert(added.task == task);
                    assert forall|i: int|
                        0 <= i < after.statuses.len() && (#[trigger] after.statuses[i])
                            == TaskStatus::Failed implies after.lists_failure(i) by {
                        if i == task {
                            assert(after.failures[state.failures.len() as int].task == i);
                        } else {
                            assert(state.statuses[i] == TaskStatus::Failed);
                            if state.policy == FailurePolicy::CollectAll {
                                assert(state.lists_failure(i));
                                let k = choose|k: int|
                                    0 <= k < state.failures.len() && (
                                    #[trigger] state.failures[k]).task == i;
                                assert(after.failures[k].task == i);
                            }
                        }
                    }
                }
            },
        }
    }
}

/// Under `FailFast`, once a failure is recorded no task is started or
/// skipped any more: the engine only waits for what is in flight, then
/// finishes.
pub proof fn lemma_fail_fast_stops(state: EngineState)
    requires
        state.wf(),
        state.policy == FailurePolicy::FailFast,
        state.failures.len() > 0,
    ensures
        state.decision() == FetchAction::Wait || state.decision() == FetchAction::Finish,
        state.advanced() == state,
{
}

/// A fetch is started only while fewer than `concurrency` are in flight, so
/// there are never more than `concurrency`.
pub proof fn lemma_start_within_cap(state: EngineState, task: usize)
    requires
        state.wf(),
        state.decision() == FetchAction::Start(task),
    ensures
        state.in_flight() < state.concurrency,
        state.advanced().in_flight() == state.in_flight() + 1,
        state.advanced().in_flight() <= state.concurrency,
        task == state.next,
        state.tasks[task as int].url.len() > 0,
{
    lemma_count_update(state.statuses, task as int, TaskStatus::InFlight);
}

/// With one fetch at a time, a task is started only after every task before
/// it has come to an end; under `FailFast`, only if none of them failed.
pub proof fn lemma_sequential_start(state: EngineState, task: usize)
    requires
        state.wf(),
        state.concurrency == 1,
        state.decision() == FetchAction::Start(task),
    ensures
        forall|i: int| 0 <= i < task ==> state.is_settled(i),
        state.policy == FailurePolicy::FailFast ==> forall|i: int|
            0 <= i < task ==> state.statuses[i] != TaskStatus::Failed,
{
    lemma_count_positive(state.statuses);
    assert forall|i: int| 0 <= i < task implies state.is_settled(i) by {
        assert(state.statuses[i] != TaskStatus::Pending);
        assert(state.statuses[i] != TaskStatus::InFlight);
    }
}

/// With one fetch at a time under `FailFast`, the fetch of no task after a
/// failed one was ever started.
pub proof fn lemma_sequential_fail_fast_stops(state: EngineState, failed: int)
    requires
        state.wf(),
        state.concurrency == 1,
        state.policy == FailurePolicy::FailFast,
        0 <= failed < state.tasks.len(),
        state.statuses[failed] == TaskStatus::Failed,
    ensures
        forall|later: int| failed < later < state.tasks.len() ==> state.not_started(later),
        state.advanced() == state,
        forall|task: int, failure: Option<Seq<char>>|
            failed < task < state.tasks.len() ==> #[trigger] state.completed(task, failure)
                == state,
{
    assert(state.holds_back(failed));
    assert forall|later: int| failed < later < state.tasks.len() implies state.not_started(
        later,
    ) by {}
    assert forall|task: int, failure: Option<Seq<char>>|
        failed < task < state.tasks.len() implies #[trigger] state.completed(task, failure)
        == state by {
        assert(state.not_started(task));
    }
}

/// When the engine finishes under `CollectAll`, every task has come to an
/// end, the recorded failures are exactly the tasks that failed, each once,
/// and the run succeeds exactly when no task failed.
pub proof fn lemma_collect_all_reports_all(state: EngineState)
    requires
        state.wf(),
        state.policy == FailurePolicy::CollectAll,
        state.decision() == FetchAction::Finish,
    ensures
        forall|i: int| 0 <= i < state.tasks.len() ==> state.is_settled(i),
        forall|i: int|
            0 <= i < state.tasks.len() ==> (state.statuses[i] == TaskStatus::Failed
                <==> state.lists_failure(i)),
        state.outcome() is Ok <==> forall|i: int|
            0 <= i < state.tasks.len() ==> state.statuses[i] != TaskStatus::Failed,
{
    lemma_count_positive(state.statuses);
    assert forall|i: int| 0 <= i < state.tasks.len() implies state.is_settled(i) by {
        assert(state.statuses[i] != TaskStatus::Pending);
        assert(state.statuses[i] != TaskStatus::InFlight);
    }
    assert forall|i: int|
        0 <= i < state.tasks.len() && state.lists_failure(i) implies state.statuses[i]
        == TaskStatus::Failed by {
        let k = choose|k: int|
            0 <= k < state.failures.len() && (#[trigger] state.failures[k]).task == i;
        assert(state.statuses[state.failures[k].task] == TaskStatus::Failed);
    }
    if state.failures.len() > 0 {
        let first = state.failures[0];
        assert(state.statuses[first.task] == TaskStatus::Failed);
    }
    if exists|i: int| 0 <= i < state.tasks.len() && state.statuses[i] == TaskStatus::Failed {
        let i = choose|i: int|
            0 <= i < state.tasks.len() && state.statuses[i] == TaskStatus::Failed;
        assert(state.lists_failure(i));
    }
}

/// When the engine finishes under `FailFast`, the run succeeds exactly when
/// no task failed; otherwise the result holds the one failure that stopped
/// it.
pub proof fn lemma_fail_fast_reports_first(state: EngineState)
    requires
        state.wf(),
        state.policy == FailurePolicy::FailFast,
        state.decision() == FetchAction::Finish,
    ensures
        state.outcome() is Ok <==> forall|i: int|
            0 <= i < state.tasks.len() ==> state.statuses[i] != TaskStatus::Failed,
        state.outcome() is Ok ==> forall|i: int| 0 <= i < state.tasks.len() ==> state.is_settled(i),
        state.outcome() is Err ==> state.failures.len() == 1,
{
    lemma_count_positive(state.statuses);
    if state.failures.len() > 0 {
        let first = state.failures[0];
        assert(state.statuses[first.task] == TaskStatus::Failed);
    } else {
        assert forall|i: int| 0 <= i < state.tasks.len() implies state.is_settled(i) by {
            assert(state.statuses[i] != TaskStatus::Pending);
            assert(state.statuses[i] != TaskStatus::InFlight);
        }
    }
}

/// A task without an address is skipped, not failed: it is settled and no
/// failure is recorded for it.
pub proof fn lemma_skip_is_no_failure(state: EngineState, task: usize)
    requires
        state.wf(),
        state.decision() == FetchAction::Skip(task),
    ensures
        state.tasks[task as int].url.len() == 0,
        state.advanced().statuses[task as int] == TaskStatus::Skipped,
        state.advanced().failures == state.failures,
        state.advanced().in_flight() == state.in_flight(),
{
    lemma_count_update(state.statuses, task as int, TaskStatus::Skipped);
}

/// The engine: its tasks, how far each has come, and the failures recorded.
pub struct FetchEngine {
    tasks: Vec<FetchTask>,
    statuses: Vec<TaskStatus>,
    next: usize,
    in_flight: usize,
    failures: Vec<FetchError>,
    concurrency: usize,
    policy: FailurePolicy,
}

impl View for FetchEngine {
    type V = EngineState;

    closed spec fn view(&self) -> EngineState {
        EngineState {
            tasks: task_views(self.tasks@),
            statuses: self.statuses@,
            next: self.next as int,
            failures: error_views(self.failures@),
            concurrency: self.concurrency as int,
            policy: self.policy,
        }
    }
}

impl FetchEngine {
    /// Whether the engine is in a state that it can reach.
    pub closed spec fn wf(&self) -> bool {
        &&& self@.wf()
        &&& self.in_flight as int == self@.in_flight()
    }

    /// What `wf` says of the state.
    pub proof fn lemma_wf_state(&self)
        requires
            self.wf(),
        ensures
            self@.wf(),
    {
    }

    /// An engine for `tasks`, with at most `concurrency` fetches in flight
    /// at once. A cap of zero admits no fetch at all, so no engine is made.
    pub fn new(tasks: Vec<FetchTask>, concurrency: usize, policy: FailurePolicy) -> (engine:
        Option<FetchEngine>)
        ensures
            engine is Some <==> concurrency >= 1,
            engine is Some ==> engine->Some_0.wf() && engine->Some_0@ == EngineState::initial(
                task_views(tasks@),
                concurrency as int,
                policy,
            ),
    {
        if concurrency == 0 {
            return None;
        }
        let mut statuses: Vec<TaskStatus> = Vec::new();
        let mut i: usize = 0;
        while i < tasks.len()
            invariant
                i <= tasks.len(),
                statuses@ == Seq::new(i as nat, |k: int| TaskStatus::Pending),
            decreases tasks.len() - i,
        {
            statuses.push(TaskStatus::Pending);
            assert(statuses@ =~= Seq::new((i + 1) as nat, |k: int| TaskStatus::Pending));
            i += 1;
        }
        let engine = FetchEngine {
            tasks,
            statuses,
            next: 0,
            in_flight: 0,
            failures: Vec::new(),
            concurrency,
            policy,
        };
        proof {
            let state = EngineState::initial(task_views(tasks@), concurrency as int, policy);
            assert(engine@.statuses =~= state.statuses);
            assert(engine@.failures =~= state.failures);
            assert(engine@ == state);
            lemma_initial_wf(task_views(tasks@), concurrency as int, policy);
        }
        Some(engine)
    }

    /// Decides what the driver is to do next, and takes note of it.
    pub fn next_action(&mut self) -> (action: FetchAction)
        requires
            old(self).wf(),
        ensures
            final(self).wf(),
            action == old(self)@.decision(),
            final(self)@ == old(self)@.advanced(),
    {
        proof {
            lemma_advanced_wf(self@);
        }
        if self.policy == FailurePolicy::FailFast && self.failures.len() > 0 {
            if self.in_flight > 0 {
                FetchAction::Wait
            } else {
                FetchAction::Finish
            }
        } else if self.next < self.tasks.len() {
            let task = self.next;
            if self.tasks[task].url.as_str().is_empty() {
                self.statuses[task] = TaskStatus::Skipped;
                self.next = task + 1;
                proof {
                    lemma_count_update(old(self).statuses@, task as int, TaskStatus::Skipped);
                    assert(self@.failures == old(self)@.failures);
                    assert(self@.tasks == old(self)@.tasks);
                }
                FetchAction::Skip(task)
            } else if self.in_flight < self.concurrency {
                self.statuses[task] = TaskStatus::InFlight;
                self.next = task + 1;
                self.in_flight = self.in_flight + 1;
                proof {
                    lemma_count_update(old(self).statuses@, task as int, TaskStatus::InFlight);
                    assert(self@.failures == old(self)@.failures);
                    assert(self@.tasks == old(self)@.tasks);
                }
                FetchAction::Start(task)
            } else {
                FetchAction::Wait
            }
        } else if self.in_flight > 0 {
            FetchAction::Wait
        } else {
            FetchAction::Finish
        }
    }

    /// Takes note that the fetch of `task` ended: with `None` it succeeded,
    /// with a reason it failed. Returns whether `task` was in flight; if it
    /// was not, nothing changes.
    pub fn complete(&mut self, task: usize, failure: Option<String>) -> (accepted: bool)
        requires
            old(self).wf(),
        ensures
            final(self).wf(),
            accepted == old(self)@.is_in_flight(task as int),
            final(self)@ == old(self)@.completed(task as int, reason_view(failure)),
    {
        let ghost told = reason_view(failure);
        proof {
            lemma_completed_wf(self@, task as int, told);
            lemma_count_positive(self@.statuses);
        }
        if task >= self.statuses.len() {
            return false;
        }
        if self.statuses[task] != TaskStatus::InFlight {
            return false;
        }
        self.in_flight = self.in_flight - 1;
        match failure {
            None => {
                self.statuses[task] = TaskStatus::Succeeded;
                proof {
                    lemma_count_update(old(self).statuses@, task as int, TaskStatus::Succeeded);
                    assert(self@.failures == old(self)@.failures);
                    assert(self@.tasks == old(self)@.tasks);
                }
            },
            Some(reason) => {
                self.statuses[task] = TaskStatus::Failed;
                let record = self.policy == FailurePolicy::CollectAll || self.failures.len() == 0;
                if record {
                    let error = FetchError {
                        task,
                        url: self.tasks[task].url.clone(),
                        destination: self.tasks[task].destination.clone(),
                        reason,
                    };
                    self.failures.push(error);
                }
                proof {
                    lemma_count_update(old(self).statuses@, task as int, TaskStatus::Failed);
                    assert(self@.tasks == old(self)@.tasks);
                    assert(self@.failures =~= old(self)@.completed(task as int, told).failures);
                }
            },
        }
        true
    }

    /// The tasks of the engine.
    pub fn tasks(&self) -> (tasks: &Vec<FetchTask>)
        ensures
            task_views(tasks@) == self@.tasks,
    {
        &self.tasks
    }

    /// How far task `task` has come.
    pub fn status(&self, task: usize) -> (status: Option<TaskStatus>)
        ensures
            status == if task < self@.statuses.len() {
                Some(self@.statuses[task as int])
            } else {
                None
            },
    {
        if task < self.statuses.len() {
            Some(self.statuses[task])
        } else {
            None
        }
    }

    /// Ends the run: success if no failure was recorded, else the failures
    /// recorded.
    pub fn into_result(self) -> (result: Result<(), Vec<FetchError>>)
        ensures
            match result {
                Ok(_) => self@.outcome() is Ok,
                Err(errors) => self@.outcome() == Err::<(), Seq<FetchErrorView>>(
                    error_views(errors@),
                ),
            },
    {
        if self.failures.len() == 0 {
            Ok(())
        } else {
            Err(self.failures)
        }
    }
}

} // verus!

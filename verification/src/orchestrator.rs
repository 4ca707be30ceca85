//! The backup run as a state machine.
//!
//! A run goes through `Listing`, `Filtering`, `AwaitingConfirmation` and `Running`
//! and ends in `Completed`. The machine holds the repositories and the state of
//! each one's transfer. It decides which transfer may start next, so that never
//! more than the configured number is in flight, and it records every outcome
//! without letting a failure touch any other repository. The caller lists, asks
//! and transfers, and hands each result back as an event.

use crate::exclude::{filter_excluded, pattern_texts, survivors, ExcludePattern};
use crate::repo::RepoDescriptor;
use crate::transfer::BackupOutcome;
use vstd::prelude::*;

verus! {

/// Why a run is over.
#[derive(Clone, Copy, Debug, PartialEq, Eq, Structural)]
pub enum Ending {
    /// The repositories could not be listed. The only ending that is a failure of the run itself.
    ListingFailed,
    /// No repository was left after filtering.
    NothingToDo,
    /// The user did not confirm.
    Declined,
    /// Every repository has an outcome.
    Finished,
}

/// Where a run stands.
#[derive(Clone, Copy, Debug, PartialEq, Eq, Structural)]
pub enum Phase {
    Listing,
    Filtering,
    AwaitingConfirmation,
    Running,
    Completed(Ending),
}

/// Where the transfer of one repository stands.
#[derive(Debug)]
pub enum TaskState {
    /// Not started yet.
    Queued,
    /// Started, no outcome yet.
    InFlight,
    /// Over, with this outcome.
    Done(BackupOutcome),
}

/// How many repositories were backed up and how many failed.
#[derive(Clone, Copy, Debug, PartialEq, Eq, Structural)]
pub struct Tally {
    /// Skipped because current, or transferred.
    pub succeeded: usize,
    pub failed: usize,
}

/// The number of tasks that are in flight.
pub open spec fn count_in_flight(tasks: Seq<TaskState>) -> nat
    decreases tasks.len(),
{
    if tasks.len() == 0 {
        0
    } else {
        count_in_flight(tasks.drop_last()) + if tasks.last() is InFlight {
            1nat
        } else {
            0nat
        }
    }
}

/// The number of tasks that are over and count as backed up.
pub open spec fn count_succeeded(tasks: Seq<TaskState>) -> nat
    decreases tasks.len(),
{
    if tasks.len() == 0 {
        0
    } else {
        count_succeeded(tasks.drop_last()) + if tasks.last() matches TaskState::Done(outcome)
            && outcome.is_success() {
            1nat
        } else {
            0nat
        }
    }
}

/// The number of tasks that are over and failed.
pub open spec fn count_failed(tasks: Seq<TaskState>) -> nat
    decreases tasks.len(),
{
    if tasks.len() == 0 {
        0
    } else {
        count_failed(tasks.drop_last()) + if tasks.last() matches TaskState::Done(outcome)
            && !outcome.is_success() {
            1nat
        } else {
            0nat
        }
    }
}

/// A run as a mathematical value.
pub struct RunView {
    pub phase: Phase,
    /// Whether the run proceeds without asking.
    pub auto_confirm: bool,
    /// The largest number of transfers that may be in flight at once.
    pub limit: nat,
    /// All listed repositories while filtering; the surviving ones afterwards.
    pub repos: Seq<RepoDescriptor>,
    /// One state per surviving repository, at the same index.
    pub tasks: Seq<TaskState>,
    /// The number of tasks that were started; they are the first `next` ones.
    pub next: nat,
}

impl RunView {
    /// The number of transfers in flight.
    pub open spec fn in_flight(self) -> nat {
        count_in_flight(self.tasks)
    }

    /// Every task was started and none is still in flight.
    pub open spec fn all_done(self) -> bool {
        self.next == self.tasks.len() && self.in_flight() == 0
    }

    /// What holds of every state that a run can reach.
    pub open spec fn valid(self) -> bool {
        &&& self.next <= self.tasks.len()
        &&& forall|i: int|
            0 <= i < self.tasks.len() ==> (i < self.next <==> !(#[trigger] self.tasks[i] is Queued))
        &&& self.in_flight() <= self.limit
        &&& match self.phase {
            Phase::Listing => self.repos.len() == 0 && self.tasks.len() == 0,
            Phase::Filtering => self.tasks.len() == 0,
            Phase::AwaitingConfirmation => {
                &&& self.tasks.len() == self.repos.len()
                &&& self.repos.len() > 0
                &&& self.next == 0
            },
            Phase::Running => {
                &&& self.tasks.len() == self.repos.len()
                &&& self.repos.len() > 0
                &&& !self.all_done()
            },
            Phase::Completed(Ending::ListingFailed) | Phase::Completed(Ending::NothingToDo) => {
                self.repos.len() == 0 && self.tasks.len() == 0
            },
            Phase::Completed(Ending::Declined) => {
                &&& self.tasks.len() == self.repos.len()
                &&& self.repos.len() > 0
                &&& self.next == 0
            },
            Phase::Completed(Ending::Finished) => {
                &&& self.tasks.len() == self.repos.len()
                &&& self.repos.len() > 0
                &&& self.all_done()
            },
        }
    }

    /// A fresh run.
    pub open spec fn initial(limit: nat, auto_confirm: bool) -> RunView {
        RunView {
            phase: Phase::Listing,
            auto_confirm,
            limit,
            repos: Seq::empty(),
            tasks: Seq::empty(),
            next: 0,
        }
    }

    /// The run after the listing failed.
    pub open spec fn after_listing_failed(self) -> RunView {
        RunView { phase: Phase::Completed(Ending::ListingFailed), ..self }
    }

    /// The run after the listing arrived.
    pub open spec fn after_listed(self, repos: Seq<RepoDescriptor>) -> RunView {
        RunView { phase: Phase::Filtering, repos, ..self }
    }

    /// The run after the exclude patterns were applied: over where nothing
    /// survived, waiting for confirmation where something did.
    pub open spec fn after_filter(self, patterns: Seq<Seq<char>>) -> RunView {
        let kept = survivors(self.repos, patterns);
        RunView {
            phase: if kept.len() == 0 {
                Phase::Completed(Ending::NothingToDo)
            } else {
                Phase::AwaitingConfirmation
            },
            repos: kept,
            tasks: Seq::new(kept.len(), |i: int| TaskState::Queued),
            next: 0,
            ..self
        }
    }

    /// Whether the user has to be asked before the run proceeds.
    pub open spec fn needs_answer(self) -> bool {
        self.phase == Phase::AwaitingConfirmation && !self.auto_confirm
    }

    /// The run after the confirmation step. In auto-confirm mode the answer does not count.
    pub open spec fn after_confirmation(self, answer: bool) -> RunView {
        RunView {
            phase: if self.auto_confirm || answer {
                Phase::Running
            } else {
                Phase::Completed(Ending::Declined)
            },
            ..self
        }
    }

    /// Whether a transfer may start now: the run is running, a slot is free and a task is queued.
    pub open spec fn can_dispatch(self) -> bool {
        &&& self.phase == Phase::Running
        &&& self.in_flight() < self.limit
        &&& self.next < self.tasks.len()
    }

    /// The run after the first queued task was started.
    pub open spec fn after_dispatch(self) -> RunView {
        RunView {
            tasks: self.tasks.update(self.next as int, TaskState::InFlight),
            next: self.next + 1,
            ..self
        }
    }

    /// Whether the run waits for the outcome of `task`.
    pub open spec fn awaits(self, task: int) -> bool {
        &&& self.phase == Phase::Running
        &&& 0 <= task < self.tasks.len()
        &&& self.tasks[task] is InFlight
    }

    /// The run after `task` ended with `outcome`. The run is over once this was the last outcome.
    pub open spec fn after_completion(self, task: int, outcome: BackupOutcome) -> RunView {
        let tasks = self.tasks.update(task, TaskState::Done(outcome));
        RunView {
            phase: if self.next == tasks.len() && count_in_flight(tasks) == 0 {
                Phase::Completed(Ending::Finished)
            } else {
                Phase::Running
            },
            tasks,
            ..self
        }
    }
}

/// Replacing one task's state changes the number in flight by that task alone.
pub proof fn lemma_count_in_flight_update(tasks: Seq<TaskState>, i: int, state: TaskState)
    requires
        0 <= i < tasks.len(),
    ensures
        count_in_flight(tasks.update(i, state)) + (if tasks[i] is InFlight {
            1nat
        } else {
            0nat
        }) == count_in_flight(tasks) + (if state is InFlight {
            1nat
        } else {
            0nat
        }),
    decreases tasks.len(),
{
    let updated = tasks.update(i, state);
    if i == tasks.len() - 1 {
        assert(updated.drop_last() == tasks.drop_last());
    } else {
        assert(updated.drop_last() == tasks.drop_last().update(i, state));
        lemma_count_in_flight_update(tasks.drop_last(), i, state);
    }
}

/// Where nothing is in flight, no task is in flight; where something is, a task is.
pub proof fn lemma_count_in_flight_zero(tasks: Seq<TaskState>)
    ensures
        count_in_flight(tasks) == 0 <==> forall|i: int|
            0 <= i < tasks.len() ==> !(#[trigger] tasks[i] is InFlight),
    decreases tasks.len(),
{
    if tasks.len() > 0 {
        lemma_count_in_flight_zero(tasks.drop_last());
        assert forall|i: int| 0 <= i < tasks.len() - 1 implies tasks.drop_last()[i]
            == tasks[i] by {}
        if count_in_flight(tasks) == 0 {
            assert forall|i: int| 0 <= i < tasks.len() implies !(#[trigger] tasks[i] is InFlight) by {
                if i < tasks.len() - 1 {
                    assert(tasks.drop_last()[i] == tasks[i]);
                }
            }
        } else if !(tasks.last() is InFlight) {
            let j = choose|j: int|
                0 <= j < tasks.drop_last().len() && #[trigger] tasks.drop_last()[j] is InFlight;
            assert(tasks[j] is InFlight);
        }
    }
}

/// A sequence of queued tasks has none in flight.
proof fn lemma_queued_tasks_are_idle(n: nat)
    ensures
        count_in_flight(Seq::new(n, |i: int| TaskState::Queued)) == 0,
{
    lemma_count_in_flight_zero(Seq::new(n, |i: int| TaskState::Queued));
}

/// A backup run.
pub struct Orchestrator {
    phase: Phase,
    auto_confirm: bool,
    limit: usize,
    repos: Vec<RepoDescriptor>,
    tasks: Vec<TaskState>,
    next: usize,
    running: usize,
}

impl View for Orchestrator {
    type V = RunView;

    closed spec fn view(&self) -> RunView {
        RunView {
            phase: self.phase,
            auto_confirm: self.auto_confirm,
            limit: self.limit as nat,
            repos: self.repos@,
            tasks: self.tasks@,
            next: self.next as nat,
        }
    }
}

impl Orchestrator {
    /// The run is in a state that a run can reach, and its bookkeeping agrees with it.
    pub closed spec fn wf(&self) -> bool {
        &&& self@.valid()
        &&& self.running == self@.in_flight()
    }

    /// Starts a run that lets at most `limit` transfers be in flight at once.
    pub fn new(limit: usize, auto_confirm: bool) -> (run: Orchestrator)
        ensures
            run.wf(),
            run@ == RunView::initial(limit as nat, auto_confirm),
    {
        Orchestrator {
            phase: Phase::Listing,
            auto_confirm,
            limit,
            repos: Vec::new(),
            tasks: Vec::new(),
            next: 0,
            running: 0,
        }
    }

    /// Where the run stands.
    pub fn phase(&self) -> (phase: Phase)
        ensures
            phase == self@.phase,
    {
        self.phase
    }

    /// The largest number of transfers that may be in flight at once.
    pub fn limit(&self) -> (limit: usize)
        ensures
            limit == self@.limit,
    {
        self.limit
    }

    /// The number of transfers in flight.
    pub fn in_flight(&self) -> (count: usize)
        requires
            self.wf(),
        ensures
            count == self@.in_flight(),
            count <= self@.limit,
    {
        self.running
    }

    /// The number of repositories the run holds: all listed ones while
    /// filtering, the surviving ones afterwards.
    pub fn repo_count(&self) -> (count: usize)
        ensures
            count == self@.repos.len(),
    {
        self.repos.len()
    }

    /// The repository at `index`, if there is one.
    pub fn repo(&self, index: usize) -> (repo: Option<&RepoDescriptor>)
        ensures
            index < self@.repos.len() ==> repo == Some(&self@.repos[index as int]),
            index >= self@.repos.len() ==> repo is None,
    {
        if index < self.repos.len() {
            Some(&self.repos[index])
        } else {
            None
        }
    }

    /// The outcome of the task at `index`, if that task is over.
    pub fn outcome(&self, index: usize) -> (outcome: Option<&BackupOutcome>)
        ensures
            match outcome {
                Some(o) => index < self@.tasks.len() && self@.tasks[index as int]
                    == TaskState::Done(*o),
                None => index >= self@.tasks.len() || !(self@.tasks[index as int] is Done),
            },
    {
        if index < self.tasks.len() {
            match &self.tasks[index] {
                TaskState::Done(outcome) => Some(outcome),
                _ => None,
            }
        } else {
            None
        }
    }

    /// Records that the repositories could not be listed, which ends the run.
    /// Accepted only while listing; otherwise nothing changes.
    pub fn listing_failed(&mut self) -> (accepted: bool)
        requires
            old(self).wf(),
        ensures
            final(self).wf(),
            accepted == (old(self)@.phase == Phase::Listing),
            accepted ==> final(self)@ == old(self)@.after_listing_failed(),
            !accepted ==> final(self)@ == old(self)@,
    {
        if self.phase != Phase::Listing {
            return false;
        }
        self.phase = Phase::Completed(Ending::ListingFailed);
        true
    }

    /// Takes the complete listing. Accepted only while listing; otherwise nothing changes.
    pub fn listed(&mut self, repos: Vec<RepoDescriptor>) -> (accepted: bool)
        requires
            old(self).wf(),
        ensures
            final(self).wf(),
            accepted == (old(self)@.phase == Phase::Listing),
            accepted ==> final(self)@ == old(self)@.after_listed(repos@),
            !accepted ==> final(self)@ == old(self)@,
    {
        if self.phase != Phase::Listing {
            return false;
        }
        self.repos = repos;
        self.phase = Phase::Filtering;
        true
    }

    /// Applies the exclude patterns to the listing. Accepted only while filtering;
    /// otherwise nothing changes.
    pub fn apply_filter(&mut self, patterns: &Vec<ExcludePattern>) -> (accepted: bool)
        requires
            old(self).wf(),
        ensures
            final(self).wf(),
            accepted == (old(self)@.phase == Phase::Filtering),
            accepted ==> final(self)@ == old(self)@.after_filter(pattern_texts(patterns@)),
            !accepted ==> final(self)@ == old(self)@,
    {
        if self.phase != Phase::Filtering {
            return false;
        }
        let mut listed: Vec<RepoDescriptor> = Vec::new();
        std::mem::swap(&mut self.repos, &mut listed);
        let kept = filter_excluded(listed, patterns);
        let mut tasks: Vec<TaskState> = Vec::new();
        let mut i: usize = 0;
        while i < kept.len()
            invariant
                i <= kept.len(),
                tasks@ == Seq::new(i as nat, |j: int| TaskState::Queued),
            decreases kept.len() - i,
        {
            tasks.push(TaskState::Queued);
            i += 1;
        }
        proof {
            lemma_queued_tasks_are_idle(kept@.len());
        }
        self.phase = if kept.len() == 0 {
            Phase::Completed(Ending::NothingToDo)
        } else {
            Phase::AwaitingConfirmation
        };
        self.repos = kept;
        self.tasks = tasks;
        self.next = 0;
        self.running = 0;
        true
    }

    /// Whether the user has to be asked before the run proceeds.
    pub fn needs_answer(&self) -> (needed: bool)
        ensures
            needed == self@.needs_answer(),
    {
        self.phase == Phase::AwaitingConfirmation && !self.auto_confirm
    }

    /// Passes the confirmation step. The run proceeds in auto-confirm mode and on
    /// an affirmative `answer`; any other answer ends it without any transfer.
    /// Accepted only while awaiting confirmation; otherwise nothing changes.
    pub fn confirm(&mut self, answer: bool) -> (accepted: bool)
        requires
            old(self).wf(),
        ensures
            final(self).wf(),
            accepted == (old(self)@.phase == Phase::AwaitingConfirmation),
            accepted ==> final(self)@ == old(self)@.after_confirmation(answer),
            !accepted ==> final(self)@ == old(self)@,
    {
        if self.phase != Phase::AwaitingConfirmation {
            return false;
        }
        self.phase = if self.auto_confirm || answer {
            Phase::Running
        } else {
            Phase::Completed(Ending::Declined)
        };
        true
    }

    /// Starts the next queued transfer, if one may start now, and returns its
    /// index. Tasks start in the order of the repositories.
    pub fn dispatch(&mut self) -> (task: Option<usize>)
        requires
            old(self).wf(),
        ensures
            final(self).wf(),
            old(self)@.can_dispatch() ==> task == Some(old(self)@.next as usize) && final(self)@
                == old(self)@.after_dispatch(),
            !old(self)@.can_dispatch() ==> task is None && final(self)@ == old(self)@,
    {
        if !(self.phase == Phase::Running && self.running < self.limit && self.next
            < self.tasks.len()) {
            return None;
        }
        let task = self.next;
        proof {
            lemma_count_in_flight_update(self.tasks@, task as int, TaskState::InFlight);
        }
        self.tasks.set(task, TaskState::InFlight);
        self.next = task + 1;
        self.running = self.running + 1;
        Some(task)
    }

    /// Records the outcome of a transfer in flight. Once the last outcome is in,
    /// the run is over. Accepted only for a task in flight; otherwise nothing changes.
    pub fn complete(&mut self, task: usize, outcome: BackupOutcome) -> (accepted: bool)
        requires
            old(self).wf(),
        ensures
            final(self).wf(),
            accepted == old(self)@.awaits(task as int),
            accepted ==> final(self)@ == old(self)@.after_completion(task as int, outcome),
            !accepted ==> final(self)@ == old(self)@,
    {
        if self.phase != Phase::Running || task >= self.tasks.len() {
            return false;
        }
        match &self.tasks[task] {
            TaskState::InFlight => {},
            _ => {
                return false;
            },
        }
        proof {
            lemma_count_in_flight_update(self.tasks@, task as int, TaskState::Done(outcome));
        }
        self.tasks.set(task, TaskState::Done(outcome));
        self.running = self.running - 1;
        if self.next == self.tasks.len() && self.running == 0 {
            self.phase = Phase::Completed(Ending::Finished);
        }
        true
    }
}

impl Orchestrator {
    /// Counts the outcomes recorded so far.
    pub fn tally(&self) -> (tally: Tally)
        ensures
            tally.succeeded == count_succeeded(self@.tasks),
            tally.failed == count_failed(self@.tasks),
    {
        let mut succeeded: usize = 0;
        let mut failed: usize = 0;
        let mut i: usize = 0;
        while i < self.tasks.len()
            invariant
                i <= self.tasks.len(),
                succeeded == count_succeeded(self.tasks@.take(i as int)),
                failed == count_failed(self.tasks@.take(i as int)),
                succeeded + failed <= i,
            decreases self.tasks.len() - i,
        {
            assert(self.tasks@.take(i + 1).drop_last() == self.tasks@.take(i as int));
            match &self.tasks[i] {
                TaskState::Done(outcome) => {
                    if outcome.succeeded() {
                        succeeded += 1;
                    } else {
                        failed += 1;
                    }
                },
                _ => {},
            }
            i += 1;
        }
        assert(self.tasks@.take(i as int) == self.tasks@);
        Tally { succeeded, failed }
    }

    /// Whether the run itself went well. Only a failed listing makes a run fail;
    /// repositories that could not be backed up are reported and leave this untouched.
    pub fn run_succeeded(&self) -> (ok: bool)
        ensures
            ok == (self@.phase != Phase::Completed(Ending::ListingFailed)),
    {
        self.phase != Phase::Completed(Ending::ListingFailed)
    }
}

/// A run that the methods of `Orchestrator` built is in a valid state.
pub proof fn lemma_run_is_valid(run: Orchestrator)
    requires
        run.wf(),
    ensures
        run@.valid(),
{
}

/// The concurrency bound: in every state that a run can reach, the number of
/// transfers in flight is at most the configured limit.
pub proof fn lemma_in_flight_never_exceeds_limit(run: Orchestrator)
    requires
        run.wf(),
    ensures
        run@.in_flight() <= run@.limit,
{
}

/// A fresh run is valid, whatever the limit and the mode.
pub proof fn lemma_initial_run_is_valid(limit: nat, auto_confirm: bool)
    ensures
        RunView::initial(limit, auto_confirm).valid(),
{
}

/// Every step that a run can take leads from a valid state to a valid state, so
/// the concurrency bound holds along every run. No step changes a recorded outcome.
pub proof fn lemma_every_step_keeps_the_run_valid(
    run: RunView,
    repos: Seq<RepoDescriptor>,
    patterns: Seq<Seq<char>>,
    answer: bool,
    task: int,
    outcome: BackupOutcome,
)
    requires
        run.valid(),
    ensures
        run.phase == Phase::Listing ==> run.after_listing_failed().valid() && run.after_listed(
            repos,
        ).valid(),
        run.phase == Phase::Filtering ==> run.after_filter(patterns).valid(),
        run.phase == Phase::AwaitingConfirmation ==> run.after_confirmation(answer).valid(),
        run.can_dispatch() ==> {
            &&& run.after_dispatch().valid()
            &&& run.after_dispatch().in_flight() == run.in_flight() + 1
            &&& forall|i: int|
                0 <= i < run.tasks.len() && #[trigger] run.tasks[i] is Done
                    ==> run.after_dispatch().tasks[i] == run.tasks[i]
        },
        run.awaits(task) ==> {
            &&& run.after_completion(task, outcome).valid()
            &&& run.after_completion(task, outcome).in_flight() == run.in_flight() - 1
            &&& forall|i: int|
                0 <= i < run.tasks.len() && #[trigger] run.tasks[i] is Done ==> run.after_completion(
                    task,
                    outcome,
                ).tasks[i] == run.tasks[i]
        },
{
    if run.phase == Phase::Filtering {
        lemma_queued_tasks_are_idle(survivors(run.repos, patterns).len());
    }
    if run.can_dispatch() {
        lemma_count_in_flight_update(run.tasks, run.next as int, TaskState::InFlight);
    }
    if run.awaits(task) {
        lemma_count_in_flight_update(run.tasks, task, TaskState::Done(outcome));
    }
}

/// Partial failure: the failure of one transfer changes nothing but the outcome
/// recorded for that one repository. The run is in the same phase, with the same
/// transfers in flight and the same ones queued, as if the transfer had
/// succeeded, and it goes on unless this was the last outcome.
pub proof fn lemma_failure_touches_no_other_repository(
    run: RunView,
    task: int,
    failure: BackupOutcome,
    success: BackupOutcome,
)
    requires
        run.valid(),
        run.awaits(task),
        !failure.is_success(),
        success.is_success(),
    ensures
        ({
            let failed = run.after_completion(task, failure);
            let succeeded = run.after_completion(task, success);
            &&& failed.tasks[task] == TaskState::Done(failure)
            &&& forall|i: int|
                0 <= i < run.tasks.len() && i != task ==> #[trigger] failed.tasks[i] == run.tasks[i]
            &&& failed.phase == succeeded.phase
            &&& failed.repos == succeeded.repos
            &&& failed.next == succeeded.next
            &&& failed.in_flight() == succeeded.in_flight()
            &&& failed.can_dispatch() == succeeded.can_dispatch()
            &&& failed.phase == Phase::Running <==> !(run.next == run.tasks.len() && run.in_flight()
                == 1)
        }),
{
    lemma_count_in_flight_update(run.tasks, task, TaskState::Done(failure));
    lemma_count_in_flight_update(run.tasks, task, TaskState::Done(success));
}

/// No early end: while a run with a limit above zero is running, a transfer
/// is in flight or one may start.
pub proof fn lemma_running_run_can_progress(run: RunView)
    requires
        run.valid(),
        run.phase == Phase::Running,
        run.limit > 0,
    ensures
        run.can_dispatch() || run.in_flight() > 0,
{
}

/// Where every task is over, each one counts once, as backed up or as failed.
proof fn lemma_done_tasks_are_counted(tasks: Seq<TaskState>)
    requires
        forall|i: int| 0 <= i < tasks.len() ==> #[trigger] tasks[i] is Done,
    ensures
        count_succeeded(tasks) + count_failed(tasks) == tasks.len(),
    decreases tasks.len(),
{
    if tasks.len() > 0 {
        assert forall|i: int| 0 <= i < tasks.drop_last().len() implies #[trigger] tasks.drop_last()[i] is Done by {
            assert(tasks.drop_last()[i] == tasks[i]);
        }
        lemma_done_tasks_are_counted(tasks.drop_last());
        assert(tasks.last() == tasks[tasks.len() - 1]);
    }
}

/// No outcome is dropped: a finished run holds an outcome for every surviving
/// repository, and the tally accounts for each of them.
pub proof fn lemma_finished_run_reports_every_repository(run: RunView)
    requires
        run.valid(),
        run.phase == Phase::Completed(Ending::Finished),
    ensures
        forall|i: int| 0 <= i < run.repos.len() ==> #[trigger] run.tasks[i] is Done,
        count_succeeded(run.tasks) + count_failed(run.tasks) == run.repos.len(),
{
    lemma_count_in_flight_zero(run.tasks);
    assert forall|i: int| 0 <= i < run.repos.len() implies #[trigger] run.tasks[i] is Done by {
        assert(!(run.tasks[i] is Queued));
        assert(!(run.tasks[i] is InFlight));
    }
    lemma_done_tasks_are_counted(run.tasks);
}

} // verus!

//! A run of the tool as a plan of processes, and the decisions between them.
//!
//! A plan is a list of jobs, a job a list of steps, and every step one process. The launcher
//! starts the process of the step that is due and hands back how it ended; `advance` then
//! decides which step is due next and whether the run has failed. A guard that does not
//! succeed ends its job. A failed operation is counted and the run goes on.

use crate::name::Name;
use crate::restic_api::{
    backup_outcome, interpret_backup, interpret_run, interpret_status, run_outcome,
    status_outcome, Error, ErrorView, RepoStatus,
};
use crate::run::{ExecutionContext, ExecutionContextView, ExitStatus, Launch};
use vstd::prelude::*;

verus! {

/// What the engine is asked to do.
#[derive(Clone, Copy, Debug, PartialEq, Eq, Structural)]
pub enum Operation {
    /// Make a snapshot.
    Backup,
    /// Remove old snapshots.
    Forget,
    /// Run with the user's own arguments.
    Exec,
}

/// One process of a plan.
#[derive(Debug)]
pub enum Step {
    /// A guard command of the job.
    Guard {
        /// The process to launch.
        context: ExecutionContext,
    },
    /// An operation of the engine on a repository.
    Operate {
        /// What the engine is asked to do.
        operation: Operation,
        /// The repository to work on.
        repo: Name,
        /// The process to launch.
        context: ExecutionContext,
    },
    /// A probe of a repository, with the process that creates the repository where the user
    /// wants missing repositories created.
    Probe {
        /// The repository to probe.
        repo: Name,
        /// The process to launch.
        context: ExecutionContext,
        /// The process that creates the repository.
        init: Option<ExecutionContext>,
    },
}

/// The steps that belong together: those of one location, or those of a command that works
/// on repositories alone.
#[derive(Debug)]
pub struct Job {
    /// The location that the job works on.
    pub location: Option<Name>,
    /// The processes of the job, in order.
    pub steps: Vec<Step>,
}

/// What a `Step` holds.
pub enum StepView {
    Guard { context: ExecutionContextView },
    Operate { operation: Operation, repo: Seq<char>, context: ExecutionContextView },
    Probe { repo: Seq<char>, context: ExecutionContextView, init: Option<ExecutionContextView> },
}

impl View for Step {
    type V = StepView;

    open spec fn view(&self) -> StepView {
        match self {
            Step::Guard { context } => StepView::Guard { context: context@ },
            Step::Operate { operation, repo, context } => StepView::Operate {
                operation: *operation,
                repo: repo@,
                context: context@,
            },
            Step::Probe { repo, context, init } => StepView::Probe {
                repo: repo@,
                context: context@,
                init: match init {
                    Some(creation) => Some(creation@),
                    None => None,
                },
            },
        }
    }
}

/// The views of a list of steps, in order.
pub open spec fn steps_view(steps: Seq<Step>) -> Seq<StepView> {
    Seq::new(steps.len(), |i: int| steps[i]@)
}

/// What a `Job` holds.
pub struct JobView {
    pub location: Option<Seq<char>>,
    pub steps: Seq<StepView>,
}

impl View for Job {
    type V = JobView;

    open spec fn view(&self) -> JobView {
        JobView {
            location: match self.location {
                Some(name) => Some(name@),
                None => None,
            },
            steps: steps_view(self.steps@),
        }
    }
}

/// The views of a list of jobs, in order.
pub open spec fn jobs_view(jobs: Seq<Job>) -> Seq<JobView> {
    Seq::new(jobs.len(), |i: int| jobs[i]@)
}

/// A place in a plan.
#[derive(Clone, Copy, Debug, PartialEq, Eq, Structural)]
pub struct Position {
    /// The number of the job.
    pub job: usize,
    /// The number of the step in the job.
    pub step: usize,
    /// Whether the step is a probe that found no repository and now creates it.
    pub initializing: bool,
}

/// Where a run stands.
#[derive(Clone, Copy, Debug, PartialEq, Eq, Structural)]
pub struct Progress {
    /// The step that is due.
    pub at: Position,
    /// Whether anything has failed so far.
    pub failed: bool,
}

/// What became of a step.
#[derive(Debug)]
pub enum Verdict {
    /// A guard succeeded.
    GuardPassed,
    /// A guard ended with this status, which ends the job.
    GateClosed(ExitStatus),
    /// An operation succeeded.
    Succeeded,
    /// A step failed.
    Failed(Error),
    /// A probe found this.
    Status(RepoStatus),
}

/// What a `Verdict` holds.
pub enum VerdictView {
    GuardPassed,
    GateClosed(ExitStatus),
    Succeeded,
    Failed(ErrorView),
    Status(RepoStatus),
}

impl View for Verdict {
    type V = VerdictView;

    open spec fn view(&self) -> VerdictView {
        match self {
            Verdict::GuardPassed => VerdictView::GuardPassed,
            Verdict::GateClosed(status) => VerdictView::GateClosed(*status),
            Verdict::Succeeded => VerdictView::Succeeded,
            Verdict::Failed(e) => VerdictView::Failed(e@),
            Verdict::Status(status) => VerdictView::Status(*status),
        }
    }
}

/// Whether `at` names a step of the plan.
pub open spec fn is_step(jobs: Seq<Job>, at: Position) -> bool {
    &&& at.job < jobs.len()
    &&& at.step < jobs[at.job as int].steps.len()
    &&& at.initializing ==> (jobs[at.job as int].steps@[at.step as int] matches Step::Probe {
        init,
        ..
    } && init is Some)
}

/// The place behind the last step.
pub open spec fn end_of(jobs: Seq<Job>) -> Position {
    Position { job: jobs.len() as usize, step: 0, initializing: false }
}

/// The first step of the first job from number `from` on that has a step, or the end.
pub open spec fn entry(jobs: Seq<Job>, from: int) -> Position
    decreases jobs.len() - from,
{
    if from < 0 || from >= jobs.len() {
        end_of(jobs)
    } else if jobs[from].steps.len() > 0 {
        Position { job: from as usize, step: 0, initializing: false }
    } else {
        entry(jobs, from + 1)
    }
}

/// The step after `at`: the next of the job, or the first of the jobs that follow.
pub open spec fn successor(jobs: Seq<Job>, at: Position) -> Position {
    if at.step + 1 < jobs[at.job as int].steps.len() {
        Position { job: at.job, step: (at.step + 1) as usize, initializing: false }
    } else {
        entry(jobs, at.job + 1)
    }
}

/// Whether `to` lies behind `from` in the order of a run.
pub open spec fn is_later(from: Position, to: Position) -> bool {
    ||| to.job > from.job
    ||| (to.job == from.job && to.step > from.step)
    ||| (to.job == from.job && to.step == from.step && !from.initializing && to.initializing)
}

/// What follows from the end `launch` of the step at `at`: the step that is due next, what
/// became of the step, and whether it failed.
pub open spec fn transition(jobs: Seq<Job>, at: Position, launch: Launch) -> (
    Position,
    VerdictView,
    bool,
) {
    match jobs[at.job as int].steps@[at.step as int] {
        Step::Guard { context } => match launch {
            Launch::Failed(message) => (
                entry(jobs, at.job + 1),
                VerdictView::Failed(ErrorView::IoError(message@)),
                true,
            ),
            Launch::Finished(result) => if result.status.spec_success() {
                (successor(jobs, at), VerdictView::GuardPassed, false)
            } else {
                (entry(jobs, at.job + 1), VerdictView::GateClosed(result.status), false)
            },
        },
        Step::Operate { operation, repo, context } => {
            let outcome = if operation == Operation::Backup {
                backup_outcome(context.program@, launch)
            } else {
                run_outcome(context.program@, launch)
            };
            match outcome {
                Ok(_) => (successor(jobs, at), VerdictView::Succeeded, false),
                Err(e) => (successor(jobs, at), VerdictView::Failed(e), true),
            }
        },
        Step::Probe { repo, context, init } => if at.initializing {
            match run_outcome(init->0.program@, launch) {
                Ok(_) => (successor(jobs, at), VerdictView::Succeeded, false),
                Err(e) => (successor(jobs, at), VerdictView::Failed(e), true),
            }
        } else {
            match status_outcome(context.program@, launch) {
                Ok(status) => if status == RepoStatus::NoRepository && init is Some {
                    (
                        Position { job: at.job, step: at.step, initializing: true },
                        VerdictView::Status(status),
                        false,
                    )
                } else {
                    (successor(jobs, at), VerdictView::Status(status), false)
                },
                Err(e) => (successor(jobs, at), VerdictView::Failed(e), true),
            }
        },
    }
}

/// The first step from job `from` on is a step of the plan or its end, and does not lie
/// before that job.
pub proof fn lemma_entry(jobs: Seq<Job>, from: int)
    requires
        0 <= from,
        jobs.len() <= usize::MAX,
    ensures
        entry(jobs, from).job >= from || entry(jobs, from) == end_of(jobs),
        entry(jobs, from).job >= jobs.len() || entry(jobs, from).job >= from,
        is_step(jobs, entry(jobs, from)) || entry(jobs, from) == end_of(jobs),
        entry(jobs, from).step == 0,
        !entry(jobs, from).initializing,
        from <= jobs.len() ==> entry(jobs, from).job >= from,
    decreases jobs.len() - from,
{
    if from < jobs.len() && jobs[from].steps.len() == 0 {
        lemma_entry(jobs, from + 1);
    }
}

/// Every step of a run leads to a later step of the plan or to its end: a run comes to an
/// end, and no step is taken twice.
pub proof fn law_run_moves_on(jobs: Vec<Job>, at: Position, launch: Launch)
    requires
        is_step(jobs@, at),
    ensures
        is_later(at, transition(jobs@, at, launch).0),
        is_step(jobs@, transition(jobs@, at, launch).0) || transition(jobs@, at, launch).0
            == end_of(jobs@),
{
    assert(jobs@.len() == jobs.len());
    lemma_entry(jobs@, at.job + 1);
}

/// A guard that succeeds lets the next step of its job run.
pub proof fn law_passed_guard_opens_next_step(jobs: Vec<Job>, at: Position, launch: Launch)
    requires
        is_step(jobs@, at),
        jobs@[at.job as int].steps@[at.step as int] is Guard,
        launch matches Launch::Finished(result) && result.status.spec_success(),
        at.step + 1 < jobs@[at.job as int].steps.len(),
    ensures
        transition(jobs@, at, launch).0 == (Position {
            job: at.job,
            step: (at.step + 1) as usize,
            initializing: false,
        }),
        transition(jobs@, at, launch).1 == VerdictView::GuardPassed,
        !transition(jobs@, at, launch).2,
{
}

/// A guard that does not succeed ends its job: the step that is due next belongs to a later
/// job, whatever the job still held. Where the guard ran, its status is handed on.
pub proof fn law_closed_gate_skips_job(jobs: Vec<Job>, at: Position, launch: Launch)
    requires
        is_step(jobs@, at),
        jobs@[at.job as int].steps@[at.step as int] is Guard,
        !(launch matches Launch::Finished(result) && result.status.spec_success()),
    ensures
        transition(jobs@, at, launch).0.job > at.job,
        transition(jobs@, at, launch).0 == entry(jobs@, at.job + 1),
        launch matches Launch::Finished(result) ==> transition(jobs@, at, launch).1
            == VerdictView::GateClosed(result.status) && !transition(jobs@, at, launch).2,
{
    assert(jobs@.len() == jobs.len());
    lemma_entry(jobs@, at.job + 1);
}

/// The place where a run of `jobs` begins.
pub fn begin(jobs: &Vec<Job>) -> (r: Progress)
    ensures
        r.at == entry(jobs@, 0),
        !r.failed,
        is_step(jobs@, r.at) || r.at == end_of(jobs@),
{
    proof {
        assert(jobs@.len() == jobs.len());
        lemma_entry(jobs@, 0);
    }
    Progress { at: seek(jobs, 0), failed: false }
}

/// The first step of the first job from number `from` on that has a step.
fn seek(jobs: &Vec<Job>, from: usize) -> (r: Position)
    requires
        from <= jobs@.len(),
    ensures
        r == entry(jobs@, from as int),
{
    let mut job = from;
    while job < jobs.len()
        invariant
            from <= job <= jobs@.len(),
            entry(jobs@, job as int) == entry(jobs@, from as int),
        decreases jobs@.len() - job,
    {
        if jobs[job].steps.len() > 0 {
            return Position { job, step: 0, initializing: false };
        }
        job += 1;
    }
    Position { job: jobs.len(), step: 0, initializing: false }
}

/// The step after `at`.
fn next_step(jobs: &Vec<Job>, at: Position) -> (r: Position)
    requires
        is_step(jobs@, at),
    ensures
        r == successor(jobs@, at),
{
    assert(jobs@.len() == jobs.len());
    if at.step + 1 < jobs[at.job].steps.len() {
        Position { job: at.job, step: at.step + 1, initializing: false }
    } else {
        seek(jobs, at.job + 1)
    }
}

/// A process to launch, and whether its output is kept from the console.
pub struct Action<'a> {
    /// The process.
    pub context: &'a ExecutionContext,
    /// Whether the output is captured only.
    pub quiet: bool,
}

/// The process of the step at `at`. Only probes are quiet.
pub open spec fn action_of(jobs: Seq<Job>, at: Position) -> (ExecutionContext, bool) {
    match jobs[at.job as int].steps@[at.step as int] {
        Step::Guard { context } => (context, false),
        Step::Operate { context, .. } => (context, false),
        Step::Probe { context, init, .. } => if at.initializing {
            (init->0, false)
        } else {
            (context, true)
        },
    }
}

/// Whether `at` is a place in `jobs` at which a process is due.
pub fn is_due(jobs: &Vec<Job>, at: Position) -> (b: bool)
    ensures
        b == is_step(jobs@, at),
{
    if at.job < jobs.len() && at.step < jobs[at.job].steps.len() {
        if at.initializing {
            match &jobs[at.job].steps[at.step] {
                Step::Probe { init, .. } => init.is_some(),
                _ => false,
            }
        } else {
            true
        }
    } else {
        false
    }
}

/// The process that is due, or `None` where the run is at its end.
pub fn current<'a>(jobs: &'a Vec<Job>, progress: &Progress) -> (r: Option<Action<'a>>)
    ensures
        match r {
            Some(action) => is_step(jobs@, progress.at) && (*action.context, action.quiet)
                == action_of(jobs@, progress.at),
            None => !is_step(jobs@, progress.at),
        },
{
    if !is_due(jobs, progress.at) {
        return None;
    }
    match &jobs[progress.at.job].steps[progress.at.step] {
        Step::Guard { context } => Some(Action { context, quiet: false }),
        Step::Operate { context, .. } => Some(Action { context, quiet: false }),
        Step::Probe { context, init, .. } => {
            if progress.at.initializing {
                match init {
                    Some(creation) => Some(Action { context: creation, quiet: false }),
                    None => None,
                }
            } else {
                Some(Action { context, quiet: true })
            }
        },
    }
}

/// Takes in how the process that was due ended, and moves on.
///
/// Returns what became of the step, or `None` where no process was due: then nothing
/// changes. A failure, once counted, stays counted.
pub fn advance(jobs: &Vec<Job>, progress: &mut Progress, launch: &Launch) -> (r: Option<Verdict>)
    ensures
        match r {
            Some(verdict) => {
                let t = transition(jobs@, old(progress).at, *launch);
                &&& is_step(jobs@, old(progress).at)
                &&& final(progress).at == t.0
                &&& verdict@ == t.1
                &&& final(progress).failed == (old(progress).failed || t.2)
                &&& is_later(old(progress).at, final(progress).at)
                &&& is_step(jobs@, final(progress).at) || final(progress).at == end_of(jobs@)
            },
            None => !is_step(jobs@, old(progress).at) && *final(progress) == *old(progress),
        },
{
    let at = progress.at;
    if !is_due(jobs, at) {
        return None;
    }
    proof {
        assert(jobs@.len() == jobs.len());
        law_run_moves_on(*jobs, at, *launch);
    }
    let after = next_step(jobs, at);
    match &jobs[at.job].steps[at.step] {
        Step::Guard { context } => {
            match launch {
                Launch::Failed(message) => {
                    progress.at = seek(jobs, at.job + 1);
                    progress.failed = true;
                    Some(Verdict::Failed(Error::IoError(message.clone())))
                },
                Launch::Finished(result) => {
                    if result.status.success() {
                        progress.at = after;
                        Some(Verdict::GuardPassed)
                    } else {
                        progress.at = seek(jobs, at.job + 1);
                        Some(Verdict::GateClosed(result.status))
                    }
                },
            }
        },
        Step::Operate { operation, repo, context } => {
            let outcome = match operation {
                Operation::Backup => interpret_backup(context.program.as_str(), launch),
                _ => interpret_run(context.program.as_str(), launch),
            };
            progress.at = after;
            match outcome {
                Ok(_) => Some(Verdict::Succeeded),
                Err(e) => {
                    progress.failed = true;
                    Some(Verdict::Failed(e))
                },
            }
        },
        Step::Probe { repo, context, init } => {
            if at.initializing {
                match init {
                    Some(creation) => {
                        progress.at = after;
                        match interpret_run(creation.program.as_str(), launch) {
                            Ok(_) => Some(Verdict::Succeeded),
                            Err(e) => {
                                progress.failed = true;
                                Some(Verdict::Failed(e))
                            },
                        }
                    },
                    None => None,
                }
            } else {
                match interpret_status(context.program.as_str(), launch) {
                    Ok(status) => {
                        if status == RepoStatus::NoRepository && init.is_some() {
                            progress.at = Position {
                                job: at.job,
                                step: at.step,
                                initializing: true,
                            };
                        } else {
                            progress.at = after;
                        }
                        Some(Verdict::Status(status))
                    },
                    Err(e) => {
                        progress.at = after;
                        progress.failed = true;
                        Some(Verdict::Failed(e))
                    },
                }
            }
        },
    }
}

} // verus!

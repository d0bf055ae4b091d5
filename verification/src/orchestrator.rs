//! One job, from the first sync to the posted comment.
//!
//! A job passes through its stages in a fixed order: sync to the base branch,
//! benchmark it, sync to the pull request, benchmark it, post the report. The
//! orchestrator decides what to run next and keeps the report; the caller runs
//! each [`Invocation`] and tells how it ended.
//!
//! A step that exits with a failure never ends the job. A failed sync ends its
//! stage, and the benchmark of that ref still runs; the failure is noted in
//! that ref's section, behind the benchmark's output. Only a process that
//! cannot be started ends the job, without a comment.

use crate::bench::{benchmark, benchmark_step};
use crate::command::{invocation_views, Invocation, InvocationView, Outcome, OutcomeView};
use crate::job::{BenchmarkJob, BenchmarkJobView};
use crate::report::{header, section_closing, BenchmarkReport};
use crate::reporter::{post_comment, post_comment_step};
use crate::sync::{branch_sync_plan, pr_sync_plan, sync_to_branch, sync_to_pull_request};
use crate::text::optional_text;
use vstd::prelude::*;
use vstd::string::*;

verus! {

/// Where a job stands. A new job is in `SyncBase`, with nothing run yet.
#[derive(Clone, Copy, Debug, PartialEq, Eq, Structural)]
pub enum Stage {
    /// Bringing the working copy to the base branch.
    SyncBase,
    /// Measuring the base branch.
    BenchBase,
    /// Bringing the working copy to the pull request's head.
    SyncPr,
    /// Measuring the pull request.
    BenchPr,
    /// Posting the report.
    Report,
    /// The job ran to its end.
    Done,
    /// A process could not be started; the job was given up.
    Failed,
}

/// The number of steps that a stage runs if none fails.
pub open spec fn steps_of(stage: Stage) -> nat {
    match stage {
        Stage::SyncBase => 3,
        Stage::BenchBase => 1,
        Stage::SyncPr => 2,
        Stage::BenchPr => 1,
        Stage::Report => 1,
        Stage::Done => 0,
        Stage::Failed => 0,
    }
}

/// The stage that follows a stage. The two final stages follow themselves.
pub open spec fn successor(stage: Stage) -> Stage {
    match stage {
        Stage::SyncBase => Stage::BenchBase,
        Stage::BenchBase => Stage::SyncPr,
        Stage::SyncPr => Stage::BenchPr,
        Stage::BenchPr => Stage::Report,
        Stage::Report => Stage::Done,
        Stage::Done => Stage::Done,
        Stage::Failed => Stage::Failed,
    }
}

impl Stage {
    /// The number of steps that this stage runs if none fails.
    pub fn steps(self) -> (n: usize)
        ensures
            n == steps_of(self),
    {
        match self {
            Stage::SyncBase => 3,
            Stage::BenchBase => 1,
            Stage::SyncPr => 2,
            Stage::BenchPr => 1,
            Stage::Report => 1,
            Stage::Done => 0,
            Stage::Failed => 0,
        }
    }

    /// The stage that follows this one.
    pub fn next(self) -> (stage: Stage)
        ensures
            stage == successor(self),
    {
        match self {
            Stage::SyncBase => Stage::BenchBase,
            Stage::BenchBase => Stage::SyncPr,
            Stage::SyncPr => Stage::BenchPr,
            Stage::BenchPr => Stage::Report,
            Stage::Report => Stage::Done,
            Stage::Done => Stage::Done,
            Stage::Failed => Stage::Failed,
        }
    }

    /// Whether a job in this stage has nothing left to run.
    pub fn is_final(self) -> (b: bool)
        ensures
            b == (self is Done || self is Failed),
    {
        match self {
            Stage::Done => true,
            Stage::Failed => true,
            _ => false,
        }
    }
}

/// What the caller is to do next.
#[derive(Clone, Debug, PartialEq, Eq)]
pub enum Action {
    /// Run this, wait for it, and report how it ended.
    Run(Invocation),
    /// Nothing is left to do: the job ran to its end.
    Finish,
    /// Nothing is left to do: the job was given up.
    Abort,
}

/// The mathematical content of an [`Action`].
pub enum ActionView {
    Run(InvocationView),
    Finish,
    Abort,
}

impl View for Action {
    type V = ActionView;

    open spec fn view(&self) -> ActionView {
        match self {
            Action::Run(step) => ActionView::Run(step@),
            Action::Finish => ActionView::Finish,
            Action::Abort => ActionView::Abort,
        }
    }
}

/// The mathematical content of an [`Orchestrator`].
pub struct OrchestratorView {
    /// The directory of the working copy.
    pub working_copy: Seq<char>,
    pub job: BenchmarkJobView,
    pub stage: Stage,
    /// The position in the current stage's plan of the step to run next.
    pub cursor: nat,
    /// The report so far.
    pub report: Seq<char>,
    /// What the sync step that failed had written, while the ref that it
    /// failed on is measured.
    pub sync_failure: Option<Seq<char>>,
}

impl OrchestratorView {
    /// A job of which nothing has run yet.
    pub open spec fn initial(working_copy: Seq<char>, job: BenchmarkJobView) -> OrchestratorView {
        OrchestratorView {
            working_copy,
            job,
            stage: Stage::SyncBase,
            cursor: 0,
            report: Seq::<char>::empty(),
            sync_failure: None,
        }
    }

    /// The cursor points at a step of the current stage, and a failed sync
    /// is kept in mind only while its ref is measured.
    pub open spec fn wf(self) -> bool {
        &&& if self.stage is Done || self.stage is Failed {
            self.cursor == 0
        } else {
            self.cursor < steps_of(self.stage)
        }
        &&& self.sync_failure is Some ==> self.stage is BenchBase || self.stage is BenchPr
    }

    /// The steps of the current stage, in order.
    pub open spec fn plan(self) -> Seq<InvocationView> {
        match self.stage {
            Stage::SyncBase => branch_sync_plan(self.working_copy, self.job.default_branch),
            Stage::BenchBase => seq![benchmark_step()],
            Stage::SyncPr => pr_sync_plan(self.working_copy, self.job.pr_number),
            Stage::BenchPr => seq![benchmark_step()],
            Stage::Report => seq![
                post_comment_step(self.job.owner, self.job.repo, self.job.pr_number, self.report),
            ],
            Stage::Done => Seq::<InvocationView>::empty(),
            Stage::Failed => Seq::<InvocationView>::empty(),
        }
    }

    /// What the caller is to do in this state.
    pub open spec fn action(self) -> ActionView {
        match self.stage {
            Stage::Done => ActionView::Finish,
            Stage::Failed => ActionView::Abort,
            _ => ActionView::Run(self.plan()[self.cursor as int]),
        }
    }

    /// The name of the ref that the current stage works on.
    pub open spec fn label(self) -> Seq<char> {
        match self.stage {
            Stage::SyncBase => self.job.base_label(),
            Stage::BenchBase => self.job.base_label(),
            _ => self.job.pr_label(),
        }
    }

    /// What the report gains when the current stage ends with `outcome`: a
    /// sync opens the section of its ref with the header, a benchmark closes
    /// it with its output and the notes of what failed.
    pub open spec fn stage_text(self, outcome: OutcomeView) -> Seq<char> {
        match self.stage {
            Stage::SyncBase | Stage::SyncPr => header(self.label()),
            Stage::BenchBase | Stage::BenchPr => section_closing(self.sync_failure, outcome),
            _ => Seq::<char>::empty(),
        }
    }

    /// What is kept in mind of the sync when the current stage ends with
    /// `outcome`: the output of a sync step that failed, and nothing else.
    pub open spec fn stage_sync_failure(self, outcome: OutcomeView) -> Option<Seq<char>> {
        match (self.stage, outcome) {
            (Stage::SyncBase, OutcomeView::Failure(output)) => Some(output),
            (Stage::SyncPr, OutcomeView::Failure(output)) => Some(output),
            _ => None,
        }
    }

    /// The state after the step that [`Self::action`] asked for ended with
    /// `outcome`.
    ///
    /// In a final stage nothing changes. A process that could not be started
    /// ends the job. A step that succeeded is followed by the next step of its
    /// stage. The last step of a stage, and a step that failed, end the stage:
    /// the report gains the stage's text and the next stage begins.
    pub open spec fn step(self, outcome: OutcomeView) -> OrchestratorView {
        if self.stage is Done || self.stage is Failed {
            self
        } else if outcome is SpawnError {
            OrchestratorView {
                working_copy: self.working_copy,
                job: self.job,
                stage: Stage::Failed,
                cursor: 0,
                report: self.report,
                sync_failure: None,
            }
        } else if outcome is Success && self.cursor + 1 < steps_of(self.stage) {
            OrchestratorView {
                working_copy: self.working_copy,
                job: self.job,
                stage: self.stage,
                cursor: self.cursor + 1,
                report: self.report,
                sync_failure: self.sync_failure,
            }
        } else {
            OrchestratorView {
                working_copy: self.working_copy,
                job: self.job,
                stage: successor(self.stage),
                cursor: 0,
                report: self.report + self.stage_text(outcome),
                sync_failure: self.stage_sync_failure(outcome),
            }
        }
    }
}

/// The state of one job.
pub struct Orchestrator {
    working_copy: String,
    job: BenchmarkJob,
    stage: Stage,
    cursor: usize,
    report: BenchmarkReport,
    sync_failure: Option<String>,
}

impl View for Orchestrator {
    type V = OrchestratorView;

    closed spec fn view(&self) -> OrchestratorView {
        OrchestratorView {
            working_copy: self.working_copy@,
            job: self.job@,
            stage: self.stage,
            cursor: self.cursor as nat,
            report: self.report@,
            sync_failure: optional_text(self.sync_failure),
        }
    }
}

impl Orchestrator {
    #[verifier::type_invariant]
    spec fn well_formed(&self) -> bool {
        &&& if self.stage is Done || self.stage is Failed {
            self.cursor == 0
        } else {
            self.cursor < steps_of(self.stage)
        }
        &&& self.sync_failure is Some ==> self.stage is BenchBase || self.stage is BenchPr
    }

    /// A job of which nothing has run yet, on the working copy in the
    /// directory `working_copy`.
    pub fn new(working_copy: &str, job: BenchmarkJob) -> (orchestrator: Orchestrator)
        ensures
            orchestrator@ == OrchestratorView::initial(working_copy@, job@),
            orchestrator@.wf(),
    {
        Orchestrator {
            working_copy: String::from_str(working_copy),
            job,
            stage: Stage::SyncBase,
            cursor: 0,
            report: BenchmarkReport::new(),
            sync_failure: None,
        }
    }

    /// The stage that the job is in.
    pub fn stage(&self) -> (stage: Stage)
        ensures
            stage == self@.stage,
    {
        self.stage
    }

    /// The job.
    pub fn job(&self) -> (job: &BenchmarkJob)
        ensures
            job@ == self@.job,
    {
        &self.job
    }

    /// The report so far.
    pub fn report(&self) -> (report: &BenchmarkReport)
        ensures
            report@ == self@.report,
    {
        &self.report
    }

    /// What the caller is to do next.
    pub fn action(&self) -> (action: Action)
        ensures
            self@.wf(),
            action@ == self@.action(),
    {
        proof {
            use_type_invariant(self);
        }
        match self.stage {
            Stage::SyncBase => {
                let mut plan = sync_to_branch(
                    self.working_copy.as_str(),
                    self.job.default_branch.as_str(),
                );
                assert(plan@.len() == invocation_views(plan@).len());
                let step = plan.remove(self.cursor);
                Action::Run(step)
            },
            Stage::SyncPr => {
                let mut plan = sync_to_pull_request(self.working_copy.as_str(), self.job.pr_number);
                assert(plan@.len() == invocation_views(plan@).len());
                let step = plan.remove(self.cursor);
                Action::Run(step)
            },
            Stage::BenchBase => Action::Run(benchmark()),
            Stage::BenchPr => Action::Run(benchmark()),
            Stage::Report => Action::Run(
                post_comment(
                    self.job.owner.as_str(),
                    self.job.repo.as_str(),
                    self.job.pr_number,
                    self.report.text(),
                ),
            ),
            Stage::Done => Action::Finish,
            Stage::Failed => Action::Abort,
        }
    }

    /// The state after the step that [`Self::action`] asked for ended with
    /// `outcome`. In a final stage the state stays as it is.
    pub fn advance(self, outcome: Outcome) -> (next: Orchestrator)
        ensures
            next@ == self@.step(outcome@),
            next@.wf(),
    {
        proof {
            use_type_invariant(&self);
        }
        let Orchestrator { working_copy, job, stage, cursor, mut report, sync_failure } = self;
        if stage.is_final() {
            return Orchestrator { working_copy, job, stage, cursor, report, sync_failure };
        }
        let succeeded = match &outcome {
            Outcome::SpawnError => {
                return Orchestrator {
                    working_copy,
                    job,
                    stage: Stage::Failed,
                    cursor: 0,
                    report,
                    sync_failure: None,
                };
            },
            Outcome::Success(_) => true,
            Outcome::Failure(_) => false,
        };
        if succeeded && cursor + 1 < stage.steps() {
            return Orchestrator {
                working_copy,
                job,
                stage,
                cursor: cursor + 1,
                report,
                sync_failure,
            };
        }
        let kept = match stage {
            Stage::SyncBase => {
                let label = job.base_label();
                report.open_section(label.as_str());
                failure_output(outcome)
            },
            Stage::SyncPr => {
                let label = job.pr_label();
                report.open_section(label.as_str());
                failure_output(outcome)
            },
            Stage::BenchBase => {
                report.close_section(sync_failure, &outcome);
                None
            },
            Stage::BenchPr => {
                report.close_section(sync_failure, &outcome);
                None
            },
            _ => {
                assert(report@ =~= self.report@ + Seq::<char>::empty());
                None
            },
        };
        Orchestrator {
            working_copy,
            job,
            stage: stage.next(),
            cursor: 0,
            report,
            sync_failure: kept,
        }
    }
}

/// The output of a step that failed; `None` for any other outcome.
fn failure_output(outcome: Outcome) -> (output: Option<String>)
    ensures
        optional_text(output) == (match outcome@ {
            OutcomeView::Failure(text) => Some(text),
            _ => None,
        }),
{
    match outcome {
        Outcome::Failure(text) => Some(text),
        _ => None,
    }
}

} // verus!

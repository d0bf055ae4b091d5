//! Whole runs of a job: what holds however the steps end.
//!
//! A run is the sequence of outcomes that the caller reports, one for each
//! step that the orchestrator asked for. The lemmas speak of the states that a
//! run passes through.

use crate::bench::benchmark_step;
use crate::command::OutcomeView;
use crate::job::BenchmarkJobView;
use crate::orchestrator::{successor, ActionView, OrchestratorView, Stage};
use crate::report::{
    bench_failure_note,
    header,
    lemma_clean_section,
    lemma_output_follows_header,
    output_of,
    section,
    sync_failure_note,
};
use crate::reporter::post_comment_step;
use crate::sync::{checkout_branch_step, checkout_pr_step, install_step, pull_step};
use vstd::prelude::*;

verus! {

/// The state after the outcomes of a run were taken in, in order.
pub open spec fn run(start: OrchestratorView, outcomes: Seq<OutcomeView>) -> OrchestratorView
    decreases outcomes.len(),
{
    if outcomes.len() == 0 {
        start
    } else {
        run(start, outcomes.drop_last()).step(outcomes.last())
    }
}

/// The position of a stage in the order of stages.
pub open spec fn rank(stage: Stage) -> nat {
    match stage {
        Stage::SyncBase => 0,
        Stage::BenchBase => 1,
        Stage::SyncPr => 2,
        Stage::BenchPr => 3,
        Stage::Report => 4,
        Stage::Done => 5,
        Stage::Failed => 6,
    }
}

/// The largest number of steps that a job in this state can still ask for.
pub open spec fn steps_left(state: OrchestratorView) -> nat {
    match state.stage {
        Stage::SyncBase => (8 - state.cursor) as nat,
        Stage::BenchBase => 5,
        Stage::SyncPr => (4 - state.cursor) as nat,
        Stage::BenchPr => 2,
        Stage::Report => 1,
        Stage::Done => 0,
        Stage::Failed => 0,
    }
}

/// A job starts well-formed, and no outcome makes it ill-formed.
pub proof fn lemma_step_keeps_wf(state: OrchestratorView, outcome: OutcomeView)
    requires
        state.wf(),
    ensures
        state.step(outcome).wf(),
        OrchestratorView::initial(state.working_copy, state.job).wf(),
{
}

/// No outcome changes the job or the working copy.
pub proof fn lemma_step_keeps_job(state: OrchestratorView, outcome: OutcomeView)
    ensures
        state.step(outcome).job == state.job,
        state.step(outcome).working_copy == state.working_copy,
{
}

/// Stages come in their order, one by one. Whatever the outcome, a job stays
/// in its stage or enters the next one: a failed step makes it skip nothing.
/// The one exception is a process that could not be started, which ends the
/// job at once; nothing else does.
pub proof fn lemma_stages_in_order(state: OrchestratorView, outcome: OutcomeView)
    requires
        state.wf(),
    ensures
        ({
            let next = state.step(outcome);
            &&& outcome is SpawnError && !(state.stage is Done) ==> next.stage is Failed
            &&& !(outcome is SpawnError) ==> next.stage == state.stage || next.stage == successor(
                state.stage,
            )
            &&& !(outcome is SpawnError) && !(state.stage is Failed) ==> !(next.stage is Failed)
            &&& rank(state.stage) <= rank(next.stage)
        }),
{
}

/// Every outcome brings a running job closer to its end, so a job asks for
/// eight steps at most and never for the same step twice.
pub proof fn lemma_step_makes_progress(state: OrchestratorView, outcome: OutcomeView)
    requires
        state.wf(),
        !(state.stage is Done),
        !(state.stage is Failed),
    ensures
        steps_left(state.step(outcome)) < steps_left(state),
        steps_left(OrchestratorView::initial(state.working_copy, state.job)) == 8,
{
}

/// Text is only ever added at the end of the report.
pub proof fn lemma_step_extends_report(state: OrchestratorView, outcome: OutcomeView)
    ensures
        state.report.is_prefix_of(state.step(outcome).report),
{
    let next = state.step(outcome);
    if next.report != state.report {
        assert(next.report == state.report + state.stage_text(outcome));
        assert(state.report =~= next.report.subrange(0, state.report.len() as int));
    }
}

/// A sync step that fails ends its stage, and the benchmark of the same ref
/// is what runs next. The report gains the header of that ref; when the
/// benchmark has ended, its output follows the header directly, and the
/// failure marker with the failed step's output stands behind it, in the same
/// section.
pub proof fn lemma_failed_sync_is_reported(
    state: OrchestratorView,
    output: Seq<char>,
    bench: OutcomeView,
)
    requires
        state.wf(),
        state.stage is SyncBase || state.stage is SyncPr,
        !(bench is SpawnError),
    ensures
        ({
            let next = state.step(OutcomeView::Failure(output));
            let measured = next.step(bench);
            &&& next.stage == successor(state.stage)
            &&& next.stage is BenchBase || next.stage is BenchPr
            &&& next.label() == state.label()
            &&& next.action() == ActionView::Run(benchmark_step())
            &&& next.report == state.report + header(state.label())
            &&& next.sync_failure == Some(output)
            &&& measured.stage == successor(next.stage)
            &&& measured.report == state.report + section(state.label(), Some(output), bench)
            &&& measured.report == state.report + header(state.label()) + output_of(bench) + "\n"@
                + bench_failure_note(bench) + sync_failure_note(Some(output)) + "\n\n"@
        }),
{
    let next = state.step(OutcomeView::Failure(output));
    let measured = next.step(bench);
    lemma_output_follows_header(state.label(), Some(output), bench);
    assert(measured.report =~= state.report + section(state.label(), Some(output), bench));
    assert(measured.report =~= state.report + header(state.label()) + output_of(bench) + "\n"@
        + bench_failure_note(bench) + sync_failure_note(Some(output)) + "\n\n"@);
}

/// A run leaves the job and the working copy as they were, and every state
/// that it passes through is well-formed.
pub proof fn lemma_run_keeps_wf(start: OrchestratorView, outcomes: Seq<OutcomeView>)
    requires
        start.wf(),
    ensures
        run(start, outcomes).wf(),
        run(start, outcomes).job == start.job,
        run(start, outcomes).working_copy == start.working_copy,
    decreases outcomes.len(),
{
    if outcomes.len() > 0 {
        lemma_run_keeps_wf(start, outcomes.drop_last());
    }
}

/// What the report held at some point of a run, it holds at every later
/// point, at the same place.
pub proof fn lemma_run_extends_report(start: OrchestratorView, outcomes: Seq<OutcomeView>)
    ensures
        start.report.is_prefix_of(run(start, outcomes).report),
    decreases outcomes.len(),
{
    if outcomes.len() > 0 {
        let earlier = run(start, outcomes.drop_last());
        lemma_run_extends_report(start, outcomes.drop_last());
        lemma_step_extends_report(earlier, outcomes.last());
        let end = earlier.step(outcomes.last());
        assert(start.report =~= end.report.subrange(0, start.report.len() as int)) by {
            assert(start.report =~= earlier.report.subrange(0, start.report.len() as int));
            assert(earlier.report =~= end.report.subrange(0, earlier.report.len() as int));
        }
    } else {
        assert(start.report =~= start.report.subrange(0, start.report.len() as int));
    }
}

/// Each outcome of a run uses up at least one of the steps that were left.
pub proof fn lemma_run_uses_steps(start: OrchestratorView, outcomes: Seq<OutcomeView>)
    requires
        start.wf(),
    ensures
        ({
            let end = run(start, outcomes);
            steps_left(end) + outcomes.len() <= steps_left(start) || steps_left(end) == 0
        }),
    decreases outcomes.len(),
{
    if outcomes.len() > 0 {
        let earlier = run(start, outcomes.drop_last());
        lemma_run_uses_steps(start, outcomes.drop_last());
        lemma_run_keeps_wf(start, outcomes.drop_last());
        if !(earlier.stage is Done) && !(earlier.stage is Failed) {
            lemma_step_makes_progress(earlier, outcomes.last());
        }
    }
}

/// Every job ends: once eight outcomes were taken in, whatever they are, the
/// job is done or was given up, and asks for nothing more.
pub proof fn lemma_job_ends(
    working_copy: Seq<char>,
    job: BenchmarkJobView,
    outcomes: Seq<OutcomeView>,
)
    requires
        outcomes.len() >= 8,
    ensures
        ({
            let end = run(OrchestratorView::initial(working_copy, job), outcomes);
            &&& end.stage is Done || end.stage is Failed
            &&& end.action() is Finish || end.action() is Abort
        }),
{
    lemma_run_uses_steps(OrchestratorView::initial(working_copy, job), outcomes);
}

/// The report of a job whose two measurements both ended: two sections, the
/// base branch first. `base_sync` and `pr_sync` hold the output of the sync
/// step that failed, if one did.
pub open spec fn full_report(
    job: BenchmarkJobView,
    base_sync: Option<Seq<char>>,
    base_bench: OutcomeView,
    pr_sync: Option<Seq<char>>,
    pr_bench: OutcomeView,
) -> Seq<char> {
    section(job.base_label(), base_sync, base_bench) + section(job.pr_label(), pr_sync, pr_bench)
}

/// The report of a job that is measuring the pull request: the section of the
/// base branch, and the header of the pull request's.
pub open spec fn report_before_pr_bench(
    job: BenchmarkJobView,
    base_sync: Option<Seq<char>>,
    base_bench: OutcomeView,
) -> Seq<char> {
    section(job.base_label(), base_sync, base_bench) + header(job.pr_label())
}

/// What the report of a job looks like in each stage, if no process failed
/// to start: it holds the sections of the refs that were measured, whole, in
/// order, then the header of the ref that is being measured, and nothing
/// else.
pub open spec fn report_matches_stage(state: OrchestratorView) -> bool {
    match state.stage {
        Stage::SyncBase => state.report == Seq::<char>::empty(),
        Stage::BenchBase => state.report == header(state.job.base_label()),
        Stage::SyncPr => exists|base_sync: Option<Seq<char>>, base_bench: OutcomeView|
            !(base_bench is SpawnError) && state.report == #[trigger] section(
                state.job.base_label(),
                base_sync,
                base_bench,
            ),
        Stage::BenchPr => exists|base_sync: Option<Seq<char>>, base_bench: OutcomeView|
            !(base_bench is SpawnError) && state.report == #[trigger] report_before_pr_bench(
                state.job,
                base_sync,
                base_bench,
            ),
        Stage::Report | Stage::Done => exists|
            base_sync: Option<Seq<char>>,
            base_bench: OutcomeView,
            pr_sync: Option<Seq<char>>,
            pr_bench: OutcomeView,
        |
            !(base_bench is SpawnError) && !(pr_bench is SpawnError) && state.report
                == #[trigger] full_report(state.job, base_sync, base_bench, pr_sync, pr_bench),
        Stage::Failed => true,
    }
}

/// No outcome breaks the match of report and stage.
pub proof fn lemma_step_keeps_report_matching(state: OrchestratorView, outcome: OutcomeView)
    requires
        state.wf(),
        report_matches_stage(state),
    ensures
        report_matches_stage(state.step(outcome)),
{
    let next = state.step(outcome);
    let job = state.job;
    assert(next.job == job);
    if next.stage != state.stage && !(next.stage is Failed) {
        match state.stage {
            Stage::SyncBase => {
                assert(next.report =~= header(job.base_label()));
            },
            Stage::BenchBase => {
                assert(next.report == section(job.base_label(), state.sync_failure, outcome));
            },
            Stage::SyncPr => {
                let (base_sync, base_bench) = choose|
                    base_sync: Option<Seq<char>>,
                    base_bench: OutcomeView,
                |
                    !(base_bench is SpawnError) && state.report == #[trigger] section(
                        job.base_label(),
                        base_sync,
                        base_bench,
                    );
                assert(next.report == report_before_pr_bench(job, base_sync, base_bench));
            },
            Stage::BenchPr => {
                let (base_sync, base_bench) = choose|
                    base_sync: Option<Seq<char>>,
                    base_bench: OutcomeView,
                |
                    !(base_bench is SpawnError) && state.report
                        == #[trigger] report_before_pr_bench(job, base_sync, base_bench);
                assert(next.report =~= full_report(
                    job,
                    base_sync,
                    base_bench,
                    state.sync_failure,
                    outcome,
                ));
            },
            Stage::Report => {
                let (base_sync, base_bench, pr_sync, pr_bench) = choose|
                    base_sync: Option<Seq<char>>,
                    base_bench: OutcomeView,
                    pr_sync: Option<Seq<char>>,
                    pr_bench: OutcomeView,
                |
                    !(base_bench is SpawnError) && !(pr_bench is SpawnError) && state.report
                        == #[trigger] full_report(job, base_sync, base_bench, pr_sync, pr_bench);
                assert(next.report =~= full_report(job, base_sync, base_bench, pr_sync, pr_bench));
            },
            _ => {},
        }
    }
}

/// At every point of every run of a job, the report matches the stage.
pub proof fn lemma_run_keeps_report_matching(
    working_copy: Seq<char>,
    job: BenchmarkJobView,
    outcomes: Seq<OutcomeView>,
)
    ensures
        report_matches_stage(run(OrchestratorView::initial(working_copy, job), outcomes)),
    decreases outcomes.len(),
{
    let start = OrchestratorView::initial(working_copy, job);
    if outcomes.len() > 0 {
        lemma_run_keeps_report_matching(working_copy, job, outcomes.drop_last());
        lemma_run_keeps_wf(start, outcomes.drop_last());
        lemma_step_keeps_report_matching(run(start, outcomes.drop_last()), outcomes.last());
    }
}

/// Whatever a job posts holds both sections whole, the base branch first:
/// no failed step keeps a measurement out of the comment. The comment goes to
/// the issue that asked, and its text is the report.
pub proof fn lemma_posted_report_has_both_sections(
    working_copy: Seq<char>,
    job: BenchmarkJobView,
    outcomes: Seq<OutcomeView>,
)
    requires
        run(OrchestratorView::initial(working_copy, job), outcomes).stage is Report,
    ensures
        ({
            let end = run(OrchestratorView::initial(working_copy, job), outcomes);
            &&& end.action() == ActionView::Run(
                post_comment_step(job.owner, job.repo, job.pr_number, end.report),
            )
            &&& exists|
                base_sync: Option<Seq<char>>,
                base_bench: OutcomeView,
                pr_sync: Option<Seq<char>>,
                pr_bench: OutcomeView,
            |
                !(base_bench is SpawnError) && !(pr_bench is SpawnError) && end.report
                    == #[trigger] full_report(job, base_sync, base_bench, pr_sync, pr_bench)
        }),
{
    let start = OrchestratorView::initial(working_copy, job);
    lemma_run_keeps_wf(start, outcomes);
    lemma_run_keeps_report_matching(working_copy, job, outcomes);
}

/// If a step of the sync to the base branch fails, the base branch is still
/// measured. Its section opens the report: the header, directly behind it
/// the benchmark's output, and behind that the failure marker with the failed
/// step's output. The section stays where it is, whatever follows: it opens
/// whatever is posted.
pub proof fn lemma_failed_base_sync_stays_in_report(
    working_copy: Seq<char>,
    job: BenchmarkJobView,
    before: Seq<OutcomeView>,
    output: Seq<char>,
    bench: OutcomeView,
    after: Seq<OutcomeView>,
)
    requires
        run(OrchestratorView::initial(working_copy, job), before).stage is SyncBase,
        !(bench is SpawnError),
    ensures
        ({
            let failed = run(
                OrchestratorView::initial(working_copy, job),
                before.push(OutcomeView::Failure(output)),
            );
            let measured = failed.step(bench);
            let end = run(measured, after);
            &&& failed.stage is BenchBase
            &&& failed.action() == ActionView::Run(benchmark_step())
            &&& failed.report == header(job.base_label())
            &&& measured.stage is SyncPr
            &&& measured.report == section(job.base_label(), Some(output), bench)
            &&& (header(job.base_label()) + output_of(bench) + "\n"@).is_prefix_of(
                measured.report,
            )
            &&& measured.report.is_prefix_of(end.report)
            &&& (header(job.base_label()) + output_of(bench) + "\n"@).is_prefix_of(end.report)
            &&& end.stage is Report ==> end.action() == ActionView::Run(
                post_comment_step(job.owner, job.repo, job.pr_number, end.report),
            )
        }),
{
    let start = OrchestratorView::initial(working_copy, job);
    let earlier = run(start, before);
    let outcomes = before.push(OutcomeView::Failure(output));
    assert(outcomes.drop_last() =~= before);
    assert(outcomes.last() == OutcomeView::Failure(output));
    let failed = run(start, outcomes);
    assert(failed == earlier.step(OutcomeView::Failure(output)));
    let measured = failed.step(bench);
    lemma_run_keeps_wf(start, before);
    lemma_run_keeps_report_matching(working_copy, job, before);
    lemma_failed_sync_is_reported(earlier, output, bench);
    assert(failed.report =~= header(job.base_label()));
    assert(measured.report =~= section(job.base_label(), Some(output), bench));
    lemma_output_follows_header(job.base_label(), Some(output), bench);
    lemma_step_keeps_wf(earlier, OutcomeView::Failure(output));
    lemma_step_keeps_wf(failed, bench);
    lemma_run_keeps_wf(measured, after);
    lemma_run_extends_report(measured, after);
    let end = run(measured, after);
    let opening = header(job.base_label()) + output_of(bench) + "\n"@;
    assert(opening =~= end.report.subrange(0, opening.len() as int)) by {
        assert(opening =~= measured.report.subrange(0, opening.len() as int));
        assert(measured.report =~= end.report.subrange(0, measured.report.len() as int));
    }
}

/// The run in which every step succeeds. `outputs` holds what the eight steps
/// wrote, in the order in which they ran. The job asks for: checkout of the
/// branch, pull, install, benchmark, checkout of the pull request, install,
/// benchmark, and one comment, which holds the two benchmark outputs under
/// their headers and nothing of what the other steps wrote. Then it is done.
pub proof fn lemma_clean_run(
    working_copy: Seq<char>,
    job: BenchmarkJobView,
    outputs: Seq<Seq<char>>,
)
    requires
        outputs.len() == 8,
    ensures
        ({
            let s0 = OrchestratorView::initial(working_copy, job);
            let s1 = s0.step(OutcomeView::Success(outputs[0]));
            let s2 = s1.step(OutcomeView::Success(outputs[1]));
            let s3 = s2.step(OutcomeView::Success(outputs[2]));
            let s4 = s3.step(OutcomeView::Success(outputs[3]));
            let s5 = s4.step(OutcomeView::Success(outputs[4]));
            let s6 = s5.step(OutcomeView::Success(outputs[5]));
            let s7 = s6.step(OutcomeView::Success(outputs[6]));
            let s8 = s7.step(OutcomeView::Success(outputs[7]));
            &&& s0.action() == ActionView::Run(
                checkout_branch_step(working_copy, job.default_branch),
            )
            &&& s1.action() == ActionView::Run(pull_step(working_copy))
            &&& s2.action() == ActionView::Run(install_step(working_copy))
            &&& s3.action() == ActionView::Run(benchmark_step())
            &&& s4.action() == ActionView::Run(checkout_pr_step(working_copy, job.pr_number))
            &&& s5.action() == ActionView::Run(install_step(working_copy))
            &&& s6.action() == ActionView::Run(benchmark_step())
            &&& s7.action() == ActionView::Run(
                post_comment_step(
                    job.owner,
                    job.repo,
                    job.pr_number,
                    header(job.base_label()) + outputs[3] + "\n\n\n"@ + header(job.pr_label())
                        + outputs[6] + "\n\n\n"@,
                ),
            )
            &&& s8.action() == ActionView::Finish
            &&& s8.report == s7.report
        }),
{
    let s0 = OrchestratorView::initial(working_copy, job);
    let s1 = s0.step(OutcomeView::Success(outputs[0]));
    let s2 = s1.step(OutcomeView::Success(outputs[1]));
    let s3 = s2.step(OutcomeView::Success(outputs[2]));
    let s4 = s3.step(OutcomeView::Success(outputs[3]));
    let s5 = s4.step(OutcomeView::Success(outputs[4]));
    let s6 = s5.step(OutcomeView::Success(outputs[5]));
    let s7 = s6.step(OutcomeView::Success(outputs[6]));
    let s8 = s7.step(OutcomeView::Success(outputs[7]));
    lemma_clean_section(job.base_label(), outputs[3]);
    lemma_clean_section(job.pr_label(), outputs[6]);
    assert(s3.report =~= header(job.base_label()));
    assert(s4.report =~= section(job.base_label(), None, OutcomeView::Success(outputs[3])));
    assert(s6.report =~= s4.report + header(job.pr_label()));
    assert(s7.report =~= s4.report + section(
        job.pr_label(),
        None,
        OutcomeView::Success(outputs[6]),
    ));
    assert(s7.report =~= header(job.base_label()) + outputs[3] + "\n\n\n"@ + header(
        job.pr_label(),
    ) + outputs[6] + "\n\n\n"@);
    assert(s8.report =~= s7.report);
}

} // verus!

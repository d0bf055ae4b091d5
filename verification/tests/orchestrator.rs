use raphael_bencher::bench::benchmark;
use raphael_bencher::command::{Invocation, Outcome, ProcessOutput};
use raphael_bencher::job::BenchmarkJob;
use raphael_bencher::orchestrator::{Action, Orchestrator, Stage};
use raphael_bencher::reporter::post_comment;
use raphael_bencher::sync::{sync_to_branch, sync_to_pull_request};

fn sample_job() -> BenchmarkJob {
    BenchmarkJob {
        owner: "o".to_string(),
        repo: "r".to_string(),
        pr_number: 42,
        default_branch: "main".to_string(),
    }
}

fn ok(output: &str) -> Outcome {
    Outcome::Success(output.to_string())
}

fn failed(output: &str) -> Outcome {
    Outcome::Failure(output.to_string())
}

fn expect_run(orchestrator: &Orchestrator) -> Invocation {
    match orchestrator.action() {
        Action::Run(step) => step,
        other => panic!("expected a step to run, got {:?}", other),
    }
}

fn drive(outcomes: Vec<Outcome>) -> (Orchestrator, Vec<Invocation>) {
    let mut orchestrator = Orchestrator::new("/w", sample_job());
    let mut ran: Vec<Invocation> = Vec::new();
    for outcome in outcomes {
        if let Action::Run(step) = orchestrator.action() {
            ran.push(step);
        }
        orchestrator = orchestrator.advance(outcome);
    }
    (orchestrator, ran)
}

#[test]
fn a_new_job_starts_with_the_checkout_of_the_base_branch() {
    let orchestrator = Orchestrator::new("/w", sample_job());
    assert_eq!(orchestrator.stage(), Stage::SyncBase);
    assert_eq!(orchestrator.report().text(), "");
    assert_eq!(orchestrator.job(), &sample_job());
    assert_eq!(expect_run(&orchestrator), sync_to_branch("/w", "main")[0]);
}

#[test]
fn a_clean_run_asks_for_the_eight_steps_in_order() {
    let (end, ran) = drive(vec![
        ok("switched"),
        ok("up to date"),
        ok("installed"),
        ok("base: 10 ms"),
        ok("checked out"),
        ok("installed"),
        ok("pr: 9 ms"),
        ok("posted"),
    ]);
    let base = sync_to_branch("/w", "main");
    let pr = sync_to_pull_request("/w", 42);
    let body = "Benchmarking `main`:\nbase: 10 ms\n\n\nBenchmarking `pr 42`:\npr: 9 ms\n\n\n";
    assert_eq!(
        ran,
        vec![
            base[0].clone(),
            base[1].clone(),
            base[2].clone(),
            benchmark(),
            pr[0].clone(),
            pr[1].clone(),
            benchmark(),
            post_comment("o", "r", 42, body),
        ]
    );
    assert_eq!(end.stage(), Stage::Done);
    assert_eq!(end.action(), Action::Finish);
    assert_eq!(end.report().text(), body);
}

#[test]
fn a_clean_run_passes_through_the_stages_in_order() {
    let mut orchestrator = Orchestrator::new("/w", sample_job());
    let mut stages: Vec<Stage> = vec![orchestrator.stage()];
    for _ in 0..8 {
        orchestrator = orchestrator.advance(ok("x"));
        stages.push(orchestrator.stage());
    }
    assert_eq!(
        stages,
        vec![
            Stage::SyncBase,
            Stage::SyncBase,
            Stage::SyncBase,
            Stage::BenchBase,
            Stage::SyncPr,
            Stage::SyncPr,
            Stage::BenchPr,
            Stage::Report,
            Stage::Done,
        ]
    );
}

#[test]
fn the_report_grows_as_the_stages_end() {
    let mut orchestrator = Orchestrator::new("/w", sample_job());
    orchestrator = orchestrator.advance(ok("a"));
    orchestrator = orchestrator.advance(ok("b"));
    assert_eq!(orchestrator.report().text(), "");
    orchestrator = orchestrator.advance(ok("c"));
    assert_eq!(orchestrator.report().text(), "Benchmarking `main`:\n");
    orchestrator = orchestrator.advance(ok("BASE"));
    assert_eq!(orchestrator.report().text(), "Benchmarking `main`:\nBASE\n\n\n");
    orchestrator = orchestrator.advance(ok("d"));
    assert_eq!(orchestrator.report().text(), "Benchmarking `main`:\nBASE\n\n\n");
    orchestrator = orchestrator.advance(ok("e"));
    assert_eq!(
        orchestrator.report().text(),
        "Benchmarking `main`:\nBASE\n\n\nBenchmarking `pr 42`:\n"
    );
    orchestrator = orchestrator.advance(ok("PR"));
    assert_eq!(
        orchestrator.report().text(),
        "Benchmarking `main`:\nBASE\n\n\nBenchmarking `pr 42`:\nPR\n\n\n"
    );
}

#[test]
fn a_failed_checkout_of_the_base_still_benchmarks_and_reports_it() {
    let mut orchestrator = Orchestrator::new("/w", sample_job());
    orchestrator = orchestrator.advance(failed("error: pathspec 'main' did not match"));
    assert_eq!(orchestrator.stage(), Stage::BenchBase);
    assert_eq!(expect_run(&orchestrator), benchmark());
    assert_eq!(orchestrator.report().text(), "Benchmarking `main`:\n");
    orchestrator = orchestrator.advance(ok("base: 10 ms"));
    assert_eq!(
        orchestrator.report().text(),
        "Benchmarking `main`:\nbase: 10 ms\n[sync failed]\n\
         error: pathspec 'main' did not match\n\n\n"
    );
    orchestrator = orchestrator.advance(ok(""));
    orchestrator = orchestrator.advance(ok(""));
    orchestrator = orchestrator.advance(ok("pr: 9 ms"));
    let body = "Benchmarking `main`:\nbase: 10 ms\n[sync failed]\n\
                error: pathspec 'main' did not match\n\n\n\
                Benchmarking `pr 42`:\npr: 9 ms\n\n\n";
    assert_eq!(orchestrator.stage(), Stage::Report);
    assert_eq!(expect_run(&orchestrator), post_comment("o", "r", 42, body));
}

#[test]
fn a_failed_pull_skips_the_install_and_nothing_else() {
    let (end, ran) = drive(vec![
        ok(""),
        failed("no network"),
        ok("base"),
        ok(""),
        ok(""),
        ok("pr"),
        ok(""),
    ]);
    let base = sync_to_branch("/w", "main");
    let pr = sync_to_pull_request("/w", 42);
    let body = "Benchmarking `main`:\nbase\n[sync failed]\nno network\n\n\n\
                Benchmarking `pr 42`:\npr\n\n\n";
    assert_eq!(
        ran,
        vec![
            base[0].clone(),
            base[1].clone(),
            benchmark(),
            pr[0].clone(),
            pr[1].clone(),
            benchmark(),
            post_comment("o", "r", 42, body),
        ]
    );
    assert_eq!(end.stage(), Stage::Done);
}

#[test]
fn a_failed_install_on_the_base_is_reported() {
    let (end, ran) = drive(vec![ok(""), ok(""), failed("build error"), ok("base")]);
    assert_eq!(ran.len(), 4);
    assert_eq!(ran[3], benchmark());
    assert_eq!(end.stage(), Stage::SyncPr);
    assert_eq!(
        end.report().text(),
        "Benchmarking `main`:\nbase\n[sync failed]\nbuild error\n\n\n"
    );
}

#[test]
fn the_output_follows_its_header_also_after_a_failed_install() {
    let (end, ran) = drive(vec![
        ok(""),
        ok(""),
        failed(""),
        ok("A"),
        ok(""),
        ok(""),
        ok("B"),
        ok(""),
    ]);
    assert_eq!(ran.len(), 8);
    assert_eq!(ran[3].program, "./scripts/bench-solver.sh");
    assert_eq!(ran[6].program, "./scripts/bench-solver.sh");
    assert_eq!(ran[7].program, "gh");
    assert_eq!(ran[7].args[0], "api");
    assert_eq!(ran[7].args[7], "/repos/o/r/issues/42/comments");
    let body = &ran[7].args[9];
    assert_eq!(
        body,
        "body=Benchmarking `main`:\nA\n[sync failed]\n\n\n\nBenchmarking `pr 42`:\nB\n\n\n"
    );
    let base = body.find("Benchmarking `main`:\nA").expect("the base output follows its header");
    let pr = body.find("Benchmarking `pr 42`:\nB").expect("the pr output follows its header");
    assert!(base < pr);
    assert_eq!(end.stage(), Stage::Done);
}

#[test]
fn a_failed_sync_to_the_pull_request_is_reported_in_its_section() {
    let (end, ran) =
        drive(vec![ok(""), ok(""), ok(""), ok("base"), failed("no such pr"), ok("pr")]);
    assert_eq!(ran[4], sync_to_pull_request("/w", 42)[0]);
    assert_eq!(ran[5], benchmark());
    assert_eq!(end.stage(), Stage::Report);
    assert_eq!(
        end.report().text(),
        "Benchmarking `main`:\nbase\n\n\nBenchmarking `pr 42`:\npr\n[sync failed]\nno such pr\n\n\n"
    );
}

#[test]
fn a_failed_sync_of_one_ref_is_not_noted_for_the_other() {
    let (end, _) = drive(vec![failed("x"), ok("base"), ok(""), ok(""), ok("pr")]);
    assert_eq!(
        end.report().text(),
        "Benchmarking `main`:\nbase\n[sync failed]\nx\n\n\nBenchmarking `pr 42`:\npr\n\n\n"
    );
}

#[test]
fn a_failed_benchmark_is_reported_with_what_it_wrote() {
    let (end, _) =
        drive(vec![ok(""), ok(""), ok(""), failed("half a table"), ok(""), ok(""), ok("pr")]);
    assert_eq!(end.stage(), Stage::Report);
    assert_eq!(
        end.report().text(),
        "Benchmarking `main`:\nhalf a table\n[benchmark failed]\n\n\n\
         Benchmarking `pr 42`:\npr\n\n\n"
    );
}

#[test]
fn a_run_in_which_everything_fails_still_posts_both_sections() {
    let (end, ran) = drive(vec![failed("a"), failed("b"), failed("c"), failed("d")]);
    assert_eq!(ran.len(), 4);
    assert_eq!(end.stage(), Stage::Report);
    let body = "Benchmarking `main`:\nb\n[benchmark failed]\n[sync failed]\na\n\n\n\
                Benchmarking `pr 42`:\nd\n[benchmark failed]\n[sync failed]\nc\n\n\n";
    assert_eq!(expect_run(&end), post_comment("o", "r", 42, body));
}

#[test]
fn a_benchmark_with_garbled_output_does_not_end_the_job() {
    let mut orchestrator = Orchestrator::new("/w", sample_job());
    for _ in 0..3 {
        orchestrator = orchestrator.advance(ok(""));
    }
    let garbled = ProcessOutput { stdout: vec![0xff], success: true };
    orchestrator = orchestrator.advance(Outcome::of_process(Some(garbled)));
    assert_eq!(orchestrator.stage(), Stage::SyncPr);
    assert_eq!(orchestrator.report().text(), "Benchmarking `main`:\n\u{fffd}\n\n\n");
    orchestrator = orchestrator.advance(ok(""));
    orchestrator = orchestrator.advance(ok(""));
    orchestrator = orchestrator.advance(ok("B"));
    assert_eq!(orchestrator.stage(), Stage::Report);
    let body = "Benchmarking `main`:\n\u{fffd}\n\n\nBenchmarking `pr 42`:\nB\n\n\n";
    assert_eq!(expect_run(&orchestrator), post_comment("o", "r", 42, body));
}

#[test]
fn a_comment_that_could_not_be_posted_still_ends_the_job() {
    let (end, ran) = drive(vec![
        ok(""),
        ok(""),
        ok(""),
        ok("base"),
        ok(""),
        ok(""),
        ok("pr"),
        failed("HTTP 403"),
    ]);
    assert_eq!(ran.len(), 8);
    assert_eq!(end.stage(), Stage::Done);
    assert_eq!(end.action(), Action::Finish);
}

#[test]
fn a_process_that_cannot_be_started_ends_the_job_without_a_comment() {
    let (end, ran) = drive(vec![ok(""), Outcome::SpawnError, ok("x"), ok("y")]);
    assert_eq!(ran.len(), 2);
    assert_eq!(end.stage(), Stage::Failed);
    assert_eq!(end.action(), Action::Abort);
}

#[test]
fn a_spawn_error_ends_the_job_in_every_stage() {
    for steps_before in 0..8 {
        let mut orchestrator = Orchestrator::new("/w", sample_job());
        for _ in 0..steps_before {
            orchestrator = orchestrator.advance(ok("x"));
        }
        orchestrator = orchestrator.advance(Outcome::SpawnError);
        assert_eq!(orchestrator.stage(), Stage::Failed);
        assert_eq!(orchestrator.action(), Action::Abort);
    }
}

#[test]
fn a_finished_job_takes_in_nothing_more() {
    let (end, _) = drive(vec![ok(""), ok(""), ok(""), ok("b"), ok(""), ok(""), ok("p"), ok("")]);
    let text = end.report().text().to_string();
    let end = end.advance(failed("late"));
    assert_eq!(end.stage(), Stage::Done);
    assert_eq!(end.report().text(), text);
    let end = end.advance(Outcome::SpawnError);
    assert_eq!(end.stage(), Stage::Done);
    assert_eq!(end.action(), Action::Finish);
}

#[test]
fn a_job_that_was_given_up_stays_given_up() {
    let orchestrator = Orchestrator::new("/w", sample_job()).advance(Outcome::SpawnError);
    let orchestrator = orchestrator.advance(ok("x"));
    assert_eq!(orchestrator.stage(), Stage::Failed);
    assert_eq!(orchestrator.action(), Action::Abort);
}

#[test]
fn no_job_asks_for_more_than_eight_steps() {
    let (end, ran) = drive(vec![
        ok("1"),
        ok("2"),
        ok("3"),
        ok("4"),
        ok("5"),
        ok("6"),
        ok("7"),
        ok("8"),
        ok("9"),
        ok("10"),
    ]);
    assert_eq!(ran.len(), 8);
    assert_eq!(end.stage(), Stage::Done);
}

#[test]
fn the_steps_of_each_stage_are_counted() {
    assert_eq!(Stage::SyncBase.steps(), 3);
    assert_eq!(Stage::BenchBase.steps(), 1);
    assert_eq!(Stage::SyncPr.steps(), 2);
    assert_eq!(Stage::BenchPr.steps(), 1);
    assert_eq!(Stage::Report.steps(), 1);
    assert_eq!(Stage::Done.steps(), 0);
    assert_eq!(Stage::Failed.steps(), 0);
}

#[test]
fn the_stages_follow_each_other() {
    assert_eq!(Stage::SyncBase.next(), Stage::BenchBase);
    assert_eq!(Stage::BenchBase.next(), Stage::SyncPr);
    assert_eq!(Stage::SyncPr.next(), Stage::BenchPr);
    assert_eq!(Stage::BenchPr.next(), Stage::Report);
    assert_eq!(Stage::Report.next(), Stage::Done);
    assert_eq!(Stage::Done.next(), Stage::Done);
    assert_eq!(Stage::Failed.next(), Stage::Failed);
    assert!(Stage::Done.is_final());
    assert!(Stage::Failed.is_final());
    assert!(!Stage::Report.is_final());
    assert!(!Stage::SyncBase.is_final());
}

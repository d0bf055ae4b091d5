//! Bringing the working copy to a branch or to a pull request's head, and
//! rebuilding the command-line tool that the benchmark script runs.
//!
//! Every step runs in the working copy. The steps of a plan are meant to run in
//! order; one that fails ends the plan, since each later step builds on it.

use crate::command::{invocation_views, Invocation, InvocationView};
use crate::text::{decimal, decimal_digits, texts};
use vstd::prelude::*;
use vstd::string::*;

verus! {

/// `git checkout <branch>` in the working copy.
pub open spec fn checkout_branch_step(dir: Seq<char>, branch: Seq<char>) -> InvocationView {
    InvocationView { program: "git"@, args: seq!["checkout"@, branch], dir: Some(dir) }
}

/// `git pull` in the working copy.
pub open spec fn pull_step(dir: Seq<char>) -> InvocationView {
    InvocationView { program: "git"@, args: seq!["pull"@], dir: Some(dir) }
}

/// `gh pr checkout <number>` in the working copy, the number in decimal.
pub open spec fn checkout_pr_step(dir: Seq<char>, pr_number: u64) -> InvocationView {
    InvocationView {
        program: "gh"@,
        args: seq!["pr"@, "checkout"@, decimal_digits(pr_number as nat)],
        dir: Some(dir),
    }
}

/// `cargo install --path raphael-cli` in the working copy.
pub open spec fn install_step(dir: Seq<char>) -> InvocationView {
    InvocationView {
        program: "cargo"@,
        args: seq!["install"@, "--path"@, "raphael-cli"@],
        dir: Some(dir),
    }
}

/// The steps that bring the working copy to the tip of a branch: check the
/// branch out, pull, install the tool.
pub open spec fn branch_sync_plan(dir: Seq<char>, branch: Seq<char>) -> Seq<InvocationView> {
    seq![checkout_branch_step(dir, branch), pull_step(dir), install_step(dir)]
}

/// The steps that bring the working copy to the head of a pull request: check
/// the pull request out, install the tool.
pub open spec fn pr_sync_plan(dir: Seq<char>, pr_number: u64) -> Seq<InvocationView> {
    seq![checkout_pr_step(dir, pr_number), install_step(dir)]
}

fn checkout_branch(dir: &str, branch: &str) -> (step: Invocation)
    ensures
        step@ == checkout_branch_step(dir@, branch@),
{
    let mut args: Vec<String> = Vec::new();
    args.push(String::from_str("checkout"));
    args.push(String::from_str(branch));
    assert(texts(args@) =~= seq!["checkout"@, branch@]);
    Invocation { program: String::from_str("git"), args, dir: Some(String::from_str(dir)) }
}

fn pull(dir: &str) -> (step: Invocation)
    ensures
        step@ == pull_step(dir@),
{
    let mut args: Vec<String> = Vec::new();
    args.push(String::from_str("pull"));
    assert(texts(args@) =~= seq!["pull"@]);
    Invocation { program: String::from_str("git"), args, dir: Some(String::from_str(dir)) }
}

fn checkout_pr(dir: &str, pr_number: u64) -> (step: Invocation)
    ensures
        step@ == checkout_pr_step(dir@, pr_number),
{
    let mut args: Vec<String> = Vec::new();
    args.push(String::from_str("pr"));
    args.push(String::from_str("checkout"));
    args.push(decimal(pr_number));
    assert(texts(args@) =~= seq!["pr"@, "checkout"@, decimal_digits(pr_number as nat)]);
    Invocation { program: String::from_str("gh"), args, dir: Some(String::from_str(dir)) }
}

fn install(dir: &str) -> (step: Invocation)
    ensures
        step@ == install_step(dir@),
{
    let mut args: Vec<String> = Vec::new();
    args.push(String::from_str("install"));
    args.push(String::from_str("--path"));
    args.push(String::from_str("raphael-cli"));
    assert(texts(args@) =~= seq!["install"@, "--path"@, "raphael-cli"@]);
    Invocation { program: String::from_str("cargo"), args, dir: Some(String::from_str(dir)) }
}

/// The plan that brings the working copy `dir` to the tip of `branch`.
pub fn sync_to_branch(dir: &str, branch: &str) -> (plan: Vec<Invocation>)
    ensures
        invocation_views(plan@) == branch_sync_plan(dir@, branch@),
{
    let mut plan: Vec<Invocation> = Vec::new();
    plan.push(checkout_branch(dir, branch));
    plan.push(pull(dir));
    plan.push(install(dir));
    assert(invocation_views(plan@) =~= branch_sync_plan(dir@, branch@));
    plan
}

/// The plan that brings the working copy `dir` to the head of the pull
/// request `pr_number`.
pub fn sync_to_pull_request(dir: &str, pr_number: u64) -> (plan: Vec<Invocation>)
    ensures
        invocation_views(plan@) == pr_sync_plan(dir@, pr_number),
{
    let mut plan: Vec<Invocation> = Vec::new();
    plan.push(checkout_pr(dir, pr_number));
    plan.push(install(dir));
    assert(invocation_views(plan@) =~= pr_sync_plan(dir@, pr_number));
    plan
}

} // verus!

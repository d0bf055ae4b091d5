//! The unit of work that one authorized event asks for.

use crate::event::{WebhookEvent, WebhookEventView};
use crate::text::{decimal, decimal_digits};
use vstd::prelude::*;
use vstd::string::*;

verus! {

/// One benchmark comparison to run: the repository, the pull request, and the
/// branch that the pull request is compared with.
#[derive(Clone, Debug, PartialEq, Eq)]
pub struct BenchmarkJob {
    pub owner: String,
    pub repo: String,
    pub pr_number: u64,
    pub default_branch: String,
}

/// The mathematical content of a [`BenchmarkJob`].
pub struct BenchmarkJobView {
    pub owner: Seq<char>,
    pub repo: Seq<char>,
    pub pr_number: u64,
    pub default_branch: Seq<char>,
}

impl View for BenchmarkJob {
    type V = BenchmarkJobView;

    open spec fn view(&self) -> BenchmarkJobView {
        BenchmarkJobView {
            owner: self.owner@,
            repo: self.repo@,
            pr_number: self.pr_number,
            default_branch: self.default_branch@,
        }
    }
}

/// The job that an event asks for: the login of the repository's owner, the
/// repository's name, the number of the issue that was commented on, and the
/// repository's default branch.
pub open spec fn job_of(event: WebhookEventView) -> BenchmarkJobView {
    BenchmarkJobView {
        owner: event.repository.owner.login,
        repo: event.repository.name,
        pr_number: event.issue_number,
        default_branch: event.repository.default_branch,
    }
}

impl BenchmarkJobView {
    /// The name under which the base measurement is reported: the branch.
    pub open spec fn base_label(self) -> Seq<char> {
        self.default_branch
    }

    /// The name under which the pull request's measurement is reported:
    /// `pr`, a space, and the number in decimal.
    pub open spec fn pr_label(self) -> Seq<char> {
        "pr "@ + decimal_digits(self.pr_number as nat)
    }
}

impl BenchmarkJob {
    /// Takes from an event what the job needs, and nothing else.
    pub fn from_event(event: &WebhookEvent) -> (job: BenchmarkJob)
        ensures
            job@ == job_of(event@),
    {
        BenchmarkJob {
            owner: event.repository.owner.login.clone(),
            repo: event.repository.name.clone(),
            pr_number: event.issue.number,
            default_branch: event.repository.default_branch.clone(),
        }
    }

    /// The name under which the base measurement is reported.
    pub fn base_label(&self) -> (label: String)
        ensures
            label@ == self@.base_label(),
    {
        self.default_branch.clone()
    }

    /// The name under which the pull request's measurement is reported.
    pub fn pr_label(&self) -> (label: String)
        ensures
            label@ == self@.pr_label(),
    {
        let mut label = String::from_str("pr ");
        let number = decimal(self.pr_number);
        label.append(number.as_str());
        label
    }
}

} // verus!

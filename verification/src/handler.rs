//! What the service does with one verified, decoded event.
//!
//! The handler asks the policy. An event that asks for nothing is answered
//! with a client error, and that is all. An event that asks for a benchmark
//! becomes one job, which is handed to the queue, and is answered with
//! success at once: the answer never waits for a job.

use crate::event::{WebhookEvent, WebhookEventView};
use crate::filter::{Policy, PolicyView};
use crate::job::{job_of, BenchmarkJob, BenchmarkJobView};
use crate::queue::{optional_job, JobQueue, JobQueueView};
use vstd::prelude::*;

verus! {

/// The answer to the sender of an event.
#[derive(Clone, Copy, Debug, PartialEq, Eq, Structural)]
pub enum Response {
    /// The event asked for a benchmark, and a job was made of it.
    Accepted,
    /// The event asked for nothing.
    Rejected,
}

/// The status code of an answer.
pub open spec fn status_of(response: Response) -> u16 {
    match response {
        Response::Accepted => 200,
        Response::Rejected => 400,
    }
}

/// Whether a status code tells of success.
pub open spec fn is_success(code: u16) -> bool {
    200 <= code <= 299
}

/// Whether a status code tells of an error on the sender's side.
pub open spec fn is_client_error(code: u16) -> bool {
    400 <= code <= 499
}

impl Response {
    /// The status code to answer with: success for an accepted event, a
    /// client error for a rejected one.
    pub fn status_code(self) -> (code: u16)
        ensures
            code == status_of(self),
            self is Accepted <==> is_success(code),
            self is Rejected <==> is_client_error(code),
    {
        match self {
            Response::Accepted => 200,
            Response::Rejected => 400,
        }
    }
}

/// What became of an event: the answer to its sender, and the job to start
/// now, if there is one.
#[derive(Clone, Debug, PartialEq, Eq)]
pub struct Handled {
    pub response: Response,
    /// The job that the caller is to start running, away from the request.
    /// `None` for a rejected event, and for an accepted one whose job waits
    /// in the queue behind the running one.
    pub start: Option<BenchmarkJob>,
}

/// The mathematical content of what [`webhook_handler`] does: the answer,
/// the job to start now, and the queue after the event.
pub struct HandledView {
    pub response: Response,
    pub start: Option<BenchmarkJobView>,
    pub queue: JobQueueView,
}

/// What handling an event comes to. An event that the policy permits makes
/// the job of that event, which goes into the queue. Any other event leaves
/// the queue as it was and starts nothing.
pub open spec fn handle(
    policy: PolicyView,
    queue: JobQueueView,
    event: WebhookEventView,
) -> HandledView {
    if policy.permits(event) {
        let (queue, start) = queue.submit(job_of(event));
        HandledView { response: Response::Accepted, start, queue }
    } else {
        HandledView { response: Response::Rejected, start: None, queue }
    }
}

/// Every event that asks for a benchmark is answered with success and makes
/// exactly one job, the job of that event. If no job is running, it is the
/// one to start; else it is the last of those that wait. The answer is there
/// before any step of the job has run.
pub proof fn lemma_permitted_event_makes_one_job(
    policy: PolicyView,
    queue: JobQueueView,
    event: WebhookEventView,
)
    requires
        queue.wf(),
        policy.permits(event),
    ensures
        ({
            let handled = handle(policy, queue, event);
            &&& handled.response == Response::Accepted
            &&& is_success(status_of(handled.response))
            &&& handled.queue.load() == queue.load() + 1
            &&& handled.queue.busy
            &&& !queue.busy ==> handled.start == Some(job_of(event)) && handled.queue.waiting
                == queue.waiting
            &&& queue.busy ==> handled.start is None && handled.queue.waiting
                == queue.waiting.push(job_of(event))
        }),
{
    if !queue.busy {
        assert(queue.waiting.push(job_of(event)).drop_first() =~= queue.waiting);
    }
}

/// An event that asks for nothing is answered with a client error, makes no
/// job and starts none: no process runs on its account.
pub proof fn lemma_rejected_event_starts_nothing(
    policy: PolicyView,
    queue: JobQueueView,
    event: WebhookEventView,
)
    requires
        !policy.permits(event),
    ensures
        ({
            let handled = handle(policy, queue, event);
            &&& handled.response == Response::Rejected
            &&& is_client_error(status_of(handled.response))
            &&& handled.start is None
            &&& handled.queue == queue
        }),
{
}

/// An event that comes a second time is handled as it was the first time:
/// nothing remembers it. If it asks for a benchmark, it is accepted again and
/// makes a second job, equal to the first and beside it.
pub proof fn lemma_replay_makes_another_job(
    policy: PolicyView,
    queue: JobQueueView,
    event: WebhookEventView,
)
    requires
        queue.wf(),
        policy.permits(event),
    ensures
        ({
            let first = handle(policy, queue, event);
            let second = handle(policy, first.queue, event);
            &&& first.response == Response::Accepted
            &&& second.response == Response::Accepted
            &&& second.start is None
            &&& second.queue.load() == queue.load() + 2
            &&& second.queue.waiting == first.queue.waiting.push(job_of(event))
        }),
{
}

/// Handles one event.
///
/// An event that the policy permits makes exactly one job, that of the event,
/// which goes into the queue; the answer is `Accepted`. Any other event leaves
/// the queue as it was, starts nothing, and is answered with `Rejected`.
pub fn webhook_handler(policy: &Policy, queue: &mut JobQueue, event: WebhookEvent) -> (handled:
    Handled)
    ensures
        handle(policy@, old(queue)@, event@) == (HandledView {
            response: handled.response,
            start: optional_job(handled.start),
            queue: final(queue)@,
        }),
        policy@.permits(event@) ==> handled.response == Response::Accepted && final(queue)@.load()
            == old(queue)@.load() + 1,
        !policy@.permits(event@) ==> handled.response == Response::Rejected && handled.start is None
            && final(queue)@ == old(queue)@,
{
    let decision = policy.authorize(event);
    if decision.authorized {
        let job = BenchmarkJob::from_event(&decision.event);
        let start = queue.submit(job);
        Handled { response: Response::Accepted, start }
    } else {
        Handled { response: Response::Rejected, start: None }
    }
}

} // verus!

//! One job at a time.
//!
//! Every job rewrites the same working copy and the same installed tool, so
//! two jobs must never run together. The queue hands out one job to run and
//! keeps the others waiting, in the order in which they came, until the
//! running one is reported finished.

use crate::job::{BenchmarkJob, BenchmarkJobView};
use std::collections::VecDeque;
use vstd::prelude::*;

verus! {

/// The jobs that were accepted and have not finished.
#[derive(Debug)]
pub struct JobQueue {
    busy: bool,
    waiting: VecDeque<BenchmarkJob>,
}

/// The mathematical content of a [`JobQueue`].
pub struct JobQueueView {
    /// Whether a job was handed out that has not finished.
    pub busy: bool,
    /// The jobs that wait, the one that came first in front.
    pub waiting: Seq<BenchmarkJobView>,
}

impl View for JobQueue {
    type V = JobQueueView;

    closed spec fn view(&self) -> JobQueueView {
        JobQueueView { busy: self.busy, waiting: self.waiting@.map_values(|j: BenchmarkJob| j@) }
    }
}

/// The content of an optional job.
pub open spec fn optional_job(job: Option<BenchmarkJob>) -> Option<BenchmarkJobView> {
    match job {
        Some(job) => Some(job@),
        None => None,
    }
}

impl JobQueueView {
    /// The queue with no job in it.
    pub open spec fn idle() -> JobQueueView {
        JobQueueView { busy: false, waiting: Seq::<BenchmarkJobView>::empty() }
    }

    /// Jobs wait only while one runs.
    pub open spec fn wf(self) -> bool {
        !self.busy ==> self.waiting.len() == 0
    }

    /// The number of jobs that were accepted and have not finished.
    pub open spec fn load(self) -> nat {
        if self.busy {
            self.waiting.len() + 1
        } else {
            self.waiting.len()
        }
    }

    /// The queue after a job came in, and the job to start now, if any. While
    /// a job runs, the new one waits behind those that wait already. Else the
    /// job in front starts.
    pub open spec fn submit(self, job: BenchmarkJobView) -> (JobQueueView, Option<
        BenchmarkJobView,
    >) {
        let all = self.waiting.push(job);
        if self.busy {
            (JobQueueView { busy: true, waiting: all }, None)
        } else {
            (JobQueueView { busy: true, waiting: all.drop_first() }, Some(all[0]))
        }
    }

    /// The queue after the running job finished, and the job to start now, if
    /// any: the one that waited longest.
    pub open spec fn finish(self) -> (JobQueueView, Option<BenchmarkJobView>) {
        if self.waiting.len() > 0 {
            (JobQueueView { busy: true, waiting: self.waiting.drop_first() }, Some(self.waiting[0]))
        } else {
            (JobQueueView { busy: false, waiting: self.waiting }, None)
        }
    }
}

/// The queue starts well-formed, and whatever comes in or finishes leaves it
/// well-formed.
pub proof fn lemma_queue_stays_wf(queue: JobQueueView, job: BenchmarkJobView)
    ensures
        JobQueueView::idle().wf(),
        queue.submit(job).0.wf(),
        queue.finish().0.wf(),
{
}

/// Never two at once. A job that comes in is started if and only if none is
/// running, and from then on one is running. When the running job finishes,
/// one job at most is started in its place, and if none is, none is running.
pub proof fn lemma_one_job_at_a_time(queue: JobQueueView, job: BenchmarkJobView)
    requires
        queue.wf(),
    ensures
        queue.submit(job).1 is Some <==> !queue.busy,
        !queue.busy ==> queue.submit(job).1 == Some(job),
        queue.submit(job).0.busy,
        queue.finish().0.busy <==> queue.finish().1 is Some,
{
}

/// Every job that comes in counts, also one that equals a job that waits,
/// runs or ran: after it came in, the queue holds one job more. Every job
/// that finishes leaves, and no other.
pub proof fn lemma_every_job_counts(queue: JobQueueView, job: BenchmarkJobView)
    ensures
        queue.submit(job).0.load() == queue.load() + 1,
        queue.submit(job).0.submit(job).0.load() == queue.load() + 2,
        queue.busy ==> queue.submit(job).0.submit(job).0.waiting == queue.waiting.push(job).push(
            job,
        ),
        queue.busy ==> queue.finish().0.load() == queue.load() - 1,
{
}

/// Jobs start in the order in which they came: a job that comes in while
/// another runs is started only after all those that waited before it.
pub proof fn lemma_first_come_first_served(queue: JobQueueView, job: BenchmarkJobView)
    requires
        queue.busy,
    ensures
        queue.submit(job).0.waiting.last() == job,
        queue.waiting.len() > 0 ==> queue.submit(job).0.finish().1 == Some(queue.waiting[0]),
        queue.waiting.len() == 0 ==> queue.submit(job).0.finish().1 == Some(job),
{
}

impl JobQueue {
    /// The queue with no job in it.
    pub fn new() -> (queue: JobQueue)
        ensures
            queue@ == JobQueueView::idle(),
    {
        let queue = JobQueue { busy: false, waiting: VecDeque::new() };
        assert(queue@.waiting =~= Seq::<BenchmarkJobView>::empty());
        queue
    }

    /// Whether a job was handed out that has not finished.
    pub fn is_busy(&self) -> (busy: bool)
        ensures
            busy == self@.busy,
    {
        self.busy
    }

    /// The number of jobs that wait.
    pub fn waiting(&self) -> (n: usize)
        ensures
            n == self@.waiting.len(),
    {
        self.waiting.len()
    }

    /// Takes a job in. Returns the job to start now, if there is one; a job
    /// that is not returned waits for its turn.
    pub fn submit(&mut self, job: BenchmarkJob) -> (start: Option<BenchmarkJob>)
        ensures
            (final(self)@, optional_job(start)) == old(self)@.submit(job@),
            final(self)@.wf(),
    {
        self.waiting.push_back(job);
        assert(self@.waiting =~= old(self)@.waiting.push(job@));
        if self.busy {
            None
        } else {
            self.busy = true;
            let start = self.waiting.pop_front();
            assert(self@.waiting =~= old(self)@.waiting.push(job@).drop_first());
            start
        }
    }

    /// Takes in that the running job finished. Returns the job to start now,
    /// if one waits.
    pub fn finish(&mut self) -> (next: Option<BenchmarkJob>)
        ensures
            (final(self)@, optional_job(next)) == old(self)@.finish(),
            final(self)@.wf(),
    {
        let next = self.waiting.pop_front();
        match &next {
            Some(_) => {
                self.busy = true;
                assert(self@.waiting =~= old(self)@.waiting.drop_first());
            },
            None => {
                self.busy = false;
                assert(self@.waiting =~= old(self)@.waiting);
            },
        }
        next
    }
}

} // verus!

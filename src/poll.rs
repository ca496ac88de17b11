use vstd::prelude::*;

verus! {

/// Milliseconds between two status polls of a running job.
pub const POLL_INTERVAL_MS: u64 = 1000;

/// The status that the job API reports for a submitted statement.
#[derive(Clone, Copy, Debug, PartialEq, Eq, Structural)]
pub enum JobStatus {
    Submitted,
    Picked,
    Started,
    Finished,
    Failed,
    Aborted,
    All,
    Unknown,
}

/// What the poller does after reading one status.
#[derive(Clone, Copy, Debug, PartialEq, Eq, Structural)]
pub enum PollAction {
    /// Sleep for the poll interval, then read the status again.
    Wait,
    /// The job is done: retrieve its first result page.
    Fetch,
    /// The job ended otherwise: fail with this status.
    Fail(JobStatus),
}

/// Queued and running statuses keep the poll going.
pub open spec fn is_pending(s: JobStatus) -> bool {
    s is Submitted || s is Picked || s is Started
}

pub open spec fn spec_poll_action(s: JobStatus) -> PollAction {
    if is_pending(s) {
        PollAction::Wait
    } else if s is Finished {
        PollAction::Fetch
    } else {
        PollAction::Fail(s)
    }
}

/// The decision taken on one status read.
pub fn poll_action(s: JobStatus) -> (r: PollAction)
    ensures
        r == spec_poll_action(s),
{
    match s {
        JobStatus::Submitted | JobStatus::Picked | JobStatus::Started => PollAction::Wait,
        JobStatus::Finished => PollAction::Fetch,
        _ => PollAction::Fail(s),
    }
}

/// The outcome of a status sequence fed to the poller.
#[derive(Clone, Copy, Debug, PartialEq, Eq, Structural)]
pub enum PollOutcome {
    /// The job finished; its result may be retrieved.
    Finished,
    /// The job ended in this non-finished status.
    Failed(JobStatus),
    /// Every status read so far was pending.
    Pending,
}

/// A job-status poller: counts the status reads and the waits between them,
/// and stops at the first terminal status.
#[derive(Clone, Copy, Debug)]
pub struct Poller {
    pub reads: u64,
    pub waits: u64,
    pub outcome: PollOutcome,
}

impl Poller {
    pub open spec fn wf(self) -> bool {
        &&& self.outcome is Pending ==> self.waits == self.reads
        &&& !(self.outcome is Pending) ==> self.reads == self.waits + 1
    }

    /// A poller that has read nothing yet.
    pub fn new() -> (r: Poller)
        ensures
            r.wf(),
            r.reads == 0,
            r.waits == 0,
            r.outcome is Pending,
    {
        Poller { reads: 0, waits: 0, outcome: PollOutcome::Pending }
    }

    /// Takes one status read and says what to do next.
    pub fn step(&mut self, s: JobStatus) -> (r: PollAction)
        requires
            old(self).wf(),
            old(self).outcome is Pending,
            old(self).reads < u64::MAX,
        ensures
            final(self).wf(),
            r == spec_poll_action(s),
            final(self).reads == old(self).reads + 1,
            final(self).waits == old(self).waits + if r is Wait { 1int } else { 0int },
            final(self).outcome == match r {
                PollAction::Wait => PollOutcome::Pending,
                PollAction::Fetch => PollOutcome::Finished,
                PollAction::Fail(t) => PollOutcome::Failed(t),
            },
    {
        let r = poll_action(s);
        self.reads = self.reads + 1;
        match r {
            PollAction::Wait => {
                self.waits = self.waits + 1;
            },
            PollAction::Fetch => {
                self.outcome = PollOutcome::Finished;
            },
            PollAction::Fail(t) => {
                self.outcome = PollOutcome::Failed(t);
            },
        }
        r
    }
}

/// The outcome that the status `s` ends a poll with.
pub open spec fn terminal_outcome(s: JobStatus) -> PollOutcome {
    if s is Finished {
        PollOutcome::Finished
    } else {
        PollOutcome::Failed(s)
    }
}

/// Runs the poller over a given sequence of status reads, as a clock that
/// never really sleeps would; stops at the first terminal status.
pub fn run_statuses(statuses: &Vec<JobStatus>) -> (r: Poller)
    ensures
        r.wf(),
        r.waits <= statuses@.len(),
        forall|j: int| 0 <= j < r.waits ==> is_pending(#[trigger] statuses@[j]),
        r.waits < statuses@.len() ==> !is_pending(statuses@[r.waits as int]) && r.outcome
            == terminal_outcome(statuses@[r.waits as int]),
        r.waits == statuses@.len() ==> r.outcome is Pending,
{
    let mut p = Poller::new();
    let mut i: usize = 0;
    while i < statuses.len()
        invariant
            p.wf(),
            p.outcome is Pending,
            p.waits == i,
            i <= statuses@.len(),
            forall|j: int| 0 <= j < i ==> is_pending(#[trigger] statuses@[j]),
        decreases statuses@.len() - i,
    {
        let a = p.step(statuses[i]);
        if a != PollAction::Wait {
            return p;
        }
        i += 1;
    }
    p
}

} // verus!

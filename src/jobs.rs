//! The background job registry: jobs keyed by increasing ids, each running
//! until its worker records an outcome, then collected by a waiter or
//! dropped by a kill. The registry itself is single-threaded; callers share
//! it behind a reader/writer lock.
use vstd::prelude::*;
use crate::error::ThopError;
use crate::session::ExecuteResult;
use crate::text::{concat3, u64_to_text, decimal};

verus! {

/// Where a job stands.
#[derive(Debug, Clone, Copy, PartialEq, Eq, Structural)]
pub enum JobStatus {
    Running,
    Completed,
    Failed,
}

/// The wire name of each status.
pub open spec fn status_text(s: JobStatus) -> Seq<char> {
    match s {
        JobStatus::Running => "running"@,
        JobStatus::Completed => "completed"@,
        JobStatus::Failed => "failed"@,
    }
}

impl JobStatus {
    pub fn as_str(&self) -> (r: &'static str)
        ensures
            r@ == status_text(*self),
    {
        match self {
            JobStatus::Running => "running",
            JobStatus::Completed => "completed",
            JobStatus::Failed => "failed",
        }
    }
}

/// A command run in the background. Times are milliseconds on a clock the
/// caller chooses.
#[derive(Debug)]
pub struct BackgroundJob {
    pub id: usize,
    pub command: String,
    pub session: String,
    pub start_time: u64,
    pub end_time: Option<u64>,
    pub status: JobStatus,
    pub exit_code: i32,
    pub stdout: String,
    pub stderr: String,
}

impl BackgroundJob {
    /// A job that has just started.
    pub fn new(id: usize, command: String, session: String, start_time: u64) -> (r: Self)
        ensures
            r.id == id,
            r.command == command,
            r.session == session,
            r.start_time == start_time,
            r.end_time is None,
            r.status == JobStatus::Running,
            r.exit_code == 0,
            r.stdout@.len() == 0,
            r.stderr@.len() == 0,
    {
        BackgroundJob {
            id,
            command,
            session,
            start_time,
            end_time: None,
            status: JobStatus::Running,
            exit_code: 0,
            stdout: String::new(),
            stderr: String::new(),
        }
    }

    /// A copy of this job.
    pub fn duplicate(&self) -> (r: Self)
        ensures
            r == *self,
    {
        BackgroundJob {
            id: self.id,
            command: self.command.clone(),
            session: self.session.clone(),
            start_time: self.start_time,
            end_time: self.end_time,
            status: self.status,
            exit_code: self.exit_code,
            stdout: self.stdout.clone(),
            stderr: self.stderr.clone(),
        }
    }
}

/// Why a registry operation failed.
#[derive(Debug, Clone, Copy, PartialEq, Eq, Structural)]
pub enum JobError {
    /// No job has that id.
    NotFound(usize),
    /// The job has already finished, with the given status.
    NotRunning(usize, JobStatus),
    /// The job was seen earlier but left the registry while being waited for.
    Vanished(usize),
}

/// The exit code recorded for a killed job, as for `SIGKILL`.
pub const KILLED_EXIT_CODE: i32 = 137;

/// The text of each failure.
pub open spec fn job_error_text(e: JobError) -> Seq<char> {
    match e {
        JobError::NotFound(id) => "Job "@ + decimal(id as nat) + " not found"@,
        JobError::NotRunning(id, s) => "Job "@ + decimal(id as nat) + " is not running (status: "@
            + status_text(s) + ")"@,
        JobError::Vanished(id) => "Job "@ + decimal(id as nat) + " disappeared while waiting"@,
    }
}

impl JobError {
    /// The human-readable text of this failure.
    pub fn to_string(&self) -> (r: String)
        ensures
            r@ == job_error_text(*self),
    {
        match self {
            JobError::NotFound(id) => {
                let n = u64_to_text(*id as u64);
                concat3("Job ", n.as_str(), " not found")
            },
            JobError::NotRunning(id, s) => {
                let n = u64_to_text(*id as u64);
                let mut t = concat3("Job ", n.as_str(), " is not running (status: ");
                t.append(s.as_str());
                t.append(")");
                t
            },
            JobError::Vanished(id) => {
                let n = u64_to_text(*id as u64);
                concat3("Job ", n.as_str(), " disappeared while waiting")
            },
        }
    }
}

/// The ids of a sequence of jobs.
pub open spec fn job_ids(jobs: Seq<BackgroundJob>) -> Seq<usize> {
    jobs.map_values(|j: BackgroundJob| j.id)
}

/// The registry of background jobs.
pub struct JobRegistry {
    jobs: Vec<BackgroundJob>,
    next_id: usize,
}

/// `after` is `before` with job `id` added at the end, running, not ended,
/// with exit code 0 and no output yet, and the next id advanced past it.
pub open spec fn submitted(before: JobRegistry, after: JobRegistry, id: usize) -> bool {
    &&& id == before.next()
    &&& after.next() == id + 1
    &&& after.jobs() == before.jobs().push(after.jobs().last())
    &&& after.jobs().last().id == id
    &&& after.jobs().last().status == JobStatus::Running
    &&& after.jobs().last().end_time is None
    &&& after.jobs().last().exit_code == 0
    &&& after.jobs().last().stdout@.len() == 0
    &&& after.jobs().last().stderr@.len() == 0
}

impl JobRegistry {
    /// The jobs, oldest first.
    pub closed spec fn jobs(&self) -> Seq<BackgroundJob> {
        self.jobs@
    }

    /// The id the next submission gets.
    pub closed spec fn next(&self) -> nat {
        self.next_id as nat
    }

    /// Whether a job with `id` is in the registry.
    pub open spec fn has(&self, id: usize) -> bool {
        job_ids(self.jobs()).contains(id)
    }

    /// Ids are distinct, positive and below the next id.
    pub open spec fn wf(&self) -> bool {
        &&& job_ids(self.jobs()).no_duplicates()
        &&& self.next() >= 1
        &&& forall|i: int| 0 <= i < self.jobs().len() ==> 1 <= (#[trigger] self.jobs()[i]).id < self.next()
    }

    /// An empty registry whose first id is 1.
    pub fn new() -> (r: Self)
        ensures
            r.wf(),
            r.jobs().len() == 0,
            r.next() == 1,
    {
        let r = JobRegistry { jobs: Vec::new(), next_id: 1 };
        assert(job_ids(r.jobs()) =~= Seq::<usize>::empty());
        r
    }

    /// Whether another job can be given an id.
    pub fn can_submit(&self) -> (r: bool)
        ensures
            r == (self.next() < usize::MAX),
    {
        self.next_id < usize::MAX
    }

    /// Adds a running job and returns its id, one more than the previous one.
    pub fn submit(&mut self, command: String, session: String, start_time: u64) -> (r: usize)
        requires
            old(self).wf(),
            old(self).next() < usize::MAX,
        ensures
            final(self).wf(),
            submitted(*old(self), *final(self), r),
            final(self).jobs().last().command == command,
            final(self).jobs().last().session == session,
            final(self).jobs().last().start_time == start_time,
    {
        let id = self.next_id;
        let ghost before = self.jobs@;
        self.jobs.push(BackgroundJob::new(id, command, session, start_time));
        self.next_id = id + 1;
        proof {
            let ids = job_ids(self.jobs@);
            let old_ids = job_ids(before);
            assert(ids =~= old_ids.push(id));
            assert forall|a: int, b: int| 0 <= a < ids.len() && 0 <= b < ids.len() && a != b implies ids[a] != ids[b] by {
                if a == old_ids.len() {
                    assert(before[b].id < id);
                } else if b == old_ids.len() {
                    assert(before[a].id < id);
                } else {
                    assert(ids[a] == old_ids[a] && ids[b] == old_ids[b]);
                }
            }
            assert forall|i: int| 0 <= i < self.jobs@.len() implies 1 <= (#[trigger] self.jobs@[i]).id < self.next() by {
                if i < before.len() {
                    assert(self.jobs@[i] == before[i]);
                }
            }
        }
        id
    }

    /// The position of job `id`, if present.
    fn find(&self, id: usize) -> (r: Option<usize>)
        ensures
            match r {
                Some(i) => i < self.jobs().len() && self.jobs()[i as int].id == id && self.has(id),
                None => !self.has(id),
            },
    {
        let mut i: usize = 0;
        while i < self.jobs.len()
            invariant
                i <= self.jobs@.len(),
                forall|j: int| 0 <= j < i ==> self.jobs@[j].id != id,
            decreases self.jobs@.len() - i,
        {
            if self.jobs[i].id == id {
                assert(job_ids(self.jobs@)[i as int] == id);
                return Some(i);
            }
            i = i + 1;
        }
        assert forall|j: int| 0 <= j < job_ids(self.jobs@).len() implies job_ids(self.jobs@)[j] != id by {
            assert(job_ids(self.jobs@)[j] == self.jobs@[j].id);
        }
        None
    }

    /// Job `id`, if present.
    pub fn get(&self, id: usize) -> (r: Option<&BackgroundJob>)
        ensures
            r is Some <==> self.has(id),
            r matches Some(j) ==> j.id == id && self.jobs().contains(*j),
    {
        match self.find(id) {
            Some(i) => {
                assert(job_ids(self.jobs@)[i as int] == id);
                Some(&self.jobs[i])
            },
            None => None,
        }
    }

    /// A snapshot of every job, oldest first.
    pub fn list(&self) -> (r: Vec<BackgroundJob>)
        ensures
            r@ == self.jobs(),
    {
        let mut r: Vec<BackgroundJob> = Vec::new();
        let mut i: usize = 0;
        while i < self.jobs.len()
            invariant
                i <= self.jobs@.len(),
                r@ == self.jobs@.subrange(0, i as int),
            decreases self.jobs@.len() - i,
        {
            r.push(self.jobs[i].duplicate());
            assert(r@ =~= self.jobs@.subrange(0, i + 1));
            i = i + 1;
        }
        assert(self.jobs@.subrange(0, i as int) =~= self.jobs@);
        r
    }

    /// Removes the job at position `i` and returns it.
    fn take_at(&mut self, i: usize) -> (r: BackgroundJob)
        requires
            old(self).wf(),
            i < old(self).jobs().len(),
        ensures
            final(self).wf(),
            r == old(self).jobs()[i as int],
            final(self).jobs() == old(self).jobs().remove(i as int),
            final(self).next() == old(self).next(),
            !final(self).has(r.id),
    {
        let ghost before = self.jobs@;
        let job = self.jobs.remove(i);
        proof {
            let ids = job_ids(self.jobs@);
            let old_ids = job_ids(before);
            assert(ids =~= old_ids.remove(i as int));
            assert forall|a: int, b: int| 0 <= a < ids.len() && 0 <= b < ids.len() && a != b implies ids[a] != ids[b] by {
                let a2 = if a < i { a } else { a + 1 };
                let b2 = if b < i { b } else { b + 1 };
                assert(ids[a] == old_ids[a2] && ids[b] == old_ids[b2]);
            }
            assert forall|k: int| 0 <= k < ids.len() implies ids[k] != job.id by {
                let k2 = if k < i { k } else { k + 1 };
                assert(ids[k] == old_ids[k2]);
                assert(old_ids[i as int] == job.id);
            }
            assert forall|k: int| 0 <= k < self.jobs@.len() implies 1 <= (#[trigger] self.jobs@[k]).id < self.next() by {
                let k2 = if k < i { k } else { k + 1 };
                assert(self.jobs@[k] == before[k2]);
            }
        }
        job
    }

    /// Records the outcome of job `id` as its worker reports it: completed
    /// with the command's output, or failed with the error's text and exit
    /// code 1. A job no longer present (killed meanwhile) is left alone.
    pub fn complete(&mut self, id: usize, result: Result<ExecuteResult, ThopError>, end_time: u64)
        requires
            old(self).wf(),
        ensures
            final(self).wf(),
            final(self).next() == old(self).next(),
            job_ids(final(self).jobs()) == job_ids(old(self).jobs()),
            forall|i: int| 0 <= i < old(self).jobs().len() && old(self).jobs()[i].id != id
                ==> #[trigger] final(self).jobs()[i] == old(self).jobs()[i],
            forall|i: int| 0 <= i < old(self).jobs().len() && old(self).jobs()[i].id == id
                ==> finished_as(#[trigger] final(self).jobs()[i], old(self).jobs()[i], result, end_time),
    {
        match self.find(id) {
            None => {
                assert forall|k: int| 0 <= k < self.jobs@.len() implies self.jobs@[k].id != id by {
                    assert(job_ids(self.jobs@)[k] == self.jobs@[k].id);
                }
            },
            Some(i) => {
                let ghost before = self.jobs@;
                let ghost before_job = before[i as int];
                let mut job = self.take_at(i);
                job.end_time = Some(end_time);
                match result {
                    Ok(r) => {
                        job.status = JobStatus::Completed;
                        job.stdout = r.stdout;
                        job.stderr = r.stderr;
                        job.exit_code = r.exit_code;
                    },
                    Err(e) => {
                        job.status = JobStatus::Failed;
                        job.stderr = e.to_string();
                        job.exit_code = 1;
                    },
                }
                assert(finished_as(job, before_job, result, end_time));
                self.jobs.insert(i, job);
                proof {
                    assert(self.jobs@ =~= before.update(i as int, job));
                    assert(job_ids(self.jobs@) =~= job_ids(before));
                    assert forall|k: int| 0 <= k < before.len() && before[k].id == id implies k == i by {
                        assert(job_ids(before)[k] == job_ids(before)[i as int]);
                    }
                    assert forall|k: int| 0 <= k < self.jobs@.len() implies 1 <= (#[trigger] self.jobs@[k]).id < self.next() by {
                        assert(self.jobs@[k].id == job_ids(self.jobs@)[k]);
                        assert(before[k].id == job_ids(before)[k]);
                    }
                }
            },
        }
    }

    /// One step of waiting for job `id`: the finished job, removed from the
    /// registry; `None` while it runs. A job never seen is `NotFound`; one
    /// seen on an earlier step (`seen`) but now absent is `Vanished`.
    pub fn poll(&mut self, id: usize, seen: bool) -> (r: Result<Option<BackgroundJob>, JobError>)
        requires
            old(self).wf(),
        ensures
            final(self).wf(),
            final(self).next() == old(self).next(),
            !old(self).has(id) ==> final(self).jobs() == old(self).jobs() && r == (if seen {
                Err::<Option<BackgroundJob>, JobError>(JobError::Vanished(id))
            } else {
                Err(JobError::NotFound(id))
            }),
            old(self).has(id) ==> exists|i: int|
                0 <= i < old(self).jobs().len() && #[trigger] old(self).jobs()[i].id == id && if old(
                    self,
                ).jobs()[i].status == JobStatus::Running {
                    r == Ok::<Option<BackgroundJob>, JobError>(None) && final(self).jobs() == old(
                        self,
                    ).jobs()
                } else {
                    r == Ok::<Option<BackgroundJob>, JobError>(Some(old(self).jobs()[i]))
                        && final(self).jobs() == old(self).jobs().remove(i)
                },
            r matches Ok(Some(_)) ==> !final(self).has(id),
    {
        match self.find(id) {
            None => if seen {
                Err(JobError::Vanished(id))
            } else {
                Err(JobError::NotFound(id))
            },
            Some(i) => {
                if self.jobs[i].status == JobStatus::Running {
                    Ok(None)
                } else {
                    let job = self.take_at(i);
                    Ok(Some(job))
                }
            },
        }
    }

    /// Kills job `id`: only a running job can be killed. It is marked failed
    /// with exit code 137, removed, and returned. The command itself is not
    /// interrupted. A finished job is left as it is.
    pub fn kill(&mut self, id: usize, end_time: u64) -> (r: Result<BackgroundJob, JobError>)
        requires
            old(self).wf(),
        ensures
            final(self).wf(),
            final(self).next() == old(self).next(),
            !old(self).has(id) ==> r == Err::<BackgroundJob, JobError>(JobError::NotFound(id))
                && final(self).jobs() == old(self).jobs(),
            old(self).has(id) ==> exists|i: int|
                0 <= i < old(self).jobs().len() && #[trigger] old(self).jobs()[i].id == id && if old(
                    self,
                ).jobs()[i].status == JobStatus::Running {
                    r matches Ok(job) && killed_as(job, old(self).jobs()[i], end_time)
                        && final(self).jobs() == old(self).jobs().remove(i)
                } else {
                    r == Err::<BackgroundJob, JobError>(
                        JobError::NotRunning(id, old(self).jobs()[i].status),
                    ) && final(self).jobs() == old(self).jobs()
                },
    {
        match self.find(id) {
            None => Err(JobError::NotFound(id)),
            Some(i) => {
                if self.jobs[i].status != JobStatus::Running {
                    return Err(JobError::NotRunning(id, self.jobs[i].status));
                }
                let mut job = self.take_at(i);
                job.status = JobStatus::Failed;
                job.end_time = Some(end_time);
                job.stderr = String::from_str("killed by user");
                job.exit_code = KILLED_EXIT_CODE;
                Ok(job)
            },
        }
    }
}

/// Each submission gets a larger id than the one before it, and the new job
/// is in the registry, running.
pub proof fn lemma_submit_ids_increase(
    r0: JobRegistry,
    r1: JobRegistry,
    r2: JobRegistry,
    a: usize,
    b: usize,
)
    requires
        submitted(r0, r1, a),
        submitted(r1, r2, b),
    ensures
        a < b,
        r1.has(a),
        r2.has(b),
        r2.jobs().last().status == JobStatus::Running,
{
    assert(job_ids(r1.jobs())[r1.jobs().len() - 1] == a);
    assert(job_ids(r2.jobs())[r2.jobs().len() - 1] == b);
}

/// `after` is `before` finished with `result` at `end_time`.
pub open spec fn finished_as(
    after: BackgroundJob,
    before: BackgroundJob,
    result: Result<ExecuteResult, ThopError>,
    end_time: u64,
) -> bool {
    &&& after.id == before.id
    &&& after.command == before.command
    &&& after.session == before.session
    &&& after.start_time == before.start_time
    &&& after.end_time == Some(end_time)
    &&& match result {
        Ok(r) => after.status == JobStatus::Completed && after.stdout == r.stdout && after.stderr
            == r.stderr && after.exit_code == r.exit_code,
        Err(e) => after.status == JobStatus::Failed && after.stdout == before.stdout
            && after.stderr@ == crate::error::thop_error_text(e) && after.exit_code == 1,
    }
}

/// `after` is `before` killed at `end_time`.
pub open spec fn killed_as(after: BackgroundJob, before: BackgroundJob, end_time: u64) -> bool {
    &&& after.id == before.id
    &&& after.command == before.command
    &&& after.session == before.session
    &&& after.start_time == before.start_time
    &&& after.stdout == before.stdout
    &&& after.end_time == Some(end_time)
    &&& after.status == JobStatus::Failed
    &&& after.stderr@ == "killed by user"@
    &&& after.exit_code == 137
}

} // verus!

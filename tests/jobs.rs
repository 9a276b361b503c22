use thop::error::ThopError;
use thop::jobs::{BackgroundJob, JobError, JobRegistry, JobStatus};
use thop::session::ExecuteResult;

#[test]
fn submitted_ids_increase_from_one_and_start_running() {
    let mut reg = JobRegistry::new();
    let a = reg.submit("echo x".to_string(), "local".to_string(), 10);
    let b = reg.submit("echo x".to_string(), "local".to_string(), 11);
    assert_eq!(a, 1);
    assert_eq!(b, 2);
    assert_eq!(reg.get(a).unwrap().status, JobStatus::Running);
    assert_eq!(reg.get(b).unwrap().status, JobStatus::Running);
}

#[test]
fn waiting_collects_a_finished_job_and_removes_it() {
    let mut reg = JobRegistry::new();
    let id = reg.submit("echo x".to_string(), "local".to_string(), 0);
    assert!(matches!(reg.poll(id, false), Ok(None)));
    reg.complete(id, Ok(ExecuteResult { stdout: "x\n".to_string(), stderr: String::new(), exit_code: 0 }), 5);
    let job = reg.poll(id, true).unwrap().unwrap();
    assert_eq!(job.status, JobStatus::Completed);
    assert_eq!(job.stdout, "x\n");
    assert_eq!(job.end_time, Some(5));
    assert!(reg.list().iter().all(|j| j.id != id));
    assert_eq!(reg.poll(id, true).err(), Some(JobError::Vanished(id)));
    assert_eq!(reg.poll(99, false).err(), Some(JobError::NotFound(99)));
}

#[test]
fn failed_job_records_the_error() {
    let mut reg = JobRegistry::new();
    let id = reg.submit("x".to_string(), "prod".to_string(), 0);
    reg.complete(id, Err(ThopError::Other("boom".to_string())), 1);
    let job = reg.get(id).unwrap();
    assert_eq!(job.status, JobStatus::Failed);
    assert_eq!(job.stderr, "boom");
    assert_eq!(job.exit_code, 1);
}

#[test]
fn kill_only_running_jobs() {
    let mut reg = JobRegistry::new();
    let id = reg.submit("sleep 10".to_string(), "local".to_string(), 0);
    let killed = reg.kill(id, 3).unwrap();
    assert_eq!(killed.status, JobStatus::Failed);
    assert_eq!(killed.exit_code, 137);
    assert_eq!(killed.stderr, "killed by user");
    assert!(reg.get(id).is_none());
    assert_eq!(reg.kill(id, 4).err(), Some(JobError::NotFound(id)));

    let done = reg.submit("true".to_string(), "local".to_string(), 0);
    reg.complete(done, Ok(ExecuteResult::default()), 1);
    let err = reg.kill(done, 2).err().unwrap();
    assert_eq!(err, JobError::NotRunning(done, JobStatus::Completed));
    assert_eq!(err.to_string(), "Job 2 is not running (status: completed)");
    let job = reg.get(done).unwrap();
    assert_eq!(job.status, JobStatus::Completed);
    assert_eq!(job.end_time, Some(1));
}

#[test]
fn completing_a_killed_job_changes_nothing() {
    let mut reg = JobRegistry::new();
    let id = reg.submit("x".to_string(), "local".to_string(), 0);
    reg.kill(id, 1).unwrap();
    reg.complete(id, Ok(ExecuteResult::default()), 2);
    assert!(reg.list().is_empty());
}

#[test]
fn new_job_starts_empty() {
    let job = BackgroundJob::new(7, "ls".to_string(), "local".to_string(), 42);
    assert_eq!(job.id, 7);
    assert_eq!(job.status, JobStatus::Running);
    assert_eq!(job.status.as_str(), "running");
    assert_eq!(job.start_time, 42);
    assert!(job.end_time.is_none());
    assert_eq!(JobError::NotFound(7).to_string(), "Job 7 not found");
}

//! ESP32 stub of the job queue.
use vstd::prelude::*;
use crate::hal::{ErrorInfo, JobCreated, JobStatus};
use crate::server::syntax::push_all;
use crate::text::{chars_of, string_of};

verus! {

/// Stub job queue for ESP32.
pub struct Esp32Dispense;

/// The message of the stub's "job not found" error.
pub open spec fn stub_not_found_message(job_id: Seq<char>) -> Seq<char> {
    "Job '"@ + job_id + "' not found (stub)"@
}

impl Esp32Dispense {
    pub fn new() -> (r: Self)
        ensures
            r == Esp32Dispense,
    {
        Esp32Dispense
    }

    /// Accepts a job as the next one to dispense.
    pub fn create_job(&mut self, job_id: String, name: String) -> (r: Result<JobCreated, ErrorInfo>)
        ensures
            r matches Ok(c) && c.job_id == job_id && c.queue_position == 1,
    {
        Ok(JobCreated { job_id, queue_position: 1 })
    }

    /// The stub keeps no jobs.
    pub fn list_jobs(&self) -> (r: Vec<JobStatus>)
        ensures
            r@.len() == 0,
    {
        Vec::new()
    }

    /// The stub knows no job: always `NOT_FOUND`.
    pub fn job_status(&self, job_id: &str) -> (r: Result<JobStatus, ErrorInfo>)
        ensures
            r matches Err(e) && e.code@ == "NOT_FOUND"@ && e.message@ == stub_not_found_message(
                job_id@,
            ) && e.hint is None && e.recoverable,
    {
        let mut msg: Vec<char> = Vec::new();
        push_all(&mut msg, chars_of("Job '").as_slice());
        push_all(&mut msg, chars_of(job_id).as_slice());
        push_all(&mut msg, chars_of("' not found (stub)").as_slice());
        Err(
            ErrorInfo {
                code: "NOT_FOUND".to_owned(),
                message: string_of(msg.as_slice()),
                hint: None,
                recoverable: true,
            },
        )
    }

    /// Cancels a job; the stub always succeeds.
    pub fn cancel_job(&mut self, job_id: &str) -> (r: Result<(), ErrorInfo>)
        ensures
            r is Ok,
    {
        Ok(())
    }
}

} // verus!

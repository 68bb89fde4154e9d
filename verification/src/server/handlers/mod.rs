//! What each endpoint answers, decided from the robot's state and from what
//! the HAL reported.  Turning a [`Reply`] into JSON and writing it to the
//! socket is left to the caller.
use vstd::prelude::*;
use crate::hal::{ErrorInfo, JobCreated};

pub mod cleaning;
pub mod config;
pub mod control;
pub mod dispense;

verus! {

/// The outcome of a request that is not a plain `200` data response.
#[derive(Debug)]
pub enum Reply {
    /// `202 {"status":"accepted"}`
    Accepted,
    /// `201 {"job_id":…, "queue_position":…}`
    Created(JobCreated),
    /// `400 {"error":"invalid request body"}`
    InvalidBody,
    /// `401 {"error":"Unauthorized"}`
    Unauthorized,
    /// `404 {"error":"not found"}`
    NotFound,
    /// `405 {"error":"method not allowed"}`
    MethodNotAllowed,
    /// `409`: cleaning can only start from `Idle` or `Provisioning`.
    CleaningConflict,
    /// `422`: the checksum of a restored backup does not match its data.
    ChecksumMismatch { expected: String, received: String },
    /// `500 {"error":{"code","message","hint","recoverable"}}`
    HalError(ErrorInfo),
    /// `503 {"error":"queue full"}`
    QueueFull,
    /// `503`: only admin routes, status and config are open while provisioning.
    Provisioning,
}

pub open spec fn spec_reply_status(r: Reply) -> u16 {
    match r {
        Reply::Accepted => 202,
        Reply::Created(_) => 201,
        Reply::InvalidBody => 400,
        Reply::Unauthorized => 401,
        Reply::NotFound => 404,
        Reply::MethodNotAllowed => 405,
        Reply::CleaningConflict => 409,
        Reply::ChecksumMismatch { .. } => 422,
        Reply::HalError(_) => 500,
        Reply::QueueFull => 503,
        Reply::Provisioning => 503,
    }
}

impl Reply {
    /// The HTTP status code of this reply.
    pub fn status_code(&self) -> (r: u16)
        ensures
            r == spec_reply_status(*self),
    {
        match self {
            Reply::Accepted => 202,
            Reply::Created(_) => 201,
            Reply::InvalidBody => 400,
            Reply::Unauthorized => 401,
            Reply::NotFound => 404,
            Reply::MethodNotAllowed => 405,
            Reply::CleaningConflict => 409,
            Reply::ChecksumMismatch { .. } => 422,
            Reply::HalError(_) => 500,
            Reply::QueueFull => 503,
            Reply::Provisioning => 503,
        }
    }
}

/// The reply to a command whose HAL call returns nothing on success:
/// `202 Accepted`, or `500` carrying the HAL's error.
pub fn command_reply(result: Result<(), ErrorInfo>) -> (r: Reply)
    ensures
        result is Ok ==> r is Accepted,
        result matches Err(e) ==> r == Reply::HalError(e),
{
    match result {
        Ok(()) => Reply::Accepted,
        Err(e) => Reply::HalError(e),
    }
}

} // verus!

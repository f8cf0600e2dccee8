//! Messages exchanged with the build workers on the other side of the broker.
//! Identifiers are 128-bit numbers.

use vstd::prelude::*;

verus! {

/// What a job asks of this service.
#[derive(PartialEq, Clone, Debug)]
pub enum JobRequestType {
    Help(String),
}

/// One step that was taken to resolve a help request.
#[derive(PartialEq, Clone, Debug)]
pub struct ActionTaken {
    pub action: String,
    pub files_changed: Vec<String>,
}

/// The answer to a job's request.
#[derive(PartialEq, Clone, Debug)]
pub enum JobResponseType {
    Help { actions_taken: Vec<ActionTaken>, result: String },
    Failed,
}

/// The users a job belongs to.
#[derive(Clone, Copy, Debug, PartialEq)]
pub struct JobOwners {
    pub created_id: u128,
    pub assignee_id: u128,
}

/// A request that a running job sends; the answer goes to `response_beam`.
#[derive(PartialEq, Clone, Debug)]
pub struct JobRequest {
    pub request: JobRequestType,
    pub response_beam: String,
    pub job_id: u128,
    pub user_id: u128,
    pub requested_by_id: u128,
}

/// The answer to the request of job `job_id`.
#[derive(PartialEq, Clone, Debug)]
pub struct JobResponse {
    pub job_id: u128,
    pub response: JobResponseType,
}

impl JobResponse {
    /// The answer that tells job `job_id` that its request came to nothing.
    pub fn failed(job_id: u128) -> (response: JobResponse)
        ensures
            response.job_id == job_id,
            response.response == JobResponseType::Failed,
    {
        JobResponse { job_id, response: JobResponseType::Failed }
    }
}

/// A job as the build service announces it.
#[derive(PartialEq, Clone, Debug)]
pub struct DenormalizedJob {
    pub id: u128,
    pub project_id: u128,
    pub name: String,
    pub job_owners: JobOwners,
    pub task_id: Option<u128>,
}

} // verus!

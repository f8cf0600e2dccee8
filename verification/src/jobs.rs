//! The registry of help requests that wait for an answer.

use std::collections::HashMap;
use vstd::prelude::*;

use crate::correlation::{register, resolve, target};
use crate::interop::JobRequest;

verus! {

broadcast use vstd::std_specs::hash::group_hash_axioms;

/// Remembers, for each job that asked for help, the topic on which that job
/// waits for the answer.
pub struct JobRequestCollection {
    inner: HashMap<u128, String>,
}

impl View for JobRequestCollection {
    type V = Map<u128, Seq<char>>;

    /// The reply topic of each pending job.
    closed spec fn view(&self) -> Map<u128, Seq<char>> {
        self.inner@.map_values(|beam: String| beam@)
    }
}

impl JobRequestCollection {
    /// A registry with no pending request.
    pub fn new() -> (requests: Self)
        ensures
            requests@ == Map::<u128, Seq<char>>::empty(),
    {
        let requests = JobRequestCollection { inner: HashMap::new() };
        assert(requests@ =~= Map::<u128, Seq<char>>::empty());
        requests
    }

    /// Records where the answer to `request` goes, in place of any earlier
    /// record for the same job, and hands the request back to be forwarded
    /// to the handler of job requests.
    pub fn insert(&mut self, request: JobRequest) -> (forward: JobRequest)
        ensures
            final(self)@ == register(old(self)@, request.job_id, request.response_beam@),
            forward == request,
    {
        let beam = request.response_beam.clone();
        self.inner.insert(request.job_id, beam);
        assert(self@ =~= old(self)@.insert(request.job_id, request.response_beam@));
        request
    }

    /// Resolves the request of `job_id`: returns its reply topic and forgets
    /// it, or returns `None` where no request of that job is pending.
    pub fn remove(&mut self, job_id: u128) -> (beam: Option<String>)
        ensures
            final(self)@ == resolve(old(self)@, job_id),
            match beam {
                Some(b) => target(old(self)@, job_id) == Some(b@),
                None => target(old(self)@, job_id) is None,
            },
    {
        let beam = self.inner.remove(&job_id);
        assert(self@ =~= old(self)@.remove(job_id));
        beam
    }

    /// Whether a request of `job_id` is pending.
    pub fn contains(&self, job_id: u128) -> (pending: bool)
        ensures
            pending == self@.contains_key(job_id),
    {
        self.inner.contains_key(&job_id)
    }

    /// The number of pending requests.
    pub fn len(&self) -> (n: usize)
        ensures
            n == self@.len(),
    {
        assert(self@.dom() =~= self.inner@.dom());
        self.inner.len()
    }
}

} // verus!

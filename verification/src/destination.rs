use vstd::prelude::*;

verus! {

/// The directory that holds the templates of the jobs that a Bacalhau section
/// submits.
#[derive(Debug)]
pub struct JobStore {
    pub path: String,
}

/// The Bacalhau destination section: it submits `job`, a template kept in
/// `jobstore`, for each string it receives.
#[derive(Debug)]
pub struct Bacalhau {
    pub job: String,
    pub jobstore: JobStore,
}

impl Bacalhau {
    pub fn new(job: String, jobstore: String) -> (section: Self)
        ensures
            section.job@ == job@,
            section.jobstore.path@ == jobstore@,
    {
        Self { job, jobstore: JobStore { path: jobstore } }
    }
}

} // verus!

use vstd::prelude::*;
use vstd::string::StringExecFns;
use crate::config_map::{ConfigMap, ConfigValueView};
use crate::destination::Bacalhau;

verus! {

/// Why a Bacalhau section could not be built from its configuration.
#[derive(Debug)]
pub enum CtorError {
    MissingJob,
    JobNotString,
    MissingJobstore,
    JobstoreNotString,
    /// The job store directory does not exist.
    JobstoreNotFound(String),
}

/// The mathematical value of a [`CtorError`].
pub enum CtorErrorView {
    MissingJob,
    JobNotString,
    MissingJobstore,
    JobstoreNotString,
    JobstoreNotFound(Seq<char>),
}

impl View for CtorError {
    type V = CtorErrorView;

    open spec fn view(&self) -> CtorErrorView {
        match self {
            CtorError::MissingJob => CtorErrorView::MissingJob,
            CtorError::JobNotString => CtorErrorView::JobNotString,
            CtorError::MissingJobstore => CtorErrorView::MissingJobstore,
            CtorError::JobstoreNotString => CtorErrorView::JobstoreNotString,
            CtorError::JobstoreNotFound(p) => CtorErrorView::JobstoreNotFound(p@),
        }
    }
}

/// The text of each error.
pub open spec fn ctor_error_message(e: CtorErrorView) -> Seq<char> {
    match e {
        CtorErrorView::MissingJob => "bacalhau section requires 'job'"@,
        CtorErrorView::JobNotString => "'job' should be a string"@,
        CtorErrorView::MissingJobstore => "bacalhau section requires 'jobstore'"@,
        CtorErrorView::JobstoreNotString => "'jobstore' should be a string"@,
        CtorErrorView::JobstoreNotFound(p) => "'jobstore' path '"@ + p + "' does not exist"@,
    }
}

impl CtorError {
    /// The error as the text that the section runtime reports.
    pub fn message(&self) -> (text: String)
        ensures
            text@ == ctor_error_message(self@),
    {
        match self {
            CtorError::MissingJob => String::from_str("bacalhau section requires 'job'"),
            CtorError::JobNotString => String::from_str("'job' should be a string"),
            CtorError::MissingJobstore => String::from_str("bacalhau section requires 'jobstore'"),
            CtorError::JobstoreNotString => String::from_str("'jobstore' should be a string"),
            CtorError::JobstoreNotFound(p) => {
                let mut text = String::from_str("'jobstore' path '");
                text.append(p.as_str());
                text.append("' does not exist");
                text
            },
        }
    }
}

/// What the configuration of a Bacalhau section names, before the job store
/// is looked for on disk: the job and the job store path, or the first
/// problem found, the job being checked before the job store and presence
/// before type.
pub open spec fn ctor_settings(config: Map<Seq<char>, ConfigValueView>) -> Result<(Seq<char>, Seq<char>), CtorErrorView> {
    if !config.contains_key("job"@) {
        Err(CtorErrorView::MissingJob)
    } else if !(config["job"@] is Str) {
        Err(CtorErrorView::JobNotString)
    } else if !config.contains_key("jobstore"@) {
        Err(CtorErrorView::MissingJobstore)
    } else if !(config["jobstore"@] is Str) {
        Err(CtorErrorView::JobstoreNotString)
    } else {
        Ok((config["job"@]->Str_0, config["jobstore"@]->Str_0))
    }
}

/// Whether a file or directory exists at `path`. The answer depends on the
/// file system at the time of the call, so nothing is stated of it.
#[verifier::external_body]
fn path_exists(path: &str) -> (exists: bool) {
    std::path::Path::new(path).exists()
}

/// A call of the file system's existence check on `path` answered `answer`.
pub closed spec fn existence_check_answered(path: Seq<char>, answer: bool) -> bool {
    exists|p: &str| p@ == path && #[trigger] call_ensures(path_exists, (p,), answer)
}

/// Builds the section from the job and the job store path, given whether the
/// job store exists.
pub fn bacalhau_from_parts(job: &str, jobstore: &str, jobstore_exists: bool) -> (res: Result<Bacalhau, CtorError>)
    ensures
        jobstore_exists ==> (res matches Ok(b) && b.job@ == job@ && b.jobstore.path@ == jobstore@),
        !jobstore_exists ==> (res matches Err(e) && e@ == CtorErrorView::JobstoreNotFound(jobstore@)),
{
    if !jobstore_exists {
        return Err(CtorError::JobstoreNotFound(jobstore.to_owned()));
    }
    Ok(Bacalhau::new(job.to_owned(), jobstore.to_owned()))
}

/// Reads the job and the job store path from the configuration of a
/// Bacalhau section, or reports the first problem, as `ctor_settings` says.
pub fn bacalhau_settings(config: &ConfigMap) -> (res: Result<(String, String), CtorError>)
    ensures
        match ctor_settings(config@) {
            Err(e) => res matches Err(r) && r@ == e,
            Ok((job, jobstore)) => res matches Ok((j, s)) && j@ == job && s@ == jobstore,
        },
{
    let job = match config.get("job") {
        None => return Err(CtorError::MissingJob),
        Some(v) => match v.as_str() {
            None => return Err(CtorError::JobNotString),
            Some(s) => s,
        },
    };
    let jobstore = match config.get("jobstore") {
        None => return Err(CtorError::MissingJobstore),
        Some(v) => match v.as_str() {
            None => return Err(CtorError::JobstoreNotString),
            Some(s) => s,
        },
    };
    Ok((job.to_owned(), jobstore.to_owned()))
}

/// Builds a Bacalhau destination section from its configuration: the `job`
/// to submit and the `jobstore` directory that holds it, which must exist.
///
/// Whether the directory exists is asked of the file system once, about the
/// job store path itself: the section is built exactly when that check
/// answered yes, and the error names the path when it answered no.
pub fn destination_ctor(config: &ConfigMap) -> (res: Result<Bacalhau, CtorError>)
    ensures
        match ctor_settings(config@) {
            Err(e) => res matches Err(r) && r@ == e,
            Ok((job, jobstore)) => match res {
                Ok(b) => {
                    &&& b.job@ == job
                    &&& b.jobstore.path@ == jobstore
                    &&& existence_check_answered(jobstore, true)
                },
                Err(r) => {
                    &&& r@ == CtorErrorView::JobstoreNotFound(jobstore)
                    &&& existence_check_answered(jobstore, false)
                },
            },
        },
{
    let (job, jobstore) = match bacalhau_settings(config) {
        Err(e) => return Err(e),
        Ok(settings) => settings,
    };
    let check = path_exists;
    let path = jobstore.as_str();
    let exists = check(path);
    assert(call_ensures(path_exists, (path,), exists));
    bacalhau_from_parts(job.as_str(), path, exists)
}

/// Only the entries under "job" and "jobstore" decide what the configuration
/// names: two configurations that agree on those two keys give the same job
/// and job store path, or the same error.
pub proof fn lemma_only_job_keys_matter(
    config1: Map<Seq<char>, ConfigValueView>,
    config2: Map<Seq<char>, ConfigValueView>,
)
    requires
        config1.contains_key("job"@) == config2.contains_key("job"@),
        config1.contains_key("job"@) ==> config1["job"@] == config2["job"@],
        config1.contains_key("jobstore"@) == config2.contains_key("jobstore"@),
        config1.contains_key("jobstore"@) ==> config1["jobstore"@] == config2["jobstore"@],
    ensures
        ctor_settings(config1) == ctor_settings(config2),
{
}

} // verus!

use vstd::prelude::*;

verus! {

/// The JSON document type of `serde_json`, carried through unchanged.
#[verifier::external_type_specification]
#[verifier::external_body]
pub struct ExJsonValue(serde_json::Value);

/// The workspace that a pipe configuration belongs to when the stored record
/// names none.
pub open spec fn spec_default_id() -> u64 {
    1
}

/// Default workspace id of a pipe configuration.
pub fn default_id() -> (id: u64)
    ensures
        id == spec_default_id(),
{
    1
}

/// A list of pipe configurations, as the server hands them to a daemon.
#[derive(Debug)]
pub struct PipeConfigs {
    pub configs: Vec<PipeConfig>,
}

/// One pipe: a chain of sections described by a JSON document.
///
/// The scheduler uses `id` to tell pipes apart: to start new pipes, restart
/// pipes whose configuration changed and stop pipes that were removed.
#[derive(Debug)]
pub struct PipeConfig {
    pub id: u64,
    pub pipe: serde_json::Value,
    pub workspace_id: u64,
}

} // verus!

use vstd::prelude::*;

verus! {

/// `serde_json::Value`, declared so that a result can carry its data: the
/// library never looks inside it.
#[verifier::external_type_specification]
#[verifier::external_body]
pub struct ExJsonValue(serde_json::Value);

/// The outcome of one dialog session, and the payload of its result event.
#[derive(Debug, Clone)]
pub enum DialogResult {
    Confirm { data: Option<serde_json::Value> },
    Cancel,
    Closed,
}

/// What the registry keeps for one active dialog: the name of the event on
/// which its result is delivered.
#[derive(Clone, Debug)]
pub struct DialogInstanceData {
    pub event_name: String,
}

} // verus!

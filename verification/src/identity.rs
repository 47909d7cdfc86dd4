//! Identities of connections and execution targets.
use vstd::prelude::*;

verus! {

/// A live connection to a profile; `generation` changes on reconnect.
#[derive(Clone, Copy, Debug, PartialEq, Eq, Structural, Hash)]
pub struct ConnectionIdentity {
    pub profile_id: u128,
    pub generation: u64,
}

/// The database (and optionally schema) that a statement runs against.
#[derive(Clone, Debug, PartialEq, Eq)]
pub struct ExecutionTarget {
    pub profile_id: u128,
    pub database: String,
    pub schema: Option<String>,
}

} // verus!

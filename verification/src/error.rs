//! The core's error taxonomy.

use vstd::prelude::*;

verus! {

/// What can go wrong in the core.
#[derive(Debug, PartialEq, Eq)]
pub enum EngineError {
    /// A lookup or removal referenced an id with no live entity.
    NotFound,
    /// A registered system reported that its update failed; carries the
    /// system's own diagnostic message.
    SystemFailure(String),
    /// The external asset loader failed; carries its diagnostic message.
    AssetLoadFailure(String),
}

} // verus!

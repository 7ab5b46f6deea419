//! The asset side of the core: adopting the outcome of the external loader.
//!
//! Loading itself is an external, suspending operation; the core only takes
//! its finished outcome — a ready manager handle, or a free-form failure
//! message — and never silently swallows a failure. No asset data is touched
//! by the update path.

use vstd::prelude::*;

use crate::error::EngineError;

verus! {

/// A ready handle to the external asset manager; entities referencing assets
/// become valid once a value of this type exists.
pub struct AssetManager {
    ready: bool,
}

impl AssetManager {
    /// Whether this handle is ready for use.
    pub closed spec fn spec_ready(&self) -> bool {
        self.ready
    }

    /// A ready manager handle.
    pub fn new() -> (manager: AssetManager)
        ensures
            manager.spec_ready(),
    {
        AssetManager { ready: true }
    }
}

/// Adopts the outcome of the external load operation: a ready manager is
/// handed through unchanged, a failure message becomes `AssetLoadFailure`
/// carrying that very message. Nothing else — in particular no entity —
/// is affected.
pub fn finish_asset_load(outcome: Result<AssetManager, String>) -> (result: Result<
    AssetManager,
    EngineError,
>)
    ensures
        match outcome {
            Ok(manager) => result == Ok::<AssetManager, EngineError>(manager),
            Err(message) => result == Err::<AssetManager, EngineError>(
                EngineError::AssetLoadFailure(message),
            ),
        },
{
    match outcome {
        Ok(manager) => Ok(manager),
        Err(message) => Err(EngineError::AssetLoadFailure(message)),
    }
}

} // verus!

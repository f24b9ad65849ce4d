//! Provider-level state shared across pods.

use vstd::prelude::*;

verus! {

/// The part of the provider's shared state that its decisions read: where
/// volumes are kept. The API client and the image store stay with the caller.
pub struct ProviderState {
    pub volume_path: String,
}

impl ProviderState {
    /// The directory under which volumes are mounted: always the configured one.
    pub fn volume_path(&self) -> (p: Option<&String>)
        ensures
            p == Some(&self.volume_path),
    {
        Some(&self.volume_path)
    }

    /// Stopping a pod needs no work from this provider and always succeeds.
    pub fn stop(&self) -> (r: Result<(), String>)
        ensures
            r is Ok,
    {
        Ok(())
    }
}

} // verus!

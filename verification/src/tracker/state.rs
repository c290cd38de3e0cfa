use vstd::prelude::*;

verus! {

/// The state of the progress.
#[derive(Debug, PartialEq, Eq, Clone, Copy, Structural)]
pub enum ProgressState {
    /// Whether it's probing.
    Probe,
    /// Whether it's replicating.
    Replicate,
    /// Whether it's a snapshot.
    Snapshot,
}

impl Default for ProgressState {
    fn default() -> (s: Self)
        ensures
            s == ProgressState::Probe,
    {
        ProgressState::Probe
    }
}

} // verus!

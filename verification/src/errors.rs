use vstd::prelude::*;

verus! {

/// The caller errors the engine reports. Every operation either fully
/// applies or has no effect; an error is always surfaced synchronously
/// at the call that triggers it.
#[derive(Clone, Copy, Debug, PartialEq, Eq, Structural)]
pub enum EcsError {
    /// An operation referenced an entity id that was never allocated or
    /// has been despawned.
    UnknownEntity,
    /// A spawn bundle listed the same component type twice.
    DuplicateComponentInBundle,
    /// `run` was invoked on a world that has already run.
    AlreadyRun,
}

} // verus!

//! A verified model of a swapchain-based presentation engine: the protocol
//! that acquires a presentable image, bounds in-flight GPU work, submits
//! rendering commands in dependency order, presents the result, and rebuilds
//! every swapchain-dependent resource when the surface goes stale or is
//! resized, together with the staged host-to-device transfer protocol used to
//! fill device-local buffers.

use vstd::prelude::*;

pub mod engine;
pub mod memory;
pub mod scheduler;
pub mod staging;
pub mod swapchain;

verus! {

/// The fatal error kinds of the engine. Recoverable conditions (a stale or
/// suboptimal surface, a pending resize) never appear here: they are absorbed
/// by the recreation path and are ordinary control flow.
#[derive(Clone, Copy, Debug, PartialEq, Eq, Structural)]
pub enum EngineError {
    /// A required device capability is absent, e.g. no memory type satisfies
    /// a buffer's requirements.
    MissingCapability,
    /// A memory operation addressed an allocation that does not exist or a
    /// range outside its bounds.
    AllocationFailed,
    /// A presentation status outside the recognized success / stale /
    /// suboptimal set.
    UnexpectedStatus,
}

/// Command-line options: a single switch that enables the validation layer
/// and its debug message callback.
#[derive(Clone, Copy, Debug, PartialEq, Eq, Structural)]
pub struct Opt {
    pub validation: bool,
}

} // verus!

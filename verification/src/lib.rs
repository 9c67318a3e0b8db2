//! Verified core of a build supervisor for Unreal Engine projects.
//!
//! The library contains the decision logic of the build pipeline: editor
//! target resolution, the artifact-cleanup plan, construction of the exact
//! toolchain invocations, the phase state machine that sequences a build,
//! and the shared handle through which a caller observes completion and
//! requests cancellation.  Everything that touches the outside world
//! (processes, the filesystem, channels, the terminal) lives in the
//! unverified front end, which feeds plain values into these functions and
//! carries their decisions out.

pub mod cleaner;
pub mod engine;
pub mod handle;
pub mod logs;
pub mod notify;
pub mod orchestrator;
pub mod resolver;
pub mod runner;
pub mod text;
pub mod types;

use vstd::prelude::*;

verus! {

/// The two ways a build can be requested: compile only, or wipe caches,
/// regenerate project metadata and then compile.
#[derive(Debug, Clone, Copy, PartialEq, Eq, Structural)]
pub enum BuildMode {
    Standard,
    CleanRebuild,
}

} // verus!

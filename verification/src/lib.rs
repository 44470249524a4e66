//! Scaffolding library for new C/C++ projects.
//!
//! The library computes everything a fresh project needs as plain values: the
//! resolved language and build tool, the exact contents of every generated
//! file, and an ordered plan of filesystem actions. Executing the plan
//! (creating directories, writing files, running the version-control binary)
//! is left to the surrounding binary; every value handed to it is pinned down
//! here by a contract.

pub mod laws;
pub mod options;
pub mod plan;
pub mod report;

pub use options::{BuildTools, Language, Opt};
pub use plan::FsAction;
pub use report::{to_green, to_red};

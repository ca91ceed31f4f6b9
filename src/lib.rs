//! Task orchestration and release resolution for a package installer.
//!
//! - `task`: units of work, their dependency descriptions, and the
//!   composition of a root task into a flat plan.
//! - `executor`: sequential, fail-fast execution of a plan.
//! - `version`: versions, releases and version targets.
//! - `config`: configuration, source bindings and their release cache.
//! - `install`: the root task of an install operation.
//! - `gdrive`: the Google Drive release source.

pub mod config;
pub mod executor;
pub mod gdrive;
pub mod install;
pub mod task;
pub mod version;

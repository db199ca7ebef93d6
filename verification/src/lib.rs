//! Verified core of a package build-and-publish orchestrator.
//!
//! The library plans the work of building package source directories with a
//! backend packaging tool and publishing the produced artifacts into a shared
//! repository.  Everything that decides — locating an artifact, filtering
//! discovered directories, selecting a backend, sequencing build and deploy,
//! and aggregating per-package outcomes — lives here with a contract.  The
//! surrounding process work (running the tools, reading directories, copying
//! files) is done by the caller, which feeds the results back in as plain
//! values.

pub mod configuration;
pub mod locator;
pub mod orchestrator;
pub mod package_manager;
pub mod paths;
pub mod pipeline;

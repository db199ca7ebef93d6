//! What a run is configured with: the backend to use, and optional
//! per-package override data.
//!
//! The configuration file itself is read and parsed by the caller; the core
//! receives the parsed values and treats the overrides as opaque,
//! backend-specific data keyed by package name.

use vstd::prelude::*;
use crate::package_manager::PackageManagerName;

verus! {

/// Backend-specific override data for one package.
#[derive(Debug)]
pub struct PackageOverride {
    tag_prefix: String,
}

impl PackageOverride {
    /// The version-tag prefix the override carries.
    pub closed spec fn tag_prefix_spec(&self) -> Seq<char> {
        self.tag_prefix@
    }

    /// An override carrying the given version-tag prefix.
    pub fn new(tag_prefix: String) -> (r: Self)
        ensures
            r.tag_prefix_spec() == tag_prefix@,
    {
        PackageOverride { tag_prefix }
    }

    /// The version-tag prefix the override carries.
    pub fn tag_prefix(&self) -> (r: &String)
        ensures
            r@ == self.tag_prefix_spec(),
    {
        &self.tag_prefix
    }
}

/// A run's configuration: the backend to build and deploy with, and the
/// overrides, keyed by package name.
#[derive(Debug)]
pub struct BuilderConfiguration {
    pub package_manager: PackageManagerName,
    pub overrides: Option<Vec<(String, PackageOverride)>>,
}

impl BuilderConfiguration {
    /// The overrides are a mapping: each package name keys at most one
    /// entry.
    pub open spec fn wf(&self) -> bool {
        match self.overrides {
            Some(v) => forall|i: int, j: int|
                0 <= i < j < v@.len() ==> v@[i].0@ != v@[j].0@,
            None => true,
        }
    }
}

} // verus!

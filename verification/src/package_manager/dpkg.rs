//! The dpkg-style backend: `dpkg-buildpackage` builds a package in its
//! source directory, the artifact carries the `deb` extension, and
//! `dpkg-scanpackages` rebuilds the repository index.

use vstd::prelude::*;
use vstd::string::StringExecFns;
use crate::package_manager::CommandSpec;
use crate::package_manager::PackageManager;

verus! {

/// The dpkg-style backend.
pub struct Dpkg;

impl Dpkg {
    pub fn new() -> Self {
        Dpkg {}
    }
}

impl PackageManager for Dpkg {
    open spec fn extension_spec(&self) -> Seq<char> {
        "deb"@
    }

    open spec fn build_program_spec(&self) -> Seq<char> {
        "dpkg-buildpackage"@
    }

    open spec fn build_args_spec(&self) -> Seq<Seq<char>> {
        seq!["-b"@]
    }

    open spec fn index_program_spec(&self) -> Seq<char> {
        "dpkg-scanpackages"@
    }

    fn artifact_extension(&self) -> (r: String) {
        String::from_str("deb")
    }

    fn build_program(&self) -> (r: String) {
        String::from_str("dpkg-buildpackage")
    }

    fn build_command(&self, source: &String) -> (c: CommandSpec) {
        let mut args: Vec<String> = Vec::new();
        args.push(String::from_str("-b"));
        let c = CommandSpec {
            program: String::from_str("dpkg-buildpackage"),
            args,
            working_dir: Some(source.clone()),
        };
        proof {
            assert(c@.args =~= self.build_args_spec());
        }
        c
    }

    fn index_command(&self, repository: &String, deployed: &String) -> (c: CommandSpec) {
        let mut args: Vec<String> = Vec::new();
        args.push(repository.clone());
        args.push(deployed.clone());
        let c = CommandSpec {
            program: String::from_str("dpkg-scanpackages"),
            args,
            working_dir: None,
        };
        proof {
            assert(c@.args =~= seq![repository@, deployed@]);
        }
        c
    }
}

} // verus!

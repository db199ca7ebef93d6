//! The pacman-style backend: `makepkg` builds a package in its source
//! directory, the artifact carries the `zst` extension, and `repo-add`
//! registers a deployed artifact in the repository index.

use vstd::prelude::*;
use vstd::string::StringExecFns;
use crate::package_manager::CommandSpec;
use crate::package_manager::PackageManager;

verus! {

/// The pacman-style backend.
pub struct Pacman;

impl Pacman {
    pub fn new() -> Self {
        Pacman {}
    }
}

impl PackageManager for Pacman {
    open spec fn extension_spec(&self) -> Seq<char> {
        "zst"@
    }

    open spec fn build_program_spec(&self) -> Seq<char> {
        "makepkg"@
    }

    open spec fn build_args_spec(&self) -> Seq<Seq<char>> {
        seq!["-sc"@]
    }

    open spec fn index_program_spec(&self) -> Seq<char> {
        "repo-add"@
    }

    fn artifact_extension(&self) -> (r: String) {
        String::from_str("zst")
    }

    fn build_program(&self) -> (r: String) {
        String::from_str("makepkg")
    }

    fn build_command(&self, source: &String) -> (c: CommandSpec) {
        let mut args: Vec<String> = Vec::new();
        args.push(String::from_str("-sc"));
        let c = CommandSpec {
            program: String::from_str("makepkg"),
            args,
            working_dir: Some(source.clone()),
        };
        proof {
            assert(c@.args =~= self.build_args_spec());
        }
        c
    }

    fn index_command(&self, repository: &String, deployed: &String) -> (c: CommandSpec) {
        let mut args: Vec<String> = Vec::new();
        args.push(repository.clone());
        args.push(deployed.clone());
        let c = CommandSpec { program: String::from_str("repo-add"), args, working_dir: None };
        proof {
            assert(c@.args =~= seq![repository@, deployed@]);
        }
        c
    }
}

} // verus!

//! The backend contract: every package-manager backend plans a build
//! invocation, names the artifact extension it produces, and plans the
//! repository index update.
//!
//! A backend never runs a tool itself: it states which tool to run, and the
//! caller reports what the tool did.

use vstd::prelude::*;
use vstd::string::StringExecFns;

pub mod dpkg;
pub mod pacman;

verus! {

/// The backend identifier a configuration selects, fixed for a run.
#[derive(Clone, Copy, PartialEq, Eq, Structural, Debug)]
pub enum PackageManagerName {
    Pacman,
    Dpkg,
}

/// A planned invocation of an outside tool: the program, its arguments, and
/// the directory it runs in.
#[derive(Debug)]
pub struct CommandSpec {
    pub program: String,
    pub args: Vec<String>,
    pub working_dir: Option<String>,
}

/// The model of a planned invocation, over character sequences.
pub struct CommandModel {
    pub program: Seq<char>,
    pub args: Seq<Seq<char>>,
    pub working_dir: Option<Seq<char>>,
}

impl View for CommandSpec {
    type V = CommandModel;

    open spec fn view(&self) -> CommandModel {
        CommandModel {
            program: self.program@,
            args: self.args@.map_values(|a: String| a@),
            working_dir: match self.working_dir {
                Some(w) => Some(w@),
                None => None,
            },
        }
    }
}

/// Why a package failed to build.
#[derive(Debug, PartialEq, Eq)]
pub enum BuildError {
    /// The build tool exited with a failure; its error text is kept verbatim.
    ToolFailure(String),
    /// The build tool succeeded, but no file of the expected extension was
    /// found among the source directory's entries.
    NoArtifact,
    /// The build tool succeeded, but the source directory could not be
    /// listed to look for the artifact; the text says how the listing failed.
    Io(String),
}

/// The model of a build failure.
pub enum BuildErrorModel {
    ToolFailure(Seq<char>),
    NoArtifact,
    Io(Seq<char>),
}

impl View for BuildError {
    type V = BuildErrorModel;

    open spec fn view(&self) -> BuildErrorModel {
        match self {
            BuildError::ToolFailure(s) => BuildErrorModel::ToolFailure(s@),
            BuildError::NoArtifact => BuildErrorModel::NoArtifact,
            BuildError::Io(s) => BuildErrorModel::Io(s@),
        }
    }
}

impl BuildErrorModel {
    /// The failure's text: the tool's or the listing's error text verbatim,
    /// or for a missing artifact, which build program succeeded in vain.
    pub open spec fn message_spec(self, build_program: Seq<char>) -> Seq<char> {
        match self {
            BuildErrorModel::ToolFailure(s) => s,
            BuildErrorModel::NoArtifact => build_program
                + " succeeded, but no package file was found"@,
            BuildErrorModel::Io(s) => s,
        }
    }
}

impl BuildError {
    /// The failure as a flat error carrying its text; a missing artifact
    /// names the backend's build program that produced none.
    pub fn to_package_error(&self, build_program: &String) -> (r: PackageError)
        ensures
            r.details_spec() == self@.message_spec(build_program@),
    {
        match self {
            BuildError::ToolFailure(s) => PackageError::new(s.clone()),
            BuildError::NoArtifact => PackageError::new(
                build_program.clone().concat(" succeeded, but no package file was found"),
            ),
            BuildError::Io(s) => PackageError::new(s.clone()),
        }
    }
}

/// Why a package failed to deploy.
#[derive(Debug, PartialEq, Eq)]
pub enum DeployError {
    /// The repository path has no parent component to copy the artifact into.
    InvalidRepositoryPath(String),
    /// Copying the artifact beside the repository failed; the text says how.
    CopyFailed(String),
    /// The index tool exited with a failure; its error text is kept verbatim.
    IndexToolFailure(String),
}

/// The model of a deploy failure.
pub enum DeployErrorModel {
    InvalidRepositoryPath(Seq<char>),
    CopyFailed(Seq<char>),
    IndexToolFailure(Seq<char>),
}

impl View for DeployError {
    type V = DeployErrorModel;

    open spec fn view(&self) -> DeployErrorModel {
        match self {
            DeployError::InvalidRepositoryPath(s) => DeployErrorModel::InvalidRepositoryPath(s@),
            DeployError::CopyFailed(s) => DeployErrorModel::CopyFailed(s@),
            DeployError::IndexToolFailure(s) => DeployErrorModel::IndexToolFailure(s@),
        }
    }
}

impl DeployErrorModel {
    /// The failure's text: the tool's or the copy's error text verbatim, or
    /// for an invalid repository path, the path and why it was rejected.
    pub open spec fn message_spec(self) -> Seq<char> {
        match self {
            DeployErrorModel::InvalidRepositoryPath(p) => p
                + " is not a valid repository path"@,
            DeployErrorModel::CopyFailed(s) => s,
            DeployErrorModel::IndexToolFailure(s) => s,
        }
    }
}

impl DeployError {
    /// The failure as a flat error carrying its text.
    pub fn to_package_error(&self) -> (r: PackageError)
        ensures
            r.details_spec() == self@.message_spec(),
    {
        match self {
            DeployError::InvalidRepositoryPath(p) => PackageError::new(
                p.clone().concat(" is not a valid repository path"),
            ),
            DeployError::CopyFailed(s) => PackageError::new(s.clone()),
            DeployError::IndexToolFailure(s) => PackageError::new(s.clone()),
        }
    }
}

/// A flat error carrying only its text, for callers that report and exit.
#[derive(Debug)]
pub struct PackageError {
    details: String,
}

impl PackageError {
    /// The text of the error.
    pub closed spec fn details_spec(&self) -> Seq<char> {
        self.details@
    }

    /// An error carrying exactly the given text.
    pub fn new(details: String) -> (r: Self)
        ensures
            r.details_spec() == details@,
    {
        PackageError { details }
    }

    /// The text of the error.
    pub fn message(&self) -> (r: &String)
        ensures
            r@ == self.details_spec(),
    {
        &self.details
    }
}

impl From<String> for PackageError {
    fn from(details: String) -> (r: Self) {
        PackageError { details }
    }
}

impl vstd::std_specs::convert::FromSpecImpl<String> for PackageError {
    open spec fn obeys_from_spec() -> bool {
        true
    }

    closed spec fn from_spec(details: String) -> Self {
        PackageError { details }
    }
}

/// `PackageError::from` keeps the constructing text verbatim: the error
/// built from a string surfaces exactly that string.
pub proof fn lemma_package_error_from_details(details: String)
    ensures
        <PackageError as vstd::std_specs::convert::FromSpec<String>>::from_spec(
            details,
        ).details_spec() == details@,
{
}

/// What a package-manager backend must supply: the tool invocations for its
/// ecosystem and the extension its artifacts carry.
pub trait PackageManager {
    /// The extension of the artifact files this backend produces.
    spec fn extension_spec(&self) -> Seq<char>;

    /// The program the build step runs.
    spec fn build_program_spec(&self) -> Seq<char>;

    /// The arguments the build step passes.
    spec fn build_args_spec(&self) -> Seq<Seq<char>>;

    /// The program the index-update step runs.
    spec fn index_program_spec(&self) -> Seq<char>;

    /// The extension of the artifact files this backend produces.
    fn artifact_extension(&self) -> (r: String)
        ensures
            r@ == self.extension_spec(),
    ;

    /// The name of the program the build step runs.
    fn build_program(&self) -> (r: String)
        ensures
            r@ == self.build_program_spec(),
    ;

    /// The build-tool invocation for one package source directory.
    fn build_command(&self, source: &String) -> (c: CommandSpec)
        ensures
            c@.program == self.build_program_spec(),
            c@.args == self.build_args_spec(),
            c@.working_dir == Some(source@),
    ;

    /// The index-tool invocation for one deployed artifact.
    fn index_command(&self, repository: &String, deployed: &String) -> (c: CommandSpec)
        ensures
            c@.program == self.index_program_spec(),
            c@.args == seq![repository@, deployed@],
            c@.working_dir is None,
    ;
}

/// The backend a run selected, as a closed set of variants.
pub enum SelectedBackend {
    Pacman(pacman::Pacman),
    Dpkg(dpkg::Dpkg),
}

impl PackageManager for SelectedBackend {
    open spec fn extension_spec(&self) -> Seq<char> {
        match self {
            SelectedBackend::Pacman(p) => p.extension_spec(),
            SelectedBackend::Dpkg(d) => d.extension_spec(),
        }
    }

    open spec fn build_program_spec(&self) -> Seq<char> {
        match self {
            SelectedBackend::Pacman(p) => p.build_program_spec(),
            SelectedBackend::Dpkg(d) => d.build_program_spec(),
        }
    }

    open spec fn build_args_spec(&self) -> Seq<Seq<char>> {
        match self {
            SelectedBackend::Pacman(p) => p.build_args_spec(),
            SelectedBackend::Dpkg(d) => d.build_args_spec(),
        }
    }

    open spec fn index_program_spec(&self) -> Seq<char> {
        match self {
            SelectedBackend::Pacman(p) => p.index_program_spec(),
            SelectedBackend::Dpkg(d) => d.index_program_spec(),
        }
    }

    fn artifact_extension(&self) -> (r: String) {
        match self {
            SelectedBackend::Pacman(p) => p.artifact_extension(),
            SelectedBackend::Dpkg(d) => d.artifact_extension(),
        }
    }

    fn build_program(&self) -> (r: String) {
        match self {
            SelectedBackend::Pacman(p) => p.build_program(),
            SelectedBackend::Dpkg(d) => d.build_program(),
        }
    }

    fn build_command(&self, source: &String) -> (c: CommandSpec) {
        match self {
            SelectedBackend::Pacman(p) => p.build_command(source),
            SelectedBackend::Dpkg(d) => d.build_command(source),
        }
    }

    fn index_command(&self, repository: &String, deployed: &String) -> (c: CommandSpec) {
        match self {
            SelectedBackend::Pacman(p) => p.index_command(repository, deployed),
            SelectedBackend::Dpkg(d) => d.index_command(repository, deployed),
        }
    }
}

/// Maps a configuration-declared backend identifier to its backend.  The
/// enumeration is closed, so the mapping is total.
pub fn select(name: &PackageManagerName) -> (b: SelectedBackend)
    ensures
        (b is Pacman) == (name is Pacman),
        (b is Dpkg) == (name is Dpkg),
{
    match name {
        PackageManagerName::Pacman => SelectedBackend::Pacman(pacman::Pacman::new()),
        PackageManagerName::Dpkg => SelectedBackend::Dpkg(dpkg::Dpkg::new()),
    }
}

} // verus!

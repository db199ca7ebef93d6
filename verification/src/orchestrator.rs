//! The batch orchestrator: the work set of a run and its per-package
//! outcomes.
//!
//! A run either names one package explicitly — discovery is then bypassed —
//! or discovers its work set from a directory listing, keeping only
//! directories and excluding the version-control metadata directory.  Every
//! package of the work set gets exactly one outcome, failures included: one
//! package's failure never curtails the rest.

use vstd::prelude::*;
use vstd::string::StringExecFns;
use crate::locator::entry_views;
use crate::pipeline::OutcomeModel;
use crate::pipeline::PackageOutcome;
use crate::package_manager::BuildError;
use crate::package_manager::DeployError;

verus! {

/// One entry of a directory listing: its name and whether it is itself a
/// directory.
#[derive(Debug)]
pub struct DirectoryEntry {
    pub name: String,
    pub is_dir: bool,
}

/// The model of a directory-listing entry.
pub struct DirectoryEntryModel {
    pub name: Seq<char>,
    pub is_dir: bool,
}

impl View for DirectoryEntry {
    type V = DirectoryEntryModel;

    open spec fn view(&self) -> DirectoryEntryModel {
        DirectoryEntryModel { name: self.name@, is_dir: self.is_dir }
    }
}

/// The views of a sequence of directory entries.
pub open spec fn directory_entry_views(entries: Seq<DirectoryEntry>) -> Seq<DirectoryEntryModel> {
    entries.map_values(|e: DirectoryEntry| e@)
}

/// The name of the version-control metadata directory that discovery
/// excludes.
pub open spec fn vcs_dir_name() -> Seq<char> {
    ".git"@
}

/// Whether discovery keeps an entry: only directories, and never the
/// version-control metadata directory.
pub open spec fn kept_entry(e: DirectoryEntryModel) -> bool {
    e.is_dir && e.name != vcs_dir_name()
}

/// The work set a directory listing yields, in listing order.
pub open spec fn discover_spec(entries: Seq<DirectoryEntryModel>) -> Seq<Seq<char>>
    decreases entries.len(),
{
    if entries.len() == 0 {
        Seq::empty()
    } else {
        let rest = discover_spec(entries.drop_last());
        if kept_entry(entries.last()) {
            rest.push(entries.last().name)
        } else {
            rest
        }
    }
}

/// Discovery keeps no entry that is not a directory, and none named for the
/// version-control metadata directory, wherever such an entry stands in
/// listing order.
pub proof fn lemma_discovery_excludes(entries: Seq<DirectoryEntryModel>, name: Seq<char>)
    requires
        forall|i: int|
            0 <= i < entries.len() ==> (entries[i].name == name ==> !kept_entry(entries[i])),
    ensures
        !discover_spec(entries).contains(name),
    decreases entries.len(),
{
    if entries.len() != 0 {
        lemma_discovery_excludes(entries.drop_last(), name);
        let d = discover_spec(entries);
        if discover_spec(entries).contains(name) {
            let i = choose|i: int| 0 <= i < d.len() && d[i] == name;
            if kept_entry(entries.last()) {
                assert(d == discover_spec(entries.drop_last()).push(entries.last().name));
                if i < d.len() - 1 {
                    assert(discover_spec(entries.drop_last()).contains(name));
                } else {
                    assert(entries.last().name == name);
                }
            } else {
                assert(discover_spec(entries.drop_last()).contains(name));
            }
        }
    }
}

/// The work set of a run: the kept directories of the listing, in listing
/// order.
pub fn discover(entries: &Vec<DirectoryEntry>) -> (work: Vec<String>)
    ensures
        entry_views(work@) == discover_spec(directory_entry_views(entries@)),
{
    let ghost models = directory_entry_views(entries@);
    let vcs = String::from_str(".git");
    let mut work: Vec<String> = Vec::new();
    let mut i: usize = 0;
    while i < entries.len()
        invariant
            i <= entries.len(),
            models == directory_entry_views(entries@),
            models.len() == entries@.len(),
            forall|j: int| 0 <= j < models.len() ==> models[j] == entries@[j]@,
            vcs@ == vcs_dir_name(),
            entry_views(work@) == discover_spec(models.take(i as int)),
        decreases entries.len() - i,
    {
        let entry = &entries[i];
        let is_vcs = entry.name.eq(&vcs);
        proof {
            assert(models.take(i as int + 1).drop_last() =~= models.take(i as int));
            assert(models.take(i as int + 1).last() == models[i as int]);
        }
        if entry.is_dir && !is_vcs {
            work.push(entry.name.clone());
            proof {
                assert(entry_views(work@) =~= discover_spec(models.take(i as int + 1)));
            }
        } else {
            proof {
                assert(entry_views(work@) =~= discover_spec(models.take(i as int + 1)));
            }
        }
        i = i + 1;
    }
    proof {
        assert(models.take(entries@.len() as int) =~= models);
    }
    work
}

/// Whether every outcome of a run is a successful deployment.
pub open spec fn all_succeeded(outcomes: Seq<OutcomeModel>) -> bool {
    forall|i: int| 0 <= i < outcomes.len() ==> outcomes[i] is Deployed
}

/// The failing packages of a run, each with its outcome, in work-set order.
pub open spec fn failures_spec(work: Seq<Seq<char>>, outcomes: Seq<OutcomeModel>) -> Seq<
    (Seq<char>, OutcomeModel),
>
    decreases outcomes.len(),
{
    if outcomes.len() == 0 {
        Seq::empty()
    } else {
        let rest = failures_spec(work, outcomes.drop_last());
        if outcomes.last() is Deployed {
            rest
        } else {
            rest.push((work[outcomes.len() - 1], outcomes.last()))
        }
    }
}

/// A run with no failing package is exactly a run whose every outcome is a
/// successful deployment.
pub proof fn lemma_no_failures_iff_all_succeeded(
    work: Seq<Seq<char>>,
    outcomes: Seq<OutcomeModel>,
)
    ensures
        (failures_spec(work, outcomes).len() == 0) == all_succeeded(outcomes),
    decreases outcomes.len(),
{
    if outcomes.len() != 0 {
        lemma_no_failures_iff_all_succeeded(work, outcomes.drop_last());
        if all_succeeded(outcomes) {
            assert(forall|i: int|
                0 <= i < outcomes.len() - 1 ==> outcomes.drop_last()[i] == outcomes[i]);
        }
        if failures_spec(work, outcomes).len() == 0 {
            assert(outcomes.last() is Deployed);
            assert forall|i: int| 0 <= i < outcomes.len() implies outcomes[i] is Deployed by {
                if i < outcomes.len() - 1 {
                    assert(outcomes[i] == outcomes.drop_last()[i]);
                }
            }
        }
    }
}

/// The overall result of a run: success only when every package both built
/// and deployed; otherwise the failing packages with their outcomes.
#[derive(Debug, PartialEq, Eq)]
pub enum RunResult {
    AllSucceeded,
    PartialFailure(Vec<(String, PackageOutcome)>),
}

/// The views of a sequence of (package, outcome) pairs.
pub open spec fn pair_views(pairs: Seq<(String, PackageOutcome)>) -> Seq<
    (Seq<char>, OutcomeModel),
> {
    pairs.map_values(|p: (String, PackageOutcome)| (p.0@, p.1@))
}

/// A batch run: its work set, and the outcomes recorded so far, one per
/// package, in work-set order.
pub struct Orchestrator {
    work: Vec<String>,
    outcomes: Vec<PackageOutcome>,
}

impl Orchestrator {
    /// The run's work set.
    pub closed spec fn work_view(&self) -> Seq<Seq<char>> {
        entry_views(self.work@)
    }

    /// The outcomes recorded so far.
    pub closed spec fn outcomes_view(&self) -> Seq<OutcomeModel> {
        self.outcomes@.map_values(|o: PackageOutcome| o@)
    }

    /// At most one outcome per package of the work set.
    pub open spec fn wf(&self) -> bool {
        self.outcomes_view().len() <= self.work_view().len()
    }

    /// Whether every package of the work set has its outcome.
    pub open spec fn complete_spec(&self) -> bool {
        self.outcomes_view().len() == self.work_view().len()
    }

    /// A run over the given work set, with nothing recorded yet.
    pub fn new(work: Vec<String>) -> (r: Self)
        ensures
            r.wf(),
            r.work_view() == entry_views(work@),
            r.outcomes_view() == Seq::<OutcomeModel>::empty(),
    {
        let r = Orchestrator { work, outcomes: Vec::new() };
        proof {
            assert(r.outcomes_view() =~= Seq::<OutcomeModel>::empty());
        }
        r
    }

    /// A run over one explicitly named package: its work set is that one
    /// package, and no directory listing is consulted.
    pub fn single(package: String) -> (r: Self)
        ensures
            r.wf(),
            r.work_view() == seq![package@],
            r.outcomes_view() == Seq::<OutcomeModel>::empty(),
    {
        let mut work: Vec<String> = Vec::new();
        work.push(package);
        let r = Orchestrator { work, outcomes: Vec::new() };
        proof {
            assert(r.work_view() =~= seq![r.work@[0]@]);
            assert(r.outcomes_view() =~= Seq::<OutcomeModel>::empty());
        }
        r
    }

    /// The next package to process: the first of the work set without an
    /// outcome, if one is left.
    pub fn pending(&self) -> (r: Option<String>)
        requires
            self.wf(),
        ensures
            match r {
                Some(s) => !self.complete_spec() && s@ == self.work_view()[self.outcomes_view().len() as int],
                None => self.complete_spec(),
            },
    {
        if self.outcomes.len() < self.work.len() {
            Some(self.work[self.outcomes.len()].clone())
        } else {
            None
        }
    }

    /// Whether every package of the work set has its outcome.
    pub fn is_complete(&self) -> (r: bool)
        ensures
            r == self.complete_spec(),
    {
        self.outcomes.len() == self.work.len()
    }

    /// Records the pending package's outcome — success or failure alike —
    /// and touches nothing else: the rest of the work set stays as it was.
    pub fn record(&mut self, outcome: PackageOutcome)
        requires
            old(self).wf(),
            !old(self).complete_spec(),
        ensures
            final(self).wf(),
            final(self).work_view() == old(self).work_view(),
            final(self).outcomes_view() == old(self).outcomes_view().push(outcome@),
    {
        let ghost prior = self.outcomes@;
        self.outcomes.push(outcome);
        proof {
            assert(self.outcomes_view() =~= prior.map_values(|o: PackageOutcome| o@).push(
                self.outcomes@.last()@,
            ));
        }
    }

    /// The number of outcomes recorded so far.
    pub fn recorded(&self) -> (r: usize)
        ensures
            r == self.outcomes_view().len(),
    {
        self.outcomes.len()
    }

    /// The overall result of a finished run: `AllSucceeded` exactly when
    /// every package deployed, and otherwise the failing packages, each with
    /// its outcome, in work-set order.
    pub fn report(&self) -> (r: RunResult)
        requires
            self.wf(),
            self.complete_spec(),
        ensures
            (r is AllSucceeded) == all_succeeded(self.outcomes_view()),
            (match r {
                RunResult::PartialFailure(v) => pair_views(v@) == failures_spec(
                    self.work_view(),
                    self.outcomes_view(),
                ),
                RunResult::AllSucceeded => true,
            }),
    {
        let ghost work_models = self.work_view();
        let ghost outcome_models = self.outcomes_view();
        let mut failures: Vec<(String, PackageOutcome)> = Vec::new();
        let mut i: usize = 0;
        proof {
            assert(pair_views(failures@) =~= failures_spec(work_models, outcome_models.take(0)));
        }
        while i < self.outcomes.len()
            invariant
                i <= self.outcomes.len(),
                work_models == self.work_view(),
                outcome_models == self.outcomes_view(),
                self.outcomes@.len() == outcome_models.len(),
                outcome_models.len() == work_models.len(),
                forall|j: int|
                    0 <= j < outcome_models.len() ==> outcome_models[j] == self.outcomes@[j]@,
                forall|j: int| 0 <= j < work_models.len() ==> work_models[j] == self.work@[j]@,
                pair_views(failures@) == failures_spec(work_models, outcome_models.take(i as int)),
            decreases self.outcomes.len() - i,
        {
            proof {
                assert(outcome_models.take(i as int + 1).drop_last() =~= outcome_models.take(
                    i as int,
                ));
                assert(outcome_models.take(i as int + 1).last() == outcome_models[i as int]);
            }
            let succeeded = match &self.outcomes[i] {
                PackageOutcome::Deployed { .. } => true,
                _ => false,
            };
            if !succeeded {
                let pair = (self.work[i].clone(), duplicate_outcome(&self.outcomes[i]));
                failures.push(pair);
                proof {
                    assert(pair_views(failures@) =~= failures_spec(
                        work_models,
                        outcome_models.take(i as int + 1),
                    ));
                }
            } else {
                proof {
                    assert(pair_views(failures@) =~= failures_spec(
                        work_models,
                        outcome_models.take(i as int + 1),
                    ));
                }
            }
            i = i + 1;
        }
        proof {
            assert(outcome_models.take(self.outcomes@.len() as int) =~= outcome_models);
            lemma_no_failures_iff_all_succeeded(work_models, outcome_models);
        }
        if failures.len() == 0 {
            RunResult::AllSucceeded
        } else {
            RunResult::PartialFailure(failures)
        }
    }
}

/// An equal copy of an outcome.
pub fn duplicate_outcome(o: &PackageOutcome) -> (r: PackageOutcome)
    ensures
        r@ == o@,
{
    match o {
        PackageOutcome::Deployed { artifact } => PackageOutcome::Deployed {
            artifact: artifact.clone(),
        },
        PackageOutcome::BuildFailed { error } => PackageOutcome::BuildFailed {
            error: duplicate_build_error(error),
        },
        PackageOutcome::DeployFailed { artifact, error } => PackageOutcome::DeployFailed {
            artifact: artifact.clone(),
            error: duplicate_deploy_error(error),
        },
    }
}

/// An equal copy of a build failure.
pub fn duplicate_build_error(e: &BuildError) -> (r: BuildError)
    ensures
        r@ == e@,
{
    match e {
        BuildError::ToolFailure(s) => BuildError::ToolFailure(s.clone()),
        BuildError::NoArtifact => BuildError::NoArtifact,
        BuildError::Io(s) => BuildError::Io(s.clone()),
    }
}

/// An equal copy of a deploy failure.
pub fn duplicate_deploy_error(e: &DeployError) -> (r: DeployError)
    ensures
        r@ == e@,
{
    match e {
        DeployError::InvalidRepositoryPath(s) => DeployError::InvalidRepositoryPath(s.clone()),
        DeployError::CopyFailed(s) => DeployError::CopyFailed(s.clone()),
        DeployError::IndexToolFailure(s) => DeployError::IndexToolFailure(s.clone()),
    }
}

/// A finished run accounts for every package: it holds exactly as many
/// outcomes as the work set holds packages, none dropped.
pub proof fn lemma_outcome_per_package(o: &Orchestrator)
    requires
        o.wf(),
        o.complete_spec(),
    ensures
        o.outcomes_view().len() == o.work_view().len(),
{
}

/// The work left after a package's outcome is recorded.
pub open spec fn remaining_work(work: Seq<Seq<char>>, recorded: nat) -> Seq<Seq<char>> {
    work.skip(recorded as int)
}

/// Recording a package's outcome leaves the same work remaining whatever
/// that outcome was: one package's failure never takes another package out
/// of the run.
pub proof fn lemma_no_short_circuit(
    work: Seq<Seq<char>>,
    outcomes: Seq<OutcomeModel>,
    a: OutcomeModel,
    b: OutcomeModel,
)
    requires
        outcomes.len() < work.len(),
    ensures
        remaining_work(work, outcomes.push(a).len()) == remaining_work(work, outcomes.push(b).len()),
{
}

} // verus!

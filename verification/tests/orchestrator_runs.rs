use pkg_builder::orchestrator::discover;
use pkg_builder::orchestrator::DirectoryEntry;
use pkg_builder::orchestrator::Orchestrator;
use pkg_builder::orchestrator::RunResult;
use pkg_builder::package_manager::select;
use pkg_builder::package_manager::BuildError;
use pkg_builder::package_manager::PackageManagerName;
use pkg_builder::package_manager::SelectedBackend;
use pkg_builder::pipeline::next_action;
use pkg_builder::pipeline::start_package;
use pkg_builder::pipeline::step;
use pkg_builder::pipeline::PackageEvent;
use pkg_builder::pipeline::PackageOutcome;
use pkg_builder::pipeline::PackageState;
use pkg_builder::pipeline::StepAction;

fn entries(listing: &[(&str, bool)]) -> Vec<DirectoryEntry> {
    listing
        .iter()
        .map(|(name, is_dir)| DirectoryEntry { name: name.to_string(), is_dir: *is_dir })
        .collect()
}

/// A simulated world: which packages build, what their build leaves behind,
/// and counters for the deploy work that was performed.
struct FakeWorld {
    /// Packages whose build tool exits nonzero, with their error text.
    failing_builds: Vec<(String, String)>,
    /// The artifact file a successful build leaves in its source directory.
    artifact: String,
    /// Files copied into the repository directory, in order.
    copied: Vec<String>,
    /// Index-tool invocations, in order of the deployed path they register.
    indexed: Vec<String>,
    /// Build-tool invocations, by working directory.
    built: Vec<String>,
}

impl FakeWorld {
    fn perform(&mut self, action: &StepAction) -> PackageEvent {
        match action {
            StepAction::RunBuildTool(c) => {
                let source = c.working_dir.clone().expect("build runs in the source directory");
                self.built.push(source.clone());
                match self.failing_builds.iter().find(|(p, _)| *p == source) {
                    Some((_, stderr)) => PackageEvent::BuildTool {
                        ok: false,
                        stderr: stderr.clone(),
                        entries: Ok(Vec::new()),
                    },
                    None => PackageEvent::BuildTool {
                        ok: true,
                        stderr: String::new(),
                        entries: Ok(vec!["PKGBUILD".to_string(), self.artifact.clone()]),
                    },
                }
            }
            StepAction::CopyFile { from: _, to } => {
                self.copied.push(to.clone());
                PackageEvent::Copy { ok: true, error: String::new() }
            }
            StepAction::RunIndexTool(c) => {
                self.indexed.push(c.args[1].clone());
                PackageEvent::IndexTool { ok: true, stderr: String::new() }
            }
        }
    }
}

fn run_batch(
    pm: &SelectedBackend,
    repository: &String,
    mut orchestrator: Orchestrator,
    world: &mut FakeWorld,
) -> RunResult {
    while let Some(source) = orchestrator.pending() {
        let mut state = start_package(source);
        while let Some(action) = next_action(pm, repository, &state) {
            let event = world.perform(&action);
            state = step(pm, repository, state, event);
        }
        let outcome = match state {
            PackageState::Settled { outcome } => outcome,
            other => panic!("the pipeline stopped unsettled: {:?}", other),
        };
        assert!(!orchestrator.is_complete());
        orchestrator.record(outcome);
    }
    assert!(orchestrator.is_complete());
    orchestrator.report()
}

#[test]
fn discovery_keeps_only_directories_and_skips_vcs_metadata() {
    let listing = entries(&[
        ("pkgA", true),
        (".git", true),
        ("notes.txt", false),
        ("pkgB", true),
    ]);
    assert_eq!(discover(&listing), vec!["pkgA".to_string(), "pkgB".to_string()]);
}

#[test]
fn discovery_excludes_vcs_metadata_wherever_it_stands() {
    let first = entries(&[(".git", true), ("pkgZ", true)]);
    assert_eq!(discover(&first), vec!["pkgZ".to_string()]);
    let last = entries(&[("pkgZ", true), (".git", true)]);
    assert_eq!(discover(&last), vec!["pkgZ".to_string()]);
    let empty = entries(&[]);
    assert_eq!(discover(&empty), Vec::<String>::new());
}

#[test]
fn discovered_work_set_drives_a_full_run() {
    let pm = select(&PackageManagerName::Pacman);
    let repository = "repo/custom.db.tar.gz".to_string();
    let listing = entries(&[("pkgA", true), (".git", true), ("README.md", false)]);
    let orchestrator = Orchestrator::new(discover(&listing));
    let mut world = FakeWorld {
        failing_builds: Vec::new(),
        artifact: "pkgA-1.0.pkg.tar.zst".to_string(),
        copied: Vec::new(),
        indexed: Vec::new(),
        built: Vec::new(),
    };
    let report = run_batch(&pm, &repository, orchestrator, &mut world);
    assert_eq!(report, RunResult::AllSucceeded);
    assert_eq!(world.built, vec!["pkgA".to_string()]);
}

#[test]
fn dpkg_backend_runs_the_same_pipeline_with_its_own_tools() {
    let pm = select(&PackageManagerName::Dpkg);
    let repository = "repo/Packages".to_string();
    let orchestrator = Orchestrator::single("pkgD".to_string());
    let mut world = FakeWorld {
        failing_builds: Vec::new(),
        artifact: "pkgd_1.0_amd64.deb".to_string(),
        copied: Vec::new(),
        indexed: Vec::new(),
        built: Vec::new(),
    };
    let report = run_batch(&pm, &repository, orchestrator, &mut world);
    assert_eq!(report, RunResult::AllSucceeded);
    assert_eq!(world.copied, vec!["repo/pkgd_1.0_amd64.deb".to_string()]);
    assert_eq!(world.indexed, vec!["repo/pkgd_1.0_amd64.deb".to_string()]);
}

#[test]
fn one_failing_build_yields_partial_failure_and_stops_nothing_else() {
    let pm = select(&PackageManagerName::Pacman);
    let repository = "repo/custom.db.tar.gz".to_string();
    let orchestrator = Orchestrator::new(vec!["pkgA".to_string(), "pkgB".to_string()]);
    let mut world = FakeWorld {
        failing_builds: vec![("pkgB".to_string(), "makepkg: error in build()".to_string())],
        artifact: "pkgA-1.0.pkg.tar.zst".to_string(),
        copied: Vec::new(),
        indexed: Vec::new(),
        built: Vec::new(),
    };
    let report = run_batch(&pm, &repository, orchestrator, &mut world);

    // Both packages were attempted, in work-set order.
    assert_eq!(world.built, vec!["pkgA".to_string(), "pkgB".to_string()]);
    // pkgA's artifact landed in the repository directory and was registered
    // exactly once; pkgB's build failure gated its deploy entirely.
    assert_eq!(world.copied, vec!["repo/pkgA-1.0.pkg.tar.zst".to_string()]);
    assert_eq!(world.indexed, vec!["repo/pkgA-1.0.pkg.tar.zst".to_string()]);
    assert_eq!(
        report,
        RunResult::PartialFailure(vec![(
            "pkgB".to_string(),
            PackageOutcome::BuildFailed {
                error: BuildError::ToolFailure("makepkg: error in build()".to_string()),
            },
        )])
    );
}

#[test]
fn every_package_gets_exactly_one_outcome() {
    let pm = select(&PackageManagerName::Pacman);
    let repository = "repo/custom.db.tar.gz".to_string();
    let work = vec!["pkgA".to_string(), "pkgB".to_string(), "pkgC".to_string()];
    let mut orchestrator = Orchestrator::new(work.clone());
    let mut world = FakeWorld {
        failing_builds: vec![("pkgB".to_string(), "boom".to_string())],
        artifact: "out.pkg.tar.zst".to_string(),
        copied: Vec::new(),
        indexed: Vec::new(),
        built: Vec::new(),
    };
    let mut outcomes = 0;
    while let Some(source) = orchestrator.pending() {
        let mut state = start_package(source);
        while let Some(action) = next_action(&pm, &repository, &state) {
            let event = world.perform(&action);
            state = step(&pm, &repository, state, event);
        }
        match state {
            PackageState::Settled { outcome } => {
                outcomes += 1;
                orchestrator.record(outcome);
            }
            other => panic!("the pipeline stopped unsettled: {:?}", other),
        }
    }
    assert_eq!(outcomes, work.len());
    assert_eq!(orchestrator.recorded(), work.len());
}

#[test]
fn all_packages_deploying_reports_all_succeeded() {
    let pm = select(&PackageManagerName::Pacman);
    let repository = "repo/custom.db.tar.gz".to_string();
    let orchestrator = Orchestrator::new(vec!["pkgA".to_string(), "pkgB".to_string()]);
    let mut world = FakeWorld {
        failing_builds: Vec::new(),
        artifact: "out.pkg.tar.zst".to_string(),
        copied: Vec::new(),
        indexed: Vec::new(),
        built: Vec::new(),
    };
    let report = run_batch(&pm, &repository, orchestrator, &mut world);
    assert_eq!(report, RunResult::AllSucceeded);
    assert_eq!(world.copied.len(), 2);
    assert_eq!(world.indexed.len(), 2);
}

#[test]
fn explicit_single_package_bypasses_discovery_and_ignores_siblings() {
    let pm = select(&PackageManagerName::Pacman);
    let repository = "repo/custom.db.tar.gz".to_string();
    // The work set is exactly the named package: no directory listing is
    // consulted, so sibling directories cannot be inspected.
    let orchestrator = Orchestrator::single("pkgOnly".to_string());
    let mut world = FakeWorld {
        failing_builds: Vec::new(),
        artifact: "only.pkg.tar.zst".to_string(),
        copied: Vec::new(),
        indexed: Vec::new(),
        built: Vec::new(),
    };
    let report = run_batch(&pm, &repository, orchestrator, &mut world);
    assert_eq!(report, RunResult::AllSucceeded);
    assert_eq!(world.built, vec!["pkgOnly".to_string()]);
    assert_eq!(world.copied, vec!["repo/only.pkg.tar.zst".to_string()]);
}

#[test]
fn deploy_failure_of_one_package_leaves_the_next_attempted() {
    let pm = select(&PackageManagerName::Pacman);
    // A repository path with no parent component: every deploy fails with an
    // invalid repository path, yet each package is still built.
    let repository = "bare.db".to_string();
    let orchestrator = Orchestrator::new(vec!["pkgA".to_string(), "pkgB".to_string()]);
    let mut world = FakeWorld {
        failing_builds: Vec::new(),
        artifact: "out.pkg.tar.zst".to_string(),
        copied: Vec::new(),
        indexed: Vec::new(),
        built: Vec::new(),
    };
    let report = run_batch(&pm, &repository, orchestrator, &mut world);
    assert_eq!(world.built, vec!["pkgA".to_string(), "pkgB".to_string()]);
    match report {
        RunResult::PartialFailure(failures) => {
            assert_eq!(failures.len(), 2);
            assert_eq!(failures[0].0, "pkgA".to_string());
            assert_eq!(failures[1].0, "pkgB".to_string());
        }
        other => panic!("expected a partial failure, got {:?}", other),
    }
}

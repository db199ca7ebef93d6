use pkg_builder::configuration::BuilderConfiguration;
use pkg_builder::configuration::PackageOverride;
use pkg_builder::package_manager::dpkg::Dpkg;
use pkg_builder::package_manager::pacman::Pacman;
use pkg_builder::package_manager::select;
use pkg_builder::package_manager::BuildError;
use pkg_builder::package_manager::DeployError;
use pkg_builder::package_manager::PackageError;
use pkg_builder::package_manager::PackageManager;
use pkg_builder::package_manager::PackageManagerName;
use pkg_builder::package_manager::SelectedBackend;

#[test]
fn selector_is_total_over_the_closed_enumeration() {
    assert!(matches!(select(&PackageManagerName::Pacman), SelectedBackend::Pacman(_)));
    assert!(matches!(select(&PackageManagerName::Dpkg), SelectedBackend::Dpkg(_)));
}

#[test]
fn pacman_plans_its_build_invocation() {
    let pm = Pacman::new();
    let c = pm.build_command(&"pkgA".to_string());
    assert_eq!(c.program, "makepkg".to_string());
    assert_eq!(c.args, vec!["-sc".to_string()]);
    assert_eq!(c.working_dir, Some("pkgA".to_string()));
    assert_eq!(pm.artifact_extension(), "zst".to_string());
}

#[test]
fn pacman_plans_its_index_invocation() {
    let pm = Pacman::new();
    let c = pm.index_command(&"repo/custom.db.tar.gz".to_string(), &"repo/a.zst".to_string());
    assert_eq!(c.program, "repo-add".to_string());
    assert_eq!(c.args, vec!["repo/custom.db.tar.gz".to_string(), "repo/a.zst".to_string()]);
    assert_eq!(c.working_dir, None);
}

#[test]
fn dpkg_plans_its_invocations() {
    let pm = Dpkg::new();
    let b = pm.build_command(&"pkgB".to_string());
    assert_eq!(b.program, "dpkg-buildpackage".to_string());
    assert_eq!(b.args, vec!["-b".to_string()]);
    assert_eq!(b.working_dir, Some("pkgB".to_string()));
    assert_eq!(pm.artifact_extension(), "deb".to_string());
    let i = pm.index_command(&"repo/Packages".to_string(), &"repo/x.deb".to_string());
    assert_eq!(i.program, "dpkg-scanpackages".to_string());
    assert_eq!(i.args, vec!["repo/Packages".to_string(), "repo/x.deb".to_string()]);
}

#[test]
fn selected_backend_delegates_to_its_variant() {
    let pm = select(&PackageManagerName::Pacman);
    assert_eq!(pm.artifact_extension(), "zst".to_string());
    let c = pm.build_command(&"pkgA".to_string());
    assert_eq!(c.program, "makepkg".to_string());
    let pm = select(&PackageManagerName::Dpkg);
    assert_eq!(pm.artifact_extension(), "deb".to_string());
}

#[test]
fn package_error_keeps_its_text() {
    let e = PackageError::new("tool exited with status 1".to_string());
    assert_eq!(e.message(), "tool exited with status 1");
    let f = PackageError::from("no such directory".to_string());
    assert_eq!(f.message(), "no such directory");
}

#[test]
fn build_errors_carry_their_text() {
    let makepkg = "makepkg".to_string();
    let e = BuildError::ToolFailure("makepkg: error".to_string());
    assert_eq!(e.to_package_error(&makepkg).message(), "makepkg: error");
    let e = BuildError::NoArtifact;
    assert_eq!(
        e.to_package_error(&makepkg).message(),
        "makepkg succeeded, but no package file was found"
    );
    let e = BuildError::NoArtifact;
    assert_eq!(
        e.to_package_error(&"dpkg-buildpackage".to_string()).message(),
        "dpkg-buildpackage succeeded, but no package file was found"
    );
    let e = BuildError::Io("could not list pkgA".to_string());
    assert_eq!(e.to_package_error(&makepkg).message(), "could not list pkgA");
}

#[test]
fn deploy_errors_carry_their_text() {
    let e = DeployError::InvalidRepositoryPath("bare.db".to_string());
    assert_eq!(e.to_package_error().message(), "bare.db is not a valid repository path");
    let e = DeployError::CopyFailed("permission denied".to_string());
    assert_eq!(e.to_package_error().message(), "permission denied");
    let e = DeployError::IndexToolFailure("cannot lock database".to_string());
    assert_eq!(e.to_package_error().message(), "cannot lock database");
}

#[test]
fn configuration_carries_backend_and_overrides() {
    let config = BuilderConfiguration {
        package_manager: PackageManagerName::Pacman,
        overrides: Some(vec![("pkgA".to_string(), PackageOverride::new("v".to_string()))]),
    };
    assert_eq!(config.package_manager, PackageManagerName::Pacman);
    let overrides = config.overrides.unwrap();
    assert_eq!(overrides.len(), 1);
    assert_eq!(overrides[0].0, "pkgA".to_string());
    assert_eq!(overrides[0].1.tag_prefix(), "v");
}

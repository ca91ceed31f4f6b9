use installer_core::config::{
    source_by_name, version_listing, Config, PackageDescription, PackageSource, ReleaseSource,
    SourceError, SourceKind,
};
use installer_core::gdrive::{GDriveError, GDriveReleases};
use installer_core::install::{InstallItem, InstallTask};
use installer_core::task::TaskUnit;
use installer_core::version::{File, Release, Version, VersionTarget};
use std::cell::Cell;

fn release(name: &str, n: u64) -> Release {
    Release {
        name: name.to_string(),
        version: Version::new_number(n),
        files: vec![File { name: "f".to_string(), url: "u".to_string(), requires_authorization: false }],
    }
}

struct Fixed {
    calls: Cell<usize>,
    fail: bool,
}

impl ReleaseSource for Fixed {
    fn get_current_releases(&self, kind: SourceKind, _config: &toml::Value) -> Result<Vec<Release>, String> {
        assert_eq!(kind, SourceKind::GDrive);
        self.calls.set(self.calls.get() + 1);
        if self.fail {
            Err("offline".to_string())
        } else {
            Ok(vec![release("v1", 1), release("v2", 2), release("v3", 3)])
        }
    }
}

fn source(name: &str) -> PackageSource {
    PackageSource::new(name.to_string(), ".*".to_string(), false, toml::Value::String("cfg".to_string()))
}

#[test]
fn releases_are_delivered_once() {
    let provider = Fixed { calls: Cell::new(0), fail: false };
    let mut s = source("gdrive");
    let first = s.get_current_releases(&provider).unwrap();
    assert_eq!(first.len(), 3);
    assert_eq!(first[2].name, "v3");
    let second = s.get_current_releases(&provider);
    assert!(matches!(second, Err(SourceError::NoCachedReleases)));
    assert_eq!(provider.calls.get(), 1);
}

#[test]
fn fetch_failure_is_delivered_once() {
    let provider = Fixed { calls: Cell::new(0), fail: true };
    let mut s = source("gdrive");
    match s.get_current_releases(&provider) {
        Err(SourceError::SourceFetchError(m)) => assert_eq!(m, "offline"),
        _ => panic!("expected a fetch error"),
    }
    assert!(matches!(s.get_current_releases(&provider), Err(SourceError::NoCachedReleases)));
}

#[test]
fn unknown_source_is_reported() {
    let provider = Fixed { calls: Cell::new(0), fail: false };
    let mut s = source("nowhere");
    match s.get_current_releases(&provider) {
        Err(SourceError::SourceNotFound(n)) => assert_eq!(n, "nowhere"),
        _ => panic!("expected a missing source"),
    }
    assert_eq!(provider.calls.get(), 0);
    assert_eq!(source_by_name(&"gdrive".to_string()), Some(SourceKind::GDrive));
    assert_eq!(source_by_name(&"github".to_string()), None);
}

fn package(name: &str) -> PackageDescription {
    PackageDescription {
        name: name.to_string(),
        description: "d".to_string(),
        icon: None,
        default: None,
        launch_after_install: false,
        source: source("gdrive"),
        shortcuts: Vec::new(),
        requires_authorization: None,
        is_new: None,
        extended_description: None,
    }
}

fn config() -> Config {
    Config {
        installing_message: "Installing".to_string(),
        new_tool: None,
        packages: vec![package("Foo"), package("Bar")],
        hide_advanced: false,
        authentication: None,
    }
}

#[test]
fn install_latest_of_configured_package() {
    let provider = Fixed { calls: Cell::new(0), fail: false };
    let cfg = config();
    let releases = cfg.releases_of(&"Foo".to_string(), &provider).unwrap();
    let target = VersionTarget::Latest.pin(&releases).unwrap();
    assert_eq!(target, VersionTarget::Specific(Version::Number(3)));
    let task = InstallTask::from_request(
        vec![InstallItem { name: "Foo".to_string(), version_target: target }],
        Vec::new(),
        false,
        false,
        false,
    );
    let plan = task.plan();
    let installs: Vec<&TaskUnit> =
        plan.iter().filter(|u| matches!(u, TaskUnit::InstallPackage { .. })).collect();
    assert_eq!(installs.len(), 1);
    match installs[0] {
        TaskUnit::InstallPackage { name, version_target, .. } => {
            assert_eq!(name, "Foo");
            assert_eq!(*version_target, VersionTarget::Specific(Version::Number(3)));
        }
        _ => unreachable!(),
    }
    let install_at = plan.iter().position(|u| matches!(u, TaskUnit::InstallPackage { .. })).unwrap();
    let guard_at = plan.iter().position(|u| matches!(u, TaskUnit::EnsureOnlyInstance)).unwrap();
    let verify_at = plan.iter().position(|u| matches!(u, TaskUnit::VerifyInstallDir { .. })).unwrap();
    assert!(guard_at < install_at && verify_at < install_at);
    assert!(!plan.iter().any(|u| matches!(
        u,
        TaskUnit::InstallGlobalShortcuts | TaskUnit::LaunchOnExit | TaskUnit::SaveExecutable
    )));
}

#[test]
fn unknown_package_has_no_releases() {
    let provider = Fixed { calls: Cell::new(0), fail: false };
    let cfg = config();
    assert_eq!(cfg.find_package(&"Bar".to_string()), Some(1));
    assert_eq!(cfg.find_package(&"Baz".to_string()), None);
    assert!(cfg.releases_of(&"Baz".to_string(), &provider).unwrap().is_empty());
    assert_eq!(provider.calls.get(), 0);
}

#[test]
fn listing_keeps_version_and_name() {
    let listing = version_listing(&vec![release("v1", 1), release("v3", 3)]);
    assert_eq!(listing.len(), 2);
    assert_eq!(listing[1].name, "v3");
    assert_eq!(listing[1].version, Version::Number(3));
}

#[test]
fn gdrive_release_points_at_download_url() {
    let _ = GDriveReleases::new();
    let hidden = vec![("confirm".to_string(), "t".to_string()), ("uuid".to_string(), "x y".to_string())];
    let params = GDriveReleases::download_params(&"abc".to_string(), &hidden);
    assert_eq!(params[0], ("id".to_string(), "abc".to_string()));
    assert_eq!(params.len(), 3);
    let rs = GDriveReleases::releases_for(&"abc".to_string(), &hidden).unwrap();
    assert_eq!(rs.len(), 1);
    assert_eq!(rs[0].version, Version::Number(1));
    assert_eq!(rs[0].name, "yuzu_gdrive_test.zip");
    assert_eq!(
        rs[0].files[0].url,
        "https://drive.usercontent.google.com/download?id=abc&confirm=t&uuid=x+y"
    );
    assert!(!rs[0].files[0].requires_authorization);
}

#[test]
fn version_queries_leave_the_configuration_alone() {
    let provider = Fixed { calls: Cell::new(0), fail: false };
    let mut cfg = config();
    cfg.packages.push(package("Foo"));
    let first = cfg.releases_of(&"Foo".to_string(), &provider).unwrap();
    let second = cfg.releases_of(&"Foo".to_string(), &provider).unwrap();
    assert_eq!(first.len(), 3);
    assert_eq!(second.len(), 3);
    assert_eq!(provider.calls.get(), 4);
    let mut s = source("gdrive");
    assert!(s.get_current_releases(&provider).is_ok());
    assert_eq!(s.match_regex, ".*");
    assert!(!s.allow_version_control);
}

#[test]
fn gdrive_page_status_decides() {
    let hidden = vec![("confirm".to_string(), "t".to_string())];
    let id = "abc".to_string();
    let ok = GDriveReleases::releases_from_page(&id, 200, &hidden).unwrap();
    assert_eq!(ok.len(), 1);
    assert_eq!(ok[0].files.len(), 1);
    assert_eq!(ok[0].files[0].url, "https://drive.usercontent.google.com/download?id=abc&confirm=t");
    assert!(matches!(
        GDriveReleases::releases_from_page(&id, 403, &hidden),
        Err(GDriveError::RateLimited)
    ));
    assert!(matches!(
        GDriveReleases::releases_from_page(&id, 500, &hidden),
        Err(GDriveError::BadStatus(500))
    ));
}

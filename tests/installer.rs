use std::collections::BTreeSet;

use launcher::config::LauncherConfig;
use launcher::installer::{
    plan_version_download, ArchiveKind, InstallError, InstallStage, VersionInstall,
};

/// A disk held in memory: the destination directory and the archive, each
/// absent or a set of file names.
struct FakeDisk {
    destination: Option<BTreeSet<String>>,
    archive: Option<BTreeSet<String>>,
}

/// What goes wrong during a run.
#[derive(Clone, Copy, PartialEq)]
enum Fault {
    Nothing,
    Download,
    Extract,
}

fn names(list: &[&str]) -> BTreeSet<String> {
    list.iter().map(|n| n.to_string()).collect()
}

/// Drives `install` to its end against `disk`; the remote archive holds `remote`.
fn drive(install: &mut VersionInstall, disk: &mut FakeDisk, remote: &BTreeSet<String>, fault: Fault) -> Result<(), InstallError> {
    let mut steps = 0;
    loop {
        if let Some(outcome) = install.outcome() {
            return outcome;
        }
        steps += 1;
        assert!(steps <= 5);
        let succeeded = match install.stage {
            InstallStage::ClearDestination => {
                disk.destination = None;
                true
            }
            InstallStage::CreateDestination => {
                disk.destination = Some(BTreeSet::new());
                true
            }
            InstallStage::Download => {
                if fault == Fault::Download {
                    disk.archive = Some(names(&["partial"]));
                    false
                } else {
                    disk.archive = Some(remote.clone());
                    true
                }
            }
            InstallStage::Extract => {
                let dest = disk.destination.as_mut().unwrap();
                if fault == Fault::Extract {
                    dest.extend(disk.archive.clone().unwrap().into_iter().take(1));
                    false
                } else {
                    dest.extend(disk.archive.clone().unwrap());
                    true
                }
            }
            InstallStage::RemoveArchive | InstallStage::DiscardArchive(_) => {
                disk.archive = None;
                true
            }
            InstallStage::Succeeded | InstallStage::Failed(_) => unreachable!(),
        };
        install.advance(succeeded);
    }
}

fn fresh_install() -> VersionInstall {
    VersionInstall::new(
        "/games".to_string(),
        "official".to_string(),
        "v0.2.5".to_string(),
        "https://example.invalid/v0.2.5.tar.gz".to_string(),
        ArchiveKind::TarGz,
    )
}

#[test]
fn successful_install_leaves_exactly_the_archive_contents() {
    let remote = names(&["gk", "goalc", "data/iso"]);
    let mut disk = FakeDisk { destination: None, archive: None };
    let mut install = fresh_install();
    assert_eq!(drive(&mut install, &mut disk, &remote, Fault::Nothing), Ok(()));
    assert_eq!(disk.destination, Some(remote));
    assert_eq!(disk.archive, None);
}

#[test]
fn install_clears_old_files() {
    let remote = names(&["gk"]);
    let mut disk = FakeDisk { destination: Some(names(&["old-save", "gk"])), archive: None };
    let mut install = fresh_install();
    assert_eq!(drive(&mut install, &mut disk, &remote, Fault::Nothing), Ok(()));
    assert_eq!(disk.destination, Some(names(&["gk"])));
}

#[test]
fn download_failure_leaves_empty_destination() {
    let mut disk = FakeDisk { destination: Some(names(&["old"])), archive: None };
    let mut install = fresh_install();
    let result = drive(&mut install, &mut disk, &names(&["gk"]), Fault::Download);
    assert_eq!(result, Err(InstallError::DownloadFailed));
    assert_eq!(disk.destination, Some(BTreeSet::new()));
    assert_eq!(disk.archive, None);
}

#[test]
fn failed_extraction_then_retry() {
    let remote = names(&["gk", "goalc"]);
    let mut disk = FakeDisk { destination: Some(names(&["stale"])), archive: None };
    let mut first = fresh_install();
    assert_eq!(drive(&mut first, &mut disk, &remote, Fault::Extract), Err(InstallError::ExtractFailed));
    assert_eq!(disk.archive, None);
    let partial = disk.destination.clone().unwrap();
    assert!(partial.is_subset(&remote));
    assert!(!partial.contains("stale"));
    let mut second = fresh_install();
    assert_eq!(drive(&mut second, &mut disk, &remote, Fault::Nothing), Ok(()));
    assert_eq!(disk.destination, Some(remote));
    assert_eq!(disk.archive, None);
}

#[test]
fn stage_sequence_of_a_successful_install() {
    let mut install = fresh_install();
    let expected = [
        InstallStage::CreateDestination,
        InstallStage::Download,
        InstallStage::Extract,
        InstallStage::RemoveArchive,
        InstallStage::Succeeded,
    ];
    for stage in expected {
        install.advance(true);
        assert_eq!(install.stage, stage);
    }
    install.advance(false);
    assert_eq!(install.outcome(), Some(Ok(())));
}

#[test]
fn failures_at_each_stage() {
    let cases = [
        (0, InstallError::CleanupFailed, 1),
        (1, InstallError::CleanupFailed, 2),
        (2, InstallError::DownloadFailed, 4),
        (3, InstallError::ExtractFailed, 5),
        (4, InstallError::CleanupFailed, 5),
    ];
    for (failing, error, steps) in cases {
        let mut install = fresh_install();
        let mut taken = 0;
        while install.outcome().is_none() {
            install.advance(taken != failing);
            taken += 1;
        }
        assert_eq!(install.outcome(), Some(Err(error)));
        assert_eq!(taken, steps);
    }
}

#[test]
fn archive_names_follow_the_platform_format() {
    let mut install = fresh_install();
    assert_eq!(install.archive_file_name(), "v0.2.5.tar.gz");
    install.kind = ArchiveKind::Zip;
    assert_eq!(install.archive_file_name(), "v0.2.5.zip");
}

#[test]
fn planning_needs_a_directory_and_a_format() {
    let mut cfg = LauncherConfig::new();
    let plan = |cfg: &LauncherConfig, kind| {
        plan_version_download(cfg, "v0.2.5".to_string(), "official".to_string(), "https://example.invalid/a".to_string(), kind)
    };
    assert!(matches!(plan(&cfg, Some(ArchiveKind::Zip)), Err(InstallError::ConfigurationError)));
    cfg.installation_dir = Some("/games".to_string());
    assert!(matches!(plan(&cfg, None), Err(InstallError::UnsupportedPlatform)));
    let install = plan(&cfg, Some(ArchiveKind::Zip)).ok().unwrap();
    assert_eq!(install.installation_dir, "/games");
    assert_eq!(install.version_folder, "official");
    assert_eq!(install.version, "v0.2.5");
    assert_eq!(install.stage, InstallStage::ClearDestination);
    assert_eq!(install.kind, ArchiveKind::Zip);
}

use launcher::bookkeeping::{
    finalize_installation, get_installed_version, get_installed_version_folder, is_game_installed,
    is_game_installed_impl,
};
use launcher::config::LauncherConfig;
use launcher::error::{CommandError, ConfigProblem};
use launcher::games::{diskspace_threshold_for_fresh_install, SupportedGame};

#[test]
fn blank_version_is_not_installed_and_clears_folder() {
    let mut cfg = LauncherConfig::new();
    cfg.jak1.is_installed = true;
    cfg.jak1.version = Some(String::new());
    cfg.jak1.version_folder = Some("v1".to_string());
    assert!(!is_game_installed(&mut cfg, "jak1"));
    assert!(!cfg.jak1.is_installed);
    assert_eq!(cfg.jak1.version_folder, None);
    assert_eq!(get_installed_version_folder(&cfg, "jak1"), "");
    assert_eq!(get_installed_version(&cfg, "jak1"), "");
}

#[test]
fn blank_version_is_cleared_even_when_not_marked_installed() {
    let mut cfg = LauncherConfig::new();
    cfg.jak1.version = Some(String::new());
    cfg.jak1.version_folder = Some("v1".to_string());
    assert!(!is_game_installed(&mut cfg, "jak1"));
    assert_eq!(cfg.jak1.version_folder, None);
    assert_eq!(get_installed_version_folder(&cfg, "jak1"), "");
}

#[test]
fn blank_version_marks_game_uninstalled_in_impl() {
    let mut cfg = LauncherConfig::new();
    cfg.jak2.version = Some(String::new());
    cfg.jak2.version_folder = Some("v1".to_string());
    assert_eq!(is_game_installed_impl(&mut cfg, "jak2"), Ok(false));
    assert_eq!(cfg.jak2.version_folder, None);
}

#[test]
fn recorded_version_counts_as_installed() {
    let mut cfg = LauncherConfig::new();
    cfg.jak1.is_installed = true;
    cfg.jak1.version = Some("v0.2.1".to_string());
    cfg.jak1.version_folder = Some("official".to_string());
    assert!(is_game_installed(&mut cfg, "jak1"));
    assert_eq!(is_game_installed_impl(&mut cfg, "jak1"), Ok(true));
    assert_eq!(cfg.jak1.version_folder, Some("official".to_string()));
}

#[test]
fn game_not_marked_installed_is_not_installed() {
    let mut cfg = LauncherConfig::new();
    cfg.jak3.version = Some("v0.2.1".to_string());
    cfg.jak3.version_folder = Some("official".to_string());
    assert!(!is_game_installed(&mut cfg, "jak3"));
    assert_eq!(cfg.jak3.version, Some("v0.2.1".to_string()));
}

#[test]
fn unknown_game_is_not_installed() {
    let mut cfg = LauncherConfig::new();
    assert!(!is_game_installed(&mut cfg, "jak4"));
    assert_eq!(
        is_game_installed_impl(&mut cfg, "jak4"),
        Err(CommandError::Configuration(ConfigProblem::GameNotConfigured))
    );
}

#[test]
fn finalize_records_active_version() {
    let mut cfg = LauncherConfig::new();
    cfg.active_version = Some("v0.2.5".to_string());
    cfg.active_version_folder = Some("official".to_string());
    assert_eq!(finalize_installation(&mut cfg, "jakx"), Ok(()));
    assert!(cfg.jakx.is_installed);
    assert_eq!(get_installed_version(&cfg, "jakx"), "v0.2.5");
    assert_eq!(get_installed_version_folder(&cfg, "jakx"), "official");
    assert!(is_game_installed(&mut cfg, "jakx"));
    assert_eq!(
        finalize_installation(&mut cfg, "daxter"),
        Err(CommandError::Configuration(ConfigProblem::GameNotConfigured))
    );
}

#[test]
fn game_names_resolve() {
    assert_eq!(SupportedGame::from_name("jak1"), Some(SupportedGame::Jak1));
    assert_eq!(SupportedGame::from_name("jak2"), Some(SupportedGame::Jak2));
    assert_eq!(SupportedGame::from_name("jak3"), Some(SupportedGame::Jak3));
    assert_eq!(SupportedGame::from_name("jakx"), Some(SupportedGame::JakX));
    assert_eq!(SupportedGame::from_name("Jak1"), None);
    assert_eq!(SupportedGame::from_name(""), None);
}

#[test]
fn fresh_install_thresholds() {
    assert_eq!(diskspace_threshold_for_fresh_install("jak1"), Ok(4 * 1024 * 1024 * 1024));
    assert_eq!(diskspace_threshold_for_fresh_install("jak2"), Ok(11 * 1024 * 1024 * 1024));
    assert_eq!(diskspace_threshold_for_fresh_install("jak3"), Ok(11 * 1024 * 1024 * 1024));
    assert_eq!(diskspace_threshold_for_fresh_install("jakx"), Ok(11 * 1024 * 1024 * 1024));
    assert_eq!(
        diskspace_threshold_for_fresh_install("jak4"),
        Err(CommandError::UnknownGame("jak4".to_string()))
    );
}

use launcher::config::LauncherConfig;
use launcher::error::{CommandError, ConfigProblem};
use launcher::tooling::{
    does_active_tooling_version_meet_minimum, does_active_tooling_version_support_game,
    is_minimum_vcc_runtime_installed, strip_v_prefix, ToolingVersion,
};

fn active(label: &str) -> LauncherConfig {
    let mut cfg = LauncherConfig::new();
    cfg.active_version = Some(label.to_string());
    cfg
}

fn release(major: u64, minor: u64, patch: u64) -> ToolingVersion {
    ToolingVersion { major, minor, patch, pre: String::new() }
}

#[test]
fn labels_parse_without_the_v() {
    let v = ToolingVersion::from_label("v0.1.44", 9, 9, 9);
    assert_eq!((v.major, v.minor, v.patch, v.pre.as_str()), (0, 1, 44, ""));
    let v = ToolingVersion::from_label("1.2.3-rc.1+build5", 9, 9, 9);
    assert_eq!((v.major, v.minor, v.patch, v.pre.as_str()), (1, 2, 3, "rc.1"));
    let v = ToolingVersion::from_label("v1.0", 0, 1, 37);
    assert_eq!((v.major, v.minor, v.patch, v.pre.as_str()), (0, 1, 37, ""));
    assert_eq!(strip_v_prefix("v0.2.0"), "0.2.0");
    assert_eq!(strip_v_prefix("0.2.0"), "0.2.0");
    assert_eq!(strip_v_prefix("vv1"), "v1");
}

#[test]
fn precedence_against_a_release() {
    assert!(release(0, 1, 44).is_at_least(0, 1, 44));
    assert!(release(0, 2, 0).is_at_least(0, 1, 44));
    assert!(release(1, 0, 0).is_at_least(0, 9, 99));
    assert!(!release(0, 1, 43).is_at_least(0, 1, 44));
    assert!(!release(0, 0, 99).is_at_least(0, 1, 0));
    let pre = ToolingVersion { major: 0, minor: 1, patch: 44, pre: "rc1".to_string() };
    assert!(!pre.is_at_least(0, 1, 44));
    assert!(pre.is_at_least(0, 1, 43));
}

#[test]
fn active_version_meets_minimum() {
    assert!(does_active_tooling_version_meet_minimum(&active("v0.1.44"), 44, 1, 0));
    assert!(!does_active_tooling_version_meet_minimum(&active("v0.1.44-rc1"), 44, 1, 0));
    assert!(!does_active_tooling_version_meet_minimum(&active("v0.1.43"), 44, 1, 0));
    assert!(does_active_tooling_version_meet_minimum(&active("garbage"), 0, 0, 0));
    assert!(!does_active_tooling_version_meet_minimum(&active("garbage"), 1, 0, 0));
    assert!(!does_active_tooling_version_meet_minimum(&LauncherConfig::new(), 0, 0, 0));
}

#[test]
fn game_support_by_tooling_version() {
    assert!(does_active_tooling_version_support_game(&active("v0.0.1"), "jak1"));
    assert!(does_active_tooling_version_support_game(&active("v0.1.44"), "jak2"));
    assert!(!does_active_tooling_version_support_game(&active("v0.1.43"), "jak2"));
    assert!(does_active_tooling_version_support_game(&active("v0.2.0"), "jak2"));
    assert!(!does_active_tooling_version_support_game(&active("nonsense"), "jak2"));
    assert!(!does_active_tooling_version_support_game(&active("v9.9.9"), "jak3"));
    assert!(!does_active_tooling_version_support_game(&LauncherConfig::new(), "jak1"));
}

#[test]
fn runtime_minimum() {
    assert_eq!(is_minimum_vcc_runtime_installed(Some(release(14, 40, 33810))), Ok(true));
    assert_eq!(is_minimum_vcc_runtime_installed(Some(release(14, 41, 0))), Ok(true));
    assert_eq!(is_minimum_vcc_runtime_installed(Some(release(14, 38, 33130))), Ok(false));
    assert_eq!(
        is_minimum_vcc_runtime_installed(None),
        Err(CommandError::Configuration(ConfigProblem::RuntimeVersionUnknown))
    );
}

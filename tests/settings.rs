use launcher::config::LauncherConfig;
use launcher::error::{CommandError, ConfigProblem};
use launcher::settings::{
    cleanup_enabled_texture_packs, get_active_tooling_version, get_active_tooling_version_folder,
    get_bypass_requirements, get_check_for_latest_mod_version, get_enabled_texture_packs,
    get_install_directory, get_locale, get_playtime, get_proceed_after_successful_operation,
    is_rip_collision_enabled, is_rip_levels_enabled, is_rip_streamed_audio_enabled,
    is_rip_textures_enabled, reset_to_defaults, save_active_version_change,
    set_bypass_requirements, set_check_for_latest_mod_version, set_enabled_texture_packs,
    set_install_directory, set_locale, set_rip_collision_enabled, set_rip_levels_enabled,
    set_rip_streamed_audio_enabled, set_rip_textures_enabled,
};

fn packs(names: &[&str]) -> Vec<String> {
    names.iter().map(|n| n.to_string()).collect()
}

#[test]
fn defaults_of_a_new_configuration() {
    let cfg = LauncherConfig::new();
    assert_eq!(get_install_directory(&cfg), None);
    assert_eq!(get_locale(&cfg), None);
    assert_eq!(get_active_tooling_version(&cfg), None);
    assert!(!get_bypass_requirements(&cfg));
    assert!(get_check_for_latest_mod_version(&cfg));
    assert!(get_proceed_after_successful_operation(&cfg));
    assert!(!is_rip_levels_enabled(&cfg));
    assert!(!is_rip_collision_enabled(&cfg));
    assert!(!is_rip_textures_enabled(&cfg));
    assert!(!is_rip_streamed_audio_enabled(&cfg));
}

#[test]
fn setters_are_read_back() {
    let mut cfg = LauncherConfig::new();
    set_install_directory(&mut cfg, "/games".to_string());
    set_locale(&mut cfg, "fr-FR".to_string());
    set_bypass_requirements(&mut cfg, true);
    set_check_for_latest_mod_version(&mut cfg, false);
    save_active_version_change(&mut cfg, "official".to_string(), "v0.2.5".to_string());
    assert_eq!(get_install_directory(&cfg), Some("/games".to_string()));
    assert_eq!(get_locale(&cfg), Some("fr-FR".to_string()));
    assert!(get_bypass_requirements(&cfg));
    assert!(!get_check_for_latest_mod_version(&cfg));
    assert_eq!(get_active_tooling_version(&cfg), Some("v0.2.5".to_string()));
    assert_eq!(get_active_tooling_version_folder(&cfg), Some("official".to_string()));
}

#[test]
fn proceed_after_operation_can_be_turned_off() {
    let mut cfg = LauncherConfig::new();
    cfg.proceed_after_successful_operation = Some(false);
    assert!(!get_proceed_after_successful_operation(&cfg));
}

#[test]
fn reset_clears_everything() {
    let mut cfg = LauncherConfig::new();
    set_install_directory(&mut cfg, "/games".to_string());
    set_rip_levels_enabled(&mut cfg, true);
    cfg.jak1.seconds_played = 30;
    reset_to_defaults(&mut cfg);
    assert_eq!(get_install_directory(&cfg), None);
    assert!(!is_rip_levels_enabled(&cfg));
    assert_eq!(get_playtime(&cfg, "jak1"), Ok(0));
}

#[test]
fn rip_settings_are_independent() {
    let mut cfg = LauncherConfig::new();
    set_rip_collision_enabled(&mut cfg, true);
    assert!(is_rip_collision_enabled(&cfg));
    assert!(!is_rip_levels_enabled(&cfg));
    set_rip_textures_enabled(&mut cfg, true);
    set_rip_streamed_audio_enabled(&mut cfg, true);
    set_rip_collision_enabled(&mut cfg, false);
    assert!(!is_rip_collision_enabled(&cfg));
    assert!(is_rip_textures_enabled(&cfg));
    assert!(is_rip_streamed_audio_enabled(&cfg));
    set_rip_levels_enabled(&mut cfg, true);
    assert!(is_rip_levels_enabled(&cfg));
}

#[test]
fn texture_packs_set_and_cleaned_up() {
    let mut cfg = LauncherConfig::new();
    assert_eq!(set_enabled_texture_packs(&mut cfg, "jak1", packs(&["hd", "retro", "neon", "hd2"])), Ok(()));
    assert_eq!(get_enabled_texture_packs(&cfg, "jak1"), packs(&["hd", "retro", "neon", "hd2"]));
    assert_eq!(get_enabled_texture_packs(&cfg, "jak2"), packs(&[]));
    assert_eq!(cleanup_enabled_texture_packs(&mut cfg, "jak1", packs(&["retro", "hd2", "gone"])), Ok(()));
    assert_eq!(get_enabled_texture_packs(&cfg, "jak1"), packs(&["hd", "neon"]));
}

#[test]
fn texture_packs_of_unknown_game() {
    let mut cfg = LauncherConfig::new();
    let not_configured = Err(CommandError::Configuration(ConfigProblem::GameNotConfigured));
    assert_eq!(set_enabled_texture_packs(&mut cfg, "jak9", packs(&["hd"])), not_configured);
    assert_eq!(cleanup_enabled_texture_packs(&mut cfg, "jak9", packs(&["hd"])), not_configured);
    assert_eq!(get_enabled_texture_packs(&cfg, "jak9"), packs(&[]));
}

#[test]
fn playtime_of_known_and_unknown_games() {
    let mut cfg = LauncherConfig::new();
    cfg.jak2.seconds_played = 3600;
    assert_eq!(get_playtime(&cfg, "jak2"), Ok(3600));
    assert_eq!(
        get_playtime(&cfg, "jak9"),
        Err(CommandError::Configuration(ConfigProblem::GameNotConfigured))
    );
}

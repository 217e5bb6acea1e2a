use vstd::prelude::*;

use crate::bookkeeping::game_not_configured;
use crate::config::{DecompilerSettings, GameConfig, LauncherConfig, Requirements};
use crate::error::{CommandError, ConfigProblem};
use crate::games::{game_named, SupportedGame};
use crate::text::{copy_all, copy_optional, holds_text, listed};

verus! {

/// Puts every setting back to its default.
pub fn reset_to_defaults(cfg: &mut LauncherConfig)
    ensures
        final(cfg).is_default(),
{
    *cfg = LauncherConfig::new();
}

pub fn get_install_directory(cfg: &LauncherConfig) -> (r: Option<String>)
    ensures
        r == cfg.installation_dir,
{
    copy_optional(&cfg.installation_dir)
}

/// Chooses the directory that games and tooling versions are installed under.
pub fn set_install_directory(cfg: &mut LauncherConfig, new_dir: String)
    ensures
        *final(cfg) == (LauncherConfig { installation_dir: Some(new_dir), ..*old(cfg) }),
{
    cfg.installation_dir = Some(new_dir);
}

/// Makes `new_active_version`, found in `version_folder`, the tooling version
/// in use.
pub fn save_active_version_change(
    cfg: &mut LauncherConfig,
    version_folder: String,
    new_active_version: String,
)
    ensures
        *final(cfg) == (LauncherConfig {
            active_version_folder: Some(version_folder),
            active_version: Some(new_active_version),
            ..*old(cfg)
        }),
{
    cfg.active_version_folder = Some(version_folder);
    cfg.active_version = Some(new_active_version);
}

pub fn get_active_tooling_version(cfg: &LauncherConfig) -> (r: Option<String>)
    ensures
        r == cfg.active_version,
{
    copy_optional(&cfg.active_version)
}

pub fn get_active_tooling_version_folder(cfg: &LauncherConfig) -> (r: Option<String>)
    ensures
        r == cfg.active_version_folder,
{
    copy_optional(&cfg.active_version_folder)
}

pub fn get_locale(cfg: &LauncherConfig) -> (r: Option<String>)
    ensures
        r == cfg.locale,
{
    copy_optional(&cfg.locale)
}

pub fn set_locale(cfg: &mut LauncherConfig, locale: String)
    ensures
        *final(cfg) == (LauncherConfig { locale: Some(locale), ..*old(cfg) }),
{
    cfg.locale = Some(locale);
}

/// Whether the requirement checks are bypassed; they are not unless chosen.
pub fn get_bypass_requirements(cfg: &LauncherConfig) -> (r: bool)
    ensures
        r == (cfg.requirements.bypass_requirements == Some(true)),
{
    match cfg.requirements.bypass_requirements {
        Some(bypass) => bypass,
        None => false,
    }
}

pub fn set_bypass_requirements(cfg: &mut LauncherConfig, bypass: bool)
    ensures
        *final(cfg) == (LauncherConfig {
            requirements: Requirements {
                bypass_requirements: Some(bypass),
                ..old(cfg).requirements
            },
            ..*old(cfg)
        }),
{
    cfg.requirements.bypass_requirements = Some(bypass);
}

/// Whether to look for newer mod versions; yes unless chosen otherwise.
pub fn get_check_for_latest_mod_version(cfg: &LauncherConfig) -> (r: bool)
    ensures
        r == (cfg.check_for_latest_mod_version != Some(false)),
{
    match cfg.check_for_latest_mod_version {
        Some(check) => check,
        None => true,
    }
}

pub fn set_check_for_latest_mod_version(cfg: &mut LauncherConfig, check_for_latest_mod_version: bool)
    ensures
        *final(cfg) == (LauncherConfig {
            check_for_latest_mod_version: Some(check_for_latest_mod_version),
            ..*old(cfg)
        }),
{
    cfg.check_for_latest_mod_version = Some(check_for_latest_mod_version);
}

/// Whether to move on by itself after an operation succeeds; yes unless
/// chosen otherwise.
pub fn get_proceed_after_successful_operation(cfg: &LauncherConfig) -> (r: bool)
    ensures
        r == (cfg.proceed_after_successful_operation != Some(false)),
{
    match cfg.proceed_after_successful_operation {
        Some(proceed) => proceed,
        None => true,
    }
}

/// The texture packs enabled for the named game, none for an unknown game.
pub fn get_enabled_texture_packs(cfg: &LauncherConfig, game_name: &str) -> (r: Vec<String>)
    ensures
        r@ == match game_named(game_name@) {
            Some(g) => cfg.game_spec(g).enabled_texture_packs@,
            None => Seq::empty(),
        },
{
    match SupportedGame::from_name(game_name) {
        Some(g) => copy_all(&cfg.game(g).enabled_texture_packs),
        None => Vec::new(),
    }
}

/// Enables exactly `packs` for the named game.
pub fn set_enabled_texture_packs(cfg: &mut LauncherConfig, game_name: &str, packs: Vec<String>) -> (r:
    Result<(), CommandError>)
    ensures
        match game_named(game_name@) {
            Some(g) => r is Ok && *final(cfg) == old(cfg).with_game(
                g,
                GameConfig { enabled_texture_packs: packs, ..old(cfg).game_spec(g) },
            ),
            None => r == Err::<(), CommandError>(game_not_configured()) && *final(cfg) == *old(cfg),
        },
{
    match SupportedGame::from_name(game_name) {
        Some(g) => {
            let entry = cfg.game_mut(g);
            entry.enabled_texture_packs = packs;
            Ok(())
        },
        None => Err(CommandError::Configuration(ConfigProblem::GameNotConfigured)),
    }
}

/// The packs of `packs` that `cleanup_list` does not name, in their order.
pub open spec fn packs_kept(packs: Seq<String>, cleanup_list: Seq<String>) -> Seq<String> {
    packs.filter(|p: String| !listed(cleanup_list, p@))
}

/// Disables, for the named game, every enabled texture pack that
/// `cleanup_list` names (packs that no longer exist on disk).
pub fn cleanup_enabled_texture_packs(
    cfg: &mut LauncherConfig,
    game_name: &str,
    cleanup_list: Vec<String>,
) -> (r: Result<(), CommandError>)
    ensures
        match game_named(game_name@) {
            Some(g) => {
                &&& r is Ok
                &&& final(cfg).game_spec(g).enabled_texture_packs@ == packs_kept(
                    old(cfg).game_spec(g).enabled_texture_packs@,
                    cleanup_list@,
                )
                &&& *final(cfg) == old(cfg).with_game(
                    g,
                    GameConfig {
                        enabled_texture_packs: final(cfg).game_spec(g).enabled_texture_packs,
                        ..old(cfg).game_spec(g)
                    },
                )
            },
            None => r == Err::<(), CommandError>(game_not_configured()) && *final(cfg) == *old(cfg),
        },
{
    let g = match SupportedGame::from_name(game_name) {
        Some(g) => g,
        None => return Err(CommandError::Configuration(ConfigProblem::GameNotConfigured)),
    };
    let packs = &cfg.game(g).enabled_texture_packs;
    let mut kept: Vec<String> = Vec::new();
    let mut i: usize = 0;
    while i < packs.len()
        invariant
            i <= packs@.len(),
            kept@ == packs_kept(packs@.subrange(0, i as int), cleanup_list@),
        decreases packs@.len() - i,
    {
        let ghost before = packs@.subrange(0, i as int);
        let listed_here = holds_text(&cleanup_list, &packs[i]);
        if !listed_here {
            kept.push(packs[i].clone());
        }
        proof {
            let after = packs@.subrange(0, i + 1);
            assert(after.drop_last() =~= before);
            assert(after.last() == packs@[i as int]);
            reveal(Seq::filter);
            assert(packs_kept(after, cleanup_list@) == if !listed_here {
                packs_kept(before, cleanup_list@).push(after.last())
            } else {
                packs_kept(before, cleanup_list@)
            });
        }
        i = i + 1;
    }
    proof {
        assert(packs@.subrange(0, packs@.len() as int) =~= packs@);
    }
    let entry = cfg.game_mut(g);
    entry.enabled_texture_packs = kept;
    Ok(())
}

/// Seconds the named game has been played; an unknown game is an error.
pub fn get_playtime(cfg: &LauncherConfig, game_name: &str) -> (r: Result<u64, CommandError>)
    ensures
        r == match game_named(game_name@) {
            Some(g) => Ok::<u64, CommandError>(cfg.game_spec(g).seconds_played),
            None => Err(game_not_configured()),
        },
{
    match SupportedGame::from_name(game_name) {
        Some(g) => Ok(cfg.game(g).seconds_played),
        None => Err(CommandError::Configuration(ConfigProblem::GameNotConfigured)),
    }
}

/// The decompiler settings, with every choice unset where none were made.
pub open spec fn decompiler_or_unset(s: Option<DecompilerSettings>) -> DecompilerSettings {
    match s {
        Some(settings) => settings,
        None => DecompilerSettings {
            rip_levels_enabled: None,
            rip_collision_enabled: None,
            rip_textures_enabled: None,
            rip_streamed_audio_enabled: None,
        },
    }
}

fn decompiler_settings_of(cfg: &LauncherConfig) -> (r: DecompilerSettings)
    ensures
        r == decompiler_or_unset(cfg.decompiler_settings),
{
    match cfg.decompiler_settings {
        Some(settings) => settings,
        None => DecompilerSettings::new(),
    }
}

pub fn is_rip_levels_enabled(cfg: &LauncherConfig) -> (r: bool)
    ensures
        r == (decompiler_or_unset(cfg.decompiler_settings).rip_levels_enabled == Some(true)),
{
    match decompiler_settings_of(cfg).rip_levels_enabled {
        Some(enabled) => enabled,
        None => false,
    }
}

pub fn set_rip_levels_enabled(cfg: &mut LauncherConfig, enabled: bool)
    ensures
        *final(cfg) == (LauncherConfig {
            decompiler_settings: Some(
                DecompilerSettings {
                    rip_levels_enabled: Some(enabled),
                    ..decompiler_or_unset(old(cfg).decompiler_settings)
                },
            ),
            ..*old(cfg)
        }),
{
    let mut settings = decompiler_settings_of(cfg);
    settings.rip_levels_enabled = Some(enabled);
    cfg.decompiler_settings = Some(settings);
}

pub fn is_rip_collision_enabled(cfg: &LauncherConfig) -> (r: bool)
    ensures
        r == (decompiler_or_unset(cfg.decompiler_settings).rip_collision_enabled == Some(true)),
{
    match decompiler_settings_of(cfg).rip_collision_enabled {
        Some(enabled) => enabled,
        None => false,
    }
}

pub fn set_rip_collision_enabled(cfg: &mut LauncherConfig, enabled: bool)
    ensures
        *final(cfg) == (LauncherConfig {
            decompiler_settings: Some(
                DecompilerSettings {
                    rip_collision_enabled: Some(enabled),
                    ..decompiler_or_unset(old(cfg).decompiler_settings)
                },
            ),
            ..*old(cfg)
        }),
{
    let mut settings = decompiler_settings_of(cfg);
    settings.rip_collision_enabled = Some(enabled);
    cfg.decompiler_settings = Some(settings);
}

pub fn is_rip_textures_enabled(cfg: &LauncherConfig) -> (r: bool)
    ensures
        r == (decompiler_or_unset(cfg.decompiler_settings).rip_textures_enabled == Some(true)),
{
    match decompiler_settings_of(cfg).rip_textures_enabled {
        Some(enabled) => enabled,
        None => false,
    }
}

pub fn set_rip_textures_enabled(cfg: &mut LauncherConfig, enabled: bool)
    ensures
        *final(cfg) == (LauncherConfig {
            decompiler_settings: Some(
                DecompilerSettings {
                    rip_textures_enabled: Some(enabled),
                    ..decompiler_or_unset(old(cfg).decompiler_settings)
                },
            ),
            ..*old(cfg)
        }),
{
    let mut settings = decompiler_settings_of(cfg);
    settings.rip_textures_enabled = Some(enabled);
    cfg.decompiler_settings = Some(settings);
}

pub fn is_rip_streamed_audio_enabled(cfg: &LauncherConfig) -> (r: bool)
    ensures
        r == (decompiler_or_unset(cfg.decompiler_settings).rip_streamed_audio_enabled == Some(
            true,
        )),
{
    match decompiler_settings_of(cfg).rip_streamed_audio_enabled {
        Some(enabled) => enabled,
        None => false,
    }
}

pub fn set_rip_streamed_audio_enabled(cfg: &mut LauncherConfig, enabled: bool)
    ensures
        *final(cfg) == (LauncherConfig {
            decompiler_settings: Some(
                DecompilerSettings {
                    rip_streamed_audio_enabled: Some(enabled),
                    ..decompiler_or_unset(old(cfg).decompiler_settings)
                },
            ),
            ..*old(cfg)
        }),
{
    let mut settings = decompiler_settings_of(cfg);
    settings.rip_streamed_audio_enabled = Some(enabled);
    cfg.decompiler_settings = Some(settings);
}

} // verus!

use vstd::prelude::*;

use crate::config::{text_or_blank, GameConfig, LauncherConfig};
use crate::error::{CommandError, ConfigProblem};
use crate::games::{game_named, SupportedGame};
use crate::text::copy_optional;

verus! {

/// The entry of a game once it is recorded as installed (with the active
/// version and version folder) or as not installed (with neither).
pub open spec fn recorded_install(
    entry: GameConfig,
    installed: bool,
    active_version: Option<String>,
    active_version_folder: Option<String>,
) -> GameConfig {
    if installed {
        GameConfig {
            is_installed: true,
            version: active_version,
            version_folder: active_version_folder,
            ..entry
        }
    } else {
        GameConfig { is_installed: false, version: None, version_folder: None, ..entry }
    }
}

/// `cfg` with game `g` recorded as installed or not.
pub open spec fn with_install_recorded(
    cfg: LauncherConfig,
    g: SupportedGame,
    installed: bool,
) -> LauncherConfig {
    cfg.with_game(
        g,
        recorded_install(
            cfg.game_spec(g),
            installed,
            cfg.active_version,
            cfg.active_version_folder,
        ),
    )
}

pub open spec fn game_not_configured() -> CommandError {
    CommandError::Configuration(ConfigProblem::GameNotConfigured)
}

/// The recorded version of the named game, blank for an unknown game.
pub open spec fn installed_version_of(cfg: LauncherConfig, name: Seq<char>) -> Seq<char> {
    match game_named(name) {
        Some(g) => text_or_blank(cfg.game_spec(g).version),
        None => Seq::empty(),
    }
}

/// The recorded version folder of the named game, blank for an unknown game.
pub open spec fn installed_version_folder_of(cfg: LauncherConfig, name: Seq<char>) -> Seq<char> {
    match game_named(name) {
        Some(g) => text_or_blank(cfg.game_spec(g).version_folder),
        None => Seq::empty(),
    }
}

impl LauncherConfig {
    /// Records game `g` as installed with the active version, or as not
    /// installed.
    pub fn update_installed_game_version(&mut self, g: SupportedGame, installed: bool)
        ensures
            *final(self) == with_install_recorded(*old(self), g, installed),
    {
        let version = if installed {
            copy_optional(&self.active_version)
        } else {
            None
        };
        let version_folder = if installed {
            copy_optional(&self.active_version_folder)
        } else {
            None
        };
        let entry = self.game_mut(g);
        entry.is_installed = installed;
        entry.version = version;
        entry.version_folder = version_folder;
    }
}

/// Records the named game as installed with the active version.
pub fn finalize_installation(cfg: &mut LauncherConfig, game_name: &str) -> (r: Result<
    (),
    CommandError,
>)
    ensures
        match game_named(game_name@) {
            Some(g) => r is Ok && *final(cfg) == with_install_recorded(*old(cfg), g, true),
            None => r == Err::<(), CommandError>(game_not_configured()) && *final(cfg) == *old(cfg),
        },
{
    match SupportedGame::from_name(game_name) {
        Some(g) => {
            cfg.update_installed_game_version(g, true);
            Ok(())
        },
        None => Err(CommandError::Configuration(ConfigProblem::GameNotConfigured)),
    }
}

/// Whether the named game has both a version and a version folder recorded.
/// A game with either blank is marked not installed, which clears both.
pub fn is_game_installed_impl(cfg: &mut LauncherConfig, game_name: &str) -> (r: Result<
    bool,
    CommandError,
>)
    ensures
        match game_named(game_name@) {
            Some(g) => if old(cfg).game_spec(g).has_recorded_version() {
                r == Ok::<bool, CommandError>(true) && *final(cfg) == *old(cfg)
            } else {
                r == Ok::<bool, CommandError>(false) && *final(cfg) == with_install_recorded(
                    *old(cfg),
                    g,
                    false,
                )
            },
            None => r == Err::<bool, CommandError>(game_not_configured()) && *final(cfg)
                == *old(cfg),
        },
{
    match SupportedGame::from_name(game_name) {
        Some(g) => {
            let entry = cfg.game(g);
            let version_blank = match &entry.version {
                Some(v) => v.as_str().is_empty(),
                None => true,
            };
            let folder_blank = match &entry.version_folder {
                Some(v) => v.as_str().is_empty(),
                None => true,
            };
            if version_blank || folder_blank {
                cfg.update_installed_game_version(g, false);
                Ok(false)
            } else {
                Ok(true)
            }
        },
        None => Err(CommandError::Configuration(ConfigProblem::GameNotConfigured)),
    }
}

/// Whether the named game is installed: marked so, with a version and a
/// version folder recorded. A game with either of them blank is marked not
/// installed, which clears both, whatever it was marked before.
pub fn is_game_installed(cfg: &mut LauncherConfig, game_name: &str) -> (r: bool)
    ensures
        match game_named(game_name@) {
            Some(g) => {
                let entry = old(cfg).game_spec(g);
                &&& r == (entry.is_installed && entry.has_recorded_version())
                &&& *final(cfg) == if entry.has_recorded_version() {
                    *old(cfg)
                } else {
                    with_install_recorded(*old(cfg), g, false)
                }
            },
            None => !r && *final(cfg) == *old(cfg),
        },
{
    match SupportedGame::from_name(game_name) {
        Some(g) => {
            let marked = cfg.game(g).is_installed;
            match is_game_installed_impl(cfg, game_name) {
                Ok(recorded) => marked && recorded,
                Err(_) => false,
            }
        },
        None => false,
    }
}

/// The version recorded for the named game, blank if none.
pub fn get_installed_version(cfg: &LauncherConfig, game_name: &str) -> (r: String)
    ensures
        r@ == installed_version_of(*cfg, game_name@),
{
    match SupportedGame::from_name(game_name) {
        Some(g) => match &cfg.game(g).version {
            Some(v) => v.clone(),
            None => String::new(),
        },
        None => String::new(),
    }
}

/// The version folder recorded for the named game, blank if none.
pub fn get_installed_version_folder(cfg: &LauncherConfig, game_name: &str) -> (r: String)
    ensures
        r@ == installed_version_folder_of(*cfg, game_name@),
{
    match SupportedGame::from_name(game_name) {
        Some(g) => match &cfg.game(g).version_folder {
            Some(v) => v.clone(),
            None => String::new(),
        },
        None => String::new(),
    }
}

} // verus!

use vstd::prelude::*;

use crate::games::SupportedGame;

verus! {

/// Cached results of the hardware and disk requirement checks. `None` means
/// that the check has not run yet (or its result was discarded).
#[derive(Clone, Copy, Debug, PartialEq, Eq, Structural)]
pub struct Requirements {
    pub bypass_requirements: Option<bool>,
    pub avx: Option<bool>,
    pub opengl: Option<bool>,
}

/// Which optional assets the decompiler extracts.
#[derive(Clone, Copy, Debug, PartialEq, Eq, Structural)]
pub struct DecompilerSettings {
    pub rip_levels_enabled: Option<bool>,
    pub rip_collision_enabled: Option<bool>,
    pub rip_textures_enabled: Option<bool>,
    pub rip_streamed_audio_enabled: Option<bool>,
}

/// What the launcher records of one game.
pub struct GameConfig {
    pub is_installed: bool,
    pub version: Option<String>,
    pub version_folder: Option<String>,
    pub seconds_played: u64,
    pub enabled_texture_packs: Vec<String>,
}

/// The launcher's whole configuration, as held in memory; loading and saving
/// it is left to the caller.
pub struct LauncherConfig {
    pub installation_dir: Option<String>,
    pub active_version: Option<String>,
    pub active_version_folder: Option<String>,
    pub locale: Option<String>,
    pub requirements: Requirements,
    pub check_for_latest_mod_version: Option<bool>,
    pub decompiler_settings: Option<DecompilerSettings>,
    pub proceed_after_successful_operation: Option<bool>,
    pub jak1: GameConfig,
    pub jak2: GameConfig,
    pub jak3: GameConfig,
    pub jakx: GameConfig,
}

/// The text of an optional string field, blank when it is unset.
pub open spec fn text_or_blank(s: Option<String>) -> Seq<char> {
    match s {
        Some(t) => t@,
        None => Seq::empty(),
    }
}

impl GameConfig {
    pub open spec fn is_fresh(&self) -> bool {
        &&& !self.is_installed
        &&& self.version is None
        &&& self.version_folder is None
        &&& self.seconds_played == 0
        &&& self.enabled_texture_packs@.len() == 0
    }

    /// A game that was never installed nor played.
    pub fn new() -> (r: GameConfig)
        ensures
            r.is_fresh(),
    {
        GameConfig {
            is_installed: false,
            version: None,
            version_folder: None,
            seconds_played: 0,
            enabled_texture_packs: Vec::new(),
        }
    }

    /// A version and a version folder are both recorded, and neither is blank.
    pub open spec fn has_recorded_version(&self) -> bool {
        text_or_blank(self.version).len() > 0 && text_or_blank(self.version_folder).len() > 0
    }
}

impl DecompilerSettings {
    pub open spec fn is_unset(&self) -> bool {
        &&& self.rip_levels_enabled is None
        &&& self.rip_collision_enabled is None
        &&& self.rip_textures_enabled is None
        &&& self.rip_streamed_audio_enabled is None
    }

    pub fn new() -> (r: DecompilerSettings)
        ensures
            r.is_unset(),
    {
        DecompilerSettings {
            rip_levels_enabled: None,
            rip_collision_enabled: None,
            rip_textures_enabled: None,
            rip_streamed_audio_enabled: None,
        }
    }
}

impl LauncherConfig {
    pub open spec fn is_default(&self) -> bool {
        &&& self.installation_dir is None
        &&& self.active_version is None
        &&& self.active_version_folder is None
        &&& self.locale is None
        &&& self.requirements == Requirements {
            bypass_requirements: None,
            avx: None,
            opengl: None,
        }
        &&& self.check_for_latest_mod_version is None
        &&& self.decompiler_settings is None
        &&& self.proceed_after_successful_operation is None
        &&& self.jak1.is_fresh()
        &&& self.jak2.is_fresh()
        &&& self.jak3.is_fresh()
        &&& self.jakx.is_fresh()
    }

    /// A configuration with nothing chosen yet.
    pub fn new() -> (r: LauncherConfig)
        ensures
            r.is_default(),
    {
        LauncherConfig {
            installation_dir: None,
            active_version: None,
            active_version_folder: None,
            locale: None,
            requirements: Requirements { bypass_requirements: None, avx: None, opengl: None },
            check_for_latest_mod_version: None,
            decompiler_settings: None,
            proceed_after_successful_operation: None,
            jak1: GameConfig::new(),
            jak2: GameConfig::new(),
            jak3: GameConfig::new(),
            jakx: GameConfig::new(),
        }
    }

    pub open spec fn game_spec(&self, g: SupportedGame) -> GameConfig {
        match g {
            SupportedGame::Jak1 => self.jak1,
            SupportedGame::Jak2 => self.jak2,
            SupportedGame::Jak3 => self.jak3,
            SupportedGame::JakX => self.jakx,
        }
    }

    /// This configuration with the entry of `g` replaced by `c`.
    pub open spec fn with_game(self, g: SupportedGame, c: GameConfig) -> LauncherConfig {
        match g {
            SupportedGame::Jak1 => LauncherConfig { jak1: c, ..self },
            SupportedGame::Jak2 => LauncherConfig { jak2: c, ..self },
            SupportedGame::Jak3 => LauncherConfig { jak3: c, ..self },
            SupportedGame::JakX => LauncherConfig { jakx: c, ..self },
        }
    }

    pub fn game(&self, g: SupportedGame) -> (r: &GameConfig)
        ensures
            *r == self.game_spec(g),
    {
        match g {
            SupportedGame::Jak1 => &self.jak1,
            SupportedGame::Jak2 => &self.jak2,
            SupportedGame::Jak3 => &self.jak3,
            SupportedGame::JakX => &self.jakx,
        }
    }

    pub fn game_mut(&mut self, g: SupportedGame) -> (r: &mut GameConfig)
        ensures
            *r == old(self).game_spec(g),
            *final(self) == old(self).with_game(g, *final(r)),
    {
        match g {
            SupportedGame::Jak1 => &mut self.jak1,
            SupportedGame::Jak2 => &mut self.jak2,
            SupportedGame::Jak3 => &mut self.jak3,
            SupportedGame::JakX => &mut self.jakx,
        }
    }
}

} // verus!

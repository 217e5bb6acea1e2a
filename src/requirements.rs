use vstd::prelude::*;

use crate::bookkeeping::{is_game_installed_impl, with_install_recorded};
use crate::config::{LauncherConfig, Requirements};
use crate::disks::{
    backing_disk,
    find_backing_disk,
    is_backing,
    is_deepest,
    lemma_deepest_is_unique,
    mount_flags,
    mounted_disks,
    MountedDisk,
};
use crate::error::{CommandError, ConfigProblem};
use crate::games::{
    diskspace_threshold_for_fresh_install,
    fresh_install_threshold,
    game_named,
    SupportedGame,
};
use crate::tooling::{lacks_gpu_test, tooling_version_of, ToolingVersion};

verus! {

pub open spec fn bypassed(cfg: LauncherConfig) -> bool {
    cfg.requirements.bypass_requirements == Some(true)
}

/// The answer of the disk-space check for a game that is not installed yet,
/// given the drives mounted now.
pub open spec fn disk_check_outcome(
    cfg: LauncherConfig,
    g: SupportedGame,
    disks: Seq<MountedDisk>,
) -> Result<bool, CommandError> {
    if bypassed(cfg) {
        Ok(true)
    } else {
        match cfg.installation_dir {
            None => Err(CommandError::Configuration(ConfigProblem::NoInstallDirectory)),
            Some(dir) => match backing_disk(disks, dir@) {
                Some(d) => Ok(d.available_space >= fresh_install_threshold(g)),
                None => Err(CommandError::Configuration(ConfigProblem::NoBackingDisk)),
            },
        }
    }
}

/// What the disk-space check answers for a name that is no supported game:
/// nothing is recorded for it and nothing healed, so it gets as far as the
/// threshold lookup, which refuses the name.
pub open spec fn unknown_game_outcome(
    cfg: LauncherConfig,
    name: Seq<char>,
    r: Result<bool, CommandError>,
) -> bool {
    if bypassed(cfg) {
        r == Ok::<bool, CommandError>(true)
    } else if cfg.installation_dir is None {
        r == Err::<bool, CommandError>(
            CommandError::Configuration(ConfigProblem::NoInstallDirectory),
        )
    } else {
        r is Err && r->Err_0 is UnknownGame && r->Err_0->UnknownGame_0@ == name
    }
}

/// Whether the drive backing the installation directory, among `disks`, has
/// room for a fresh install of the named game. A game with a version recorded
/// passes without a look at the drives; one without is first marked not
/// installed.
pub fn check_diskspace_requirement(
    cfg: &mut LauncherConfig,
    game_name: &str,
    disks: &Vec<MountedDisk>,
) -> (r: Result<bool, CommandError>)
    ensures
        match game_named(game_name@) {
            None => unknown_game_outcome(*old(cfg), game_name@, r) && *final(cfg) == *old(cfg),
            Some(g) => if old(cfg).game_spec(g).has_recorded_version() {
                r == Ok::<bool, CommandError>(true) && *final(cfg) == *old(cfg)
            } else {
                &&& *final(cfg) == with_install_recorded(*old(cfg), g, false)
                &&& r == disk_check_outcome(*final(cfg), g, disks@)
            },
        },
{
    if SupportedGame::from_name(game_name).is_some() {
        match is_game_installed_impl(cfg, game_name) {
            Err(e) => return Err(e),
            Ok(true) => return Ok(true),
            Ok(false) => {},
        }
    }
    if let Some(true) = cfg.requirements.bypass_requirements {
        return Ok(true);
    }
    let install_dir = match &cfg.installation_dir {
        None => return Err(CommandError::Configuration(ConfigProblem::NoInstallDirectory)),
        Some(dir) => dir,
    };
    let minimum = match diskspace_threshold_for_fresh_install(game_name) {
        Ok(bytes) => bytes,
        Err(e) => return Err(e),
    };
    match find_backing_disk(install_dir.as_str(), disks) {
        Some(i) => Ok(disks[i].available_space >= minimum),
        None => Err(CommandError::Configuration(ConfigProblem::NoBackingDisk)),
    }
}

/// The disk-space check on the drives mounted now. For a game that is not
/// installed, the answer is the one for some list of drives: which list is
/// up to the host.
pub fn is_diskspace_requirement_met(cfg: &mut LauncherConfig, game_name: &str) -> (r: Result<
    bool,
    CommandError,
>)
    ensures
        match game_named(game_name@) {
            None => unknown_game_outcome(*old(cfg), game_name@, r) && *final(cfg) == *old(cfg),
            Some(g) => if old(cfg).game_spec(g).has_recorded_version() {
                r == Ok::<bool, CommandError>(true) && *final(cfg) == *old(cfg)
            } else {
                &&& *final(cfg) == with_install_recorded(*old(cfg), g, false)
                &&& exists|ds: Seq<MountedDisk>| r == disk_check_outcome(*final(cfg), g, ds)
                &&& bypassed(*old(cfg)) ==> r == Ok::<bool, CommandError>(true)
                &&& !bypassed(*old(cfg)) && old(cfg).installation_dir is None ==> r == Err::<
                    bool,
                    CommandError,
                >(CommandError::Configuration(ConfigProblem::NoInstallDirectory))
                &&& r is Ok || r == Err::<bool, CommandError>(
                    CommandError::Configuration(ConfigProblem::NoInstallDirectory),
                ) || r == Err::<bool, CommandError>(
                    CommandError::Configuration(ConfigProblem::NoBackingDisk),
                )
            },
        },
{
    let disks = mounted_disks();
    let r = check_diskspace_requirement(cfg, game_name, &disks);
    proof {
        if let Some(g) = game_named(game_name@) {
            if !old(cfg).game_spec(g).has_recorded_version() {
                assert(r == disk_check_outcome(*cfg, g, disks@));
            }
        }
    }
    r
}

/// Low space: a game not installed, checks not bypassed, and a backing drive
/// with fewer free bytes than the game needs: the requirement is not met.
pub proof fn lemma_low_disk_space_not_met(
    cfg: LauncherConfig,
    g: SupportedGame,
    disks: Seq<MountedDisk>,
    i: int,
)
    requires
        !cfg.game_spec(g).has_recorded_version(),
        !bypassed(cfg),
        cfg.installation_dir is Some,
        is_backing(disks, cfg.installation_dir->Some_0@, i),
        disks[i].available_space < fresh_install_threshold(g),
    ensures
        disk_check_outcome(with_install_recorded(cfg, g, false), g, disks) == Ok::<
            bool,
            CommandError,
        >(false),
{
    let above = mount_flags(disks, cfg.installation_dir->Some_0@);
    let k = choose|k: int| is_deepest(disks, above, k);
    lemma_deepest_is_unique(disks, above, i, k);
}

/// Bypass: with the checks bypassed, the disk-space requirement is met
/// whatever the drives hold.
pub proof fn lemma_bypass_always_met(cfg: LauncherConfig, g: SupportedGame, disks: Seq<MountedDisk>)
    requires
        bypassed(cfg),
    ensures
        disk_check_outcome(with_install_recorded(cfg, g, false), g, disks) == Ok::<
            bool,
            CommandError,
        >(true),
{
}

/// The configuration with the cached results replaced by `requirements`.
pub open spec fn with_requirements(cfg: LauncherConfig, requirements: Requirements) -> LauncherConfig {
    LauncherConfig { requirements, ..cfg }
}

/// The cached AVX result, once `force` has discarded it.
pub open spec fn cached_avx(cfg: LauncherConfig, force: bool) -> Option<bool> {
    if force {
        None
    } else {
        cfg.requirements.avx
    }
}

/// Whether the processor has AVX, which the tooling needs. `force` discards
/// the cached answer; with checks bypassed the answer is yes; otherwise the
/// cached answer stands, or `cpu_has_avx` (what the caller probed) is cached
/// and returned.
pub fn is_avx_requirement_met(cfg: &mut LauncherConfig, force: bool, cpu_has_avx: bool) -> (r:
    bool)
    ensures
        ({
            let cached = cached_avx(*old(cfg), force);
            let avx = if bypassed(*old(cfg)) || cached is Some {
                cached
            } else {
                Some(cpu_has_avx)
            };
            &&& *final(cfg) == with_requirements(
                *old(cfg),
                Requirements { avx, ..old(cfg).requirements },
            )
            &&& r == if bypassed(*old(cfg)) {
                true
            } else {
                avx->Some_0
            }
        }),
{
    if force {
        cfg.requirements.avx = None;
    }
    if let Some(true) = cfg.requirements.bypass_requirements {
        return true;
    }
    match cfg.requirements.avx {
        Some(met) => met,
        None => {
            cfg.requirements.avx = Some(cpu_has_avx);
            cpu_has_avx
        },
    }
}

/// What the OpenGL check needs next.
#[derive(Clone, Copy, Debug, PartialEq, Eq, Structural)]
pub enum OpenGlCheck {
    /// The answer is known without a test.
    Known(bool),
    /// The tooling's graphics test must run; its result goes to
    /// `record_opengl_test_result`.
    RunGpuTest,
}

/// The cached OpenGL result, once `force` has discarded it.
pub open spec fn cached_opengl(cfg: LauncherConfig, force: bool) -> Option<bool> {
    if force {
        None
    } else {
        cfg.requirements.opengl
    }
}

/// Whether the graphics driver supports the OpenGL version the tooling
/// needs, as far as it can be told without running the tooling's graphics
/// test. `force` discards the cached answer. Bypassed checks answer yes, as
/// does tooling older than 0.1.38 (an unparsable version counts as 0.1.37),
/// which has no test; otherwise the cached answer stands, or the test must
/// run.
pub fn is_opengl_requirement_met(cfg: &mut LauncherConfig, force: bool) -> (r: Result<
    OpenGlCheck,
    CommandError,
>)
    ensures
        ({
            let cached = cached_opengl(*old(cfg), force);
            &&& *final(cfg) == with_requirements(
                *old(cfg),
                Requirements { opengl: cached, ..old(cfg).requirements },
            )
            &&& r == if bypassed(*old(cfg)) {
                Ok(OpenGlCheck::Known(true))
            } else if cached is Some {
                Ok(OpenGlCheck::Known(cached->Some_0))
            } else {
                match old(cfg).active_version {
                    None => Err(CommandError::Configuration(ConfigProblem::NoActiveVersion)),
                    Some(label) => if lacks_gpu_test(tooling_version_of(label@, (0, 1, 37))) {
                        Ok(OpenGlCheck::Known(true))
                    } else {
                        Ok(OpenGlCheck::RunGpuTest)
                    },
                }
            }
        }),
{
    if force {
        cfg.requirements.opengl = None;
    }
    if let Some(true) = cfg.requirements.bypass_requirements {
        return Ok(OpenGlCheck::Known(true));
    }
    if let Some(met) = cfg.requirements.opengl {
        return Ok(OpenGlCheck::Known(met));
    }
    let label = match &cfg.active_version {
        None => return Err(CommandError::Configuration(ConfigProblem::NoActiveVersion)),
        Some(label) => label,
    };
    if ToolingVersion::from_label(label.as_str(), 0, 1, 37).lacks_gpu_test() {
        Ok(OpenGlCheck::Known(true))
    } else {
        Ok(OpenGlCheck::RunGpuTest)
    }
}

/// Caches the outcome of the tooling's graphics test and returns it.
pub fn record_opengl_test_result(cfg: &mut LauncherConfig, success: bool) -> (r: bool)
    ensures
        r == success,
        *final(cfg) == with_requirements(
            *old(cfg),
            Requirements { opengl: Some(success), ..old(cfg).requirements },
        ),
{
    cfg.requirements.opengl = Some(success);
    success
}

} // verus!

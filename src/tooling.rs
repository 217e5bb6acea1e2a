use vstd::prelude::*;

use crate::config::LauncherConfig;
use crate::error::{CommandError, ConfigProblem};
use crate::games::{game_named, SupportedGame};

verus! {

/// A semantic version as the launcher reads it: the three numbers and the
/// pre-release tag, blank for a release. Build metadata plays no part in any
/// comparison the launcher makes, so it is not kept.
pub struct ToolingVersion {
    pub major: u64,
    pub minor: u64,
    pub patch: u64,
    pub pre: String,
}

impl View for ToolingVersion {
    type V = (u64, u64, u64, Seq<char>);

    open spec fn view(&self) -> (u64, u64, u64, Seq<char>) {
        (self.major, self.minor, self.patch, self.pre@)
    }
}

/// The major, minor and patch numbers and the pre-release tag of `text` read
/// as a semantic version, or `None` where `text` is not one.
pub uninterp spec fn parsed_semver(text: Seq<char>) -> Option<(u64, u64, u64, Seq<char>)>;

/// Relies on `semver::Version::parse`: the version that `text` spells, with
/// its pre-release tag as text (`Prerelease::as_str`), or none where the
/// parse fails.
#[verifier::external_body]
fn parse_semver(text: &str) -> (r: Option<ToolingVersion>)
    ensures
        match r {
            Some(v) => parsed_semver(text@) == Some(v@),
            None => parsed_semver(text@) is None,
        },
{
    match semver::Version::parse(text) {
        Ok(v) => Some(
            ToolingVersion {
                major: v.major,
                minor: v.minor,
                patch: v.patch,
                pre: v.pre.as_str().to_string(),
            },
        ),
        Err(_) => None,
    }
}

/// `text` without one leading `v`, as release tags are written (`v0.2.1`).
pub open spec fn without_v(text: Seq<char>) -> Seq<char> {
    if text.len() > 0 && text[0] == 'v' {
        text.subrange(1, text.len() as int)
    } else {
        text
    }
}

/// The version that a tooling version label names, or `fallback` (a release)
/// where the label is not a semantic version.
pub open spec fn tooling_version_of(label: Seq<char>, fallback: (u64, u64, u64)) -> (
    u64,
    u64,
    u64,
    Seq<char>,
) {
    match parsed_semver(without_v(label)) {
        Some(v) => v,
        None => (fallback.0, fallback.1, fallback.2, Seq::empty()),
    }
}

/// Semantic-version precedence against a release `min`: greater numbers, or
/// the same numbers without a pre-release tag.
pub open spec fn at_least(v: (u64, u64, u64, Seq<char>), min: (u64, u64, u64)) -> bool {
    ||| v.0 > min.0
    ||| v.0 == min.0 && v.1 > min.1
    ||| v.0 == min.0 && v.1 == min.1 && v.2 > min.2
    ||| v.0 == min.0 && v.1 == min.1 && v.2 == min.2 && v.3.len() == 0
}

/// Whether tooling of version `v` can run the named game: every release runs
/// the first game, the second needs 0.1.44 or a later minor version, the
/// others none yet.
pub open spec fn runs_game(v: (u64, u64, u64, Seq<char>), name: Seq<char>) -> bool {
    match game_named(name) {
        Some(SupportedGame::Jak1) => true,
        Some(SupportedGame::Jak2) => v.1 > 1 || v.2 >= 44,
        _ => false,
    }
}

/// Tooling older than 0.1.38 has no built-in graphics test.
pub open spec fn lacks_gpu_test(v: (u64, u64, u64, Seq<char>)) -> bool {
    v.0 == 0 && v.1 <= 1 && v.2 < 38
}

pub fn strip_v_prefix(text: &str) -> (r: &str)
    ensures
        r@ == without_v(text@),
{
    let n = text.unicode_len();
    if n > 0 && text.get_char(0) == 'v' {
        text.substring_char(1, n)
    } else {
        text
    }
}

impl ToolingVersion {
    /// The version named by a tooling version label such as `v0.1.44`, or
    /// `fallback` where the label does not parse.
    pub fn from_label(label: &str, fallback_major: u64, fallback_minor: u64, fallback_patch: u64) -> (r:
        ToolingVersion)
        ensures
            r@ == tooling_version_of(label@, (fallback_major, fallback_minor, fallback_patch)),
    {
        match parse_semver(strip_v_prefix(label)) {
            Some(v) => v,
            None => ToolingVersion {
                major: fallback_major,
                minor: fallback_minor,
                patch: fallback_patch,
                pre: String::new(),
            },
        }
    }

    /// Whether this version has at least the precedence of release
    /// `major.minor.patch`.
    pub fn is_at_least(&self, major: u64, minor: u64, patch: u64) -> (r: bool)
        ensures
            r == at_least(self@, (major, minor, patch)),
    {
        if self.major != major {
            self.major > major
        } else if self.minor != minor {
            self.minor > minor
        } else if self.patch != patch {
            self.patch > patch
        } else {
            self.pre.as_str().is_empty()
        }
    }

    /// Whether tooling of this version can run the named game.
    pub fn supports_game(&self, game_name: &str) -> (r: bool)
        ensures
            r == runs_game(self@, game_name@),
    {
        match SupportedGame::from_name(game_name) {
            Some(SupportedGame::Jak1) => true,
            Some(SupportedGame::Jak2) => self.minor > 1 || self.patch >= 44,
            _ => false,
        }
    }

    /// Whether this tooling predates the built-in graphics test.
    pub fn lacks_gpu_test(&self) -> (r: bool)
        ensures
            r == lacks_gpu_test(self@),
    {
        self.major == 0 && self.minor <= 1 && self.patch < 38
    }
}

/// Whether the active tooling version can run the named game; an unparsable
/// label counts as 0.0.1, and no active version as no support.
pub fn does_active_tooling_version_support_game(cfg: &LauncherConfig, game_name: &str) -> (r: bool)
    ensures
        r == match cfg.active_version {
            Some(label) => runs_game(tooling_version_of(label@, (0, 0, 1)), game_name@),
            None => false,
        },
{
    match &cfg.active_version {
        Some(label) => ToolingVersion::from_label(label.as_str(), 0, 0, 1).supports_game(
            game_name,
        ),
        None => false,
    }
}

/// Whether the active tooling version is at least
/// `minimum_major.minimum_minor.minimum_patch`; an unparsable label counts as
/// 0.0.0, and no active version as too old.
pub fn does_active_tooling_version_meet_minimum(
    cfg: &LauncherConfig,
    minimum_patch: u64,
    minimum_minor: u64,
    minimum_major: u64,
) -> (r: bool)
    ensures
        r == match cfg.active_version {
            Some(label) => at_least(
                tooling_version_of(label@, (0, 0, 0)),
                (minimum_major, minimum_minor, minimum_patch),
            ),
            None => false,
        },
{
    match &cfg.active_version {
        Some(label) => ToolingVersion::from_label(label.as_str(), 0, 0, 0).is_at_least(
            minimum_major,
            minimum_minor,
            minimum_patch,
        ),
        None => false,
    }
}

/// The oldest C++ runtime the tooling runs on.
pub const MINIMUM_RUNTIME_MAJOR: u64 = 14;

pub const MINIMUM_RUNTIME_MINOR: u64 = 40;

pub const MINIMUM_RUNTIME_PATCH: u64 = 33810;

/// Whether the installed C++ runtime (as the host reports it, if it can) is
/// recent enough; a runtime whose version is unknown is an error.
pub fn is_minimum_vcc_runtime_installed(installed: Option<ToolingVersion>) -> (r: Result<
    bool,
    CommandError,
>)
    ensures
        r == match installed {
            Some(v) => Ok::<bool, CommandError>(
                at_least(v@, (MINIMUM_RUNTIME_MAJOR, MINIMUM_RUNTIME_MINOR, MINIMUM_RUNTIME_PATCH)),
            ),
            None => Err(CommandError::Configuration(ConfigProblem::RuntimeVersionUnknown)),
        },
{
    match installed {
        Some(v) => Ok(
            v.is_at_least(MINIMUM_RUNTIME_MAJOR, MINIMUM_RUNTIME_MINOR, MINIMUM_RUNTIME_PATCH),
        ),
        None => Err(CommandError::Configuration(ConfigProblem::RuntimeVersionUnknown)),
    }
}

} // verus!

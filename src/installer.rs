use vstd::prelude::*;

use crate::config::LauncherConfig;
use crate::text::copy_optional;

verus! {

/// Archive format of a release. It is fixed by the host platform: zip
/// archives on one platform family, gzip-compressed tarballs on the others.
#[derive(Clone, Copy, Debug, PartialEq, Eq, Structural)]
pub enum ArchiveKind {
    Zip,
    TarGz,
}

/// Why an install ended without success.
#[derive(Clone, Copy, Debug, PartialEq, Eq, Structural)]
pub enum InstallError {
    /// The destination directory, or the archive afterwards, could not be removed or created.
    CleanupFailed,
    /// The archive could not be fetched or written.
    DownloadFailed,
    /// The archive is malformed, or unpacking it failed.
    ExtractFailed,
    /// No installation directory is set.
    ConfigurationError,
    /// The archive format of this platform is unknown.
    UnsupportedPlatform,
}

/// Where an install stands. Every stage but the last two names the outside
/// step that the caller performs next.
#[derive(Clone, Copy, Debug, PartialEq, Eq, Structural)]
pub enum InstallStage {
    /// Remove the destination directory and all it holds, if it exists.
    ClearDestination,
    /// Create the destination directory, empty.
    CreateDestination,
    /// Fetch the archive into the version folder.
    Download,
    /// Unpack the archive into the destination directory.
    Extract,
    /// Delete the archive after a successful extraction.
    RemoveArchive,
    /// Delete whatever was left of the archive after a failure.
    DiscardArchive(InstallError),
    Succeeded,
    Failed(InstallError),
}

pub open spec fn is_terminal(stage: InstallStage) -> bool {
    stage is Succeeded || stage is Failed
}

/// The stage that follows `stage` once its outside step has succeeded or failed.
pub open spec fn next_stage(stage: InstallStage, succeeded: bool) -> InstallStage {
    match stage {
        InstallStage::ClearDestination => if succeeded {
            InstallStage::CreateDestination
        } else {
            InstallStage::Failed(InstallError::CleanupFailed)
        },
        InstallStage::CreateDestination => if succeeded {
            InstallStage::Download
        } else {
            InstallStage::Failed(InstallError::CleanupFailed)
        },
        InstallStage::Download => if succeeded {
            InstallStage::Extract
        } else {
            InstallStage::DiscardArchive(InstallError::DownloadFailed)
        },
        InstallStage::Extract => if succeeded {
            InstallStage::RemoveArchive
        } else {
            InstallStage::DiscardArchive(InstallError::ExtractFailed)
        },
        InstallStage::RemoveArchive => if succeeded {
            InstallStage::Succeeded
        } else {
            InstallStage::Failed(InstallError::CleanupFailed)
        },
        InstallStage::DiscardArchive(e) => InstallStage::Failed(e),
        InstallStage::Succeeded => InstallStage::Succeeded,
        InstallStage::Failed(e) => InstallStage::Failed(e),
    }
}

pub open spec fn archive_extension(kind: ArchiveKind) -> Seq<char> {
    match kind {
        ArchiveKind::Zip => seq!['.', 'z', 'i', 'p'],
        ArchiveKind::TarGz => seq!['.', 't', 'a', 'r', '.', 'g', 'z'],
    }
}

/// One install of a release into
/// `<installation_dir>/versions/<version_folder>/<version>`, driven step by
/// step: the caller performs the outside step that `stage` names and reports
/// through `advance` whether it succeeded, until the stage is terminal.
pub struct VersionInstall {
    pub installation_dir: String,
    pub version_folder: String,
    pub version: String,
    pub url: String,
    pub kind: ArchiveKind,
    pub stage: InstallStage,
}

impl VersionInstall {
    /// An install that has not touched the disk yet.
    pub fn new(
        installation_dir: String,
        version_folder: String,
        version: String,
        url: String,
        kind: ArchiveKind,
    ) -> (r: VersionInstall)
        ensures
            r.installation_dir == installation_dir,
            r.version_folder == version_folder,
            r.version == version,
            r.url == url,
            r.kind == kind,
            r.stage == InstallStage::ClearDestination,
    {
        VersionInstall {
            installation_dir,
            version_folder,
            version,
            url,
            kind,
            stage: InstallStage::ClearDestination,
        }
    }

    /// File name of the temporary archive, a sibling of the destination
    /// directory inside the version folder.
    pub fn archive_file_name(&self) -> (r: String)
        ensures
            r@ == self.version@ + archive_extension(self.kind),
    {
        let mut name = self.version.clone();
        match self.kind {
            ArchiveKind::Zip => {
                proof {
                    reveal_strlit(".zip");
                    assert(".zip"@ =~= archive_extension(ArchiveKind::Zip));
                }
                name.append(".zip");
            },
            ArchiveKind::TarGz => {
                proof {
                    reveal_strlit(".tar.gz");
                    assert(".tar.gz"@ =~= archive_extension(ArchiveKind::TarGz));
                }
                name.append(".tar.gz");
            },
        }
        name
    }

    /// Records the outcome of the outside step that the current stage named.
    pub fn advance(&mut self, succeeded: bool)
        ensures
            final(self).stage == next_stage(old(self).stage, succeeded),
            final(self).installation_dir == old(self).installation_dir,
            final(self).version_folder == old(self).version_folder,
            final(self).version == old(self).version,
            final(self).url == old(self).url,
            final(self).kind == old(self).kind,
    {
        self.stage = match self.stage {
            InstallStage::ClearDestination => if succeeded {
                InstallStage::CreateDestination
            } else {
                InstallStage::Failed(InstallError::CleanupFailed)
            },
            InstallStage::CreateDestination => if succeeded {
                InstallStage::Download
            } else {
                InstallStage::Failed(InstallError::CleanupFailed)
            },
            InstallStage::Download => if succeeded {
                InstallStage::Extract
            } else {
                InstallStage::DiscardArchive(InstallError::DownloadFailed)
            },
            InstallStage::Extract => if succeeded {
                InstallStage::RemoveArchive
            } else {
                InstallStage::DiscardArchive(InstallError::ExtractFailed)
            },
            InstallStage::RemoveArchive => if succeeded {
                InstallStage::Succeeded
            } else {
                InstallStage::Failed(InstallError::CleanupFailed)
            },
            InstallStage::DiscardArchive(e) => InstallStage::Failed(e),
            InstallStage::Succeeded => InstallStage::Succeeded,
            InstallStage::Failed(e) => InstallStage::Failed(e),
        };
    }

    /// How the install ended, once it has.
    pub fn outcome(&self) -> (r: Option<Result<(), InstallError>>)
        ensures
            r == match self.stage {
                InstallStage::Succeeded => Some(Ok::<(), InstallError>(())),
                InstallStage::Failed(e) => Some(Err::<(), InstallError>(e)),
                _ => None::<Result<(), InstallError>>,
            },
    {
        match self.stage {
            InstallStage::Succeeded => Some(Ok(())),
            InstallStage::Failed(e) => Some(Err(e)),
            _ => None,
        }
    }
}

/// Prepares the install of tooling release `version` from `url` into
/// `<installation_dir>/versions/<version_folder>/<version>`, with the archive
/// format of this platform (`None` where it has none). Nothing is touched on
/// disk before the returned install's first step.
pub fn plan_version_download(
    cfg: &LauncherConfig,
    version: String,
    version_folder: String,
    url: String,
    kind: Option<ArchiveKind>,
) -> (r: Result<VersionInstall, InstallError>)
    ensures
        match cfg.installation_dir {
            None => r == Err::<VersionInstall, InstallError>(InstallError::ConfigurationError),
            Some(dir) => match kind {
                None => r == Err::<VersionInstall, InstallError>(
                    InstallError::UnsupportedPlatform,
                ),
                Some(k) => r == Ok::<VersionInstall, InstallError>(
                    VersionInstall {
                        installation_dir: dir,
                        version_folder,
                        version,
                        url,
                        kind: k,
                        stage: InstallStage::ClearDestination,
                    },
                ),
            },
        },
{
    let installation_dir = match copy_optional(&cfg.installation_dir) {
        None => return Err(InstallError::ConfigurationError),
        Some(dir) => dir,
    };
    match kind {
        None => Err(InstallError::UnsupportedPlatform),
        Some(k) => Ok(VersionInstall::new(installation_dir, version_folder, version, url, k)),
    }
}

} // verus!

//! The provisioning run: its stages in order, each run once, the first
//! failure ending the run.
use vstd::prelude::*;
use crate::error::DiskError;

verus! {

/// A stage of the provisioning run, in the order they run.
#[derive(PartialEq, Eq, Structural, Clone, Copy, Debug)]
pub enum Stage {
    /// Make sure the pool tooling is installed.
    InstallTool,
    /// Purge the data disks from the mount table and create the pool.
    CreatePool,
    /// Carve the volume out of the pool.
    CarveVolume,
    /// Format the volume.
    FormatVolume,
    /// Create the mount point.
    MakeMountDir,
    /// Mount the volume.
    MountVolume,
    /// Purge the volume device from the mount table.
    PurgeMountEntry,
    /// Add the volume's entry to the mount table.
    PersistMountEntry,
    /// Move the service's data onto the volume.
    RelocateService,
}

/// What to do after a stage has run.
#[derive(Debug, PartialEq, Eq)]
pub enum Progress {
    /// Run this stage next.
    Next(Stage),
    /// Every stage succeeded.
    Finished,
    /// The stage failed with this error; the stages after it do not run and
    /// the ones before it are not undone.
    Aborted(Stage, DiskError),
}

/// The stage that follows `stage` when it succeeds.
pub open spec fn stage_after(stage: Stage) -> Option<Stage> {
    match stage {
        Stage::InstallTool => Some(Stage::CreatePool),
        Stage::CreatePool => Some(Stage::CarveVolume),
        Stage::CarveVolume => Some(Stage::FormatVolume),
        Stage::FormatVolume => Some(Stage::MakeMountDir),
        Stage::MakeMountDir => Some(Stage::MountVolume),
        Stage::MountVolume => Some(Stage::PurgeMountEntry),
        Stage::PurgeMountEntry => Some(Stage::PersistMountEntry),
        Stage::PersistMountEntry => Some(Stage::RelocateService),
        Stage::RelocateService => None,
    }
}

/// The error that a failed command of `stage` is reported as, carrying the
/// command's diagnostic text: pool and volume creation have errors of their
/// own, every other stage reports a command error.
pub fn stage_failure(stage: Stage, diagnostic: String) -> (r: DiskError)
    ensures
        r == match stage {
            Stage::CreatePool => DiskError::PoolCreation(diagnostic),
            Stage::CarveVolume => DiskError::Carve(diagnostic),
            _ => DiskError::Command(diagnostic),
        },
{
    match stage {
        Stage::CreatePool => DiskError::PoolCreation(diagnostic),
        Stage::CarveVolume => DiskError::Carve(diagnostic),
        _ => DiskError::Command(diagnostic),
    }
}

/// The stage a run starts with.
pub fn first_stage() -> (r: Stage)
    ensures
        r == Stage::InstallTool,
{
    Stage::InstallTool
}

/// Decides what follows `stage` given its outcome: the next stage on success,
/// completion after the last one, and on failure an abort that hands the
/// stage's error on unchanged.
pub fn zfs(stage: Stage, outcome: Result<(), DiskError>) -> (r: Progress)
    ensures
        match outcome {
            Err(e) => r == Progress::Aborted(stage, e),
            Ok(_) => match stage_after(stage) {
                Some(next) => r == Progress::Next(next),
                None => r == Progress::Finished,
            },
        },
{
    match outcome {
        Err(e) => Progress::Aborted(stage, e),
        Ok(_) => match stage {
            Stage::InstallTool => Progress::Next(Stage::CreatePool),
            Stage::CreatePool => Progress::Next(Stage::CarveVolume),
            Stage::CarveVolume => Progress::Next(Stage::FormatVolume),
            Stage::FormatVolume => Progress::Next(Stage::MakeMountDir),
            Stage::MakeMountDir => Progress::Next(Stage::MountVolume),
            Stage::MountVolume => Progress::Next(Stage::PurgeMountEntry),
            Stage::PurgeMountEntry => Progress::Next(Stage::PersistMountEntry),
            Stage::PersistMountEntry => Progress::Next(Stage::RelocateService),
            Stage::RelocateService => Progress::Finished,
        },
    }
}

} // verus!

//! What each step does to the disk and to the running system. A dry run only
//! shows its plan: every function here answers "nothing" in a dry run, and the
//! caller carries out exactly what they answer.

use vstd::prelude::*;
use crate::paths::{join_path, path_join};
use crate::state::{AppMode, AppState};
use crate::steps::{NiriAction, PIPEWIRE_CONF_DIR, niri_action};

verus! {

/// What the backup step does.
#[derive(Debug, Clone, Copy, PartialEq, Eq, Structural)]
pub enum BackupAction {
    /// Only report the plan.
    Report,
    /// Create the archive's directory and write the archive.
    WriteArchive,
}

/// The backup step's action in `mode`.
pub open spec fn backup_action_for(mode: AppMode) -> BackupAction {
    if mode == AppMode::DryRun {
        BackupAction::Report
    } else {
        BackupAction::WriteArchive
    }
}

/// The directory a step creates in `mode` before it links into `dir`: none in
/// a dry run.
pub open spec fn directory_for(mode: AppMode, dir: Seq<char>) -> Option<Seq<char>> {
    if mode == AppMode::DryRun {
        None
    } else {
        Some(dir)
    }
}

/// What the niri step writes in `mode`, given the autostart file's content:
/// nothing in a dry run, the niri decision otherwise.
pub open spec fn niri_write_for(mode: AppMode, content: Option<Seq<char>>) -> Option<NiriAction> {
    if mode == AppMode::DryRun {
        None
    } else {
        Some(niri_action(content))
    }
}

/// Whether the restart step runs the restart command in `mode`.
pub open spec fn restart_due_for(mode: AppMode) -> bool {
    mode != AppMode::DryRun
}

/// PipeWire's drop-in directory below the home directory, which holds the
/// linked configuration.
pub fn pipewire_dir(home: &str) -> (r: String)
    ensures
        r@ == path_join(home@, PIPEWIRE_CONF_DIR@),
{
    join_path(home, PIPEWIRE_CONF_DIR)
}

impl AppState {
    /// What the backup step does: report in a dry run, write otherwise.
    pub fn backup_action(&self) -> (r: BackupAction)
        ensures
            r == backup_action_for(self.mode),
    {
        if self.is_dry_run() {
            BackupAction::Report
        } else {
            BackupAction::WriteArchive
        }
    }

    /// The directory to create before linking into `dir`: none in a dry run,
    /// `dir` itself otherwise.
    pub fn directory_to_create(&self, dir: &str) -> (r: Option<String>)
        ensures
            match r {
                Some(d) => directory_for(self.mode, dir@) == Some(d@),
                None => directory_for(self.mode, dir@) is None,
            },
    {
        if self.is_dry_run() {
            None
        } else {
            Some(String::from_str(dir))
        }
    }

    /// What the niri step writes: nothing in a dry run (it only reports), the
    /// niri decision for the file's content otherwise.
    pub fn niri_write(&self, content: Option<&str>) -> (r: Option<NiriAction>)
        ensures
            r == niri_write_for(
                self.mode,
                match content {
                    Some(c) => Some(c@),
                    None => None,
                },
            ),
    {
        if self.is_dry_run() {
            None
        } else {
            Some(crate::steps::plan_niri(content))
        }
    }

    /// Whether the restart step runs the restart command: not in a dry run.
    pub fn restart_due(&self) -> (r: bool)
        ensures
            r == restart_due_for(self.mode),
            r == (self.mode != AppMode::DryRun),
    {
        !self.is_dry_run()
    }
}

} // verus!

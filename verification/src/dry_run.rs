//! A dry run, one update at a time. A dry run only looks: each update takes
//! what the caller saw on disk for the task that is due, and makes the whole
//! change of state that the task makes, with nothing for the caller to carry
//! out.

use vstd::prelude::*;
use vstd::string::*;
use crate::paths::{file_extension, path_join};
use crate::state::{
    AppMode,
    AppState,
    AppStep,
    StepStatus,
    Task,
    pending_task,
    step_after,
    step_for_index,
    task_for,
    update,
};
use crate::steps::{
    BackupPlan,
    DeployDirs,
    LinkObservation,
    entry_paths,
    irs_missing,
    is_preset_entry,
    keeps_run,
    niri_dry_run_note,
    present_notes,
    presets_missing,
    pipewire_missing,
    source_view,
    with_status,
    autostart_entry_text,
    RestartOutcome,
    NIRI_LINE,
};
use crate::text::text_contains;

verus! {

/// A directory entry as listed: whether it is a regular file, and its name.
pub struct ListedEntry {
    pub is_file: bool,
    pub name: String,
}

/// A directory listing: the entries read, and the error that stopped the
/// reading, where one did.
pub struct Listing {
    pub entries: Vec<ListedEntry>,
    pub error: Option<String>,
}

/// What the caller saw on disk for the task that is due.
pub enum Observation {
    /// The backup plan, and which of its directories and files exist.
    Backup { plan: BackupPlan, dir_present: Vec<bool>, file_present: Vec<bool> },
    /// A linking step's directories, whether the repository directory exists,
    /// and its listing.
    Links { dirs: DeployDirs, repo_present: bool, listing: Listing },
    /// The PipeWire configuration, where it is linked, and whether it exists.
    PipeWire { source: String, dest: String, source_present: bool },
    /// The niri autostart file, and its content where it exists (or why it
    /// could not be read).
    Niri { path: String, content: Result<Option<String>, String> },
    /// Nothing to see for the restart.
    Restart,
}

/// The observation has the form that `task` needs.
pub open spec fn fits(task: Task, obs: Observation) -> bool {
    match obs {
        Observation::Backup { plan, dir_present, file_present } => task == Task::Backup
            && dir_present@.len() == plan.directories@.len() && file_present@.len()
            == plan.files@.len(),
        Observation::Links { .. } => task == Task::Presets || task == Task::Irs,
        Observation::PipeWire { .. } => task == Task::PipeWire,
        Observation::Niri { .. } => task == Task::Niri,
        Observation::Restart => task == Task::Restart,
    }
}

/// The listed step that `task` runs.
pub open spec fn task_index(task: Task) -> int {
    match task {
        Task::Backup | Task::Rollback => 0,
        Task::Presets => 1,
        Task::Irs => 2,
        Task::PipeWire => 3,
        Task::Niri => 4,
        Task::Restart => 5,
    }
}

/// The progress once `task` has run in a dry run.
pub open spec fn dry_progress(task: Task) -> u8 {
    match task {
        Task::Backup | Task::Rollback => 20,
        Task::Presets => 40,
        Task::Irs => 60,
        Task::PipeWire => 70,
        Task::Niri => 80,
        Task::Restart => 100,
    }
}

/// Whether a linking step links the entry `e`.
pub open spec fn selected(task: Task, e: ListedEntry) -> bool {
    if task == Task::Presets {
        e.is_file && file_extension(e.name@) == Some("json"@)
    } else {
        e.is_file
    }
}

/// The lines a dry run of a linking step logs for the entries `entries`.
pub open spec fn link_lines(task: Task, dirs: DeployDirs, entries: Seq<ListedEntry>) -> Seq<
    Seq<char>,
>
    decreases entries.len(),
{
    if entries.len() == 0 {
        Seq::empty()
    } else {
        let before = link_lines(task, dirs, entries.drop_last());
        let e = entries.last();
        if selected(task, e) {
            before.push(
                "Would symlink: "@ + path_join(dirs.target_dir@, e.name@) + " -> "@ + path_join(
                    dirs.repo_dir@,
                    e.name@,
                ),
            )
        } else {
            before
        }
    }
}

/// The message a dry-run task fails with, where it fails.
pub open spec fn dry_failure(task: Task, obs: Observation) -> Option<Seq<char>> {
    match obs {
        Observation::Links { dirs, repo_present, listing } => if !repo_present {
            Some(
                if task == Task::Presets {
                    "Repo presets directory not found: "@ + dirs.repo_dir@
                } else {
                    "Repo IRs directory not found: "@ + dirs.repo_dir@
                },
            )
        } else {
            match listing.error {
                Some(e) => Some(e@),
                None => None,
            }
        },
        Observation::PipeWire { source, source_present, .. } => if !source_present {
            Some("PipeWire config not found: "@ + source@)
        } else {
            None
        },
        Observation::Niri { content, .. } => match content {
            Err(e) => Some(e@),
            Ok(_) => None,
        },
        _ => None,
    }
}

/// The lines a dry-run task logs.
pub open spec fn dry_notes(task: Task, obs: Observation) -> Seq<Seq<char>> {
    match obs {
        Observation::Backup { plan, dir_present, file_present } => seq![
            "Would create backup: "@ + plan.archive_path@,
        ] + present_notes(
            "  Would archive directory: "@,
            source_view(plan.directories@),
            dir_present@,
        ) + present_notes("  Would archive file: "@, source_view(plan.files@), file_present@),
        Observation::Links { dirs, repo_present, listing } => if repo_present {
            link_lines(task, dirs, listing.entries@)
        } else {
            Seq::empty()
        },
        Observation::PipeWire { source, dest, source_present } => if source_present {
            seq!["Would symlink: "@ + dest@ + " -> "@ + source@]
        } else {
            Seq::empty()
        },
        Observation::Niri { path, content } => match content {
            Ok(c) => seq![
                niri_dry_run_note(
                    path@,
                    match c {
                        Some(t) => Some(t@),
                        None => None,
                    },
                ),
            ],
            Err(_) => Seq::empty(),
        },
        Observation::Restart => seq!["Would restart pipewire, pipewire-pulse, wireplumber"@],
    }
}

/// The status a dry-run task leaves its listed step in: done where it
/// succeeded (the backup step stays running, as in a real run), running where
/// it failed.
pub open spec fn dry_status(task: Task, obs: Observation) -> StepStatus {
    if dry_failure(task, obs) is None && task != Task::Backup {
        StepStatus::Done
    } else {
        StepStatus::Running
    }
}

/// Where a dry run stands after ticks with the observations `obs`: its step
/// and progress, or none once a task has failed.
pub open spec fn dry_run_ticks(obs: Seq<Observation>) -> Option<(AppStep, u8)>
    decreases obs.len(),
{
    if obs.len() == 0 {
        Some((AppStep::BackingUp, 0))
    } else {
        match dry_run_ticks(obs.drop_last()) {
            None => None,
            Some((step, progress)) => match task_for(step, AppMode::DryRun) {
                None => Some((step, progress)),
                Some(task) => if dry_failure(task, obs.last()) is None {
                    Some((step_after(task), dry_progress(task)))
                } else {
                    None
                },
            },
        }
    }
}

impl AppState {
    /// Logs the dry-run line of each selected entry.
    fn note_dry_links(&mut self, task: Task, dirs: &DeployDirs, entries: &Vec<ListedEntry>)
        requires
            old(self).mode == AppMode::DryRun,
        ensures
            final(self).log_view() == old(self).log_view() + link_lines(task, *dirs, entries@),
            final(self).current_step == old(self).current_step,
            final(self).progress_percent == old(self).progress_percent,
            final(self).step_statuses == old(self).step_statuses,
            keeps_run(old(self), final(self)),
    {
        let unseen = LinkObservation { present: false, is_symlink: false, links_to_source: false };
        let n = entries.len();
        let mut i: usize = 0;
        assert(old(self).log_view() + link_lines(task, *dirs, entries@.take(0)) =~= old(
            self,
        ).log_view());
        while i < n
            invariant
                n == entries@.len(),
                i <= n,
                self.mode == AppMode::DryRun,
                self.log_view() == old(self).log_view() + link_lines(
                    task,
                    *dirs,
                    entries@.take(i as int),
                ),
                self.current_step == old(self).current_step,
                self.progress_percent == old(self).progress_percent,
                self.step_statuses == old(self).step_statuses,
                keeps_run(old(self), self),
            decreases n - i,
        {
            proof {
                assert(entries@.take(i + 1).drop_last() =~= entries@.take(i as int));
                assert(entries@.take(i + 1).last() == entries@[i as int]);
            }
            let entry = &entries[i];
            let wanted = if task == Task::Presets {
                is_preset_entry(entry.is_file, entry.name.as_str())
            } else {
                entry.is_file
            };
            assert(wanted == selected(task, entries@[i as int]));
            if wanted {
                let (source, dest) = entry_paths(dirs, entry.name.as_str());
                let ghost before = self.log_view();
                self.symlink_file(source.as_str(), dest.as_str(), unseen);
                assert(self.log_view() =~= before.push(
                    "Would symlink: "@ + dest@ + " -> "@ + source@,
                ));
                assert(link_lines(task, *dirs, entries@.take(i + 1)) == link_lines(
                    task,
                    *dirs,
                    entries@.take(i as int),
                ).push("Would symlink: "@ + dest@ + " -> "@ + source@));
                assert(self.log_view() =~= old(self).log_view() + link_lines(
                    task,
                    *dirs,
                    entries@.take(i + 1),
                ));
            }
            i = i + 1;
        }
        assert(entries@.take(n as int) =~= entries@);
    }

    /// One update of a dry run: runs the task that is due on what the caller
    /// saw for it, logging the plan, ending the step, and moving on (or
    /// stopping with the task's error). Nothing is left for the caller to do
    /// to the disk or the system.
    pub fn dry_run_step(&mut self, obs: Observation)
        requires
            old(self).wf(),
            old(self).mode == AppMode::DryRun,
            task_for(old(self).current_step, AppMode::DryRun) matches Some(task) && fits(task, obs),
        ensures
            final(self).wf(),
            ({
                let task = task_for(old(self).current_step, AppMode::DryRun)->0;
                &&& match dry_failure(task, obs) {
                    None => final(self).current_step == step_after(task)
                        && final(self).progress_percent == dry_progress(task),
                    Some(message) => final(self).current_step matches AppStep::Error(m) && m@
                        == message && final(self).progress_percent == old(self).progress_percent,
                }
                &&& final(self).step_statuses@ == with_status(
                    old(self).step_statuses@,
                    task_index(task),
                    dry_status(task, obs),
                )
                &&& final(self).log_view() == old(self).log_view() + dry_notes(task, obs)
            }),
            obs matches Observation::Niri { path, content: Ok(Some(c)) } ==> final(self).log_view()
                == old(self).log_view().push(
                if text_contains(c@, "easyeffects"@) {
                    "niri autostart already configured"@
                } else {
                    "Would add to "@ + path@ + ": "@ + NIRI_LINE@
                },
            ),
            obs matches Observation::Niri { path, content: Ok(None) } ==> final(self).log_view()
                == old(self).log_view().push("Would create "@ + path@ + " with easyeffects entry"@),
            keeps_run(old(self), final(self)),
    {
        let task = match pending_task(self) {
            Some(t) => t,
            None => {
                return;
            },
        };
        let outcome: Result<(), String> = match obs {
            Observation::Backup { plan, dir_present, file_present } => {
                self.begin_step(0);
                self.report_backup_dry_run(&plan, &dir_present, &file_present);
                Ok(())
            },
            Observation::Links { dirs, repo_present, listing } => {
                let index: usize = if task == Task::Presets {
                    1
                } else {
                    2
                };
                self.begin_step(index);
                if !repo_present {
                    assert(self.log_view() =~= old(self).log_view() + Seq::<Seq<char>>::empty());
                    if task == Task::Presets {
                        Err(presets_missing(dirs.repo_dir.as_str()))
                    } else {
                        Err(irs_missing(dirs.repo_dir.as_str()))
                    }
                } else {
                    self.note_dry_links(task, &dirs, &listing.entries);
                    match listing.error {
                        Some(e) => Err(e),
                        None => {
                            if task == Task::Presets {
                                self.finish_presets();
                            } else {
                                self.finish_irs();
                            }
                            Ok(())
                        },
                    }
                }
            },
            Observation::PipeWire { source, dest, source_present } => {
                self.begin_step(3);
                if !source_present {
                    assert(self.log_view() =~= old(self).log_view() + Seq::<Seq<char>>::empty());
                    Err(pipewire_missing(source.as_str()))
                } else {
                    let unseen = LinkObservation {
                        present: false,
                        is_symlink: false,
                        links_to_source: false,
                    };
                    self.symlink_file(source.as_str(), dest.as_str(), unseen);
                    self.finish_pipewire();
                    Ok(())
                }
            },
            Observation::Niri { path, content } => {
                self.begin_step(4);
                match content {
                    Err(e) => {
                        assert(self.log_view() =~= old(self).log_view() + Seq::<
                            Seq<char>,
                        >::empty());
                        Err(e)
                    },
                    Ok(c) => {
                        let text: Option<&str> = match &c {
                            Some(t) => Some(t.as_str()),
                            None => None,
                        };
                        self.report_niri_dry_run(path.as_str(), text);
                        Ok(())
                    },
                }
            },
            Observation::Restart => {
                self.begin_step(5);
                self.finish_restart(RestartOutcome::Skipped);
                Ok(())
            },
        };
        update(self, task, outcome);
    }
}

/// A dry run of the niri step reports the decision a real run would make on
/// the file as it is: a file that mentions EasyEffects is reported as
/// configured, any other existing file as one the entry would be added to,
/// and a missing file as one that would be created. In particular, after a
/// deploy appended or wrote the entry, a dry run reports it as configured.
pub proof fn law_dry_run_reports_the_niri_decision(path: String, content: Option<String>)
    ensures
        dry_notes(Task::Niri, Observation::Niri { path, content: Ok(content) }) == seq![
            match content {
                Some(c) => if text_contains(c@, "easyeffects"@) {
                    "niri autostart already configured"@
                } else {
                    "Would add to "@ + path@ + ": "@ + NIRI_LINE@
                },
                None => "Would create "@ + path@ + " with easyeffects entry"@,
            },
        ],
        content matches Some(c) && (exists|before: Seq<char>|
            c@ == before + autostart_entry_text()) ==> dry_notes(
            Task::Niri,
            Observation::Niri { path, content: Ok(content) },
        ) == seq!["niri autostart already configured"@],
{
    if content matches Some(c) && (exists|before: Seq<char>| c@ == before + autostart_entry_text()) {
        let c = content->0;
        let before = choose|before: Seq<char>| c@ == before + autostart_entry_text();
        crate::laws::law_niri_idempotent(before);
    }
}

/// The observation for the `k`-th update of a dry run fits its task, and the
/// task does not fail on it.
pub open spec fn sees_success(k: int, o: Observation) -> bool {
    &&& task_for(step_for_index(k), AppMode::DryRun) is Some
    &&& fits(task_for(step_for_index(k), AppMode::DryRun)->0, o)
    &&& dry_failure(task_for(step_for_index(k), AppMode::DryRun)->0, o) is None
}

/// A whole dry run comes to its end: where each of the six updates sees what
/// its task needs and none of them fails, the run ends done at 100%, after the
/// backup, the presets, the impulse responses, PipeWire, niri and the restart
/// in this order. (Each update leaves nothing for the caller to carry out.)
pub proof fn law_whole_dry_run(obs: Seq<Observation>)
    requires
        obs.len() == 6,
        forall|k: int|
            0 <= k < 6 ==> sees_success(k, #[trigger] obs[k]),
    ensures
        dry_run_ticks(obs) == Some((AppStep::Done, 100u8)),
        forall|k: int|
            0 <= k < 6 ==> dry_run_ticks(#[trigger] obs.take(k)) == Some(
                (step_for_index(k), if k == 0 {
                    0u8
                } else {
                    dry_progress(task_for(step_for_index(k - 1), AppMode::DryRun)->0)
                }),
            ),
{
    assert forall|k: int| 0 <= k <= 6 implies #[trigger] dry_run_ticks(obs.take(k)) == (if k
        == 6 {
        Some((AppStep::Done, 100u8))
    } else {
        Some(
            (step_for_index(k), if k == 0 {
                0u8
            } else {
                dry_progress(task_for(step_for_index(k - 1), AppMode::DryRun)->0)
            }),
        )
    }) by {
        lemma_dry_prefix(obs, k);
    }
    assert(obs.take(6) =~= obs);
}

proof fn lemma_dry_prefix(obs: Seq<Observation>, k: int)
    requires
        obs.len() == 6,
        0 <= k <= 6,
        forall|j: int|
            0 <= j < 6 ==> sees_success(j, #[trigger] obs[j]),
    ensures
        dry_run_ticks(obs.take(k)) == (if k == 6 {
            Some((AppStep::Done, 100u8))
        } else {
            Some(
                (step_for_index(k), if k == 0 {
                    0u8
                } else {
                    dry_progress(task_for(step_for_index(k - 1), AppMode::DryRun)->0)
                }),
            )
        }),
    decreases k,
{
    if k > 0 {
        lemma_dry_prefix(obs, k - 1);
        assert(obs.take(k).drop_last() =~= obs.take(k - 1));
        assert(obs.take(k).last() == obs[k - 1]);
        let _ = obs[k - 1];
    }
}

} // verus!

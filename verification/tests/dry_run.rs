use audio_manager::dry_run::{ListedEntry, Listing, Observation};
use audio_manager::state::{pending_task, AppState, AppStep, StepStatus, Task};
use audio_manager::steps::{backup_plan, irs_dirs, niri_autostart_path, pipewire_paths, presets_dirs, NIRI_LINE};

fn listed(is_file: bool, name: &str) -> ListedEntry {
    ListedEntry { is_file, name: name.to_string() }
}

fn observation(task: Task, home: &str) -> Observation {
    match task {
        Task::Backup => Observation::Backup {
            plan: backup_plan(home, "20240102_030405"),
            dir_present: vec![true, false, false],
            file_present: vec![false],
        },
        Task::Presets => Observation::Links {
            dirs: presets_dirs(home),
            repo_present: true,
            listing: Listing {
                entries: vec![listed(true, "Perfect EQ.json"), listed(true, "notes.txt"), listed(false, "sub.json")],
                error: None,
            },
        },
        Task::Irs => Observation::Links {
            dirs: irs_dirs(home),
            repo_present: true,
            listing: Listing { entries: vec![listed(true, "Dolby Atmos.irs")], error: None },
        },
        Task::PipeWire => {
            let (source, dest) = pipewire_paths(home);
            Observation::PipeWire { source, dest, source_present: true }
        }
        Task::Niri => Observation::Niri { path: niri_autostart_path(home), content: Ok(None) },
        Task::Restart | Task::Rollback => Observation::Restart,
    }
}

#[test]
fn whole_dry_run_ends_done_at_full_progress() {
    let mut app = AppState::launch(false, true);
    let mut updates = 0;
    while let Some(task) = pending_task(&app) {
        app.dry_run_step(observation(task, "/h"));
        updates += 1;
        assert!(app.is_well_formed());
    }
    assert_eq!(updates, 6);
    assert_eq!(app.current_step, AppStep::Done);
    assert_eq!(app.progress_percent, 100);
    let statuses: Vec<StepStatus> = app.step_statuses.iter().map(|s| s.1.clone()).collect();
    assert_eq!(
        statuses,
        vec![
            StepStatus::Running,
            StepStatus::Done,
            StepStatus::Done,
            StepStatus::Done,
            StepStatus::Done,
            StepStatus::Done
        ]
    );
    assert_eq!(
        app.log_messages,
        vec![
            "Would create backup: /h/.config/audio_backup_20240102_030405.tar.gz".to_string(),
            "  Would archive directory: /h/.local/share/easyeffects/output".to_string(),
            "Would symlink: /h/.local/share/easyeffects/output/Perfect EQ.json -> /home/code_warlord/projects/audio-dotfiles/easyeffects/output/Perfect EQ.json".to_string(),
            "Would symlink: /h/.local/share/easyeffects/irs/Dolby Atmos.irs -> /home/code_warlord/projects/audio-dotfiles/easyeffects/irs/Dolby Atmos.irs".to_string(),
            "Would symlink: /h/.config/pipewire/pipewire.conf.d/10-quantum.conf -> /home/code_warlord/projects/audio-dotfiles/pipewire/pipewire.conf.d/10-quantum.conf".to_string(),
            "Would create /h/.config/niri/cfg/autostart.kdl with easyeffects entry".to_string(),
            "Would restart pipewire, pipewire-pulse, wireplumber".to_string(),
        ]
    );
    assert!(app.backup_path.is_none());
}

#[test]
fn dry_run_stops_where_the_repository_is_missing() {
    let mut app = AppState::launch(false, true);
    app.dry_run_step(observation(Task::Backup, "/h"));
    app.dry_run_step(Observation::Links {
        dirs: presets_dirs("/h"),
        repo_present: false,
        listing: Listing { entries: Vec::new(), error: None },
    });
    assert_eq!(
        app.current_step,
        AppStep::Error(
            "Repo presets directory not found: /home/code_warlord/projects/audio-dotfiles/easyeffects/output"
                .to_string()
        )
    );
    assert_eq!(app.progress_percent, 20);
    assert_eq!(app.step_statuses[1].1, StepStatus::Running);
    assert_eq!(pending_task(&app), None);
}

#[test]
fn dry_run_listing_error_keeps_earlier_lines() {
    let mut app = AppState::launch(false, true);
    app.dry_run_step(observation(Task::Backup, "/h"));
    app.dry_run_step(observation(Task::Presets, "/h"));
    let before = app.log_messages.len();
    app.dry_run_step(Observation::Links {
        dirs: irs_dirs("/h"),
        repo_present: true,
        listing: Listing {
            entries: vec![listed(true, "a.irs")],
            error: Some("Permission denied (os error 13)".to_string()),
        },
    });
    assert_eq!(app.log_messages.len(), before + 1);
    assert_eq!(app.current_step, AppStep::Error("Permission denied (os error 13)".to_string()));
    assert_eq!(app.progress_percent, 40);
}

#[test]
fn dry_run_niri_reports_existing_file() {
    let mut app = AppState::launch(false, true);
    for task in [Task::Backup, Task::Presets, Task::Irs, Task::PipeWire] {
        app.dry_run_step(observation(task, "/h"));
    }
    app.dry_run_step(Observation::Niri {
        path: "/h/a.kdl".to_string(),
        content: Ok(Some("spawn-at-startup \"waybar\"\n".to_string())),
    });
    assert_eq!(app.log_messages.last().unwrap(), &format!("Would add to /h/a.kdl: {NIRI_LINE}"));
    assert_eq!(app.progress_percent, 80);
    assert_eq!(app.current_step, AppStep::RestartingServices);
}

#[test]
fn dry_run_niri_read_error_fails_the_step() {
    let mut app = AppState::launch(false, true);
    for task in [Task::Backup, Task::Presets, Task::Irs, Task::PipeWire] {
        app.dry_run_step(observation(task, "/h"));
    }
    app.dry_run_step(Observation::Niri {
        path: "/h/a.kdl".to_string(),
        content: Err("stream did not contain valid UTF-8".to_string()),
    });
    assert_eq!(app.current_step, AppStep::Error("stream did not contain valid UTF-8".to_string()));
    assert_eq!(app.progress_percent, 70);
}

#[test]
fn well_formedness_check() {
    let mut app = AppState::new(audio_manager::state::AppMode::Deploy);
    assert!(app.is_well_formed());
    app.progress_percent = 101;
    assert!(!app.is_well_formed());
    app.progress_percent = 0;
    app.step_statuses[3].0 = "Other";
    assert!(!app.is_well_formed());
    app.step_statuses.pop();
    assert!(!app.is_well_formed());
}

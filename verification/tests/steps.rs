use chrono::{Datelike, NaiveDate, Timelike};
use audio_manager::state::{AppMode, AppState, AppStep, StepStatus};
use audio_manager::steps::{
    archive_dir_failed, autostart_entry, backup_create_failed, backup_directory, backup_plan,
    entry_paths, irs_dirs, irs_missing, is_backup_file_name, is_preset_entry, latest_backup,
    niri_autostart_path, no_backup_message, pipewire_missing, pipewire_paths, plan_niri,
    presets_dirs, presets_missing, read_file_failed, restart_arguments, restart_failure,
    restore_pairs, rollback_temp_dir, plan_restore, RestoreAction, LinkAction, LinkObservation, NiriAction, RestartOutcome,
    ARCHIVED_FILE_MODE, NIRI_LINE, REPO_ROOT, RESTART_PROGRAM, backup_stamp, EntryName,
};
use audio_manager::disk::{pipewire_dir, BackupAction};

fn statuses(app: &AppState) -> Vec<StepStatus> {
    app.step_statuses.iter().map(|s| s.1.clone()).collect()
}

fn entry(name: &str) -> EntryName {
    EntryName { text: name.to_string(), bytes: name.as_bytes().to_vec() }
}

fn seen(present: bool, is_symlink: bool, links_to_source: bool) -> LinkObservation {
    LinkObservation { present, is_symlink, links_to_source }
}

#[test]
fn backup_plan_paths() {
    let plan = backup_plan("/home/u", "20240102_030405");
    assert_eq!(plan.archive_path, "/home/u/.config/audio_backup_20240102_030405.tar.gz");
    let dirs: Vec<(&str, &str)> = plan
        .directories
        .iter()
        .map(|d| (d.source.as_str(), d.archive_name.as_str()))
        .collect();
    assert_eq!(
        dirs,
        vec![
            ("/home/u/.local/share/easyeffects/output", ".local/share/easyeffects/output"),
            ("/home/u/.local/share/easyeffects/irs", ".local/share/easyeffects/irs"),
            ("/home/u/.config/pipewire/pipewire.conf.d", ".config/pipewire/pipewire.conf.d"),
        ]
    );
    assert_eq!(plan.files.len(), 1);
    assert_eq!(plan.files[0].source, "/home/u/.config/niri/cfg/autostart.kdl");
    assert_eq!(plan.files[0].archive_name, ".config/niri/cfg/autostart.kdl");
    assert_eq!(plan.file_mode, 0o644);
    assert_eq!(ARCHIVED_FILE_MODE, 420);
}

#[test]
fn backup_dry_run_logs_present_sources() {
    let mut app = AppState::new(AppMode::DryRun);
    app.begin_step(0);
    assert_eq!(app.current_step, AppStep::BackingUp);
    assert_eq!(app.step_statuses[0].1, StepStatus::Running);
    let plan = backup_plan("/h", "S");
    let path = app.report_backup_dry_run(&plan, &vec![true, false, true], &vec![true]);
    assert_eq!(path, "/h/.config/audio_backup_S.tar.gz");
    assert_eq!(
        app.log_messages,
        vec![
            "Would create backup: /h/.config/audio_backup_S.tar.gz".to_string(),
            "  Would archive directory: /h/.local/share/easyeffects/output".to_string(),
            "  Would archive directory: /h/.config/pipewire/pipewire.conf.d".to_string(),
            "  Would archive file: /h/.config/niri/cfg/autostart.kdl".to_string(),
        ]
    );
    assert_eq!(app.progress_percent, 20);
    assert!(app.backup_path.is_none());
    assert_eq!(app.step_statuses[0].1, StepStatus::Running);
}

#[test]
fn backup_record() {
    let mut app = AppState::new(AppMode::Deploy);
    let p = app.record_backup("/h/.config/audio_backup_S.tar.gz");
    assert_eq!(p, "/h/.config/audio_backup_S.tar.gz");
    assert_eq!(app.backup_path.as_deref(), Some("/h/.config/audio_backup_S.tar.gz"));
    assert_eq!(app.log_messages, vec!["Created backup: /h/.config/audio_backup_S.tar.gz".to_string()]);
    assert_eq!(app.progress_percent, 20);
}

#[test]
fn error_messages() {
    assert_eq!(backup_create_failed("/a.tar.gz"), "Failed to create backup file: /a.tar.gz");
    assert_eq!(archive_dir_failed("/d"), "Failed to archive directory: /d");
    assert_eq!(read_file_failed("/f"), "Failed to read file: /f");
    assert_eq!(presets_missing("/r"), "Repo presets directory not found: /r");
    assert_eq!(irs_missing("/r"), "Repo IRs directory not found: /r");
    assert_eq!(pipewire_missing("/p"), "PipeWire config not found: /p");
    assert_eq!(no_backup_message("/h/.config"), "No backup found in /h/.config");
}

#[test]
fn link_decisions() {
    let mut app = AppState::new(AppMode::Deploy);
    assert_eq!(app.symlink_file("/s", "/d", seen(false, false, false)), LinkAction::Create);
    assert_eq!(app.symlink_file("/s", "/d", seen(true, true, true)), LinkAction::Keep);
    assert_eq!(app.symlink_file("/s", "/d", seen(true, true, false)), LinkAction::Replace);
    assert!(app.log_messages.is_empty());
    assert_eq!(app.symlink_file("/s", "/d", seen(true, false, false)), LinkAction::Keep);
    assert_eq!(
        app.log_messages,
        vec!["Warning: /d exists as a regular file, skipping".to_string()]
    );
    app.record_link("/s", "/d");
    assert_eq!(app.log_messages[1], "Linked: /d -> /s");
}

#[test]
fn dry_run_links_nothing() {
    let mut app = AppState::new(AppMode::DryRun);
    assert_eq!(app.symlink_file("/s", "/d", seen(false, false, false)), LinkAction::Keep);
    assert_eq!(app.symlink_file("/s", "/d", seen(true, true, false)), LinkAction::Keep);
    assert_eq!(
        app.log_messages,
        vec!["Would symlink: /d -> /s".to_string(), "Would symlink: /d -> /s".to_string()]
    );
}

#[test]
fn linking_twice_changes_nothing() {
    let mut app = AppState::new(AppMode::Deploy);
    assert_eq!(app.symlink_file("/s", "/d", seen(false, false, false)), LinkAction::Create);
    app.record_link("/s", "/d");
    let before = app.log_messages.clone();
    assert_eq!(app.symlink_file("/s", "/d", seen(true, true, true)), LinkAction::Keep);
    assert_eq!(app.log_messages, before);
}

#[test]
fn deploy_directories_and_entries() {
    let presets = presets_dirs("/home/u");
    assert_eq!(presets.repo_dir, format!("{REPO_ROOT}/easyeffects/output"));
    assert_eq!(presets.target_dir, "/home/u/.local/share/easyeffects/output");
    let irs = irs_dirs("/home/u");
    assert_eq!(irs.repo_dir, "/home/code_warlord/projects/audio-dotfiles/easyeffects/irs");
    assert_eq!(irs.target_dir, "/home/u/.local/share/easyeffects/irs");
    let (src, dst) = entry_paths(&presets, "Perfect EQ.json");
    assert_eq!(src, "/home/code_warlord/projects/audio-dotfiles/easyeffects/output/Perfect EQ.json");
    assert_eq!(dst, "/home/u/.local/share/easyeffects/output/Perfect EQ.json");
    assert!(is_preset_entry(true, "Perfect EQ.json"));
    assert!(!is_preset_entry(false, "dir.json"));
    assert!(!is_preset_entry(true, "README.md"));
    let (ps, pd) = pipewire_paths("/home/u");
    assert_eq!(ps, "/home/code_warlord/projects/audio-dotfiles/pipewire/pipewire.conf.d/10-quantum.conf");
    assert_eq!(pd, "/home/u/.config/pipewire/pipewire.conf.d/10-quantum.conf");
}

#[test]
fn finishing_steps_sets_progress() {
    let mut app = AppState::new(AppMode::Deploy);
    app.begin_step(1);
    app.finish_presets();
    assert_eq!(app.progress_percent, 40);
    app.begin_step(2);
    app.finish_irs();
    assert_eq!(app.progress_percent, 60);
    app.begin_step(3);
    app.finish_pipewire();
    assert_eq!(app.progress_percent, 70);
    assert_eq!(app.current_step, AppStep::DeployingPipeWire);
    assert_eq!(
        statuses(&app),
        vec![
            StepStatus::Pending,
            StepStatus::Done,
            StepStatus::Done,
            StepStatus::Done,
            StepStatus::Pending,
            StepStatus::Pending
        ]
    );
}

#[test]
fn niri_plans() {
    assert_eq!(niri_autostart_path("/home/u"), "/home/u/.config/niri/cfg/autostart.kdl");
    assert_eq!(autostart_entry(), format!("{NIRI_LINE}\n"));
    assert_eq!(NIRI_LINE, r#"run-on-spawn "easyeffects" "--gapplication-service""#);
    assert_eq!(plan_niri(None), NiriAction::Create);
    assert_eq!(plan_niri(Some("spawn-at-startup \"waybar\"\n")), NiriAction::Append);
    assert_eq!(plan_niri(Some("x easyeffects y")), NiriAction::AlreadyConfigured);
}

#[test]
fn niri_is_idempotent() {
    let created = autostart_entry();
    assert_eq!(plan_niri(Some(&created)), NiriAction::AlreadyConfigured);
    let appended = format!("spawn-at-startup \"waybar\"\n{}", autostart_entry());
    assert_eq!(plan_niri(Some(&appended)), NiriAction::AlreadyConfigured);
}

#[test]
fn niri_logs() {
    let mut app = AppState::new(AppMode::DryRun);
    app.report_niri_dry_run("/a.kdl", Some("other"));
    app.report_niri_dry_run("/a.kdl", Some("easyeffects"));
    app.report_niri_dry_run("/a.kdl", None);
    assert_eq!(
        app.log_messages,
        vec![
            format!("Would add to /a.kdl: {NIRI_LINE}"),
            "niri autostart already configured".to_string(),
            "Would create /a.kdl with easyeffects entry".to_string(),
        ]
    );
    assert_eq!(app.progress_percent, 80);
    assert_eq!(app.step_statuses[4].1, StepStatus::Done);

    let mut real = AppState::new(AppMode::Deploy);
    real.finish_niri(NiriAction::AlreadyConfigured);
    real.finish_niri(NiriAction::Append);
    real.finish_niri(NiriAction::Create);
    assert_eq!(
        real.log_messages,
        vec![
            "niri autostart already configured, skipping".to_string(),
            "Added easyeffects to niri autostart".to_string(),
            "Created niri autostart with easyeffects entry".to_string(),
        ]
    );
    assert_eq!(real.progress_percent, 80);
}

#[test]
fn restart_outcomes() {
    assert_eq!(RESTART_PROGRAM, "systemctl");
    assert_eq!(
        restart_arguments(),
        vec!["--user", "restart", "pipewire", "pipewire-pulse", "wireplumber"]
    );
    let mut dry = AppState::new(AppMode::DryRun);
    dry.begin_step(5);
    dry.finish_restart(RestartOutcome::Skipped);
    assert_eq!(
        dry.log_messages,
        vec!["Would restart pipewire, pipewire-pulse, wireplumber".to_string()]
    );
    let mut app = AppState::new(AppMode::Deploy);
    app.begin_step(5);
    app.finish_restart(RestartOutcome::Succeeded);
    app.finish_restart(restart_failure(b"unit not found"));
    app.finish_restart(RestartOutcome::Unavailable("No such file or directory".to_string()));
    assert_eq!(
        app.log_messages,
        vec![
            "Services restarted successfully".to_string(),
            "Warning: service restart had issues: unit not found".to_string(),
            "Warning: could not restart services: No such file or directory".to_string(),
        ]
    );
    assert_eq!(app.progress_percent, 100);
    assert_eq!(app.step_statuses[5].1, StepStatus::Done);
    assert_eq!(app.current_step, AppStep::RestartingServices);
}

#[test]
fn restart_failure_decodes_error_output() {
    assert_eq!(
        restart_failure(b"bad \xff byte"),
        RestartOutcome::Failed("bad \u{FFFD} byte".to_string())
    );
    assert_eq!(
        restart_failure("caf\u{e9}".as_bytes()),
        RestartOutcome::Failed("caf\u{e9}".to_string())
    );
}

#[test]
fn backup_names() {
    assert!(is_backup_file_name("audio_backup_20240101_000000.tar.gz"));
    assert!(!is_backup_file_name("audio_backup_20240101_000000.tar"));
    assert!(!is_backup_file_name("other_backup.tar.gz"));
    assert!(is_backup_file_name("audio_backup_.tar.gz"));
}

#[test]
fn latest_backup_is_the_last_in_sort_order() {
    let names: Vec<EntryName> = [
        "niri",
        "audio_backup_20240102_000000.tar.gz",
        "audio_backup_20250101_000000.tar.gz",
        "audio_backup_20240301_000000.tar.gz",
        "zzz.tar.gz",
    ]
    .iter()
    .map(|s| entry(s))
    .collect();
    assert_eq!(latest_backup(&names), Some(2));
    assert_eq!(latest_backup(&vec![entry("a"), entry("b")]), None);
    assert_eq!(latest_backup(&Vec::new()), None);
}

#[test]
fn rollback_paths() {
    assert_eq!(backup_directory("/home/u"), "/home/u/.config");
    assert_eq!(rollback_temp_dir(4321), "/tmp/audio_rollback_4321");
    let pairs = restore_pairs("/tmp/r", "/home/u");
    assert_eq!(
        pairs,
        vec![
            (
                "/tmp/r/.local/share/easyeffects/output".to_string(),
                "/home/u/.local/share/easyeffects/output".to_string()
            ),
            (
                "/tmp/r/.local/share/easyeffects/irs".to_string(),
                "/home/u/.local/share/easyeffects/irs".to_string()
            ),
            (
                "/tmp/r/.config/pipewire/pipewire.conf.d".to_string(),
                "/home/u/.config/pipewire/pipewire.conf.d".to_string()
            ),
            (
                "/tmp/r/.config/niri/cfg/autostart.kdl".to_string(),
                "/home/u/.config/niri/cfg/autostart.kdl".to_string()
            ),
        ]
    );
}

#[test]
fn rollback_records() {
    let mut app = AppState::launch(true, false);
    app.begin_step(0);
    app.note_restoring("/h/.config/audio_backup_1.tar.gz");
    app.note_unpacked();
    assert_eq!(app.progress_percent, 30);
    assert_eq!(app.step_statuses[0].1, StepStatus::Done);
    assert_eq!(app.step_statuses[1].1, StepStatus::Running);
    app.note_restored("/tmp/a", "/h/a");
    app.note_restore_finished();
    assert_eq!(app.progress_percent, 70);
    assert_eq!(app.step_statuses[1].1, StepStatus::Done);
    app.begin_step(5);
    app.finish_restart(RestartOutcome::Succeeded);
    app.finish_rollback();
    assert_eq!(app.current_step, AppStep::Done);
    assert_eq!(
        app.log_messages,
        vec![
            "Restoring from backup: /h/.config/audio_backup_1.tar.gz".to_string(),
            "Restored: /tmp/a -> /h/a".to_string(),
            "Services restarted successfully".to_string(),
            "Rollback complete".to_string(),
        ]
    );
    assert_eq!(app.progress_percent, 100);
}

#[test]
fn restore_decisions() {
    assert_eq!(plan_restore(false, true, true), RestoreAction::Skip);
    assert_eq!(plan_restore(true, false, false), RestoreAction::Move);
    assert_eq!(plan_restore(true, true, true), RestoreAction::ReplaceDirectory);
    assert_eq!(plan_restore(true, true, false), RestoreAction::ReplaceFile);
}

#[test]
fn latest_backup_orders_by_bytes() {
    let odd = EntryName {
        text: "audio_backup_\u{FFFD}.tar.gz".to_string(),
        bytes: b"audio_backup_\xff.tar.gz".to_vec(),
    };
    let names = vec![odd, entry("audio_backup_20990101_000000.tar.gz")];
    assert_eq!(latest_backup(&names), Some(0));
}

#[test]
fn backup_stamps() {
    assert_eq!(backup_stamp(2024, 1, 2, 3, 4, 5, 0), "20240102_030405");
    assert_eq!(backup_stamp(999, 12, 31, 23, 59, 59, 999_999_999), "09991231_235959");
    assert_eq!(backup_stamp(2016, 12, 31, 23, 59, 59, 1_500_000_000), "20161231_235960");
    assert_eq!(backup_stamp(12345, 1, 1, 0, 0, 0, 0), "+123450101_000000");
    assert_eq!(backup_stamp(-7, 1, 1, 0, 0, 0, 0), "-00070101_000000");
    assert_eq!(backup_stamp(-12345, 1, 1, 0, 0, 0, 0), "-123450101_000000");
}

#[test]
fn backup_stamps_agree_with_chrono() {
    for (y, mo, d, h, mi, sec) in [
        (2024, 1, 2, 3, 4, 5),
        (1999, 12, 31, 23, 59, 59),
        (7, 6, 5, 4, 3, 2),
        (10000, 1, 1, 0, 0, 0),
        (-1, 3, 4, 5, 6, 7),
        (-20000, 3, 4, 5, 6, 7),
    ] {
        let t = NaiveDate::from_ymd_opt(y, mo, d).unwrap().and_hms_opt(h, mi, sec).unwrap();
        let ours = backup_stamp(
            t.year(),
            t.month(),
            t.day(),
            t.hour(),
            t.minute(),
            t.second(),
            t.nanosecond(),
        );
        assert_eq!(ours, t.format("%Y%m%d_%H%M%S").to_string());
    }
    let leap = NaiveDate::from_ymd_opt(2016, 12, 31)
        .unwrap()
        .and_hms_nano_opt(23, 59, 59, 1_500_000_000)
        .unwrap();
    assert_eq!(
        backup_stamp(2016, 12, 31, 23, 59, leap.second(), leap.nanosecond()),
        leap.format("%Y%m%d_%H%M%S").to_string()
    );
}

#[test]
fn later_backups_are_restored_first() {
    let home = "/home/u";
    let earlier = backup_plan(home, &backup_stamp(2024, 12, 31, 23, 59, 59, 0));
    let later = backup_plan(home, &backup_stamp(2025, 1, 1, 0, 0, 0, 0));
    let names: Vec<EntryName> = [&later, &earlier]
        .iter()
        .map(|p| entry(p.archive_path.rsplit('/').next().unwrap()))
        .collect();
    assert_eq!(latest_backup(&names), Some(0));
}

#[test]
fn dry_run_asks_for_no_disk_work() {
    let dry = AppState::new(AppMode::DryRun);
    assert_eq!(dry.backup_action(), BackupAction::Report);
    assert_eq!(dry.directory_to_create("/t"), None);
    assert_eq!(dry.niri_write(None), None);
    assert_eq!(dry.niri_write(Some("x")), None);
    assert!(!dry.restart_due());

    let real = AppState::new(AppMode::Deploy);
    assert_eq!(real.backup_action(), BackupAction::WriteArchive);
    assert_eq!(real.directory_to_create("/t"), Some("/t".to_string()));
    assert_eq!(real.niri_write(None), Some(NiriAction::Create));
    assert_eq!(real.niri_write(Some("easyeffects")), Some(NiriAction::AlreadyConfigured));
    assert!(real.restart_due());
    assert_eq!(pipewire_dir("/home/u"), "/home/u/.config/pipewire/pipewire.conf.d");
}

use audio_manager::state::{
    handle_key, pending_task, start_deploy, start_rollback, update, AppMode, AppState, AppStep,
    KeyInput, StepStatus, Task, STEP_COUNT,
};

#[test]
fn new_state_lists_six_pending_steps() {
    let app = AppState::new(AppMode::Deploy);
    assert_eq!(app.mode, AppMode::Deploy);
    assert_eq!(app.current_step, AppStep::Idle);
    assert_eq!(app.progress_percent, 0);
    assert_eq!(app.step_statuses.len(), STEP_COUNT);
    let names: Vec<&str> = app.step_statuses.iter().map(|s| s.0).collect();
    assert_eq!(
        names,
        vec![
            "Backup",
            "EasyEffects Presets",
            "EasyEffects IRs",
            "PipeWire Config",
            "niri Autostart",
            "Restart Services"
        ]
    );
    assert!(app.step_statuses.iter().all(|s| s.1 == StepStatus::Pending));
    assert!(app.log_messages.is_empty());
    assert!(app.backup_path.is_none());
    assert!(!app.should_quit);
}

#[test]
fn launch_picks_mode_and_first_step() {
    let plain = AppState::launch(false, false);
    assert_eq!(plain.mode, AppMode::Deploy);
    assert_eq!(plain.current_step, AppStep::Idle);

    let dry = AppState::launch(false, true);
    assert_eq!(dry.mode, AppMode::DryRun);
    assert_eq!(dry.current_step, AppStep::BackingUp);

    let back = AppState::launch(true, false);
    assert_eq!(back.mode, AppMode::Rollback);
    assert_eq!(back.current_step, AppStep::BackingUp);

    let both = AppState::launch(true, true);
    assert_eq!(both.mode, AppMode::Rollback);
    assert_eq!(both.current_step, AppStep::BackingUp);
}

#[test]
fn start_deploy_only_from_idle() {
    let mut app = AppState::new(AppMode::Deploy);
    start_deploy(&mut app);
    assert_eq!(app.current_step, AppStep::BackingUp);

    app.current_step = AppStep::DeployingIRs;
    start_deploy(&mut app);
    assert_eq!(app.current_step, AppStep::DeployingIRs);

    app.current_step = AppStep::Error("boom".to_string());
    start_deploy(&mut app);
    assert_eq!(app.current_step, AppStep::Error("boom".to_string()));
}

#[test]
fn start_rollback_switches_mode_only_from_idle() {
    let mut app = AppState::new(AppMode::DryRun);
    start_rollback(&mut app);
    assert_eq!(app.mode, AppMode::Rollback);
    assert_eq!(app.current_step, AppStep::BackingUp);

    let mut busy = AppState::new(AppMode::Deploy);
    busy.current_step = AppStep::Done;
    start_rollback(&mut busy);
    assert_eq!(busy.mode, AppMode::Deploy);
    assert_eq!(busy.current_step, AppStep::Done);
}

#[test]
fn keys_quit_deploy_and_rollback() {
    let mut app = AppState::new(AppMode::Deploy);
    handle_key(&mut app, KeyInput::Char('x'), true);
    assert_eq!(app.current_step, AppStep::Idle);
    assert!(!app.should_quit);

    handle_key(&mut app, KeyInput::Char('d'), false);
    assert_eq!(app.current_step, AppStep::Idle);

    handle_key(&mut app, KeyInput::Char('d'), true);
    assert_eq!(app.current_step, AppStep::BackingUp);
    assert_eq!(app.mode, AppMode::Deploy);

    handle_key(&mut app, KeyInput::Esc, true);
    assert!(app.should_quit);

    let mut q = AppState::new(AppMode::Deploy);
    handle_key(&mut q, KeyInput::Char('q'), true);
    assert!(q.should_quit);
    assert_eq!(q.current_step, AppStep::Idle);

    let mut r = AppState::new(AppMode::Deploy);
    handle_key(&mut r, KeyInput::Char('r'), true);
    assert_eq!(r.mode, AppMode::Rollback);
    assert_eq!(r.current_step, AppStep::BackingUp);
}

#[test]
fn deploy_key_is_ignored_in_rollback_mode() {
    let mut app = AppState::new(AppMode::Rollback);
    handle_key(&mut app, KeyInput::Char('d'), true);
    assert_eq!(app.current_step, AppStep::Idle);
    assert_eq!(app.mode, AppMode::Rollback);
}

#[test]
fn deployment_runs_its_tasks_in_order() {
    let mut app = AppState::launch(false, true);
    let mut seen = Vec::new();
    while let Some(task) = pending_task(&app) {
        seen.push(task);
        update(&mut app, task, Ok(()));
    }
    assert_eq!(
        seen,
        vec![
            Task::Backup,
            Task::Presets,
            Task::Irs,
            Task::PipeWire,
            Task::Niri,
            Task::Restart
        ]
    );
    assert_eq!(app.current_step, AppStep::Done);
}

#[test]
fn rollback_is_a_single_task() {
    let mut app = AppState::launch(true, false);
    assert_eq!(pending_task(&app), Some(Task::Rollback));
    update(&mut app, Task::Rollback, Ok(()));
    assert_eq!(app.current_step, AppStep::Done);
    assert_eq!(pending_task(&app), None);
}

#[test]
fn failure_stops_the_machine_with_its_message() {
    let mut app = AppState::launch(false, false);
    start_deploy(&mut app);
    update(&mut app, Task::Backup, Ok(()));
    assert_eq!(pending_task(&app), Some(Task::Presets));
    update(&mut app, Task::Presets, Err("Repo presets directory not found: /x".to_string()));
    assert_eq!(
        app.current_step,
        AppStep::Error("Repo presets directory not found: /x".to_string())
    );
    assert_eq!(pending_task(&app), None);
    start_deploy(&mut app);
    start_rollback(&mut app);
    assert!(matches!(app.current_step, AppStep::Error(_)));
}

#[test]
fn idle_and_done_have_no_work() {
    let app = AppState::new(AppMode::Deploy);
    assert_eq!(pending_task(&app), None);
    let mut done = AppState::new(AppMode::Deploy);
    done.current_step = AppStep::Done;
    assert_eq!(pending_task(&done), None);
}

#[test]
fn dry_run_flag() {
    assert!(AppState::new(AppMode::DryRun).is_dry_run());
    assert!(!AppState::new(AppMode::Deploy).is_dry_run());
    assert!(!AppState::new(AppMode::Rollback).is_dry_run());
}

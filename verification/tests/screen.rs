use audio_manager::screen::{
    footer_status, gauge_tone, log_tone, mode_tag, mode_tone, mode_warning, progress_label,
    running_step_index, spinner, status_marker, step_rows, visible_log, Segment, Tone,
};
use audio_manager::state::{AppMode, AppState, AppStep, StepStatus};

fn plain(segments: Vec<Segment>) -> Vec<(String, Tone, bool)> {
    segments.into_iter().map(|s| (s.text, s.tone, s.bold)).collect()
}

#[test]
fn running_steps_have_list_positions() {
    assert_eq!(running_step_index(&AppStep::BackingUp), Some(0));
    assert_eq!(running_step_index(&AppStep::DeployingPresets), Some(1));
    assert_eq!(running_step_index(&AppStep::DeployingIRs), Some(2));
    assert_eq!(running_step_index(&AppStep::DeployingPipeWire), Some(3));
    assert_eq!(running_step_index(&AppStep::DeployingNiri), Some(4));
    assert_eq!(running_step_index(&AppStep::RestartingServices), Some(5));
    assert_eq!(running_step_index(&AppStep::Idle), None);
    assert_eq!(running_step_index(&AppStep::Done), None);
    assert_eq!(running_step_index(&AppStep::Error("x".to_string())), None);
}

#[test]
fn mode_banner() {
    assert_eq!(mode_tag(AppMode::Deploy), "DEPLOY");
    assert_eq!(mode_tag(AppMode::Rollback), "ROLLBACK");
    assert_eq!(mode_tag(AppMode::DryRun), "DRY-RUN");
    assert_eq!(mode_tone(AppMode::Deploy), Tone::Success);
    assert_eq!(mode_tone(AppMode::Rollback), Tone::Warning);
    assert_eq!(mode_tone(AppMode::DryRun), Tone::Primary);
    assert_eq!(mode_warning(AppMode::Deploy), None);
    assert_eq!(
        mode_warning(AppMode::Rollback),
        Some("⚠ ROLLBACK MODE — existing configs will be restored from backup")
    );
    assert_eq!(
        mode_warning(AppMode::DryRun),
        Some("⚠ DRY-RUN MODE — no changes will be made to the system")
    );
}

#[test]
fn status_markers() {
    assert_eq!(status_marker(&StepStatus::Pending), (" ", Tone::Dim, false));
    assert_eq!(status_marker(&StepStatus::Running), ("►", Tone::Primary, true));
    assert_eq!(status_marker(&StepStatus::Done), ("✓", Tone::Success, true));
    assert_eq!(status_marker(&StepStatus::Warning("w".to_string())), ("⚠", Tone::Warning, true));
    assert_eq!(status_marker(&StepStatus::Error("e".to_string())), ("✗", Tone::Error, true));
}

#[test]
fn step_rows_highlight_the_running_step() {
    let mut app = AppState::new(AppMode::Deploy);
    app.begin_step(2);
    let rows = step_rows(&app);
    assert_eq!(rows.len(), 6);
    assert_eq!(rows[0].0.text, "   Backup");
    assert_eq!(rows[2].0.text, " ► EasyEffects IRs");
    assert_eq!(rows[2].0.tone, Tone::Primary);
    assert!(rows[2].0.bold);
    let highlighted: Vec<bool> = rows.iter().map(|r| r.1).collect();
    assert_eq!(highlighted, vec![false, false, true, false, false, false]);

    let idle = AppState::new(AppMode::Deploy);
    assert!(step_rows(&idle).iter().all(|r| !r.1));
}

#[test]
fn log_colours() {
    assert_eq!(log_tone("Error: x"), Tone::Error);
    assert_eq!(log_tone("an error happened"), Tone::Error);
    assert_eq!(log_tone("Warning: /d exists as a regular file, skipping"), Tone::Warning);
    assert_eq!(log_tone("a warning"), Tone::Warning);
    assert_eq!(log_tone("Linked: /d -> /s"), Tone::Dim);
    assert_eq!(log_tone("Warning and Error"), Tone::Error);
}

#[test]
fn log_shows_the_last_fifteen_lines() {
    let mut app = AppState::new(AppMode::Deploy);
    for i in 0..20 {
        app.log_messages.push(format!("line {i}"));
    }
    let lines = visible_log(&app);
    assert_eq!(lines.len(), 15);
    assert_eq!(lines[0].text, "line 5");
    assert_eq!(lines[14].text, "line 19");
    assert!(lines.iter().all(|l| l.tone == Tone::Dim && !l.bold));

    let mut short = AppState::new(AppMode::Deploy);
    short.log_messages.push("Warning: x".to_string());
    let lines = visible_log(&short);
    assert_eq!(lines.len(), 1);
    assert_eq!(lines[0].tone, Tone::Warning);
}

#[test]
fn spinner_turns_every_five_frames() {
    assert_eq!(spinner(0), "|");
    assert_eq!(spinner(4), "|");
    assert_eq!(spinner(5), "/");
    assert_eq!(spinner(10), "-");
    assert_eq!(spinner(15), "\\");
    assert_eq!(spinner(20), "|");
    assert_eq!(spinner(u64::MAX), ["|", "/", "-", "\\"][((u64::MAX / 5) % 4) as usize]);
}

#[test]
fn footer_when_idle() {
    let app = AppState::new(AppMode::Deploy);
    assert_eq!(
        plain(footer_status(&app, 0)),
        vec![
            (" [Q] Quit ".to_string(), Tone::Bright, true),
            ("[D] Deploy ".to_string(), Tone::Success, true),
            ("[R] Rollback ".to_string(), Tone::Warning, true),
        ]
    );
    let rb = AppState::new(AppMode::Rollback);
    assert_eq!(
        plain(footer_status(&rb, 0)),
        vec![
            (" [Q] Quit ".to_string(), Tone::Bright, true),
            ("[R] Rollback ".to_string(), Tone::Warning, true),
        ]
    );
}

#[test]
fn footer_while_running_done_and_failed() {
    let mut app = AppState::new(AppMode::Deploy);
    app.current_step = AppStep::DeployingNiri;
    assert_eq!(
        plain(footer_status(&app, 7)),
        vec![
            (" / ".to_string(), Tone::Primary, true),
            ("DeployingNiri".to_string(), Tone::Bright, false),
        ]
    );
    app.current_step = AppStep::BackingUp;
    assert_eq!(footer_status(&app, 0)[1].text, format!("{:?}", AppStep::BackingUp));
    app.current_step = AppStep::Done;
    assert_eq!(
        plain(footer_status(&app, 0)),
        vec![(" ✓ Deployment complete! ".to_string(), Tone::Success, true)]
    );
    app.current_step = AppStep::Error("disk full".to_string());
    assert_eq!(
        plain(footer_status(&app, 0)),
        vec![(" ✗ Error: disk full".to_string(), Tone::Error, true)]
    );
}

#[test]
fn gauge_label_and_colour() {
    assert_eq!(progress_label(0), "Progress: 0%");
    assert_eq!(progress_label(20), "Progress: 20%");
    assert_eq!(progress_label(100), "Progress: 100%");
    assert_eq!(gauge_tone(80), Tone::Success);
    assert_eq!(gauge_tone(100), Tone::Warning);
}

//! The installer's state and its state machine: which step runs next, what a
//! key press does, and where a finished step leads.

use vstd::prelude::*;
use crate::text::same_text;

verus! {

/// The step the installer is at.
#[derive(Debug, Clone, PartialEq)]
pub enum AppStep {
    Idle,
    BackingUp,
    DeployingPresets,
    DeployingIRs,
    DeployingPipeWire,
    DeployingNiri,
    RestartingServices,
    Done,
    Error(String),
}

/// What the installer was started to do.
#[derive(Debug, Clone, Copy, PartialEq, Eq, Structural)]
pub enum AppMode {
    Deploy,
    Rollback,
    DryRun,
}

/// How far one of the listed steps has come.
#[derive(Debug, Clone, PartialEq)]
pub enum StepStatus {
    Pending,
    Running,
    Done,
    Warning(String),
    Error(String),
}

/// Everything the screen shows and the steps read and write. The progress is
/// kept in whole percent.
pub struct AppState {
    pub mode: AppMode,
    pub current_step: AppStep,
    pub progress_percent: u8,
    pub step_statuses: Vec<(&'static str, StepStatus)>,
    pub log_messages: Vec<String>,
    pub backup_path: Option<String>,
    pub should_quit: bool,
}

/// A key as the installer tells keys apart.
#[derive(Debug, Clone, Copy, PartialEq, Eq)]
pub enum KeyInput {
    Char(char),
    Esc,
    Other,
}

/// The work that the current step asks for.
#[derive(Debug, Clone, Copy, PartialEq, Eq, Structural)]
pub enum Task {
    Backup,
    Rollback,
    Presets,
    Irs,
    PipeWire,
    Niri,
    Restart,
}

/// The number of listed steps.
pub const STEP_COUNT: usize = 6;

/// The names under which the steps are listed, in order.
pub open spec fn step_names() -> Seq<Seq<char>> {
    seq![
        "Backup"@,
        "EasyEffects Presets"@,
        "EasyEffects IRs"@,
        "PipeWire Config"@,
        "niri Autostart"@,
        "Restart Services"@,
    ]
}

/// The step that is running while the `i`-th listed step runs.
pub open spec fn step_for_index(i: int) -> AppStep {
    if i == 0 {
        AppStep::BackingUp
    } else if i == 1 {
        AppStep::DeployingPresets
    } else if i == 2 {
        AppStep::DeployingIRs
    } else if i == 3 {
        AppStep::DeployingPipeWire
    } else if i == 4 {
        AppStep::DeployingNiri
    } else {
        AppStep::RestartingServices
    }
}

/// The listed step that `step` runs, where it runs one.
pub open spec fn running_index(step: AppStep) -> Option<int> {
    match step {
        AppStep::BackingUp => Some(0),
        AppStep::DeployingPresets => Some(1),
        AppStep::DeployingIRs => Some(2),
        AppStep::DeployingPipeWire => Some(3),
        AppStep::DeployingNiri => Some(4),
        AppStep::RestartingServices => Some(5),
        _ => None,
    }
}

/// The work due at `step` in `mode`.
pub open spec fn task_for(step: AppStep, mode: AppMode) -> Option<Task> {
    match step {
        AppStep::BackingUp => if mode == AppMode::Rollback {
            Some(Task::Rollback)
        } else {
            Some(Task::Backup)
        },
        AppStep::DeployingPresets => Some(Task::Presets),
        AppStep::DeployingIRs => Some(Task::Irs),
        AppStep::DeployingPipeWire => Some(Task::PipeWire),
        AppStep::DeployingNiri => Some(Task::Niri),
        AppStep::RestartingServices => Some(Task::Restart),
        _ => None,
    }
}

/// The step that follows a task that succeeded.
pub open spec fn step_after(task: Task) -> AppStep {
    match task {
        Task::Backup => AppStep::DeployingPresets,
        Task::Rollback => AppStep::Done,
        Task::Presets => AppStep::DeployingIRs,
        Task::Irs => AppStep::DeployingPipeWire,
        Task::PipeWire => AppStep::DeployingNiri,
        Task::Niri => AppStep::RestartingServices,
        Task::Restart => AppStep::Done,
    }
}

/// The step that an update leaves after `task` ended with `outcome`.
pub open spec fn step_after_outcome(task: Task, outcome: Result<(), String>) -> AppStep {
    match outcome {
        Ok(()) => step_after(task),
        Err(message) => AppStep::Error(message),
    }
}

/// Where a deploy request leads from `step`.
pub open spec fn deploy_started(step: AppStep) -> AppStep {
    if step is Idle {
        AppStep::BackingUp
    } else {
        step
    }
}

/// The mode that the installer is started in.
pub open spec fn mode_for_flags(rollback: bool, dry_run: bool) -> AppMode {
    if rollback {
        AppMode::Rollback
    } else if dry_run {
        AppMode::DryRun
    } else {
        AppMode::Deploy
    }
}

impl AppState {
    /// The state is well formed: it lists the six steps under their names,
    /// in order, and the progress is at most 100%.
    pub open spec fn wf(&self) -> bool {
        &&& self.step_statuses@.len() == STEP_COUNT
        &&& self.names_view() == step_names()
        &&& self.progress_percent <= 100
    }

    /// The log, as texts.
    pub open spec fn log_view(&self) -> Seq<Seq<char>> {
        self.log_messages@.map_values(|m: String| m@)
    }

    /// The statuses of the listed steps.
    pub open spec fn status_view(&self) -> Seq<StepStatus> {
        self.step_statuses@.map_values(|e: (&'static str, StepStatus)| e.1)
    }

    /// The names of the listed steps.
    pub open spec fn names_view(&self) -> Seq<Seq<char>> {
        self.step_statuses@.map_values(|e: (&'static str, StepStatus)| e.0@)
    }

    /// A fresh state in `mode`: idle, nothing done, every step pending.
    pub fn new(mode: AppMode) -> (r: AppState)
        ensures
            r.wf(),
            r.mode == mode,
            r.current_step == AppStep::Idle,
            r.progress_percent == 0,
            r.names_view() == step_names(),
            r.status_view() == Seq::new(6, |i: int| StepStatus::Pending),
            r.log_view() == Seq::<Seq<char>>::empty(),
            r.backup_path is None,
            !r.should_quit,
    {
        let mut steps: Vec<(&'static str, StepStatus)> = Vec::new();
        steps.push(("Backup", StepStatus::Pending));
        steps.push(("EasyEffects Presets", StepStatus::Pending));
        steps.push(("EasyEffects IRs", StepStatus::Pending));
        steps.push(("PipeWire Config", StepStatus::Pending));
        steps.push(("niri Autostart", StepStatus::Pending));
        steps.push(("Restart Services", StepStatus::Pending));
        let r = AppState {
            mode,
            current_step: AppStep::Idle,
            progress_percent: 0,
            step_statuses: steps,
            log_messages: Vec::new(),
            backup_path: None,
            should_quit: false,
        };
        assert(r.names_view() =~= step_names());
        assert(r.status_view() =~= Seq::new(6, |i: int| StepStatus::Pending));
        assert(r.log_view() =~= Seq::<Seq<char>>::empty());
        r
    }

    /// The state the installer starts in, given its two flags: a rollback
    /// starts at once, a dry run goes straight to the backup step, a plain
    /// deploy waits for a key.
    pub fn launch(rollback: bool, dry_run: bool) -> (r: AppState)
        ensures
            r.wf(),
            r.mode == mode_for_flags(rollback, dry_run),
            r.current_step == (if rollback || dry_run {
                AppStep::BackingUp
            } else {
                AppStep::Idle
            }),
            r.progress_percent == 0,
            r.names_view() == step_names(),
            r.status_view() == Seq::new(6, |i: int| StepStatus::Pending),
            r.log_view() == Seq::<Seq<char>>::empty(),
            r.backup_path is None,
            !r.should_quit,
    {
        let mode = if rollback {
            AppMode::Rollback
        } else if dry_run {
            AppMode::DryRun
        } else {
            AppMode::Deploy
        };
        let mut app = AppState::new(mode);
        if rollback {
            start_rollback(&mut app);
        } else if dry_run {
            app.current_step = AppStep::BackingUp;
        }
        app
    }

    /// Whether the state is well formed (see `wf`).
    pub fn is_well_formed(&self) -> (r: bool)
        ensures
            r == self.wf(),
    {
        if self.step_statuses.len() != STEP_COUNT || self.progress_percent > 100 {
            return false;
        }
        let ok = same_text(self.step_statuses[0].0, "Backup") && same_text(
            self.step_statuses[1].0,
            "EasyEffects Presets",
        ) && same_text(self.step_statuses[2].0, "EasyEffects IRs") && same_text(
            self.step_statuses[3].0,
            "PipeWire Config",
        ) && same_text(self.step_statuses[4].0, "niri Autostart") && same_text(
            self.step_statuses[5].0,
            "Restart Services",
        );
        proof {
            if ok {
                assert(self.names_view() =~= step_names());
            } else {
                if self.names_view() == step_names() {
                    assert(self.names_view()[0] == step_names()[0]);
                    assert(self.names_view()[1] == step_names()[1]);
                    assert(self.names_view()[2] == step_names()[2]);
                    assert(self.names_view()[3] == step_names()[3]);
                    assert(self.names_view()[4] == step_names()[4]);
                    assert(self.names_view()[5] == step_names()[5]);
                }
            }
        }
        ok
    }

    /// Whether this run only reports what it would do.
    pub fn is_dry_run(&self) -> (r: bool)
        ensures
            r == (self.mode == AppMode::DryRun),
    {
        self.mode == AppMode::DryRun
    }
}

/// Starts a deployment, where the installer is idle.
pub fn start_deploy(app: &mut AppState)
    ensures
        old(app).wf() ==> final(app).wf(),
        final(app).current_step == deploy_started(old(app).current_step),
        final(app).mode == old(app).mode,
        final(app).progress_percent == old(app).progress_percent,
        final(app).step_statuses == old(app).step_statuses,
        final(app).log_messages == old(app).log_messages,
        final(app).backup_path == old(app).backup_path,
        final(app).should_quit == old(app).should_quit,
{
    if !matches!(app.current_step, AppStep::Idle) {
        return;
    }
    app.current_step = AppStep::BackingUp;
}

/// Starts a rollback, where the installer is idle.
pub fn start_rollback(app: &mut AppState)
    ensures
        old(app).wf() ==> final(app).wf(),
        final(app).current_step == deploy_started(old(app).current_step),
        final(app).mode == (if old(app).current_step is Idle {
            AppMode::Rollback
        } else {
            old(app).mode
        }),
        final(app).progress_percent == old(app).progress_percent,
        final(app).step_statuses == old(app).step_statuses,
        final(app).log_messages == old(app).log_messages,
        final(app).backup_path == old(app).backup_path,
        final(app).should_quit == old(app).should_quit,
{
    if !matches!(app.current_step, AppStep::Idle) {
        return;
    }
    app.mode = AppMode::Rollback;
    app.current_step = AppStep::BackingUp;
}

/// Whether a key press asks to quit: `q` or Esc.
pub open spec fn key_quits(key: KeyInput) -> bool {
    key == KeyInput::Char('q') || key == KeyInput::Esc
}

/// Whether a key press asks to start a run in `mode`: `d` (except in a
/// rollback run) starts a deployment, `r` a rollback.
pub open spec fn key_starts_run(key: KeyInput, mode: AppMode) -> bool {
    (key == KeyInput::Char('d') && mode != AppMode::Rollback) || key == KeyInput::Char('r')
}

/// What a key does: `q` and Esc quit; `d` starts a deployment unless this is
/// a rollback run; `r` starts a rollback. Only presses count.
pub fn handle_key(app: &mut AppState, key: KeyInput, pressed: bool)
    ensures
        old(app).wf() ==> final(app).wf(),
        final(app).should_quit == (old(app).should_quit || (pressed && key_quits(key))),
        final(app).should_quit == (old(app).should_quit || (pressed && (key == KeyInput::Char('q')
            || key == KeyInput::Esc))),
        final(app).current_step == (if pressed && key_starts_run(key, old(app).mode) {
            deploy_started(old(app).current_step)
        } else {
            old(app).current_step
        }),
        final(app).mode == (if pressed && key == KeyInput::Char('r') && old(
            app,
        ).current_step is Idle {
            AppMode::Rollback
        } else {
            old(app).mode
        }),
        final(app).progress_percent == old(app).progress_percent,
        final(app).step_statuses == old(app).step_statuses,
        final(app).log_messages == old(app).log_messages,
        final(app).backup_path == old(app).backup_path,
{
    if !pressed {
        return;
    }
    match key {
        KeyInput::Char('q') | KeyInput::Esc => {
            app.should_quit = true;
        },
        KeyInput::Char('d') => {
            if app.mode != AppMode::Rollback {
                start_deploy(app);
            }
        },
        KeyInput::Char('r') => {
            start_rollback(app);
        },
        _ => {},
    }
}

/// The work that the current step asks for; none at rest, when done, or
/// after an error.
pub fn pending_task(app: &AppState) -> (r: Option<Task>)
    ensures
        r == task_for(app.current_step, app.mode),
{
    match &app.current_step {
        AppStep::BackingUp => if app.mode == AppMode::Rollback {
            Some(Task::Rollback)
        } else {
            Some(Task::Backup)
        },
        AppStep::DeployingPresets => Some(Task::Presets),
        AppStep::DeployingIRs => Some(Task::Irs),
        AppStep::DeployingPipeWire => Some(Task::PipeWire),
        AppStep::DeployingNiri => Some(Task::Niri),
        AppStep::RestartingServices => Some(Task::Restart),
        _ => None,
    }
}

/// Moves on after `task` has run: to the next step where it succeeded, to an
/// error carrying its message where it failed.
pub fn update(app: &mut AppState, task: Task, outcome: Result<(), String>)
    requires
        task_for(old(app).current_step, old(app).mode) == Some(task),
    ensures
        old(app).wf() ==> final(app).wf(),
        final(app).current_step == step_after_outcome(task, outcome),
        final(app).mode == old(app).mode,
        final(app).progress_percent == old(app).progress_percent,
        final(app).step_statuses == old(app).step_statuses,
        final(app).log_messages == old(app).log_messages,
        final(app).backup_path == old(app).backup_path,
        final(app).should_quit == old(app).should_quit,
{
    match outcome {
        Ok(()) => {
            app.current_step = match task {
                Task::Backup => AppStep::DeployingPresets,
                Task::Rollback => AppStep::Done,
                Task::Presets => AppStep::DeployingIRs,
                Task::Irs => AppStep::DeployingPipeWire,
                Task::PipeWire => AppStep::DeployingNiri,
                Task::Niri => AppStep::RestartingServices,
                Task::Restart => AppStep::Done,
            };
        },
        Err(message) => {
            app.current_step = AppStep::Error(message);
        },
    }
}

} // verus!

//! What the terminal screen shows for a state: the mode banner, the list of
//! steps, the progress gauge's label, the tail of the log and the footer.
//! Colours are named by the role they play; the caller maps them to the
//! terminal's colours and lays the pieces out.

use vstd::prelude::*;
use vstd::string::*;
use crate::state::{AppMode, AppState, AppStep, StepStatus, running_index};
use crate::text::{
    cat2,
    cat3,
    contains_text,
    decimal,
    decimal_text,
    starts_with_text,
    text_contains,
    text_starts_with,
};

verus! {

/// The role of a piece of text on screen.
#[derive(Debug, Clone, Copy, PartialEq, Eq, Structural)]
pub enum Tone {
    /// The accent colour (cyan).
    Primary,
    /// Success (green).
    Success,
    /// Warnings (yellow).
    Warning,
    /// Errors (red).
    Error,
    /// Secondary text (dark grey).
    Dim,
    /// Emphasis on the status bar (white).
    Bright,
}

/// A piece of text with its role and weight.
pub struct Segment {
    pub text: String,
    pub tone: Tone,
    pub bold: bool,
}

/// A segment as plain values.
pub open spec fn segment_view(s: Segment) -> (Seq<char>, Tone, bool) {
    (s.text@, s.tone, s.bold)
}

/// Segments as plain values.
pub open spec fn segments_view(s: Seq<Segment>) -> Seq<(Seq<char>, Tone, bool)> {
    s.map_values(|x: Segment| segment_view(x))
}

/// The most log lines shown at once.
pub const LOG_LINES_SHOWN: usize = 15;

/// The banner word for a mode.
pub open spec fn mode_tag_text(mode: AppMode) -> Seq<char> {
    match mode {
        AppMode::Deploy => "DEPLOY"@,
        AppMode::Rollback => "ROLLBACK"@,
        AppMode::DryRun => "DRY-RUN"@,
    }
}

/// The colour of a mode's banner word.
pub open spec fn mode_tone_of(mode: AppMode) -> Tone {
    match mode {
        AppMode::Deploy => Tone::Success,
        AppMode::Rollback => Tone::Warning,
        AppMode::DryRun => Tone::Primary,
    }
}

/// The warning line shown under the mode, where the mode has one.
pub open spec fn mode_warning_text(mode: AppMode) -> Option<Seq<char>> {
    match mode {
        AppMode::Deploy => None,
        AppMode::Rollback => Some(
            "\u{26a0} ROLLBACK MODE \u{2014} existing configs will be restored from backup"@,
        ),
        AppMode::DryRun => Some("\u{26a0} DRY-RUN MODE \u{2014} no changes will be made to the system"@),
    }
}

/// The marker, colour and weight of a step's status in the list.
pub open spec fn status_marker_of(status: StepStatus) -> (Seq<char>, Tone, bool) {
    match status {
        StepStatus::Pending => (" "@, Tone::Dim, false),
        StepStatus::Running => ("\u{25ba}"@, Tone::Primary, true),
        StepStatus::Done => ("\u{2713}"@, Tone::Success, true),
        StepStatus::Warning(_) => ("\u{26a0}"@, Tone::Warning, true),
        StepStatus::Error(_) => ("\u{2717}"@, Tone::Error, true),
    }
}

/// A row of the step list: its text, colour and weight, and whether it is
/// highlighted as the step now running.
pub open spec fn step_row_view(
    name: Seq<char>,
    status: StepStatus,
    index: int,
    step: AppStep,
) -> ((Seq<char>, Tone, bool), bool) {
    let m = status_marker_of(status);
    ((" "@ + m.0 + " "@ + name, m.1, m.2), running_index(step) == Some(index))
}

/// The colour of a log line: red where it speaks of an error, yellow where of
/// a warning, grey otherwise.
pub open spec fn log_tone_of(message: Seq<char>) -> Tone {
    if text_contains(message, "Error"@) || text_contains(message, "error"@) || text_starts_with(
        message,
        "Error:"@,
    ) {
        Tone::Error
    } else if text_contains(message, "Warning"@) || text_contains(message, "warning"@) {
        Tone::Warning
    } else {
        Tone::Dim
    }
}

/// The index of the first log line shown: at most the last fifteen show.
pub open spec fn first_shown(len: nat) -> nat {
    if len > 15 {
        (len - 15) as nat
    } else {
        0
    }
}

/// The spinner's glyphs, in turn.
pub open spec fn spinner_frames() -> Seq<Seq<char>> {
    seq!["|"@, "/"@, "-"@, "\\"@]
}

/// The spinner glyph at a frame: each glyph stays for five frames.
pub open spec fn spinner_at(frame: u64) -> Seq<char> {
    spinner_frames()[((frame / 5) % 4) as int]
}

/// The name under which a running step shows on the status bar.
pub open spec fn running_step_name(step: AppStep) -> Seq<char> {
    match step {
        AppStep::BackingUp => "BackingUp"@,
        AppStep::DeployingPresets => "DeployingPresets"@,
        AppStep::DeployingIRs => "DeployingIRs"@,
        AppStep::DeployingPipeWire => "DeployingPipeWire"@,
        AppStep::DeployingNiri => "DeployingNiri"@,
        _ => "RestartingServices"@,
    }
}

/// The status bar for a step and mode at a frame.
pub open spec fn footer_view(step: AppStep, mode: AppMode, frame: u64) -> Seq<
    (Seq<char>, Tone, bool),
> {
    match step {
        AppStep::Idle => if mode != AppMode::Rollback {
            seq![
                (" [Q] Quit "@, Tone::Bright, true),
                ("[D] Deploy "@, Tone::Success, true),
                ("[R] Rollback "@, Tone::Warning, true),
            ]
        } else {
            seq![(" [Q] Quit "@, Tone::Bright, true), ("[R] Rollback "@, Tone::Warning, true)]
        },
        AppStep::Done => seq![(" \u{2713} Deployment complete! "@, Tone::Success, true)],
        AppStep::Error(message) => seq![(" \u{2717} Error: "@ + message@, Tone::Error, true)],
        _ => seq![
            (" "@ + spinner_at(frame) + " "@, Tone::Primary, true),
            (running_step_name(step), Tone::Bright, false),
        ],
    }
}

/// The listed step that `step` runs, where it runs one.
pub fn running_step_index(step: &AppStep) -> (r: Option<usize>)
    ensures
        match r {
            Some(i) => running_index(*step) == Some(i as int),
            None => running_index(*step) is None,
        },
{
    match step {
        AppStep::BackingUp => Some(0),
        AppStep::DeployingPresets => Some(1),
        AppStep::DeployingIRs => Some(2),
        AppStep::DeployingPipeWire => Some(3),
        AppStep::DeployingNiri => Some(4),
        AppStep::RestartingServices => Some(5),
        _ => None,
    }
}

/// The banner word for a mode.
pub fn mode_tag(mode: AppMode) -> (r: &'static str)
    ensures
        r@ == mode_tag_text(mode),
{
    match mode {
        AppMode::Deploy => "DEPLOY",
        AppMode::Rollback => "ROLLBACK",
        AppMode::DryRun => "DRY-RUN",
    }
}

/// The colour of a mode's banner word.
pub fn mode_tone(mode: AppMode) -> (r: Tone)
    ensures
        r == mode_tone_of(mode),
{
    match mode {
        AppMode::Deploy => Tone::Success,
        AppMode::Rollback => Tone::Warning,
        AppMode::DryRun => Tone::Primary,
    }
}

/// The warning line for a mode, where it has one.
pub fn mode_warning(mode: AppMode) -> (r: Option<&'static str>)
    ensures
        match r {
            Some(w) => mode_warning_text(mode) == Some(w@),
            None => mode_warning_text(mode) is None,
        },
{
    match mode {
        AppMode::Deploy => None,
        AppMode::Rollback => Some(
            "\u{26a0} ROLLBACK MODE \u{2014} existing configs will be restored from backup",
        ),
        AppMode::DryRun => Some("\u{26a0} DRY-RUN MODE \u{2014} no changes will be made to the system"),
    }
}

/// The marker, colour and weight of a status.
pub fn status_marker(status: &StepStatus) -> (r: (&'static str, Tone, bool))
    ensures
        (r.0@, r.1, r.2) == status_marker_of(*status),
{
    match status {
        StepStatus::Pending => (" ", Tone::Dim, false),
        StepStatus::Running => ("\u{25ba}", Tone::Primary, true),
        StepStatus::Done => ("\u{2713}", Tone::Success, true),
        StepStatus::Warning(_) => ("\u{26a0}", Tone::Warning, true),
        StepStatus::Error(_) => ("\u{2717}", Tone::Error, true),
    }
}

/// The rows of the step list, each with whether it is highlighted.
pub fn step_rows(app: &AppState) -> (r: Vec<(Segment, bool)>)
    ensures
        r@.len() == app.step_statuses@.len(),
        forall|i: int|
            0 <= i < r@.len() ==> (segment_view((#[trigger] r@[i]).0), r@[i].1) == step_row_view(
                app.step_statuses@[i].0@,
                app.step_statuses@[i].1,
                i,
                app.current_step,
            ),
{
    let running = running_step_index(&app.current_step);
    let n = app.step_statuses.len();
    let mut rows: Vec<(Segment, bool)> = Vec::new();
    let mut i: usize = 0;
    while i < n
        invariant
            n == app.step_statuses@.len(),
            i <= n,
            rows@.len() == i,
            match running {
                Some(k) => running_index(app.current_step) == Some(k as int),
                None => running_index(app.current_step) is None,
            },
            forall|j: int|
                0 <= j < i ==> (segment_view((#[trigger] rows@[j]).0), rows@[j].1)
                    == step_row_view(
                    app.step_statuses@[j].0@,
                    app.step_statuses@[j].1,
                    j,
                    app.current_step,
                ),
        decreases n - i,
    {
        let name = app.step_statuses[i].0;
        let marker = status_marker(&app.step_statuses[i].1);
        let text = cat3(" ", marker.0, " ");
        let text = cat2(text.as_str(), name);
        let highlighted = match running {
            Some(k) => k == i,
            None => false,
        };
        rows.push((Segment { text, tone: marker.1, bold: marker.2 }, highlighted));
        i = i + 1;
    }
    rows
}

/// The colour of a log line.
pub fn log_tone(message: &str) -> (r: Tone)
    ensures
        r == log_tone_of(message@),
{
    if contains_text(message, "Error") || contains_text(message, "error") || starts_with_text(
        message,
        "Error:",
    ) {
        Tone::Error
    } else if contains_text(message, "Warning") || contains_text(message, "warning") {
        Tone::Warning
    } else {
        Tone::Dim
    }
}

/// The log lines on screen: the last fifteen at most, oldest first, each in
/// its colour.
pub fn visible_log(app: &AppState) -> (r: Vec<Segment>)
    ensures
        segments_view(r@) == Seq::new(
            (app.log_messages@.len() - first_shown(app.log_messages@.len())) as nat,
            |j: int|
                {
                    let m = app.log_messages@[first_shown(app.log_messages@.len()) + j]@;
                    (m, log_tone_of(m), false)
                },
        ),
{
    let n = app.log_messages.len();
    let start = if n > LOG_LINES_SHOWN {
        n - LOG_LINES_SHOWN
    } else {
        0
    };
    let mut lines: Vec<Segment> = Vec::new();
    let mut i: usize = start;
    while i < n
        invariant
            n == app.log_messages@.len(),
            start == first_shown(n as nat),
            start <= i <= n,
            lines@.len() == i - start,
            forall|j: int|
                0 <= j < lines@.len() ==> segment_view(#[trigger] lines@[j]) == {
                    let m = app.log_messages@[start + j]@;
                    (m, log_tone_of(m), false)
                },
        decreases n - i,
    {
        let message = &app.log_messages[i];
        let tone = log_tone(message.as_str());
        lines.push(Segment { text: message.clone(), tone, bold: false });
        i = i + 1;
    }
    assert(segments_view(lines@) =~= Seq::new(
        (app.log_messages@.len() - first_shown(app.log_messages@.len())) as nat,
        |j: int|
            {
                let m = app.log_messages@[first_shown(app.log_messages@.len()) + j]@;
                (m, log_tone_of(m), false)
            },
    ));
    lines
}

/// The spinner glyph at a frame.
pub fn spinner(frame: u64) -> (r: &'static str)
    ensures
        r@ == spinner_at(frame),
{
    let k = (frame / 5) % 4;
    if k == 0 {
        "|"
    } else if k == 1 {
        "/"
    } else if k == 2 {
        "-"
    } else {
        "\\"
    }
}

/// The name of a running step on the status bar.
fn step_name(step: &AppStep) -> (r: &'static str)
    ensures
        r@ == running_step_name(*step),
{
    match step {
        AppStep::BackingUp => "BackingUp",
        AppStep::DeployingPresets => "DeployingPresets",
        AppStep::DeployingIRs => "DeployingIRs",
        AppStep::DeployingPipeWire => "DeployingPipeWire",
        AppStep::DeployingNiri => "DeployingNiri",
        _ => "RestartingServices",
    }
}

fn segment(text: &str, tone: Tone, bold: bool) -> (r: Segment)
    ensures
        segment_view(r) == (text@, tone, bold),
{
    Segment { text: String::from_str(text), tone, bold }
}

/// The status bar at a frame.
pub fn footer_status(app: &AppState, frame: u64) -> (r: Vec<Segment>)
    ensures
        segments_view(r@) == footer_view(app.current_step, app.mode, frame),
{
    let mut parts: Vec<Segment> = Vec::new();
    match &app.current_step {
        AppStep::Idle => {
            parts.push(segment(" [Q] Quit ", Tone::Bright, true));
            if app.mode != AppMode::Rollback {
                parts.push(segment("[D] Deploy ", Tone::Success, true));
            }
            parts.push(segment("[R] Rollback ", Tone::Warning, true));
        },
        AppStep::Done => {
            parts.push(segment(" \u{2713} Deployment complete! ", Tone::Success, true));
        },
        AppStep::Error(message) => {
            parts.push(
                Segment {
                    text: cat2(" \u{2717} Error: ", message.as_str()),
                    tone: Tone::Error,
                    bold: true,
                },
            );
        },
        _ => {
            parts.push(
                Segment { text: cat3(" ", spinner(frame), " "), tone: Tone::Primary, bold: true },
            );
            parts.push(segment(step_name(&app.current_step), Tone::Bright, false));
        },
    }
    assert(segments_view(parts@) =~= footer_view(app.current_step, app.mode, frame));
    parts
}

/// The gauge's label: the progress in whole percent.
pub fn progress_label(percent: u8) -> (r: String)
    ensures
        r@ == "Progress: "@ + decimal(percent as nat) + "%"@,
{
    let number = decimal_text(percent as u32);
    cat3("Progress: ", number.as_str(), "%")
}

/// The gauge's colour: yellow once complete, green before.
pub fn gauge_tone(percent: u8) -> (r: Tone)
    ensures
        r == (if percent >= 100 {
            Tone::Warning
        } else {
            Tone::Success
        }),
{
    if percent >= 100 {
        Tone::Warning
    } else {
        Tone::Success
    }
}

} // verus!

//! What holds of the installer across its operations: the order of the
//! deployment, where it comes to rest, and that running it again changes
//! nothing that is already in place.

use vstd::prelude::*;
use vstd::string::*;
use crate::disk::{
    BackupAction,
    backup_action_for,
    directory_for,
    niri_write_for,
    restart_due_for,
};
use crate::paths::{path_join, lemma_join_extends, lemma_join_twice};
use crate::screen::{Tone, footer_view};
use crate::state::{
    AppMode,
    AppStep,
    KeyInput,
    Task,
    key_quits,
    key_starts_run,
    mode_for_flags,
    deploy_started,
    running_index,
    step_after,
    step_after_outcome,
    step_for_index,
    task_for,
};
use crate::steps::{
    RestoreAction,
    restore_action,
    backup_file_name,
    is_backup_name,
    stamp_text,
    backed_up_item,
    restored_item,
    LinkAction,
    LinkObservation,
    NIRI_LINE,
    NiriAction,
    autostart_entry_text,
    link_action,
    link_notes,
    niri_action,
};
use crate::text::{
    bytes_le,
    occurs_at,
    pad2,
    pad4,
    text_contains,
    text_le,
    lemma_ascii_order,
    lemma_bytes_le_common_prefix,
    lemma_encode_utf8_concat,
    lemma_contains_appended,
    lemma_contains_prefix_kept,
    lemma_pad2_order,
    lemma_pad4_order,
    lemma_text_le_split,
    lemma_text_le_total,
};

verus! {

/// Where one successful update leads from `step` in `mode`.
pub open spec fn advanced(step: AppStep, mode: AppMode) -> AppStep {
    match task_for(step, mode) {
        Some(task) => step_after(task),
        None => step,
    }
}

/// The step reached from `step` after `n` successful updates.
pub open spec fn advanced_times(step: AppStep, mode: AppMode, n: nat) -> AppStep
    decreases n,
{
    if n == 0 {
        step
    } else {
        advanced(advanced_times(step, mode, (n - 1) as nat), mode)
    }
}

/// The listed steps and the running steps correspond one to one: the `i`-th
/// listed step runs as `step_for_index(i)`, and only that step runs it.
pub proof fn law_listed_steps_match_running_steps(i: int, step: AppStep)
    requires
        0 <= i < 6,
    ensures
        running_index(step_for_index(i)) == Some(i),
        running_index(step) == Some(i) ==> step == step_for_index(i),
{
}

/// A deployment (or dry run) goes through the backup, the presets, the
/// impulse responses, PipeWire, niri and the service restart in this order,
/// one step per successful update, and is done after the sixth.
pub proof fn law_deployment_order(mode: AppMode, n: nat)
    requires
        mode != AppMode::Rollback,
    ensures
        n < 6 ==> advanced_times(AppStep::BackingUp, mode, n) == step_for_index(n as int),
        n >= 6 ==> advanced_times(AppStep::BackingUp, mode, n) == AppStep::Done,
    decreases n,
{
    if n > 0 {
        law_deployment_order(mode, (n - 1) as nat);
    }
}

/// A rollback is a single task: from the backup step it is done after one
/// successful update.
pub proof fn law_rollback_is_one_task()
    ensures
        task_for(AppStep::BackingUp, AppMode::Rollback) == Some(Task::Rollback),
        advanced(AppStep::BackingUp, AppMode::Rollback) == AppStep::Done,
{
}

/// The installer rests when idle, done, or failed: no work is due there, and
/// a deploy or rollback request only leaves the idle state.
pub proof fn law_resting_states(step: AppStep, mode: AppMode)
    ensures
        task_for(step, mode) is None <==> (step is Idle || step is Done || step is Error),
        !(step is Idle) ==> deploy_started(step) == step,
{
}

/// A failed task always ends in an error that carries its message, whatever
/// the task.
pub proof fn law_failure_is_reported(task: Task, message: String)
    ensures
        step_after_outcome(task, Err(message)) == AppStep::Error(message),
{
}

/// The idle status bar offers the deploy key exactly when pressing it starts
/// a deployment, and always offers the rollback key, which always starts one.
pub proof fn law_status_bar_offers_the_keys_that_act(mode: AppMode, frame: u64)
    ensures
        footer_view(AppStep::Idle, mode, frame).contains(("[D] Deploy "@, Tone::Success, true))
            <==> key_starts_run(KeyInput::Char('d'), mode),
        footer_view(AppStep::Idle, mode, frame).contains(("[R] Rollback "@, Tone::Warning, true)),
        key_starts_run(KeyInput::Char('r'), mode),
{
    let hint = ("[D] Deploy "@, Tone::Success, true);
    let shown = footer_view(AppStep::Idle, mode, frame);
    reveal_strlit("[D] Deploy ");
    reveal_strlit(" [Q] Quit ");
    reveal_strlit("[R] Rollback ");
    if mode != AppMode::Rollback {
        assert(shown[1] == hint);
    } else {
        assert(shown[shown.len() - 1] == ("[R] Rollback "@, Tone::Warning, true));
        if shown.contains(hint) {
            let i = choose|i: int| 0 <= i < shown.len() && shown[i] == hint;
            assert(shown[i].0.len() != hint.0.len());
        }
    }
    if mode != AppMode::Rollback {
        assert(shown[2] == ("[R] Rollback "@, Tone::Warning, true));
    }
}

/// A dry run only shows the plan: it writes no archive, creates no
/// directory, touches no link, writes no autostart file, restarts no service,
/// and never turns into a rollback (it starts at the backup step, no update
/// leads back to rest, and only a resting installer switches to a rollback).
pub proof fn law_dry_run_changes_nothing(
    step: AppStep,
    seen: LinkObservation,
    dir: Seq<char>,
    content: Option<Seq<char>>,
    task: Task,
    outcome: Result<(), String>,
)
    ensures
        backup_action_for(AppMode::DryRun) == BackupAction::Report,
        directory_for(AppMode::DryRun, dir) is None,
        link_action(true, seen) == LinkAction::Keep,
        niri_write_for(AppMode::DryRun, content) is None,
        !restart_due_for(AppMode::DryRun),
        task_for(step, AppMode::DryRun) != Some(Task::Rollback),
        !(step_after_outcome(task, outcome) is Idle),
{
}

/// The step reached from `step` in `mode` after updates that end with
/// `outcomes`, in order; an update where no work is due changes nothing.
pub open spec fn run_updates(step: AppStep, mode: AppMode, outcomes: Seq<Result<(), String>>) -> AppStep
    decreases outcomes.len(),
{
    if outcomes.len() == 0 {
        step
    } else {
        let before = run_updates(step, mode, outcomes.drop_last());
        match task_for(before, mode) {
            Some(task) => step_after_outcome(task, outcomes.last()),
            None => before,
        }
    }
}

proof fn lemma_deployment_progress(mode: AppMode, outcomes: Seq<Result<(), String>>)
    requires
        mode != AppMode::Rollback,
    ensures
        ({
            let r = run_updates(AppStep::BackingUp, mode, outcomes);
            ||| r is Error
            ||| outcomes.len() < 6 && r == step_for_index(outcomes.len() as int)
            ||| outcomes.len() >= 6 && r == AppStep::Done
        }),
    decreases outcomes.len(),
{
    if outcomes.len() > 0 {
        lemma_deployment_progress(mode, outcomes.drop_last());
    }
}

proof fn lemma_rollback_progress(outcomes: Seq<Result<(), String>>)
    ensures
        ({
            let r = run_updates(AppStep::BackingUp, AppMode::Rollback, outcomes);
            ||| r is Error
            ||| outcomes.len() == 0 && r == AppStep::BackingUp
            ||| outcomes.len() >= 1 && r == AppStep::Done
        }),
    decreases outcomes.len(),
{
    if outcomes.len() > 0 {
        lemma_rollback_progress(outcomes.drop_last());
    }
}

/// Whatever the tasks' outcomes, a run that starts at the backup step comes to
/// rest, done or failed, after at most six updates (one for a rollback), and
/// further updates change nothing.
pub proof fn law_runs_come_to_rest(
    mode: AppMode,
    outcomes: Seq<Result<(), String>>,
    more: Seq<Result<(), String>>,
)
    requires
        outcomes.len() >= (if mode == AppMode::Rollback {
            1nat
        } else {
            6nat
        }),
    ensures
        run_updates(AppStep::BackingUp, mode, outcomes) is Done || run_updates(
            AppStep::BackingUp,
            mode,
            outcomes,
        ) is Error,
        run_updates(AppStep::BackingUp, mode, outcomes + more) == run_updates(
            AppStep::BackingUp,
            mode,
            outcomes,
        ),
    decreases more.len(),
{
    if mode == AppMode::Rollback {
        lemma_rollback_progress(outcomes);
    } else {
        lemma_deployment_progress(mode, outcomes);
    }
    if more.len() > 0 {
        law_runs_come_to_rest(mode, outcomes, more.drop_last());
        assert((outcomes + more).drop_last() =~= outcomes + more.drop_last());
    }
}

/// A rollback puts back what a backup saved, where it was saved from: the
/// `i`-th item is archived under its path relative to the home directory,
/// and restored from that path in the unpacked archive to the place it was
/// read from.
pub proof fn law_restore_returns_items_to_their_place(
    unpacked: Seq<char>,
    home: Seq<char>,
    i: int,
)
    requires
        0 <= i < 4,
    ensures
        restored_item(unpacked, home, i).1 == backed_up_item(home, i).0,
        restored_item(unpacked, home, i).0 == path_join(unpacked, backed_up_item(home, i).1),
{
}

/// Linking is idempotent: where the correct link is already in place, a run
/// does nothing and logs nothing.
pub proof fn law_link_idempotent(seen: LinkObservation, source: Seq<char>, dest: Seq<char>)
    requires
        seen.present,
        seen.links_to_source,
    ensures
        link_action(false, seen) == LinkAction::Keep,
        link_notes(false, seen, source, dest) == Seq::<Seq<char>>::empty(),
{
}

/// The autostart entry starts EasyEffects.
proof fn lemma_entry_mentions_easyeffects()
    ensures
        text_contains(autostart_entry_text(), "easyeffects"@),
{
    reveal_strlit("run-on-spawn \"easyeffects\" \"--gapplication-service\"");
    reveal_strlit("easyeffects");
    let line = NIRI_LINE@;
    assert(line.subrange(14, 25) =~= "easyeffects"@);
    assert(occurs_at(line, "easyeffects"@, 14));
    lemma_contains_prefix_kept(line, "\n"@, "easyeffects"@);
}

/// The niri step is idempotent: a file that the step created, or one it
/// appended its entry to, is left alone by the next run.
pub proof fn law_niri_idempotent(content: Seq<char>)
    ensures
        niri_action(Some(autostart_entry_text())) == NiriAction::AlreadyConfigured,
        niri_action(Some(content + autostart_entry_text())) == NiriAction::AlreadyConfigured,
{
    lemma_entry_mentions_easyeffects();
    lemma_contains_appended(content, autostart_entry_text(), "easyeffects"@);
}

/// A local time: year, month, day, hour, minute, second.
pub type LocalTime = (int, int, int, int, int, int);

/// The time stamp of a local time.
pub open spec fn stamp_of(t: LocalTime) -> Seq<char> {
    stamp_text(t.0, t.1 as nat, t.2 as nat, t.3 as nat, t.4 as nat, t.5 as nat)
}

/// A time with a four-digit year and two-digit fields, as the clock gives
/// between the years 0 and 9999.
pub open spec fn ordinary_time(t: LocalTime) -> bool {
    &&& 0 <= t.0 <= 9999
    &&& 0 <= t.1 < 100
    &&& 0 <= t.2 < 100
    &&& 0 <= t.3 < 100
    &&& 0 <= t.4 < 100
    &&& 0 <= t.5 < 100
}

/// `a` is no later than `b`.
pub open spec fn time_le(a: LocalTime, b: LocalTime) -> bool {
    if a.0 != b.0 {
        a.0 < b.0
    } else if a.1 != b.1 {
        a.1 < b.1
    } else if a.2 != b.2 {
        a.2 < b.2
    } else if a.3 != b.3 {
        a.3 < b.3
    } else if a.4 != b.4 {
        a.4 < b.4
    } else {
        a.5 <= b.5
    }
}

proof fn lemma_stamp_order(a: LocalTime, b: LocalTime)
    requires
        ordinary_time(a),
        ordinary_time(b),
    ensures
        text_le(stamp_of(a), stamp_of(b)) == time_le(a, b),
        stamp_of(a).len() == stamp_of(b).len(),
{
    let u = seq!['_'];
    let s_a = pad2(a.5 as nat);
    let s_b = pad2(b.5 as nat);
    let n_a = pad2(a.4 as nat) + s_a;
    let n_b = pad2(b.4 as nat) + s_b;
    let h_a = pad2(a.3 as nat) + n_a;
    let h_b = pad2(b.3 as nat) + n_b;
    let u_a = u + h_a;
    let u_b = u + h_b;
    let d_a = pad2(a.2 as nat) + u_a;
    let d_b = pad2(b.2 as nat) + u_b;
    let m_a = pad2(a.1 as nat) + d_a;
    let m_b = pad2(b.1 as nat) + d_b;
    lemma_pad2_order(a.5 as nat, b.5 as nat);
    lemma_pad2_order(a.4 as nat, b.4 as nat);
    lemma_pad2_order(a.3 as nat, b.3 as nat);
    lemma_pad2_order(a.2 as nat, b.2 as nat);
    lemma_pad2_order(a.1 as nat, b.1 as nat);
    lemma_pad4_order(a.0 as nat, b.0 as nat);
    lemma_text_le_split(pad2(a.4 as nat), pad2(b.4 as nat), s_a, s_b);
    lemma_text_le_split(pad2(a.3 as nat), pad2(b.3 as nat), n_a, n_b);
    lemma_text_le_split(u, u, h_a, h_b);
    lemma_text_le_split(pad2(a.2 as nat), pad2(b.2 as nat), u_a, u_b);
    lemma_text_le_split(pad2(a.1 as nat), pad2(b.1 as nat), d_a, d_b);
    lemma_text_le_split(pad4(a.0 as nat), pad4(b.0 as nat), m_a, m_b);
    assert(stamp_of(a) == pad4(a.0 as nat) + m_a);
    assert(stamp_of(b) == pad4(b.0 as nat) + m_b);
}

proof fn lemma_pad2_ascii(n: nat)
    requires
        n < 100,
    ensures
        vstd::utf8::is_ascii_chars(pad2(n)),
{
}

proof fn lemma_stamp_ascii(t: LocalTime)
    requires
        ordinary_time(t),
    ensures
        vstd::utf8::is_ascii_chars(stamp_of(t)),
{
    let n = t.0 as nat;
    lemma_pad2_ascii(n / 100);
    lemma_pad2_ascii(n % 100);
    lemma_pad2_ascii(t.1 as nat);
    lemma_pad2_ascii(t.2 as nat);
    lemma_pad2_ascii(t.3 as nat);
    lemma_pad2_ascii(t.4 as nat);
    lemma_pad2_ascii(t.5 as nat);
    assert(vstd::utf8::is_ascii_chars(seq!['_']));
    let s = stamp_of(t);
    assert forall|i: int| 0 <= i < s.len() implies '\0' <= #[trigger] s[i] <= '\u{7f}' by {
        if i < 2 {
            assert(s[i] == pad2(n / 100)[i]);
        } else if i < 4 {
            assert(s[i] == pad2(n % 100)[i - 2]);
        } else if i < 6 {
            assert(s[i] == pad2(t.1 as nat)[i - 4]);
        } else if i < 8 {
            assert(s[i] == pad2(t.2 as nat)[i - 6]);
        } else if i < 9 {
            assert(s[i] == '_');
        } else if i < 11 {
            assert(s[i] == pad2(t.3 as nat)[i - 9]);
        } else if i < 13 {
            assert(s[i] == pad2(t.4 as nat)[i - 11]);
        } else {
            assert(s[i] == pad2(t.5 as nat)[i - 13]);
        }
    }
}

/// The path of the archive a backup at time `t` writes below `home`.
pub open spec fn archive_path_of(home: Seq<char>, t: LocalTime) -> Seq<char> {
    path_join(home, ".config/"@ + backup_file_name(stamp_of(t)))
}

/// Backups are named so that a later backup sorts later: for times with a
/// four-digit year, the UTF-8 bytes of the archive names (by which a
/// rollback picks the latest backup), and those of the whole archive paths
/// below the same home directory, compare as the times do; and every such
/// name is recognised as a backup.
pub proof fn law_later_backups_sort_later(home: Seq<char>, a: LocalTime, b: LocalTime)
    requires
        ordinary_time(a),
        ordinary_time(b),
    ensures
        is_backup_name(backup_file_name(stamp_of(a))),
        bytes_le(
            vstd::utf8::encode_utf8(backup_file_name(stamp_of(a))),
            vstd::utf8::encode_utf8(backup_file_name(stamp_of(b))),
        ) == time_le(a, b),
        bytes_le(
            vstd::utf8::encode_utf8(archive_path_of(home, a)),
            vstd::utf8::encode_utf8(archive_path_of(home, b)),
        ) == time_le(a, b),
{
    lemma_backup_names_sort_by_time(a, b);
    reveal_strlit(".config/");
    let c = ".config/"@;
    let na = backup_file_name(stamp_of(a));
    let nb = backup_file_name(stamp_of(b));
    lemma_join_extends(home, c, na);
    lemma_join_extends(home, c, nb);
    let p = path_join(home, c);
    lemma_encode_utf8_concat(p, na);
    lemma_encode_utf8_concat(p, nb);
    lemma_bytes_le_common_prefix(
        vstd::utf8::encode_utf8(p),
        vstd::utf8::encode_utf8(na),
        vstd::utf8::encode_utf8(nb),
    );
}

/// A backup's archive lies in the directory where a rollback looks for
/// backups: joining the backup directory with the archive's name gives the
/// archive's path.
pub proof fn law_backups_lie_in_the_backup_directory(home: Seq<char>, t: LocalTime)
    requires
        ordinary_time(t),
    ensures
        path_join(path_join(home, ".config"@), backup_file_name(stamp_of(t))) == archive_path_of(
            home,
            t,
        ),
{
    reveal_strlit(".config");
    reveal_strlit(".config/");
    reveal_strlit("audio_backup_");
    let dir = ".config"@;
    let name = backup_file_name(stamp_of(t));
    assert(dir =~= seq!['.', 'c', 'o', 'n', 'f', 'i', 'g']);
    assert(".config/"@ =~= seq!['.', 'c', 'o', 'n', 'f', 'i', 'g', '/']);
    assert("audio_backup_"@ =~= seq!['a', 'u', 'd', 'i', 'o', '_', 'b', 'a', 'c', 'k', 'u', 'p', '_']);
    assert(name[0] == 'a');
    lemma_join_twice(home, dir, name);
    assert(dir + seq!['/'] + name =~= ".config/"@ + name);
}

/// Backup file names compare, byte for byte, as the times they carry.
proof fn lemma_backup_names_sort_by_time(a: LocalTime, b: LocalTime)
    requires
        ordinary_time(a),
        ordinary_time(b),
    ensures
        is_backup_name(backup_file_name(stamp_of(a))),
        bytes_le(
            vstd::utf8::encode_utf8(backup_file_name(stamp_of(a))),
            vstd::utf8::encode_utf8(backup_file_name(stamp_of(b))),
        ) == time_le(a, b),
{
    reveal_strlit("audio_backup_");
    reveal_strlit(".tar.gz");
    let p = "audio_backup_"@;
    let q = ".tar.gz"@;
    assert(p =~= seq!['a', 'u', 'd', 'i', 'o', '_', 'b', 'a', 'c', 'k', 'u', 'p', '_']);
    assert(q =~= seq!['.', 't', 'a', 'r', '.', 'g', 'z']);
    let sa = stamp_of(a);
    let sb = stamp_of(b);
    let na = backup_file_name(sa);
    let nb = backup_file_name(sb);
    lemma_stamp_order(a, b);
    lemma_stamp_ascii(a);
    lemma_stamp_ascii(b);
    lemma_text_le_split(p, p, sa + q, sb + q);
    lemma_text_le_split(sa, sb, q, q);
    lemma_text_le_total(q, q);
    lemma_text_le_total(sa, sb);
    assert(text_le(na, nb) == text_le(sa, sb));
    assert(na.subrange(0, p.len() as int) =~= p);
    assert(na.subrange(na.len() - q.len(), na.len() as int) =~= q);
    assert(vstd::utf8::is_ascii_chars(p));
    assert(vstd::utf8::is_ascii_chars(q));
    vstd::utf8::is_ascii_chars_concat(sa + q, sa, q);
    vstd::utf8::is_ascii_chars_concat(sb + q, sb, q);
    vstd::utf8::is_ascii_chars_concat(na, p, sa + q);
    vstd::utf8::is_ascii_chars_concat(nb, p, sb + q);
    lemma_ascii_order(na, nb);
    vstd::utf8::is_ascii_chars_encode_utf8(na);
    vstd::utf8::is_ascii_chars_encode_utf8(nb);
    assert(vstd::utf8::encode_utf8(na) =~= crate::text::ascii_bytes(na));
    assert(vstd::utf8::encode_utf8(nb) =~= crate::text::ascii_bytes(nb));
}

/// A rollback touches only what the backup holds: an item missing from the
/// backup leaves its destination alone, whatever is there; a saved item is
/// moved into place, after removing the directory or file in its way.
pub proof fn law_restore_touches_only_saved_items(
    in_backup: bool,
    dest_exists: bool,
    dest_is_dir: bool,
)
    ensures
        restore_action(false, dest_exists, dest_is_dir) == RestoreAction::Skip,
        restore_action(in_backup, dest_exists, dest_is_dir) != RestoreAction::Skip ==> in_backup,
        in_backup ==> restore_action(in_backup, dest_exists, dest_is_dir) != RestoreAction::Skip,
        in_backup && !dest_exists ==> restore_action(in_backup, dest_exists, dest_is_dir)
            == RestoreAction::Move,
        restore_action(in_backup, dest_exists, dest_is_dir) == RestoreAction::ReplaceDirectory
            ==> dest_exists && dest_is_dir,
        restore_action(in_backup, dest_exists, dest_is_dir) == RestoreAction::ReplaceFile
            ==> dest_exists && !dest_is_dir,
        in_backup && dest_exists ==> restore_action(in_backup, dest_exists, dest_is_dir)
            != RestoreAction::Move,
{
}

/// Only a dry run skips the restart of the audio services: a deployment and
/// a rollback (whatever the dry-run flag says, the rollback flag wins) both
/// restart them, exactly when they also write to the disk.
pub proof fn law_only_dry_runs_skip_the_restart(mode: AppMode, dir: Seq<char>, dry_run: bool)
    ensures
        restart_due_for(mode) <==> mode != AppMode::DryRun,
        restart_due_for(mode) <==> directory_for(mode, dir) is Some,
        restart_due_for(mode) <==> backup_action_for(mode) == BackupAction::WriteArchive,
        restart_due_for(mode_for_flags(true, dry_run)),
        restart_due_for(mode_for_flags(false, false)),
        !restart_due_for(mode_for_flags(false, true)),
{
}

/// Only `q` and Esc quit; a key that starts a deployment or a rollback never
/// quits.
pub proof fn law_only_quit_keys_quit(key: KeyInput, mode: AppMode)
    ensures
        key_quits(key) <==> (key == KeyInput::Char('q') || key == KeyInput::Esc),
        key_starts_run(key, mode) ==> !key_quits(key),
        key_starts_run(key, mode) ==> (key == KeyInput::Char('d') || key == KeyInput::Char('r')),
        key_starts_run(KeyInput::Char('r'), mode),
        mode != AppMode::Rollback ==> key_starts_run(KeyInput::Char('d'), mode),
{
}

/// An existing autostart file is left alone exactly when it mentions
/// EasyEffects; any other existing file gets the entry appended, and a
/// missing file is created.
pub proof fn law_niri_leaves_alone_only_configured_files(content: Seq<char>)
    ensures
        niri_action(Some(content)) == NiriAction::AlreadyConfigured <==> text_contains(
            content,
            "easyeffects"@,
        ),
        !text_contains(content, "easyeffects"@) ==> niri_action(Some(content)) == NiriAction::Append,
        niri_action(None) == NiriAction::Create,
{
}

} // verus!

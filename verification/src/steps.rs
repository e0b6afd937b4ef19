//! The deployment and rollback steps: where each one reads and writes, what it
//! decides from what the file system shows, and what it records in the state.
//!
//! The caller looks at the file system, hands the observations in, carries
//! out the returned action, and reports back; every change of the state goes
//! through the functions here.

use vstd::prelude::*;
use vstd::string::*;
use crate::paths::{join_path, path_join, tilde_expanded, has_json_extension, file_extension};
use crate::state::{AppState, AppStep, AppMode, StepStatus, step_for_index};
use crate::text::{
    cat2,
    cat3,
    cat4,
    contains_text,
    decimal,
    decimal_text,
    ends_with_text,
    occurs_at,
    starts_with_text,
    text_contains,
    text_ends_with,
    text_starts_with,
    bytes_le,
    bytes_le_exec,
    lemma_bytes_le_total,
    lemma_bytes_le_transitive,
    pad2,
    pad2_text,
    year_text,
    year_text_of,
};

verus! {

/// Where this repository lives.
pub const REPO_ROOT: &'static str = "/home/code_warlord/projects/audio-dotfiles";

/// Where EasyEffects reads its output presets, below the home directory.
pub const PRESETS_TARGET: &'static str = ".local/share/easyeffects/output";

/// Where EasyEffects reads its impulse responses, below the home directory.
pub const IRS_TARGET: &'static str = ".local/share/easyeffects/irs";

/// PipeWire's drop-in configuration directory, below the home directory.
pub const PIPEWIRE_CONF_DIR: &'static str = ".config/pipewire/pipewire.conf.d";

/// The niri autostart file, below the home directory.
pub const NIRI_AUTOSTART: &'static str = ".config/niri/cfg/autostart.kdl";

/// The line that makes niri start EasyEffects.
pub const NIRI_LINE: &'static str = "run-on-spawn \"easyeffects\" \"--gapplication-service\"";

/// The program that restarts the audio services.
pub const RESTART_PROGRAM: &'static str = "systemctl";

/// The permission bits of a file stored in a backup archive.
pub const ARCHIVED_FILE_MODE: u32 = 0o644;

/// The directories that a backup saves and a rollback restores, below the
/// home directory.
pub open spec fn managed_dirs() -> Seq<Seq<char>> {
    seq![PRESETS_TARGET@, IRS_TARGET@, PIPEWIRE_CONF_DIR@]
}

/// Everything a rollback restores, below the home directory.
pub open spec fn restored_paths() -> Seq<Seq<char>> {
    managed_dirs().push(NIRI_AUTOSTART@)
}

/// The `i`-th item a backup saves below `home`: where it is read from, and
/// the name it gets in the archive.
pub open spec fn backed_up_item(home: Seq<char>, i: int) -> (Seq<char>, Seq<char>) {
    (path_join(home, restored_paths()[i]), restored_paths()[i])
}

/// The `i`-th item a rollback restores: where it lies in the backup unpacked
/// into `unpacked`, and where it goes below `home`.
pub open spec fn restored_item(unpacked: Seq<char>, home: Seq<char>, i: int) -> (
    Seq<char>,
    Seq<char>,
) {
    (path_join(unpacked, restored_paths()[i]), path_join(home, restored_paths()[i]))
}

/// The listed steps after the status of step `i` became `status`.
pub open spec fn with_status(
    steps: Seq<(&'static str, StepStatus)>,
    i: int,
    status: StepStatus,
) -> Seq<(&'static str, StepStatus)> {
    steps.update(i, (steps[i].0, status))
}

/// `new` has the mode, backup path and quit request of `old`.
pub open spec fn keeps_run(old: &AppState, new: &AppState) -> bool {
    &&& new.mode == old.mode
    &&& new.backup_path == old.backup_path
    &&& new.should_quit == old.should_quit
}

/// A file or directory to archive, and the name it gets in the archive.
pub struct ArchiveSource {
    pub source: String,
    pub archive_name: String,
}

/// What a backup writes: the archive, and what goes into it.
pub struct BackupPlan {
    pub archive_path: String,
    pub directories: Vec<ArchiveSource>,
    pub files: Vec<ArchiveSource>,
    pub file_mode: u32,
}

/// The sources of a list of archive entries.
pub open spec fn source_view(items: Seq<ArchiveSource>) -> Seq<Seq<char>> {
    items.map_values(|a: ArchiveSource| a.source@)
}

/// The lines `label + source` for the sources that are present, in order.
pub open spec fn present_notes(label: Seq<char>, sources: Seq<Seq<char>>, present: Seq<bool>) -> Seq<
    Seq<char>,
>
    decreases sources.len(),
{
    if sources.len() == 0 || present.len() == 0 {
        Seq::empty()
    } else {
        let before = present_notes(label, sources.drop_last(), present.drop_last());
        if present.last() {
            before.push(label + sources.last())
        } else {
            before
        }
    }
}

/// What the file system shows at the place where a link is due.
#[derive(Debug, Clone, Copy, PartialEq, Eq, Structural)]
pub struct LinkObservation {
    /// Something is there: it exists, or is a symbolic link (dangling or not).
    pub present: bool,
    /// What is there is a symbolic link.
    pub is_symlink: bool,
    /// What is there is a link to the intended source.
    pub links_to_source: bool,
}

/// What to do at the place where a link is due.
#[derive(Debug, Clone, Copy, PartialEq, Eq, Structural)]
pub enum LinkAction {
    /// Nothing.
    Keep,
    /// Create the parent directories and the link.
    Create,
    /// Remove the link that is there, then create as for `Create`.
    Replace,
}

/// The link decision: a dry run and a correct link change nothing, a regular
/// file is left alone, another link is replaced, an empty place is filled.
pub open spec fn link_action(dry_run: bool, seen: LinkObservation) -> LinkAction {
    if dry_run {
        LinkAction::Keep
    } else if seen.present {
        if seen.links_to_source {
            LinkAction::Keep
        } else if seen.is_symlink {
            LinkAction::Replace
        } else {
            LinkAction::Keep
        }
    } else {
        LinkAction::Create
    }
}

/// The line a link decision logs before anything is done, where it logs one.
pub open spec fn link_notes(
    dry_run: bool,
    seen: LinkObservation,
    source: Seq<char>,
    dest: Seq<char>,
) -> Seq<Seq<char>> {
    if dry_run {
        seq!["Would symlink: "@ + dest + " -> "@ + source]
    } else if seen.present && !seen.links_to_source && !seen.is_symlink {
        seq!["Warning: "@ + dest + " exists as a regular file, skipping"@]
    } else {
        Seq::empty()
    }
}

/// A repository directory and the directory its files are linked into.
pub struct DeployDirs {
    pub repo_dir: String,
    pub target_dir: String,
}

/// What the niri autostart step does.
#[derive(Debug, Clone, Copy, PartialEq, Eq, Structural)]
pub enum NiriAction {
    /// The file already starts EasyEffects: leave it.
    AlreadyConfigured,
    /// Append the autostart entry to the file.
    Append,
    /// Create the file (and its directory) holding the autostart entry.
    Create,
}

/// The niri decision, given the autostart file's content where it exists.
pub open spec fn niri_action(content: Option<Seq<char>>) -> NiriAction {
    match content {
        Some(c) => if text_contains(c, "easyeffects"@) {
            NiriAction::AlreadyConfigured
        } else {
            NiriAction::Append
        },
        None => NiriAction::Create,
    }
}

/// The text written to the autostart file: the line and a line break.
pub open spec fn autostart_entry_text() -> Seq<char> {
    NIRI_LINE@ + "\n"@
}

/// What a dry run of the niri step logs.
pub open spec fn niri_dry_run_note(path: Seq<char>, content: Option<Seq<char>>) -> Seq<char> {
    match niri_action(content) {
        NiriAction::AlreadyConfigured => "niri autostart already configured"@,
        NiriAction::Append => "Would add to "@ + path + ": "@ + NIRI_LINE@,
        NiriAction::Create => "Would create "@ + path + " with easyeffects entry"@,
    }
}

/// What the niri step logs once its action is carried out.
pub open spec fn niri_note(action: NiriAction) -> Seq<char> {
    match action {
        NiriAction::AlreadyConfigured => "niri autostart already configured, skipping"@,
        NiriAction::Append => "Added easyeffects to niri autostart"@,
        NiriAction::Create => "Created niri autostart with easyeffects entry"@,
    }
}

/// How the restart of the audio services went.
#[derive(Debug, Clone, PartialEq)]
pub enum RestartOutcome {
    /// Not attempted: a dry run.
    Skipped,
    /// The command ran and succeeded.
    Succeeded,
    /// The command ran and failed; its error output.
    Failed(String),
    /// The command could not be run; why.
    Unavailable(String),
}

/// What the restart step logs.
pub open spec fn restart_note(outcome: RestartOutcome) -> Seq<char> {
    match outcome {
        RestartOutcome::Skipped => "Would restart pipewire, pipewire-pulse, wireplumber"@,
        RestartOutcome::Succeeded => "Services restarted successfully"@,
        RestartOutcome::Failed(err) => "Warning: service restart had issues: "@ + err@,
        RestartOutcome::Unavailable(why) => "Warning: could not restart services: "@ + why@,
    }
}

/// The text that `String::from_utf8_lossy` makes of `bytes`.
pub uninterp spec fn utf8_lossy(bytes: Seq<u8>) -> Seq<char>;

/// Turns bytes into text the way `String::from_utf8_lossy` does: valid UTF-8
/// is decoded, each invalid sequence becomes U+FFFD. The contract claims that
/// the result depends on the bytes alone and that valid UTF-8 decodes as
/// such; the replacement of invalid sequences is left unsaid.
#[verifier::external_body]
fn lossy_text(bytes: &[u8]) -> (r: String)
    ensures
        r@ == utf8_lossy(bytes@),
        vstd::utf8::valid_utf8(bytes@) ==> r@ == vstd::utf8::decode_utf8(bytes@),
{
    String::from_utf8_lossy(bytes).into_owned()
}

/// The outcome of a restart command that failed with error output `stderr`.
pub fn restart_failure(stderr: &[u8]) -> (r: RestartOutcome)
    ensures
        r matches RestartOutcome::Failed(text) && text@ == utf8_lossy(stderr@),
        vstd::utf8::valid_utf8(stderr@) ==> (r matches RestartOutcome::Failed(text) && text@
            == vstd::utf8::decode_utf8(stderr@)),
{
    RestartOutcome::Failed(lossy_text(stderr))
}

/// Whether a file name is that of a backup archive.
pub open spec fn is_backup_name(name: Seq<char>) -> bool {
    text_starts_with(name, "audio_backup_"@) && text_ends_with(name, ".tar.gz"@)
}

/// Whether `name` is the name of a backup archive.
pub fn is_backup_file_name(name: &str) -> (r: bool)
    ensures
        r == is_backup_name(name@),
{
    starts_with_text(name, "audio_backup_") && ends_with_text(name, ".tar.gz")
}

/// A directory entry's name: as text (invalid UTF-8 replaced), and as the
/// bytes the file system holds.
pub struct EntryName {
    pub text: String,
    pub bytes: Vec<u8>,
}

/// The backup to restore: among the entries whose name (as text) is that of
/// a backup archive, the last in the byte order of their names (where two
/// are equal, the later in the list).
pub fn latest_backup(names: &Vec<EntryName>) -> (r: Option<usize>)
    ensures
        r is None <==> (forall|i: int|
            0 <= i < names@.len() ==> !is_backup_name(#[trigger] names@[i].text@)),
        r matches Some(k) ==> {
            &&& k < names@.len()
            &&& is_backup_name(names@[k as int].text@)
            &&& forall|i: int|
                0 <= i < names@.len() && is_backup_name(#[trigger] names@[i].text@) ==> bytes_le(
                    names@[i].bytes@,
                    names@[k as int].bytes@,
                )
            &&& forall|i: int|
                k < i < names@.len() && is_backup_name(#[trigger] names@[i].text@) ==> !bytes_le(
                    names@[k as int].bytes@,
                    names@[i].bytes@,
                )
        },
{
    let mut best: Option<usize> = None;
    let n = names.len();
    let mut i: usize = 0;
    while i < n
        invariant
            n == names@.len(),
            i <= n,
            best is None <==> (forall|j: int|
                0 <= j < i ==> !is_backup_name(#[trigger] names@[j].text@)),
            best matches Some(k) ==> {
                &&& k < i
                &&& is_backup_name(names@[k as int].text@)
                &&& forall|j: int|
                    0 <= j < i && is_backup_name(#[trigger] names@[j].text@) ==> bytes_le(
                        names@[j].bytes@,
                        names@[k as int].bytes@,
                    )
                &&& forall|j: int|
                    k < j < i && is_backup_name(#[trigger] names@[j].text@) ==> !bytes_le(
                        names@[k as int].bytes@,
                        names@[j].bytes@,
                    )
            },
        decreases n - i,
    {
        if is_backup_file_name(names[i].text.as_str()) {
            match best {
                None => {
                    proof {
                        lemma_bytes_le_total(names@[i as int].bytes@, names@[i as int].bytes@);
                    }
                    best = Some(i);
                },
                Some(k) => {
                    if bytes_le_exec(names[k].bytes.as_slice(), names[i].bytes.as_slice()) {
                        proof {
                            assert forall|j: int|
                                0 <= j < i + 1 && is_backup_name(
                                    #[trigger] names@[j].text@,
                                ) implies bytes_le(
                                names@[j].bytes@,
                                names@[i as int].bytes@,
                            ) by {
                                if j < i {
                                    lemma_bytes_le_transitive(
                                        names@[j].bytes@,
                                        names@[k as int].bytes@,
                                        names@[i as int].bytes@,
                                    );
                                } else {
                                    lemma_bytes_le_total(
                                        names@[i as int].bytes@,
                                        names@[i as int].bytes@,
                                    );
                                }
                            }
                        }
                        best = Some(i);
                    } else {
                        proof {
                            lemma_bytes_le_total(names@[k as int].bytes@, names@[i as int].bytes@);
                        }
                    }
                },
            }
        }
        i = i + 1;
    }
    best
}

impl AppState {
    /// Sets the status of step `i`, nothing else.
    fn set_status(&mut self, i: usize, status: StepStatus)
        requires
            i < old(self).step_statuses@.len(),
        ensures
            final(self).step_statuses@ == with_status(old(self).step_statuses@, i as int, status),
            final(self).names_view() == old(self).names_view(),
            final(self).mode == old(self).mode,
            final(self).current_step == old(self).current_step,
            final(self).progress_percent == old(self).progress_percent,
            final(self).log_messages == old(self).log_messages,
            final(self).backup_path == old(self).backup_path,
            final(self).should_quit == old(self).should_quit,
    {
        let name = self.step_statuses[i].0;
        self.step_statuses.set(i, (name, status));
        assert(self.names_view() =~= old(self).names_view());
    }

    /// Appends `message` to the log, nothing else.
    fn log(&mut self, message: String)
        ensures
            final(self).log_view() == old(self).log_view().push(message@),
            final(self).mode == old(self).mode,
            final(self).current_step == old(self).current_step,
            final(self).progress_percent == old(self).progress_percent,
            final(self).step_statuses == old(self).step_statuses,
            final(self).backup_path == old(self).backup_path,
            final(self).should_quit == old(self).should_quit,
    {
        self.log_messages.push(message);
        assert(self.log_view() =~= old(self).log_view().push(message@));
    }

    /// Starts listed step `index`: it is running, and so is the matching step.
    pub fn begin_step(&mut self, index: usize)
        requires
            old(self).wf(),
            index < 6,
        ensures
            final(self).wf(),
            final(self).step_statuses@ == with_status(
                old(self).step_statuses@,
                index as int,
                StepStatus::Running,
            ),
            final(self).current_step == step_for_index(index as int),
            final(self).progress_percent == old(self).progress_percent,
            final(self).log_messages == old(self).log_messages,
            keeps_run(old(self), final(self)),
    {
        self.set_status(index, StepStatus::Running);
        self.current_step = if index == 0 {
            AppStep::BackingUp
        } else if index == 1 {
            AppStep::DeployingPresets
        } else if index == 2 {
            AppStep::DeployingIRs
        } else if index == 3 {
            AppStep::DeployingPipeWire
        } else if index == 4 {
            AppStep::DeployingNiri
        } else {
            AppStep::RestartingServices
        };
    }

    /// Ends listed step `index` as done, with the progress at `percent`.
    fn end_step(&mut self, index: usize, percent: u8)
        requires
            old(self).wf(),
            index < 6,
            percent <= 100,
        ensures
            final(self).wf(),
            final(self).step_statuses@ == with_status(
                old(self).step_statuses@,
                index as int,
                StepStatus::Done,
            ),
            final(self).progress_percent == percent,
            final(self).current_step == old(self).current_step,
            final(self).log_messages == old(self).log_messages,
            keeps_run(old(self), final(self)),
    {
        self.set_status(index, StepStatus::Done);
        self.progress_percent = percent;
    }

    /// Logs `label + source` for each source that is present.
    fn note_present(&mut self, label: &str, items: &Vec<ArchiveSource>, present: &Vec<bool>)
        requires
            present@.len() == items@.len(),
        ensures
            final(self).log_view() == old(self).log_view() + present_notes(
                label@,
                source_view(items@),
                present@,
            ),
            final(self).mode == old(self).mode,
            final(self).current_step == old(self).current_step,
            final(self).progress_percent == old(self).progress_percent,
            final(self).step_statuses == old(self).step_statuses,
            final(self).backup_path == old(self).backup_path,
            final(self).should_quit == old(self).should_quit,
    {
        let n = items.len();
        let mut i: usize = 0;
        while i < n
            invariant
                n == items@.len(),
                present@.len() == n,
                i <= n,
                self.log_view() == old(self).log_view() + present_notes(
                    label@,
                    source_view(items@.take(i as int)),
                    present@.take(i as int),
                ),
                self.mode == old(self).mode,
                self.current_step == old(self).current_step,
                self.progress_percent == old(self).progress_percent,
                self.step_statuses == old(self).step_statuses,
                self.backup_path == old(self).backup_path,
                self.should_quit == old(self).should_quit,
            decreases n - i,
        {
            proof {
                let s1 = source_view(items@.take(i + 1));
                assert(s1.drop_last() =~= source_view(items@.take(i as int)));
                assert(present@.take(i + 1).drop_last() =~= present@.take(i as int));
                assert(s1.last() == items@[i as int].source@);
            }
            if present[i] {
                let line = cat2(label, items[i].source.as_str());
                self.log(line);
                assert(self.log_view() =~= old(self).log_view() + present_notes(
                    label@,
                    source_view(items@.take(i + 1)),
                    present@.take(i + 1),
                ));
            }
            i = i + 1;
        }
        assert(items@.take(n as int) =~= items@);
        assert(present@.take(n as int) =~= present@);
    }
}

/// A time stamp as backups are named by it: `YYYYMMDD_HHMMSS`, the year as
/// `year_text` writes it and the other fields as two digits.
pub open spec fn stamp_text(year: int, month: nat, day: nat, hour: nat, minute: nat, second: nat) -> Seq<
    char,
> {
    year_text(year) + (pad2(month) + (pad2(day) + (seq!['_'] + (pad2(hour) + (pad2(minute) + pad2(
        second,
    ))))))
}

/// The file name of the backup taken at time stamp `stamp`.
pub open spec fn backup_file_name(stamp: Seq<char>) -> Seq<char> {
    "audio_backup_"@ + (stamp + ".tar.gz"@)
}

/// The time stamp of a backup taken at the given local time. A leap second
/// (a nanosecond count of a billion or more) shows as second 60.
pub fn backup_stamp(
    year: i32,
    month: u32,
    day: u32,
    hour: u32,
    minute: u32,
    second: u32,
    nanosecond: u32,
) -> (r: String)
    requires
        month < 100,
        day < 100,
        hour < 100,
        minute < 100,
        second + nanosecond / 1_000_000_000 < 100,
    ensures
        r@ == stamp_text(
            year as int,
            month as nat,
            day as nat,
            hour as nat,
            minute as nat,
            (second + nanosecond / 1_000_000_000) as nat,
        ),
{
    proof {
        reveal_strlit("_");
        assert("_"@ =~= seq!['_']);
    }
    let shown_second = second + nanosecond / 1_000_000_000;
    let mut r = year_text_of(year);
    r.append(pad2_text(month).as_str());
    r.append(pad2_text(day).as_str());
    r.append("_");
    r.append(pad2_text(hour).as_str());
    r.append(pad2_text(minute).as_str());
    r.append(pad2_text(shown_second).as_str());
    assert(r@ =~= stamp_text(
        year as int,
        month as nat,
        day as nat,
        hour as nat,
        minute as nat,
        shown_second as nat,
    ));
    r
}

/// What a backup with time stamp `stamp` writes: the archive
/// `~/.config/audio_backup_<stamp>.tar.gz`, holding the three managed
/// directories and the niri autostart file under their paths relative to the
/// home directory.
pub fn backup_plan(home: &str, stamp: &str) -> (r: BackupPlan)
    ensures
        r.archive_path@ == path_join(home@, ".config/"@ + backup_file_name(stamp@)),
        r.directories@.len() == 3,
        forall|i: int|
            0 <= i < 3 ==> ((#[trigger] r.directories@[i]).source@, r.directories@[i].archive_name@)
                == backed_up_item(home@, i),
        r.files@.len() == 1,
        (r.files@[0].source@, r.files@[0].archive_name@) == backed_up_item(home@, 3),
        r.file_mode == ARCHIVED_FILE_MODE,
{
    let file_name = cat3("audio_backup_", stamp, ".tar.gz");
    assert(file_name@ =~= backup_file_name(stamp@));
    let name = cat2(".config/", file_name.as_str());
    let archive_path = join_path(home, name.as_str());
    let mut directories: Vec<ArchiveSource> = Vec::new();
    directories.push(
        ArchiveSource {
            source: join_path(home, PRESETS_TARGET),
            archive_name: String::from_str(PRESETS_TARGET),
        },
    );
    directories.push(
        ArchiveSource {
            source: join_path(home, IRS_TARGET),
            archive_name: String::from_str(IRS_TARGET),
        },
    );
    directories.push(
        ArchiveSource {
            source: join_path(home, PIPEWIRE_CONF_DIR),
            archive_name: String::from_str(PIPEWIRE_CONF_DIR),
        },
    );
    let mut files: Vec<ArchiveSource> = Vec::new();
    files.push(
        ArchiveSource {
            source: join_path(home, NIRI_AUTOSTART),
            archive_name: String::from_str(NIRI_AUTOSTART),
        },
    );
    BackupPlan { archive_path, directories, files, file_mode: ARCHIVED_FILE_MODE }
}

/// The message of a backup that could not create its archive file.
pub fn backup_create_failed(archive_path: &str) -> (r: String)
    ensures
        r@ == "Failed to create backup file: "@ + archive_path@,
{
    cat2("Failed to create backup file: ", archive_path)
}

/// The message of a backup that could not archive a directory.
pub fn archive_dir_failed(source: &str) -> (r: String)
    ensures
        r@ == "Failed to archive directory: "@ + source@,
{
    cat2("Failed to archive directory: ", source)
}

/// The message of a backup that could not read a file to archive.
pub fn read_file_failed(source: &str) -> (r: String)
    ensures
        r@ == "Failed to read file: "@ + source@,
{
    cat2("Failed to read file: ", source)
}

impl AppState {
    /// A dry run of the backup: logs the archive it would create and each
    /// present directory and file it would store, and sets the progress to
    /// 20%. Returns the archive's path.
    pub fn report_backup_dry_run(
        &mut self,
        plan: &BackupPlan,
        dir_present: &Vec<bool>,
        file_present: &Vec<bool>,
    ) -> (r: String)
        requires
            old(self).mode == AppMode::DryRun,
            dir_present@.len() == plan.directories@.len(),
            file_present@.len() == plan.files@.len(),
        ensures
            old(self).wf() ==> final(self).wf(),
            r@ == plan.archive_path@,
            final(self).log_view() == old(self).log_view() + seq![
                "Would create backup: "@ + plan.archive_path@,
            ] + present_notes(
                "  Would archive directory: "@,
                source_view(plan.directories@),
                dir_present@,
            ) + present_notes("  Would archive file: "@, source_view(plan.files@), file_present@),
            final(self).progress_percent == 20,
            final(self).current_step == old(self).current_step,
            final(self).step_statuses == old(self).step_statuses,
            keeps_run(old(self), final(self)),
    {
        self.log(cat2("Would create backup: ", plan.archive_path.as_str()));
        self.note_present("  Would archive directory: ", &plan.directories, dir_present);
        self.note_present("  Would archive file: ", &plan.files, file_present);
        self.progress_percent = 20;
        plan.archive_path.clone()
    }

    /// Records a backup written to `archive_path`: progress 20%, a log line,
    /// and the path kept for later. Returns the path.
    pub fn record_backup(&mut self, archive_path: &str) -> (r: String)
        requires
            old(self).mode != AppMode::DryRun,
        ensures
            old(self).wf() ==> final(self).wf(),
            r@ == archive_path@,
            final(self).log_view() == old(self).log_view().push(
                "Created backup: "@ + archive_path@,
            ),
            final(self).progress_percent == 20,
            final(self).backup_path matches Some(p) && p@ == archive_path@,
            final(self).current_step == old(self).current_step,
            final(self).step_statuses == old(self).step_statuses,
            final(self).mode == old(self).mode,
            final(self).should_quit == old(self).should_quit,
    {
        self.progress_percent = 20;
        self.log(cat2("Created backup: ", archive_path));
        self.backup_path = Some(String::from_str(archive_path));
        String::from_str(archive_path)
    }

    /// Decides what to do where `dest` should link to `source`, and logs what
    /// that decision reports at once.
    pub fn symlink_file(&mut self, source: &str, dest: &str, seen: LinkObservation) -> (r:
        LinkAction)
        ensures
            old(self).wf() ==> final(self).wf(),
            r == link_action(old(self).mode == AppMode::DryRun, seen),
            final(self).log_view() == old(self).log_view() + link_notes(
                old(self).mode == AppMode::DryRun,
                seen,
                source@,
                dest@,
            ),
            final(self).current_step == old(self).current_step,
            final(self).progress_percent == old(self).progress_percent,
            final(self).step_statuses == old(self).step_statuses,
            keeps_run(old(self), final(self)),
    {
        if self.is_dry_run() {
            self.log(cat4("Would symlink: ", dest, " -> ", source));
            return LinkAction::Keep;
        }
        if seen.present {
            if seen.links_to_source {
                assert(old(self).log_view() + Seq::<Seq<char>>::empty() =~= old(self).log_view());
                return LinkAction::Keep;
            }
            if seen.is_symlink {
                assert(old(self).log_view() + Seq::<Seq<char>>::empty() =~= old(self).log_view());
                return LinkAction::Replace;
            }
            self.log(cat3("Warning: ", dest, " exists as a regular file, skipping"));
            return LinkAction::Keep;
        }
        assert(old(self).log_view() + Seq::<Seq<char>>::empty() =~= old(self).log_view());
        LinkAction::Create
    }

    /// Records that `dest` now links to `source`.
    pub fn record_link(&mut self, source: &str, dest: &str)
        requires
            old(self).mode != AppMode::DryRun,
        ensures
            old(self).wf() ==> final(self).wf(),
            final(self).log_view() == old(self).log_view().push(
                "Linked: "@ + dest@ + " -> "@ + source@,
            ),
            final(self).current_step == old(self).current_step,
            final(self).progress_percent == old(self).progress_percent,
            final(self).step_statuses == old(self).step_statuses,
            keeps_run(old(self), final(self)),
    {
        self.log(cat4("Linked: ", dest, " -> ", source));
    }
}

/// The preset directories: the repository's `easyeffects/output` and
/// EasyEffects' own.
pub fn presets_dirs(home: &str) -> (r: DeployDirs)
    ensures
        r.repo_dir@ == path_join(REPO_ROOT@, "easyeffects/output"@),
        r.target_dir@ == path_join(home@, PRESETS_TARGET@),
{
    DeployDirs {
        repo_dir: join_path(REPO_ROOT, "easyeffects/output"),
        target_dir: join_path(home, PRESETS_TARGET),
    }
}

/// The impulse response directories: the repository's `easyeffects/irs` and
/// EasyEffects' own.
pub fn irs_dirs(home: &str) -> (r: DeployDirs)
    ensures
        r.repo_dir@ == path_join(REPO_ROOT@, "easyeffects/irs"@),
        r.target_dir@ == path_join(home@, IRS_TARGET@),
{
    DeployDirs {
        repo_dir: join_path(REPO_ROOT, "easyeffects/irs"),
        target_dir: join_path(home, IRS_TARGET),
    }
}

/// The message of a preset step whose repository directory is missing.
pub fn presets_missing(repo_dir: &str) -> (r: String)
    ensures
        r@ == "Repo presets directory not found: "@ + repo_dir@,
{
    cat2("Repo presets directory not found: ", repo_dir)
}

/// The message of an impulse response step whose repository directory is
/// missing.
pub fn irs_missing(repo_dir: &str) -> (r: String)
    ensures
        r@ == "Repo IRs directory not found: "@ + repo_dir@,
{
    cat2("Repo IRs directory not found: ", repo_dir)
}

/// Where the directory entry `name` lives, and where its link goes.
pub fn entry_paths(dirs: &DeployDirs, name: &str) -> (r: (String, String))
    ensures
        r.0@ == path_join(dirs.repo_dir@, name@),
        r.1@ == path_join(dirs.target_dir@, name@),
{
    (join_path(dirs.repo_dir.as_str(), name), join_path(dirs.target_dir.as_str(), name))
}

/// Whether a directory entry is a preset to link: a file named `*.json`.
pub fn is_preset_entry(is_file: bool, name: &str) -> (r: bool)
    ensures
        r == (is_file && file_extension(name@) == Some("json"@)),
{
    is_file && has_json_extension(name)
}

/// The PipeWire configuration in the repository, and where it is linked.
pub fn pipewire_paths(home: &str) -> (r: (String, String))
    ensures
        r.0@ == path_join(REPO_ROOT@, "pipewire/pipewire.conf.d/10-quantum.conf"@),
        r.1@ == path_join(home@, ".config/pipewire/pipewire.conf.d/10-quantum.conf"@),
{
    (
        join_path(REPO_ROOT, "pipewire/pipewire.conf.d/10-quantum.conf"),
        join_path(home, ".config/pipewire/pipewire.conf.d/10-quantum.conf"),
    )
}

/// The message of a PipeWire step whose configuration is missing.
pub fn pipewire_missing(source: &str) -> (r: String)
    ensures
        r@ == "PipeWire config not found: "@ + source@,
{
    cat2("PipeWire config not found: ", source)
}

/// The niri autostart file.
pub fn niri_autostart_path(home: &str) -> (r: String)
    ensures
        r@ == path_join(home@, NIRI_AUTOSTART@),
{
    join_path(home, NIRI_AUTOSTART)
}

/// The text to write to the autostart file.
pub fn autostart_entry() -> (r: String)
    ensures
        r@ == autostart_entry_text(),
{
    cat2(NIRI_LINE, "\n")
}

/// The niri decision for the autostart file's content, where the file exists.
pub fn plan_niri(content: Option<&str>) -> (r: NiriAction)
    ensures
        r == niri_action(
            match content {
                Some(c) => Some(c@),
                None => None,
            },
        ),
        match content {
            Some(c) => (r == NiriAction::AlreadyConfigured) == text_contains(c@, "easyeffects"@)
                && (r == NiriAction::AlreadyConfigured || r == NiriAction::Append),
            None => r == NiriAction::Create,
        },
{
    match content {
        Some(c) => if contains_text(c, "easyeffects") {
            NiriAction::AlreadyConfigured
        } else {
            NiriAction::Append
        },
        None => NiriAction::Create,
    }
}

/// The arguments of the command that restarts the audio services.
pub fn restart_arguments() -> (r: Vec<&'static str>)
    ensures
        r@.map_values(|a: &'static str| a@) == seq![
            "--user"@,
            "restart"@,
            "pipewire"@,
            "pipewire-pulse"@,
            "wireplumber"@,
        ],
{
    let mut args: Vec<&'static str> = Vec::new();
    args.push("--user");
    args.push("restart");
    args.push("pipewire");
    args.push("pipewire-pulse");
    args.push("wireplumber");
    assert(args@.map_values(|a: &'static str| a@) =~= seq![
        "--user"@,
        "restart"@,
        "pipewire"@,
        "pipewire-pulse"@,
        "wireplumber"@,
    ]);
    args
}

/// The directory that holds the backups.
pub fn backup_directory(home: &str) -> (r: String)
    ensures
        r@ == path_join(home@, ".config"@),
{
    join_path(home, ".config")
}

/// The message of a rollback that found no backup in `dir`.
pub fn no_backup_message(dir: &str) -> (r: String)
    ensures
        r@ == "No backup found in "@ + dir@,
{
    cat2("No backup found in ", dir)
}

/// The scratch directory a rollback unpacks into, named after its process.
pub fn rollback_temp_dir(pid: u32) -> (r: String)
    ensures
        r@ == path_join("/tmp"@, "audio_rollback_"@ + decimal(pid as nat)),
{
    let number = decimal_text(pid);
    let name = cat2("audio_rollback_", number.as_str());
    join_path("/tmp", name.as_str())
}

/// Where each restored item comes from in the unpacked backup, and where it
/// goes below the home directory.
pub fn restore_pairs(unpacked: &str, home: &str) -> (r: Vec<(String, String)>)
    ensures
        r@.len() == 4,
        forall|i: int| 0 <= i < 4 ==> ((#[trigger] r@[i]).0@, r@[i].1@) == restored_item(unpacked@, home@, i),
{
    let mut pairs: Vec<(String, String)> = Vec::new();
    pairs.push((join_path(unpacked, PRESETS_TARGET), join_path(home, PRESETS_TARGET)));
    pairs.push((join_path(unpacked, IRS_TARGET), join_path(home, IRS_TARGET)));
    pairs.push((join_path(unpacked, PIPEWIRE_CONF_DIR), join_path(home, PIPEWIRE_CONF_DIR)));
    pairs.push((join_path(unpacked, NIRI_AUTOSTART), join_path(home, NIRI_AUTOSTART)));
    pairs
}

/// What a rollback does with one item of the unpacked backup.
#[derive(Debug, Clone, Copy, PartialEq, Eq, Structural)]
pub enum RestoreAction {
    /// The backup does not hold the item: leave the destination as it is.
    Skip,
    /// Move the item into place (creating the parent directories).
    Move,
    /// Remove the directory in the way, then move as for `Move`.
    ReplaceDirectory,
    /// Remove the file in the way, then move as for `Move`.
    ReplaceFile,
}

/// The restore decision for one item.
pub open spec fn restore_action(in_backup: bool, dest_exists: bool, dest_is_dir: bool) -> RestoreAction {
    if !in_backup {
        RestoreAction::Skip
    } else if !dest_exists {
        RestoreAction::Move
    } else if dest_is_dir {
        RestoreAction::ReplaceDirectory
    } else {
        RestoreAction::ReplaceFile
    }
}

/// Decides how to restore one item: only items the backup holds are
/// restored, and whatever is at the destination is removed first.
pub fn plan_restore(in_backup: bool, dest_exists: bool, dest_is_dir: bool) -> (r: RestoreAction)
    ensures
        r == restore_action(in_backup, dest_exists, dest_is_dir),
        (r == RestoreAction::Skip) == !in_backup,
        (r == RestoreAction::Move) == (in_backup && !dest_exists),
        (r == RestoreAction::ReplaceDirectory) == (in_backup && dest_exists && dest_is_dir),
        (r == RestoreAction::ReplaceFile) == (in_backup && dest_exists && !dest_is_dir),
{
    if !in_backup {
        RestoreAction::Skip
    } else if !dest_exists {
        RestoreAction::Move
    } else if dest_is_dir {
        RestoreAction::ReplaceDirectory
    } else {
        RestoreAction::ReplaceFile
    }
}

impl AppState {
    /// Ends the preset step: done, progress 40%.
    pub fn finish_presets(&mut self)
        requires
            old(self).wf(),
        ensures
            final(self).wf(),
            final(self).step_statuses@ == with_status(old(self).step_statuses@, 1, StepStatus::Done),
            final(self).progress_percent == 40,
            final(self).current_step == old(self).current_step,
            final(self).log_messages == old(self).log_messages,
            keeps_run(old(self), final(self)),
    {
        self.end_step(1, 40);
    }

    /// Ends the impulse response step: done, progress 60%.
    pub fn finish_irs(&mut self)
        requires
            old(self).wf(),
        ensures
            final(self).wf(),
            final(self).step_statuses@ == with_status(old(self).step_statuses@, 2, StepStatus::Done),
            final(self).progress_percent == 60,
            final(self).current_step == old(self).current_step,
            final(self).log_messages == old(self).log_messages,
            keeps_run(old(self), final(self)),
    {
        self.end_step(2, 60);
    }

    /// Ends the PipeWire step: done, progress 70%.
    pub fn finish_pipewire(&mut self)
        requires
            old(self).wf(),
        ensures
            final(self).wf(),
            final(self).step_statuses@ == with_status(old(self).step_statuses@, 3, StepStatus::Done),
            final(self).progress_percent == 70,
            final(self).current_step == old(self).current_step,
            final(self).log_messages == old(self).log_messages,
            keeps_run(old(self), final(self)),
    {
        self.end_step(3, 70);
    }

    /// A dry run of the niri step: logs what it would do, then ends the step
    /// as done with progress 80%.
    pub fn report_niri_dry_run(&mut self, path: &str, content: Option<&str>)
        requires
            old(self).wf(),
            old(self).mode == AppMode::DryRun,
        ensures
            final(self).wf(),
            final(self).log_view() == old(self).log_view().push(
                niri_dry_run_note(
                    path@,
                    match content {
                        Some(c) => Some(c@),
                        None => None,
                    },
                ),
            ),
            final(self).step_statuses@ == with_status(old(self).step_statuses@, 4, StepStatus::Done),
            final(self).progress_percent == 80,
            final(self).current_step == old(self).current_step,
            keeps_run(old(self), final(self)),
    {
        let line = match plan_niri(content) {
            NiriAction::AlreadyConfigured => String::from_str("niri autostart already configured"),
            NiriAction::Append => cat4("Would add to ", path, ": ", NIRI_LINE),
            NiriAction::Create => cat3("Would create ", path, " with easyeffects entry"),
        };
        self.log(line);
        self.end_step(4, 80);
    }

    /// Ends the niri step once `action` is carried out: logs it, done,
    /// progress 80%.
    pub fn finish_niri(&mut self, action: NiriAction)
        requires
            old(self).wf(),
            old(self).mode != AppMode::DryRun,
        ensures
            final(self).wf(),
            final(self).log_view() == old(self).log_view().push(niri_note(action)),
            final(self).step_statuses@ == with_status(old(self).step_statuses@, 4, StepStatus::Done),
            final(self).progress_percent == 80,
            final(self).current_step == old(self).current_step,
            keeps_run(old(self), final(self)),
    {
        let line = match action {
            NiriAction::AlreadyConfigured => String::from_str(
                "niri autostart already configured, skipping",
            ),
            NiriAction::Append => String::from_str("Added easyeffects to niri autostart"),
            NiriAction::Create => String::from_str("Created niri autostart with easyeffects entry"),
        };
        self.log(line);
        self.end_step(4, 80);
    }

    /// Ends the restart step: logs how it went, done, progress 100%.
    pub fn finish_restart(&mut self, outcome: RestartOutcome)
        requires
            old(self).wf(),
            (outcome is Skipped) == (old(self).mode == AppMode::DryRun),
        ensures
            final(self).wf(),
            final(self).log_view() == old(self).log_view().push(restart_note(outcome)),
            final(self).step_statuses@ == with_status(old(self).step_statuses@, 5, StepStatus::Done),
            final(self).progress_percent == 100,
            final(self).current_step == old(self).current_step,
            keeps_run(old(self), final(self)),
    {
        let line = match &outcome {
            RestartOutcome::Skipped => String::from_str(
                "Would restart pipewire, pipewire-pulse, wireplumber",
            ),
            RestartOutcome::Succeeded => String::from_str("Services restarted successfully"),
            RestartOutcome::Failed(err) => cat2(
                "Warning: service restart had issues: ",
                err.as_str(),
            ),
            RestartOutcome::Unavailable(why) => cat2(
                "Warning: could not restart services: ",
                why.as_str(),
            ),
        };
        self.log(line);
        self.end_step(5, 100);
    }

    /// Records that a rollback restores from `backup`.
    pub fn note_restoring(&mut self, backup: &str)
        ensures
            old(self).wf() ==> final(self).wf(),
            final(self).log_view() == old(self).log_view().push(
                "Restoring from backup: "@ + backup@,
            ),
            final(self).current_step == old(self).current_step,
            final(self).progress_percent == old(self).progress_percent,
            final(self).step_statuses == old(self).step_statuses,
            keeps_run(old(self), final(self)),
    {
        self.log(cat2("Restoring from backup: ", backup));
    }

    /// Records that the backup is unpacked: progress 30%, the backup step
    /// done, the next listed step running.
    pub fn note_unpacked(&mut self)
        requires
            old(self).wf(),
        ensures
            final(self).wf(),
            final(self).step_statuses@ == with_status(
                with_status(old(self).step_statuses@, 0, StepStatus::Done),
                1,
                StepStatus::Running,
            ),
            final(self).progress_percent == 30,
            final(self).current_step == old(self).current_step,
            final(self).log_messages == old(self).log_messages,
            keeps_run(old(self), final(self)),
    {
        self.progress_percent = 30;
        self.set_status(0, StepStatus::Done);
        self.set_status(1, StepStatus::Running);
    }

    /// Records that `dest` was restored from `source`.
    pub fn note_restored(&mut self, source: &str, dest: &str)
        ensures
            old(self).wf() ==> final(self).wf(),
            final(self).log_view() == old(self).log_view().push(
                "Restored: "@ + source@ + " -> "@ + dest@,
            ),
            final(self).current_step == old(self).current_step,
            final(self).progress_percent == old(self).progress_percent,
            final(self).step_statuses == old(self).step_statuses,
            keeps_run(old(self), final(self)),
    {
        self.log(cat4("Restored: ", source, " -> ", dest));
    }

    /// Records that everything is restored: progress 70%, the second listed
    /// step done.
    pub fn note_restore_finished(&mut self)
        requires
            old(self).wf(),
        ensures
            final(self).wf(),
            final(self).step_statuses@ == with_status(old(self).step_statuses@, 1, StepStatus::Done),
            final(self).progress_percent == 70,
            final(self).current_step == old(self).current_step,
            final(self).log_messages == old(self).log_messages,
            keeps_run(old(self), final(self)),
    {
        self.end_step(1, 70);
    }

    /// Ends a rollback: done, with a last log line.
    pub fn finish_rollback(&mut self)
        ensures
            old(self).wf() ==> final(self).wf(),
            final(self).current_step == AppStep::Done,
            final(self).log_view() == old(self).log_view().push("Rollback complete"@),
            final(self).progress_percent == old(self).progress_percent,
            final(self).step_statuses == old(self).step_statuses,
            keeps_run(old(self), final(self)),
    {
        self.current_step = AppStep::Done;
        self.log(String::from_str("Rollback complete"));
    }
}

} // verus!

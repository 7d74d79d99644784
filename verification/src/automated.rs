//! The automated run: log in, add new mods, check for updates, download, and
//! save what has changed, without questions to the user. The run asks for files,
//! answers and downloads, and is told what came back.

use vstd::prelude::*;
use vstd::string::StringExecFns;
use crate::api::NEW_MODS_FILE;
use crate::auth::{session_fresh, SESSION_HOURS};
use crate::clock::{rfc3339_text, utc_now, within_hours, write_rfc3339, Timestamp};
use crate::config::{template, template_config, CONFIG_FILE};
use crate::manifest::{is_extension, record_download, text_of, with_download};
use crate::models::{
    files, Config, ConfigView, FileToDownload, FileToDownloadView, ManifestView, VersionManifest,
};
use crate::new_mods::{
    json_pretty, listed, new_mods_step, process_new_mods_file, read_new_mods, readable,
    write_failed_mods, ModReply, NewMods, NewModsAction, NewModsActionView, NewModsStep,
    NewModsStepView, NewModsView,
};
use crate::notes::{err, lines, no_notes, one_line, out, say, warn, Note, NoteView};
use crate::string_map::{enumerates, lists_values, Duplicate};
use crate::text::{contains_text, decimal, decimal_text, owned, same, texts};
use crate::update::{
    check_for_updates, matches_action, step, CheckAction, CheckActionView, CheckEvent, CheckStep,
    CheckView, StageView, StepView, UpdateCheck,
};

verus! {

/// How the program runs.
#[derive(Clone, Copy, Debug, PartialEq, Eq, Structural)]
pub enum Mode {
    Automated,
    Interactive,
}

/// Whether the arguments ask for the automated run.
pub fn is_scripted(args: &Vec<String>) -> (scripted: bool)
    ensures
        scripted == texts(args@).contains("-s"@),
{
    contains_text(args, "-s")
}

/// How to run: automated if the arguments ask for it, and else as the
/// configuration says, if there is one that can be read.
pub fn choose_mode(scripted: bool, config: Option<&Config>) -> (mode: Mode)
    ensures
        mode is Interactive <==> !scripted && config is Some && config->0.use_tui,
{
    if scripted {
        return Mode::Automated;
    }
    match config {
        Some(c) => if c.use_tui {
            Mode::Interactive
        } else {
            Mode::Automated
        },
        None => Mode::Automated,
    }
}

/// What becomes of the configuration once a token was obtained: a token that
/// differs from the stored one is stored with the time, and after a login with
/// user name and password the password is discarded.
pub open spec fn after_token(
    config: ConfigView,
    token: Seq<char>,
    stamp: Seq<char>,
    internal: bool,
) -> ConfigView {
    ConfigView {
        last_session_token: token,
        last_login: if token != config.last_session_token {
            stamp
        } else {
            config.last_login
        },
        password: if internal {
            Seq::empty()
        } else {
            config.password
        },
        ..config
    }
}

/// Enters a token in the configuration and tells whether that is to be saved.
pub fn take_token(config: &mut Config, token: &str, internal: bool, now: Timestamp) -> (save: bool)
    requires
        now.valid(),
    ensures
        final(config)@ == after_token(old(config)@, token@, rfc3339_text(now), internal),
        save == (token@ != old(config)@.last_session_token || internal),
        token@ != old(config)@.last_session_token && token@.len() > 0 && now.four_digit_year()
            ==> keeps_session(final(config)@, now),
{
    let differs: bool = !same(token, config.last_session_token.as_str());
    if differs {
        config.last_session_token = owned(token);
        config.last_login = write_rfc3339(now);
    }
    if internal {
        config.password = String::new();
    }
    assert(config@ =~= after_token(old(config)@, token@, rfc3339_text(now), internal));
    differs || internal
}

/// Who downloads: the user's name and session token.
struct Session {
    username: String,
    token: String,
}

#[verifier::ext_equal]
pub struct SessionView {
    pub username: Seq<char>,
    pub token: Seq<char>,
}

impl View for Session {
    type V = SessionView;

    closed spec fn view(&self) -> SessionView {
        SessionView { username: self.username@, token: self.token@ }
    }
}

/// What the run waits for.
enum Stage {
    Ready,
    CreatingTemplate,
    LoadingConfig,
    Authenticating { config: Config },
    SavingConfig { session: Session },
    LoadingManifest { session: Session },
    ReadingNewMods { session: Session, manifest: VersionManifest },
    AddingMods { session: Session, mods: NewMods },
    Checking { session: Session, failed: Option<Vec<String>>, check: UpdateCheck },
    Downloading {
        session: Session,
        failed: Option<Vec<String>>,
        manifest: VersionManifest,
        file: FileToDownload,
        rest: Vec<FileToDownload>,
    },
    SavingManifest { failed: Option<Vec<String>> },
    WritingNewMods { failed: Vec<String> },
    Over,
}

#[verifier::ext_equal]
pub enum AutoStageView {
    /// To be started.
    Ready,
    /// The template to be written.
    CreatingTemplate,
    /// The configuration.
    LoadingConfig,
    /// A session token for this configuration.
    Authenticating { config: ConfigView },
    /// The configuration to be saved.
    SavingConfig { session: SessionView },
    /// The manifest.
    LoadingManifest { session: SessionView },
    /// The list of mods to be added.
    ReadingNewMods { session: SessionView, manifest: ManifestView },
    /// The portal's reply about a mod to be added.
    AddingMods { session: SessionView, mods: NewModsView },
    /// What the update check asked for.
    Checking { session: SessionView, failed: Option<Seq<Seq<char>>>, check: CheckView },
    /// The download of `file`, before those of `rest`.
    Downloading {
        session: SessionView,
        failed: Option<Seq<Seq<char>>>,
        manifest: ManifestView,
        file: FileToDownloadView,
        rest: Seq<FileToDownloadView>,
    },
    /// The manifest to be saved.
    SavingManifest { failed: Option<Seq<Seq<char>>> },
    /// The mods that failed to be written.
    WritingNewMods { failed: Seq<Seq<char>> },
    /// Nothing: it has ended.
    Over,
}

/// The contents of an optional list of strings.
pub open spec fn texts_of(list: Option<Vec<String>>) -> Option<Seq<Seq<char>>> {
    match list {
        Some(l) => Some(texts(l@)),
        None => None,
    }
}

impl View for Stage {
    type V = AutoStageView;

    closed spec fn view(&self) -> AutoStageView {
        match self {
            Stage::Ready => AutoStageView::Ready,
            Stage::CreatingTemplate => AutoStageView::CreatingTemplate,
            Stage::LoadingConfig => AutoStageView::LoadingConfig,
            Stage::Authenticating { config } => AutoStageView::Authenticating { config: config@ },
            Stage::SavingConfig { session } => AutoStageView::SavingConfig { session: session@ },
            Stage::LoadingManifest { session } => AutoStageView::LoadingManifest {
                session: session@,
            },
            Stage::ReadingNewMods { session, manifest } => AutoStageView::ReadingNewMods {
                session: session@,
                manifest: manifest@,
            },
            Stage::AddingMods { session, mods } => AutoStageView::AddingMods {
                session: session@,
                mods: mods@,
            },
            Stage::Checking { session, failed, check } => AutoStageView::Checking {
                session: session@,
                failed: texts_of(*failed),
                check: check@,
            },
            Stage::Downloading { session, failed, manifest, file, rest } => {
                AutoStageView::Downloading {
                    session: session@,
                    failed: texts_of(*failed),
                    manifest: manifest@,
                    file: file@,
                    rest: files(rest@),
                }
            },
            Stage::SavingManifest { failed } => AutoStageView::SavingManifest {
                failed: texts_of(*failed),
            },
            Stage::WritingNewMods { failed } => AutoStageView::WritingNewMods {
                failed: texts(failed@),
            },
            Stage::Over => AutoStageView::Over,
        }
    }
}

/// An automated run.
pub struct AutoRun {
    stage: Stage,
}

impl View for AutoRun {
    type V = AutoStageView;

    closed spec fn view(&self) -> AutoStageView {
        self.stage@
    }
}

/// What happened since the last step.
pub enum AutoEvent {
    /// The run is to be started.
    Begin { config_exists: bool },
    /// The configuration was read.
    ConfigLoaded(Config),
    /// A token was obtained, by a login with user name and password or without.
    Token { token: String, internal: bool },
    /// What was to be written is written.
    Saved,
    /// The manifest was read, or built from the folder.
    ManifestLoaded(VersionManifest),
    /// The contents of the list of new mods, if there is one.
    NewModsFile(Option<String>),
    /// The portal's reply about a new mod.
    Reply(ModReply),
    /// What the update check waits for.
    Check(CheckEvent),
    /// The download succeeded, or failed with this error.
    Downloaded(Result<(), String>),
    /// What was to be done cannot be done; where the list of new mods was to be
    /// read, it is there and cannot be read.
    Failed { error: String },
}

/// What is to be done next.
pub enum AutoAction {
    /// Write this configuration as a template.
    CreateTemplate { config: Config },
    /// Go on with the interactive program.
    LaunchTui,
    /// Read the configuration.
    LoadConfig,
    /// Get a session token.
    GetToken { config: Config },
    /// Save the configuration.
    SaveConfig { config: Config },
    /// Read the manifest, or build it from the folder.
    LoadManifest,
    /// Read the list of new mods.
    ReadNewMods,
    /// Ask the portal about a new mod.
    AskMod { name: String, url: String },
    /// Ask the portal about a mod that is checked.
    Fetch { name: String, url: String },
    /// See whether a file of this name is in the download folder.
    LookFor { file_name: String },
    /// Stop the program: two mods exclude each other.
    Conflict { message: String },
    /// Download a file.
    Download { file: FileToDownload, username: String, token: String },
    /// Save the manifest.
    SaveManifest { manifest: VersionManifest },
    /// Write the list of new mods.
    WriteNewMods { content: String },
    /// The run is complete.
    Finished,
    /// The run failed.
    Stopped { error: String },
    /// The event does not fit what was asked for; nothing was done.
    Unexpected,
}

#[verifier::ext_equal]
pub enum AutoActionView {
    CreateTemplate { config: ConfigView },
    LaunchTui,
    LoadConfig,
    GetToken { config: ConfigView },
    SaveConfig { config: ConfigView },
    LoadManifest,
    ReadNewMods,
    AskMod { name: Seq<char>, url: Seq<char> },
    Fetch { name: Seq<char>, url: Seq<char> },
    LookFor { file_name: Seq<char> },
    Conflict { message: Seq<char> },
    Download { file: FileToDownloadView, username: Seq<char>, token: Seq<char> },
    SaveManifest { manifest: ManifestView },
    WriteNewMods { content: Seq<char> },
    Finished,
    Stopped { error: Seq<char> },
    Unexpected,
}

impl View for AutoAction {
    type V = AutoActionView;

    open spec fn view(&self) -> AutoActionView {
        match self {
            AutoAction::CreateTemplate { config } => AutoActionView::CreateTemplate {
                config: config@,
            },
            AutoAction::LaunchTui => AutoActionView::LaunchTui,
            AutoAction::LoadConfig => AutoActionView::LoadConfig,
            AutoAction::GetToken { config } => AutoActionView::GetToken { config: config@ },
            AutoAction::SaveConfig { config } => AutoActionView::SaveConfig { config: config@ },
            AutoAction::LoadManifest => AutoActionView::LoadManifest,
            AutoAction::ReadNewMods => AutoActionView::ReadNewMods,
            AutoAction::AskMod { name, url } => AutoActionView::AskMod { name: name@, url: url@ },
            AutoAction::Fetch { name, url } => AutoActionView::Fetch { name: name@, url: url@ },
            AutoAction::LookFor { file_name } => AutoActionView::LookFor { file_name: file_name@ },
            AutoAction::Conflict { message } => AutoActionView::Conflict { message: message@ },
            AutoAction::Download { file, username, token } => AutoActionView::Download {
                file: file@,
                username: username@,
                token: token@,
            },
            AutoAction::SaveManifest { manifest } => AutoActionView::SaveManifest {
                manifest: manifest@,
            },
            AutoAction::WriteNewMods { content } => AutoActionView::WriteNewMods {
                content: content@,
            },
            AutoAction::Finished => AutoActionView::Finished,
            AutoAction::Stopped { error } => AutoActionView::Stopped { error: error@ },
            AutoAction::Unexpected => AutoActionView::Unexpected,
        }
    }
}

/// An action and the lines to print before it.
pub struct AutoStep {
    pub notes: Vec<Note>,
    pub action: AutoAction,
}

/// Where a step leads: what is waited for next, what is to be done, and the
/// lines to print before it.
#[verifier::ext_equal]
pub struct AutoStepView {
    pub stage: AutoStageView,
    pub action: AutoActionView,
    pub notes: Seq<NoteView>,
}

/// A step that stops the run.
pub open spec fn stopped(error: Seq<char>, notes: Seq<NoteView>) -> AutoStepView {
    AutoStepView { stage: AutoStageView::Over, action: AutoActionView::Stopped { error }, notes }
}

/// A step that was not asked for.
pub open spec fn unexpected(stage: AutoStageView) -> AutoStepView {
    AutoStepView { stage, action: AutoActionView::Unexpected, notes: Seq::empty() }
}

/// The start: without a configuration a template is written, and else the
/// configuration is loaded.
pub open spec fn started(config_exists: bool) -> AutoStepView {
    if config_exists {
        AutoStepView {
            stage: AutoStageView::LoadingConfig,
            action: AutoActionView::LoadConfig,
            notes: seq![out("Loading configuration from '"@ + CONFIG_FILE@ + "'..."@)],
        }
    } else {
        AutoStepView {
            stage: AutoStageView::CreatingTemplate,
            action: AutoActionView::CreateTemplate { config: template() },
            notes: seq![
                out(
                    "Configuration file '"@ + CONFIG_FILE@
                        + "' not found. Creating a template..."@,
                ),
            ],
        }
    }
}

/// After a token was obtained: the configuration is saved if it has changed.
pub open spec fn token_obtained(
    config: ConfigView,
    token: Seq<char>,
    internal: bool,
    now: Timestamp,
) -> AutoStepView {
    let session = SessionView { username: config.username, token };
    if token != config.last_session_token || internal {
        AutoStepView {
            stage: AutoStageView::SavingConfig { session },
            action: AutoActionView::SaveConfig {
                config: after_token(config, token, rfc3339_text(now), internal),
            },
            notes: Seq::empty(),
        }
    } else {
        AutoStepView {
            stage: AutoStageView::LoadingManifest { session },
            action: AutoActionView::LoadManifest,
            notes: Seq::empty(),
        }
    }
}

/// The next download, or the end of the downloads.
pub open spec fn next_download(
    session: SessionView,
    failed: Option<Seq<Seq<char>>>,
    manifest: ManifestView,
    queue: Seq<FileToDownloadView>,
    notes: Seq<NoteView>,
) -> AutoStepView {
    if queue.len() == 0 {
        AutoStepView {
            stage: AutoStageView::SavingManifest { failed },
            action: AutoActionView::SaveManifest { manifest },
            notes: notes.push(out("\nUpdate process complete."@)),
        }
    } else {
        AutoStepView {
            stage: AutoStageView::Downloading {
                session,
                failed,
                manifest,
                file: queue[0],
                rest: queue.skip(1),
            },
            action: AutoActionView::Download {
                file: queue[0],
                username: session.username,
                token: session.token,
            },
            notes,
        }
    }
}

/// The line before the downloads.
pub open spec fn downloads_line(count: nat) -> NoteView {
    if count == 0 {
        out("\nAll checked local files and their dependencies are up-to-date."@)
    } else {
        out("\nStarting downloads for "@ + decimal(count) + " files..."@)
    }
}

/// Goes on with what the update check said, whose lines come behind `notes`.
/// The files that it found are downloaded in some order.
pub open spec fn checked(
    session: SessionView,
    failed: Option<Seq<Seq<char>>>,
    found: StepView,
    notes: Seq<NoteView>,
    next: AutoStepView,
) -> bool {
    let stage = AutoStageView::Checking { session, failed, check: found.check };
    let all = notes + found.notes;
    match found.action {
        CheckActionView::Fetch { name, url } => next == (AutoStepView {
            stage,
            action: AutoActionView::Fetch { name, url },
            notes: all,
        }),
        CheckActionView::LookFor { file_name } => next == (AutoStepView {
            stage,
            action: AutoActionView::LookFor { file_name },
            notes: all,
        }),
        CheckActionView::Conflict { message } => next == (AutoStepView {
            stage: AutoStageView::Over,
            action: AutoActionView::Conflict { message },
            notes: all,
        }),
        CheckActionView::Failed { error } => next == stopped(error, all),
        CheckActionView::Finished { queue } => exists|order: Seq<FileToDownloadView>| #[trigger]
            lists_values(order, queue) && next == next_download(
                session,
                failed,
                found.check.manifest,
                order,
                all.push(downloads_line(order.len())),
            ),
        CheckActionView::Unexpected => next == (AutoStepView {
            stage,
            action: AutoActionView::Unexpected,
            notes: all,
        }),
    }
}

/// An update check of a manifest that asks about `todo`.
pub open spec fn fresh_check(manifest: ManifestView, todo: Seq<Seq<char>>) -> CheckView {
    CheckView {
        manifest,
        queue: Map::empty(),
        todo,
        done: Set::empty(),
        stage: StageView::Ready,
    }
}

/// Begins the update check, whose lines come behind `notes`. The mods of the
/// manifest are checked in some order.
pub open spec fn check_begun(
    session: SessionView,
    failed: Option<Seq<Seq<char>>>,
    manifest: ManifestView,
    notes: Seq<NoteView>,
    next: AutoStepView,
) -> bool {
    exists|todo: Seq<Seq<char>>| #[trigger]
        enumerates(todo, manifest) && checked(
            session,
            failed,
            step(fresh_check(manifest, todo), CheckEvent::Begin),
            notes,
            next,
        )
}

/// Goes on with what the addition of new mods said, whose lines come behind
/// `notes`.
pub open spec fn mods_added(
    session: SessionView,
    found: NewModsStepView,
    notes: Seq<NoteView>,
    next: AutoStepView,
) -> bool {
    match found.action {
        NewModsActionView::Ask { name, url } => next == (AutoStepView {
            stage: AutoStageView::AddingMods { session, mods: found.mods },
            action: AutoActionView::AskMod { name, url },
            notes: notes + found.notes,
        }),
        NewModsActionView::Finished => check_begun(
            session,
            Some(found.mods.failed),
            found.mods.manifest,
            notes + found.notes,
            next,
        ),
    }
}

/// The line about the list of new mods.
pub open spec fn list_line(found: bool) -> NoteView {
    if found {
        out("Found '"@ + NEW_MODS_FILE@ + "', processing new mods..."@)
    } else {
        out("No '"@ + NEW_MODS_FILE@ + "' file found, skipping."@)
    }
}

/// Goes on with the list of new mods.
pub open spec fn list_read(
    session: SessionView,
    manifest: ManifestView,
    content: Option<Seq<char>>,
    next: AutoStepView,
) -> bool {
    match content {
        None => check_begun(session, None, manifest, seq![list_line(false)], next),
        Some(text) => match listed(text) {
            Ok(names) => mods_added(
                session,
                new_mods_step(
                    NewModsView { manifest, asked: None, names, failed: Seq::empty() },
                    None,
                ),
                seq![list_line(true)],
                next,
            ),
            Err(error) => next == stopped(error, seq![list_line(true)]),
        },
    }
}

/// The line about a download that failed.
pub open spec fn download_error_line(file: FileToDownloadView, error: Seq<char>) -> NoteView {
    err("ERROR downloading "@ + file.full_new_name + ": "@ + error)
}

/// Goes on after a download: a file that arrived is entered in the manifest.
pub open spec fn downloaded(
    session: SessionView,
    failed: Option<Seq<Seq<char>>>,
    manifest: ManifestView,
    file: FileToDownloadView,
    rest: Seq<FileToDownloadView>,
    result: Result<(), String>,
    next: AutoStepView,
) -> bool {
    match result {
        Ok(_) => exists|extension: Seq<char>| #[trigger]
            is_extension(extension, file.full_new_name) && next == next_download(
                session,
                failed,
                with_download(manifest, file, extension),
                rest,
                Seq::empty(),
            ),
        Err(error) => next == next_download(
            session,
            failed,
            manifest,
            rest,
            seq![download_error_line(file, error@)],
        ),
    }
}

/// After the manifest was saved: the mods that failed are written back.
pub open spec fn manifest_saved(failed: Option<Seq<Seq<char>>>) -> AutoStepView {
    match failed {
        None => AutoStepView {
            stage: AutoStageView::Over,
            action: AutoActionView::Finished,
            notes: Seq::empty(),
        },
        Some(names) => AutoStepView {
            stage: AutoStageView::WritingNewMods { failed: names },
            action: AutoActionView::WriteNewMods { content: json_pretty(names) },
            notes: seq![
                out("Updating '"@ + NEW_MODS_FILE@ + "' with any remaining invalid mods..."@),
            ],
        },
    }
}

/// After the mods that failed were written back.
pub open spec fn list_written(failed: Seq<Seq<char>>) -> AutoStepView {
    AutoStepView {
        stage: AutoStageView::Over,
        action: AutoActionView::Finished,
        notes: seq![
            if failed.len() == 0 {
                out(
                    "'"@ + NEW_MODS_FILE@
                        + "' has been cleared as all mods were processed successfully."@,
                )
            } else {
                out("'"@ + NEW_MODS_FILE@ + "' has been updated. Please correct the invalid entries."@)
            },
        ],
    }
}

/// Whether the run can go from `stage` to `next` when `event` happens at `now`.
pub open spec fn follows(
    stage: AutoStageView,
    event: AutoEvent,
    now: Timestamp,
    next: AutoStepView,
) -> bool {
    match (stage, event) {
        (AutoStageView::Ready, AutoEvent::Begin { config_exists }) => next == started(
            config_exists,
        ),
        (AutoStageView::Ready, _) => next == unexpected(stage),
        (AutoStageView::Over, _) => next == unexpected(stage),
        (AutoStageView::ReadingNewMods { .. }, AutoEvent::Failed { error }) => next == stopped(
            error@,
            seq![list_line(true)],
        ),
        (_, AutoEvent::Failed { error }) => next == stopped(error@, Seq::empty()),
        (AutoStageView::CreatingTemplate, AutoEvent::Saved) => next == (AutoStepView {
            stage: AutoStageView::Over,
            action: AutoActionView::LaunchTui,
            notes: seq![
                out("\nA template config has been created. Launching TUI so you can configure it."@),
            ],
        }),
        (AutoStageView::LoadingConfig, AutoEvent::ConfigLoaded(config)) => next == (AutoStepView {
            stage: AutoStageView::Authenticating { config: config@ },
            action: AutoActionView::GetToken { config: config@ },
            notes: Seq::empty(),
        }),
        (
            AutoStageView::Authenticating { config },
            AutoEvent::Token { token, internal },
        ) => next == token_obtained(config, token@, internal, now),
        (AutoStageView::SavingConfig { session }, AutoEvent::Saved) => next == (AutoStepView {
            stage: AutoStageView::LoadingManifest { session },
            action: AutoActionView::LoadManifest,
            notes: Seq::empty(),
        }),
        (
            AutoStageView::LoadingManifest { session },
            AutoEvent::ManifestLoaded(manifest),
        ) => next == (AutoStepView {
            stage: AutoStageView::ReadingNewMods { session, manifest: manifest@ },
            action: AutoActionView::ReadNewMods,
            notes: Seq::empty(),
        }),
        (
            AutoStageView::ReadingNewMods { session, manifest },
            AutoEvent::NewModsFile(content),
        ) => list_read(session, manifest, text_of(content), next),
        (AutoStageView::AddingMods { session, mods }, AutoEvent::Reply(reply)) => mods_added(
            session,
            new_mods_step(mods, Some(reply)),
            Seq::empty(),
            next,
        ),
        (
            AutoStageView::Checking { session, failed, check },
            AutoEvent::Check(event),
        ) => checked(session, failed, step(check, event), Seq::empty(), next),
        (
            AutoStageView::Downloading { session, failed, manifest, file, rest },
            AutoEvent::Downloaded(result),
        ) => downloaded(session, failed, manifest, file, rest, result, next),
        (AutoStageView::SavingManifest { failed }, AutoEvent::Saved) => next == manifest_saved(
            failed,
        ),
        (AutoStageView::WritingNewMods { failed }, AutoEvent::Saved) => next == list_written(
            failed,
        ),
        _ => next == unexpected(stage),
    }
}

/// A list of new mods that is to be written reads back as the mods that failed.
pub open spec fn list_reads_back(next: AutoStepView) -> bool {
    next.action matches AutoActionView::WriteNewMods { content } ==> {
        &&& next.stage is WritingNewMods
        &&& listed(content) == readable(next.stage->WritingNewMods_failed)
    }
}

/// Whether `saved` holds a token so that it is used again until 36 hours after
/// `now`, and no longer.
pub open spec fn keeps_session(saved: ConfigView, now: Timestamp) -> bool {
    forall|later: Timestamp| #[trigger]
        session_fresh(saved, later) == within_hours(later, now, SESSION_HOURS as int)
}

/// Whether a step saves a configuration with this token, to be used for 36 hours
/// from `now` on.
pub open spec fn saves_session(next: AutoStepView, token: Seq<char>, now: Timestamp) -> bool {
    next.action matches AutoActionView::SaveConfig { config: saved } && saved.last_session_token
        == token && keeps_session(saved, now)
}

/// A token other than the stored one is saved so that it is used again for the
/// next 36 hours, and no longer. An empty token is never used again, and a time
/// whose year has not four digits need not read back.
pub open spec fn token_is_kept(
    stage: AutoStageView,
    event: AutoEvent,
    now: Timestamp,
    next: AutoStepView,
) -> bool {
    match (stage, event) {
        (AutoStageView::Authenticating { config }, AutoEvent::Token { token, .. }) => token@
            != config.last_session_token && token@.len() > 0 && now.four_digit_year()
            ==> saves_session(next, token@, now),
        _ => true,
    }
}

/// A step with the stage that it leads to.
struct Advance {
    stage: Stage,
    action: AutoAction,
    notes: Vec<Note>,
}

impl View for Advance {
    type V = AutoStepView;

    closed spec fn view(&self) -> AutoStepView {
        AutoStepView { stage: self.stage@, action: self.action@, notes: lines(self.notes@) }
    }
}

/// Ends the run with an error.
fn stop(error: String, notes: Vec<Note>) -> (r: Advance)
    ensures
        r@ == stopped(error@, lines(notes@)),
{
    Advance { stage: Stage::Over, action: AutoAction::Stopped { error }, notes }
}

/// Leaves the run as it is.
fn stay(stage: Stage) -> (r: Advance)
    ensures
        r@ == unexpected(stage@),
{
    Advance { stage, action: AutoAction::Unexpected, notes: no_notes() }
}

/// Starts the run.
fn start(config_exists: bool) -> (r: Advance)
    ensures
        r@ == started(config_exists),
{
    let mut notes: Vec<Note> = no_notes();
    let (stage, action): (Stage, AutoAction) = if config_exists {
        say(&mut notes, owned("Loading configuration from '").concat(CONFIG_FILE).concat("'..."));
        (Stage::LoadingConfig, AutoAction::LoadConfig)
    } else {
        say(
            &mut notes,
            owned("Configuration file '").concat(CONFIG_FILE).concat(
                "' not found. Creating a template...",
            ),
        );
        (Stage::CreatingTemplate, AutoAction::CreateTemplate { config: template_config() })
    };
    let r: Advance = Advance { stage, action, notes };
    assert(r@ =~= started(config_exists));
    r
}

/// Goes on once the template is written.
fn template_written() -> (r: Advance)
    ensures
        r@ == (AutoStepView {
            stage: AutoStageView::Over,
            action: AutoActionView::LaunchTui,
            notes: seq![
                out("\nA template config has been created. Launching TUI so you can configure it."@),
            ],
        }),
{
    let notes: Vec<Note> = one_line(
        "\nA template config has been created. Launching TUI so you can configure it.",
    );
    Advance { stage: Stage::Over, action: AutoAction::LaunchTui, notes }
}

/// Goes on with a token.
fn with_session(config: Config, token: String, internal: bool, now: Timestamp) -> (r: Advance)
    requires
        now.valid(),
    ensures
        r@ == token_obtained(config@, token@, internal, now),
        token@ != config@.last_session_token && token@.len() > 0 && now.four_digit_year()
            ==> saves_session(r@, token@, now),
{
    let mut config: Config = config;
    let session: Session = Session { username: config.username.clone(), token: token.clone() };
    if take_token(&mut config, token.as_str(), internal, now) {
        Advance {
            stage: Stage::SavingConfig { session },
            action: AutoAction::SaveConfig { config },
            notes: no_notes(),
        }
    } else {
        Advance {
            stage: Stage::LoadingManifest { session },
            action: AutoAction::LoadManifest,
            notes: no_notes(),
        }
    }
}

/// Goes on with the next download, or ends the downloads.
fn go_on_downloading(
    session: Session,
    failed: Option<Vec<String>>,
    manifest: VersionManifest,
    queue: Vec<FileToDownload>,
    notes: Vec<Note>,
) -> (r: Advance)
    ensures
        r@ == next_download(session@, texts_of(failed), manifest@, files(queue@), lines(notes@)),
{
    let mut queue: Vec<FileToDownload> = queue;
    let mut notes: Vec<Note> = notes;
    if queue.len() == 0 {
        say(&mut notes, owned("\nUpdate process complete."));
        Advance {
            stage: Stage::SavingManifest { failed },
            action: AutoAction::SaveManifest { manifest },
            notes,
        }
    } else {
        let ghost all = files(queue@);
        let file: FileToDownload = queue.remove(0);
        assert(files(queue@) =~= all.skip(1));
        let action: AutoAction = AutoAction::Download {
            file: file.duplicate(),
            username: session.username.clone(),
            token: session.token.clone(),
        };
        Advance {
            stage: Stage::Downloading { session, failed, manifest, file, rest: queue },
            action,
            notes,
        }
    }
}

/// Puts the lines of `more` behind `notes`.
fn join(notes: &mut Vec<Note>, more: Vec<Note>)
    ensures
        lines(final(notes)@) == lines(old(notes)@) + lines(more@),
{
    let mut more: Vec<Note> = more;
    let ghost before = notes@;
    let ghost added = more@;
    notes.append(&mut more);
    assert(lines(notes@) =~= lines(before) + lines(added));
}

/// Goes on with what the update check said.
fn after_check(
    session: Session,
    failed: Option<Vec<String>>,
    check: UpdateCheck,
    found: CheckStep,
    notes: Vec<Note>,
    Ghost(view): Ghost<StepView>,
) -> (r: Advance)
    requires
        check@ == view.check,
        matches_action(found.action, view.action),
        lines(found.notes@) == view.notes,
    ensures
        checked(session@, texts_of(failed), view, lines(notes@), r@),
{
    let mut notes: Vec<Note> = notes;
    join(&mut notes, found.notes);
    match found.action {
        CheckAction::Fetch { name, url } => Advance {
            stage: Stage::Checking { session, failed, check },
            action: AutoAction::Fetch { name, url },
            notes,
        },
        CheckAction::LookFor { file_name } => Advance {
            stage: Stage::Checking { session, failed, check },
            action: AutoAction::LookFor { file_name },
            notes,
        },
        CheckAction::Conflict { message } => Advance {
            stage: Stage::Over,
            action: AutoAction::Conflict { message },
            notes,
        },
        CheckAction::Failed { error } => stop(error, notes),
        CheckAction::Finished { files: list } => {
            let ghost order = files(list@);
            let count: usize = list.len();
            if count == 0 {
                say(
                    &mut notes,
                    owned("\nAll checked local files and their dependencies are up-to-date."),
                );
            } else {
                say(
                    &mut notes,
                    owned("\nStarting downloads for ").concat(
                        decimal_text(count).as_str(),
                    ).concat(" files..."),
                );
            }
            assert(order.len() == count);
            assert(lists_values(order, view.action->queue));
            go_on_downloading(session, failed, check.into_manifest(), list, notes)
        },
        CheckAction::Unexpected => Advance {
            stage: Stage::Checking { session, failed, check },
            action: AutoAction::Unexpected,
            notes,
        },
    }
}

/// Begins the update check.
fn begin_check(
    session: Session,
    failed: Option<Vec<String>>,
    manifest: VersionManifest,
    notes: Vec<Note>,
) -> (r: Advance)
    ensures
        check_begun(session@, texts_of(failed), manifest@, lines(notes@), r@),
{
    let mut check: UpdateCheck = UpdateCheck::new(manifest);
    let ghost todo = check@.todo;
    assert(check@ =~= fresh_check(manifest@, todo));
    let found: CheckStep = check_for_updates(&mut check, CheckEvent::Begin);
    assert(enumerates(todo, manifest@));
    after_check(
        session,
        failed,
        check,
        found,
        notes,
        Ghost(step(fresh_check(manifest@, todo), CheckEvent::Begin)),
    )
}

/// Goes on with what the addition of new mods said.
fn after_new_mods(
    session: Session,
    mods: NewMods,
    found: NewModsStep,
    notes: Vec<Note>,
    Ghost(view): Ghost<NewModsStepView>,
) -> (r: Advance)
    requires
        mods@ == view.mods,
        found.action@ == view.action,
        lines(found.notes@) == view.notes,
    ensures
        mods_added(session@, view, lines(notes@), r@),
{
    let mut notes: Vec<Note> = notes;
    join(&mut notes, found.notes);
    match found.action {
        NewModsAction::Ask { name, url } => Advance {
            stage: Stage::AddingMods { session, mods },
            action: AutoAction::AskMod { name, url },
            notes,
        },
        NewModsAction::Finished => {
            let (manifest, failed) = mods.finish();
            begin_check(session, Some(failed), manifest, notes)
        },
    }
}

/// The line about a list of new mods that is there.
fn found_list() -> (notes: Vec<Note>)
    ensures
        lines(notes@) == seq![list_line(true)],
{
    let mut notes: Vec<Note> = no_notes();
    say(&mut notes, owned("Found '").concat(NEW_MODS_FILE).concat("', processing new mods..."));
    assert(lines(notes@) =~= seq![list_line(true)]);
    notes
}

/// Goes on with the list of new mods.
fn read_list(session: Session, manifest: VersionManifest, content: Option<String>) -> (r: Advance)
    ensures
        list_read(session@, manifest@, text_of(content), r@),
{
    match content {
        None => {
            let mut notes: Vec<Note> = no_notes();
            say(&mut notes, owned("No '").concat(NEW_MODS_FILE).concat("' file found, skipping."));
            assert(lines(notes@) =~= seq![list_line(false)]);
            begin_check(session, None, manifest, notes)
        },
        Some(text) => {
            let notes: Vec<Note> = found_list();
            match read_new_mods(text.as_str()) {
                Ok(names) => {
                    let mut mods: NewMods = NewMods::new(manifest, names);
                    let ghost view = new_mods_step(mods@, None);
                    let found: NewModsStep = process_new_mods_file(&mut mods, None);
                    after_new_mods(session, mods, found, notes, Ghost(view))
                },
                Err(error) => stop(error, notes),
            }
        },
    }
}

/// Goes on after a download.
fn after_download(
    session: Session,
    failed: Option<Vec<String>>,
    manifest: VersionManifest,
    file: FileToDownload,
    rest: Vec<FileToDownload>,
    result: Result<(), String>,
) -> (r: Advance)
    ensures
        downloaded(session@, texts_of(failed), manifest@, file@, files(rest@), result, r@),
{
    let mut manifest: VersionManifest = manifest;
    let mut notes: Vec<Note> = no_notes();
    match result {
        Ok(_) => {
            record_download(&mut manifest, &file);
        },
        Err(error) => {
            warn(
                &mut notes,
                owned("ERROR downloading ").concat(file.full_new_name.as_str()).concat(": ").concat(
                    error.as_str(),
                ),
            );
            assert(lines(notes@) =~= seq![download_error_line(file@, error@)]);
        },
    }
    go_on_downloading(session, failed, manifest, rest, notes)
}

/// Goes on once the manifest is saved.
fn after_manifest(failed: Option<Vec<String>>) -> (r: Advance)
    ensures
        r@ == manifest_saved(texts_of(failed)),
        list_reads_back(r@),
{
    match failed {
        None => Advance { stage: Stage::Over, action: AutoAction::Finished, notes: no_notes() },
        Some(names) => {
            let mut notes: Vec<Note> = no_notes();
            say(
                &mut notes,
                owned("Updating '").concat(NEW_MODS_FILE).concat(
                    "' with any remaining invalid mods...",
                ),
            );
            let content: String = write_failed_mods(&names);
            let r: Advance = Advance {
                stage: Stage::WritingNewMods { failed: names },
                action: AutoAction::WriteNewMods { content },
                notes,
            };
            assert(r@.notes =~= manifest_saved(texts_of(failed)).notes);
            r
        },
    }
}

/// Goes on once the mods that failed are written back.
fn after_list(failed: Vec<String>) -> (r: Advance)
    ensures
        r@ == list_written(texts(failed@)),
{
    let mut notes: Vec<Note> = no_notes();
    if failed.len() == 0 {
        say(
            &mut notes,
            owned("'").concat(NEW_MODS_FILE).concat(
                "' has been cleared as all mods were processed successfully.",
            ),
        );
    } else {
        say(
            &mut notes,
            owned("'").concat(NEW_MODS_FILE).concat(
                "' has been updated. Please correct the invalid entries.",
            ),
        );
    }
    let r: Advance = Advance { stage: Stage::Over, action: AutoAction::Finished, notes };
    assert(r@.notes =~= list_written(texts(failed@)).notes);
    r
}

/// Takes a run one step further.
fn advance(stage: Stage, event: AutoEvent, now: Timestamp) -> (r: Advance)
    requires
        now.valid(),
    ensures
        follows(stage@, event, now, r@),
        list_reads_back(r@),
        token_is_kept(stage@, event, now, r@),
{
    match (stage, event) {
        (Stage::Ready, AutoEvent::Begin { config_exists }) => start(config_exists),
        (Stage::Ready, _) => stay(Stage::Ready),
        (Stage::Over, _) => stay(Stage::Over),
        (Stage::ReadingNewMods { .. }, AutoEvent::Failed { error }) => stop(error, found_list()),
        (_, AutoEvent::Failed { error }) => stop(error, no_notes()),
        (Stage::CreatingTemplate, AutoEvent::Saved) => template_written(),
        (Stage::LoadingConfig, AutoEvent::ConfigLoaded(config)) => Advance {
            action: AutoAction::GetToken { config: config.duplicate() },
            stage: Stage::Authenticating { config },
            notes: no_notes(),
        },
        (Stage::Authenticating { config }, AutoEvent::Token { token, internal }) => with_session(
            config,
            token,
            internal,
            now,
        ),
        (Stage::SavingConfig { session }, AutoEvent::Saved) => Advance {
            stage: Stage::LoadingManifest { session },
            action: AutoAction::LoadManifest,
            notes: no_notes(),
        },
        (Stage::LoadingManifest { session }, AutoEvent::ManifestLoaded(manifest)) => Advance {
            stage: Stage::ReadingNewMods { session, manifest },
            action: AutoAction::ReadNewMods,
            notes: no_notes(),
        },
        (
            Stage::ReadingNewMods { session, manifest },
            AutoEvent::NewModsFile(content),
        ) => read_list(session, manifest, content),
        (Stage::AddingMods { session, mods }, AutoEvent::Reply(reply)) => {
            let mut mods: NewMods = mods;
            let ghost view = new_mods_step(mods@, Some(reply));
            let found: NewModsStep = process_new_mods_file(&mut mods, Some(reply));
            after_new_mods(session, mods, found, no_notes(), Ghost(view))
        },
        (Stage::Checking { session, failed, check }, AutoEvent::Check(happened)) => {
            let mut check: UpdateCheck = check;
            let ghost view = step(check@, happened);
            let found: CheckStep = check_for_updates(&mut check, happened);
            after_check(session, failed, check, found, no_notes(), Ghost(view))
        },
        (
            Stage::Downloading { session, failed, manifest, file, rest },
            AutoEvent::Downloaded(result),
        ) => after_download(session, failed, manifest, file, rest, result),
        (Stage::SavingManifest { failed }, AutoEvent::Saved) => after_manifest(failed),
        (Stage::WritingNewMods { failed }, AutoEvent::Saved) => after_list(failed),
        (other, _) => stay(other),
    }
}

impl AutoRun {
    /// A run that is to be started.
    pub fn new() -> (run: Self)
        ensures
            run@ == AutoStageView::Ready,
    {
        AutoRun { stage: Stage::Ready }
    }
}

/// What a step made of a run.
pub open spec fn outcome_of(run: AutoStageView, r: AutoStep) -> AutoStepView {
    AutoStepView { stage: run, action: r.action@, notes: lines(r.notes@) }
}

/// Takes the run one step further at the time `now`: handles what happened and
/// says what is to be done next.
pub fn run_automated_at(run: &mut AutoRun, event: AutoEvent, now: Timestamp) -> (r: AutoStep)
    requires
        now.valid(),
    ensures
        follows(old(run)@, event, now, outcome_of(final(run)@, r)),
        list_reads_back(outcome_of(final(run)@, r)),
        token_is_kept(old(run)@, event, now, outcome_of(final(run)@, r)),
{
    let mut stage: Stage = Stage::Over;
    std::mem::swap(&mut stage, &mut run.stage);
    let next: Advance = advance(stage, event, now);
    run.stage = next.stage;
    AutoStep { notes: next.notes, action: next.action }
}

/// Takes the run one step further at the current time.
pub fn run_automated(run: &mut AutoRun, event: AutoEvent) -> (r: AutoStep)
    ensures
        exists|now: Timestamp| #[trigger]
            now.valid() && follows(old(run)@, event, now, outcome_of(final(run)@, r))
                && token_is_kept(old(run)@, event, now, outcome_of(final(run)@, r)),
        list_reads_back(outcome_of(final(run)@, r)),
{
    let now: Timestamp = utc_now();
    run_automated_at(run, event, now)
}

} // verus!

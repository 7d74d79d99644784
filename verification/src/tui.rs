//! The interactive program: its state, what keys and finished background work
//! do to it, and the work that they ask for.

use vstd::prelude::*;
use vstd::string::StringExecFns;
use crate::api::{mod_address, mod_url};
use crate::auth::{session_fresh, SESSION_HOURS};
use crate::clock::{rfc3339_text, utc_now, within_hours, write_rfc3339, Timestamp};
use crate::config::{store_token, with_token};
use crate::manifest::{
    is_extension, path_extension_of, placeholder, placeholder_info, record_download, text_of,
    with_download,
};
use crate::models::{
    files, Config, ConfigView, FileToDownload, FileToDownloadView, ManifestView,
    VersionManifest,
};
use crate::string_map::Duplicate;
use crate::text::{decimal, decimal_text, owned, trim, trimmed};

verus! {

/// The panel that the arrow keys move in.
#[derive(Clone, Copy, Debug, PartialEq, Eq, Structural)]
pub enum Panel {
    LocalMods,
    DownloadQueue,
    Log,
}

/// What keys are for at the moment.
#[derive(Clone, Copy, Debug, PartialEq, Eq, Structural)]
pub enum InputMode {
    Normal,
    /// The name of a mod is being typed.
    AddingMod,
    /// User name and password are being typed.
    EditingConfig,
}

/// The field that is being typed in.
#[derive(Clone, Copy, Debug, PartialEq, Eq, Structural)]
pub enum ConfigField {
    Username,
    Password,
}

/// How a line of the log is meant.
#[derive(Clone, Copy, Debug, PartialEq, Eq, Structural)]
pub enum LogLevel {
    Info,
    Success,
    Error,
}

/// A key that was pressed.
#[derive(Clone, Copy, Debug, PartialEq, Eq, Structural)]
pub enum Key {
    Char(char),
    F(u8),
    Tab,
    Up,
    Down,
    Enter,
    Esc,
    Backspace,
    /// Any other key.
    Other,
}

/// One line of the log.
#[derive(Debug)]
pub struct StatusMessage {
    pub text: String,
    pub level: LogLevel,
}

#[verifier::ext_equal]
pub struct StatusView {
    pub text: Seq<char>,
    pub level: LogLevel,
}

impl View for StatusMessage {
    type V = StatusView;

    open spec fn view(&self) -> StatusView {
        StatusView { text: self.text@, level: self.level }
    }
}

impl StatusMessage {
    /// A line that informs.
    pub fn info(text: String) -> (message: Self)
        ensures
            message@ == (StatusView { text: text@, level: LogLevel::Info }),
    {
        StatusMessage { text, level: LogLevel::Info }
    }

    /// A line about something that worked.
    pub fn success(text: String) -> (message: Self)
        ensures
            message@ == (StatusView { text: text@, level: LogLevel::Success }),
    {
        StatusMessage { text, level: LogLevel::Success }
    }

    /// A line about something that failed.
    pub fn error(text: String) -> (message: Self)
        ensures
            message@ == (StatusView { text: text@, level: LogLevel::Error }),
    {
        StatusMessage { text, level: LogLevel::Error }
    }
}

/// The lines of a log.
pub open spec fn messages(log: Seq<StatusMessage>) -> Seq<StatusView> {
    log.map_values(|m: StatusMessage| m@)
}

/// The place in a list: the item that is selected, and the first one shown.
#[derive(Clone, Copy, Debug, PartialEq, Eq)]
pub struct ListPosition {
    pub selected: Option<usize>,
    pub offset: usize,
}

/// A list with nothing selected.
pub open spec fn top() -> ListPosition {
    ListPosition { selected: None, offset: 0 }
}

/// The place once `index` is selected; to select nothing goes back to the top.
pub open spec fn selected(place: ListPosition, index: Option<usize>) -> ListPosition {
    ListPosition {
        selected: index,
        offset: if index is None {
            0
        } else {
            place.offset
        },
    }
}

impl ListPosition {
    /// A list with nothing selected.
    pub fn new() -> (place: Self)
        ensures
            place == top(),
    {
        ListPosition { selected: None, offset: 0 }
    }

    /// Selects an item, or none.
    pub fn select(&mut self, index: Option<usize>)
        ensures
            *final(self) == selected(*old(self), index),
    {
        self.selected = index;
        if index.is_none() {
            self.offset = 0;
        }
    }
}

/// The item that moves start from.
pub open spec fn current(place: ListPosition) -> usize {
    match place.selected {
        Some(i) => i,
        None => 0,
    }
}

/// The place one item further up, unless it is the first.
pub open spec fn moved_up(place: ListPosition) -> ListPosition {
    if current(place) > 0 {
        selected(place, Some((current(place) - 1) as usize))
    } else {
        place
    }
}

/// The place one item further down, unless it is the last of `len`.
pub open spec fn moved_down(place: ListPosition, len: nat) -> ListPosition {
    if current(place) + 1 < len {
        selected(place, Some((current(place) + 1) as usize))
    } else {
        place
    }
}

/// The interactive program.
pub struct TuiApp {
    pub config: Config,
    /// The token of this session, once there is one.
    pub token: Option<String>,
    pub manifest: VersionManifest,
    pub download_queue: Vec<FileToDownload>,
    pub status_log: Vec<StatusMessage>,
    pub active_panel: Panel,
    pub mod_list: ListPosition,
    pub queue_list: ListPosition,
    pub log_list: ListPosition,
    pub should_quit: bool,
    pub input_mode: InputMode,
    /// The name that is being typed.
    pub mod_input_buffer: String,
    /// The user name that is being typed.
    pub config_edit_username: String,
    /// The password that is being typed.
    pub config_edit_password: String,
    pub config_edit_focus: ConfigField,
}

#[verifier::ext_equal]
pub struct TuiView {
    pub config: ConfigView,
    pub token: Option<Seq<char>>,
    pub manifest: ManifestView,
    pub download_queue: Seq<FileToDownloadView>,
    pub status_log: Seq<StatusView>,
    pub active_panel: Panel,
    pub mod_list: ListPosition,
    pub queue_list: ListPosition,
    pub log_list: ListPosition,
    pub should_quit: bool,
    pub input_mode: InputMode,
    pub mod_input_buffer: Seq<char>,
    pub config_edit_username: Seq<char>,
    pub config_edit_password: Seq<char>,
    pub config_edit_focus: ConfigField,
}

impl View for TuiApp {
    type V = TuiView;

    open spec fn view(&self) -> TuiView {
        TuiView {
            config: self.config@,
            token: text_of(self.token),
            manifest: self.manifest@,
            download_queue: files(self.download_queue@),
            status_log: messages(self.status_log@),
            active_panel: self.active_panel,
            mod_list: self.mod_list,
            queue_list: self.queue_list,
            log_list: self.log_list,
            should_quit: self.should_quit,
            input_mode: self.input_mode,
            mod_input_buffer: self.mod_input_buffer@,
            config_edit_username: self.config_edit_username@,
            config_edit_password: self.config_edit_password@,
            config_edit_focus: self.config_edit_focus,
        }
    }
}

/// Work that is to be done for the program.
pub enum TuiCommand {
    /// Check this manifest for updates in the background.
    CheckUpdates { manifest: VersionManifest },
    /// Ask the portal about a mod in the background.
    ValidateMod { mod_name: String, url: String },
    /// Get a session token in the background.
    Authenticate { config: Config },
    /// Download these files in the background.
    DownloadAll { queue: Vec<FileToDownload>, username: String, token: String },
    /// Read the manifest again, or build it from the folder.
    ReloadManifest,
    /// Read the configuration again.
    ReloadConfig,
    /// Save a configuration that was edited.
    SaveConfig { config: Config },
    /// Save a configuration with a new token.
    SaveToken { config: Config },
    /// Save the manifest.
    SaveManifest { manifest: VersionManifest },
}

#[verifier::ext_equal]
pub enum TuiCommandView {
    CheckUpdates { manifest: ManifestView },
    ValidateMod { mod_name: Seq<char>, url: Seq<char> },
    Authenticate { config: ConfigView },
    DownloadAll { queue: Seq<FileToDownloadView>, username: Seq<char>, token: Seq<char> },
    ReloadManifest,
    ReloadConfig,
    SaveConfig { config: ConfigView },
    SaveToken { config: ConfigView },
    SaveManifest { manifest: ManifestView },
}

impl View for TuiCommand {
    type V = TuiCommandView;

    open spec fn view(&self) -> TuiCommandView {
        match self {
            TuiCommand::CheckUpdates { manifest } => TuiCommandView::CheckUpdates {
                manifest: manifest@,
            },
            TuiCommand::ValidateMod { mod_name, url } => TuiCommandView::ValidateMod {
                mod_name: mod_name@,
                url: url@,
            },
            TuiCommand::Authenticate { config } => TuiCommandView::Authenticate {
                config: config@,
            },
            TuiCommand::DownloadAll { queue, username, token } => TuiCommandView::DownloadAll {
                queue: files(queue@),
                username: username@,
                token: token@,
            },
            TuiCommand::ReloadManifest => TuiCommandView::ReloadManifest,
            TuiCommand::ReloadConfig => TuiCommandView::ReloadConfig,
            TuiCommand::SaveConfig { config } => TuiCommandView::SaveConfig { config: config@ },
            TuiCommand::SaveToken { config } => TuiCommandView::SaveToken { config: config@ },
            TuiCommand::SaveManifest { manifest } => TuiCommandView::SaveManifest {
                manifest: manifest@,
            },
        }
    }
}

/// The work that was asked for, if any.
pub open spec fn command_of(command: Option<TuiCommand>) -> Option<TuiCommandView> {
    match command {
        Some(c) => Some(c@),
        None => None,
    }
}

/// What becomes of the program, and the work that is to be done.
#[verifier::ext_equal]
pub struct Reaction {
    pub app: TuiView,
    pub command: Option<TuiCommandView>,
}

/// Nothing but a change of the program.
pub open spec fn quiet(app: TuiView) -> Reaction {
    Reaction { app, command: None }
}

/// The program with one more line in its log.
pub open spec fn logged(app: TuiView, level: LogLevel, text: Seq<char>) -> TuiView {
    TuiView { status_log: app.status_log.push(StatusView { text, level }), ..app }
}

/// The panel behind a panel.
pub open spec fn next_panel(panel: Panel) -> Panel {
    match panel {
        Panel::LocalMods => Panel::DownloadQueue,
        Panel::DownloadQueue => Panel::Log,
        Panel::Log => Panel::LocalMods,
    }
}

/// The number of items in the active panel.
pub open spec fn active_len(app: TuiView) -> nat {
    match app.active_panel {
        Panel::LocalMods => app.manifest.len(),
        Panel::DownloadQueue => app.download_queue.len(),
        Panel::Log => app.status_log.len(),
    }
}

/// The place in the list of the active panel.
pub open spec fn active_place(app: TuiView) -> ListPosition {
    match app.active_panel {
        Panel::LocalMods => app.mod_list,
        Panel::DownloadQueue => app.queue_list,
        Panel::Log => app.log_list,
    }
}

/// The program with another place in the list of the active panel.
pub open spec fn with_active_place(app: TuiView, place: ListPosition) -> TuiView {
    match app.active_panel {
        Panel::LocalMods => TuiView { mod_list: place, ..app },
        Panel::DownloadQueue => TuiView { queue_list: place, ..app },
        Panel::Log => TuiView { log_list: place, ..app },
    }
}

/// Begins an update check.
pub open spec fn check_asked(app: TuiView) -> Reaction {
    Reaction {
        app: logged(app, LogLevel::Info, "Checking for mod updates…"@),
        command: Some(TuiCommandView::CheckUpdates { manifest: app.manifest }),
    }
}

/// Opens the input of a mod's name.
pub open spec fn adding_begun(app: TuiView) -> TuiView {
    logged(
        TuiView { input_mode: InputMode::AddingMod, mod_input_buffer: Seq::empty(), ..app },
        LogLevel::Info,
        "Type the mod name and press Enter to validate. Esc to cancel."@,
    )
}

/// Begins to get a session token.
pub open spec fn auth_asked(app: TuiView) -> Reaction {
    Reaction {
        app: logged(app, LogLevel::Info, "Authenticating with Factorio…"@),
        command: Some(TuiCommandView::Authenticate { config: app.config }),
    }
}

/// Begins to download the queue, which is empty from then on. An empty queue,
/// or a missing token, is reported instead.
pub open spec fn download_asked(app: TuiView) -> Reaction {
    if app.download_queue.len() == 0 {
        quiet(logged(app, LogLevel::Info, "Download queue is empty — nothing to download."@))
    } else {
        match app.token {
            None => quiet(
                logged(app, LogLevel::Error, "Not authenticated. Press F3 to log in first."@),
            ),
            Some(token) => Reaction {
                app: TuiView {
                    download_queue: Seq::empty(),
                    ..logged(
                        app,
                        LogLevel::Info,
                        "Starting download of "@ + decimal(app.download_queue.len())
                            + " file(s)…"@,
                    )
                },
                command: Some(
                    TuiCommandView::DownloadAll {
                        queue: app.download_queue,
                        username: app.config.username,
                        token,
                    },
                ),
            },
        }
    }
}

/// Opens the input of user name and password.
pub open spec fn editing_begun(app: TuiView) -> TuiView {
    logged(
        TuiView {
            config_edit_username: app.config.username,
            config_edit_password: app.config.password,
            config_edit_focus: ConfigField::Username,
            input_mode: InputMode::EditingConfig,
            ..app
        },
        LogLevel::Info,
        "Edit config — Tab to switch fields, Enter to save, Esc to cancel."@,
    )
}

/// What a key does when nothing is being typed.
pub open spec fn normal_key(app: TuiView, key: Key) -> Reaction {
    match key {
        Key::Char(c) => if c == 'q' || c == 'Q' {
            quiet(TuiView { should_quit: true, ..app })
        } else if c == 'k' {
            quiet(with_active_place(app, moved_up(active_place(app))))
        } else if c == 'j' {
            quiet(with_active_place(app, moved_down(active_place(app), active_len(app))))
        } else if c == 'c' || c == 'C' {
            quiet(editing_begun(app))
        } else if c == 'r' || c == 'R' {
            Reaction { app, command: Some(TuiCommandView::ReloadConfig) }
        } else {
            quiet(app)
        },
        Key::Tab => quiet(TuiView { active_panel: next_panel(app.active_panel), ..app }),
        Key::Up => quiet(with_active_place(app, moved_up(active_place(app)))),
        Key::Down => quiet(
            with_active_place(app, moved_down(active_place(app), active_len(app))),
        ),
        Key::F(n) => if n == 1 {
            check_asked(app)
        } else if n == 2 {
            quiet(adding_begun(app))
        } else if n == 3 {
            auth_asked(app)
        } else if n == 4 {
            download_asked(app)
        } else if n == 5 {
            Reaction { app, command: Some(TuiCommandView::ReloadManifest) }
        } else {
            quiet(app)
        },
        _ => quiet(app),
    }
}

/// A text without its last character.
pub open spec fn shortened(text: Seq<char>) -> Seq<char> {
    if text.len() == 0 {
        text
    } else {
        text.drop_last()
    }
}

/// The portal is to be asked about a mod.
pub open spec fn validation_asked(app: TuiView, name: Seq<char>) -> Reaction {
    Reaction {
        app: logged(app, LogLevel::Info, "Validating mod '"@ + name + "'…"@),
        command: Some(TuiCommandView::ValidateMod { mod_name: name, url: mod_address(name) }),
    }
}

/// What a key does while the name of a mod is being typed.
pub open spec fn adding_key(app: TuiView, key: Key) -> Reaction {
    match key {
        Key::Esc => quiet(
            logged(
                TuiView { input_mode: InputMode::Normal, mod_input_buffer: Seq::empty(), ..app },
                LogLevel::Info,
                "Mod add cancelled."@,
            ),
        ),
        Key::Enter => {
            let name = trimmed(app.mod_input_buffer);
            if name.len() == 0 {
                quiet(logged(app, LogLevel::Error, "Mod name cannot be empty."@))
            } else {
                validation_asked(TuiView { input_mode: InputMode::Normal, ..app }, name)
            }
        },
        Key::Char(c) => quiet(
            TuiView { mod_input_buffer: app.mod_input_buffer.push(c), ..app },
        ),
        Key::Backspace => quiet(
            TuiView { mod_input_buffer: shortened(app.mod_input_buffer), ..app },
        ),
        _ => quiet(app),
    }
}

/// The text of the field that is being typed in.
pub open spec fn field(app: TuiView) -> Seq<char> {
    match app.config_edit_focus {
        ConfigField::Username => app.config_edit_username,
        ConfigField::Password => app.config_edit_password,
    }
}

/// The program with another text in the field that is being typed in.
pub open spec fn with_field(app: TuiView, text: Seq<char>) -> TuiView {
    match app.config_edit_focus {
        ConfigField::Username => TuiView { config_edit_username: text, ..app },
        ConfigField::Password => TuiView { config_edit_password: text, ..app },
    }
}

/// The field behind a field.
pub open spec fn other_field(focus: ConfigField) -> ConfigField {
    match focus {
        ConfigField::Username => ConfigField::Password,
        ConfigField::Password => ConfigField::Username,
    }
}

/// The configuration with the user name and password that were typed.
pub open spec fn edited(app: TuiView) -> ConfigView {
    ConfigView {
        username: app.config_edit_username,
        password: app.config_edit_password,
        ..app.config
    }
}

/// What a key does while user name and password are being typed.
pub open spec fn editing_key(app: TuiView, key: Key) -> Reaction {
    match key {
        Key::Esc => quiet(
            logged(
                TuiView { input_mode: InputMode::Normal, ..app },
                LogLevel::Info,
                "Config edit cancelled."@,
            ),
        ),
        Key::Enter => Reaction {
            app: TuiView { config: edited(app), input_mode: InputMode::Normal, ..app },
            command: Some(TuiCommandView::SaveConfig { config: edited(app) }),
        },
        Key::Tab => quiet(TuiView { config_edit_focus: other_field(app.config_edit_focus), ..app }),
        Key::Char(c) => quiet(with_field(app, field(app).push(c))),
        Key::Backspace => quiet(with_field(app, shortened(field(app)))),
        _ => quiet(app),
    }
}

/// What a key does.
pub open spec fn key_pressed(app: TuiView, key: Key) -> Reaction {
    match app.input_mode {
        InputMode::Normal => normal_key(app, key),
        InputMode::AddingMod => adding_key(app, key),
        InputMode::EditingConfig => editing_key(app, key),
    }
}

/// Work that has ended, or a key.
pub enum AppEvent {
    Key(Key),
    /// The update check is complete.
    UpdateCheckDone { files: Vec<FileToDownload>, manifest: VersionManifest },
    /// The update check failed.
    UpdateCheckFailed { manifest: VersionManifest, error: String },
    /// A download succeeded or failed.
    DownloadDone { file: FileToDownload, result: Result<(), String> },
    /// The portal knows a mod, or does not.
    ModValidated { mod_name: String, result: Result<(), String> },
    /// There is a token, obtained by a login with user name and password or
    /// without; or there is none.
    AuthDone { result: Result<(String, bool), String> },
    /// An edited configuration was saved, or was not.
    ConfigSaved { result: Result<(), String> },
    /// A configuration with a new token was saved, or was not.
    TokenSaved { result: Result<(), String> },
    /// The manifest was saved, or was not.
    ManifestSaved { result: Result<(), String> },
    /// The manifest was read again, or was not.
    ManifestReloaded { result: Result<VersionManifest, String> },
    /// The configuration was read again, or was not.
    ConfigReloaded { result: Result<Config, String> },
}

#[verifier::ext_equal]
pub enum AppEventView {
    Key(Key),
    UpdateCheckDone { files: Seq<FileToDownloadView>, manifest: ManifestView },
    UpdateCheckFailed { manifest: ManifestView, error: Seq<char> },
    DownloadDone { file: FileToDownloadView, result: Result<(), Seq<char>> },
    ModValidated { mod_name: Seq<char>, result: Result<(), Seq<char>> },
    AuthDone { result: Result<(Seq<char>, bool), Seq<char>> },
    ConfigSaved { result: Result<(), Seq<char>> },
    TokenSaved { result: Result<(), Seq<char>> },
    ManifestSaved { result: Result<(), Seq<char>> },
    ManifestReloaded { result: Result<ManifestView, Seq<char>> },
    ConfigReloaded { result: Result<ConfigView, Seq<char>> },
}

/// A result with the contents of its error.
pub open spec fn result_of(result: Result<(), String>) -> Result<(), Seq<char>> {
    match result {
        Ok(_) => Ok(()),
        Err(e) => Err(e@),
    }
}

impl View for AppEvent {
    type V = AppEventView;

    open spec fn view(&self) -> AppEventView {
        match self {
            AppEvent::Key(key) => AppEventView::Key(*key),
            AppEvent::UpdateCheckDone { files: list, manifest } => AppEventView::UpdateCheckDone {
                files: files(list@),
                manifest: manifest@,
            },
            AppEvent::UpdateCheckFailed { manifest, error } => AppEventView::UpdateCheckFailed {
                manifest: manifest@,
                error: error@,
            },
            AppEvent::DownloadDone { file, result } => AppEventView::DownloadDone {
                file: file@,
                result: result_of(*result),
            },
            AppEvent::ModValidated { mod_name, result } => AppEventView::ModValidated {
                mod_name: mod_name@,
                result: result_of(*result),
            },
            AppEvent::AuthDone { result } => AppEventView::AuthDone {
                result: match result {
                    Ok((token, internal)) => Ok((token@, *internal)),
                    Err(e) => Err(e@),
                },
            },
            AppEvent::ConfigSaved { result } => AppEventView::ConfigSaved {
                result: result_of(*result),
            },
            AppEvent::TokenSaved { result } => AppEventView::TokenSaved {
                result: result_of(*result),
            },
            AppEvent::ManifestSaved { result } => AppEventView::ManifestSaved {
                result: result_of(*result),
            },
            AppEvent::ManifestReloaded { result } => AppEventView::ManifestReloaded {
                result: match result {
                    Ok(manifest) => Ok(manifest@),
                    Err(e) => Err(e@),
                },
            },
            AppEvent::ConfigReloaded { result } => AppEventView::ConfigReloaded {
                result: match result {
                    Ok(config) => Ok(config@),
                    Err(e) => Err(e@),
                },
            },
        }
    }
}

/// After an update check: what it found is the new queue, unless it found
/// nothing.
pub open spec fn check_done(
    app: TuiView,
    found: Seq<FileToDownloadView>,
    manifest: ManifestView,
) -> TuiView {
    let app = TuiView { manifest, ..app };
    if found.len() == 0 {
        logged(app, LogLevel::Success, "All mods are up-to-date."@)
    } else {
        logged(
            TuiView {
                download_queue: found,
                queue_list: selected(app.queue_list, Some(0)),
                ..app
            },
            LogLevel::Success,
            "Update check complete — "@ + decimal(found.len()) + " update(s) queued."@,
        )
    }
}

/// After a download: a file that arrived, with this extension, is entered in
/// the manifest, which is to be saved.
pub open spec fn download_done(
    app: TuiView,
    file: FileToDownloadView,
    result: Result<(), Seq<char>>,
    extension: Seq<char>,
) -> Reaction {
    match result {
        Ok(_) => {
            let manifest = with_download(app.manifest, file, extension);
            Reaction {
                app: logged(
                    TuiView { manifest, ..app },
                    LogLevel::Success,
                    "Downloaded "@ + file.full_new_name,
                ),
                command: Some(TuiCommandView::SaveManifest { manifest }),
            }
        },
        Err(e) => quiet(
            logged(
                app,
                LogLevel::Error,
                "Failed to download "@ + file.full_new_name + ": "@ + e,
            ),
        ),
    }
}

/// After the portal was asked about a mod: one that it knows is entered in the
/// manifest.
pub open spec fn mod_validated(
    app: TuiView,
    name: Seq<char>,
    result: Result<(), Seq<char>>,
) -> TuiView {
    match result {
        Ok(_) => logged(
            TuiView {
                manifest: app.manifest.insert(name, placeholder()),
                mod_list: selected(app.mod_list, Some(0)),
                ..app
            },
            LogLevel::Success,
            "Mod '"@ + name + "' added to manifest."@,
        ),
        Err(e) => logged(app, LogLevel::Error, "Mod '"@ + name + "' is invalid: "@ + e),
    }
}

/// After an attempt to get a token at `now`: the token is kept, and the
/// configuration with it is to be saved.
pub open spec fn auth_done(
    app: TuiView,
    result: Result<(Seq<char>, bool), Seq<char>>,
    now: Timestamp,
) -> Reaction {
    match result {
        Ok((token, internal)) => {
            let config = with_token(app.config, token, rfc3339_text(now), internal);
            Reaction {
                app: TuiView { token: Some(token), config, ..app },
                command: Some(TuiCommandView::SaveToken { config }),
            }
        },
        Err(e) => quiet(logged(app, LogLevel::Error, "Authentication failed: "@ + e)),
    }
}

/// Reports a success, or an error behind `trouble`.
pub open spec fn reported(
    app: TuiView,
    result: Result<(), Seq<char>>,
    success: Seq<char>,
    trouble: Seq<char>,
) -> TuiView {
    match result {
        Ok(_) => logged(app, LogLevel::Success, success),
        Err(e) => logged(app, LogLevel::Error, trouble + e),
    }
}

/// After the manifest was read again: its first mod is selected, if it has any.
pub open spec fn manifest_reloaded(
    app: TuiView,
    result: Result<ManifestView, Seq<char>>,
) -> TuiView {
    match result {
        Ok(manifest) => logged(
            TuiView {
                manifest,
                mod_list: selected(
                    app.mod_list,
                    if manifest.len() > 0 {
                        Some(0)
                    } else {
                        None
                    },
                ),
                ..app
            },
            LogLevel::Success,
            "Manifest reloaded from disk."@,
        ),
        Err(e) => logged(app, LogLevel::Error, "Failed to reload manifest: "@ + e),
    }
}

/// After the configuration was read again.
pub open spec fn config_reloaded(app: TuiView, result: Result<ConfigView, Seq<char>>) -> TuiView {
    match result {
        Ok(config) => logged(
            TuiView { config, ..app },
            LogLevel::Success,
            "Config reloaded from disk."@,
        ),
        Err(e) => logged(app, LogLevel::Error, "Failed to reload config: "@ + e),
    }
}

/// What work that has ended does at the time `now`. A file that arrived has
/// this extension. Keys are left to `key_pressed`.
pub open spec fn work_ended(
    app: TuiView,
    event: AppEventView,
    now: Timestamp,
    extension: Seq<char>,
) -> Reaction {
    match event {
        AppEventView::Key(_) => quiet(app),
        AppEventView::UpdateCheckDone { files: found, manifest } => quiet(
            check_done(app, found, manifest),
        ),
        AppEventView::UpdateCheckFailed { manifest, error } => quiet(
            logged(
                TuiView { manifest, ..app },
                LogLevel::Error,
                "Update check failed: "@ + error,
            ),
        ),
        AppEventView::DownloadDone { file, result } => download_done(app, file, result, extension),
        AppEventView::ModValidated { mod_name, result } => quiet(
            mod_validated(app, mod_name, result),
        ),
        AppEventView::AuthDone { result } => auth_done(app, result, now),
        AppEventView::ConfigSaved { result } => quiet(
            reported(app, result, "Config saved to disk."@, "Failed to save config: "@),
        ),
        AppEventView::TokenSaved { result } => quiet(
            reported(
                app,
                result,
                "Authentication successful — token saved."@,
                "Failed to save token to config: "@,
            ),
        ),
        AppEventView::ManifestSaved { result } => match result {
            Ok(_) => quiet(app),
            Err(e) => quiet(logged(app, LogLevel::Error, "Failed to save manifest: "@ + e)),
        },
        AppEventView::ManifestReloaded { result } => quiet(manifest_reloaded(app, result)),
        AppEventView::ConfigReloaded { result } => quiet(config_reloaded(app, result)),
    }
}

/// Whether `extension` can be that of the file that arrived, if one did.
pub open spec fn fits(event: AppEventView, extension: Seq<char>) -> bool {
    event matches AppEventView::DownloadDone { file, result: Ok(_) } ==> is_extension(
        extension,
        file.full_new_name,
    )
}

/// The program with the latest line of its log selected.
pub open spec fn scrolled(app: TuiView) -> TuiView {
    if app.status_log.len() > 0 {
        TuiView {
            log_list: selected(app.log_list, Some((app.status_log.len() - 1) as usize)),
            ..app
        }
    } else {
        app
    }
}

impl TuiApp {
    /// Puts a line in the log.
    fn log(&mut self, message: StatusMessage)
        ensures
            final(self)@ == logged(old(self)@, message.level, message.text@),
    {
        let ghost before = self.status_log@;
        self.status_log.push(message);
        assert(messages(self.status_log@) =~= messages(before).push(message@));
    }

    /// Puts a line that informs in the log.
    pub fn log_info(&mut self, text: &str)
        ensures
            final(self)@ == logged(old(self)@, LogLevel::Info, text@),
    {
        self.log(StatusMessage::info(owned(text)));
    }

    /// Puts a line about something that worked in the log.
    pub fn log_success(&mut self, text: &str)
        ensures
            final(self)@ == logged(old(self)@, LogLevel::Success, text@),
    {
        self.log(StatusMessage::success(owned(text)));
    }

    /// Puts a line about something that failed in the log.
    pub fn log_error(&mut self, text: &str)
        ensures
            final(self)@ == logged(old(self)@, LogLevel::Error, text@),
    {
        self.log(StatusMessage::error(owned(text)));
    }

    /// The number of items in the active panel and the place in its list.
    fn active_list(&self) -> (r: (usize, ListPosition))
        ensures
            r.0 == active_len(self@),
            r.1 == active_place(self@),
    {
        match self.active_panel {
            Panel::LocalMods => (self.manifest.len(), self.mod_list),
            Panel::DownloadQueue => (self.download_queue.len(), self.queue_list),
            Panel::Log => (self.status_log.len(), self.log_list),
        }
    }

    /// Selects an item in the active panel.
    fn select_active(&mut self, index: usize)
        ensures
            final(self)@ == with_active_place(
                old(self)@,
                selected(active_place(old(self)@), Some(index)),
            ),
    {
        match self.active_panel {
            Panel::LocalMods => self.mod_list.select(Some(index)),
            Panel::DownloadQueue => self.queue_list.select(Some(index)),
            Panel::Log => self.log_list.select(Some(index)),
        }
    }

    /// Moves up in the active panel.
    pub fn navigate_up(&mut self)
        ensures
            final(self)@ == with_active_place(old(self)@, moved_up(active_place(old(self)@))),
    {
        let (_, place): (usize, ListPosition) = self.active_list();
        let at: usize = match place.selected {
            Some(i) => i,
            None => 0,
        };
        if at > 0 {
            self.select_active(at - 1);
        }
    }

    /// Moves down in the active panel.
    pub fn navigate_down(&mut self)
        ensures
            final(self)@ == with_active_place(
                old(self)@,
                moved_down(active_place(old(self)@), active_len(old(self)@)),
            ),
    {
        let (len, place): (usize, ListPosition) = self.active_list();
        let at: usize = match place.selected {
            Some(i) => i,
            None => 0,
        };
        if len > 0 && at < len - 1 {
            self.select_active(at + 1);
        }
    }

    /// Selects the latest line of the log.
    pub fn update_log_scroll(&mut self)
        ensures
            final(self)@ == scrolled(old(self)@),
    {
        if self.status_log.len() > 0 {
            self.log_list.select(Some(self.status_log.len() - 1));
        }
    }

    /// Ends the program: nothing can happen any more.
    pub fn events_closed(&mut self)
        ensures
            final(self)@ == (TuiView { should_quit: true, ..old(self)@ }),
    {
        self.should_quit = true;
    }

    /// Begins an update check.
    fn spawn_check_updates(&mut self) -> (command: Option<TuiCommand>)
        ensures
            final(self)@ == check_asked(old(self)@).app,
            command_of(command) == check_asked(old(self)@).command,
    {
        self.log_info("Checking for mod updates…");
        Some(TuiCommand::CheckUpdates { manifest: self.manifest.copy() })
    }

    /// Begins to ask the portal about a mod.
    fn spawn_validate_mod(&mut self, mod_name: String) -> (command: Option<TuiCommand>)
        ensures
            final(self)@ == validation_asked(old(self)@, mod_name@).app,
            command_of(command) == validation_asked(old(self)@, mod_name@).command,
    {
        self.log_info(
            owned("Validating mod '").concat(mod_name.as_str()).concat("'…").as_str(),
        );
        let url: String = mod_url(mod_name.as_str());
        Some(TuiCommand::ValidateMod { mod_name, url })
    }

    /// Begins to get a session token.
    fn spawn_auth(&mut self) -> (command: Option<TuiCommand>)
        ensures
            final(self)@ == auth_asked(old(self)@).app,
            command_of(command) == auth_asked(old(self)@).command,
    {
        self.log_info("Authenticating with Factorio…");
        Some(TuiCommand::Authenticate { config: self.config.duplicate() })
    }

    /// Begins to download the queue.
    fn spawn_download_all(&mut self) -> (command: Option<TuiCommand>)
        ensures
            final(self)@ == download_asked(old(self)@).app,
            command_of(command) == download_asked(old(self)@).command,
    {
        if self.download_queue.len() == 0 {
            self.log_info("Download queue is empty — nothing to download.");
            return None;
        }
        let token: String = match &self.token {
            Some(t) => t.clone(),
            None => {
                self.log_error("Not authenticated. Press F3 to log in first.");
                return None;
            },
        };
        self.log_info(
            owned("Starting download of ").concat(
                decimal_text(self.download_queue.len()).as_str(),
            ).concat(" file(s)…").as_str(),
        );
        let username: String = self.config.username.clone();
        let mut queue: Vec<FileToDownload> = Vec::new();
        std::mem::swap(&mut queue, &mut self.download_queue);
        assert(files(self.download_queue@) =~= Seq::<FileToDownloadView>::empty());
        Some(TuiCommand::DownloadAll { queue, username, token })
    }

    /// Handles a key when nothing is being typed.
    pub fn handle_normal_key(&mut self, key: Key) -> (command: Option<TuiCommand>)
        ensures
            final(self)@ == normal_key(old(self)@, key).app,
            command_of(command) == normal_key(old(self)@, key).command,
    {
        match key {
            Key::Char(c) => {
                if c == 'q' || c == 'Q' {
                    self.should_quit = true;
                } else if c == 'k' {
                    self.navigate_up();
                } else if c == 'j' {
                    self.navigate_down();
                } else if c == 'c' || c == 'C' {
                    self.config_edit_username = self.config.username.clone();
                    self.config_edit_password = self.config.password.clone();
                    self.config_edit_focus = ConfigField::Username;
                    self.input_mode = InputMode::EditingConfig;
                    self.log_info(
                        "Edit config — Tab to switch fields, Enter to save, Esc to cancel.",
                    );
                } else if c == 'r' || c == 'R' {
                    return Some(TuiCommand::ReloadConfig);
                }
                None
            },
            Key::Tab => {
                self.active_panel = match self.active_panel {
                    Panel::LocalMods => Panel::DownloadQueue,
                    Panel::DownloadQueue => Panel::Log,
                    Panel::Log => Panel::LocalMods,
                };
                None
            },
            Key::Up => {
                self.navigate_up();
                None
            },
            Key::Down => {
                self.navigate_down();
                None
            },
            Key::F(n) => {
                if n == 1 {
                    self.spawn_check_updates()
                } else if n == 2 {
                    self.input_mode = InputMode::AddingMod;
                    self.mod_input_buffer = String::new();
                    self.log_info("Type the mod name and press Enter to validate. Esc to cancel.");
                    None
                } else if n == 3 {
                    self.spawn_auth()
                } else if n == 4 {
                    self.spawn_download_all()
                } else if n == 5 {
                    Some(TuiCommand::ReloadManifest)
                } else {
                    None
                }
            },
            _ => None,
        }
    }

    /// Handles a key while the name of a mod is being typed.
    pub fn handle_adding_mod_key(&mut self, key: Key) -> (command: Option<TuiCommand>)
        ensures
            final(self)@ == adding_key(old(self)@, key).app,
            command_of(command) == adding_key(old(self)@, key).command,
    {
        match key {
            Key::Esc => {
                self.input_mode = InputMode::Normal;
                self.mod_input_buffer = String::new();
                self.log_info("Mod add cancelled.");
            },
            Key::Enter => {
                let mod_name: String = trim(self.mod_input_buffer.as_str());
                if mod_name.as_str().is_empty() {
                    self.log_error("Mod name cannot be empty.");
                } else {
                    self.input_mode = InputMode::Normal;
                    return self.spawn_validate_mod(mod_name);
                }
            },
            Key::Char(c) => {
                self.mod_input_buffer.push(c);
            },
            Key::Backspace => {
                let _ = self.mod_input_buffer.pop();
            },
            _ => {},
        }
        None
    }

    /// Handles a key while user name and password are being typed.
    pub fn handle_editing_config_key(&mut self, key: Key) -> (command: Option<TuiCommand>)
        ensures
            final(self)@ == editing_key(old(self)@, key).app,
            command_of(command) == editing_key(old(self)@, key).command,
    {
        match key {
            Key::Esc => {
                self.input_mode = InputMode::Normal;
                self.log_info("Config edit cancelled.");
            },
            Key::Enter => {
                self.config.username = self.config_edit_username.clone();
                self.config.password = self.config_edit_password.clone();
                self.input_mode = InputMode::Normal;
                return Some(TuiCommand::SaveConfig { config: self.config.duplicate() });
            },
            Key::Tab => {
                self.config_edit_focus = match self.config_edit_focus {
                    ConfigField::Username => ConfigField::Password,
                    ConfigField::Password => ConfigField::Username,
                };
            },
            Key::Char(c) => match self.config_edit_focus {
                ConfigField::Username => self.config_edit_username.push(c),
                ConfigField::Password => self.config_edit_password.push(c),
            },
            Key::Backspace => {
                let _ = match self.config_edit_focus {
                    ConfigField::Username => self.config_edit_username.pop(),
                    ConfigField::Password => self.config_edit_password.pop(),
                };
            },
            _ => {},
        }
        None
    }

    /// Handles a key, and says what work it asks for.
    pub fn handle_key(&mut self, key: Key) -> (command: Option<TuiCommand>)
        ensures
            final(self)@ == key_pressed(old(self)@, key).app,
            command_of(command) == key_pressed(old(self)@, key).command,
    {
        match self.input_mode {
            InputMode::Normal => self.handle_normal_key(key),
            InputMode::AddingMod => self.handle_adding_mod_key(key),
            InputMode::EditingConfig => self.handle_editing_config_key(key),
        }
    }
}

/// A token that was just obtained is stored so that it is used again for the
/// next 36 hours, and no longer.
pub open spec fn session_kept(config: ConfigView, event: AppEventView, now: Timestamp) -> bool {
    event matches AppEventView::AuthDone { result: Ok(found) } ==> found.0.len() > 0
        && now.four_digit_year() ==> forall|later: Timestamp| #[trigger]
        session_fresh(config, later) == within_hours(later, now, SESSION_HOURS as int)
}

/// What an event does: a key, or work that has ended.
pub open spec fn event_handled(
    app: TuiView,
    event: AppEventView,
    now: Timestamp,
    extension: Seq<char>,
) -> Reaction {
    match event {
        AppEventView::Key(key) => key_pressed(app, key),
        _ => work_ended(app, event, now, extension),
    }
}

impl TuiApp {
    /// Reports a success, or an error behind `trouble`.
    fn report(&mut self, result: Result<(), String>, success: &str, trouble: &str)
        ensures
            final(self)@ == reported(old(self)@, result_of(result), success@, trouble@),
    {
        match result {
            Ok(_) => self.log_success(success),
            Err(e) => self.log_error(owned(trouble).concat(e.as_str()).as_str()),
        }
    }

    /// Handles the end of an update check.
    fn on_check_done(&mut self, found: Vec<FileToDownload>, manifest: VersionManifest)
        ensures
            final(self)@ == check_done(old(self)@, files(found@), manifest@),
    {
        self.manifest = manifest;
        assert(files(found@).len() == found@.len());
        if found.len() == 0 {
            self.log_success("All mods are up-to-date.");
        } else {
            let count: usize = found.len();
            self.download_queue = found;
            self.queue_list.select(Some(0));
            self.log_success(
                owned("Update check complete — ").concat(decimal_text(count).as_str()).concat(
                    " update(s) queued.",
                ).as_str(),
            );
        }
    }

    /// Handles the end of a download.
    fn on_download_done(&mut self, file: FileToDownload, result: Result<(), String>) -> (command:
        Option<TuiCommand>)
        ensures
            exists|extension: Seq<char>| #[trigger]
                is_extension(extension, file.full_new_name@) && final(self)@ == download_done(
                    old(self)@,
                    file@,
                    result_of(result),
                    extension,
                ).app && command_of(command) == download_done(
                    old(self)@,
                    file@,
                    result_of(result),
                    extension,
                ).command,
    {
        match result {
            Ok(_) => {
                record_download(&mut self.manifest, &file);
                self.log_success(
                    owned("Downloaded ").concat(file.full_new_name.as_str()).as_str(),
                );
                Some(TuiCommand::SaveManifest { manifest: self.manifest.copy() })
            },
            Err(e) => {
                self.log_error(
                    owned("Failed to download ").concat(file.full_new_name.as_str()).concat(
                        ": ",
                    ).concat(e.as_str()).as_str(),
                );
                proof {
                    let extension = match path_extension_of(file.full_new_name@) {
                        Some(x) => x,
                        None => "zip"@,
                    };
                    assert(is_extension(extension, file.full_new_name@));
                }
                None
            },
        }
    }

    /// Handles the portal's word about a mod.
    fn on_mod_validated(&mut self, mod_name: String, result: Result<(), String>)
        ensures
            final(self)@ == mod_validated(old(self)@, mod_name@, result_of(result)),
    {
        match result {
            Ok(_) => {
                self.manifest.insert(mod_name.clone(), placeholder_info());
                self.mod_list.select(Some(0));
                self.log_success(
                    owned("Mod '").concat(mod_name.as_str()).concat(
                        "' added to manifest.",
                    ).as_str(),
                );
            },
            Err(e) => {
                self.log_error(
                    owned("Mod '").concat(mod_name.as_str()).concat("' is invalid: ").concat(
                        e.as_str(),
                    ).as_str(),
                );
            },
        }
    }

    /// Handles the end of an attempt to get a token.
    fn on_auth_done(&mut self, result: Result<(String, bool), String>, now: Timestamp) -> (command:
        Option<TuiCommand>)
        requires
            now.valid(),
        ensures
            final(self)@ == auth_done(
                old(self)@,
                (AppEvent::AuthDone { result })@->AuthDone_result,
                now,
            ).app,
            command_of(command) == auth_done(
                old(self)@,
                (AppEvent::AuthDone { result })@->AuthDone_result,
                now,
            ).command,
            session_kept(final(self)@.config, (AppEvent::AuthDone { result })@, now),
    {
        match result {
            Ok((token, internal)) => {
                self.token = Some(token.clone());
                store_token(&mut self.config, token, write_rfc3339(now), internal);
                Some(TuiCommand::SaveToken { config: self.config.duplicate() })
            },
            Err(e) => {
                self.log_error(owned("Authentication failed: ").concat(e.as_str()).as_str());
                None
            },
        }
    }

    /// Handles a manifest that was read again.
    fn on_manifest_reloaded(&mut self, result: Result<VersionManifest, String>)
        ensures
            final(self)@ == manifest_reloaded(
                old(self)@,
                (AppEvent::ManifestReloaded { result })@->ManifestReloaded_result,
            ),
    {
        match result {
            Ok(manifest) => {
                let empty: bool = manifest.len() == 0;
                self.manifest = manifest;
                self.log_success("Manifest reloaded from disk.");
                if !empty {
                    self.mod_list.select(Some(0));
                } else {
                    self.mod_list.select(None);
                }
            },
            Err(e) => {
                self.log_error(owned("Failed to reload manifest: ").concat(e.as_str()).as_str());
            },
        }
    }

    /// Handles a configuration that was read again.
    fn on_config_reloaded(&mut self, result: Result<Config, String>)
        ensures
            final(self)@ == config_reloaded(
                old(self)@,
                (AppEvent::ConfigReloaded { result })@->ConfigReloaded_result,
            ),
    {
        match result {
            Ok(config) => {
                self.config = config;
                self.log_success("Config reloaded from disk.");
            },
            Err(e) => {
                self.log_error(owned("Failed to reload config: ").concat(e.as_str()).as_str());
            },
        }
    }

    /// Handles work that has ended at the time `now`, and says what further work
    /// that asks for. Keys are left to `handle_key`.
    pub fn handle_async_event_at(&mut self, event: AppEvent, now: Timestamp) -> (command: Option<
        TuiCommand,
    >)
        requires
            now.valid(),
        ensures
            exists|extension: Seq<char>| #[trigger]
                fits(event@, extension) && final(self)@ == work_ended(
                    old(self)@,
                    event@,
                    now,
                    extension,
                ).app && command_of(command) == work_ended(
                    old(self)@,
                    event@,
                    now,
                    extension,
                ).command,
            session_kept(final(self)@.config, event@, now),
    {
        proof {
            if !(event is DownloadDone) {
                assert(fits(event@, Seq::empty()));
            }
        }
        match event {
            AppEvent::Key(_) => {},
            AppEvent::UpdateCheckDone { files: found, manifest } => {
                self.on_check_done(found, manifest);
            },
            AppEvent::UpdateCheckFailed { manifest, error } => {
                self.manifest = manifest;
                self.log_error(owned("Update check failed: ").concat(error.as_str()).as_str());
            },
            AppEvent::DownloadDone { file, result } => {
                let command: Option<TuiCommand> = self.on_download_done(file, result);
                proof {
                    let extension = choose|extension: Seq<char>| #[trigger]
                        is_extension(extension, file.full_new_name@) && self@ == download_done(
                            old(self)@,
                            file@,
                            result_of(result),
                            extension,
                        ).app && command_of(command) == download_done(
                            old(self)@,
                            file@,
                            result_of(result),
                            extension,
                        ).command;
                    assert(fits(event@, extension));
                }
                return command;
            },
            AppEvent::ModValidated { mod_name, result } => {
                self.on_mod_validated(mod_name, result);
            },
            AppEvent::AuthDone { result } => {
                return self.on_auth_done(result, now);
            },
            AppEvent::ConfigSaved { result } => {
                self.report(result, "Config saved to disk.", "Failed to save config: ");
            },
            AppEvent::TokenSaved { result } => {
                self.report(
                    result,
                    "Authentication successful — token saved.",
                    "Failed to save token to config: ",
                );
            },
            AppEvent::ManifestSaved { result } => match result {
                Ok(_) => {},
                Err(e) => {
                    self.log_error(owned("Failed to save manifest: ").concat(e.as_str()).as_str());
                },
            },
            AppEvent::ManifestReloaded { result } => {
                self.on_manifest_reloaded(result);
            },
            AppEvent::ConfigReloaded { result } => {
                self.on_config_reloaded(result);
            },
        }
        None
    }

    /// Handles work that has ended, at the current time.
    pub fn handle_async_event(&mut self, event: AppEvent) -> (command: Option<TuiCommand>)
        ensures
            exists|now: Timestamp, extension: Seq<char>|
                #![trigger now.valid(), fits(event@, extension)]
                now.valid() && fits(event@, extension) && final(self)@ == work_ended(
                    old(self)@,
                    event@,
                    now,
                    extension,
                ).app && command_of(command) == work_ended(
                    old(self)@,
                    event@,
                    now,
                    extension,
                ).command && session_kept(final(self)@.config, event@, now),
    {
        let now: Timestamp = utc_now();
        self.handle_async_event_at(event, now)
    }

    /// Handles whatever happened, and says what work that asks for.
    pub fn handle_event(&mut self, event: AppEvent) -> (command: Option<TuiCommand>)
        ensures
            exists|now: Timestamp, extension: Seq<char>|
                #![trigger now.valid(), fits(event@, extension)]
                now.valid() && fits(event@, extension) && final(self)@ == event_handled(
                    old(self)@,
                    event@,
                    now,
                    extension,
                ).app && command_of(command) == event_handled(
                    old(self)@,
                    event@,
                    now,
                    extension,
                ).command && session_kept(final(self)@.config, event@, now),
    {
        match event {
            AppEvent::Key(key) => {
                proof {
                    assert((Timestamp { secs: 0, nanos: 0 }).valid());
                    assert(fits(event@, Seq::empty()));
                }
                self.handle_key(key)
            },
            other => self.handle_async_event(other),
        }
    }
}

} // verus!

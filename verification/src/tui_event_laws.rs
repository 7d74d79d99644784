//! What each key and each piece of work that has ended does to the interactive
//! program, stated field by field: what changes, and that nothing else does.

use vstd::prelude::*;
use crate::clock::{rfc3339_text, Timestamp};
use crate::folder_laws::law_extension_of_a_download;
use crate::manifest::plain_name;
use crate::models::{ConfigView, FileToDownloadView, LocalVersionInfoView, ManifestView};
use crate::notes::err;
use crate::text::{decimal, is_white};
use crate::text_laws::{all_white, law_trimmed};
use crate::tui::{
    adding_key, editing_key, event_handled, fits, key_pressed, normal_key, scrolled, work_ended,
    AppEventView, ConfigField, InputMode, Key, ListPosition, LogLevel, Panel, Reaction, StatusView,
    TuiCommandView, TuiView,
};
use crate::tui_start::{config_for, start_view, FoundConfig};
use crate::tui_tasks::{batch_step, verdict, BatchActionView, BatchView, PortalReply};

verus! {

/// Configuration, token, manifest and queue are the same.
pub open spec fn same_data(a: TuiView, b: TuiView) -> bool {
    &&& a.config == b.config
    &&& a.token == b.token
    &&& a.manifest == b.manifest
    &&& a.download_queue == b.download_queue
}

/// What is being typed, and what keys are for, is the same.
pub open spec fn same_input(a: TuiView, b: TuiView) -> bool {
    &&& a.input_mode == b.input_mode
    &&& a.mod_input_buffer == b.mod_input_buffer
    &&& a.config_edit_username == b.config_edit_username
    &&& a.config_edit_password == b.config_edit_password
    &&& a.config_edit_focus == b.config_edit_focus
}

/// The active panel, the places in the lists and whether to quit are the same.
pub open spec fn same_places(a: TuiView, b: TuiView) -> bool {
    &&& a.active_panel == b.active_panel
    &&& a.mod_list == b.mod_list
    &&& a.queue_list == b.queue_list
    &&& a.log_list == b.log_list
    &&& a.should_quit == b.should_quit
}

/// The log has gained this line and no other.
pub open spec fn log_gains(
    before: TuiView,
    after: TuiView,
    level: LogLevel,
    text: Seq<char>,
) -> bool {
    after.status_log == before.status_log + seq![StatusView { text, level }]
}

/// Whatever happens is handled as a key or as work that has ended.
pub proof fn law_events(app: TuiView, event: AppEventView, now: Timestamp, extension: Seq<char>)
    ensures
        event matches AppEventView::Key(key) ==> event_handled(app, event, now, extension)
            == key_pressed(app, key),
        !(event is Key) ==> event_handled(app, event, now, extension) == work_ended(
            app,
            event,
            now,
            extension,
        ),
        app.input_mode == InputMode::Normal && event is Key ==> key_pressed(app, event->Key_0)
            == normal_key(app, event->Key_0),
        app.input_mode == InputMode::AddingMod && event is Key ==> key_pressed(app, event->Key_0)
            == adding_key(app, event->Key_0),
        app.input_mode == InputMode::EditingConfig && event is Key ==> key_pressed(
            app,
            event->Key_0,
        ) == editing_key(app, event->Key_0),
{
}

/// After an update check that found something the queue is exactly what was
/// found, whatever was in it before, and its first file is selected; one that
/// found nothing leaves the queue alone. The manifest is the one that the check
/// left, and nothing else changes.
pub proof fn law_check_replaces_the_queue(
    app: TuiView,
    found: Seq<FileToDownloadView>,
    manifest: ManifestView,
    now: Timestamp,
    extension: Seq<char>,
)
    ensures
        ({
            let r = work_ended(
                app,
                AppEventView::UpdateCheckDone { files: found, manifest },
                now,
                extension,
            );
            &&& r.command is None
            &&& r.app.manifest == manifest
            &&& r.app.config == app.config
            &&& r.app.token == app.token
            &&& same_input(r.app, app)
            &&& r.app.active_panel == app.active_panel
            &&& r.app.mod_list == app.mod_list
            &&& r.app.log_list == app.log_list
            &&& r.app.should_quit == app.should_quit
            &&& found.len() > 0 ==> {
                &&& r.app.download_queue == found
                &&& r.app.queue_list.selected == Some(0usize)
                &&& r.app.queue_list.offset == app.queue_list.offset
                &&& log_gains(
                    app,
                    r.app,
                    LogLevel::Success,
                    "Update check complete — "@ + decimal(found.len()) + " update(s) queued."@,
                )
            }
            &&& found.len() == 0 ==> {
                &&& r.app.download_queue == app.download_queue
                &&& r.app.queue_list == app.queue_list
                &&& log_gains(app, r.app, LogLevel::Success, "All mods are up-to-date."@)
            }
        }),
{
    let r = work_ended(
        app,
        AppEventView::UpdateCheckDone { files: found, manifest },
        now,
        extension,
    );
    assert(r.app.status_log =~= app.status_log + seq![r.app.status_log.last()]);
}

/// What was in the queue before a check that found something makes no
/// difference, and the same result a second time changes nothing of the queue.
pub proof fn law_queue_forgets(
    one: TuiView,
    other: TuiView,
    found: Seq<FileToDownloadView>,
    manifest: ManifestView,
    now: Timestamp,
    extension: Seq<char>,
)
    requires
        found.len() > 0,
    ensures
        ({
            let event = AppEventView::UpdateCheckDone { files: found, manifest };
            let first = work_ended(one, event, now, extension).app;
            &&& first.download_queue == work_ended(other, event, now, extension).app.download_queue
            &&& work_ended(first, event, now, extension).app.download_queue
                == first.download_queue
        }),
{
}

/// What a check found is what F4 downloads, with the user's name and token.
pub proof fn law_found_is_downloaded(
    app: TuiView,
    found: Seq<FileToDownloadView>,
    manifest: ManifestView,
    now: Timestamp,
    extension: Seq<char>,
)
    requires
        found.len() > 0,
        app.token is Some,
        app.input_mode == InputMode::Normal,
    ensures
        key_pressed(
            work_ended(
                app,
                AppEventView::UpdateCheckDone { files: found, manifest },
                now,
                extension,
            ).app,
            Key::F(4),
        ).command == Some(
            TuiCommandView::DownloadAll {
                queue: found,
                username: app.config.username,
                token: app.token->0,
            },
        ),
{
}

/// An update check that failed leaves the manifest as the check left it, says
/// why, and changes nothing else.
pub proof fn law_failed_check(
    app: TuiView,
    manifest: ManifestView,
    error: Seq<char>,
    now: Timestamp,
    extension: Seq<char>,
)
    ensures
        ({
            let r = work_ended(
                app,
                AppEventView::UpdateCheckFailed { manifest, error },
                now,
                extension,
            );
            &&& r.command is None
            &&& r.app.manifest == manifest
            &&& r.app.config == app.config
            &&& r.app.token == app.token
            &&& r.app.download_queue == app.download_queue
            &&& same_input(r.app, app)
            &&& same_places(r.app, app)
            &&& log_gains(app, r.app, LogLevel::Error, "Update check failed: "@ + error)
        }),
{
    let r = work_ended(
        app,
        AppEventView::UpdateCheckFailed { manifest, error },
        now,
        extension,
    );
    assert(r.app.status_log =~= app.status_log + seq![r.app.status_log.last()]);
}

/// A download that arrived is entered in the manifest with its version and its
/// extension, in place of what stood there, and the manifest with it is to be
/// saved; one that failed changes nothing. Both are reported, and the queue stays
/// as it is.
pub proof fn law_download_ended(
    app: TuiView,
    file: FileToDownloadView,
    result: Result<(), Seq<char>>,
    now: Timestamp,
    extension: Seq<char>,
)
    ensures
        ({
            let r = work_ended(app, AppEventView::DownloadDone { file, result }, now, extension);
            &&& r.app.config == app.config
            &&& r.app.token == app.token
            &&& r.app.download_queue == app.download_queue
            &&& same_input(r.app, app)
            &&& same_places(r.app, app)
            &&& match result {
                Ok(_) => {
                    &&& r.app.manifest == app.manifest.insert(
                        file.base_name,
                        LocalVersionInfoView { version: file.new_version, extension },
                    )
                    &&& r.command == Some(TuiCommandView::SaveManifest { manifest: r.app.manifest })
                    &&& log_gains(
                        app,
                        r.app,
                        LogLevel::Success,
                        "Downloaded "@ + file.full_new_name,
                    )
                },
                Err(e) => {
                    &&& r.app.manifest == app.manifest
                    &&& r.command is None
                    &&& log_gains(
                        app,
                        r.app,
                        LogLevel::Error,
                        "Failed to download "@ + file.full_new_name + ": "@ + e,
                    )
                },
            }
        }),
{
    let r = work_ended(app, AppEventView::DownloadDone { file, result }, now, extension);
    assert(r.app.status_log =~= app.status_log + seq![r.app.status_log.last()]);
}

/// A mod that the portal knows is entered in version 0.0.0 as a zip file, and
/// the first mod is selected; one that it does not know changes nothing. Both
/// are reported.
pub proof fn law_validation_ended(
    app: TuiView,
    name: Seq<char>,
    result: Result<(), Seq<char>>,
    now: Timestamp,
    extension: Seq<char>,
)
    ensures
        ({
            let r = work_ended(
                app,
                AppEventView::ModValidated { mod_name: name, result },
                now,
                extension,
            );
            &&& r.command is None
            &&& r.app.config == app.config
            &&& r.app.token == app.token
            &&& r.app.download_queue == app.download_queue
            &&& same_input(r.app, app)
            &&& r.app.active_panel == app.active_panel
            &&& r.app.queue_list == app.queue_list
            &&& r.app.log_list == app.log_list
            &&& r.app.should_quit == app.should_quit
            &&& match result {
                Ok(_) => {
                    &&& r.app.manifest == app.manifest.insert(
                        name,
                        LocalVersionInfoView { version: "0.0.0"@, extension: "zip"@ },
                    )
                    &&& r.app.mod_list.selected == Some(0usize)
                    &&& r.app.mod_list.offset == app.mod_list.offset
                    &&& log_gains(
                        app,
                        r.app,
                        LogLevel::Success,
                        "Mod '"@ + name + "' added to manifest."@,
                    )
                },
                Err(e) => {
                    &&& r.app.manifest == app.manifest
                    &&& r.app.mod_list == app.mod_list
                    &&& log_gains(
                        app,
                        r.app,
                        LogLevel::Error,
                        "Mod '"@ + name + "' is invalid: "@ + e,
                    )
                },
            }
        }),
{
    let r = work_ended(
        app,
        AppEventView::ModValidated { mod_name: name, result },
        now,
        extension,
    );
    assert(r.app.status_log =~= app.status_log + seq![r.app.status_log.last()]);
}

/// A token that was obtained is the one in use from then on and is entered in
/// the configuration with the time, which is to be saved; the password is
/// discarded if it was obtained with it. Without a token nothing changes but the
/// log.
pub proof fn law_login_ended(
    app: TuiView,
    result: Result<(Seq<char>, bool), Seq<char>>,
    now: Timestamp,
    extension: Seq<char>,
)
    ensures
        ({
            let r = work_ended(app, AppEventView::AuthDone { result }, now, extension);
            &&& r.app.manifest == app.manifest
            &&& r.app.download_queue == app.download_queue
            &&& same_input(r.app, app)
            &&& same_places(r.app, app)
            &&& match result {
                Ok((token, internal)) => {
                    &&& r.app.token == Some(token)
                    &&& r.app.config.last_session_token == token
                    &&& r.app.config.last_login == rfc3339_text(now)
                    &&& internal ==> r.app.config.password.len() == 0
                    &&& !internal ==> r.app.config.password == app.config.password
                    &&& r.app.config.username == app.config.username
                    &&& r.app.config.use_tui == app.config.use_tui
                    &&& r.app.config.token_source == app.config.token_source
                    &&& r.command == Some(TuiCommandView::SaveToken { config: r.app.config })
                    &&& r.app.status_log == app.status_log
                },
                Err(e) => {
                    &&& r.app.token == app.token
                    &&& r.app.config == app.config
                    &&& r.command is None
                    &&& log_gains(app, r.app, LogLevel::Error, "Authentication failed: "@ + e)
                },
            }
        }),
{
    let r = work_ended(app, AppEventView::AuthDone { result }, now, extension);
    if result is Err {
        assert(r.app.status_log =~= app.status_log + seq![r.app.status_log.last()]);
    }
}

/// Whether a reaction does nothing but put this line in the log.
pub open spec fn only_says(app: TuiView, r: Reaction, level: LogLevel, text: Seq<char>) -> bool {
    &&& r.command is None
    &&& same_data(r.app, app)
    &&& same_input(r.app, app)
    &&& same_places(r.app, app)
    &&& log_gains(app, r.app, level, text)
}

/// What was saved, or could not be, is reported and changes nothing else; a
/// manifest that was saved is not even reported.
pub proof fn law_saving_ended(
    app: TuiView,
    result: Result<(), Seq<char>>,
    now: Timestamp,
    extension: Seq<char>,
)
    ensures
        ({
            let config = work_ended(app, AppEventView::ConfigSaved { result }, now, extension);
            let token = work_ended(app, AppEventView::TokenSaved { result }, now, extension);
            let manifest = work_ended(app, AppEventView::ManifestSaved { result }, now, extension);
            match result {
                Ok(_) => {
                    &&& only_says(app, config, LogLevel::Success, "Config saved to disk."@)
                    &&& only_says(
                        app,
                        token,
                        LogLevel::Success,
                        "Authentication successful — token saved."@,
                    )
                    &&& manifest == (Reaction { app, command: None })
                },
                Err(e) => {
                    &&& only_says(app, config, LogLevel::Error, "Failed to save config: "@ + e)
                    &&& only_says(
                        app,
                        token,
                        LogLevel::Error,
                        "Failed to save token to config: "@ + e,
                    )
                    &&& only_says(app, manifest, LogLevel::Error, "Failed to save manifest: "@ + e)
                },
            }
        }),
{
    let config = work_ended(app, AppEventView::ConfigSaved { result }, now, extension);
    let token = work_ended(app, AppEventView::TokenSaved { result }, now, extension);
    let manifest = work_ended(app, AppEventView::ManifestSaved { result }, now, extension);
    assert(config.app.status_log =~= app.status_log + seq![config.app.status_log.last()]);
    assert(token.app.status_log =~= app.status_log + seq![token.app.status_log.last()]);
    if result is Err {
        assert(manifest.app.status_log =~= app.status_log + seq![manifest.app.status_log.last()]);
    }
}

/// A manifest that was read again takes the place of the old one, and its first
/// mod is selected, or none where it is empty; one that could not be read changes
/// nothing but the log.
pub proof fn law_manifest_reloaded(
    app: TuiView,
    result: Result<ManifestView, Seq<char>>,
    now: Timestamp,
    extension: Seq<char>,
)
    ensures
        ({
            let r = work_ended(app, AppEventView::ManifestReloaded { result }, now, extension);
            match result {
                Ok(manifest) => {
                    &&& r.command is None
                    &&& r.app.manifest == manifest
                    &&& r.app.config == app.config
                    &&& r.app.token == app.token
                    &&& r.app.download_queue == app.download_queue
                    &&& same_input(r.app, app)
                    &&& r.app.active_panel == app.active_panel
                    &&& r.app.queue_list == app.queue_list
                    &&& r.app.log_list == app.log_list
                    &&& r.app.should_quit == app.should_quit
                    &&& manifest.len() > 0 ==> r.app.mod_list.selected == Some(0usize)
                        && r.app.mod_list.offset == app.mod_list.offset
                    &&& manifest.len() == 0 ==> r.app.mod_list.selected is None
                        && r.app.mod_list.offset == 0
                    &&& log_gains(app, r.app, LogLevel::Success, "Manifest reloaded from disk."@)
                },
                Err(e) => only_says(
                    app,
                    r,
                    LogLevel::Error,
                    "Failed to reload manifest: "@ + e,
                ),
            }
        }),
{
    let r = work_ended(app, AppEventView::ManifestReloaded { result }, now, extension);
    assert(r.app.status_log =~= app.status_log + seq![r.app.status_log.last()]);
}

/// A configuration that was read again takes the place of the old one; one that
/// could not be read changes nothing but the log.
pub proof fn law_config_reloaded(
    app: TuiView,
    result: Result<ConfigView, Seq<char>>,
    now: Timestamp,
    extension: Seq<char>,
)
    ensures
        ({
            let r = work_ended(app, AppEventView::ConfigReloaded { result }, now, extension);
            match result {
                Ok(config) => {
                    &&& r.command is None
                    &&& r.app.config == config
                    &&& r.app.manifest == app.manifest
                    &&& r.app.token == app.token
                    &&& r.app.download_queue == app.download_queue
                    &&& same_input(r.app, app)
                    &&& same_places(r.app, app)
                    &&& log_gains(app, r.app, LogLevel::Success, "Config reloaded from disk."@)
                },
                Err(e) => only_says(app, r, LogLevel::Error, "Failed to reload config: "@ + e),
            }
        }),
{
    let r = work_ended(app, AppEventView::ConfigReloaded { result }, now, extension);
    assert(r.app.status_log =~= app.status_log + seq![r.app.status_log.last()]);
}

/// F1 has the manifest checked, F3 has a token obtained for the configuration,
/// F5 has the manifest read again and `r` the configuration. Nothing else changes
/// but the log.
pub proof fn law_keys_that_ask_for_work(app: TuiView)
    ensures
        ({
            let check = normal_key(app, Key::F(1));
            let login = normal_key(app, Key::F(3));
            &&& check.command == Some(TuiCommandView::CheckUpdates { manifest: app.manifest })
            &&& same_data(check.app, app) && same_input(check.app, app) && same_places(
                check.app,
                app,
            )
            &&& log_gains(app, check.app, LogLevel::Info, "Checking for mod updates…"@)
            &&& login.command == Some(TuiCommandView::Authenticate { config: app.config })
            &&& same_data(login.app, app) && same_input(login.app, app) && same_places(
                login.app,
                app,
            )
            &&& log_gains(app, login.app, LogLevel::Info, "Authenticating with Factorio…"@)
        }),
        normal_key(app, Key::F(5)) == (Reaction {
            app,
            command: Some(TuiCommandView::ReloadManifest),
        }),
        normal_key(app, Key::Char('r')) == (Reaction {
            app,
            command: Some(TuiCommandView::ReloadConfig),
        }),
        normal_key(app, Key::Char('R')) == normal_key(app, Key::Char('r')),
{
    let check = normal_key(app, Key::F(1));
    let login = normal_key(app, Key::F(3));
    assert(check.app.status_log =~= app.status_log + seq![check.app.status_log.last()]);
    assert(login.app.status_log =~= app.status_log + seq![login.app.status_log.last()]);
}

/// F4 hands the whole queue over with the user's name and token and empties it;
/// an empty queue and a missing token are reported instead. Nothing else changes.
pub proof fn law_download_key(app: TuiView)
    ensures
        ({
            let r = normal_key(app, Key::F(4));
            &&& r.app.config == app.config
            &&& r.app.token == app.token
            &&& r.app.manifest == app.manifest
            &&& same_input(r.app, app)
            &&& same_places(r.app, app)
            &&& app.download_queue.len() == 0 ==> only_says(
                app,
                r,
                LogLevel::Info,
                "Download queue is empty — nothing to download."@,
            )
            &&& app.download_queue.len() > 0 && app.token is None ==> only_says(
                app,
                r,
                LogLevel::Error,
                "Not authenticated. Press F3 to log in first."@,
            )
            &&& app.download_queue.len() > 0 && app.token is Some ==> {
                &&& r.app.download_queue.len() == 0
                &&& r.command == Some(
                    TuiCommandView::DownloadAll {
                        queue: app.download_queue,
                        username: app.config.username,
                        token: app.token->0,
                    },
                )
                &&& log_gains(
                    app,
                    r.app,
                    LogLevel::Info,
                    "Starting download of "@ + decimal(app.download_queue.len()) + " file(s)…"@,
                )
            }
        }),
{
    let r = normal_key(app, Key::F(4));
    assert(r.app.status_log =~= app.status_log + seq![r.app.status_log.last()]);
}

/// F2 opens an empty input for a mod's name, and `c` an input that holds the user
/// name and the password of the configuration, with the user name first; `q`
/// quits. Nothing else changes but the log.
pub proof fn law_keys_that_open_and_quit(app: TuiView)
    ensures
        ({
            let add = normal_key(app, Key::F(2));
            let edit = normal_key(app, Key::Char('c'));
            &&& add.command is None
            &&& same_data(add.app, app) && same_places(add.app, app)
            &&& add.app.input_mode == InputMode::AddingMod
            &&& add.app.mod_input_buffer.len() == 0
            &&& add.app.config_edit_username == app.config_edit_username
            &&& add.app.config_edit_password == app.config_edit_password
            &&& add.app.config_edit_focus == app.config_edit_focus
            &&& log_gains(
                app,
                add.app,
                LogLevel::Info,
                "Type the mod name and press Enter to validate. Esc to cancel."@,
            )
            &&& edit.command is None
            &&& same_data(edit.app, app) && same_places(edit.app, app)
            &&& edit.app.input_mode == InputMode::EditingConfig
            &&& edit.app.mod_input_buffer == app.mod_input_buffer
            &&& edit.app.config_edit_username == app.config.username
            &&& edit.app.config_edit_password == app.config.password
            &&& edit.app.config_edit_focus == ConfigField::Username
            &&& log_gains(
                app,
                edit.app,
                LogLevel::Info,
                "Edit config — Tab to switch fields, Enter to save, Esc to cancel."@,
            )
        }),
        normal_key(app, Key::Char('C')) == normal_key(app, Key::Char('c')),
        normal_key(app, Key::Char('q')) == (Reaction {
            app: TuiView { should_quit: true, ..app },
            command: None,
        }),
        normal_key(app, Key::Char('Q')) == normal_key(app, Key::Char('q')),
{
    let add = normal_key(app, Key::F(2));
    let edit = normal_key(app, Key::Char('c'));
    assert(add.app.status_log =~= app.status_log + seq![add.app.status_log.last()]);
    assert(edit.app.status_log =~= app.status_log + seq![edit.app.status_log.last()]);
}

/// Every other key does nothing while nothing is being typed.
pub proof fn law_other_keys(app: TuiView, key: Key)
    requires
        match key {
            Key::Char(c) => c != 'q' && c != 'Q' && c != 'j' && c != 'k' && c != 'c' && c != 'C'
                && c != 'r' && c != 'R',
            Key::F(n) => n == 0 || n > 5,
            Key::Tab | Key::Up | Key::Down => false,
            _ => true,
        },
    ensures
        normal_key(app, key) == (Reaction { app, command: None }),
{
}

/// The place one further up or down, if it is there.
pub open spec fn stepped(before: ListPosition, after: ListPosition, to: Option<int>) -> bool {
    match to {
        Some(i) => after.selected is Some && after.selected->0 == i && after.offset
            == before.offset,
        None => after == before,
    }
}

/// Where the arrow keys lead to from a place: one up, unless it is the first;
/// one down, unless it is the last of so many. Nothing selected counts as the
/// first.
pub open spec fn target(place: ListPosition, len: nat, down: bool) -> Option<int> {
    let at: int = match place.selected {
        Some(i) => i as int,
        None => 0,
    };
    if down {
        if at + 1 < len {
            Some(at + 1)
        } else {
            None
        }
    } else {
        if at > 0 {
            Some(at - 1)
        } else {
            None
        }
    }
}

/// The arrow keys, and `k` and `j`, move the selection of the active panel by one
/// item, and nothing else. Tab goes on to the next panel, and changes nothing
/// else.
pub proof fn law_moves(app: TuiView, down: bool)
    requires
        app.manifest.len() <= usize::MAX,
        app.download_queue.len() <= usize::MAX,
        app.status_log.len() <= usize::MAX,
    ensures
        ({
            let r = normal_key(
                app,
                if down {
                    Key::Down
                } else {
                    Key::Up
                },
            );
            &&& r.command is None
            &&& same_data(r.app, app) && same_input(r.app, app)
            &&& r.app.status_log == app.status_log
            &&& r.app.active_panel == app.active_panel
            &&& r.app.should_quit == app.should_quit
            &&& if app.active_panel == Panel::LocalMods {
                stepped(app.mod_list, r.app.mod_list, target(app.mod_list, app.manifest.len(), down))
            } else {
                r.app.mod_list == app.mod_list
            }
            &&& if app.active_panel == Panel::DownloadQueue {
                stepped(
                    app.queue_list,
                    r.app.queue_list,
                    target(app.queue_list, app.download_queue.len(), down),
                )
            } else {
                r.app.queue_list == app.queue_list
            }
            &&& if app.active_panel == Panel::Log {
                stepped(
                    app.log_list,
                    r.app.log_list,
                    target(app.log_list, app.status_log.len(), down),
                )
            } else {
                r.app.log_list == app.log_list
            }
        }),
        normal_key(app, Key::Char('j')) == normal_key(app, Key::Down),
        normal_key(app, Key::Char('k')) == normal_key(app, Key::Up),
        ({
            let r = normal_key(app, Key::Tab);
            &&& r.command is None
            &&& r.app == (TuiView { active_panel: r.app.active_panel, ..app })
            &&& app.active_panel == Panel::LocalMods ==> r.app.active_panel == Panel::DownloadQueue
            &&& app.active_panel == Panel::DownloadQueue ==> r.app.active_panel == Panel::Log
            &&& app.active_panel == Panel::Log ==> r.app.active_panel == Panel::LocalMods
        }),
{
}

/// While a mod's name is being typed, a character goes behind it, Backspace takes
/// the last one away, Esc leaves and forgets the name, and every other key but
/// Enter does nothing.
pub proof fn law_typing_a_name(app: TuiView, c: char, other: Key)
    requires
        other == Key::Tab || other == Key::Up || other == Key::Down || other == Key::Other
            || other is F,
    ensures
        adding_key(app, Key::Char(c)) == (Reaction {
            app: TuiView { mod_input_buffer: app.mod_input_buffer + seq![c], ..app },
            command: None,
        }),
        app.mod_input_buffer.len() > 0 ==> adding_key(app, Key::Backspace) == (Reaction {
            app: TuiView {
                mod_input_buffer: app.mod_input_buffer.take(app.mod_input_buffer.len() - 1),
                ..app
            },
            command: None,
        }),
        app.mod_input_buffer.len() == 0 ==> adding_key(app, Key::Backspace) == (Reaction {
            app,
            command: None,
        }),
        adding_key(app, other) == (Reaction { app, command: None }),
        ({
            let r = adding_key(app, Key::Esc);
            &&& r.command is None
            &&& same_data(r.app, app) && same_places(r.app, app)
            &&& r.app.input_mode == InputMode::Normal
            &&& r.app.mod_input_buffer.len() == 0
            &&& r.app.config_edit_username == app.config_edit_username
            &&& r.app.config_edit_password == app.config_edit_password
            &&& r.app.config_edit_focus == app.config_edit_focus
            &&& log_gains(app, r.app, LogLevel::Info, "Mod add cancelled."@)
        }),
{
    assert(app.mod_input_buffer.push(c) =~= app.mod_input_buffer + seq![c]);
    if app.mod_input_buffer.len() > 0 {
        assert(app.mod_input_buffer.drop_last() =~= app.mod_input_buffer.take(
            app.mod_input_buffer.len() - 1,
        ));
    }
    let r = adding_key(app, Key::Esc);
    assert(r.app.status_log =~= app.status_log + seq![r.app.status_log.last()]);
}

/// Enter has the portal asked about the name that was typed, without the
/// whitespace around it, at the mod's own address; a blank name is reported, and
/// the input stays open.
pub proof fn law_entering_a_name(
    app: TuiView,
    pre: Seq<char>,
    name: Seq<char>,
    post: Seq<char>,
)
    requires
        all_white(pre),
        all_white(post),
        app.mod_input_buffer == pre + name + post,
        name.len() > 0 ==> !is_white(name[0]) && !is_white(name.last()),
    ensures
        ({
            let r = adding_key(app, Key::Enter);
            &&& same_data(r.app, app) && same_places(r.app, app)
            &&& r.app.mod_input_buffer == app.mod_input_buffer
            &&& r.app.config_edit_username == app.config_edit_username
            &&& r.app.config_edit_password == app.config_edit_password
            &&& r.app.config_edit_focus == app.config_edit_focus
            &&& name.len() > 0 ==> {
                &&& r.command == Some(
                    TuiCommandView::ValidateMod {
                        mod_name: name,
                        url: "https://mods.factorio.com/api/mods"@ + "/"@ + name + "/full"@,
                    },
                )
                &&& r.app.input_mode == InputMode::Normal
                &&& log_gains(app, r.app, LogLevel::Info, "Validating mod '"@ + name + "'…"@)
            }
            &&& name.len() == 0 ==> only_says(
                app,
                r,
                LogLevel::Error,
                "Mod name cannot be empty."@,
            )
        }),
{
    law_trimmed(pre, name, post);
    let r = adding_key(app, Key::Enter);
    assert(r.app.status_log =~= app.status_log + seq![r.app.status_log.last()]);
}

/// Enter puts the user name and the password that were typed in the
/// configuration, each in its own place, and has it saved; Esc leaves without;
/// nothing else changes.
pub proof fn law_leaving_the_editor(app: TuiView, other: Key)
    requires
        other == Key::Up || other == Key::Down || other == Key::Other || other is F,
    ensures
        ({
            let r = editing_key(app, Key::Enter);
            &&& r.app.config.username == app.config_edit_username
            &&& r.app.config.password == app.config_edit_password
            &&& r.app.config.last_login == app.config.last_login
            &&& r.app.config.last_session_token == app.config.last_session_token
            &&& r.app.config.use_tui == app.config.use_tui
            &&& r.app.config.token_source == app.config.token_source
            &&& r.command == Some(TuiCommandView::SaveConfig { config: r.app.config })
            &&& r.app == (TuiView {
                config: r.app.config,
                input_mode: InputMode::Normal,
                ..app
            })
        }),
        ({
            let r = editing_key(app, Key::Esc);
            &&& r.command is None
            &&& same_data(r.app, app) && same_places(r.app, app)
            &&& r.app.input_mode == InputMode::Normal
            &&& r.app.mod_input_buffer == app.mod_input_buffer
            &&& r.app.config_edit_username == app.config_edit_username
            &&& r.app.config_edit_password == app.config_edit_password
            &&& r.app.config_edit_focus == app.config_edit_focus
            &&& log_gains(app, r.app, LogLevel::Info, "Config edit cancelled."@)
        }),
        editing_key(app, other) == (Reaction { app, command: None }),
{
    let r = editing_key(app, Key::Esc);
    assert(r.app.status_log =~= app.status_log + seq![r.app.status_log.last()]);
}

/// While user name and password are being typed, a character goes behind the
/// one that has the focus, Backspace takes its last one away, and Tab goes to the
/// other.
pub proof fn law_typing_in_the_editor(app: TuiView, c: char)
    ensures
        app.config_edit_focus == ConfigField::Username ==> editing_key(app, Key::Char(c)) == (
        Reaction {
            app: TuiView { config_edit_username: app.config_edit_username + seq![c], ..app },
            command: None,
        }),
        app.config_edit_focus == ConfigField::Password ==> editing_key(app, Key::Char(c)) == (
        Reaction {
            app: TuiView { config_edit_password: app.config_edit_password + seq![c], ..app },
            command: None,
        }),
        app.config_edit_focus == ConfigField::Username && app.config_edit_username.len() > 0
            ==> editing_key(app, Key::Backspace) == (Reaction {
            app: TuiView {
                config_edit_username: app.config_edit_username.take(
                    app.config_edit_username.len() - 1,
                ),
                ..app
            },
            command: None,
        }),
        app.config_edit_focus == ConfigField::Password && app.config_edit_password.len() > 0
            ==> editing_key(app, Key::Backspace) == (Reaction {
            app: TuiView {
                config_edit_password: app.config_edit_password.take(
                    app.config_edit_password.len() - 1,
                ),
                ..app
            },
            command: None,
        }),
        editing_key(app, Key::Tab) == (Reaction {
            app: TuiView {
                config_edit_focus: if app.config_edit_focus == ConfigField::Username {
                    ConfigField::Password
                } else {
                    ConfigField::Username
                },
                ..app
            },
            command: None,
        }),
{
    assert(app.config_edit_username.push(c) =~= app.config_edit_username + seq![c]);
    assert(app.config_edit_password.push(c) =~= app.config_edit_password + seq![c]);
    if app.config_edit_username.len() > 0 {
        assert(app.config_edit_username.drop_last() =~= app.config_edit_username.take(
            app.config_edit_username.len() - 1,
        ));
    }
    if app.config_edit_password.len() > 0 {
        assert(app.config_edit_password.drop_last() =~= app.config_edit_password.take(
            app.config_edit_password.len() - 1,
        ));
    }
}

/// Scrolling selects the latest line of the log, if there is one, and changes
/// nothing else.
pub proof fn law_scrolling(app: TuiView)
    requires
        app.status_log.len() <= usize::MAX,
    ensures
        app.status_log.len() == 0 ==> scrolled(app) == app,
        app.status_log.len() > 0 ==> {
            &&& scrolled(app).log_list.selected is Some
            &&& scrolled(app).log_list.selected->0 == app.status_log.len() - 1
            &&& scrolled(app).log_list.offset == app.log_list.offset
            &&& scrolled(app) == (TuiView { log_list: scrolled(app).log_list, ..app })
        },
{
}

/// The program starts with the configuration and the manifest that it is given,
/// without a token and with nothing queued, typed or selected but the first mod;
/// it greets, and hints at a configuration that is missing or still the template.
pub proof fn law_start(config: ConfigView, missing: bool, manifest: ManifestView)
    ensures
        ({
            let app = start_view(config, missing, manifest);
            &&& app.config == config
            &&& app.manifest == manifest
            &&& app.token is None
            &&& app.download_queue.len() == 0
            &&& app.active_panel == Panel::LocalMods
            &&& app.input_mode == InputMode::Normal
            &&& !app.should_quit
            &&& app.mod_input_buffer.len() == 0
            &&& app.config_edit_username.len() == 0
            &&& app.config_edit_password.len() == 0
            &&& app.config_edit_focus == ConfigField::Username
            &&& manifest.len() > 0 ==> app.mod_list.selected == Some(0usize)
            &&& manifest.len() == 0 ==> app.mod_list.selected is None
            &&& app.queue_list.selected is None
            &&& app.log_list.selected is None
            &&& app.mod_list.offset == 0 && app.queue_list.offset == 0 && app.log_list.offset == 0
            &&& app.status_log.len() >= 3
            &&& app.status_log[0] == (StatusView {
                text: "Rusty Gears v3 — Interactive Mode"@,
                level: LogLevel::Info,
            })
            &&& app.status_log[1] == (StatusView {
                text: "F1 Check  |  F2 Add Mod  |  F3 Auth  |  F4 Download All"@,
                level: LogLevel::Info,
            })
            &&& app.status_log[2] == (StatusView {
                text: "c Config  |  r Reload Config  |  Tab Focus  |  q Quit"@,
                level: LogLevel::Info,
            })
            &&& missing ==> app.status_log.len() == 4 && app.status_log[3] == (StatusView {
                text: "config.json not found — a template was created. Press c to configure now."@,
                level: LogLevel::Error,
            })
            &&& !missing && config.username == "your-username-here"@ ==> app.status_log.len() == 4
                && app.status_log[3] == (StatusView {
                text: "Default config detected. Press c to enter your credentials."@,
                level: LogLevel::Info,
            })
            &&& !missing && config.username != "your-username-here"@ ==> app.status_log.len() == 3
        }),
{
}

/// A configuration that was read is used as it is; where there is none, the
/// template is used and written; one that cannot be read is replaced by a blank
/// one, with a warning, and is not written over.
pub proof fn law_start_config(found: FoundConfig)
    ensures
        ({
            let start = config_for(found);
            match found {
                FoundConfig::Loaded(config) => start.config == config@ && !start.missing
                    && !start.write && start.notes.len() == 0,
                FoundConfig::Missing => {
                    &&& start.missing && start.write && start.notes.len() == 0
                    &&& start.config.username == "your-username-here"@
                    &&& start.config.password == "your-password-here"@
                    &&& start.config.last_session_token.len() == 0
                    &&& start.config.last_login.len() == 0
                    &&& start.config.token_source.len() == 0
                    &&& !start.config.use_tui
                },
                FoundConfig::Unreadable { error } => {
                    &&& start.missing && !start.write
                    &&& start.notes == seq![
                        err("Warning: failed to load config.json ("@ + error@ + ")"@),
                    ]
                    &&& start.config.username.len() == 0
                    &&& start.config.password.len() == 0
                    &&& start.config.last_session_token.len() == 0
                    &&& start.config.last_login.len() == 0
                    &&& start.config.token_source.len() == 0
                    &&& !start.config.use_tui
                },
            }
        }),
{
}

/// The portal knows a mod if it answers with a status of the two hundreds; else
/// the reason is the status and the text, or why there was no answer.
pub proof fn law_verdict(reply: PortalReply)
    ensures
        match reply {
            PortalReply::Answered { code, status, body } => {
                &&& code / 100 == 2 ==> verdict(reply) is Ok
                &&& code / 100 != 2 ==> verdict(reply) == Err::<(), Seq<char>>(
                    "API returned "@ + status@ + ": "@ + body@,
                )
            },
            PortalReply::NoReply { error } => verdict(reply) == Err::<(), Seq<char>>(error@),
        },
{
}

/// A series of downloads takes the first file of its queue next, with the name
/// and the token that it was made with, and reports the one before with its own
/// result; a series without files left ends.
pub proof fn law_next_of_a_series(batch: BatchView, result: Option<Result<(), Seq<char>>>)
    ensures
        ({
            let s = batch_step(batch, result);
            let reported = batch.current is Some && result is Some;
            &&& s.batch.username == batch.username
            &&& s.batch.token == batch.token
            &&& reported ==> s.events.len() > 0 && s.events[0] == (AppEventView::DownloadDone {
                file: batch.current->0,
                result: result->0,
            })
            &&& batch.queue.len() > 0 ==> {
                &&& s.action == (BatchActionView::Download {
                    file: batch.queue[0],
                    username: batch.username,
                    token: batch.token,
                })
                &&& s.batch.current == Some(batch.queue[0])
                &&& seq![batch.queue[0]] + s.batch.queue == batch.queue
                &&& s.events.len() == if reported {
                    1int
                } else {
                    0
                }
            }
            &&& batch.queue.len() == 0 ==> {
                &&& s.action is Finished
                &&& s.batch.current is None
                &&& s.batch.queue.len() == 0
                &&& s.events.len() == if reported {
                    2int
                } else {
                    1
                }
                &&& s.events.last() is UpdateCheckDone
                &&& s.events.last()->UpdateCheckDone_files.len() == 0
                &&& s.events.last()->UpdateCheckDone_manifest == Map::<
                    Seq<char>,
                    LocalVersionInfoView,
                >::empty()
            }
        }),
{
    if batch.queue.len() > 0 {
        assert(seq![batch.queue[0]] + batch.queue.skip(1) =~= batch.queue);
    }
}

/// A download that arrived is entered with the extension that its file is named
/// with, or as a zip file where it is named without one.
pub proof fn law_download_extension(
    file: FileToDownloadView,
    found: Seq<char>,
    stem: Seq<char>,
    extension: Seq<char>,
)
    requires
        fits(AppEventView::DownloadDone { file, result: Ok(()) }, found),
        plain_name(file.full_new_name),
        stem.len() > 0,
        !extension.contains('.'),
    ensures
        file.full_new_name == stem + seq!['.'] + extension ==> found == extension,
        !file.full_new_name.contains('.') ==> found == "zip"@,
{
    let other = if file.full_new_name.contains('.') {
        Seq::<char>::empty()
    } else {
        file.full_new_name
    };
    law_extension_of_a_download(stem, extension, other, found);
}

} // verus!

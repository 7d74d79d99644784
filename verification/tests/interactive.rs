use rusty_gears::auth::is_session_fresh;
use rusty_gears::clock::Timestamp;
use rusty_gears::config::{blank_config, template_config};
use rusty_gears::models::{Config, FileToDownload, LocalVersionInfo, VersionManifest};
use rusty_gears::string_map::StringMap;
use rusty_gears::tui::{
    AppEvent, ConfigField, InputMode, Key, LogLevel, Panel, StatusMessage, TuiApp, TuiCommand,
};
use rusty_gears::tui_start::{start_config, FoundConfig};
use rusty_gears::tui_tasks::{
    check_ended, validation_ended, BatchAction, DownloadBatch, PortalReply,
};
use rusty_gears::update::UpdateCheck;

const NOW: Timestamp = Timestamp { secs: 1_700_000_000, nanos: 0 };

fn config() -> Config {
    Config {
        username: "me".to_string(),
        password: "secret".to_string(),
        last_login: String::new(),
        last_session_token: String::new(),
        use_tui: true,
        token_source: String::new(),
    }
}

fn manifest(names: &[&str]) -> VersionManifest {
    let mut m: VersionManifest = StringMap::new();
    for name in names {
        m.insert(
            name.to_string(),
            LocalVersionInfo { version: "1.0.0".to_string(), extension: "zip".to_string() },
        );
    }
    m
}

fn app(names: &[&str]) -> TuiApp {
    TuiApp::start(config(), false, manifest(names))
}

fn file(name: &str) -> FileToDownload {
    FileToDownload {
        base_name: name.to_string(),
        new_version: "2.0.0".to_string(),
        full_new_name: format!("{}_2.0.0.zip", name),
        download_url: format!("https://x/{}", name),
    }
}

fn last(app: &TuiApp) -> (&str, LogLevel) {
    let message = app.status_log.last().unwrap();
    (message.text.as_str(), message.level)
}

fn type_text(app: &mut TuiApp, text: &str) {
    for c in text.chars() {
        assert!(app.handle_key(Key::Char(c)).is_none());
    }
}

#[test]
fn messages_carry_their_level() {
    let m = StatusMessage::info("a".to_string());
    assert_eq!((m.text.as_str(), m.level), ("a", LogLevel::Info));
    let m = StatusMessage::success("b".to_string());
    assert_eq!((m.text.as_str(), m.level), ("b", LogLevel::Success));
    let m = StatusMessage::error("c".to_string());
    assert_eq!((m.text.as_str(), m.level), ("c", LogLevel::Error));
}

#[test]
fn the_start() {
    let a = app(&["m"]);
    let lines: Vec<&str> = a.status_log.iter().map(|m| m.text.as_str()).collect();
    assert_eq!(
        lines,
        vec![
            "Rusty Gears v3 — Interactive Mode",
            "F1 Check  |  F2 Add Mod  |  F3 Auth  |  F4 Download All",
            "c Config  |  r Reload Config  |  Tab Focus  |  q Quit",
        ]
    );
    assert_eq!(a.mod_list.selected, Some(0));
    assert_eq!(app(&[]).mod_list.selected, None);
    assert_eq!(a.active_panel, Panel::LocalMods);
    assert!(a.token.is_none());
    let missing = TuiApp::start(blank_config(), true, manifest(&[]));
    assert_eq!(
        last(&missing),
        (
            "config.json not found — a template was created. Press c to configure now.",
            LogLevel::Error
        )
    );
    let template = TuiApp::start(template_config(), false, manifest(&[]));
    assert_eq!(
        last(&template),
        ("Default config detected. Press c to enter your credentials.", LogLevel::Info)
    );
}

#[test]
fn the_config_to_start_with() {
    let missing = start_config(FoundConfig::Missing);
    assert!(missing.missing && missing.write);
    assert_eq!(missing.config.username, "your-username-here");
    let broken = start_config(FoundConfig::Unreadable { error: "eof".to_string() });
    assert!(broken.missing && !broken.write);
    assert_eq!(broken.config.username, "");
    assert_eq!(broken.notes[0].text, "Warning: failed to load config.json (eof)");
    let loaded = start_config(FoundConfig::Loaded(config()));
    assert!(!loaded.missing && !loaded.write);
    assert_eq!(loaded.config.username, "me");
    assert!(loaded.notes.is_empty());
}

#[test]
fn tab_goes_round_the_panels() {
    let mut a = app(&[]);
    a.handle_key(Key::Tab);
    assert_eq!(a.active_panel, Panel::DownloadQueue);
    a.handle_key(Key::Tab);
    assert_eq!(a.active_panel, Panel::Log);
    a.handle_key(Key::Tab);
    assert_eq!(a.active_panel, Panel::LocalMods);
}

#[test]
fn arrows_move_inside_the_active_list() {
    let mut a = app(&["x", "y", "z"]);
    a.handle_key(Key::Up);
    assert_eq!(a.mod_list.selected, Some(0));
    a.handle_key(Key::Down);
    a.handle_key(Key::Char('j'));
    assert_eq!(a.mod_list.selected, Some(2));
    a.handle_key(Key::Down);
    assert_eq!(a.mod_list.selected, Some(2));
    a.handle_key(Key::Char('k'));
    assert_eq!(a.mod_list.selected, Some(1));
    a.handle_key(Key::Tab);
    a.handle_key(Key::Down);
    assert_eq!(a.queue_list.selected, None);
    a.handle_key(Key::Tab);
    a.handle_key(Key::Down);
    assert_eq!(a.log_list.selected, Some(1));
    a.update_log_scroll();
    assert_eq!(a.log_list.selected, Some(2));
    assert_eq!(a.mod_list.selected, Some(1));
}

#[test]
fn quitting() {
    for key in ['q', 'Q'] {
        let mut a = app(&[]);
        assert!(a.handle_key(Key::Char(key)).is_none());
        assert!(a.should_quit);
    }
    let mut a = app(&[]);
    a.handle_key(Key::F(2));
    a.handle_key(Key::Char('q'));
    assert!(!a.should_quit);
    assert_eq!(a.mod_input_buffer, "q");
    a.events_closed();
    assert!(a.should_quit);
}

#[test]
fn keys_without_a_meaning_do_nothing() {
    let mut a = app(&["x"]);
    let before = a.status_log.len();
    for key in [Key::Char('z'), Key::Other, Key::F(9), Key::Esc, Key::Enter, Key::Backspace] {
        assert!(a.handle_key(key).is_none());
    }
    assert_eq!(a.status_log.len(), before);
    assert!(!a.should_quit);
    assert_eq!(a.input_mode, InputMode::Normal);
}

#[test]
fn asking_for_work() {
    let mut a = app(&["x"]);
    match a.handle_key(Key::F(1)) {
        Some(TuiCommand::CheckUpdates { manifest }) => assert!(manifest.contains_key("x")),
        _ => panic!("a check was due"),
    }
    assert_eq!(last(&a), ("Checking for mod updates…", LogLevel::Info));
    match a.handle_key(Key::F(3)) {
        Some(TuiCommand::Authenticate { config }) => assert_eq!(config.password, "secret"),
        _ => panic!("a login was due"),
    }
    assert_eq!(last(&a), ("Authenticating with Factorio…", LogLevel::Info));
    assert!(matches!(a.handle_key(Key::F(5)), Some(TuiCommand::ReloadManifest)));
    assert!(matches!(a.handle_key(Key::Char('r')), Some(TuiCommand::ReloadConfig)));
    assert!(matches!(a.handle_key(Key::Char('R')), Some(TuiCommand::ReloadConfig)));
}

#[test]
fn adding_a_mod() {
    let mut a = app(&[]);
    assert!(a.handle_key(Key::F(2)).is_none());
    assert_eq!(
        last(&a),
        ("Type the mod name and press Enter to validate. Esc to cancel.", LogLevel::Info)
    );
    type_text(&mut a, " flibx");
    assert!(a.handle_key(Key::Backspace).is_none());
    assert_eq!(a.mod_input_buffer, " flib");
    match a.handle_key(Key::Enter) {
        Some(TuiCommand::ValidateMod { mod_name, url }) => {
            assert_eq!(mod_name, "flib");
            assert_eq!(url, "https://mods.factorio.com/api/mods/flib/full");
        }
        _ => panic!("a question was due"),
    }
    assert_eq!(last(&a), ("Validating mod 'flib'…", LogLevel::Info));
    assert_eq!(a.input_mode, InputMode::Normal);
}

#[test]
fn a_blank_mod_name_is_refused() {
    let mut a = app(&[]);
    a.handle_key(Key::F(2));
    type_text(&mut a, "  ");
    assert!(a.handle_key(Key::Enter).is_none());
    assert_eq!(last(&a), ("Mod name cannot be empty.", LogLevel::Error));
    assert_eq!(a.input_mode, InputMode::AddingMod);
    a.handle_key(Key::Backspace);
    a.handle_key(Key::Backspace);
    a.handle_key(Key::Backspace);
    assert_eq!(a.mod_input_buffer, "");
    a.handle_key(Key::Esc);
    assert_eq!(last(&a), ("Mod add cancelled.", LogLevel::Info));
    assert_eq!(a.input_mode, InputMode::Normal);
}

#[test]
fn editing_the_config() {
    let mut a = app(&[]);
    a.handle_key(Key::Char('c'));
    assert_eq!(a.input_mode, InputMode::EditingConfig);
    assert_eq!(a.config_edit_username, "me");
    assert_eq!(a.config_edit_password, "secret");
    assert_eq!(
        last(&a),
        ("Edit config — Tab to switch fields, Enter to save, Esc to cancel.", LogLevel::Info)
    );
    type_text(&mut a, "2");
    a.handle_key(Key::Tab);
    assert_eq!(a.config_edit_focus, ConfigField::Password);
    a.handle_key(Key::Backspace);
    type_text(&mut a, "q");
    match a.handle_key(Key::Enter) {
        Some(TuiCommand::SaveConfig { config }) => {
            assert_eq!(config.username, "me2");
            assert_eq!(config.password, "secreq");
            assert!(config.use_tui);
        }
        _ => panic!("the config was to be saved"),
    }
    assert_eq!(a.config.username, "me2");
    assert_eq!(a.input_mode, InputMode::Normal);
    a.handle_async_event(AppEvent::ConfigSaved { result: Ok(()) });
    assert_eq!(last(&a), ("Config saved to disk.", LogLevel::Success));
    a.handle_async_event(AppEvent::ConfigSaved { result: Err("full".to_string()) });
    assert_eq!(last(&a), ("Failed to save config: full", LogLevel::Error));
}

#[test]
fn a_cancelled_edit_changes_nothing() {
    let mut a = app(&[]);
    a.handle_key(Key::Char('C'));
    type_text(&mut a, "garbage");
    a.handle_key(Key::Tab);
    type_text(&mut a, "more");
    assert!(a.handle_key(Key::Esc).is_none());
    assert_eq!(last(&a), ("Config edit cancelled.", LogLevel::Info));
    assert_eq!(a.config.username, "me");
    assert_eq!(a.config.password, "secret");
}

#[test]
fn downloads_need_a_queue_and_a_token() {
    let mut a = app(&[]);
    assert!(a.handle_key(Key::F(4)).is_none());
    assert_eq!(last(&a), ("Download queue is empty — nothing to download.", LogLevel::Info));
    a.handle_async_event(AppEvent::UpdateCheckDone {
        files: vec![file("x"), file("y")],
        manifest: manifest(&["x"]),
    });
    assert_eq!(last(&a), ("Update check complete — 2 update(s) queued.", LogLevel::Success));
    assert_eq!(a.queue_list.selected, Some(0));
    assert!(a.handle_key(Key::F(4)).is_none());
    assert_eq!(last(&a), ("Not authenticated. Press F3 to log in first.", LogLevel::Error));
    assert_eq!(a.download_queue.len(), 2);

    let command = a.handle_async_event_at(
        AppEvent::AuthDone { result: Ok(("tok".to_string(), true)) },
        NOW,
    );
    match command {
        Some(TuiCommand::SaveToken { config }) => {
            assert_eq!(config.last_session_token, "tok");
            assert_eq!(config.last_login, "2023-11-14T22:13:20+00:00");
            assert_eq!(config.password, "");
            let mut soon = NOW;
            soon.secs += 36 * 3600 - 1;
            assert!(is_session_fresh(&config, soon));
            soon.secs += 1;
            assert!(!is_session_fresh(&config, soon));
        }
        _ => panic!("the token was to be saved"),
    }
    match a.handle_key(Key::F(4)) {
        Some(TuiCommand::DownloadAll { queue, username, token }) => {
            assert_eq!(queue.len(), 2);
            assert_eq!(queue[0].base_name, "x");
            assert_eq!(username, "me");
            assert_eq!(token, "tok");
        }
        _ => panic!("downloads were due"),
    }
    assert_eq!(last(&a), ("Starting download of 2 file(s)…", LogLevel::Info));
    assert!(a.download_queue.is_empty());
    assert!(a.handle_key(Key::F(4)).is_none());
}

#[test]
fn the_end_of_work_is_reported() {
    let mut a = app(&["x"]);
    a.handle_event(AppEvent::UpdateCheckDone { files: Vec::new(), manifest: manifest(&["y"]) });
    assert_eq!(last(&a), ("All mods are up-to-date.", LogLevel::Success));
    assert!(a.manifest.contains_key("y"));
    a.handle_event(AppEvent::UpdateCheckFailed {
        manifest: manifest(&["z"]),
        error: "boom".to_string(),
    });
    assert_eq!(last(&a), ("Update check failed: boom", LogLevel::Error));
    assert!(a.manifest.contains_key("z"));
    a.handle_event(AppEvent::AuthDone { result: Err("no".to_string()) });
    assert_eq!(last(&a), ("Authentication failed: no", LogLevel::Error));
    a.handle_event(AppEvent::TokenSaved { result: Ok(()) });
    assert_eq!(last(&a), ("Authentication successful — token saved.", LogLevel::Success));
    a.handle_event(AppEvent::TokenSaved { result: Err("ro".to_string()) });
    assert_eq!(last(&a), ("Failed to save token to config: ro", LogLevel::Error));
    let before = a.status_log.len();
    a.handle_event(AppEvent::ManifestSaved { result: Ok(()) });
    assert_eq!(a.status_log.len(), before);
    a.handle_event(AppEvent::ManifestSaved { result: Err("ro".to_string()) });
    assert_eq!(last(&a), ("Failed to save manifest: ro", LogLevel::Error));
    a.handle_event(AppEvent::Key(Key::Char('q')));
    assert!(a.should_quit);
}

#[test]
fn keys_are_not_handled_as_work() {
    let mut a = app(&[]);
    assert!(a.handle_async_event(AppEvent::Key(Key::Char('q'))).is_none());
    assert!(!a.should_quit);
}

#[test]
fn downloads_are_entered_and_saved() {
    let mut a = app(&["x"]);
    let command = a.handle_event(AppEvent::DownloadDone { file: file("x"), result: Ok(()) });
    match command {
        Some(TuiCommand::SaveManifest { manifest }) => {
            assert_eq!(manifest.get("x").unwrap().version, "2.0.0")
        }
        _ => panic!("the manifest was to be saved"),
    }
    assert_eq!(last(&a), ("Downloaded x_2.0.0.zip", LogLevel::Success));
    let command = a.handle_event(AppEvent::DownloadDone {
        file: file("y"),
        result: Err("404".to_string()),
    });
    assert!(command.is_none());
    assert_eq!(last(&a), ("Failed to download y_2.0.0.zip: 404", LogLevel::Error));
    assert!(!a.manifest.contains_key("y"));
}

#[test]
fn validated_mods_are_entered() {
    let mut a = app(&[]);
    a.handle_event(AppEvent::ModValidated { mod_name: "n".to_string(), result: Ok(()) });
    assert_eq!(last(&a), ("Mod 'n' added to manifest.", LogLevel::Success));
    assert_eq!(a.manifest.get("n").unwrap().version, "0.0.0");
    assert_eq!(a.mod_list.selected, Some(0));
    a.handle_event(AppEvent::ModValidated {
        mod_name: "b".to_string(),
        result: Err("nope".to_string()),
    });
    assert_eq!(last(&a), ("Mod 'b' is invalid: nope", LogLevel::Error));
    assert!(!a.manifest.contains_key("b"));
}

#[test]
fn reloading() {
    let mut a = app(&["x"]);
    a.mod_list.offset = 7;
    a.handle_event(AppEvent::ManifestReloaded { result: Ok(manifest(&[])) });
    assert_eq!(last(&a), ("Manifest reloaded from disk.", LogLevel::Success));
    assert_eq!(a.mod_list.selected, None);
    assert_eq!(a.mod_list.offset, 0);
    a.handle_event(AppEvent::ManifestReloaded { result: Ok(manifest(&["y"])) });
    assert_eq!(a.mod_list.selected, Some(0));
    a.handle_event(AppEvent::ManifestReloaded { result: Err("e".to_string()) });
    assert_eq!(last(&a), ("Failed to reload manifest: e", LogLevel::Error));
    assert!(a.manifest.contains_key("y"));
    a.handle_event(AppEvent::ConfigReloaded { result: Ok(template_config()) });
    assert_eq!(last(&a), ("Config reloaded from disk.", LogLevel::Success));
    assert_eq!(a.config.username, "your-username-here");
    a.handle_event(AppEvent::ConfigReloaded { result: Err("e".to_string()) });
    assert_eq!(last(&a), ("Failed to reload config: e", LogLevel::Error));
}

#[test]
fn background_checks_end_with_an_event() {
    let event = check_ended(UpdateCheck::new(manifest(&["x"])), Ok(vec![file("x")]));
    match event {
        AppEvent::UpdateCheckDone { files, manifest } => {
            assert_eq!(files.len(), 1);
            assert!(manifest.contains_key("x"));
        }
        _ => panic!("the check was done"),
    }
    let event = check_ended(UpdateCheck::new(manifest(&["x"])), Err("e".to_string()));
    assert!(matches!(event, AppEvent::UpdateCheckFailed { ref error, .. } if error == "e"));
}

#[test]
fn questions_about_a_mod_end_with_an_event() {
    let reply = |code: u16| PortalReply::Answered {
        code,
        status: "500 Oops".to_string(),
        body: "down".to_string(),
    };
    let event = validation_ended("m".to_string(), reply(200));
    assert!(matches!(event, AppEvent::ModValidated { ref mod_name, result: Ok(()) } if mod_name == "m"));
    match validation_ended("m".to_string(), reply(500)) {
        AppEvent::ModValidated { result: Err(e), .. } => {
            assert_eq!(e, "API returned 500 Oops: down")
        }
        _ => panic!("an error was due"),
    }
    match validation_ended("m".to_string(), PortalReply::NoReply { error: "dns".to_string() }) {
        AppEvent::ModValidated { result: Err(e), .. } => assert_eq!(e, "dns"),
        _ => panic!("an error was due"),
    }
}

#[test]
fn a_series_of_downloads() {
    let mut batch = DownloadBatch::new(
        vec![file("x"), file("y")],
        "me".to_string(),
        "tok".to_string(),
    );
    let step = batch.next(None);
    assert!(step.events.is_empty());
    match step.action {
        BatchAction::Download { file, username, token } => {
            assert_eq!(file.base_name, "x");
            assert_eq!(username, "me");
            assert_eq!(token, "tok");
        }
        BatchAction::Finished => panic!("a download was due"),
    }
    let step = batch.next(Some(Err("e".to_string())));
    assert_eq!(step.events.len(), 1);
    assert!(matches!(
        step.events[0],
        AppEvent::DownloadDone { ref file, result: Err(_) } if file.base_name == "x"
    ));
    assert!(matches!(step.action, BatchAction::Download { ref file, .. } if file.base_name == "y"));
    let step = batch.next(Some(Ok(())));
    assert_eq!(step.events.len(), 2);
    assert!(matches!(
        step.events[0],
        AppEvent::DownloadDone { ref file, result: Ok(()) } if file.base_name == "y"
    ));
    match &step.events[1] {
        AppEvent::UpdateCheckDone { files, manifest } => {
            assert!(files.is_empty());
            assert!(manifest.is_empty());
        }
        _ => panic!("the end was to be reported"),
    }
    assert!(matches!(step.action, BatchAction::Finished));
}

#[test]
fn an_unedited_config_is_saved_as_it_was() {
    let mut a = app(&[]);
    a.handle_key(Key::Char('c'));
    match a.handle_key(Key::Enter) {
        Some(TuiCommand::SaveConfig { config }) => {
            assert_eq!(config.username, "me");
            assert_eq!(config.password, "secret");
        }
        _ => panic!("the config was to be saved"),
    }
}

#[test]
fn what_was_typed_can_be_taken_back() {
    let mut a = app(&[]);
    a.handle_key(Key::Char('c'));
    a.handle_key(Key::Char('é'));
    assert_eq!(a.config_edit_username, "meé");
    a.handle_key(Key::Backspace);
    assert_eq!(a.config_edit_username, "me");
    assert_eq!(a.config_edit_password, "secret");
    a.handle_key(Key::Tab);
    a.handle_key(Key::Tab);
    assert_eq!(a.config_edit_focus, ConfigField::Username);
}

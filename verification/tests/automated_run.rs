use rusty_gears::automated::{
    choose_mode, is_scripted, run_automated, run_automated_at, AutoAction, AutoEvent, AutoRun,
    AutoStep, Mode,
};
use rusty_gears::clock::Timestamp;
use rusty_gears::models::{
    ApiFileResponse, Config, InfoJson, LocalVersionInfo, Release, VersionManifest,
};
use rusty_gears::new_mods::ModReply;
use rusty_gears::notes::Stream;
use rusty_gears::string_map::StringMap;
use rusty_gears::update::CheckEvent;

const NOW: Timestamp = Timestamp { secs: 1_700_000_000, nanos: 0 };

fn config(token: &str) -> Config {
    Config {
        username: "me".to_string(),
        password: "secret".to_string(),
        last_login: "before".to_string(),
        last_session_token: token.to_string(),
        use_tui: false,
        token_source: String::new(),
    }
}

fn manifest(mods: &[(&str, &str)]) -> VersionManifest {
    let mut m: VersionManifest = StringMap::new();
    for (name, version) in mods {
        m.insert(
            name.to_string(),
            LocalVersionInfo { version: version.to_string(), extension: "zip".to_string() },
        );
    }
    m
}

fn answer(name: &str, version: &str) -> AutoEvent {
    AutoEvent::Check(CheckEvent::Answer(ApiFileResponse {
        name: name.to_string(),
        releases: vec![Release {
            version: version.to_string(),
            download_url: format!("/d/{}", name),
            info_json: InfoJson { dependencies: Vec::new() },
        }],
    }))
}

fn lines(step: &AutoStep) -> Vec<String> {
    step.notes.iter().map(|n| n.text.clone()).collect()
}

/// A run that waits for the list of new mods.
fn at_new_mods(m: VersionManifest) -> AutoRun {
    let mut run = AutoRun::new();
    run_automated_at(&mut run, AutoEvent::Begin { config_exists: true }, NOW);
    run_automated_at(&mut run, AutoEvent::ConfigLoaded(config("tok")), NOW);
    let step = run_automated_at(
        &mut run,
        AutoEvent::Token { token: "tok".to_string(), internal: false },
        NOW,
    );
    assert!(matches!(step.action, AutoAction::LoadManifest));
    let step = run_automated_at(&mut run, AutoEvent::ManifestLoaded(m), NOW);
    assert!(matches!(step.action, AutoAction::ReadNewMods));
    run
}

#[test]
fn modes() {
    let plain: Vec<String> = vec!["gears".to_string()];
    let scripted: Vec<String> = vec!["gears".to_string(), "-s".to_string()];
    assert!(!is_scripted(&plain));
    assert!(is_scripted(&scripted));
    let mut c = config("");
    assert_eq!(choose_mode(false, None), Mode::Automated);
    assert_eq!(choose_mode(false, Some(&c)), Mode::Automated);
    c.use_tui = true;
    assert_eq!(choose_mode(false, Some(&c)), Mode::Interactive);
    assert_eq!(choose_mode(true, Some(&c)), Mode::Automated);
}

#[test]
fn a_missing_config_leads_to_the_interactive_program() {
    let mut run = AutoRun::new();
    let step = run_automated(&mut run, AutoEvent::Begin { config_exists: false });
    assert_eq!(
        lines(&step),
        vec!["Configuration file 'config.json' not found. Creating a template..."]
    );
    match step.action {
        AutoAction::CreateTemplate { config } => assert_eq!(config.username, "your-username-here"),
        _ => panic!("a template was due"),
    }
    let step = run_automated(&mut run, AutoEvent::Saved);
    assert_eq!(
        lines(&step),
        vec!["\nA template config has been created. Launching TUI so you can configure it."]
    );
    assert!(matches!(step.action, AutoAction::LaunchTui));
    let step = run_automated(&mut run, AutoEvent::Saved);
    assert!(matches!(step.action, AutoAction::Unexpected));
}

#[test]
fn a_new_token_is_saved() {
    let mut run = AutoRun::new();
    let step = run_automated_at(&mut run, AutoEvent::Begin { config_exists: true }, NOW);
    assert_eq!(lines(&step), vec!["Loading configuration from 'config.json'..."]);
    assert!(matches!(step.action, AutoAction::LoadConfig));
    let step = run_automated_at(&mut run, AutoEvent::ConfigLoaded(config("old")), NOW);
    match step.action {
        AutoAction::GetToken { config } => assert_eq!(config.password, "secret"),
        _ => panic!("a token was due"),
    }
    let step = run_automated_at(
        &mut run,
        AutoEvent::Token { token: "new".to_string(), internal: true },
        NOW,
    );
    match step.action {
        AutoAction::SaveConfig { config } => {
            assert_eq!(config.last_session_token, "new");
            assert_eq!(config.last_login, "2023-11-14T22:13:20+00:00");
            assert_eq!(config.password, "");
            assert_eq!(config.username, "me");
        }
        _ => panic!("the config was to be saved"),
    }
    let step = run_automated_at(&mut run, AutoEvent::Saved, NOW);
    assert!(matches!(step.action, AutoAction::LoadManifest));
}

#[test]
fn nothing_to_update() {
    let mut run = at_new_mods(manifest(&[("a", "1.0.0")]));
    let step = run_automated_at(&mut run, AutoEvent::NewModsFile(None), NOW);
    assert_eq!(
        lines(&step),
        vec![
            "No 'New_mods.json' file found, skipping.",
            "\nChecking for updates and dependencies...",
            "Checking status for 'a'...",
        ]
    );
    assert!(matches!(step.action, AutoAction::Fetch { ref name, .. } if name == "a"));
    let step = run_automated_at(&mut run, answer("a", "1.0.0"), NOW);
    assert_eq!(
        lines(&step),
        vec![
            "\nAll checked local files and their dependencies are up-to-date.",
            "\nUpdate process complete.",
        ]
    );
    match step.action {
        AutoAction::SaveManifest { manifest } => assert_eq!(manifest.len(), 1),
        _ => panic!("the manifest was to be saved"),
    }
    let step = run_automated_at(&mut run, AutoEvent::Saved, NOW);
    assert!(matches!(step.action, AutoAction::Finished));
    assert!(step.notes.is_empty());
}

#[test]
fn new_mods_are_added_checked_and_downloaded() {
    let mut run = at_new_mods(manifest(&[]));
    let step = run_automated_at(
        &mut run,
        AutoEvent::NewModsFile(Some("[\"good\", \"bad\"]".to_string())),
        NOW,
    );
    assert_eq!(
        lines(&step),
        vec!["Found 'New_mods.json', processing new mods...", "Validating new mod: 'good'..."]
    );
    assert!(matches!(step.action, AutoAction::AskMod { ref name, .. } if name == "good"));
    let step = run_automated_at(&mut run, AutoEvent::Reply(ModReply::Known), NOW);
    assert!(matches!(step.action, AutoAction::AskMod { ref name, .. } if name == "bad"));
    let step = run_automated_at(
        &mut run,
        AutoEvent::Reply(ModReply::Unknown { status: "404".to_string(), body: "-".to_string() }),
        NOW,
    );
    assert!(matches!(step.action, AutoAction::Fetch { ref name, .. } if name == "good"));
    let step = run_automated_at(&mut run, answer("good", "1.5.0"), NOW);
    assert_eq!(
        lines(&step),
        vec![
            "Queueing 'good' version 1.5.0 for download.",
            "\nStarting downloads for 1 files...",
        ]
    );
    match step.action {
        AutoAction::Download { file, username, token } => {
            assert_eq!(file.full_new_name, "good_1.5.0.zip");
            assert_eq!(username, "me");
            assert_eq!(token, "tok");
        }
        _ => panic!("a download was due"),
    }
    let step = run_automated_at(&mut run, AutoEvent::Downloaded(Ok(())), NOW);
    assert_eq!(lines(&step), vec!["\nUpdate process complete."]);
    match step.action {
        AutoAction::SaveManifest { manifest } => {
            assert_eq!(manifest.get("good").unwrap().version, "1.5.0");
            assert_eq!(manifest.len(), 1);
        }
        _ => panic!("the manifest was to be saved"),
    }
    let step = run_automated_at(&mut run, AutoEvent::Saved, NOW);
    assert_eq!(
        lines(&step),
        vec!["Updating 'New_mods.json' with any remaining invalid mods..."]
    );
    match step.action {
        AutoAction::WriteNewMods { content } => assert_eq!(content, "[\n  \"bad\"\n]"),
        _ => panic!("the list was to be written"),
    }
    let step = run_automated_at(&mut run, AutoEvent::Saved, NOW);
    assert_eq!(
        lines(&step),
        vec!["'New_mods.json' has been updated. Please correct the invalid entries."]
    );
    assert!(matches!(step.action, AutoAction::Finished));
}

#[test]
fn a_blank_list_is_cleared() {
    let mut run = at_new_mods(manifest(&[]));
    let step = run_automated_at(&mut run, AutoEvent::NewModsFile(Some(" \n".to_string())), NOW);
    assert!(matches!(step.action, AutoAction::SaveManifest { .. }));
    let step = run_automated_at(&mut run, AutoEvent::Saved, NOW);
    match step.action {
        AutoAction::WriteNewMods { content } => assert_eq!(content, "[]"),
        _ => panic!("the list was to be written"),
    }
    let step = run_automated_at(&mut run, AutoEvent::Saved, NOW);
    assert_eq!(
        lines(&step),
        vec!["'New_mods.json' has been cleared as all mods were processed successfully."]
    );
}

#[test]
fn a_bad_list_stops_the_run() {
    let mut run = at_new_mods(manifest(&[]));
    let step = run_automated_at(&mut run, AutoEvent::NewModsFile(Some("[1]".to_string())), NOW);
    match step.action {
        AutoAction::Stopped { error } => assert_eq!(
            error,
            "invalid type: integer `1`, expected a string at line 1 column 2"
        ),
        _ => panic!("the run was to stop"),
    }
}

#[test]
fn a_list_that_cannot_be_read_stops_the_run() {
    let mut run = at_new_mods(manifest(&[]));
    let step = run_automated_at(&mut run, AutoEvent::Failed { error: "locked".to_string() }, NOW);
    assert_eq!(lines(&step), vec!["Found 'New_mods.json', processing new mods..."]);
    assert!(matches!(step.action, AutoAction::Stopped { ref error } if error == "locked"));
}

#[test]
fn failed_downloads_are_reported_and_skipped() {
    let mut run = at_new_mods(manifest(&[("a", "0.1.0"), ("b", "0.1.0")]));
    let mut step = run_automated_at(&mut run, AutoEvent::NewModsFile(None), NOW);
    while let AutoAction::Fetch { name, .. } = &step.action {
        let event = answer(name, "1.0.0");
        step = run_automated_at(&mut run, event, NOW);
    }
    let first = match &step.action {
        AutoAction::Download { file, .. } => file.base_name.clone(),
        _ => panic!("a download was due"),
    };
    step = run_automated_at(&mut run, AutoEvent::Downloaded(Err("broken".to_string())), NOW);
    assert_eq!(step.notes[0].stream, Stream::Error);
    assert_eq!(
        step.notes[0].text,
        format!("ERROR downloading {}_1.0.0.zip: broken", first)
    );
    let second = match &step.action {
        AutoAction::Download { file, .. } => file.base_name.clone(),
        _ => panic!("a download was due"),
    };
    assert_ne!(first, second);
    step = run_automated_at(&mut run, AutoEvent::Downloaded(Ok(())), NOW);
    match step.action {
        AutoAction::SaveManifest { manifest } => {
            assert_eq!(manifest.get(&first).unwrap().version, "0.1.0");
            assert_eq!(manifest.get(&second).unwrap().version, "1.0.0");
        }
        _ => panic!("the manifest was to be saved"),
    }
}

#[test]
fn what_cannot_be_done_stops_the_run() {
    let mut run = AutoRun::new();
    let step = run_automated_at(&mut run, AutoEvent::Failed { error: "x".to_string() }, NOW);
    assert!(matches!(step.action, AutoAction::Unexpected));
    run_automated_at(&mut run, AutoEvent::Begin { config_exists: true }, NOW);
    let step = run_automated_at(&mut run, AutoEvent::Failed { error: "no file".to_string() }, NOW);
    assert!(matches!(step.action, AutoAction::Stopped { ref error } if error == "no file"));
    let step = run_automated_at(&mut run, AutoEvent::ConfigLoaded(config("")), NOW);
    assert!(matches!(step.action, AutoAction::Unexpected));
}

#[test]
fn a_conflict_on_disk_ends_the_run() {
    let mut run = at_new_mods(manifest(&[("a", "1.0.0")]));
    run_automated_at(&mut run, AutoEvent::NewModsFile(None), NOW);
    let step = run_automated_at(
        &mut run,
        AutoEvent::Check(CheckEvent::Answer(ApiFileResponse {
            name: "a".to_string(),
            releases: vec![Release {
                version: "1.0.0".to_string(),
                download_url: String::new(),
                info_json: InfoJson { dependencies: vec!["! a".to_string()] },
            }],
        })),
        NOW,
    );
    assert!(matches!(step.action, AutoAction::LookFor { ref file_name } if file_name == "a_1.0.0.zip"));
    let step = run_automated_at(&mut run, AutoEvent::Check(CheckEvent::FilePresent(true)), NOW);
    assert!(matches!(step.action, AutoAction::Conflict { .. }));
}

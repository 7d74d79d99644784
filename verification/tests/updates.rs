use rusty_gears::models::{
    ApiFileResponse, FileToDownload, InfoJson, LocalVersionInfo, Release, VersionManifest,
};
use rusty_gears::string_map::StringMap;
use rusty_gears::update::{check_for_updates, CheckAction, CheckEvent, UpdateCheck};

fn info(version: &str, extension: &str) -> LocalVersionInfo {
    LocalVersionInfo { version: version.to_string(), extension: extension.to_string() }
}

fn manifest(mods: &[(&str, &str)]) -> VersionManifest {
    let mut m: VersionManifest = StringMap::new();
    for (name, version) in mods {
        m.insert(name.to_string(), info(version, "zip"));
    }
    m
}

fn release(version: &str, dependencies: &[&str]) -> Release {
    Release {
        version: version.to_string(),
        download_url: format!("/download/{}", version),
        info_json: InfoJson {
            dependencies: dependencies.iter().map(|d| d.to_string()).collect(),
        },
    }
}

fn answer(name: &str, releases: Vec<Release>) -> CheckEvent {
    CheckEvent::Answer(ApiFileResponse { name: name.to_string(), releases })
}

struct Outcome {
    files: Vec<FileToDownload>,
    manifest: VersionManifest,
    asked: Vec<String>,
    lines: Vec<String>,
}

fn run(m: VersionManifest, reply: fn(&str) -> CheckEvent, present: fn(&str) -> bool) -> Outcome {
    let mut check = UpdateCheck::new(m);
    let mut asked: Vec<String> = Vec::new();
    let mut lines: Vec<String> = Vec::new();
    let mut event = CheckEvent::Begin;
    loop {
        let step = check_for_updates(&mut check, event);
        for note in step.notes {
            lines.push(note.text);
        }
        match step.action {
            CheckAction::Fetch { name, url } => {
                assert_eq!(url, format!("https://mods.factorio.com/api/mods/{}/full", name));
                event = reply(&name);
                asked.push(name);
            }
            CheckAction::LookFor { file_name } => {
                event = CheckEvent::FilePresent(present(&file_name));
            }
            CheckAction::Finished { files } => {
                return Outcome { files, manifest: check.into_manifest(), asked, lines };
            }
            CheckAction::Conflict { message } => panic!("conflict: {}", message),
            CheckAction::Failed { error } => panic!("failed: {}", error),
            CheckAction::Unexpected => panic!("unexpected"),
        }
    }
}

fn absent(_: &str) -> bool {
    false
}

#[test]
fn an_empty_manifest_is_up_to_date() {
    let out = run(manifest(&[]), |_| CheckEvent::Begin, absent);
    assert!(out.files.is_empty());
    assert!(out.asked.is_empty());
    assert_eq!(out.lines, vec!["\nChecking for updates and dependencies..."]);
}

#[test]
fn an_older_mod_is_downloaded() {
    let out = run(
        manifest(&[("flib", "0.9.0")]),
        |name| answer(name, vec![release("0.10.0", &[]), release("0.2.0", &[])]),
        absent,
    );
    assert_eq!(out.files.len(), 1);
    assert_eq!(out.files[0].base_name, "flib");
    assert_eq!(out.files[0].new_version, "0.10.0");
    assert_eq!(out.files[0].full_new_name, "flib_0.10.0.zip");
    assert_eq!(out.files[0].download_url, "https://mods.factorio.com/download/0.10.0");
    assert_eq!(
        out.lines,
        vec![
            "\nChecking for updates and dependencies...",
            "Checking status for 'flib'...",
            "Queueing 'flib' version 0.10.0 for download.",
        ]
    );
}

#[test]
fn a_current_or_newer_mod_is_not_downloaded() {
    for version in ["1.0.0", "1.0.1", "2.0.0"] {
        let out = run(
            manifest(&[("m", version)]),
            |name| answer(name, vec![release("1.0.0", &[])]),
            absent,
        );
        assert!(out.files.is_empty());
    }
}

#[test]
fn a_pre_release_is_older_than_its_release() {
    let out = run(
        manifest(&[("m", "1.0.0-rc.1")]),
        |name| answer(name, vec![release("1.0.0", &[])]),
        absent,
    );
    assert_eq!(out.files.len(), 1);
}

#[test]
fn the_extension_of_the_local_file_is_kept() {
    let mut m: VersionManifest = StringMap::new();
    m.insert("m".to_string(), info("0.1.0", "tar"));
    let out = run(m, |name| answer(name, vec![release("1.0.0", &[])]), absent);
    assert_eq!(out.files[0].full_new_name, "m_1.0.0.tar");
}

#[test]
fn required_dependencies_are_fetched_too() {
    let out = run(
        manifest(&[("a", "1.0.0")]),
        |name| {
            if name == "a" {
                answer(name, vec![release("1.0.0", &["base", "lib >= 1", "? opt", "~ soft"])])
            } else {
                answer(name, vec![release("3.0.0", &["a", "quality"])])
            }
        },
        absent,
    );
    assert_eq!(out.asked, vec!["a", "soft", "lib"]);
    let mut names: Vec<String> = out.files.iter().map(|f| f.full_new_name.clone()).collect();
    names.sort();
    assert_eq!(names, vec!["lib_3.0.0.zip", "soft_3.0.0.zip"]);
    assert!(out.lines.contains(&"'a' has an optional dependency on 'opt', ignoring.".to_string()));
    assert!(out.lines.contains(&"'a' depends on 'lib', queuing for check...".to_string()));
    assert!(!out.lines.iter().any(|l| l.contains("'base'")));
    assert_eq!(out.manifest.len(), 1);
}

#[test]
fn each_mod_is_asked_about_once() {
    let out = run(
        manifest(&[("a", "1.0.0"), ("b", "1.0.0"), ("c", "1.0.0")]),
        |name| answer(name, vec![release("1.0.0", &["a", "b", "c", "d"])]),
        absent,
    );
    let mut asked = out.asked.clone();
    asked.sort();
    assert_eq!(asked, vec!["a", "b", "c", "d"]);
}

#[test]
fn a_stale_conflict_is_removed() {
    let out = run(
        manifest(&[("bad", "1.0.0"), ("good", "1.0.0")]),
        |name| {
            if name == "good" {
                answer(name, vec![release("1.0.0", &["! bad"])])
            } else {
                answer(name, vec![release("2.0.0", &[])])
            }
        },
        |file| {
            assert_eq!(file, "bad_1.0.0.zip");
            false
        },
    );
    assert!(!out.manifest.contains_key("bad"));
    assert!(out.manifest.contains_key("good"));
    assert!(out
        .lines
        .contains(&"Conflict Detected: Mod 'good' lists 'bad' as an incompatible dependency."
            .to_string()));
    assert!(out.lines.contains(
        &"Warning: Conflicting file 'bad_1.0.0.zip' was not found on disk. The manifest is stale. \
          Removing entry for 'bad' from manifest."
            .to_string()
    ));
}

#[test]
fn a_conflict_also_leaves_the_queue() {
    let mut check = UpdateCheck::new(manifest(&[("bad", "1.0.0"), ("good", "1.0.0")]));
    let mut event = CheckEvent::Begin;
    let mut order: Vec<String> = Vec::new();
    let mut lines: Vec<String> = Vec::new();
    let mut found: Option<usize> = None;
    while found.is_none() {
        let step = check_for_updates(&mut check, event);
        for note in step.notes {
            lines.push(note.text);
        }
        event = match step.action {
            CheckAction::Fetch { name, .. } => {
                order.push(name.clone());
                if name == "good" {
                    answer(&name, vec![release("1.0.0", &["! bad"])])
                } else {
                    answer(&name, vec![release("2.0.0", &[])])
                }
            }
            CheckAction::LookFor { .. } => CheckEvent::FilePresent(false),
            CheckAction::Finished { files } => {
                found = Some(files.len());
                CheckEvent::Begin
            }
            _ => panic!("not expected"),
        };
    }
    // Asked about first, `bad` was in the queue and leaves it again; asked about
    // last, it is no longer in the manifest and is fetched as a new mod.
    if order[0] == "bad" {
        assert_eq!(found, Some(0));
        assert!(lines
            .contains(&"Also removed conflicting mod 'bad' from the download queue.".to_string()));
    } else {
        assert_eq!(found, Some(1));
    }
}

#[test]
fn a_present_conflict_stops_everything() {
    let mut check = UpdateCheck::new(manifest(&[("good", "1.0.0")]));
    check_for_updates(&mut check, CheckEvent::Begin);
    let step = check_for_updates(
        &mut check,
        answer("good", vec![release("1.0.0", &["! good"])]),
    );
    assert!(matches!(step.action, CheckAction::LookFor { ref file_name } if file_name == "good_1.0.0.zip"));
    let step = check_for_updates(&mut check, CheckEvent::FilePresent(true));
    match step.action {
        CheckAction::Conflict { message } => assert_eq!(
            message,
            "FATAL: Mod 'good' is incompatible with the locally present mod 'good'. Please \
             resolve this conflict manually by removing one of them."
        ),
        _ => panic!("a conflict was due"),
    }
    let step = check_for_updates(&mut check, CheckEvent::Begin);
    assert!(matches!(step.action, CheckAction::Unexpected));
}

#[test]
fn a_mod_that_cannot_be_checked_is_skipped() {
    let out = run(
        manifest(&[("a", "1.0.0")]),
        |_| CheckEvent::NoReply { error: "timeout".to_string() },
        absent,
    );
    assert!(out.files.is_empty());
    assert_eq!(out.lines[2], "Warning: Request to check 'a' failed: timeout");
    let out = run(
        manifest(&[("a", "1.0.0")]),
        |_| CheckEvent::Refused { status: "404 Not Found".to_string(), body: "x".to_string() },
        absent,
    );
    assert_eq!(
        out.lines[2],
        "Warning: API check for 'a' failed with status: 404 Not Found. Response: x"
    );
    let out = run(manifest(&[("a", "1.0.0")]), |n| answer(n, vec![release("new", &["b"])]), absent);
    assert!(out.files.is_empty());
    assert_eq!(out.asked, vec!["a"]);
}

#[test]
fn an_unreadable_local_version_is_an_error() {
    let mut check = UpdateCheck::new(manifest(&[("a", "one")]));
    check_for_updates(&mut check, CheckEvent::Begin);
    let step = check_for_updates(&mut check, answer("a", vec![release("1.0.0", &[])]));
    match step.action {
        CheckAction::Failed { error } => {
            assert_eq!(error, "unexpected character 'o' while parsing major version number")
        }
        _ => panic!("an error was due"),
    }
}

#[test]
fn an_event_that_was_not_asked_for_changes_nothing() {
    let mut check = UpdateCheck::new(manifest(&[("a", "1.0.0")]));
    let step = check_for_updates(&mut check, CheckEvent::FilePresent(true));
    assert!(matches!(step.action, CheckAction::Unexpected));
    let step = check_for_updates(&mut check, CheckEvent::Begin);
    assert!(matches!(step.action, CheckAction::Fetch { .. }));
    let step = check_for_updates(&mut check, CheckEvent::Begin);
    assert!(matches!(step.action, CheckAction::Unexpected));
}

#[test]
fn what_was_downloaded_is_current() {
    let out = run(
        manifest(&[("m", "0.0.0")]),
        |n| answer(n, vec![release("1.2.3", &[])]),
        absent,
    );
    let mut m = out.manifest;
    assert_eq!(out.files.len(), 1);
    rusty_gears::manifest::record_download(&mut m, &out.files[0]);
    assert_eq!(m.get("m").unwrap().version, "1.2.3");
    assert_eq!(m.get("m").unwrap().extension, "zip");
    let again = run(m, |n| answer(n, vec![release("1.2.3", &[])]), absent);
    assert!(again.files.is_empty());
}

#[test]
fn a_mod_that_is_only_known_is_fetched() {
    let mut m: VersionManifest = StringMap::new();
    m.insert("m".to_string(), rusty_gears::manifest::placeholder_info());
    let out = run(m, |n| answer(n, vec![release("0.0.1", &[])]), absent);
    assert_eq!(out.files.len(), 1);
    assert_eq!(out.files[0].full_new_name, "m_0.0.1.zip");
    let mut m: VersionManifest = StringMap::new();
    m.insert("m".to_string(), rusty_gears::manifest::placeholder_info());
    let out = run(m, |n| answer(n, vec![release("0.0.0", &[])]), absent);
    assert!(out.files.is_empty());
}

#[test]
fn a_check_finds_what_the_manifest_needs_and_nothing_else() {
    let out = run(
        manifest(&[("a", "1.0.0"), ("b", "1.0.0")]),
        |name| match name {
            "a" => answer(name, vec![release("1.0.0", &["c", "? x"]), release("0.9.0", &["y"])]),
            "b" => CheckEvent::NoReply { error: "no".to_string() },
            "c" => answer(name, vec![release("1.0.0", &["d >= 2", "base"])]),
            "d" => answer(name, vec![release("1.0.0", &["a", "c"])]),
            _ => panic!("{} is not needed", name),
        },
        absent,
    );
    let mut asked = out.asked.clone();
    asked.sort();
    assert_eq!(asked, vec!["a", "b", "c", "d"]);
    let mut found: Vec<String> = out.files.iter().map(|f| f.base_name.clone()).collect();
    found.sort();
    assert_eq!(found, vec!["c", "d"]);
}

use rusty_gears::manifest::{
    file_extension, find_manifest, load_local_manifest, placeholder_info, record_download,
    scan_name, ManifestSource, ScannedFile,
};
use rusty_gears::models::{FileToDownload, LocalVersionInfo, VersionManifest};
use rusty_gears::new_mods::{
    process_new_mods_file, read_new_mods, write_failed_mods, ModReply, NewMods, NewModsAction,
};
use rusty_gears::notes::Stream;
use rusty_gears::string_map::StringMap;

fn file(name: &str, version: &str, full: &str) -> FileToDownload {
    FileToDownload {
        base_name: name.to_string(),
        new_version: version.to_string(),
        full_new_name: full.to_string(),
        download_url: "u".to_string(),
    }
}

#[test]
fn file_names_are_taken_apart() {
    let f = scan_name("flib_0.12.1.zip");
    assert_eq!(f.full_name, "flib_0.12.1.zip");
    assert_eq!(f.stem.as_deref(), Some("flib_0.12.1"));
    assert_eq!(f.extension, "zip");
    let hidden = scan_name(".hidden");
    assert_eq!(hidden.stem.as_deref(), Some(".hidden"));
    assert_eq!(hidden.extension, "");
    let none = scan_name("README");
    assert_eq!(none.stem.as_deref(), Some("README"));
    assert_eq!(none.extension, "");
    let dot = scan_name("a.");
    assert_eq!(dot.stem.as_deref(), Some("a"));
    assert_eq!(dot.extension, "");
}

#[test]
fn paths_name_the_file_behind_the_last_slash() {
    let cases: [(&str, Option<&str>, &str); 12] = [
        ("dir/b_1.0.0.zip", Some("b_1.0.0"), "zip"),
        ("a.b/c", Some("c"), ""),
        ("a/b.zip/", Some("b"), "zip"),
        ("a/b.zip/.", Some("b"), "zip"),
        ("a//b.zip//./", Some("b"), "zip"),
        ("./x.tar", Some("x"), "tar"),
        ("a/.hidden", Some(".hidden"), ""),
        ("a/..", None, ""),
        ("/", None, ""),
        ("", None, ""),
        (".", None, ""),
        ("./", None, ""),
    ];
    for (path, stem, extension) in cases {
        let file = scan_name(path);
        assert_eq!(file.full_name, path);
        assert_eq!(file.stem.as_deref(), stem, "{:?}", path);
        assert_eq!(file.extension, extension, "{:?}", path);
    }
    assert_eq!(file_extension("a.b/c_1.tar"), "tar");
    assert_eq!(file_extension("a.b/c"), "zip");
}

#[test]
fn the_manifest_is_built_from_the_folder() {
    let names = [
        "flib_0.12.1.zip",
        "my_mod_1.0.0.zip",
        "versions.json",
        "config.json",
        "readme.txt",
        "odd_1.0.zip",
        "flib_0.13.0.tar",
    ];
    let list: Vec<ScannedFile> = names.iter().map(|n| scan_name(n)).collect();
    let (m, notes) = load_local_manifest(&list);
    assert_eq!(m.len(), 2);
    assert_eq!(m.get("flib").unwrap().version, "0.13.0");
    assert_eq!(m.get("flib").unwrap().extension, "tar");
    assert_eq!(m.get("my_mod").unwrap().version, "1.0.0");
    let lines: Vec<&str> = notes.iter().map(|n| n.text.as_str()).collect();
    assert_eq!(
        lines,
        vec![
            "Found: 'flib_0.12.1.zip'. Adding to manifest as name: 'flib', version: 0.12.1.",
            "Found: 'my_mod_1.0.0.zip'. Adding to manifest as name: 'my_mod', version: 1.0.0.",
            "Warning: Skipping 'readme.txt' as it does not match NAME_VERSION.ext format.",
            "Warning: Could not parse version '1.0' for 'odd_1.0.zip'. Skipping.",
            "Found: 'flib_0.13.0.tar'. Adding to manifest as name: 'flib', version: 0.13.0.",
        ]
    );
    assert_eq!(notes[0].stream, Stream::Output);
    assert_eq!(notes[2].stream, Stream::Error);
    assert_eq!(notes[3].stream, Stream::Error);
}

#[test]
fn a_file_without_a_readable_name_is_passed_over() {
    let list = vec![ScannedFile {
        full_name: String::new(),
        stem: None,
        extension: String::new(),
    }];
    let (m, notes) = load_local_manifest(&list);
    assert_eq!(m.len(), 0);
    assert!(notes.is_empty());
}

#[test]
fn a_download_is_found_again() {
    let (m, _) = load_local_manifest(&vec![scan_name("space_age_fix_2.0.1.zip")]);
    assert_eq!(m.get("space_age_fix").unwrap().version, "2.0.1");
}

#[test]
fn where_the_manifest_comes_from() {
    let (source, notes) = find_manifest(true);
    assert_eq!(source, ManifestSource::Stored);
    assert_eq!(notes[0].text, "Loading local version manifest from ./versions.json...");
    let (source, notes) = find_manifest(false);
    assert_eq!(source, ManifestSource::Folder);
    assert_eq!(
        notes[0].text,
        "Version manifest not found. Creating from contents of './'..."
    );
}

#[test]
fn downloads_are_recorded_with_their_extension() {
    assert_eq!(file_extension("a_1.0.0.zip"), "zip");
    assert_eq!(file_extension("a_1.0.0.tar"), "tar");
    assert_eq!(file_extension("noext"), "zip");
    let mut m: VersionManifest = StringMap::new();
    m.insert("a".to_string(), placeholder_info());
    m.insert(
        "b".to_string(),
        LocalVersionInfo { version: "9.0.0".to_string(), extension: "zip".to_string() },
    );
    record_download(&mut m, &file("a", "1.0.0", "a_1.0.0.tar"));
    assert_eq!(m.get("a").unwrap().version, "1.0.0");
    assert_eq!(m.get("a").unwrap().extension, "tar");
    assert_eq!(m.get("b").unwrap().version, "9.0.0");
    assert_eq!(m.len(), 2);
}

#[test]
fn lists_of_new_mods_are_read() {
    assert_eq!(read_new_mods(""), Ok(Vec::new()));
    assert_eq!(read_new_mods(" \n\t"), Ok(Vec::new()));
    assert_eq!(
        read_new_mods("[\"a\", \"b\\u00e9\"]"),
        Ok(vec!["a".to_string(), "bé".to_string()])
    );
    assert_eq!(read_new_mods("{}").is_err(), true);
    assert_eq!(
        read_new_mods("[1]"),
        Err("invalid type: integer `1`, expected a string at line 1 column 2".to_string())
    );
}

#[test]
fn lists_of_failed_mods_read_back() {
    let list = vec!["a".to_string(), "q\"uote".to_string()];
    let text = write_failed_mods(&list);
    assert_eq!(text, "[\n  \"a\",\n  \"q\\\"uote\"\n]");
    assert_eq!(read_new_mods(&text), Ok(list));
    let none: Vec<String> = Vec::new();
    assert_eq!(write_failed_mods(&none), "[]");
    assert_eq!(read_new_mods("[]"), Ok(none));
}

#[test]
fn new_mods_are_looked_up_one_by_one() {
    let mut m: VersionManifest = StringMap::new();
    m.insert(
        "old".to_string(),
        LocalVersionInfo { version: "3.0.0".to_string(), extension: "zip".to_string() },
    );
    let names = vec!["old".to_string(), "good".to_string(), "bad".to_string(), "good".to_string()];
    let mut mods = NewMods::new(m, names);

    let step = process_new_mods_file(&mut mods, None);
    let lines: Vec<&str> = step.notes.iter().map(|n| n.text.as_str()).collect();
    assert_eq!(
        lines,
        vec![
            "Mod 'old' already exists in the manifest, skipping.",
            "Validating new mod: 'good'...",
        ]
    );
    match step.action {
        NewModsAction::Ask { name, url } => {
            assert_eq!(name, "good");
            assert_eq!(url, "https://mods.factorio.com/api/mods/good/full");
        }
        NewModsAction::Finished => panic!("a question was due"),
    }

    let step = process_new_mods_file(&mut mods, Some(ModReply::Known));
    assert_eq!(
        step.notes[0].text,
        "'good' is a valid mod. Adding to manifest for update check."
    );
    assert!(matches!(step.action, NewModsAction::Ask { ref name, .. } if name == "bad"));

    let step = process_new_mods_file(
        &mut mods,
        Some(ModReply::Unknown { status: "404 Not Found".to_string(), body: "?".to_string() }),
    );
    assert_eq!(step.notes[0].stream, Stream::Error);
    assert_eq!(
        step.notes[0].text,
        "Error: Could not find mod 'bad' on the portal (Status: 404 Not Found). It will be left \
         in New_mods.json. Response: ?"
    );
    assert_eq!(step.notes[1].text, "Mod 'good' already exists in the manifest, skipping.");
    assert!(matches!(step.action, NewModsAction::Finished));

    let (manifest, failed) = mods.finish();
    assert_eq!(failed, vec!["bad"]);
    assert_eq!(manifest.len(), 2);
    assert_eq!(manifest.get("old").unwrap().version, "3.0.0");
    assert_eq!(manifest.get("good").unwrap().version, "0.0.0");
    assert_eq!(manifest.get("good").unwrap().extension, "zip");
}

#[test]
fn a_question_without_a_reply_is_asked_again() {
    let mut mods = NewMods::new(StringMap::new(), vec!["a".to_string(), "b".to_string()]);
    let step = process_new_mods_file(&mut mods, None);
    assert!(matches!(step.action, NewModsAction::Ask { ref name, .. } if name == "a"));
    let step = process_new_mods_file(&mut mods, None);
    assert!(matches!(step.action, NewModsAction::Ask { ref name, .. } if name == "a"));
    let step = process_new_mods_file(&mut mods, Some(ModReply::Known));
    assert!(matches!(step.action, NewModsAction::Ask { ref name, .. } if name == "b"));
    let step = process_new_mods_file(&mut mods, Some(ModReply::Known));
    assert!(matches!(step.action, NewModsAction::Finished));
    let (manifest, failed) = mods.finish();
    assert!(manifest.contains_key("a") && manifest.contains_key("b"));
    assert!(failed.is_empty());
}

#[test]
fn mods_that_fail_keep_their_order_and_repeats() {
    let mut m: VersionManifest = StringMap::new();
    m.insert("old".to_string(), placeholder_info());
    let names = ["bad", "old", "good", "bad", "worse", "good"];
    let mut mods = NewMods::new(m, names.iter().map(|n| n.to_string()).collect());
    let mut questions: usize = 0;
    let mut step = process_new_mods_file(&mut mods, None);
    while let NewModsAction::Ask { name, .. } = &step.action {
        questions += 1;
        let reply = if name == "good" {
            ModReply::Known
        } else {
            ModReply::Unknown { status: "404".to_string(), body: String::new() }
        };
        step = process_new_mods_file(&mut mods, Some(reply));
    }
    let (manifest, failed) = mods.finish();
    assert_eq!(failed, vec!["bad", "bad", "worse"]);
    assert_eq!(manifest.sorted_keys(), vec!["good", "old"]);
    assert_eq!(questions, 4);
}

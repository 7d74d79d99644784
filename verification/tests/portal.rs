use rusty_gears::api::{
    comes_with_game, dependency_kind, mod_url, parse_dependency_name, DependencyKind,
};
use rusty_gears::download::{download_file, download_refused};
use rusty_gears::models::{FileToDownload, InfoJson, Release};
use rusty_gears::notes::Stream;
use rusty_gears::version::latest_release;

fn release(version: &str) -> Release {
    Release {
        version: version.to_string(),
        download_url: "/d".to_string(),
        info_json: InfoJson { dependencies: Vec::new() },
    }
}

fn newest(versions: &[&str]) -> Option<usize> {
    let list: Vec<Release> = versions.iter().map(|v| release(v)).collect();
    latest_release(&list).map(|found| found.0)
}

#[test]
fn dependency_names() {
    let cases: [(&str, Option<&str>); 9] = [
        ("? base >= 1.1", Some("base")),
        ("! bad-mod", Some("bad-mod")),
        ("~ lib", Some("lib")),
        ("flib >= 0.12", Some("flib")),
        ("  flib", Some("flib")),
        ("(?) hidden", Some("(?)")),
        ("!bad", Some("!bad")),
        ("?", None),
        ("   ", None),
    ];
    for (text, name) in cases {
        assert_eq!(parse_dependency_name(text).as_deref(), name, "{:?}", text);
    }
}

#[test]
fn dependency_kinds() {
    assert_eq!(dependency_kind(" ! x"), DependencyKind::Incompatible);
    assert_eq!(dependency_kind("!x"), DependencyKind::Incompatible);
    assert_eq!(dependency_kind("? x"), DependencyKind::Optional);
    assert_eq!(dependency_kind("(?) x"), DependencyKind::Required);
    assert_eq!(dependency_kind("~ x"), DependencyKind::Required);
    assert_eq!(dependency_kind(""), DependencyKind::Required);
}

#[test]
fn built_in_mods() {
    for name in ["base", "elevated-rails", "quality", "space-age"] {
        assert!(comes_with_game(name));
    }
    assert!(!comes_with_game("Base"));
    assert!(!comes_with_game("flib"));
}

#[test]
fn portal_address() {
    assert_eq!(mod_url("flib"), "https://mods.factorio.com/api/mods/flib/full");
}

#[test]
fn the_newest_release_wins() {
    assert_eq!(newest(&[]), None);
    assert_eq!(newest(&["x", "1.0"]), None);
    assert_eq!(newest(&["1.0.0_1", "1.0.0-a_b", "1.0.0+a_b"]), None);
    assert_eq!(newest(&["0.9.0", "0.10.0", "0.2.7"]), Some(1));
    assert_eq!(newest(&["bad", "1.0.0", "01.0.0"]), Some(1));
    assert_eq!(newest(&["1.0.0", "1.0.0"]), Some(0));
    assert_eq!(newest(&["1.0.0-rc.1", "1.0.0", "1.0.0-rc.2"]), Some(1));
    assert_eq!(newest(&["1.0.0-rc.9", "1.0.0-rc.10"]), Some(1));
    assert_eq!(newest(&["2.0.0", "1.99.99"]), Some(0));
    assert_eq!(newest(&["1.0.0+a", "1.0.0+b"]), Some(1));
}

#[test]
fn the_version_found_is_taken_apart() {
    let list = vec![release("1.2.3-rc.1+build.5")];
    let (at, version) = latest_release(&list).unwrap();
    assert_eq!(at, 0);
    assert_eq!((version.major, version.minor, version.patch), (1, 2, 3));
    assert_eq!(version.pre, "rc.1");
    assert_eq!(version.build, "build.5");
}

#[test]
fn downloads_are_signed() {
    let file = FileToDownload {
        base_name: "flib".to_string(),
        new_version: "1.0.0".to_string(),
        full_new_name: "flib_1.0.0.zip".to_string(),
        download_url: "https://mods.factorio.com/download/flib/1".to_string(),
    };
    let request = download_file(&file, "me", "t0k");
    assert_eq!(
        request.url,
        "https://mods.factorio.com/download/flib/1?username=me&token=t0k"
    );
    assert_eq!(request.notes.len(), 1);
    assert_eq!(request.notes[0].stream, Stream::Output);
    assert_eq!(
        request.notes[0].text,
        "Downloading from https://mods.factorio.com/download/flib/1?username=me&token=t0k..."
    );
    assert_eq!(
        download_refused(&file, "403 Forbidden", "no"),
        "Failed to download flib_1.0.0.zip: Status 403 Forbidden\nResponse: no"
    );
}

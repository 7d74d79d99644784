use rusty_gears::string_map::StringMap;
use rusty_gears::models::LocalVersionInfo;
use rusty_gears::text::{
    comes_before, contains_text, decimal_text, is_whitespace, owned, repeat, rsplit_once, same,
    slice, split_lines, split_words, to_chars, trim,
};

fn info(version: &str) -> LocalVersionInfo {
    LocalVersionInfo { version: version.to_string(), extension: "zip".to_string() }
}

#[test]
fn whitespace_agrees_with_std_on_every_char() {
    let mut code: u32 = 0;
    while code <= 0x10ffff {
        if let Some(c) = char::from_u32(code) {
            assert_eq!(is_whitespace(c), c.is_whitespace(), "code point {:x}", code);
        }
        code += 1;
    }
}

#[test]
fn trim_agrees_with_std() {
    for s in ["", " ", "  a b \t", "\u{3000}x\u{a0}", "abc", "\n", "a ", " a"] {
        assert_eq!(trim(s), s.trim());
    }
}

#[test]
fn words_agree_with_std() {
    for s in ["", "  ", "? base >= 1.1", " a  b\tc\n", "one", "é \u{2003}ü"] {
        let expected: Vec<&str> = s.split_whitespace().collect();
        assert_eq!(split_words(s), expected);
    }
}

#[test]
fn lines_agree_with_std() {
    for s in ["", "\n", "a", "a\n", "a\nb", "a\r\nb\r\n", "\r\n", "a\r", "\n\nü", "a\r\r\nb"] {
        let expected: Vec<&str> = s.lines().collect();
        assert_eq!(split_lines(s), expected, "{:?}", s);
    }
}

#[test]
fn rsplit_once_agrees_with_std() {
    for s in ["", "_", "a_b", "a_b_1.0.0", "none", "_x", "x_", "ü_é"] {
        let expected = s.rsplit_once('_').map(|(a, b)| (a.to_string(), b.to_string()));
        assert_eq!(rsplit_once(s, '_'), expected);
    }
}

#[test]
fn decimal_agrees_with_std() {
    for n in [0usize, 1, 9, 10, 11, 99, 100, 12345, usize::MAX] {
        assert_eq!(decimal_text(n), n.to_string());
    }
}

#[test]
fn dictionary_order_agrees_with_std() {
    let words = ["", "a", "A", "aa", "ab", "b", "Z", "ä", "z", "zz", "\u{ffff}", "\u{10000}"];
    for a in words {
        for b in words {
            assert_eq!(comes_before(a, b), a < b, "{:?} {:?}", a, b);
        }
    }
}

#[test]
fn small_text_helpers() {
    assert_eq!(owned("x y"), "x y");
    assert!(same("abc", "abc"));
    assert!(!same("abc", "abd"));
    assert_eq!(to_chars("aß"), vec!['a', 'ß']);
    assert_eq!(slice("hello", 1, 3), "el");
    assert_eq!(repeat('*', 4), "****");
    assert_eq!(repeat('*', 0), "");
    let list = vec!["a".to_string(), "b".to_string()];
    assert!(contains_text(&list, "b"));
    assert!(!contains_text(&list, "c"));
}

#[test]
fn string_map_keeps_one_value_for_each_key() {
    let mut map: StringMap<LocalVersionInfo> = StringMap::new();
    assert!(map.is_empty());
    map.insert("b".to_string(), info("1"));
    map.insert("a".to_string(), info("2"));
    map.insert("c".to_string(), info("3"));
    map.insert("b".to_string(), info("4"));
    assert_eq!(map.len(), 3);
    assert_eq!(map.get("b").unwrap().version, "4");
    assert!(map.get("d").is_none());
    assert!(map.contains_key("a"));
    assert_eq!(map.sorted_keys(), vec!["a", "b", "c"]);
    let mut keys = map.keys();
    keys.sort();
    assert_eq!(keys, vec!["a", "b", "c"]);
    let mut versions: Vec<String> = map.values().iter().map(|v| v.version.clone()).collect();
    versions.sort();
    assert_eq!(versions, vec!["2", "3", "4"]);
    let copy = map.copy();
    assert!(map.remove("a"));
    assert!(!map.remove("a"));
    assert_eq!(map.len(), 2);
    assert_eq!(copy.len(), 3);
    assert_eq!(copy.get("a").unwrap().version, "2");
}

#[test]
fn sorted_keys_agree_with_std_sort() {
    let names = ["space-exploration", "aai", "Krastorio2", "bobs", "Bobs", "a", "ä", "zz", "z"];
    let mut map: StringMap<LocalVersionInfo> = StringMap::new();
    for n in names {
        map.insert(n.to_string(), info("0"));
    }
    let mut expected: Vec<String> = names.iter().map(|n| n.to_string()).collect();
    expected.sort();
    assert_eq!(map.sorted_keys(), expected);
}

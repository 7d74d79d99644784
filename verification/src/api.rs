//! The mod portal: its addresses, and the dependencies that a release names.

use vstd::prelude::*;
use vstd::string::StringExecFns;
use crate::text::{
    is_white, lemma_words_are_words, owned, same, split_words, texts, to_chars, trim, trimmed, words,
};

verus! {

/// Where the portal answers questions about mods.
pub const FILES_URL: &'static str = "https://mods.factorio.com/api/mods";

/// What download links start with.
pub const BASE_API_URL: &'static str = "https://mods.factorio.com";

/// The file that lists mods to be added.
pub const NEW_MODS_FILE: &'static str = "New_mods.json";

/// The address at which the portal describes a mod in full.
pub open spec fn mod_address(name: Seq<char>) -> Seq<char> {
    FILES_URL@ + "/"@ + name + "/full"@
}

/// Writes the address at which the portal describes a mod in full.
pub fn mod_url(name: &str) -> (url: String)
    ensures
        url@ == mod_address(name@),
{
    owned(FILES_URL).concat("/").concat(name).concat("/full")
}

/// Whether a word marks a dependency rather than naming one.
pub open spec fn is_marker(word: Seq<char>) -> bool {
    word == "?"@ || word == "!"@ || word == "~"@
}

/// The mod that a dependency names: its first word, or the second where the
/// first is a marker.
pub open spec fn dependency_name(dependency: Seq<char>) -> Option<Seq<char>> {
    let w = words(dependency);
    if w.len() == 0 {
        None
    } else if !is_marker(w[0]) {
        Some(w[0])
    } else if w.len() == 1 {
        None
    } else {
        Some(w[1])
    }
}

/// Reads the name of the mod from a dependency such as `? base >= 1.1`.
pub fn parse_dependency_name(dependency: &str) -> (name: Option<String>)
    ensures
        name is Some <==> dependency_name(dependency@) is Some,
        name matches Some(n) ==> dependency_name(dependency@) == Some(n@),
{
    let parts: Vec<String> = split_words(dependency);
    assert(texts(parts@).len() == parts@.len());
    if parts.len() == 0 {
        return None;
    }
    assert(texts(parts@)[0] == parts@[0]@);
    let first: &str = parts[0].as_str();
    if same(first, "?") || same(first, "!") || same(first, "~") {
        if parts.len() == 1 {
            None
        } else {
            assert(texts(parts@)[1] == parts@[1]@);
            Some(parts[1].clone())
        }
    } else {
        Some(parts[0].clone())
    }
}

/// The name of a dependency is never empty and holds no whitespace.
pub proof fn law_dependency_name(dependency: Seq<char>)
    ensures
        dependency_name(dependency) matches Some(name) ==> name.len() > 0 && forall|i: int|
            0 <= i < name.len() ==> !is_white(#[trigger] name[i]),
{
    lemma_words_are_words(dependency);
}

/// How a release depends on another mod.
#[derive(Clone, Copy, Debug, PartialEq, Eq, Structural)]
pub enum DependencyKind {
    /// It cannot be used together with it (`!`).
    Incompatible,
    /// It can use it (`?`).
    Optional,
    /// It needs it.
    Required,
}

/// Whether `c` is the first character behind leading whitespace.
pub open spec fn leads_with(s: Seq<char>, c: char) -> bool {
    trimmed(s).len() > 0 && trimmed(s)[0] == c
}

/// How a dependency is meant.
pub open spec fn kind_of(dependency: Seq<char>) -> DependencyKind {
    if leads_with(dependency, '!') {
        DependencyKind::Incompatible
    } else if leads_with(dependency, '?') {
        DependencyKind::Optional
    } else {
        DependencyKind::Required
    }
}

/// Tells how a dependency is meant.
pub fn dependency_kind(dependency: &str) -> (kind: DependencyKind)
    ensures
        kind == kind_of(dependency@),
{
    let chars: Vec<char> = to_chars(trim(dependency).as_str());
    if chars.len() > 0 && chars[0] == '!' {
        DependencyKind::Incompatible
    } else if chars.len() > 0 && chars[0] == '?' {
        DependencyKind::Optional
    } else {
        DependencyKind::Required
    }
}

/// The dependencies that come with the game.
pub open spec fn is_builtin(name: Seq<char>) -> bool {
    name == "base"@ || name == "elevated-rails"@ || name == "quality"@ || name == "space-age"@
}

/// Whether a mod comes with the game, so that it is never fetched.
pub fn comes_with_game(name: &str) -> (r: bool)
    ensures
        r == is_builtin(name@),
{
    same(name, "base") || same(name, "elevated-rails") || same(name, "quality") || same(
        name,
        "space-age",
    )
}

} // verus!

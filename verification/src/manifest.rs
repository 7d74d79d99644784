//! The version manifest: how it is rebuilt from the files of the download
//! folder, and how downloads and new mods are entered.

use vstd::prelude::*;
use vstd::string::StringExecFns;
use crate::config::CONFIG_FILE;
use crate::models::{
    FileToDownload, FileToDownloadView, LocalVersionInfo, LocalVersionInfoView, ManifestView,
    VersionManifest,
};
use crate::notes::{err, lines, no_notes, out, say, warn, Note, NoteView};
use crate::string_map::StringMap;
use crate::text::{last_at, owned, rsplit_once, same, split_last};
use crate::update::{mod_file_name, well_named};
use crate::version::{parse_version, semver_parse};

verus! {

/// Where mods are downloaded to.
pub const DOWNLOAD_DIRECTORY: &'static str = "./";

/// The file that keeps the manifest.
pub const VERSION_MANIFEST_FILE: &'static str = "versions.json";

/// The contents of an optional string.
pub open spec fn text_of(s: Option<String>) -> Option<Seq<char>> {
    match s {
        Some(t) => Some(t@),
        None => None,
    }
}

/// A file name without directories: not empty, neither `.` nor `..`, and
/// without the characters that separate directories or drives anywhere.
pub open spec fn plain_name(s: Seq<char>) -> bool {
    &&& s.len() > 0
    &&& s != "."@
    &&& s != ".."@
    &&& !s.contains('/')
    &&& !s.contains('\\')
    &&& !s.contains(':')
}

/// What follows the last dot of a file name, unless that dot comes first.
pub open spec fn extension_of(s: Seq<char>) -> Option<Seq<char>> {
    if last_at(s, '.') <= 0 {
        None
    } else {
        Some(s.skip(last_at(s, '.') + 1))
    }
}

/// A file name without its extension.
pub open spec fn stem_of(s: Seq<char>) -> Seq<char> {
    if last_at(s, '.') <= 0 {
        s
    } else {
        s.take(last_at(s, '.'))
    }
}

/// A path that every system reads alike: `/` separates its parts, and neither
/// `\` nor `:` nor a leading `//`, which mean something on some systems only,
/// occurs.
pub open spec fn portable_path(s: Seq<char>) -> bool {
    &&& !s.contains('\\')
    &&& !s.contains(':')
    &&& !(s.len() >= 2 && s[0] == '/' && s[1] == '/')
}

/// The file that a path names: what follows the last `/`, where a part that is
/// empty or `.` at the end does not count; none where the path has no other part
/// or ends in `..`.
pub open spec fn file_part(s: Seq<char>) -> Option<Seq<char>>
    decreases s.len(),
{
    let at = last_at(s, '/');
    let tail = s.skip(at + 1);
    if tail.len() == 0 || tail == "."@ {
        if 0 <= at < s.len() {
            file_part(s.take(at))
        } else {
            None
        }
    } else if tail == ".."@ {
        None
    } else {
        Some(tail)
    }
}

/// The extension of the file that a path names.
pub open spec fn path_extension_of(s: Seq<char>) -> Option<Seq<char>> {
    match file_part(s) {
        Some(file) => extension_of(file),
        None => None,
    }
}

/// The file that a path names, without its extension.
pub open spec fn path_stem_of(s: Seq<char>) -> Option<Seq<char>> {
    match file_part(s) {
        Some(file) => Some(stem_of(file)),
        None => None,
    }
}

/// Calls `std::path::Path::extension`: what follows the last dot of the file
/// that the path names. What a path with `\`, `:` or a leading `//` gives
/// depends on the system, and is left open.
#[verifier::external_body]
pub(crate) fn path_extension(name: &str) -> (r: Option<String>)
    ensures
        portable_path(name@) ==> text_of(r) == path_extension_of(name@),
{
    std::path::Path::new(name).extension().and_then(|s| s.to_str()).map(|s| s.to_string())
}

/// Calls `std::path::Path::file_stem`: what stands before the last dot of the
/// file that the path names. What a path with `\`, `:` or a leading `//` gives
/// depends on the system, and is left open.
#[verifier::external_body]
pub(crate) fn path_stem(name: &str) -> (r: Option<String>)
    ensures
        portable_path(name@) ==> text_of(r) == path_stem_of(name@),
{
    std::path::Path::new(name).file_stem().and_then(|s| s.to_str()).map(|s| s.to_string())
}

/// A file of the download folder: its name, its name without extension, and its
/// extension, as far as they are valid text.
#[derive(Debug)]
pub struct ScannedFile {
    pub full_name: String,
    pub stem: Option<String>,
    pub extension: String,
}

#[verifier::ext_equal]
pub struct ScannedFileView {
    pub full_name: Seq<char>,
    pub stem: Option<Seq<char>>,
    pub extension: Seq<char>,
}

impl View for ScannedFile {
    type V = ScannedFileView;

    open spec fn view(&self) -> ScannedFileView {
        ScannedFileView {
            full_name: self.full_name@,
            stem: text_of(self.stem),
            extension: self.extension@,
        }
    }
}

/// The files in a list.
pub open spec fn scans(list: Seq<ScannedFile>) -> Seq<ScannedFileView> {
    list.map_values(|f: ScannedFile| f@)
}

/// A plain file name taken apart.
pub open spec fn scan_of(name: Seq<char>) -> ScannedFileView {
    ScannedFileView {
        full_name: name,
        stem: Some(stem_of(name)),
        extension: match extension_of(name) {
            Some(e) => e,
            None => Seq::empty(),
        },
    }
}

/// A plain file name is a path that names this file.
pub(crate) proof fn lemma_plain_name(s: Seq<char>)
    requires
        plain_name(s),
    ensures
        portable_path(s),
        file_part(s) == Some(s),
{
    lemma_last_at_absent(s, '/');
    assert(s.skip(0) =~= s);
    if s.len() >= 2 && s[0] == '/' {
        assert(s.contains('/'));
    }
}

proof fn lemma_last_at_absent(s: Seq<char>, c: char)
    requires
        !s.contains(c),
    ensures
        last_at(s, c) == -1,
    decreases s.len(),
{
    if s.len() > 0 {
        assert(s[s.len() - 1] != c);
        assert forall|i: int| 0 <= i < s.drop_last().len() implies s.drop_last()[i] != c by {
            assert(s[i] != c);
        }
        lemma_last_at_absent(s.drop_last(), c);
    }
}

/// Takes a file name apart.
pub fn scan_name(name: &str) -> (file: ScannedFile)
    ensures
        file@.full_name == name@,
        portable_path(name@) ==> file@.stem == path_stem_of(name@) && file@.extension
            == match path_extension_of(name@) {
            Some(e) => e,
            None => Seq::empty(),
        },
        plain_name(name@) ==> file@ == scan_of(name@),
{
    proof {
        if plain_name(name@) {
            lemma_plain_name(name@);
        }
    }
    ScannedFile {
        full_name: owned(name),
        stem: path_stem(name),
        extension: match path_extension(name) {
            Some(e) => e,
            None => String::new(),
        },
    }
}

/// The mod and the version that a file name gives, if it has the form
/// `NAME_VERSION.ext` and is not one of the program's own files.
pub open spec fn found_in(file: ScannedFileView) -> Option<(Seq<char>, Seq<char>)> {
    if file.full_name == VERSION_MANIFEST_FILE@ || file.full_name == CONFIG_FILE@ {
        None
    } else {
        match file.stem {
            Some(stem) => match split_last(stem, '_') {
                Some(parts) => if semver_parse(parts.1) is Ok {
                    Some(parts)
                } else {
                    None
                },
                None => None,
            },
            None => None,
        }
    }
}

/// The manifest with the mod that a file holds.
pub open spec fn with_file(manifest: ManifestView, file: ScannedFileView) -> ManifestView {
    match found_in(file) {
        Some(parts) => manifest.insert(
            parts.0,
            LocalVersionInfoView { version: parts.1, extension: file.extension },
        ),
        None => manifest,
    }
}

/// The line about a file.
pub open spec fn file_lines(file: ScannedFileView) -> Seq<NoteView> {
    if file.full_name == VERSION_MANIFEST_FILE@ || file.full_name == CONFIG_FILE@ {
        Seq::empty()
    } else {
        match file.stem {
            Some(stem) => match split_last(stem, '_') {
                Some(parts) => if semver_parse(parts.1) is Ok {
                    seq![
                        out(
                            "Found: '"@ + file.full_name + "'. Adding to manifest as name: '"@
                                + parts.0 + "', version: "@ + parts.1 + "."@,
                        ),
                    ]
                } else {
                    seq![
                        err(
                            "Warning: Could not parse version '"@ + parts.1 + "' for '"@
                                + file.full_name + "'. Skipping."@,
                        ),
                    ]
                },
                None => seq![
                    err(
                        "Warning: Skipping '"@ + file.full_name
                            + "' as it does not match NAME_VERSION.ext format."@,
                    ),
                ],
            },
            None => Seq::empty(),
        }
    }
}

/// The manifest of a folder with these files.
pub open spec fn manifest_of(list: Seq<ScannedFileView>) -> ManifestView
    decreases list.len(),
{
    if list.len() == 0 {
        Map::empty()
    } else {
        with_file(manifest_of(list.drop_last()), list.last())
    }
}

/// The lines about these files.
pub open spec fn scan_lines(list: Seq<ScannedFileView>) -> Seq<NoteView>
    decreases list.len(),
{
    if list.len() == 0 {
        Seq::empty()
    } else {
        scan_lines(list.drop_last()) + file_lines(list.last())
    }
}

/// Enters the mod that a file holds.
fn scan_file(manifest: &mut VersionManifest, file: &ScannedFile, notes: &mut Vec<Note>)
    ensures
        final(manifest)@ == with_file(old(manifest)@, file@),
        lines(final(notes)@) == lines(old(notes)@) + file_lines(file@),
{
    let ghost before = lines(notes@);
    if !same(file.full_name.as_str(), VERSION_MANIFEST_FILE) && !same(
        file.full_name.as_str(),
        CONFIG_FILE,
    ) {
        match &file.stem {
            Some(stem) => match rsplit_once(stem.as_str(), '_') {
                Some((name, version)) => match parse_version(version.as_str()) {
                    Ok(_) => {
                        say(
                            notes,
                            owned("Found: '").concat(file.full_name.as_str()).concat(
                                "'. Adding to manifest as name: '",
                            ).concat(name.as_str()).concat("', version: ").concat(
                                version.as_str(),
                            ).concat("."),
                        );
                        let info: LocalVersionInfo = LocalVersionInfo {
                            version,
                            extension: file.extension.clone(),
                        };
                        manifest.insert(name, info);
                    },
                    Err(_) => {
                        warn(
                            notes,
                            owned("Warning: Could not parse version '").concat(
                                version.as_str(),
                            ).concat("' for '").concat(file.full_name.as_str()).concat(
                                "'. Skipping.",
                            ),
                        );
                    },
                },
                None => {
                    warn(
                        notes,
                        owned("Warning: Skipping '").concat(file.full_name.as_str()).concat(
                            "' as it does not match NAME_VERSION.ext format.",
                        ),
                    );
                },
            },
            None => {},
        }
    }
    assert(lines(notes@) =~= before + file_lines(file@));
}

/// Builds the manifest of a folder from its files.
pub fn load_local_manifest(list: &Vec<ScannedFile>) -> (r: (VersionManifest, Vec<Note>))
    ensures
        r.0@ == manifest_of(scans(list@)),
        lines(r.1@) == scan_lines(scans(list@)),
{
    let mut manifest: VersionManifest = StringMap::new();
    let mut notes: Vec<Note> = no_notes();
    let ghost all = scans(list@);
    for i in 0..list.len()
        invariant
            all == scans(list@),
            manifest@ == manifest_of(all.take(i as int)),
            lines(notes@) == scan_lines(all.take(i as int)),
    {
        assert(all.take(i + 1).drop_last() =~= all.take(i as int));
        assert(all[i as int] == list@[i as int]@);
        scan_file(&mut manifest, &list[i], &mut notes);
    }
    assert(all.take(all.len() as int) =~= all);
    (manifest, notes)
}

/// Where the manifest comes from.
#[derive(Clone, Copy, Debug, PartialEq, Eq, Structural)]
pub enum ManifestSource {
    /// The file that keeps it.
    Stored,
    /// The files of the download folder; it is to be saved then.
    Folder,
}

/// The line before the manifest is read or built.
pub open spec fn source_line(stored: bool) -> NoteView {
    if stored {
        out(
            "Loading local version manifest from "@ + DOWNLOAD_DIRECTORY@ + VERSION_MANIFEST_FILE@
                + "..."@,
        )
    } else {
        out(
            "Version manifest not found. Creating from contents of '"@ + DOWNLOAD_DIRECTORY@
                + "'..."@,
        )
    }
}

/// Decides where the manifest comes from: from its file where there is one.
pub fn find_manifest(stored: bool) -> (r: (ManifestSource, Vec<Note>))
    ensures
        r.0 == if stored {
            ManifestSource::Stored
        } else {
            ManifestSource::Folder
        },
        lines(r.1@) == seq![source_line(stored)],
{
    let mut notes: Vec<Note> = no_notes();
    let source: ManifestSource = if stored {
        say(
            &mut notes,
            owned("Loading local version manifest from ").concat(DOWNLOAD_DIRECTORY).concat(
                VERSION_MANIFEST_FILE,
            ).concat("..."),
        );
        ManifestSource::Stored
    } else {
        say(
            &mut notes,
            owned("Version manifest not found. Creating from contents of '").concat(
                DOWNLOAD_DIRECTORY,
            ).concat("'..."),
        );
        ManifestSource::Folder
    };
    assert(lines(notes@) =~= seq![source_line(stored)]);
    (source, notes)
}

/// The entry of a mod that is known but not downloaded yet.
pub open spec fn placeholder() -> LocalVersionInfoView {
    LocalVersionInfoView { version: "0.0.0"@, extension: "zip"@ }
}

/// Makes the entry of a mod that is known but not downloaded yet.
pub fn placeholder_info() -> (info: LocalVersionInfo)
    ensures
        info@ == placeholder(),
{
    LocalVersionInfo { version: owned("0.0.0"), extension: owned("zip") }
}

/// The manifest once a download is in the folder.
pub open spec fn with_download(
    manifest: ManifestView,
    file: FileToDownloadView,
    extension: Seq<char>,
) -> ManifestView {
    manifest.insert(
        file.base_name,
        LocalVersionInfoView { version: file.new_version, extension },
    )
}

/// Whether `extension` is that of a downloaded file, or `zip` where it has none.
pub open spec fn is_extension(extension: Seq<char>, file_name: Seq<char>) -> bool {
    portable_path(file_name) ==> extension == match path_extension_of(file_name) {
        Some(e) => e,
        None => "zip"@,
    }
}

/// The extension of a downloaded file, or `zip` where it has none.
pub fn file_extension(file_name: &str) -> (extension: String)
    ensures
        is_extension(extension@, file_name@),
{
    match path_extension(file_name) {
        Some(e) => e,
        None => owned("zip"),
    }
}

/// Enters a download that is in the folder now.
pub fn record_download(manifest: &mut VersionManifest, file: &FileToDownload)
    ensures
        exists|extension: Seq<char>| #[trigger]
            is_extension(extension, file.full_new_name@) && final(manifest)@ == with_download(
                old(manifest)@,
                file@,
                extension,
            ),
{
    let extension: String = file_extension(file.full_new_name.as_str());
    assert(is_extension(extension@, file.full_new_name@));
    manifest.insert(
        file.base_name.clone(),
        LocalVersionInfo { version: file.new_version.clone(), extension },
    );
}

proof fn lemma_last_at(s: Seq<char>, c: char, at: int)
    requires
        0 <= at < s.len(),
        s[at] == c,
        forall|i: int| at < i < s.len() ==> s[i] != c,
    ensures
        last_at(s, c) == at,
    decreases s.len(),
{
    if at < s.len() - 1 {
        lemma_last_at(s.drop_last(), c, at);
    }
}

/// The parts of a mod's file name can be told apart again: the extension behind
/// the last dot, and before it the name and the version.
pub proof fn law_file_name_parts(name: Seq<char>, version: Seq<char>, extension: Seq<char>)
    requires
        !extension.contains('.'),
        !version.contains('_'),
    ensures
        extension_of(mod_file_name(name, version, extension)) == Some(extension),
        split_last(stem_of(mod_file_name(name, version, extension)), '_') == Some((name, version)),
{
    reveal_strlit("_");
    reveal_strlit(".");
    let full = mod_file_name(name, version, extension);
    let dot = name.len() + 1 + version.len();
    assert(full[dot as int] == '.');
    assert forall|i: int| dot < i < full.len() implies full[i] != '.' by {
        assert(full[i] == extension[i - dot - 1]);
    }
    lemma_last_at(full, '.', dot as int);
    assert(full.skip((dot + 1) as int) =~= extension);
    let stem = full.take(dot as int);
    assert(stem =~= name + "_"@ + version);
    assert(stem[name.len() as int] == '_');
    assert forall|i: int| name.len() < i < stem.len() implies stem[i] != '_' by {
        assert(stem[i] == version[i - name.len() - 1]);
    }
    lemma_last_at(stem, '_', name.len() as int);
    assert(stem.take(name.len() as int) =~= name);
    assert(stem.skip((name.len() + 1) as int) =~= version);
}

/// A download that a check found, once its file is in the folder, is found again
/// when the manifest is rebuilt, with the same mod, version and extension. (An
/// extension with a dot would lose what stands before that dot.)
pub proof fn law_download_is_found_again(
    manifest: ManifestView,
    file: FileToDownloadView,
    extension: Seq<char>,
)
    requires
        well_named(file, file.base_name),
        file.full_new_name == mod_file_name(file.base_name, file.new_version, extension),
        !extension.contains('.'),
    ensures
        with_file(manifest, scan_of(file.full_new_name)) == manifest.insert(
            file.base_name,
            LocalVersionInfoView { version: file.new_version, extension },
        ),
{
    let name = file.base_name;
    law_file_name_parts(name, file.new_version, extension);
    reveal_strlit("_");
    reveal_strlit("versions.json");
    reveal_strlit("config.json");
    assert(file.full_new_name[name.len() as int] == '_');
}

proof fn lemma_last_at_shift(front: Seq<char>, back: Seq<char>, c: char)
    ensures
        last_at(front + back, c) == if last_at(back, c) >= 0 {
            front.len() + last_at(back, c)
        } else {
            last_at(front, c)
        },
        -1 <= last_at(back, c) < back.len(),
    decreases back.len(),
{
    if back.len() == 0 {
        assert(front + back =~= front);
    } else {
        assert((front + back).last() == back.last());
        assert((front + back).drop_last() =~= front + back.drop_last());
        lemma_last_at_shift(front, back.drop_last(), c);
    }
}

/// A download that is entered keeps the extension that its file was named with.
pub proof fn law_recorded_extension(
    name: Seq<char>,
    version: Seq<char>,
    extension: Seq<char>,
    recorded: Seq<char>,
)
    requires
        portable_path(mod_file_name(name, version, extension)),
        !extension.contains('.'),
        !extension.contains('/'),
        !version.contains('/'),
        is_extension(recorded, mod_file_name(name, version, extension)),
    ensures
        recorded == extension,
{
    reveal_strlit("_");
    reveal_strlit(".");
    reveal_strlit("..");
    let full = mod_file_name(name, version, extension);
    let rest = "_"@ + version + "."@ + extension;
    assert(full =~= name + rest);
    assert(!rest.contains('/')) by {
        assert forall|i: int| 0 <= i < rest.len() implies rest[i] != '/' by {
            if 1 <= i < 1 + version.len() {
                assert(rest[i] == version[i - 1]);
            } else if i > 1 + version.len() {
                assert(rest[i] == extension[i - 2 - version.len()]);
            }
        }
    }
    lemma_last_at_absent(rest, '/');
    lemma_last_at_shift(name, rest, '/');
    lemma_last_at_shift(Seq::empty(), name, '/');
    assert(Seq::<char>::empty() + name =~= name);
    let at = last_at(full, '/');
    let tail = full.skip(at + 1);
    let head = name.skip(at + 1);
    assert(tail =~= head + rest);
    assert(tail[head.len() as int] == '_');
    let dot = head.len() + 1 + version.len();
    assert(tail[dot as int] == '.');
    assert forall|i: int| dot < i < tail.len() implies tail[i] != '.' by {
        assert(tail[i] == extension[i - dot - 1]);
    }
    lemma_last_at(tail, '.', dot as int);
    assert(tail.skip((dot + 1) as int) =~= extension);
}

} // verus!

//! What the download folder and the list of new mods come to, stated on the file
//! names and the entries themselves.

use vstd::prelude::*;
use crate::manifest::{
    extension_of, file_part, is_extension, lemma_plain_name, manifest_of, placeholder, plain_name, scan_of, with_download,
    ScannedFileView,
};
use crate::models::{FileToDownloadView, LocalVersionInfoView, ManifestView};
use crate::new_mods::{
    already_line, json_strings, listed, new_mods_step, replied, reply_line, seek, ModReply,
    NewModsActionView, NewModsView,
};
use crate::notes::NoteView;
use crate::text::{is_white, last_at, trim_end, trim_start, trimmed};
use crate::text_laws::{all_white, law_split_last, law_trimmed};
use crate::update::mod_file_name;
use crate::version::semver_parse;

verus! {

/// Whether a file of the folder holds `name` in `version`: it is none of the
/// program's own files, and without its extension it is called
/// `NAME_VERSION`, where the version can be read and holds no underscore.
pub open spec fn holds_mod(file: ScannedFileView, name: Seq<char>, version: Seq<char>) -> bool {
    &&& file.full_name != "versions.json"@
    &&& file.full_name != "config.json"@
    &&& file.stem == Some(name + seq!['_'] + version)
    &&& !version.contains('_')
    &&& semver_parse(version) is Ok
}

/// A file that holds a mod enters it, with its version and the extension of the
/// file, in place of what stood there.
pub proof fn law_file_is_entered(
    list: Seq<ScannedFileView>,
    file: ScannedFileView,
    name: Seq<char>,
    version: Seq<char>,
)
    requires
        holds_mod(file, name, version),
    ensures
        manifest_of(list.push(file)) == manifest_of(list).insert(
            name,
            LocalVersionInfoView { version, extension: file.extension },
        ),
{
    law_split_last(name, '_', version, Seq::empty());
    assert(list.push(file).drop_last() =~= list);
}

/// A file of the program itself, one whose name is no text, one without an
/// underscore and one whose version cannot be read enter nothing.
pub proof fn law_file_is_skipped(
    list: Seq<ScannedFileView>,
    file: ScannedFileView,
    name: Seq<char>,
    version: Seq<char>,
)
    requires
        file.full_name == "versions.json"@ || file.full_name == "config.json"@ || file.stem is None
            || !(file.stem->0).contains('_') || (file.stem == Some(name + seq!['_'] + version)
            && !version.contains('_') && semver_parse(version) is Err),
    ensures
        manifest_of(list.push(file)) == manifest_of(list),
{
    law_split_last(
        name,
        '_',
        version,
        if file.stem is Some {
            file.stem->0
        } else {
            Seq::empty()
        },
    );
    assert(list.push(file).drop_last() =~= list);
}

proof fn lemma_taken_apart(file: ScannedFileView) -> (parts: (Seq<char>, Seq<char>))
    requires
        file.stem is Some,
        (file.stem->0).contains('_'),
    ensures
        file.stem == Some(parts.0 + seq!['_'] + parts.1),
        !parts.1.contains('_'),
{
    let stem = file.stem->0;
    let i: int = lemma_last_underscore(stem);
    let name = stem.take(i);
    let version = stem.skip(i + 1);
    assert(stem =~= name + seq!['_'] + version);
    assert forall|j: int| 0 <= j < version.len() implies version[j] != '_' by {
        assert(version[j] == stem[i + 1 + j]);
    }
    (name, version)
}

proof fn lemma_last_underscore(s: Seq<char>) -> (i: int)
    requires
        s.contains('_'),
    ensures
        0 <= i < s.len(),
        s[i] == '_',
        forall|j: int| i < j < s.len() ==> s[j] != '_',
    decreases s.len(),
{
    let last = s.len() - 1;
    if s[last] == '_' {
        last
    } else {
        let front = s.drop_last();
        let k = choose|k: int| 0 <= k < s.len() && s[k] == '_';
        assert(front[k] == '_');
        let i: int = lemma_last_underscore(front);
        assert forall|j: int| i < j < s.len() implies s[j] != '_' by {
            if j < last {
                assert(front[j] == s[j]);
            }
        }
        i
    }
}

/// The manifest of a folder holds exactly the mods that its files hold; of
/// several files for one mod the last one counts.
pub proof fn law_folder(list: Seq<ScannedFileView>, name: Seq<char>)
    ensures
        manifest_of(list).contains_key(name) <==> exists|i: int, version: Seq<char>|
            0 <= i < list.len() && #[trigger] holds_mod(list[i], name, version),
        forall|i: int, version: Seq<char>|
            0 <= i < list.len() && #[trigger] holds_mod(list[i], name, version) && (forall|
                j: int,
                v: Seq<char>,
            |
                i < j < list.len() ==> !#[trigger] holds_mod(list[j], name, v)) ==> manifest_of(
                list,
            ).contains_key(name) && manifest_of(list)[name] == (LocalVersionInfoView {
                version,
                extension: list[i].extension,
            }),
    decreases list.len(),
{
    if list.len() > 0 {
        let front = list.drop_last();
        let file = list.last();
        let last = list.len() - 1;
        law_folder(front, name);
        assert(front.push(file) =~= list);
        assert forall|i: int| 0 <= i < front.len() implies #[trigger] front[i] == list[i] by {}
        if file.full_name == "versions.json"@ || file.full_name == "config.json"@ || file.stem is None
            || !(file.stem->0).contains('_') {
            law_file_is_skipped(front, file, name, name);
            assert forall|v: Seq<char>| !#[trigger] holds_mod(file, name, v) by {
                if file.stem == Some(name + seq!['_'] + v) {
                    assert((name + seq!['_'] + v)[name.len() as int] == '_');
                }
            }
            lemma_folder_same(list, name);
        } else {
            let (n, v) = lemma_taken_apart(file);
            assert forall|w: Seq<char>| #[trigger] holds_mod(file, name, w) implies n == name && w
                == v by {
                law_split_last(n, '_', v, Seq::empty());
                law_split_last(name, '_', w, Seq::empty());
            }
            if semver_parse(v) is Err {
                law_file_is_skipped(front, file, n, v);
                lemma_folder_same(list, name);
            } else {
                assert(holds_mod(file, n, v));
                law_file_is_entered(front, file, n, v);
                if n == name {
                    assert(holds_mod(list[last], name, v));
                    assert forall|i: int, version: Seq<char>|
                        0 <= i < list.len() && #[trigger] holds_mod(list[i], name, version) && (
                        forall|j: int, w: Seq<char>|
                            i < j < list.len() ==> !#[trigger] holds_mod(
                                list[j],
                                name,
                                w,
                            )) implies manifest_of(list)[name] == (LocalVersionInfoView {
                        version,
                        extension: list[i].extension,
                    }) by {
                        assert(i == last);
                    }
                } else {
                    lemma_folder_same(list, name);
                }
            }
        }
    }
}

/// A last file that does not concern a mod leaves its entry as it was.
proof fn lemma_folder_same(list: Seq<ScannedFileView>, name: Seq<char>)
    requires
        list.len() > 0,
        forall|v: Seq<char>| !#[trigger] holds_mod(list.last(), name, v),
        manifest_of(list).contains_key(name) <==> manifest_of(list.drop_last()).contains_key(name),
        manifest_of(list)[name] == manifest_of(list.drop_last())[name],
        manifest_of(list.drop_last()).contains_key(name) <==> exists|i: int, version: Seq<char>|
            0 <= i < list.drop_last().len() && #[trigger] holds_mod(
                list.drop_last()[i],
                name,
                version,
            ),
        forall|i: int, version: Seq<char>|
            0 <= i < list.drop_last().len() && #[trigger] holds_mod(
                list.drop_last()[i],
                name,
                version,
            ) && (forall|j: int, v: Seq<char>|
                i < j < list.drop_last().len() ==> !#[trigger] holds_mod(
                    list.drop_last()[j],
                    name,
                    v,
                )) ==> manifest_of(list.drop_last()).contains_key(name) && manifest_of(
                list.drop_last(),
            )[name] == (LocalVersionInfoView { version, extension: list.drop_last()[i].extension }),
    ensures
        manifest_of(list).contains_key(name) <==> exists|i: int, version: Seq<char>|
            0 <= i < list.len() && #[trigger] holds_mod(list[i], name, version),
        forall|i: int, version: Seq<char>|
            0 <= i < list.len() && #[trigger] holds_mod(list[i], name, version) && (forall|
                j: int,
                v: Seq<char>,
            |
                i < j < list.len() ==> !#[trigger] holds_mod(list[j], name, v)) ==> manifest_of(
                list,
            ).contains_key(name) && manifest_of(list)[name] == (LocalVersionInfoView {
                version,
                extension: list[i].extension,
            }),
{
    let front = list.drop_last();
    assert forall|i: int| 0 <= i < front.len() implies #[trigger] front[i] == list[i] by {}
    if manifest_of(list).contains_key(name) {
        let (i, version) = choose|i: int, version: Seq<char>|
            0 <= i < front.len() && #[trigger] holds_mod(front[i], name, version);
        assert(holds_mod(list[i], name, version));
    }
    assert forall|i: int, version: Seq<char>|
        0 <= i < list.len() && #[trigger] holds_mod(
            list[i],
            name,
            version,
        ) implies i < front.len() && holds_mod(front[i], name, version) by {}
    assert forall|i: int, version: Seq<char>|
        0 <= i < list.len() && #[trigger] holds_mod(list[i], name, version) && (forall|
            j: int,
            v: Seq<char>,
        |
            i < j < list.len() ==> !#[trigger] holds_mod(list[j], name, v)) implies manifest_of(
        list,
    ).contains_key(name) && manifest_of(list)[name] == (LocalVersionInfoView {
        version,
        extension: list[i].extension,
    }) by {
        assert(holds_mod(front[i], name, version));
        assert forall|j: int, v: Seq<char>|
            i < j < front.len() implies !#[trigger] holds_mod(front[j], name, v) by {
            assert(!holds_mod(list[j], name, v));
        }
    }
}

/// A plain file name is taken apart at its last dot: what follows is the
/// extension, what comes before is the rest. A name without a dot has no
/// extension.
pub proof fn law_file_name_is_taken_apart(stem: Seq<char>, extension: Seq<char>, other: Seq<char>)
    requires
        stem.len() > 0,
        !extension.contains('.'),
        !other.contains('.'),
    ensures
        scan_of(stem + seq!['.'] + extension).full_name == stem + seq!['.'] + extension,
        scan_of(stem + seq!['.'] + extension).stem == Some(stem),
        scan_of(stem + seq!['.'] + extension).extension == extension,
        extension_of(stem + seq!['.'] + extension) == Some(extension),
        scan_of(other).stem == Some(other),
        scan_of(other).extension.len() == 0,
        extension_of(other) is None,
{
    let full = stem + seq!['.'] + extension;
    law_split_last(stem, '.', extension, other);
    assert(full.take(stem.len() as int) =~= stem);
    assert(full.skip(stem.len() as int + 1) =~= extension);
    lemma_split_place(full, stem.len() as int, '.');
    lemma_no_place(other);
}

proof fn lemma_split_place(s: Seq<char>, at: int, c: char)
    requires
        0 <= at < s.len(),
        s[at] == c,
        !s.skip(at + 1).contains(c),
    ensures
        last_at(s, c) == at,
    decreases s.len(),
{
    if at < s.len() - 1 {
        let front = s.drop_last();
        assert(s.skip(at + 1)[s.len() - 1 - at - 1] == s.last());
        let behind = front.skip(at + 1);
        assert forall|j: int| 0 <= j < behind.len() implies behind[j] != c by {
            assert(s.skip(at + 1)[j] == behind[j]);
        }
        lemma_split_place(front, at, c);
    }
}

proof fn lemma_no_place(s: Seq<char>)
    requires
        !s.contains('.'),
    ensures
        last_at(s, '.') < 0,
    decreases s.len(),
{
    if s.len() > 0 {
        assert(s[s.len() - 1] != '.');
        assert forall|i: int| 0 <= i < s.drop_last().len() implies s.drop_last()[i] != '.' by {
            assert(s[i] != '.');
        }
        lemma_no_place(s.drop_last());
    }
}

/// A path names the file behind its last slash.
pub proof fn law_file_of_a_path(folder: Seq<char>, name: Seq<char>)
    requires
        plain_name(name),
    ensures
        file_part(folder + seq!['/'] + name) == Some(name),
        file_part(name) == Some(name),
{
    let path = folder + seq!['/'] + name;
    assert(path.skip(folder.len() as int + 1) =~= name);
    lemma_split_place(path, folder.len() as int, '/');
    lemma_plain_name(name);
}

/// The file of a mod is called by the mod's name, its version and its extension.
pub proof fn law_mod_file_name(name: Seq<char>, version: Seq<char>, extension: Seq<char>)
    ensures
        mod_file_name(name, version, extension) == name + "_"@ + version + "."@ + extension,
{
}

/// A download that is in the folder sets the version of its mod, with the
/// extension given, and touches no other.
pub proof fn law_download_is_entered(
    manifest: ManifestView,
    file: FileToDownloadView,
    extension: Seq<char>,
    other: Seq<char>,
)
    ensures
        with_download(manifest, file, extension).contains_key(file.base_name),
        with_download(manifest, file, extension)[file.base_name].version == file.new_version,
        with_download(manifest, file, extension)[file.base_name].extension == extension,
        other != file.base_name ==> (with_download(manifest, file, extension).contains_key(other)
            <==> manifest.contains_key(other)) && with_download(manifest, file, extension)[other]
            == manifest[other],
{
}

/// A mod that is known but not downloaded yet is entered in version 0.0.0, as a
/// zip file.
pub proof fn law_known_mod()
    ensures
        placeholder().version == "0.0.0"@,
        placeholder().extension == "zip"@,
{
}

proof fn lemma_trim_start_empty(s: Seq<char>)
    requires
        trim_start(s).len() == 0,
    ensures
        all_white(s),
    decreases s.len(),
{
    if s.len() > 0 {
        lemma_trim_start_empty(s.drop_first());
        assert forall|i: int| 0 <= i < s.len() implies is_white(#[trigger] s[i]) by {
            if i > 0 {
                assert(s.drop_first()[i - 1] == s[i]);
            }
        }
    }
}

proof fn lemma_trim_end_empty(s: Seq<char>)
    requires
        trim_end(s).len() == 0,
    ensures
        all_white(s),
    decreases s.len(),
{
    if s.len() > 0 {
        lemma_trim_end_empty(s.drop_last());
        assert forall|i: int| 0 <= i < s.len() implies is_white(#[trigger] s[i]) by {
            if i < s.len() - 1 {
                assert(s.drop_last()[i] == s[i]);
            }
        }
    }
}

proof fn lemma_trim_start_first(s: Seq<char>)
    ensures
        trim_start(s).len() > 0 ==> !is_white(trim_start(s)[0]),
    decreases s.len(),
{
    if s.len() > 0 {
        lemma_trim_start_first(s.drop_first());
    }
}

/// A list file with nothing but whitespace lists no mods; any other is read as
/// JSON, as it stands.
pub proof fn law_list_file(content: Seq<char>)
    ensures
        all_white(content) ==> listed(content) == Ok::<Seq<Seq<char>>, Seq<char>>(Seq::empty()),
        !all_white(content) ==> listed(content) == json_strings(content),
{
    if all_white(content) {
        law_trimmed(content, Seq::empty(), Seq::empty());
        assert(content + Seq::<char>::empty() + Seq::<char>::empty() =~= content);
    } else if trimmed(content).len() == 0 {
        lemma_trim_end_empty(trim_start(content));
        lemma_trim_start_first(content);
        if trim_start(content).len() > 0 {
            assert(is_white(trim_start(content)[0]));
        }
        lemma_trim_start_empty(content);
    }
}

/// Whether a step asks about the first of these names that a manifest lacks, at
/// its own address, and leaves those behind it for later.
pub open spec fn asks_first_missing(
    manifest: ManifestView,
    names: Seq<Seq<char>>,
    mods: NewModsView,
    action: NewModsActionView,
) -> bool {
    match action {
        NewModsActionView::Ask { name, url } => exists|i: int|
            0 <= i < names.len() && #[trigger] names[i] == name && !manifest.contains_key(name)
                && url == "https://mods.factorio.com/api/mods"@ + "/"@ + name + "/full"@
                && mods.names == names.skip(i + 1) && mods.asked == Some(name) && forall|j: int|
                0 <= j < i ==> manifest.contains_key(#[trigger] names[j]),
        NewModsActionView::Finished => forall|j: int|
            0 <= j < names.len() ==> manifest.contains_key(#[trigger] names[j]),
    }
}

proof fn lemma_seek_asks(mods: NewModsView, notes: Seq<NoteView>)
    ensures
        asks_first_missing(
            mods.manifest,
            mods.names,
            seek(mods, notes).mods,
            seek(mods, notes).action,
        ),
        seek(mods, notes).mods.manifest == mods.manifest,
        seek(mods, notes).mods.failed == mods.failed,
    decreases mods.names.len(),
{
    if mods.names.len() > 0 {
        let first = mods.names[0];
        let rest = mods.names.skip(1);
        if mods.manifest.contains_key(first) {
            let next = NewModsView { names: rest, ..mods };
            let said = notes.push(already_line(first));
            lemma_seek_asks(next, said);
            let s = seek(next, said);
            match s.action {
                NewModsActionView::Ask { name, url } => {
                    let i = choose|i: int|
                        0 <= i < rest.len() && #[trigger] rest[i] == name && s.mods.names
                            == rest.skip(i + 1) && forall|j: int|
                            0 <= j < i ==> mods.manifest.contains_key(#[trigger] rest[j]);
                    assert(mods.names[i + 1] == name);
                    assert(rest.skip(i + 1) =~= mods.names.skip(i + 2));
                    assert forall|j: int| 0 <= j < i + 1 implies mods.manifest.contains_key(
                        #[trigger] mods.names[j],
                    ) by {
                        if j > 0 {
                            assert(rest[j - 1] == mods.names[j]);
                        }
                    }
                },
                NewModsActionView::Finished => {
                    assert forall|j: int| 0 <= j < mods.names.len() implies mods.manifest.contains_key(
                        #[trigger] mods.names[j],
                    ) by {
                        if j > 0 {
                            assert(rest[j - 1] == mods.names[j]);
                        }
                    }
                },
            }
        } else {
            assert(mods.names[0] == first);
        }
    }
}

/// What the portal says about a new mod decides: a mod that it knows is entered
/// in version 0.0.0 as a zip file, and one that it does not know is put behind
/// those that failed, and nothing else changes. Then the first of the remaining
/// names that the manifest lacks is asked about.
pub proof fn law_new_mod_reply(mods: NewModsView, name: Seq<char>, reply: ModReply)
    requires
        mods.asked == Some(name),
    ensures
        ({
            let s = new_mods_step(mods, Some(reply));
            &&& reply is Known ==> s.mods.manifest == mods.manifest.insert(
                name,
                LocalVersionInfoView { version: "0.0.0"@, extension: "zip"@ },
            ) && s.mods.failed == mods.failed
            &&& reply is Unknown ==> s.mods.manifest == mods.manifest && s.mods.failed
                == mods.failed + seq![name]
            &&& asks_first_missing(s.mods.manifest, mods.names, s.mods, s.action)
        }),
{
    lemma_seek_asks(replied(mods, name, reply is Known), seq![reply_line(name, reply)]);
    assert(mods.failed.push(name) =~= mods.failed + seq![name]);
}

/// A list is begun with the first of its names that the manifest lacks, and
/// nothing changes by that.
pub proof fn law_new_mods_begin(mods: NewModsView)
    requires
        mods.asked is None,
    ensures
        ({
            let s = new_mods_step(mods, None);
            &&& asks_first_missing(mods.manifest, mods.names, s.mods, s.action)
            &&& s.mods.manifest == mods.manifest
            &&& s.mods.failed == mods.failed
        }),
{
    lemma_seek_asks(mods, Seq::empty());
}

/// Without a reply the mod that was asked about is asked about again, before the
/// others.
pub proof fn law_new_mod_is_asked_again(mods: NewModsView, name: Seq<char>)
    requires
        mods.asked == Some(name),
    ensures
        ({
            let s = new_mods_step(mods, None);
            &&& asks_first_missing(mods.manifest, seq![name] + mods.names, s.mods, s.action)
            &&& s.mods.manifest == mods.manifest
            &&& s.mods.failed == mods.failed
        }),
{
    lemma_seek_asks(
        NewModsView { asked: None, names: seq![name] + mods.names, ..mods },
        Seq::empty(),
    );
}

/// The extension that goes into the manifest for a plain file name is what
/// follows its last dot, or `zip` where there is no dot.
pub proof fn law_extension_of_a_download(
    stem: Seq<char>,
    extension: Seq<char>,
    other: Seq<char>,
    found: Seq<char>,
)
    requires
        !extension.contains('.'),
        !other.contains('.'),
        stem.len() > 0,
    ensures
        plain_name(stem + seq!['.'] + extension) && is_extension(
            found,
            stem + seq!['.'] + extension,
        ) ==> found == extension,
        plain_name(other) && is_extension(found, other) ==> found == "zip"@,
{
    law_file_name_is_taken_apart(stem, extension, other);
    if plain_name(stem + seq!['.'] + extension) {
        lemma_plain_name(stem + seq!['.'] + extension);
    }
    if plain_name(other) {
        lemma_plain_name(other);
    }
}

} // verus!

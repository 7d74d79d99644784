//! Mods that the user wants added: the list is read from a file, each mod is
//! looked up on the portal, and what the portal does not know stays in the file.

use vstd::prelude::*;
use vstd::string::StringExecFns;
use crate::api::{mod_address, mod_url, NEW_MODS_FILE};
use crate::manifest::{placeholder, placeholder_info, text_of};
use crate::models::{ManifestView, VersionManifest};
use crate::notes::{err, lines, no_notes, out, say, warn, Note, NoteView};
use crate::text::{lemma_push_text, owned, texts, trim, trimmed};

verus! {

/// What `serde_json::from_str` makes of a text that is to be a list of strings:
/// the list, or the error as it is displayed.
pub uninterp spec fn json_strings(text: Seq<char>) -> Result<Seq<Seq<char>>, Seq<char>>;

/// What `serde_json::to_string_pretty` writes for a list of strings.
pub uninterp spec fn json_pretty(list: Seq<Seq<char>>) -> Seq<char>;

/// What a parse gave, by its contents.
pub open spec fn strings_of(r: Result<Vec<String>, String>) -> Result<Seq<Seq<char>>, Seq<char>> {
    match r {
        Ok(list) => Ok(texts(list@)),
        Err(e) => Err(e@),
    }
}

/// A parse that succeeds with this list.
pub open spec fn readable(list: Seq<Seq<char>>) -> Result<Seq<Seq<char>>, Seq<char>> {
    Ok(list)
}

/// Calls `serde_json::from_str` for a list of strings, which is given the name
/// `json_strings`.
#[verifier::external_body]
pub(crate) fn parse_strings(text: &str) -> (r: Result<Vec<String>, String>)
    ensures
        strings_of(r) == json_strings(text@),
{
    serde_json::from_str::<Vec<String>>(text).map_err(|e| e.to_string())
}

/// Calls `serde_json::to_string_pretty` for a list of strings, which is given
/// the name `json_pretty`. It cannot fail for strings, what it writes is never
/// blank, and it reads back as the same list.
#[verifier::external_body]
pub(crate) fn write_strings(list: &Vec<String>) -> (text: String)
    ensures
        text@ == json_pretty(texts(list@)),
        json_strings(text@) == readable(texts(list@)),
        trimmed(text@).len() > 0,
{
    serde_json::to_string_pretty(list).unwrap()
}

/// The mods that a file lists; a blank file lists none.
pub open spec fn listed(content: Seq<char>) -> Result<Seq<Seq<char>>, Seq<char>> {
    if trimmed(content).len() == 0 {
        Ok(Seq::empty())
    } else {
        json_strings(content)
    }
}

/// Reads the list of mods from the contents of the file.
pub fn read_new_mods(content: &str) -> (r: Result<Vec<String>, String>)
    ensures
        strings_of(r) == listed(content@),
{
    if trim(content).as_str().is_empty() {
        let none: Vec<String> = Vec::new();
        assert(texts(none@) =~= Seq::<Seq<char>>::empty());
        Ok(none)
    } else {
        parse_strings(content)
    }
}

/// Writes the mods that stay in the file.
pub fn write_failed_mods(failed: &Vec<String>) -> (content: String)
    ensures
        content@ == json_pretty(texts(failed@)),
        listed(content@) == readable(texts(failed@)),
{
    write_strings(failed)
}

/// Mods that are being added.
pub struct NewMods {
    manifest: VersionManifest,
    asked: Option<String>,
    names: Vec<String>,
    failed: Vec<String>,
}

#[verifier::ext_equal]
pub struct NewModsView {
    /// The local mods.
    pub manifest: ManifestView,
    /// The mod that the portal was asked about.
    pub asked: Option<Seq<char>>,
    /// The mods that are still to be handled, the next one first.
    pub names: Seq<Seq<char>>,
    /// The mods that the portal does not know.
    pub failed: Seq<Seq<char>>,
}

impl View for NewMods {
    type V = NewModsView;

    closed spec fn view(&self) -> NewModsView {
        NewModsView {
            manifest: self.manifest@,
            asked: text_of(self.asked),
            names: texts(self.names@),
            failed: texts(self.failed@),
        }
    }
}

/// What the portal said about a mod.
pub enum ModReply {
    /// It knows the mod.
    Known,
    /// It does not, with this status and this text.
    Unknown { status: String, body: String },
}

/// What is to be done next.
pub enum NewModsAction {
    /// Ask the portal about `name`.
    Ask { name: String, url: String },
    /// Nothing: all mods were handled.
    Finished,
}

pub enum NewModsActionView {
    Ask { name: Seq<char>, url: Seq<char> },
    Finished,
}

impl View for NewModsAction {
    type V = NewModsActionView;

    open spec fn view(&self) -> NewModsActionView {
        match self {
            NewModsAction::Ask { name, url } => NewModsActionView::Ask { name: name@, url: url@ },
            NewModsAction::Finished => NewModsActionView::Finished,
        }
    }
}

/// An action and the lines to print before it.
pub struct NewModsStep {
    pub notes: Vec<Note>,
    pub action: NewModsAction,
}

#[verifier::ext_equal]
pub struct NewModsStepView {
    pub mods: NewModsView,
    pub action: NewModsActionView,
    pub notes: Seq<NoteView>,
}

/// The line about a mod that is there already.
pub open spec fn already_line(name: Seq<char>) -> NoteView {
    out("Mod '"@ + name + "' already exists in the manifest, skipping."@)
}

/// The line before the portal is asked.
pub open spec fn validating_line(name: Seq<char>) -> NoteView {
    out("Validating new mod: '"@ + name + "'..."@)
}

/// The line about a mod that the portal knows.
pub open spec fn valid_line(name: Seq<char>) -> NoteView {
    out("'"@ + name + "' is a valid mod. Adding to manifest for update check."@)
}

/// The line about a mod that the portal does not know.
pub open spec fn unknown_line(name: Seq<char>, status: Seq<char>, body: Seq<char>) -> NoteView {
    err(
        "Error: Could not find mod '"@ + name + "' on the portal (Status: "@ + status
            + "). It will be left in "@ + NEW_MODS_FILE@ + ". Response: "@ + body,
    )
}

/// Goes on to the next mod that the manifest does not hold yet.
pub open spec fn seek(mods: NewModsView, notes: Seq<NoteView>) -> NewModsStepView
    decreases mods.names.len(),
{
    if mods.names.len() == 0 {
        NewModsStepView { mods, action: NewModsActionView::Finished, notes }
    } else {
        let name = mods.names[0];
        if mods.manifest.contains_key(name) {
            seek(
                NewModsView { names: mods.names.skip(1), ..mods },
                notes.push(already_line(name)),
            )
        } else {
            NewModsStepView {
                mods: NewModsView { asked: Some(name), names: mods.names.skip(1), ..mods },
                action: NewModsActionView::Ask { name, url: mod_address(name) },
                notes: notes.push(validating_line(name)),
            }
        }
    }
}

/// The mods after the portal's reply about `name`: a mod that it knows is
/// entered in the manifest, another one fails.
pub open spec fn replied(mods: NewModsView, name: Seq<char>, known: bool) -> NewModsView {
    if known {
        NewModsView {
            manifest: mods.manifest.insert(name, placeholder()),
            asked: None,
            ..mods
        }
    } else {
        NewModsView { failed: mods.failed.push(name), asked: None, ..mods }
    }
}

/// The line about the portal's reply.
pub open spec fn reply_line(name: Seq<char>, reply: ModReply) -> NoteView {
    match reply {
        ModReply::Known => valid_line(name),
        ModReply::Unknown { status, body } => unknown_line(name, status@, body@),
    }
}

/// One step: the reply about the mod that was asked about, and then on to the
/// next mod. Without a reply the mod is asked about again.
pub open spec fn new_mods_step(mods: NewModsView, reply: Option<ModReply>) -> NewModsStepView {
    match (mods.asked, reply) {
        (Some(name), Some(r)) => seek(
            replied(mods, name, r is Known),
            seq![reply_line(name, r)],
        ),
        (Some(name), None) => seek(
            NewModsView { asked: None, names: seq![name] + mods.names, ..mods },
            Seq::empty(),
        ),
        (None, _) => seek(mods, Seq::empty()),
    }
}

impl NewMods {
    /// The mods of a list that are to be added to a manifest.
    pub fn new(manifest: VersionManifest, names: Vec<String>) -> (mods: Self)
        ensures
            mods@ == (NewModsView {
                manifest: manifest@,
                asked: None,
                names: texts(names@),
                failed: Seq::empty(),
            }),
    {
        let mods: NewMods = NewMods { manifest, asked: None, names, failed: Vec::new() };
        assert(mods@.failed =~= Seq::<Seq<char>>::empty());
        mods
    }

    /// The manifest and the mods that the portal does not know.
    pub fn finish(self) -> (r: (VersionManifest, Vec<String>))
        ensures
            r.0@ == self@.manifest,
            texts(r.1@) == self@.failed,
    {
        (self.manifest, self.failed)
    }

    /// Goes on to the next mod that the manifest does not hold yet.
    fn seek(&mut self, notes: Vec<Note>) -> (r: NewModsStep)
        ensures
            final(self)@ == seek(old(self)@, lines(notes@)).mods,
            r.action@ == seek(old(self)@, lines(notes@)).action,
            lines(r.notes@) == seek(old(self)@, lines(notes@)).notes,
    {
        let mut notes: Vec<Note> = notes;
        let ghost whole = seek(self@, lines(notes@));
        #[verifier::loop_isolation(false)]
        while self.names.len() > 0
            invariant
                whole == seek(self@, lines(notes@)),
            decreases self.names@.len(),
        {
            let ghost before = self@;
            let name: String = self.names.remove(0);
            assert(before.names[0] == name@);
            assert(self@.names =~= before.names.skip(1));
            if self.manifest.contains_key(name.as_str()) {
                say(
                    &mut notes,
                    owned("Mod '").concat(name.as_str()).concat(
                        "' already exists in the manifest, skipping.",
                    ),
                );
                assert(self@ =~= NewModsView { names: before.names.skip(1), ..before });
            } else {
                say(
                    &mut notes,
                    owned("Validating new mod: '").concat(name.as_str()).concat("'..."),
                );
                let url: String = mod_url(name.as_str());
                self.asked = Some(name.clone());
                assert(self@ =~= NewModsView {
                    asked: Some(name@),
                    names: before.names.skip(1),
                    ..before
                });
                return NewModsStep { notes, action: NewModsAction::Ask { name, url } };
            }
        }
        NewModsStep { notes, action: NewModsAction::Finished }
    }
}

/// Handles the portal's reply, if one was asked for, and goes on to the next mod.
pub fn process_new_mods_file(mods: &mut NewMods, reply: Option<ModReply>) -> (r: NewModsStep)
    ensures
        final(mods)@ == new_mods_step(old(mods)@, reply).mods,
        r.action@ == new_mods_step(old(mods)@, reply).action,
        lines(r.notes@) == new_mods_step(old(mods)@, reply).notes,
{
    let mut notes: Vec<Note> = no_notes();
    let ghost before = mods@;
    let asked: Option<String> = mods.asked.take();
    match (asked, reply) {
        (Some(name), Some(answer)) => {
            let ghost n = name@;
            match answer {
                ModReply::Known => {
                    say(
                        &mut notes,
                        owned("'").concat(name.as_str()).concat(
                            "' is a valid mod. Adding to manifest for update check.",
                        ),
                    );
                    mods.manifest.insert(name, placeholder_info());
                },
                ModReply::Unknown { status, body } => {
                    warn(
                        &mut notes,
                        owned("Error: Could not find mod '").concat(name.as_str()).concat(
                            "' on the portal (Status: ",
                        ).concat(status.as_str()).concat("). It will be left in ").concat(
                            NEW_MODS_FILE,
                        ).concat(". Response: ").concat(body.as_str()),
                    );
                    proof {
                        lemma_push_text(mods.failed@, name);
                    }
                    mods.failed.push(name);
                },
            }
            assert(lines(notes@) =~= seq![reply_line(n, answer)]);
            assert(mods@ =~= replied(before, n, answer is Known));
        },
        (Some(name), None) => {
            let ghost n = name@;
            mods.names.insert(0, name);
            assert(mods@.names =~= seq![n] + before.names);
        },
        (None, _) => {
            assert(mods@ =~= before);
        },
    }
    mods.seek(notes)
}

/// What a step may do: mods are only added to the manifest, and only as known;
/// what is asked about was not there; failed mods stay failed.
pub open spec fn only_adds(mods: NewModsView, s: NewModsStepView) -> bool {
    &&& forall|k: Seq<char>| #[trigger]
        mods.manifest.contains_key(k) && mods.asked != Some(k) ==> s.mods.manifest.contains_key(k)
            && s.mods.manifest[k] == mods.manifest[k]
    &&& forall|k: Seq<char>| #[trigger]
        s.mods.manifest.contains_key(k) && !mods.manifest.contains_key(k) ==> mods.asked == Some(k)
            && s.mods.manifest[k] == placeholder()
    &&& mods.failed.is_prefix_of(s.mods.failed)
    &&& s.action matches NewModsActionView::Ask { name, .. } ==> !s.mods.manifest.contains_key(name)
        && s.mods.asked == Some(name)
    &&& s.action is Finished ==> s.mods.names.len() == 0 && s.mods.asked is None
}

proof fn lemma_seek(mods: NewModsView, notes: Seq<NoteView>)
    requires
        mods.asked is None,
    ensures
        seek(mods, notes).mods.manifest == mods.manifest,
        seek(mods, notes).mods.failed == mods.failed,
        only_adds(mods, seek(mods, notes)),
    decreases mods.names.len(),
{
    if mods.names.len() > 0 && mods.manifest.contains_key(mods.names[0]) {
        lemma_seek(
            NewModsView { names: mods.names.skip(1), ..mods },
            notes.push(already_line(mods.names[0])),
        );
    }
}

/// The portal is asked only about mods that are not there yet; a mod becomes
/// known only by its reply, and no other entry changes.
pub proof fn law_new_mods_step(mods: NewModsView, reply: Option<ModReply>)
    ensures
        only_adds(mods, new_mods_step(mods, reply)),
{
    match (mods.asked, reply) {
        (Some(name), Some(r)) => {
            lemma_seek(replied(mods, name, r is Known), seq![reply_line(name, r)]);
        },
        (Some(name), None) => {
            lemma_seek(
                NewModsView { asked: None, names: seq![name] + mods.names, ..mods },
                Seq::empty(),
            );
        },
        (None, _) => {
            lemma_seek(mods, Seq::empty());
        },
    }
}

/// A mod that the portal does not know ends among the failed ones and stays out
/// of the manifest; one that it knows is entered.
pub proof fn law_reply(mods: NewModsView, name: Seq<char>, reply: ModReply)
    requires
        mods.asked == Some(name),
    ensures
        reply is Known ==> new_mods_step(mods, Some(reply)).mods.manifest == mods.manifest.insert(
            name,
            placeholder(),
        ) && new_mods_step(mods, Some(reply)).mods.failed == mods.failed,
        reply is Unknown ==> new_mods_step(mods, Some(reply)).mods.manifest == mods.manifest
            && new_mods_step(mods, Some(reply)).mods.failed == mods.failed.push(name),
{
    lemma_seek(replied(mods, name, reply is Known), seq![reply_line(name, reply)]);
}

/// Whether a mod was dealt with or still will be: it is in the manifest, among
/// the failed ones, asked about, or to be handled.
pub open spec fn accounted(mods: NewModsView, name: Seq<char>) -> bool {
    mods.manifest.contains_key(name) || mods.failed.contains(name) || mods.asked == Some(name)
        || mods.names.contains(name)
}

proof fn lemma_seek_accounts(mods: NewModsView, notes: Seq<NoteView>, name: Seq<char>)
    requires
        mods.asked is None,
    ensures
        accounted(mods, name) <==> accounted(seek(mods, notes).mods, name),
    decreases mods.names.len(),
{
    if mods.names.len() > 0 {
        let first = mods.names[0];
        let rest = mods.names.skip(1);
        assert(mods.names.contains(name) <==> name == first || rest.contains(name)) by {
            if mods.names.contains(name) {
                let i = choose|i: int| 0 <= i < mods.names.len() && mods.names[i] == name;
                if i > 0 {
                    assert(rest[i - 1] == name);
                }
            }
            if rest.contains(name) {
                let i = choose|i: int| 0 <= i < rest.len() && rest[i] == name;
                assert(mods.names[i + 1] == name);
            }
        }
        if mods.manifest.contains_key(first) {
            lemma_seek_accounts(
                NewModsView { names: rest, ..mods },
                notes.push(already_line(first)),
                name,
            );
        }
    }
}

/// No mod of the list is lost and none is made up: the mods that are accounted
/// for stay the same, and at the end each is in the manifest or has failed.
pub proof fn law_no_mod_is_lost(mods: NewModsView, reply: Option<ModReply>, name: Seq<char>)
    ensures
        accounted(mods, name) <==> accounted(new_mods_step(mods, reply).mods, name),
        new_mods_step(mods, reply).action is Finished && accounted(mods, name)
            ==> new_mods_step(mods, reply).mods.manifest.contains_key(name)
            || new_mods_step(mods, reply).mods.failed.contains(name),
{
    law_new_mods_step(mods, reply);
    match (mods.asked, reply) {
        (Some(asked), Some(r)) => {
            let next = replied(mods, asked, r is Known);
            assert(mods.failed.push(asked).contains(name) <==> mods.failed.contains(name) || name
                == asked) by {
                let pushed = mods.failed.push(asked);
                assert(pushed[mods.failed.len() as int] == asked);
                if mods.failed.contains(name) {
                    let i = choose|i: int| 0 <= i < mods.failed.len() && mods.failed[i] == name;
                    assert(pushed[i] == name);
                }
            }
            lemma_seek_accounts(next, seq![reply_line(asked, r)], name);
        },
        (Some(asked), None) => {
            let all = seq![asked] + mods.names;
            assert(all.contains(name) <==> name == asked || mods.names.contains(name)) by {
                assert(all[0] == asked);
                if mods.names.contains(name) {
                    let i = choose|i: int| 0 <= i < mods.names.len() && mods.names[i] == name;
                    assert(all[i + 1] == name);
                }
            }
            lemma_seek_accounts(
                NewModsView { asked: None, names: all, ..mods },
                Seq::empty(),
                name,
            );
        },
        (None, _) => {
            lemma_seek_accounts(mods, Seq::empty(), name);
        },
    }
}

/// Where a list leads to when these replies come one after the other.
pub open spec fn list_end(reached: NewModsStepView, replies: Seq<ModReply>) -> NewModsStepView
    decreases replies.len(),
{
    if replies.len() == 0 {
        reached
    } else {
        list_end(new_mods_step(reached.mods, Some(replies[0])), replies.skip(1))
    }
}

/// Whether the replies are those of a portal that knows exactly the mods of
/// `known`: each answers a question, and the same name gets the same answer.
pub open spec fn replies_of(
    reached: NewModsStepView,
    replies: Seq<ModReply>,
    known: Set<Seq<char>>,
) -> bool
    decreases replies.len(),
{
    replies.len() > 0 ==> {
        &&& reached.mods.asked matches Some(name) && (replies[0] is Known <==> known.contains(name))
        &&& replies_of(new_mods_step(reached.mods, Some(replies[0])), replies.skip(1), known)
    }
}

/// The mods of a list that are neither in a manifest nor known to the portal, in
/// order and as often as they are listed.
pub open spec fn refused_mods(
    manifest: ManifestView,
    names: Seq<Seq<char>>,
    known: Set<Seq<char>>,
) -> Seq<Seq<char>> {
    names.filter(|n: Seq<char>| !manifest.contains_key(n) && !known.contains(n))
}

/// Whether `after` is a manifest with a placeholder for each mod of a list that
/// was missing and that the portal knows.
pub open spec fn extended(
    manifest: ManifestView,
    names: Seq<Seq<char>>,
    known: Set<Seq<char>>,
    after: ManifestView,
) -> bool {
    forall|k: Seq<char>| #![trigger after.contains_key(k)]
        {
            &&& after.contains_key(k) <==> manifest.contains_key(k) || (names.contains(k)
                && known.contains(k))
            &&& manifest.contains_key(k) ==> after[k] == manifest[k]
            &&& after.contains_key(k) && !manifest.contains_key(k) ==> after[k] == placeholder()
        }
}

/// The mods that are not done with.
spec fn left(mods: NewModsView) -> Seq<Seq<char>> {
    match mods.asked {
        Some(n) => seq![n] + mods.names,
        None => mods.names,
    }
}

/// Whether a walk through `names` that began with `manifest` has come to `mods`
/// once the first `at` names are done with.
spec fn reached_from(
    manifest: ManifestView,
    names: Seq<Seq<char>>,
    known: Set<Seq<char>>,
    at: int,
    mods: NewModsView,
) -> bool {
    &&& 0 <= at <= names.len()
    &&& left(mods) == names.skip(at)
    &&& mods.failed == refused_mods(manifest, names.take(at), known)
    &&& extended(manifest, names.take(at), known, mods.manifest)
    &&& mods.asked matches Some(n) ==> !mods.manifest.contains_key(n)
}

proof fn lemma_one_more(
    manifest: ManifestView,
    done: Seq<Seq<char>>,
    name: Seq<char>,
    known: Set<Seq<char>>,
    before: ManifestView,
    after: ManifestView,
)
    requires
        extended(manifest, done, known, before),
        after == if !before.contains_key(name) && known.contains(name) {
            before.insert(name, placeholder())
        } else {
            before
        },
    ensures
        extended(manifest, done.push(name), known, after),
        refused_mods(manifest, done.push(name), known) == if !before.contains_key(name)
            && !known.contains(name) {
            refused_mods(manifest, done, known).push(name)
        } else {
            refused_mods(manifest, done, known)
        },
{
    let longer = done.push(name);
    assert forall|k: Seq<char>| longer.contains(k) <==> done.contains(k) || k == name by {
        assert(longer[done.len() as int] == name);
        if done.contains(k) {
            let i = choose|i: int| 0 <= i < done.len() && done[i] == k;
            assert(longer[i] == k);
        }
    }
    assert forall|k: Seq<char>| #![trigger after.contains_key(k)]
        {
            &&& after.contains_key(k) <==> manifest.contains_key(k) || (longer.contains(k)
                && known.contains(k))
            &&& manifest.contains_key(k) ==> after[k] == manifest[k]
            &&& after.contains_key(k) && !manifest.contains_key(k) ==> after[k] == placeholder()
        } by {
        assert(before.contains_key(k) || !before.contains_key(k));
        assert(before.contains_key(name) || !before.contains_key(name));
    }
    reveal(Seq::filter);
    assert(longer.drop_last() =~= done);
    assert(before.contains_key(name) || !before.contains_key(name));
}

proof fn lemma_seek_reaches(
    manifest: ManifestView,
    names: Seq<Seq<char>>,
    known: Set<Seq<char>>,
    at: int,
    mods: NewModsView,
    notes: Seq<NoteView>,
) -> (to: int)
    requires
        mods.asked is None,
        reached_from(manifest, names, known, at, mods),
    ensures
        reached_from(manifest, names, known, to, seek(mods, notes).mods),
        at <= to,
    decreases mods.names.len(),
{
    if mods.names.len() > 0 {
        let first = mods.names[0];
        let rest = mods.names.skip(1);
        assert(first == names[at]);
        assert(seq![first] + rest =~= mods.names);
        if mods.manifest.contains_key(first) {
            lemma_one_more(manifest, names.take(at), first, known, mods.manifest, mods.manifest);
            assert(names.take(at + 1) =~= names.take(at).push(first));
            assert(rest =~= names.skip(at + 1));
            lemma_seek_reaches(
                manifest,
                names,
                known,
                at + 1,
                NewModsView { names: rest, ..mods },
                notes.push(already_line(first)),
            )
        } else {
            at
        }
    } else {
        at
    }
}

proof fn lemma_reply_reaches(
    manifest: ManifestView,
    names: Seq<Seq<char>>,
    known: Set<Seq<char>>,
    at: int,
    mods: NewModsView,
    reply: ModReply,
) -> (to: int)
    requires
        mods.asked is Some,
        reached_from(manifest, names, known, at, mods),
        reply is Known <==> known.contains(mods.asked->0),
    ensures
        reached_from(manifest, names, known, to, new_mods_step(mods, Some(reply)).mods),
        at < to,
{
    let name = mods.asked->0;
    let next = replied(mods, name, reply is Known);
    assert(left(mods)[0] == name);
    assert(names[at] == name);
    lemma_one_more(manifest, names.take(at), name, known, mods.manifest, next.manifest);
    assert(names.take(at + 1) =~= names.take(at).push(name));
    assert(mods.names =~= left(mods).skip(1));
    assert(mods.names =~= names.skip(at + 1));
    lemma_seek_reaches(manifest, names, known, at + 1, next, seq![reply_line(name, reply)])
}

proof fn lemma_list_end(
    manifest: ManifestView,
    names: Seq<Seq<char>>,
    known: Set<Seq<char>>,
    at: int,
    reached: NewModsStepView,
    replies: Seq<ModReply>,
) -> (to: int)
    requires
        reached_from(manifest, names, known, at, reached.mods),
        replies_of(reached, replies, known),
    ensures
        reached_from(manifest, names, known, to, list_end(reached, replies).mods),
        at + replies.len() <= to,
    decreases replies.len(),
{
    if replies.len() > 0 {
        let next = lemma_reply_reaches(manifest, names, known, at, reached.mods, replies[0]);
        lemma_list_end(
            manifest,
            names,
            known,
            next,
            new_mods_step(reached.mods, Some(replies[0])),
            replies.skip(1),
        )
    } else {
        at
    }
}

proof fn lemma_finished_is_empty(reached: NewModsStepView, replies: Seq<ModReply>)
    requires
        reached.action is Finished ==> reached.mods.names.len() == 0 && reached.mods.asked is None,
        list_end(reached, replies).action is Finished,
    ensures
        list_end(reached, replies).mods.names.len() == 0,
        list_end(reached, replies).mods.asked is None,
    decreases replies.len(),
{
    if replies.len() > 0 {
        law_new_mods_step(reached.mods, Some(replies[0]));
        lemma_finished_is_empty(
            new_mods_step(reached.mods, Some(replies[0])),
            replies.skip(1),
        );
    }
}

/// A list that was walked to its end: the mods that failed are those of the list
/// that were neither in the manifest at the start nor known to the portal, in
/// order and with repeats, and the manifest has gained a placeholder for each
/// mod of the list that was missing and is known. There are at most as many
/// questions as names.
pub proof fn law_whole_list(
    manifest: ManifestView,
    names: Seq<Seq<char>>,
    known: Set<Seq<char>>,
    replies: Seq<ModReply>,
)
    requires
        ({
            let first = new_mods_step(
                NewModsView { manifest, asked: None, names, failed: Seq::empty() },
                None,
            );
            replies_of(first, replies, known) && list_end(first, replies).action is Finished
        }),
    ensures
        ({
            let end = list_end(
                new_mods_step(
                    NewModsView { manifest, asked: None, names, failed: Seq::empty() },
                    None,
                ),
                replies,
            ).mods;
            &&& end.failed == refused_mods(manifest, names, known)
            &&& extended(manifest, names, known, end.manifest)
            &&& replies.len() <= names.len()
        }),
{
    let mods = NewModsView { manifest, asked: None, names, failed: Seq::empty() };
    let first = new_mods_step(mods, None);
    reveal(Seq::filter);
    assert(refused_mods(manifest, names.take(0), known) =~= Seq::<Seq<char>>::empty());
    assert(names.skip(0) =~= names);
    let begun = lemma_seek_reaches(manifest, names, known, 0, mods, Seq::empty());
    let at = lemma_list_end(manifest, names, known, begun, first, replies);
    law_new_mods_step(mods, None);
    lemma_finished_is_empty(first, replies);
    assert(names.skip(at).len() == 0);
    assert(names.take(at) =~= names);
}

} // verus!

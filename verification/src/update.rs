//! The update check: a walk over the local mods and their dependencies that
//! decides what to download. It asks for the portal's answers and for the
//! presence of files, and is told what came back.

use vstd::prelude::*;
use vstd::string::StringExecFns;
use crate::api::{
    comes_with_game, dependency_kind, dependency_name, is_builtin, kind_of, mod_address, mod_url,
    parse_dependency_name, DependencyKind, BASE_API_URL,
};
use crate::manifest::placeholder;
use crate::models::{
    files, releases, ApiFileResponse, FileToDownload, FileToDownloadView, ManifestView, Release,
    ReleaseView, VersionManifest,
};
use crate::notes::{err, lines, no_notes, out, say, warn, Note, NoteView};
use crate::string_map::{enumerates, lists_values, Duplicate, StringMap};
use crate::text::{contains_text, decimal, lemma_push_text, owned, texts};
use crate::version::{
    display_version, full_release, is_version, latest_release, newest, numbers_above, numbers_text,
    parse_version, semver_greater, semver_parse, version_greater, version_of, version_text,
    ModVersion, ModVersionView,
};

verus! {

/// What the check waits for.
enum Stage {
    /// To be started.
    Ready,
    /// The portal's answer about `name`.
    Asked { name: String },
    /// Whether `file_name` is in the folder: `conflict` is in the manifest, and
    /// `release` of `name` cannot be used together with it. The dependencies
    /// from `next` on are still to be looked at.
    Looking {
        name: String,
        release: Release,
        version: ModVersion,
        next: usize,
        conflict: String,
        file_name: String,
    },
    /// Nothing: it has ended.
    Over,
}

pub enum StageView {
    Ready,
    Asked { name: Seq<char> },
    Looking {
        name: Seq<char>,
        release: ReleaseView,
        version: ModVersionView,
        next: int,
        conflict: Seq<char>,
        file_name: Seq<char>,
    },
    Over,
}

impl View for Stage {
    type V = StageView;

    closed spec fn view(&self) -> StageView {
        match self {
            Stage::Ready => StageView::Ready,
            Stage::Asked { name } => StageView::Asked { name: name@ },
            Stage::Looking { name, release, version, next, conflict, file_name } => {
                StageView::Looking {
                    name: name@,
                    release: release@,
                    version: version@,
                    next: *next as int,
                    conflict: conflict@,
                    file_name: file_name@,
                }
            },
            Stage::Over => StageView::Over,
        }
    }
}

/// How far a check has come.
struct CheckState {
    manifest: VersionManifest,
    queue: StringMap<FileToDownload>,
    todo: Vec<String>,
    done: Vec<String>,
    stage: Stage,
}

/// A running update check.
pub struct UpdateCheck {
    state: CheckState,
}

#[verifier::ext_equal]
pub struct CheckView {
    /// The local mods.
    pub manifest: ManifestView,
    /// The downloads found so far, by mod.
    pub queue: Map<Seq<char>, FileToDownloadView>,
    /// The mods to ask the portal about, the next one last.
    pub todo: Seq<Seq<char>>,
    /// The mods that the portal was asked about.
    pub done: Set<Seq<char>>,
    pub stage: StageView,
}

/// What happened since the last step.
pub enum CheckEvent {
    /// The check is to be started.
    Begin,
    /// The portal could not be reached.
    NoReply { error: String },
    /// The portal refused to answer.
    Refused { status: String, body: String },
    /// The portal answered.
    Answer(ApiFileResponse),
    /// The file asked for is in the folder, or is not.
    FilePresent(bool),
}

/// What is to be done next.
pub enum CheckAction {
    /// Ask the portal about `name`.
    Fetch { name: String, url: String },
    /// See whether a file of this name is in the download folder.
    LookFor { file_name: String },
    /// Stop the program: two mods exclude each other.
    Conflict { message: String },
    /// The check failed.
    Failed { error: String },
    /// The check is complete, and these files are to be downloaded.
    Finished { files: Vec<FileToDownload> },
    /// The event does not fit what was asked for; nothing was done.
    Unexpected,
}

pub enum CheckActionView {
    Fetch { name: Seq<char>, url: Seq<char> },
    LookFor { file_name: Seq<char> },
    Conflict { message: Seq<char> },
    Failed { error: Seq<char> },
    Finished { queue: Map<Seq<char>, FileToDownloadView> },
    Unexpected,
}

/// Whether an action is the one described. The files to download may come in
/// any order.
pub open spec fn matches_action(action: CheckAction, view: CheckActionView) -> bool {
    match (action, view) {
        (
            CheckAction::Fetch { name, url },
            CheckActionView::Fetch { name: n, url: u },
        ) => name@ == n && url@ == u,
        (
            CheckAction::LookFor { file_name },
            CheckActionView::LookFor { file_name: f },
        ) => file_name@ == f,
        (
            CheckAction::Conflict { message },
            CheckActionView::Conflict { message: m },
        ) => message@ == m,
        (CheckAction::Failed { error }, CheckActionView::Failed { error: e }) => error@ == e,
        (
            CheckAction::Finished { files: list },
            CheckActionView::Finished { queue },
        ) => lists_values(files(list@), queue),
        (CheckAction::Unexpected, CheckActionView::Unexpected) => true,
        _ => false,
    }
}

/// An action and the lines to print before it.
pub struct CheckStep {
    pub notes: Vec<Note>,
    pub action: CheckAction,
}

#[verifier::ext_equal]
pub struct StepView {
    pub check: CheckView,
    pub action: CheckActionView,
    pub notes: Seq<NoteView>,
}

/// The position of the next mod to ask about: the last of the list that was not
/// asked about yet.
pub open spec fn next_position(todo: Seq<Seq<char>>, done: Set<Seq<char>>) -> Option<int>
    decreases todo.len(),
{
    if todo.len() == 0 {
        None
    } else if done.contains(todo.last()) {
        next_position(todo.drop_last(), done)
    } else {
        Some(todo.len() - 1)
    }
}

/// The line with which a check starts.
pub open spec fn begin_line() -> NoteView {
    out("\nChecking for updates and dependencies..."@)
}

/// The line about a portal that could not be reached.
pub open spec fn no_reply_line(name: Seq<char>, error: Seq<char>) -> NoteView {
    err("Warning: Request to check '"@ + name + "' failed: "@ + error)
}

/// The line about a portal that refused to answer.
pub open spec fn refused_line(name: Seq<char>, status: Seq<char>, body: Seq<char>) -> NoteView {
    err(
        "Warning: API check for '"@ + name + "' failed with status: "@ + status + ". Response: "@
            + body,
    )
}

/// The line about a new download.
pub open spec fn queue_line(name: Seq<char>, version: ModVersionView) -> NoteView {
    out("Queueing '"@ + name + "' version "@ + version_text(version) + " for download."@)
}

/// Asks about the next mod, or ends the check when none is left.
pub open spec fn pick(check: CheckView, notes: Seq<NoteView>) -> StepView {
    match next_position(check.todo, check.done) {
        Some(i) => {
            let name = check.todo[i];
            StepView {
                check: CheckView {
                    todo: check.todo.take(i),
                    done: check.done.insert(name),
                    stage: StageView::Asked { name },
                    ..check
                },
                action: CheckActionView::Fetch { name, url: mod_address(name) },
                notes: notes.push(out("Checking status for '"@ + name + "'..."@)),
            }
        },
        None => StepView {
            check: CheckView { todo: Seq::empty(), stage: StageView::Over, ..check },
            action: CheckActionView::Finished { queue: check.queue },
            notes,
        },
    }
}

/// The name of the file of a mod.
pub open spec fn mod_file_name(
    name: Seq<char>,
    version: Seq<char>,
    extension: Seq<char>,
) -> Seq<char> {
    name + "_"@ + version + "."@ + extension
}

/// The extension that the new file of a mod gets.
pub open spec fn extension_for(manifest: ManifestView, name: Seq<char>) -> Seq<char> {
    if manifest.contains_key(name) {
        manifest[name].extension
    } else {
        "zip"@
    }
}

/// The download of a release.
pub open spec fn download_of(
    manifest: ManifestView,
    name: Seq<char>,
    release: ReleaseView,
    version: ModVersionView,
) -> FileToDownloadView {
    FileToDownloadView {
        base_name: name,
        new_version: release.version,
        full_new_name: mod_file_name(name, version_text(version), extension_for(manifest, name)),
        download_url: BASE_API_URL@ + release.download_url,
    }
}

/// Whether `version` is to be downloaded: the mod is not there, or only in an
/// older version. An error if the local version cannot be read.
pub open spec fn needs_download(
    manifest: ManifestView,
    name: Seq<char>,
    version: ModVersionView,
) -> Result<bool, Seq<char>> {
    if manifest.contains_key(name) {
        match semver_parse(manifest[name].version) {
            Ok(local) => Ok(semver_greater(version, local)),
            Err(e) => Err(e),
        }
    } else {
        Ok(true)
    }
}

/// Once all dependencies of its newest release were looked at, a mod that is not
/// there becomes a download, and so does one that is only known so far, given
/// that the release has numbers above zero.
pub open spec fn known_is_fetched(
    manifest: ManifestView,
    name: Seq<char>,
    version: ModVersionView,
    after: CheckView,
) -> bool {
    (!manifest.contains_key(name) || (manifest[name] == placeholder() && numbers_above(
        version,
        full_release(0, 0, 0),
    ))) && !(after.stage is Looking) ==> after.queue.contains_key(name)
}

/// The mod whose newest release an event is about, and the version of that
/// release.
pub open spec fn in_hand(check: CheckView, event: CheckEvent) -> Option<
    (Seq<char>, ModVersionView),
> {
    match (check.stage, event) {
        (StageView::Asked { name }, CheckEvent::Answer(answer)) => {
            let list = releases(answer.releases@);
            match newest(list) {
                Some(i) => Some((name, version_of(list[i]))),
                None => None,
            }
        },
        (StageView::Looking { name, version, .. }, CheckEvent::FilePresent(false)) => Some(
            (name, version),
        ),
        _ => None,
    }
}

/// Decides about the newest release of a mod once its dependencies were looked
/// at, and goes on to the next mod.
pub open spec fn settle(
    check: CheckView,
    name: Seq<char>,
    release: ReleaseView,
    version: ModVersionView,
    notes: Seq<NoteView>,
) -> StepView {
    match needs_download(check.manifest, name, version) {
        Err(e) => StepView {
            check: CheckView { stage: StageView::Over, ..check },
            action: CheckActionView::Failed { error: e },
            notes,
        },
        Ok(false) => pick(check, notes),
        Ok(true) => pick(
            CheckView {
                queue: check.queue.insert(
                    name,
                    download_of(check.manifest, name, release, version),
                ),
                ..check
            },
            notes.push(queue_line(name, version)),
        ),
    }
}

/// The mod that a dependency excludes, if it is in the manifest.
pub open spec fn conflict_in(manifest: ManifestView, dependency: Seq<char>) -> Option<Seq<char>> {
    if kind_of(dependency) == DependencyKind::Incompatible {
        match dependency_name(dependency) {
            Some(n) => if manifest.contains_key(n) {
                Some(n)
            } else {
                None
            },
            None => None,
        }
    } else {
        None
    }
}

/// The mod that a dependency adds to those to be asked about.
pub open spec fn wanted(done: Set<Seq<char>>, dependency: Seq<char>) -> Option<Seq<char>> {
    if kind_of(dependency) == DependencyKind::Required {
        match dependency_name(dependency) {
            Some(n) => if !done.contains(n) && !is_builtin(n) {
                Some(n)
            } else {
                None
            },
            None => None,
        }
    } else {
        None
    }
}

/// The line about a dependency of `name` that no conflict comes from.
pub open spec fn dependency_lines(
    done: Set<Seq<char>>,
    name: Seq<char>,
    dependency: Seq<char>,
) -> Seq<NoteView> {
    match (kind_of(dependency), dependency_name(dependency)) {
        (DependencyKind::Optional, Some(n)) => seq![
            out("'"@ + name + "' has an optional dependency on '"@ + n + "', ignoring."@),
        ],
        _ => match wanted(done, dependency) {
            Some(n) => seq![out("'"@ + name + "' depends on '"@ + n + "', queuing for check..."@)],
            None => Seq::empty(),
        },
    }
}

/// Looks at the dependencies of a release from `next` on. At one that excludes
/// a mod of the manifest the walk stops to ask whether that mod's file is there.
pub open spec fn walk(
    check: CheckView,
    name: Seq<char>,
    release: ReleaseView,
    version: ModVersionView,
    next: int,
    notes: Seq<NoteView>,
) -> StepView
    decreases release.dependencies.len() - next,
{
    if next < 0 || next >= release.dependencies.len() {
        settle(check, name, release, version, notes)
    } else {
        let dependency = release.dependencies[next];
        match conflict_in(check.manifest, dependency) {
            Some(conflict) => {
                let info = check.manifest[conflict];
                let file_name = mod_file_name(conflict, info.version, info.extension);
                StepView {
                    check: CheckView {
                        stage: StageView::Looking {
                            name,
                            release,
                            version,
                            next: next + 1,
                            conflict,
                            file_name,
                        },
                        ..check
                    },
                    action: CheckActionView::LookFor { file_name },
                    notes: notes.push(
                        out(
                            "Conflict Detected: Mod '"@ + name + "' lists '"@ + conflict
                                + "' as an incompatible dependency."@,
                        ),
                    ),
                }
            },
            None => walk(
                CheckView {
                    todo: match wanted(check.done, dependency) {
                        Some(n) => check.todo.push(n),
                        None => check.todo,
                    },
                    ..check
                },
                name,
                release,
                version,
                next + 1,
                notes + dependency_lines(check.done, name, dependency),
            ),
        }
    }
}

/// Handles the portal's answer about `name`.
pub open spec fn answered(check: CheckView, name: Seq<char>, list: Seq<ReleaseView>) -> StepView {
    match newest(list) {
        None => pick(check, Seq::empty()),
        Some(i) => walk(check, name, list[i], version_of(list[i]), 0, Seq::empty()),
    }
}

/// Drops a mod whose file is gone from the manifest and from the downloads.
pub open spec fn without(check: CheckView, conflict: Seq<char>) -> CheckView {
    CheckView {
        manifest: check.manifest.remove(conflict),
        queue: check.queue.remove(conflict),
        ..check
    }
}

/// The lines about a mod whose file is gone.
pub open spec fn gone_lines(
    check: CheckView,
    conflict: Seq<char>,
    file_name: Seq<char>,
) -> Seq<NoteView> {
    let first = seq![
        out(
            "Warning: Conflicting file '"@ + file_name
                + "' was not found on disk. The manifest is stale. Removing entry for '"@ + conflict
                + "' from manifest."@,
        ),
    ];
    if check.queue.contains_key(conflict) {
        first.push(
            out("Also removed conflicting mod '"@ + conflict + "' from the download queue."@),
        )
    } else {
        first
    }
}

/// The message of a conflict that stops the program.
pub open spec fn conflict_message(name: Seq<char>, conflict: Seq<char>) -> Seq<char> {
    "FATAL: Mod '"@ + name + "' is incompatible with the locally present mod '"@ + conflict
        + "'. Please resolve this conflict manually by removing one of them."@
}

/// One step of the check.
pub open spec fn step(check: CheckView, event: CheckEvent) -> StepView {
    match (check.stage, event) {
        (StageView::Ready, CheckEvent::Begin) => pick(
            check,
            seq![begin_line()],
        ),
        (StageView::Asked { name }, CheckEvent::NoReply { error }) => pick(
            check,
            seq![no_reply_line(name, error@)],
        ),
        (StageView::Asked { name }, CheckEvent::Refused { status, body }) => pick(
            check,
            seq![refused_line(name, status@, body@)],
        ),
        (StageView::Asked { name }, CheckEvent::Answer(answer)) => answered(
            check,
            name,
            releases(answer.releases@),
        ),
        (
            StageView::Looking { name, release, version, next, conflict, file_name },
            CheckEvent::FilePresent(present),
        ) => if present {
            StepView {
                check: CheckView { stage: StageView::Over, ..check },
                action: CheckActionView::Conflict { message: conflict_message(name, conflict) },
                notes: Seq::empty(),
            }
        } else {
            walk(
                without(check, conflict),
                name,
                release,
                version,
                next,
                gone_lines(check, conflict, file_name),
            )
        },
        _ => StepView { check, action: CheckActionView::Unexpected, notes: Seq::empty() },
    }
}

impl View for CheckState {
    type V = CheckView;

    closed spec fn view(&self) -> CheckView {
        CheckView {
            manifest: self.manifest@,
            queue: self.queue@,
            todo: texts(self.todo@),
            done: texts(self.done@).to_set(),
            stage: self.stage@,
        }
    }
}

impl View for UpdateCheck {
    type V = CheckView;

    closed spec fn view(&self) -> CheckView {
        self.state@
    }
}

/// A version that reads, and that can be told from the name before it by the
/// underscore between them.
pub open spec fn tells_apart(version: Seq<char>) -> bool {
    semver_parse(version) is Ok && !version.contains('_')
}

/// Whether a download is of this mod, in a version that reads, and its file is
/// named after both.
pub open spec fn well_named(file: FileToDownloadView, name: Seq<char>) -> bool {
    &&& file.base_name == name
    &&& tells_apart(file.new_version)
    &&& exists|extension: Seq<char>|
        file.full_new_name == #[trigger] mod_file_name(name, file.new_version, extension)
}

/// Holds of every check from its start on: each download stands under the name
/// of its mod and is well named, and a release that is being looked at has the
/// version that its text gives.
pub open spec fn well_formed(check: CheckView) -> bool {
    &&& forall|k: Seq<char>| #[trigger]
        check.queue.contains_key(k) ==> well_named(check.queue[k], k)
    &&& check.stage matches StageView::Looking { release, version, next, .. } ==> {
        &&& 0 <= next <= release.dependencies.len()
        &&& is_version(version)
        &&& version_text(version) == release.version
        &&& semver_parse(release.version) matches Ok(v) && v == version
        &&& tells_apart(release.version)
    }
}

/// The version of a mod that is only known is written with three zeros.
proof fn lemma_zero_text()
    ensures
        placeholder().version == numbers_text(0, 0, 0),
{
    reveal_strlit("0.0.0");
    reveal_strlit(".");
    assert(decimal(0) =~= seq!['0']);
    assert(numbers_text(0, 0, 0) =~= "0.0.0"@);
}

impl CheckState {
    /// The check of a manifest, which asks about the mods of `todo`.
    fn new(manifest: VersionManifest, todo: Vec<String>) -> (state: Self)
        ensures
            state@ == (CheckView {
                manifest: manifest@,
                queue: Map::empty(),
                todo: texts(todo@),
                done: Set::empty(),
                stage: StageView::Ready,
            }),
    {
        let state: CheckState = CheckState {
            manifest,
            queue: StringMap::new(),
            todo,
            done: Vec::new(),
            stage: Stage::Ready,
        };
        assert(state@.done =~= Set::<Seq<char>>::empty());
        state
    }

    /// Asks about the next mod, or ends the check.
    fn pick(&mut self, notes: Vec<Note>) -> (r: CheckStep)
        requires
            well_formed(old(self)@),
        ensures
            well_formed(final(self)@),
            final(self)@ == pick(old(self)@, lines(notes@)).check,
            matches_action(r.action, pick(old(self)@, lines(notes@)).action),
            lines(r.notes@) == pick(old(self)@, lines(notes@)).notes,
    {
        let mut notes: Vec<Note> = notes;
        let ghost start = self@;
        let mut at: usize = self.todo.len();
        assert(start.todo.take(at as int) =~= start.todo);
        while at > 0 && contains_text(&self.done, self.todo[at - 1].as_str())
            invariant
                start == self@,
                at <= self.todo@.len(),
                next_position(start.todo, start.done) == next_position(
                    start.todo.take(at as int),
                    start.done,
                ),
            decreases at,
        {
            assert(start.todo.take(at as int).drop_last() =~= start.todo.take(at - 1));
            assert(start.todo.take(at as int).last() == self.todo@[at - 1]@);
            assert(start.done.contains(self.todo@[at - 1]@));
            at = at - 1;
        }
        if at == 0 {
            self.todo = Vec::new();
            self.stage = Stage::Over;
            let list: Vec<FileToDownload> = self.queue.values();
            assert(files(list@) =~= list@.map_values(|v: FileToDownload| v@));
            assert(self@ =~= pick(start, lines(notes@)).check);
            return CheckStep { notes, action: CheckAction::Finished { files: list } };
        }
        let name: String = self.todo[at - 1].clone();
        assert(start.todo.take(at as int).last() == name@);
        assert(!start.done.contains(name@));
        say(&mut notes, owned("Checking status for '").concat(name.as_str()).concat("'..."));
        self.todo.truncate(at - 1);
        proof {
            lemma_push_text(self.done@, name);
        }
        self.done.push(name.clone());
        self.stage = Stage::Asked { name: name.clone() };
        let url: String = mod_url(name.as_str());
        assert(self@.todo =~= start.todo.take(at - 1));
        CheckStep { notes, action: CheckAction::Fetch { name, url } }
    }

    /// Decides about the newest release of a mod and goes on to the next mod.
    fn settle(
        &mut self,
        name: String,
        release: Release,
        version: ModVersion,
        notes: Vec<Note>,
    ) -> (r: CheckStep)
        requires
            well_formed(old(self)@),
            is_version(version@),
            version_text(version@) == release@.version,
            tells_apart(release@.version),
        ensures
            well_formed(final(self)@),
            final(self)@ == settle(
                old(self)@,
                name@,
                release@,
                version@,
                lines(notes@),
            ).check,
            matches_action(
                r.action,
                settle(old(self)@, name@, release@, version@, lines(notes@)).action,
            ),
            lines(r.notes@) == settle(
                old(self)@,
                name@,
                release@,
                version@,
                lines(notes@),
            ).notes,
            known_is_fetched(old(self)@.manifest, name@, version@, final(self)@),
    {
        let mut notes: Vec<Note> = notes;
        let mut extension: String = owned("zip");
        let needed: bool = match self.manifest.get(name.as_str()) {
            Some(info) => {
                extension = info.extension.clone();
                proof {
                    lemma_zero_text();
                }
                match parse_version(info.version.as_str()) {
                    Ok(local) => version_greater(&version, &local),
                    Err(e) => {
                        self.stage = Stage::Over;
                        return CheckStep { notes, action: CheckAction::Failed { error: e } };
                    },
                }
            },
            None => true,
        };
        if needed {
            let version_shown: String = display_version(&version);
            say(
                &mut notes,
                owned("Queueing '").concat(name.as_str()).concat("' version ").concat(
                    version_shown.as_str(),
                ).concat(" for download."),
            );
            let file: FileToDownload = FileToDownload {
                base_name: name.clone(),
                new_version: release.version,
                full_new_name: name.clone().concat("_").concat(version_shown.as_str()).concat(
                    ".",
                ).concat(extension.as_str()),
                download_url: owned(BASE_API_URL).concat(release.download_url.as_str()),
            };
            assert(well_named(file@, name@)) by {
                assert(file@.full_new_name == mod_file_name(
                    name@,
                    file@.new_version,
                    extension@,
                ));
            }
            self.queue.insert(name, file);
        }
        self.pick(notes)
    }

    /// Looks at the dependencies of a release from `next` on.
    fn walk(
        &mut self,
        name: String,
        release: Release,
        version: ModVersion,
        next: usize,
        notes: Vec<Note>,
    ) -> (r: CheckStep)
        requires
            well_formed(old(self)@),
            is_version(version@),
            version_text(version@) == release@.version,
            tells_apart(release@.version),
            next <= release@.dependencies.len(),
        ensures
            well_formed(final(self)@),
            final(self)@ == walk(
                old(self)@,
                name@,
                release@,
                version@,
                next as int,
                lines(notes@),
            ).check,
            matches_action(
                r.action,
                walk(old(self)@, name@, release@, version@, next as int, lines(notes@)).action,
            ),
            lines(r.notes@) == walk(
                old(self)@,
                name@,
                release@,
                version@,
                next as int,
                lines(notes@),
            ).notes,
            known_is_fetched(old(self)@.manifest, name@, version@, final(self)@),
    {
        let mut notes: Vec<Note> = notes;
        let ghost whole = walk(
            self@,
            name@,
            release@,
            version@,
            next as int,
            lines(notes@),
        );
        let count: usize = release.info_json.dependencies.len();
        let mut i: usize = next;
        #[verifier::loop_isolation(false)]
        while i < count
            invariant
                well_formed(self@),
                is_version(version@),
                version_text(version@) == release@.version,
                tells_apart(release@.version),
                self@.manifest == old(self)@.manifest,
                count == release@.dependencies.len(),
                i <= count,
                whole == walk(self@, name@, release@, version@, i as int, lines(notes@)),
            decreases count - i,
        {
            let dependency: &str = release.info_json.dependencies[i].as_str();
            assert(release@.dependencies[i as int] == dependency@);
            let kind: DependencyKind = dependency_kind(dependency);
            let ghost before = self@;
            let ghost notes_before = lines(notes@);
            match parse_dependency_name(dependency) {
                Some(other) => {
                    match kind {
                        DependencyKind::Incompatible => {
                            match self.manifest.get(other.as_str()) {
                                Some(info) => {
                                    let file_name: String = other.clone().concat("_").concat(
                                        info.version.as_str(),
                                    ).concat(".").concat(info.extension.as_str());
                                    say(
                                        &mut notes,
                                        owned("Conflict Detected: Mod '").concat(
                                            name.as_str(),
                                        ).concat("' lists '").concat(other.as_str()).concat(
                                            "' as an incompatible dependency.",
                                        ),
                                    );
                                    self.stage = Stage::Looking {
                                        name,
                                        release,
                                        version,
                                        next: i + 1,
                                        conflict: other,
                                        file_name: file_name.clone(),
                                    };
                                    return CheckStep {
                                        notes,
                                        action: CheckAction::LookFor { file_name },
                                    };
                                },
                                None => {},
                            }
                        },
                        DependencyKind::Optional => {
                            say(
                                &mut notes,
                                owned("'").concat(name.as_str()).concat(
                                    "' has an optional dependency on '",
                                ).concat(other.as_str()).concat("', ignoring."),
                            );
                        },
                        DependencyKind::Required => {
                            if !contains_text(&self.done, other.as_str()) && !comes_with_game(
                                other.as_str(),
                            ) {
                                say(
                                    &mut notes,
                                    owned("'").concat(name.as_str()).concat(
                                        "' depends on '",
                                    ).concat(other.as_str()).concat("', queuing for check..."),
                                );
                                proof {
                                    lemma_push_text(self.todo@, other);
                                }
                                self.todo.push(other);
                            }
                        },
                    }
                },
                None => {},
            }
            assert(lines(notes@) =~= notes_before + dependency_lines(
                before.done,
                name@,
                release@.dependencies[i as int],
            ));
            i = i + 1;
        }
        self.settle(name, release, version, notes)
    }

    /// Takes the check one step further: handles what happened and says what is to
    /// be done next.
    fn step(&mut self, event: CheckEvent) -> (r: CheckStep)
        requires
            well_formed(old(self)@),
        ensures
            well_formed(final(self)@),
            final(self)@ == step(old(self)@, event).check,
            matches_action(r.action, step(old(self)@, event).action),
            lines(r.notes@) == step(old(self)@, event).notes,
            in_hand(old(self)@, event) matches Some(found) ==> known_is_fetched(
                old(self)@.manifest,
                found.0,
                found.1,
                final(self)@,
            ),
    {
        let mut notes: Vec<Note> = no_notes();
        match &self.stage {
            Stage::Ready => match event {
                CheckEvent::Begin => {
                    say(&mut notes, owned("\nChecking for updates and dependencies..."));
                    assert(lines(notes@) =~= seq![begin_line()]);
                    return self.pick(notes);
                },
                _ => {},
            },
            Stage::Asked { name } => {
                let name: String = name.clone();
                match event {
                    CheckEvent::NoReply { error } => {
                        warn(
                            &mut notes,
                            owned("Warning: Request to check '").concat(name.as_str()).concat(
                                "' failed: ",
                            ).concat(error.as_str()),
                        );
                        assert(lines(notes@) =~= seq![no_reply_line(name@, error@)]);
                        return self.pick(notes);
                    },
                    CheckEvent::Refused { status, body } => {
                        warn(
                            &mut notes,
                            owned("Warning: API check for '").concat(name.as_str()).concat(
                                "' failed with status: ",
                            ).concat(status.as_str()).concat(". Response: ").concat(body.as_str()),
                        );
                        assert(lines(notes@) =~= seq![refused_line(name@, status@, body@)]);
                        return self.pick(notes);
                    },
                    CheckEvent::Answer(answer) => {
                        let ghost list = releases(answer.releases@);
                        return match latest_release(&answer.releases) {
                            Some((i, version)) => {
                                assert(list[i as int] == answer.releases@[i as int]@);
                                let release: Release = answer.releases[i].duplicate();
                                self.walk(name, release, version, 0, notes)
                            },
                            None => self.pick(notes),
                        };
                    },
                    _ => {},
                }
            },
            Stage::Looking { name, release, version, next, conflict, file_name } => {
                match event {
                    CheckEvent::FilePresent(present) => {
                        let name: String = name.clone();
                        let conflict: String = conflict.clone();
                        if present {
                            let message: String = owned("FATAL: Mod '").concat(name.as_str()).concat(
                                "' is incompatible with the locally present mod '",
                            ).concat(conflict.as_str()).concat(
                                "'. Please resolve this conflict manually by removing one of them.",
                            );
                            self.stage = Stage::Over;
                            return CheckStep { notes, action: CheckAction::Conflict { message } };
                        }
                        let release: Release = release.duplicate();
                        let version: ModVersion = version.duplicate();
                        let next: usize = *next;
                        let file_name: String = file_name.clone();
                        say(
                            &mut notes,
                            owned("Warning: Conflicting file '").concat(file_name.as_str()).concat(
                                "' was not found on disk. The manifest is stale. Removing entry for '",
                            ).concat(conflict.as_str()).concat("' from manifest."),
                        );
                        let ghost before = self@;
                        self.manifest.remove(conflict.as_str());
                        if self.queue.remove(conflict.as_str()) {
                            say(
                                &mut notes,
                                owned("Also removed conflicting mod '").concat(
                                    conflict.as_str(),
                                ).concat("' from the download queue."),
                            );
                        }
                        assert(lines(notes@) =~= gone_lines(before, conflict@, file_name@));
                        assert(self@ =~= without(before, conflict@));
                        return self.walk(name, release, version, next, notes);
                    },
                    _ => {},
                }
            },
            Stage::Over => {},
        }
        CheckStep { notes, action: CheckAction::Unexpected }
    }
}

impl UpdateCheck {
    #[verifier::type_invariant]
    spec fn consistent(self) -> bool {
        well_formed(self.state@)
    }

    /// The check of a manifest, which asks about each of its mods.
    pub fn new(manifest: VersionManifest) -> (check: Self)
        ensures
            check@.manifest == manifest@,
            check@.queue == Map::<Seq<char>, FileToDownloadView>::empty(),
            enumerates(check@.todo, manifest@),
            check@.done == Set::<Seq<char>>::empty(),
            check@.stage == StageView::Ready,
    {
        let todo: Vec<String> = manifest.keys();
        UpdateCheck { state: CheckState::new(manifest, todo) }
    }

    /// The local mods as the check left them.
    pub fn into_manifest(self) -> (manifest: VersionManifest)
        ensures
            manifest@ == self@.manifest,
    {
        self.state.manifest
    }
}

/// Takes the check one step further: handles what happened and says what is to
/// be done next.
pub fn check_for_updates(check: &mut UpdateCheck, event: CheckEvent) -> (r: CheckStep)
    ensures
        well_formed(final(check)@),
        final(check)@ == step(old(check)@, event).check,
        matches_action(r.action, step(old(check)@, event).action),
        lines(r.notes@) == step(old(check)@, event).notes,
        in_hand(old(check)@, event) matches Some(found) ==> known_is_fetched(
            old(check)@.manifest,
            found.0,
            found.1,
            final(check)@,
        ),
{
    proof {
        use_type_invariant(&*check);
    }
    let mut state: CheckState = CheckState::new(StringMap::new(), Vec::new());
    std::mem::swap(&mut state, &mut check.state);
    let r: CheckStep = state.step(event);
    check.state = state;
    r
}

} // verus!

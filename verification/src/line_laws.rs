//! What is said on the terminal, stated on the texts themselves.

use vstd::prelude::*;
use crate::api::{dependency_name, is_builtin, kind_of, DependencyKind};
use crate::automated::{
    download_error_line, follows, list_line, AutoEvent, AutoStageView, AutoStepView,
};
use crate::clock::Timestamp;
use crate::folder_laws::holds_mod;
use crate::manifest::{file_lines, scan_lines, source_line, ScannedFileView};
use crate::models::{releases, FileToDownloadView, ReleaseView};
use crate::new_mods::{already_line, reply_line, validating_line, ModReply};
use crate::notes::{err, out, NoteView, Stream};
use crate::text_laws::law_split_last;
use crate::update::{
    conflict_in, dependency_lines, gone_lines, needs_download, queue_line, step, walk, wanted,
    without, CheckActionView, CheckEvent, CheckView, StageView, StepView,
};
use crate::update_laws::{looked_until, placed};
use crate::update_outcome_laws::release_in_hand;
use crate::version::{newest, semver_parse, version_of, version_text, ModVersionView};

verus! {

/// An ordinary line goes to the output, a warning to the error stream, and both
/// hold their text.
pub proof fn law_streams(text: Seq<char>)
    ensures
        out(text).stream == Stream::Output && out(text).text == text,
        err(text).stream == Stream::Error && err(text).text == text,
{
}

/// Whether a step says what it does next: that it asks about a mod, or that it
/// looks after a conflict of the mod in hand.
pub open spec fn says_what_is_next(s: StepView) -> bool {
    &&& s.action matches CheckActionView::Fetch { name, .. } ==> s.notes.len() > 0
        && s.notes.last() == out("Checking status for '"@ + name + "'..."@)
    &&& s.action is LookFor && s.check.stage is Looking ==> s.notes.len() > 0 && s.notes.last()
        == out(
        "Conflict Detected: Mod '"@ + s.check.stage->Looking_name + "' lists '"@
            + s.check.stage->Looking_conflict + "' as an incompatible dependency."@,
    )
}

/// Whether a step says of dependency `i` of a release of `name` that it is
/// optional and ignored, or needed and to be asked about.
pub open spec fn says_of_dependency(
    done: Set<Seq<char>>,
    name: Seq<char>,
    release: ReleaseView,
    i: int,
    notes: Seq<NoteView>,
) -> bool {
    match dependency_name(release.dependencies[i]) {
        Some(n) => {
            &&& kind_of(release.dependencies[i]) == DependencyKind::Optional ==> notes.contains(
                out("'"@ + name + "' has an optional dependency on '"@ + n + "', ignoring."@),
            )
            &&& kind_of(release.dependencies[i]) == DependencyKind::Required && !done.contains(n)
                && !is_builtin(n) ==> notes.contains(
                out("'"@ + name + "' depends on '"@ + n + "', queuing for check..."@),
            )
        },
        None => true,
    }
}

/// Whether a new download of `name` is announced with its version.
pub open spec fn says_what_is_queued(
    before: CheckView,
    name: Seq<char>,
    version: ModVersionView,
    s: StepView,
) -> bool {
    !before.queue.contains_key(name) && s.check.queue.contains_key(name) ==> s.notes.contains(
        out("Queueing '"@ + name + "' version "@ + version_text(version) + " for download."@),
    )
}

proof fn lemma_prefix_contains(less: Seq<NoteView>, more: Seq<NoteView>, line: NoteView)
    requires
        less.is_prefix_of(more),
        less.contains(line),
    ensures
        more.contains(line),
{
    let i = choose|i: int| 0 <= i < less.len() && less[i] == line;
    assert(more[i] == line);
}

proof fn lemma_walk_says(
    check: CheckView,
    name: Seq<char>,
    release: ReleaseView,
    version: ModVersionView,
    next: int,
    notes: Seq<NoteView>,
)
    requires
        0 <= next <= release.dependencies.len(),
    ensures
        ({
            let s = walk(check, name, release, version, next, notes);
            &&& notes.is_prefix_of(s.notes)
            &&& says_what_is_next(s)
            &&& says_what_is_queued(check, name, version, s)
            &&& forall|i: int|
                next <= i < looked_until(s, release) && i < release.dependencies.len()
                    ==> #[trigger] says_of_dependency(check.done, name, release, i, s.notes)
        }),
    decreases release.dependencies.len() - next,
{
    let s = walk(check, name, release, version, next, notes);
    if next == release.dependencies.len() {
        if needs_download(check.manifest, name, version) == Ok::<bool, Seq<char>>(true) {
            let more = notes.push(queue_line(name, version));
            assert(more[notes.len() as int] == queue_line(name, version));
            assert(more.is_prefix_of(s.notes));
            lemma_prefix_contains(more, s.notes, queue_line(name, version));
            assert(notes.is_prefix_of(s.notes));
        }
    } else {
        let dependency = release.dependencies[next];
        if conflict_in(check.manifest, dependency) is None {
            let after = CheckView {
                todo: match wanted(check.done, dependency) {
                    Some(n) => check.todo.push(n),
                    None => check.todo,
                },
                ..check
            };
            let said = dependency_lines(check.done, name, dependency);
            lemma_walk_says(after, name, release, version, next + 1, notes + said);
            assert(notes.is_prefix_of(notes + said));
            assert(notes.is_prefix_of(s.notes));
            assert(says_of_dependency(check.done, name, release, next, s.notes)) by {
                if said.len() > 0 {
                    assert((notes + said)[notes.len() as int] == said[0]);
                    lemma_prefix_contains(notes + said, s.notes, said[0]);
                }
            }
        }
    }
}

/// While a check goes through a release it says of each dependency that it is
/// optional and ignored, or needed and to be asked about; it announces each new
/// download with its version, each conflict that it looks after and each mod that
/// it asks about.
pub proof fn law_check_says(check: CheckView, event: CheckEvent, i: int)
    requires
        check.stage is Asked,
        event is Answer,
        newest(releases(event->Answer_0.releases@)) is Some,
    ensures
        ({
            let release = release_in_hand(check, event);
            let name = check.stage->Asked_name;
            let s = step(check, event);
            &&& says_what_is_next(s)
            &&& says_what_is_queued(check, name, version_of(release), s)
            &&& 0 <= i < looked_until(s, release) && i < release.dependencies.len()
                ==> says_of_dependency(check.done, name, release, i, s.notes)
        }),
{
    let release = release_in_hand(check, event);
    lemma_walk_says(
        check,
        check.stage->Asked_name,
        release,
        version_of(release),
        0,
        Seq::empty(),
    );
}

/// A conflict whose file is not there is reported first, and so is a download
/// that goes with it; then the check goes on as before.
pub proof fn law_stale_conflict_is_reported(check: CheckView)
    requires
        check.stage is Looking,
        placed(check),
    ensures
        ({
            let s = step(check, CheckEvent::FilePresent(false));
            let conflict = check.stage->Looking_conflict;
            &&& s.notes.len() > 0
            &&& s.notes[0] == out(
                "Warning: Conflicting file '"@ + check.stage->Looking_file_name
                    + "' was not found on disk. The manifest is stale. Removing entry for '"@
                    + conflict + "' from manifest."@,
            )
            &&& check.queue.contains_key(conflict) ==> s.notes.len() > 1 && s.notes[1] == out(
                "Also removed conflicting mod '"@ + conflict + "' from the download queue."@,
            )
            &&& says_what_is_next(s)
        }),
{
    if let StageView::Looking { name, release, version, next, conflict, file_name } = check.stage {
        let said = gone_lines(check, conflict, file_name);
        lemma_walk_says(without(check, conflict), name, release, version, next, said);
        let s = step(check, CheckEvent::FilePresent(false));
        assert(s.notes[0] == said[0]);
        if check.queue.contains_key(conflict) {
            assert(s.notes[1] == said[1]);
        }
    }
}

/// The start of a check is announced, and a portal that cannot be reached or
/// refuses to answer is warned about, with the mod and the reason.
pub proof fn law_check_warns(check: CheckView, event: CheckEvent)
    ensures
        ({
            let s = step(check, event);
            &&& check.stage is Ready && event is Begin ==> s.notes.len() > 0 && s.notes[0] == out(
                "\nChecking for updates and dependencies..."@,
            ) && says_what_is_next(s)
            &&& check.stage is Asked && event is NoReply ==> s.notes.len() > 0 && s.notes[0] == err(
                "Warning: Request to check '"@ + check.stage->Asked_name + "' failed: "@
                    + event->error@,
            ) && says_what_is_next(s)
            &&& check.stage is Asked && event is Refused ==> s.notes.len() > 0 && s.notes[0] == err(
                "Warning: API check for '"@ + check.stage->Asked_name + "' failed with status: "@
                    + event->status@ + ". Response: "@ + event->body@,
            ) && says_what_is_next(s)
        }),
{
}

/// What is said about new mods: which are there already, which are asked about,
/// and what the portal said.
pub proof fn law_new_mods_lines(name: Seq<char>, reply: ModReply)
    ensures
        already_line(name) == out("Mod '"@ + name + "' already exists in the manifest, skipping."@),
        validating_line(name) == out("Validating new mod: '"@ + name + "'..."@),
        match reply {
            ModReply::Known => reply_line(name, reply) == out(
                "'"@ + name + "' is a valid mod. Adding to manifest for update check."@,
            ),
            ModReply::Unknown { status, body } => reply_line(name, reply) == err(
                "Error: Could not find mod '"@ + name + "' on the portal (Status: "@ + status@
                    + "). It will be left in "@ + "New_mods.json"@ + ". Response: "@ + body@,
            ),
        },
{
}

/// What is said about a file of the folder: a mod that was found is named with
/// its version, a version that cannot be read and a name without an underscore
/// are warned about, and the program's own files are passed over.
pub proof fn law_folder_lines(
    list: Seq<ScannedFileView>,
    file: ScannedFileView,
    name: Seq<char>,
    version: Seq<char>,
)
    ensures
        scan_lines(list.push(file)) == scan_lines(list) + file_lines(file),
        holds_mod(file, name, version) ==> file_lines(file) == seq![
            out(
                "Found: '"@ + file.full_name + "'. Adding to manifest as name: '"@ + name
                    + "', version: "@ + version + "."@,
            ),
        ],
        file.full_name == "versions.json"@ || file.full_name == "config.json"@ ==> file_lines(
            file,
        ).len() == 0,
        file.full_name != "versions.json"@ && file.full_name != "config.json"@ && file.stem == Some(
            name + seq!['_'] + version,
        ) && !version.contains('_') && semver_parse(version) is Err ==> file_lines(file) == seq![
            err(
                "Warning: Could not parse version '"@ + version + "' for '"@ + file.full_name
                    + "'. Skipping."@,
            ),
        ],
        file.full_name != "versions.json"@ && file.full_name != "config.json"@ && file.stem is Some
            && !(file.stem->0).contains('_') ==> file_lines(file) == seq![
            err(
                "Warning: Skipping '"@ + file.full_name
                    + "' as it does not match NAME_VERSION.ext format."@,
            ),
        ],
{
    law_split_last(
        name,
        '_',
        version,
        if file.stem is Some {
            file.stem->0
        } else {
            Seq::empty()
        },
    );
    assert(list.push(file).drop_last() =~= list);
}

/// What is said before the manifest is read or built, about the list of new mods
/// and about a download that failed.
pub proof fn law_other_lines(file: FileToDownloadView, error: Seq<char>)
    ensures
        source_line(true) == out(
            "Loading local version manifest from "@ + "./"@ + "versions.json"@ + "..."@,
        ),
        source_line(false) == out(
            "Version manifest not found. Creating from contents of '"@ + "./"@ + "'..."@,
        ),
        list_line(true) == out("Found '"@ + "New_mods.json"@ + "', processing new mods..."@),
        list_line(false) == out("No '"@ + "New_mods.json"@ + "' file found, skipping."@),
        download_error_line(file, error) == err(
            "ERROR downloading "@ + file.full_new_name + ": "@ + error,
        ),
{
}

/// What an automated run says at its start and at its end.
pub proof fn law_run_says(
    stage: AutoStageView,
    event: AutoEvent,
    now: Timestamp,
    next: AutoStepView,
)
    requires
        follows(stage, event, now, next),
    ensures
        stage is Ready && event is Begin && event->config_exists ==> next.notes == seq![
            out("Loading configuration from '"@ + "config.json"@ + "'..."@),
        ],
        stage is Ready && event is Begin && !event->config_exists ==> next.notes == seq![
            out(
                "Configuration file '"@ + "config.json"@ + "' not found. Creating a template..."@,
            ),
        ],
        stage is CreatingTemplate && event is Saved ==> next.notes == seq![
            out("\nA template config has been created. Launching TUI so you can configure it."@),
        ],
        next.action is SaveManifest && (stage is Downloading || stage is Checking)
            ==> next.notes.len() > 0 && next.notes.last() == out("\nUpdate process complete."@),
        stage is Downloading && event is Downloaded && event->Downloaded_0 is Err
            ==> next.notes.len() > 0 && next.notes[0] == err(
            "ERROR downloading "@ + stage->Downloading_file.full_new_name + ": "@
                + (event->Downloaded_0)->Err_0@,
        ),
        stage is SavingManifest && event is Saved && stage->SavingManifest_failed is Some
            ==> next.notes == seq![
            out("Updating '"@ + "New_mods.json"@ + "' with any remaining invalid mods..."@),
        ],
        stage is WritingNewMods && event is Saved && stage->WritingNewMods_failed.len() == 0
            ==> next.notes == seq![
            out(
                "'"@ + "New_mods.json"@
                    + "' has been cleared as all mods were processed successfully."@,
            ),
        ],
        stage is WritingNewMods && event is Saved && stage->WritingNewMods_failed.len() > 0
            ==> next.notes == seq![
            out(
                "'"@ + "New_mods.json"@ + "' has been updated. Please correct the invalid entries."@,
            ),
        ],
{
}

} // verus!

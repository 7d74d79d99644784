//! What holds of every update check, whatever the portal answers.

use vstd::prelude::*;
use crate::api::{dependency_name, is_builtin, kind_of, DependencyKind};
use crate::manifest::with_download;
use crate::models::{releases, ManifestView, ReleaseView};
use crate::notes::NoteView;
use crate::string_map::enumerates;
use crate::update::{
    begin_line, conflict_in, dependency_lines, download_of, extension_for, gone_lines,
    mod_file_name, needs_download, next_position, no_reply_line, pick, queue_line, refused_line,
    settle, step, walk, wanted, without, CheckActionView, CheckEvent, CheckView, StageView, StepView,
};
use crate::version::{newest, semver_parse, version_of, version_text, ModVersionView};

verus! {

/// The mods that were asked about or still will be.
pub open spec fn covered(check: CheckView) -> Set<Seq<char>> {
    check.done.union(check.todo.to_set())
}

/// The mod whose answer is being handled.
pub open spec fn current(check: CheckView) -> Option<Seq<char>> {
    match check.stage {
        StageView::Asked { name } => Some(name),
        StageView::Looking { name, .. } => Some(name),
        _ => None,
    }
}

/// The dependencies that are still to be looked at are among those of the
/// release in hand.
pub open spec fn placed(check: CheckView) -> bool {
    check.stage matches StageView::Looking { next, release, .. } ==> 0 <= next
        <= release.dependencies.len()
}

/// The mod in hand and all mods to be downloaded are ones that the portal was
/// asked about.
pub open spec fn sound(check: CheckView) -> bool {
    &&& placed(check)
    &&& current(check) matches Some(n) ==> check.done.contains(n)
    &&& check.queue.dom().subset_of(check.done)
}

/// What a step may do to a check that handles `name`.
pub open spec fn lawful(check: CheckView, name: Option<Seq<char>>, s: StepView) -> bool {
    // The portal is asked only about mods that it was not asked about before.
    &&& s.action matches CheckActionView::Fetch { name: asked, .. } ==> !check.done.contains(asked)
        && s.check.done == check.done.insert(asked) && s.check.stage == (StageView::Asked {
        name: asked,
    })
    &&& s.action !is Fetch ==> s.check.done == check.done
    // No mod is forgotten, and built-in ones are never added.
    &&& covered(check).subset_of(covered(s.check))
    &&& forall|n: Seq<char>| #[trigger]
        covered(s.check).contains(n) && !covered(check).contains(n) ==> !is_builtin(n)
    // At the end every mod was asked about.
    &&& s.action is Finished ==> covered(s.check) == s.check.done
    &&& s.action matches CheckActionView::Finished { queue } ==> queue == s.check.queue
    // The manifest gains nothing and loses no version.
    &&& s.check.manifest.submap_of(check.manifest)
    // A download is dropped or kept as it is; a new one is of the mod in hand.
    &&& forall|k: Seq<char>| #[trigger]
        s.check.queue.contains_key(k) ==> (check.queue.contains_key(k) && s.check.queue[k]
            == check.queue[k]) || name == Some(k)
    // A check that waits for a file stays with the mod in hand.
    &&& s.check.stage matches StageView::Looking { name: n, .. } ==> name == Some(n)
    &&& s.check.stage is Asked ==> s.action is Fetch || s.action is Unexpected
    &&& s.action is Unexpected ==> s.check.stage == check.stage
    &&& placed(s.check)
}

pub(crate) proof fn lemma_next_position(todo: Seq<Seq<char>>, done: Set<Seq<char>>)
    ensures
        next_position(todo, done) matches Some(i) ==> 0 <= i < todo.len() && !done.contains(todo[i])
            && forall|j: int| i < j < todo.len() ==> done.contains(#[trigger] todo[j]),
        next_position(todo, done) is None ==> forall|j: int|
            0 <= j < todo.len() ==> done.contains(#[trigger] todo[j]),
    decreases todo.len(),
{
    if todo.len() > 0 && done.contains(todo.last()) {
        let front = todo.drop_last();
        lemma_next_position(front, done);
        assert forall|j: int| 0 <= j < front.len() implies #[trigger] todo[j] == front[j] by {}
    }
}

pub(crate) proof fn lemma_pick(check: CheckView, name: Option<Seq<char>>, notes: Seq<NoteView>)
    ensures
        lawful(check, name, pick(check, notes)),
{
    lemma_next_position(check.todo, check.done);
    let s = pick(check, notes);
    match next_position(check.todo, check.done) {
        Some(i) => {
            let n = check.todo[i];
            assert forall|x: Seq<char>| covered(check).contains(x) == covered(s.check).contains(
                x,
            ) by {
                if check.todo.contains(x) {
                    let j = choose|j: int| 0 <= j < check.todo.len() && check.todo[j] == x;
                    if j < i {
                        assert(s.check.todo[j] == x);
                    } else if j > i {
                        assert(check.done.contains(check.todo[j]));
                    }
                }
                if s.check.todo.contains(x) {
                    let j = choose|j: int| 0 <= j < s.check.todo.len() && s.check.todo[j] == x;
                    assert(check.todo[j] == x);
                }
                assert(check.todo.contains(n));
            }
            assert(covered(check) =~= covered(s.check));
        },
        None => {
            assert forall|x: Seq<char>| covered(check).contains(x) == s.check.done.contains(x) by {
                if check.todo.contains(x) {
                    let j = choose|j: int| 0 <= j < check.todo.len() && check.todo[j] == x;
                    assert(check.done.contains(check.todo[j]));
                }
            }
            assert(covered(check) =~= s.check.done);
            assert(covered(s.check) =~= s.check.done);
        },
    }
}

proof fn lemma_settle(
    check: CheckView,
    name: Seq<char>,
    release: ReleaseView,
    version: ModVersionView,
    notes: Seq<NoteView>,
)
    ensures
        lawful(check, Some(name), settle(check, name, release, version, notes)),
{
    match needs_download(check.manifest, name, version) {
        Err(_) => {},
        Ok(false) => {
            lemma_pick(check, Some(name), notes);
        },
        Ok(true) => {
            let with = CheckView {
                queue: check.queue.insert(
                    name,
                    download_of(check.manifest, name, release, version),
                ),
                ..check
            };
            lemma_pick(with, Some(name), notes.push(queue_line(name, version)));
        },
    }
}

/// Up to where the dependencies of `release` were looked at after `s`.
pub open spec fn looked_until(s: StepView, release: ReleaseView) -> int {
    match s.check.stage {
        StageView::Looking { next, .. } => next,
        _ => release.dependencies.len() as int,
    }
}

/// The mod that a release cannot do without and that does not come with the
/// game.
pub open spec fn needs(dependency: Seq<char>) -> Option<Seq<char>> {
    match dependency_name(dependency) {
        Some(n) => if kind_of(dependency) == DependencyKind::Required && !is_builtin(n) {
            Some(n)
        } else {
            None
        },
        None => None,
    }
}

proof fn lemma_walk(
    check: CheckView,
    name: Seq<char>,
    release: ReleaseView,
    version: ModVersionView,
    next: int,
    notes: Seq<NoteView>,
)
    requires
        0 <= next <= release.dependencies.len(),
    ensures
        lawful(check, Some(name), walk(check, name, release, version, next, notes)),
        forall|i: int|
            next <= i < looked_until(walk(check, name, release, version, next, notes), release)
                && needs(#[trigger] release.dependencies[i]) is Some ==> covered(
                walk(check, name, release, version, next, notes).check,
            ).contains(needs(release.dependencies[i])->Some_0),
    decreases release.dependencies.len() - next,
{
    let s = walk(check, name, release, version, next, notes);
    if next == release.dependencies.len() {
        lemma_settle(check, name, release, version, notes);
    } else {
        let dependency = release.dependencies[next];
        match conflict_in(check.manifest, dependency) {
            Some(conflict) => {
                assert(needs(dependency) is None);
            },
            None => {
                let after = CheckView {
                    todo: match wanted(check.done, dependency) {
                        Some(n) => check.todo.push(n),
                        None => check.todo,
                    },
                    ..check
                };
                let said = notes + dependency_lines(check.done, name, dependency);
                lemma_walk(after, name, release, version, next + 1, said);
                assert(s == walk(after, name, release, version, next + 1, said));
                assert forall|x: Seq<char>| #[trigger]
                    covered(after).contains(x) == (covered(check).contains(x) || wanted(
                        check.done,
                        dependency,
                    ) == Some(x)) by {
                    if let Some(n) = wanted(check.done, dependency) {
                        assert(after.todo[check.todo.len() as int] == n);
                        if check.todo.contains(x) {
                            let j = choose|j: int| 0 <= j < check.todo.len() && check.todo[j] == x;
                            assert(after.todo[j] == x);
                        }
                        if after.todo.contains(x) {
                            let j = choose|j: int| 0 <= j < after.todo.len() && after.todo[j] == x;
                            if j < check.todo.len() {
                                assert(check.todo[j] == x);
                            }
                        }
                    }
                }
                assert(covered(check).subset_of(covered(after)));
                if let Some(n) = needs(dependency) {
                    assert(covered(after).contains(n));
                }
            },
        }
    }
}

/// Every step of a check keeps to the rules of `lawful`: the portal is asked
/// about a mod at most once, no mod is forgotten, mods that come with the game
/// are never added, the manifest only loses entries, and only the mod in hand
/// can become a download.
pub proof fn law_step(check: CheckView, event: CheckEvent)
    requires
        placed(check),
    ensures
        lawful(check, current(check), step(check, event)),
        sound(check) ==> sound(step(check, event).check),
{
    match (check.stage, event) {
        (StageView::Ready, CheckEvent::Begin) => {
            lemma_pick(check, None, seq![begin_line()]);
        },
        (StageView::Asked { name }, CheckEvent::NoReply { error }) => {
            lemma_pick(check, Some(name), seq![no_reply_line(name, error@)]);
        },
        (StageView::Asked { name }, CheckEvent::Refused { status, body }) => {
            lemma_pick(check, Some(name), seq![refused_line(name, status@, body@)]);
        },
        (StageView::Asked { name }, CheckEvent::Answer(answer)) => {
            let list = releases(answer.releases@);
            match newest(list) {
                None => {
                    lemma_pick(check, Some(name), Seq::empty());
                },
                Some(i) => {
                    lemma_walk(check, name, list[i], version_of(list[i]), 0, Seq::empty());
                },
            }
        },
        (
            StageView::Looking { name, release, version, next, conflict, file_name },
            CheckEvent::FilePresent(present),
        ) => {
            if !present {
                let left = without(check, conflict);
                assert(covered(left) =~= covered(check));
                lemma_walk(
                    left,
                    name,
                    release,
                    version,
                    next,
                    gone_lines(check, conflict, file_name),
                );
                let s = step(check, event);
                assert(s.check.manifest.submap_of(left.manifest));
                assert(s.check.manifest.submap_of(check.manifest)) by {
                    assert forall|k: Seq<char>| #[trigger]
                        s.check.manifest.dom().contains(k) implies check.manifest.dom().contains(k)
                        && s.check.manifest[k] == check.manifest[k] by {
                        assert(left.manifest.dom().contains(k));
                    }
                }
                assert forall|k: Seq<char>| #[trigger] s.check.queue.contains_key(k) implies (
                check.queue.contains_key(k) && s.check.queue[k] == check.queue[k]) || Some(name)
                    == Some(k) by {
                    if left.queue.contains_key(k) {
                        assert(left.queue[k] == check.queue[k]);
                    }
                }
            }
        },
        _ => {},
    }
    let s = step(check, event);
    if sound(check) {
        assert forall|k: Seq<char>| s.check.queue.dom().contains(k) implies s.check.done.contains(
            k,
        ) by {
            assert(s.check.queue.contains_key(k));
            if check.queue.contains_key(k) {
                assert(check.queue.dom().contains(k));
            }
        }
        assert(current(s.check) matches Some(n) ==> s.check.done.contains(n));
    }
}

/// After an answer is handled, every mod that the newest release needs, as far
/// as its dependencies were looked at, was asked about or will be.
pub proof fn law_needed_mods_are_covered(check: CheckView, event: CheckEvent, i: int)
    requires
        check.stage is Asked,
        event is Answer,
        newest(releases(event->Answer_0.releases@)) is Some,
    ensures
        ({
            let list = releases(event->Answer_0.releases@);
            let release = list[newest(list)->Some_0];
            let s = step(check, event);
            0 <= i < looked_until(s, release) && needs(release.dependencies[i]) is Some ==> covered(
                s.check,
            ).contains(needs(release.dependencies[i])->Some_0)
        }),
{
    let list = releases(event->Answer_0.releases@);
    let release = list[newest(list)->Some_0];
    lemma_walk(check, check.stage->Asked_name, release, version_of(release), 0, Seq::empty());
}

/// The same holds when the check goes on behind a conflict that turned out to be
/// stale.
pub proof fn law_needed_mods_are_covered_later(check: CheckView, i: int)
    requires
        check.stage is Looking,
        placed(check),
    ensures
        ({
            let release = check.stage->Looking_release;
            let s = step(check, CheckEvent::FilePresent(false));
            check.stage->Looking_next <= i < looked_until(s, release) && needs(
                release.dependencies[i],
            ) is Some ==> covered(s.check).contains(needs(release.dependencies[i])->Some_0)
        }),
{
    if let StageView::Looking { name, release, version, next, conflict, file_name } = check.stage {
        lemma_walk(
            without(check, conflict),
            name,
            release,
            version,
            next,
            gone_lines(check, conflict, file_name),
        );
    }
}

proof fn lemma_walk_decides(
    check: CheckView,
    name: Seq<char>,
    release: ReleaseView,
    version: ModVersionView,
    next: int,
    notes: Seq<NoteView>,
)
    requires
        0 <= next <= release.dependencies.len(),
    ensures
        decided(
            check,
            name,
            release,
            version,
            walk(check, name, release, version, next, notes),
        ),
    decreases release.dependencies.len() - next,
{
    if next < release.dependencies.len() {
        let dependency = release.dependencies[next];
        if conflict_in(check.manifest, dependency) is None {
            let after = CheckView {
                todo: match wanted(check.done, dependency) {
                    Some(n) => check.todo.push(n),
                    None => check.todo,
                },
                ..check
            };
            lemma_walk_decides(
                after,
                name,
                release,
                version,
                next + 1,
                notes + dependency_lines(check.done, name, dependency),
            );
        }
    }
}

/// Once all dependencies of `release` were looked at, `name` is to be downloaded
/// exactly if it is missing or older, and nothing else of the downloads
/// changes; a local version that cannot be read fails the check.
pub open spec fn decided(
    check: CheckView,
    name: Seq<char>,
    release: ReleaseView,
    version: ModVersionView,
    s: StepView,
) -> bool {
    s.check.stage is Looking || match needs_download(check.manifest, name, version) {
        Ok(true) => s.check.queue == check.queue.insert(
            name,
            download_of(check.manifest, name, release, version),
        ),
        Ok(false) => s.check.queue == check.queue,
        Err(e) => s.action == (CheckActionView::Failed { error: e }),
    }
}

/// The answer about a mod leads to the download of its newest release exactly
/// if the mod is missing or its local version is older.
pub proof fn law_download_decision(check: CheckView, event: CheckEvent)
    requires
        check.stage is Asked,
        event is Answer,
        newest(releases(event->Answer_0.releases@)) is Some,
    ensures
        ({
            let list = releases(event->Answer_0.releases@);
            let release = list[newest(list)->Some_0];
            decided(
                check,
                check.stage->Asked_name,
                release,
                version_of(release),
                step(check, event),
            )
        }),
{
    let list = releases(event->Answer_0.releases@);
    let release = list[newest(list)->Some_0];
    lemma_walk_decides(
        check,
        check.stage->Asked_name,
        release,
        version_of(release),
        0,
        Seq::empty(),
    );
}

/// An answer without a readable version changes neither the manifest nor the
/// downloads.
pub proof fn law_no_readable_release(check: CheckView, event: CheckEvent)
    requires
        check.stage is Asked,
        event is Answer,
        newest(releases(event->Answer_0.releases@)) is None,
    ensures
        step(check, event).check.manifest == check.manifest,
        step(check, event).check.queue == check.queue,
{
}

/// A mod that excludes one of the manifest stops the program if the other's file
/// is there. If it is not, the other is dropped from the manifest and from the
/// downloads, unless it is the very mod whose newest release is at hand.
pub proof fn law_conflict(check: CheckView)
    requires
        check.stage is Looking,
        placed(check),
    ensures
        step(check, CheckEvent::FilePresent(true)).action is Conflict,
        step(check, CheckEvent::FilePresent(true)).check.manifest == check.manifest,
        ({
            let conflict = check.stage->Looking_conflict;
            let s = step(check, CheckEvent::FilePresent(false));
            &&& !s.check.manifest.contains_key(conflict)
            &&& s.check.queue.contains_key(conflict) ==> conflict == check.stage->Looking_name
        }),
{
    if let StageView::Looking { name, release, version, next, conflict, file_name } = check.stage {
        let left = without(check, conflict);
        lemma_walk(left, name, release, version, next, gone_lines(check, conflict, file_name));
        let s = step(check, CheckEvent::FilePresent(false));
        assert(!left.manifest.contains_key(conflict));
        assert(s.check.manifest.submap_of(left.manifest));
        if s.check.manifest.dom().contains(conflict) {
            assert(left.manifest.dom().contains(conflict));
        }
    }
}

/// The file of a download is named after the mod, the version that the portal
/// gives and the extension of the file that it replaces.
pub proof fn law_download_name(
    manifest: ManifestView,
    name: Seq<char>,
    release: ReleaseView,
    version: ModVersionView,
)
    requires
        version_text(version) == release.version,
    ensures
        download_of(manifest, name, release, version).full_new_name == mod_file_name(
            name,
            download_of(manifest, name, release, version).new_version,
            extension_for(manifest, name),
        ),
{
}

/// A mod whose download was entered in the manifest is up to date: the same
/// release is not downloaded again.
pub proof fn law_recorded_is_current(
    manifest: ManifestView,
    name: Seq<char>,
    release: ReleaseView,
    extension: Seq<char>,
)
    requires
        semver_parse(release.version) is Ok,
    ensures
        needs_download(
            with_download(
                manifest,
                download_of(manifest, name, release, version_of(release)),
                extension,
            ),
            name,
            version_of(release),
        ) == Ok::<bool, Seq<char>>(false),
{
}

/// The check after a series of events.
pub open spec fn run(check: CheckView, events: Seq<CheckEvent>) -> CheckView
    decreases events.len(),
{
    if events.len() == 0 {
        check
    } else {
        step(run(check, events.drop_last()), events.last()).check
    }
}

/// Over any series of events the mods asked about only grow, no mod is
/// forgotten, and the manifest only loses entries.
pub proof fn law_run(check: CheckView, events: Seq<CheckEvent>)
    requires
        sound(check),
    ensures
        sound(run(check, events)),
        check.done.subset_of(run(check, events).done),
        covered(check).subset_of(covered(run(check, events))),
        run(check, events).manifest.submap_of(check.manifest),
    decreases events.len(),
{
    if events.len() > 0 {
        let before = run(check, events.drop_last());
        law_run(check, events.drop_last());
        law_step(before, events.last());
        let after = step(before, events.last()).check;
        assert forall|k: Seq<char>| #[trigger]
            after.manifest.dom().contains(k) implies check.manifest.dom().contains(k)
            && after.manifest[k] == check.manifest[k] by {
            assert(before.manifest.dom().contains(k));
        }
    }
}

proof fn lemma_run_done_grows(check: CheckView, events: Seq<CheckEvent>, i: int, j: int)
    requires
        sound(check),
        0 <= i <= j <= events.len(),
    ensures
        run(check, events.take(i)).done.subset_of(run(check, events.take(j)).done),
    decreases j - i,
{
    if i < j {
        lemma_run_done_grows(check, events, i, j - 1);
        assert(events.take(j).drop_last() =~= events.take(j - 1));
        law_run(check, events.take(j - 1));
        law_step(run(check, events.take(j - 1)), events[j - 1]);
    }
}

/// The portal is never asked twice about a mod in one check.
pub proof fn law_asked_once(check: CheckView, events: Seq<CheckEvent>, i: int, j: int)
    requires
        sound(check),
        0 <= i < j < events.len(),
        step(run(check, events.take(i)), events[i]).action is Fetch,
        step(run(check, events.take(j)), events[j]).action is Fetch,
    ensures
        step(run(check, events.take(i)), events[i]).action->Fetch_name != step(
            run(check, events.take(j)),
            events[j],
        ).action->Fetch_name,
{
    law_run(check, events.take(i));
    law_run(check, events.take(j));
    law_step(run(check, events.take(i)), events[i]);
    law_step(run(check, events.take(j)), events[j]);
    assert(events.take(i + 1).drop_last() =~= events.take(i));
    lemma_run_done_grows(check, events, i + 1, j);
}

/// A check that comes to its end has asked about every mod that was in the
/// manifest at its start.
pub proof fn law_all_mods_are_asked(check: CheckView, events: Seq<CheckEvent>, last: CheckEvent)
    requires
        sound(check),
        enumerates(check.todo, check.manifest),
        step(run(check, events), last).action is Finished,
    ensures
        check.manifest.dom().subset_of(step(run(check, events), last).check.done),
{
    law_run(check, events);
    law_step(run(check, events), last);
    assert forall|n: Seq<char>| check.manifest.dom().contains(n) implies covered(check).contains(
        n,
    ) by {
        assert(check.todo.to_set().contains(n));
    }
}

} // verus!

//! What an update check comes to for its user: which mods are downloaded, under
//! which names and from where, which files are looked for, and what becomes of
//! conflicts, stated on the answers that came in and the manifest that was there.

use vstd::prelude::*;
use crate::api::{dependency_name, kind_of, DependencyKind};
use crate::models::{
    files, releases, ApiFileResponse, FileToDownloadView, ManifestView, ReleaseView,
};
use crate::notes::NoteView;
use crate::string_map::{enumerates, lists_values};
use crate::text_laws::{larger, law_newest_is_largest, law_version_order};
use crate::update::{
    conflict_in, dependency_lines, gone_lines, matches_action, step, walk, wanted, without,
    CheckAction, CheckActionView, CheckEvent, CheckView, StageView, StepView,
};
use crate::update_laws::{current, law_step, lemma_next_position, needs, placed, run};
use crate::update_run_laws::{
    begun, law_what_a_check_finds, lemma_answers_stay, lemma_run_holds, lemma_walk_keeps_manifest,
    past,
};
use crate::version::{
    law_newest_exists, newest, semver_greater, semver_parse, version_of, version_text,
    ModVersionView,
};

verus! {

/// Whether a check that began as `check` is complete with the last event.
pub open spec fn complete(check: CheckView, events: Seq<CheckEvent>) -> bool {
    &&& begun(check)
    &&& events.len() > 0
    &&& step(run(check, events.drop_last()), events.last()).action is Finished
}

/// Whether event `k` was the portal's answer about `name`.
pub open spec fn answers_about(
    check: CheckView,
    events: Seq<CheckEvent>,
    k: int,
    name: Seq<char>,
    answer: ApiFileResponse,
) -> bool {
    &&& 0 <= k < events.len()
    &&& events[k] == CheckEvent::Answer(answer)
    &&& run(check, events.take(k)).stage == (StageView::Asked { name })
}

proof fn lemma_taken_are_gone(check: CheckView, events: Seq<CheckEvent>)
    ensures
        past(check, events).taken.subset_of(past(check, events).gone),
    decreases events.len(),
{
    if events.len() > 0 {
        lemma_taken_are_gone(check, events.drop_last());
    }
}

/// After a complete check, a mod that is still in the manifest and was answered
/// about is downloaded exactly if its newest release comes after the local
/// version; larger numbers, the major one first, always do, and the same version
/// or smaller numbers never. A mod that never was in the manifest is downloaded
/// once it was answered about. Nothing else is downloaded but what a stale
/// conflict dropped from the manifest.
pub proof fn law_newer_releases_are_downloaded(check: CheckView, events: Seq<CheckEvent>)
    requires
        complete(check, events),
    ensures
        ({
            let end = run(check, events);
            let answers = past(check, events).answers;
            &&& forall|m: Seq<char>, local: ModVersionView|
                #![trigger end.manifest[m], semver_greater(version_of(answers[m]), local)]
                end.manifest.contains_key(m) && answers.contains_key(m) && semver_parse(
                    end.manifest[m].version,
                ) == Ok::<ModVersionView, Seq<char>>(local) ==> (end.queue.contains_key(m)
                    <==> semver_greater(version_of(answers[m]), local))
            &&& forall|m: Seq<char>, local: ModVersionView|
                #![trigger end.manifest[m], larger(version_of(answers[m]), local)]
                end.manifest.contains_key(m) && answers.contains_key(m) && semver_parse(
                    end.manifest[m].version,
                ) == Ok::<ModVersionView, Seq<char>>(local) && larger(
                    version_of(answers[m]),
                    local,
                ) ==> end.queue.contains_key(m)
            &&& forall|m: Seq<char>, local: ModVersionView|
                #![trigger end.manifest[m], larger(local, version_of(answers[m]))]
                end.manifest.contains_key(m) && answers.contains_key(m) && semver_parse(
                    end.manifest[m].version,
                ) == Ok::<ModVersionView, Seq<char>>(local) && (larger(
                    local,
                    version_of(answers[m]),
                ) || version_of(answers[m]) == local) ==> !end.queue.contains_key(m)
            &&& forall|m: Seq<char>| #[trigger]
                answers.contains_key(m) && !check.manifest.contains_key(m)
                    ==> end.queue.contains_key(m)
            &&& forall|m: Seq<char>| #[trigger]
                end.queue.contains_key(m) ==> answers.contains_key(m)
        }),
{
    law_what_a_check_finds(check, events);
    lemma_taken_are_gone(check, events);
    let end = run(check, events);
    let answers = past(check, events).answers;
    let told = past(check, events);
    assert forall|m: Seq<char>, local: ModVersionView|
        #![trigger end.manifest[m], semver_greater(version_of(answers[m]), local)]
        end.manifest.contains_key(m) && answers.contains_key(m) && semver_parse(
            end.manifest[m].version,
        ) == Ok::<ModVersionView, Seq<char>>(local) implies (end.queue.contains_key(m)
        <==> semver_greater(version_of(answers[m]), local)) by {
        assert(!told.gone.contains(m));
        assert(end.queue.contains_key(m) || !end.queue.contains_key(m));
    }
    assert forall|m: Seq<char>, local: ModVersionView|
        #![trigger end.manifest[m], larger(version_of(answers[m]), local)]
        end.manifest.contains_key(m) && answers.contains_key(m) && semver_parse(
            end.manifest[m].version,
        ) == Ok::<ModVersionView, Seq<char>>(local) && larger(
            version_of(answers[m]),
            local,
        ) implies end.queue.contains_key(m) by {
        law_version_order(version_of(answers[m]), local);
    }
    assert forall|m: Seq<char>, local: ModVersionView|
        #![trigger end.manifest[m], larger(local, version_of(answers[m]))]
        end.manifest.contains_key(m) && answers.contains_key(m) && semver_parse(
            end.manifest[m].version,
        ) == Ok::<ModVersionView, Seq<char>>(local) && (larger(local, version_of(answers[m]))
            || version_of(answers[m]) == local) implies !end.queue.contains_key(m) by {
        law_version_order(local, version_of(answers[m]));
        assert(end.queue.contains_key(m) <==> semver_greater(version_of(answers[m]), local));
    }
    assert forall|m: Seq<char>| #[trigger]
        answers.contains_key(m) && !check.manifest.contains_key(
            m,
        ) implies end.queue.contains_key(m) by {
        lemma_gone_were_there(check, events, m);
        assert(end.queue.contains_key(m) || !end.queue.contains_key(m));
    }
}

/// What a stale conflict drops was in the manifest.
proof fn lemma_gone_were_there(check: CheckView, events: Seq<CheckEvent>, m: Seq<char>)
    requires
        begun(check),
    ensures
        past(check, events).gone.contains(m) ==> check.manifest.contains_key(m),
    decreases events.len(),
{
    if events.len() > 0 {
        let before = run(check, events.drop_last());
        lemma_gone_were_there(check, events.drop_last(), m);
        if !(before.stage is Over) {
            lemma_run_holds(check, events.drop_last());
        }
    }
}

/// What the portal answered about a mod counts: the answer's newest release is
/// the one that the check goes by.
proof fn lemma_answer_counts(
    check: CheckView,
    events: Seq<CheckEvent>,
    k: int,
    name: Seq<char>,
    answer: ApiFileResponse,
)
    requires
        begun(check),
        answers_about(check, events, k, name, answer),
        newest(releases(answer.releases@)) is Some,
    ensures
        past(check, events).answers.contains_key(name),
        past(check, events).answers[name] == releases(answer.releases@)[newest(
            releases(answer.releases@),
        )->0],
    decreases events.len(),
{
    if k == events.len() - 1 {
        assert(events.take(k) =~= events.drop_last());
    } else {
        let front = events.drop_last();
        assert(front.take(k) =~= events.take(k));
        lemma_answer_counts(check, front, k, name, answer);
        lemma_answers_stay(check, events);
        assert(past(check, front).answers.dom().contains(name));
    }
}

/// Whatever the portal answers about a mod of the manifest: if one of the
/// readable releases has larger numbers than the local version, a complete check
/// downloads the mod, in a version whose numbers are at least as large.
pub proof fn law_no_update_is_missed(
    check: CheckView,
    events: Seq<CheckEvent>,
    k: int,
    name: Seq<char>,
    answer: ApiFileResponse,
    j: int,
)
    requires
        complete(check, events),
        answers_about(check, events, k, name, answer),
        0 <= j < answer.releases@.len(),
        semver_parse(answer.releases@[j].version@) is Ok,
        run(check, events).manifest.contains_key(name),
        semver_parse(run(check, events).manifest[name].version) is Ok,
        larger(
            semver_parse(answer.releases@[j].version@)->Ok_0,
            semver_parse(run(check, events).manifest[name].version)->Ok_0,
        ),
    ensures
        run(check, events).queue.contains_key(name),
        ({
            let file = run(check, events).queue[name];
            &&& semver_parse(file.new_version) is Ok
            &&& !larger(
                semver_parse(answer.releases@[j].version@)->Ok_0,
                semver_parse(file.new_version)->Ok_0,
            )
            &&& exists|i: int|
                0 <= i < answer.releases@.len() && file.new_version
                    == #[trigger] answer.releases@[i].version@
        }),
{
    let list = releases(answer.releases@);
    let end = run(check, events);
    law_newest_exists(list);
    assert(list[j].version == answer.releases@[j].version@);
    let n = newest(list)->0;
    law_newest_is_largest(list, j);
    lemma_answer_counts(check, events, k, name, answer);
    law_what_a_check_finds(check, events);
    law_newer_releases_are_downloaded(check, events);
    let answers = past(check, events).answers;
    let local = semver_parse(end.manifest[name].version)->Ok_0;
    assert(version_of(list[j]) == semver_parse(answer.releases@[j].version@)->Ok_0);
    assert(larger(version_of(answers[name]), local));
    assert(end.queue.contains_key(name));
    assert(end.queue[name].new_version == answer.releases@[n].version@);
}

/// A mod that the manifest does not hold and that a readable release is answered
/// for is downloaded.
pub proof fn law_missing_mods_are_downloaded(
    check: CheckView,
    events: Seq<CheckEvent>,
    k: int,
    name: Seq<char>,
    answer: ApiFileResponse,
    j: int,
)
    requires
        complete(check, events),
        answers_about(check, events, k, name, answer),
        0 <= j < answer.releases@.len(),
        semver_parse(answer.releases@[j].version@) is Ok,
        !check.manifest.contains_key(name),
    ensures
        run(check, events).queue.contains_key(name),
{
    let list = releases(answer.releases@);
    law_newest_exists(list);
    assert(list[j].version == answer.releases@[j].version@);
    lemma_answer_counts(check, events, k, name, answer);
    law_newer_releases_are_downloaded(check, events);
}

/// The portal's answer behind an entry of the record.
proof fn lemma_answer_came(check: CheckView, events: Seq<CheckEvent>, name: Seq<char>) -> (k: int)
    requires
        past(check, events).answers.contains_key(name),
    ensures
        0 <= k < events.len(),
        events[k] is Answer,
        answers_about(check, events, k, name, events[k]->Answer_0),
        newest(releases(events[k]->Answer_0.releases@)) is Some,
        past(check, events).answers[name] == releases(events[k]->Answer_0.releases@)[newest(
            releases(events[k]->Answer_0.releases@),
        )->0],
    decreases events.len(),
{
    let front = events.drop_last();
    let last = events.len() - 1;
    assert(events.take(last) =~= front);
    if run(check, front).stage == (StageView::Asked { name }) && events.last() is Answer && newest(
        releases(events.last()->Answer_0.releases@),
    ) is Some {
        last
    } else {
        assert(past(check, front).answers.contains_key(name));
        let k: int = lemma_answer_came(check, front, name);
        assert(front.take(k) =~= events.take(k));
        k
    }
}

/// Every download of a complete check is of a release that the portal answered
/// with: it carries the mod's name, the release's version and the release's
/// address on the portal, and its file is named after the mod and the version,
/// with the extension of the file that is there or `zip`.
pub proof fn law_what_a_download_is(
    check: CheckView,
    events: Seq<CheckEvent>,
    name: Seq<char>,
) -> (at: (int, int))
    requires
        complete(check, events),
        run(check, events).queue.contains_key(name),
    ensures
        0 <= at.0 < events.len(),
        events[at.0] is Answer,
        answers_about(check, events, at.0, name, events[at.0]->Answer_0),
        0 <= at.1 < events[at.0]->Answer_0.releases@.len(),
        ({
            let file = run(check, events).queue[name];
            let release = events[at.0]->Answer_0.releases@[at.1];
            &&& semver_parse(release.version@) is Ok
            &&& file.base_name == name
            &&& file.new_version == release.version@
            &&& file.download_url == "https://mods.factorio.com"@ + release.download_url@
            &&& run(check, events).manifest.contains_key(name) ==> file.full_new_name == name
                + "_"@ + version_text(semver_parse(release.version@)->Ok_0) + "."@ + run(
                check,
                events,
            ).manifest[name].extension
            &&& !run(check, events).manifest.contains_key(name) ==> file.full_new_name == name
                + "_"@ + version_text(semver_parse(release.version@)->Ok_0) + "."@ + "zip"@
        }),
{
    law_what_a_check_finds(check, events);
    let k: int = lemma_answer_came(check, events, name);
    let list = releases(events[k]->Answer_0.releases@);
    law_newest_exists(list);
    let n: int = newest(list)->0;
    assert(list[n].version == events[k]->Answer_0.releases@[n].version@);
    assert(list[n].download_url == events[k]->Answer_0.releases@[n].download_url@);
    (k, n)
}

/// Whether dependency `i` of a release excludes `name`.
pub open spec fn excludes(release: ReleaseView, i: int, name: Seq<char>) -> bool {
    &&& 0 <= i < release.dependencies.len()
    &&& kind_of(release.dependencies[i]) == DependencyKind::Incompatible
    &&& dependency_name(release.dependencies[i]) == Some(name)
}

/// Whether a step that asks for a file asks for that of a mod of the manifest
/// which the release in hand excludes.
pub open spec fn looks_for_the_conflict(release: ReleaseView, s: StepView) -> bool {
    s.action matches CheckActionView::LookFor { file_name } ==> {
        &&& s.check.stage matches StageView::Looking { release: r, next, conflict, file_name: f, .. }
        &&& r == release
        &&& f == file_name
        &&& excludes(release, next - 1, conflict)
        &&& s.check.manifest.contains_key(conflict)
        &&& file_name == conflict + "_"@ + s.check.manifest[conflict].version + "."@
            + s.check.manifest[conflict].extension
    }
}

/// Whether the manifest holds none of the mods that the dependencies of a
/// release exclude from `from` on and before `upto`.
pub open spec fn clear(manifest: ManifestView, release: ReleaseView, from: int, upto: int) -> bool {
    forall|i: int, n: Seq<char>|
        from <= i < upto && #[trigger] excludes(release, i, n) ==> !manifest.contains_key(n)
}

proof fn lemma_walk_looks(
    check: CheckView,
    name: Seq<char>,
    release: ReleaseView,
    version: ModVersionView,
    next: int,
    notes: Seq<NoteView>,
)
    requires
        0 <= next <= release.dependencies.len(),
    ensures
        ({
            let s = walk(check, name, release, version, next, notes);
            &&& looks_for_the_conflict(release, s)
            &&& s.action is LookFor <==> s.check.stage is Looking
            &&& s.action is LookFor ==> s.check.stage->Looking_name == name
                && s.check.stage->Looking_next > next && clear(
                check.manifest,
                release,
                next,
                s.check.stage->Looking_next - 1,
            )
            &&& !(s.action is LookFor) ==> clear(
                check.manifest,
                release,
                next,
                release.dependencies.len() as int,
            )
        }),
    decreases release.dependencies.len() - next,
{
    if next < release.dependencies.len() {
        let dependency = release.dependencies[next];
        if conflict_in(check.manifest, dependency) is None {
            lemma_walk_looks(
                CheckView {
                    todo: match wanted(check.done, dependency) {
                        Some(n) => check.todo.push(n),
                        None => check.todo,
                    },
                    ..check
                },
                name,
                release,
                version,
                next + 1,
                notes + dependency_lines(check.done, name, dependency),
            );
            let s = walk(check, name, release, version, next, notes);
            assert forall|n: Seq<char>| #[trigger]
                excludes(release, next, n) implies !check.manifest.contains_key(n) by {}
        }
    }
}

/// The release that an event is about.
pub open spec fn release_in_hand(check: CheckView, event: CheckEvent) -> ReleaseView {
    match (check.stage, event) {
        (StageView::Asked { .. }, CheckEvent::Answer(answer)) => {
            let list = releases(answer.releases@);
            list[newest(list)->0]
        },
        (StageView::Looking { release, .. }, _) => release,
        _ => arbitrary(),
    }
}

/// Whenever a step asks to look for a file, a dependency of the release in hand
/// excludes a mod of the manifest, and the file is named by that mod's own name
/// and by the version and the extension of its own entry.
pub proof fn law_file_looked_for(check: CheckView, event: CheckEvent)
    requires
        placed(check),
    ensures
        ({
            let s = step(check, event);
            &&& looks_for_the_conflict(release_in_hand(check, event), s)
            &&& s.action matches CheckActionView::LookFor { file_name } ==> exists|m: Seq<char>|
                #![trigger check.manifest[m]]
                check.manifest.contains_key(m) && file_name == m + "_"@ + check.manifest[m].version
                    + "."@ + check.manifest[m].extension
        }),
{
    match (check.stage, event) {
        (StageView::Asked { name }, CheckEvent::Answer(answer)) => {
            let list = releases(answer.releases@);
            if let Some(i) = newest(list) {
                lemma_walk_looks(check, name, list[i], version_of(list[i]), 0, Seq::empty());
            }
        },
        (
            StageView::Looking { name, release, version, next, conflict, file_name },
            CheckEvent::FilePresent(false),
        ) => {
            lemma_walk_looks(
                without(check, conflict),
                name,
                release,
                version,
                next,
                gone_lines(check, conflict, file_name),
            );
        },
        _ => {},
    }
    let s = step(check, event);
    if s.action is LookFor {
        let m = s.check.stage->Looking_conflict;
        law_step(check, event);
        assert(s.check.manifest.submap_of(check.manifest));
        assert(s.check.manifest.contains_key(m));
        assert(s.check.manifest.dom().contains(m));
        assert(check.manifest.dom().contains(m));
        assert(check.manifest[m] == s.check.manifest[m]);
    }
}

/// No mod is waved through beside one that it excludes: when a step is done with
/// a release, the manifest holds none of the mods that its remaining
/// dependencies exclude.
pub proof fn law_conflicts_are_noticed(check: CheckView, event: CheckEvent)
    requires
        placed(check),
    ensures
        ({
            let s = step(check, event);
            &&& check.stage is Asked && event is Answer && newest(
                releases(event->Answer_0.releases@),
            ) is Some && !(s.action is LookFor) ==> clear(
                s.check.manifest,
                release_in_hand(check, event),
                0,
                release_in_hand(check, event).dependencies.len() as int,
            )
            &&& check.stage is Looking && event == CheckEvent::FilePresent(false) && !(
            s.action is LookFor) ==> clear(
                s.check.manifest,
                release_in_hand(check, event),
                check.stage->Looking_next,
                release_in_hand(check, event).dependencies.len() as int,
            )
        }),
{
    match (check.stage, event) {
        (StageView::Asked { name }, CheckEvent::Answer(answer)) => {
            let list = releases(answer.releases@);
            if let Some(i) = newest(list) {
                lemma_walk_looks(check, name, list[i], version_of(list[i]), 0, Seq::empty());
                lemma_walk_keeps_manifest(check, name, list[i], version_of(list[i]), 0, Seq::empty());
            }
        },
        (
            StageView::Looking { name, release, version, next, conflict, file_name },
            CheckEvent::FilePresent(false),
        ) => {
            let left = without(check, conflict);
            let said = gone_lines(check, conflict, file_name);
            lemma_walk_looks(left, name, release, version, next, said);
            lemma_walk_keeps_manifest(left, name, release, version, next, said);
        },
        _ => {},
    }
}

/// What is left of the manifest in the middle of a check: no answered release
/// excludes any of it, as far as it was looked at.
pub open spec fn peaceful(check: CheckView, answers: Map<Seq<char>, ReleaseView>) -> bool {
    &&& forall|m: Seq<char>|
        #![trigger answers[m]]
        answers.contains_key(m) && current(check) != Some(m) ==> clear(
            check.manifest,
            answers[m],
            0,
            answers[m].dependencies.len() as int,
        )
    &&& check.stage matches StageView::Looking { release, next, conflict, .. } ==> {
        &&& clear(check.manifest, release, 0, next - 1)
        &&& excludes(release, next - 1, conflict)
    }
}

proof fn lemma_clear_shrinks(
    more: ManifestView,
    less: ManifestView,
    release: ReleaseView,
    from: int,
    upto: int,
)
    requires
        less.submap_of(more),
        clear(more, release, from, upto),
    ensures
        clear(less, release, from, upto),
{
    assert forall|i: int, n: Seq<char>|
        from <= i < upto && #[trigger] excludes(release, i, n) implies !less.contains_key(n) by {
        if less.dom().contains(n) {
            assert(more.dom().contains(n));
        }
    }
}

proof fn lemma_run_is_peaceful(check: CheckView, events: Seq<CheckEvent>)
    requires
        begun(check),
        !(run(check, events).stage is Over) || complete(check, events),
    ensures
        peaceful(run(check, events), past(check, events).answers),
    decreases events.len(),
{
    if events.len() > 0 {
        let before = run(check, events.drop_last());
        let event = events.last();
        let s = step(before, event);
        let answers = past(check, events).answers;
        let earlier = past(check, events.drop_last()).answers;
        assert(!(before.stage is Over));
        lemma_run_holds(check, events.drop_last());
        lemma_run_is_peaceful(check, events.drop_last());
        law_step(before, event);
        law_conflicts_are_noticed(before, event);
        law_file_looked_for(before, event);
        lemma_answers_stay(check, events);
        match (before.stage, event) {
            (StageView::Asked { name }, CheckEvent::Answer(answer)) => {
                let list = releases(answer.releases@);
                if let Some(i) = newest(list) {
                    lemma_walk_looks(before, name, list[i], version_of(list[i]), 0, Seq::empty());
                    lemma_walk_keeps_manifest(
                        before,
                        name,
                        list[i],
                        version_of(list[i]),
                        0,
                        Seq::empty(),
                    );
                }
            },
            (
                StageView::Looking { name, release, version, next, conflict, file_name },
                CheckEvent::FilePresent(false),
            ) => {
                let left = without(before, conflict);
                let said = gone_lines(before, conflict, file_name);
                lemma_walk_looks(left, name, release, version, next, said);
                lemma_walk_keeps_manifest(left, name, release, version, next, said);
                lemma_clear_shrinks(before.manifest, left.manifest, release, 0, next - 1);
                assert forall|i: int, n: Seq<char>|
                    0 <= i < next && #[trigger] excludes(
                        release,
                        i,
                        n,
                    ) implies !left.manifest.contains_key(n) by {
                    if i == next - 1 {
                        assert(n == conflict);
                    }
                }
            },
            _ => {},
        }
        assert forall|m: Seq<char>|
            #![trigger answers[m]]
            answers.contains_key(m) && current(s.check) != Some(m) implies clear(
            s.check.manifest,
            answers[m],
            0,
            answers[m].dependencies.len() as int,
        ) by {
            if current(before) != Some(m) {
                assert(earlier.contains_key(m));
                assert(earlier.dom().contains(m));
                assert(earlier[m] == answers[m]);
                lemma_clear_shrinks(
                    before.manifest,
                    s.check.manifest,
                    answers[m],
                    0,
                    answers[m].dependencies.len() as int,
                );
            }
        }
    }
}

/// After a complete check no mod that is left in the manifest is excluded by the
/// newest release of a mod that the portal answered about.
pub proof fn law_no_conflict_is_left(
    check: CheckView,
    events: Seq<CheckEvent>,
    name: Seq<char>,
    i: int,
    other: Seq<char>,
)
    requires
        complete(check, events),
        past(check, events).answers.contains_key(name),
        excludes(past(check, events).answers[name], i, other),
    ensures
        !run(check, events).manifest.contains_key(other),
{
    lemma_run_is_peaceful(check, events);
    law_what_a_check_finds(check, events);
    let before = run(check, events.drop_last());
    lemma_step_ends(before, events.last());
    assert(clear(
        run(check, events).manifest,
        past(check, events).answers[name],
        0,
        past(check, events).answers[name].dependencies.len() as int,
    ));
}

/// A check that is complete has nothing in hand.
proof fn lemma_step_ends(check: CheckView, event: CheckEvent)
    requires
        step(check, event).action is Finished,
    ensures
        current(step(check, event).check) is None,
{
    match (check.stage, event) {
        (StageView::Asked { name }, CheckEvent::Answer(answer)) => {
            let list = releases(answer.releases@);
            if let Some(i) = newest(list) {
                lemma_walk_ends(check, name, list[i], version_of(list[i]), 0, Seq::empty());
            }
        },
        (
            StageView::Looking { name, release, version, next, conflict, file_name },
            CheckEvent::FilePresent(false),
        ) => {
            lemma_walk_ends(
                without(check, conflict),
                name,
                release,
                version,
                next,
                gone_lines(check, conflict, file_name),
            );
        },
        _ => {},
    }
}

proof fn lemma_walk_ends(
    check: CheckView,
    name: Seq<char>,
    release: ReleaseView,
    version: ModVersionView,
    next: int,
    notes: Seq<NoteView>,
)
    ensures
        ({
            let s = walk(check, name, release, version, next, notes);
            s.action is Finished ==> current(s.check) is None
        }),
    decreases release.dependencies.len() - next,
{
    if 0 <= next < release.dependencies.len() {
        let dependency = release.dependencies[next];
        if conflict_in(check.manifest, dependency) is None {
            lemma_walk_ends(
                CheckView {
                    todo: match wanted(check.done, dependency) {
                        Some(n) => check.todo.push(n),
                        None => check.todo,
                    },
                    ..check
                },
                name,
                release,
                version,
                next + 1,
                notes + dependency_lines(check.done, name, dependency),
            );
        }
    }
}

/// A mod leaves the manifest only where a release excludes it, its file was
/// looked for and the file was not there; every other entry stays as it was.
pub proof fn law_what_leaves_the_manifest(
    check: CheckView,
    events: Seq<CheckEvent>,
    name: Seq<char>,
)
    requires
        begun(check),
        !(run(check, events).stage is Over) || complete(check, events),
        check.manifest.contains_key(name),
    ensures
        run(check, events).manifest.contains_key(name) ==> run(check, events).manifest[name]
            == check.manifest[name],
        !run(check, events).manifest.contains_key(name) ==> exists|k: int|
            0 <= k < events.len() && #[trigger] events[k] == CheckEvent::FilePresent(false) && run(
                check,
                events.take(k),
            ).stage is Looking && run(check, events.take(k)).stage->Looking_conflict == name,
{
    if complete(check, events) {
        law_what_a_check_finds(check, events);
    } else {
        lemma_run_holds(check, events);
    }
    if past(check, events).gone.contains(name) {
        let k: int = lemma_was_dropped(check, events, name);
        assert(events[k] == CheckEvent::FilePresent(false));
    }
}

proof fn lemma_was_dropped(check: CheckView, events: Seq<CheckEvent>, name: Seq<char>) -> (k: int)
    requires
        past(check, events).gone.contains(name),
    ensures
        0 <= k < events.len(),
        events[k] == CheckEvent::FilePresent(false),
        run(check, events.take(k)).stage is Looking,
        run(check, events.take(k)).stage->Looking_conflict == name,
    decreases events.len(),
{
    let front = events.drop_last();
    let last = events.len() - 1;
    assert(events.take(last) =~= front);
    if past(check, front).gone.contains(name) {
        let k: int = lemma_was_dropped(check, front, name);
        assert(front.take(k) =~= events.take(k));
        k
    } else {
        last
    }
}

/// A conflict whose file is there ends the check, with a message that names the
/// two mods and leaves the manifest and the downloads as they are. Where the file
/// is not there, the manifest loses the excluded mod and nothing else.
pub proof fn law_conflict_outcome(check: CheckView)
    requires
        check.stage is Looking,
        placed(check),
    ensures
        ({
            let s = step(check, CheckEvent::FilePresent(true));
            &&& s.check.stage is Over
            &&& s.check.manifest == check.manifest
            &&& s.check.queue == check.queue
            &&& s.action == (CheckActionView::Conflict {
                message: "FATAL: Mod '"@ + check.stage->Looking_name
                    + "' is incompatible with the locally present mod '"@
                    + check.stage->Looking_conflict
                    + "'. Please resolve this conflict manually by removing one of them."@,
            })
        }),
        step(check, CheckEvent::FilePresent(false)).check.manifest == check.manifest.remove(
            check.stage->Looking_conflict,
        ),
{
    if let StageView::Looking { name, release, version, next, conflict, file_name } = check.stage {
        lemma_walk_keeps_manifest(
            without(check, conflict),
            name,
            release,
            version,
            next,
            gone_lines(check, conflict, file_name),
        );
    }
}

/// The start of a check, a portal that cannot be reached and one that refuses to
/// answer change neither the manifest nor the downloads, and the check goes on.
pub proof fn law_no_answer_changes_nothing(check: CheckView, event: CheckEvent)
    requires
        (check.stage is Ready && event is Begin) || (check.stage is Asked && (event is NoReply
            || event is Refused)),
    ensures
        step(check, event).check.manifest == check.manifest,
        step(check, event).check.queue == check.queue,
        step(check, event).action is Fetch || step(check, event).action is Finished,
{
}

/// Whether a step that goes on asks about the mod of the list that was found last
/// and not asked about yet, keeps those before it for later, and ends only when
/// none is left.
pub open spec fn goes_on_with_last_found(check: CheckView, s: StepView) -> bool {
    &&& s.action matches CheckActionView::Fetch { name, .. } ==> {
        &&& exists|i: int|
            0 <= i < check.todo.len() && #[trigger] check.todo[i] == name && s.check.todo
                == check.todo.take(i) && forall|j: int|
                i < j < check.todo.len() ==> check.done.contains(#[trigger] check.todo[j])
        &&& !check.done.contains(name)
        &&& s.check.done == check.done.insert(name)
    }
    &&& s.action is Finished ==> forall|j: int|
        0 <= j < check.todo.len() ==> check.done.contains(#[trigger] check.todo[j])
}

/// The mod that was found last and not asked about yet is the next one; the check is complete only when none is left.
pub proof fn law_last_found_is_next(check: CheckView, event: CheckEvent)
    requires
        (check.stage is Ready && event is Begin) || (check.stage is Asked && (event is NoReply
            || event is Refused)),
    ensures
        ({
            let s = step(check, event);
            &&& s.action is Fetch || s.action is Finished
            &&& goes_on_with_last_found(check, s)
        }),
{
    lemma_next_position(check.todo, check.done);
}

proof fn lemma_walk_adds_none(
    check: CheckView,
    name: Seq<char>,
    release: ReleaseView,
    version: ModVersionView,
    next: int,
    notes: Seq<NoteView>,
)
    requires
        0 <= next <= release.dependencies.len(),
        forall|j: int|
            next <= j < release.dependencies.len() ==> match needs(
                #[trigger] release.dependencies[j],
            ) {
                Some(n) => check.done.contains(n),
                None => true,
            },
    ensures
        goes_on_with_last_found(check, walk(check, name, release, version, next, notes)),
    decreases release.dependencies.len() - next,
{
    if next == release.dependencies.len() {
        lemma_next_position(check.todo, check.done);
    } else {
        let dependency = release.dependencies[next];
        if conflict_in(check.manifest, dependency) is None {
            assert(wanted(check.done, dependency) is None);
            assert(CheckView {
                todo: match wanted(check.done, dependency) {
                    Some(n) => check.todo.push(n),
                    None => check.todo,
                },
                ..check
            } == check);
            lemma_walk_adds_none(
                check,
                name,
                release,
                version,
                next + 1,
                notes + dependency_lines(check.done, name, dependency),
            );
        }
    }
}

/// The same holds behind an answer without a readable release and behind a release
/// that needs no mod which was not asked about yet.
pub proof fn law_last_found_is_next_later(check: CheckView, event: CheckEvent)
    requires
        check.stage is Asked,
        event is Answer,
        newest(releases(event->Answer_0.releases@)) is Some ==> forall|j: int|
            0 <= j < release_in_hand(check, event).dependencies.len() ==> match needs(
                #[trigger] release_in_hand(check, event).dependencies[j],
            ) {
                Some(n) => check.done.contains(n),
                None => true,
            },
    ensures
        goes_on_with_last_found(check, step(check, event)),
{
    let list = releases(event->Answer_0.releases@);
    match newest(list) {
        Some(_) => {
            let release = release_in_hand(check, event);
            lemma_walk_adds_none(
                check,
                check.stage->Asked_name,
                release,
                version_of(release),
                0,
                Seq::empty(),
            );
        },
        None => {
            lemma_next_position(check.todo, check.done);
        },
    }
}

/// The portal is asked about a mod at the mod's own address.
pub proof fn law_where_the_portal_is_asked(check: CheckView, event: CheckEvent)
    requires
        placed(check),
    ensures
        step(check, event).action matches CheckActionView::Fetch { name, url } ==> url
            == "https://mods.factorio.com/api/mods"@ + "/"@ + name + "/full"@
            && step(check, event).check.stage == (StageView::Asked { name }),
{
    match (check.stage, event) {
        (StageView::Asked { name }, CheckEvent::Answer(answer)) => {
            let list = releases(answer.releases@);
            if let Some(i) = newest(list) {
                lemma_walk_asks(check, name, list[i], version_of(list[i]), 0, Seq::empty());
            }
        },
        (
            StageView::Looking { name, release, version, next, conflict, file_name },
            CheckEvent::FilePresent(false),
        ) => {
            lemma_walk_asks(
                without(check, conflict),
                name,
                release,
                version,
                next,
                gone_lines(check, conflict, file_name),
            );
        },
        _ => {},
    }
}

proof fn lemma_walk_asks(
    check: CheckView,
    name: Seq<char>,
    release: ReleaseView,
    version: ModVersionView,
    next: int,
    notes: Seq<NoteView>,
)
    ensures
        ({
            let s = walk(check, name, release, version, next, notes);
            s.action matches CheckActionView::Fetch { name: asked, url } ==> url
                == "https://mods.factorio.com/api/mods"@ + "/"@ + asked + "/full"@ && s.check.stage
                == (StageView::Asked { name: asked })
        }),
    decreases release.dependencies.len() - next,
{
    if 0 <= next < release.dependencies.len() {
        let dependency = release.dependencies[next];
        if conflict_in(check.manifest, dependency) is None {
            lemma_walk_asks(
                CheckView {
                    todo: match wanted(check.done, dependency) {
                        Some(n) => check.todo.push(n),
                        None => check.todo,
                    },
                    ..check
                },
                name,
                release,
                version,
                next + 1,
                notes + dependency_lines(check.done, name, dependency),
            );
        }
    }
}

proof fn lemma_walk_goes_deep(
    check: CheckView,
    name: Seq<char>,
    release: ReleaseView,
    version: ModVersionView,
    next: int,
    notes: Seq<NoteView>,
    last: Seq<char>,
)
    requires
        0 <= next <= release.dependencies.len(),
        check.todo.len() > 0,
        check.todo.last() == last,
        !check.done.contains(last),
        forall|j: int|
            next <= j < release.dependencies.len() ==> match needs(
                #[trigger] release.dependencies[j],
            ) {
                Some(n) => check.done.contains(n),
                None => true,
            },
    ensures
        ({
            let s = walk(check, name, release, version, next, notes);
            s.action is Fetch || s.action is Finished ==> s.action is Fetch
                && s.action->Fetch_name == last && s.check.todo == check.todo.drop_last()
        }),
    decreases release.dependencies.len() - next,
{
    if next < release.dependencies.len() {
        let dependency = release.dependencies[next];
        if conflict_in(check.manifest, dependency) is None {
            assert(wanted(check.done, dependency) is None);
            assert(CheckView {
                todo: match wanted(check.done, dependency) {
                    Some(n) => check.todo.push(n),
                    None => check.todo,
                },
                ..check
            } == check);
            lemma_walk_goes_deep(
                check,
                name,
                release,
                version,
                next + 1,
                notes + dependency_lines(check.done, name, dependency),
                last,
            );
        }
    }
}

proof fn lemma_walk_asks_last_needed(
    check: CheckView,
    name: Seq<char>,
    release: ReleaseView,
    version: ModVersionView,
    next: int,
    notes: Seq<NoteView>,
    i: int,
)
    requires
        0 <= next <= i < release.dependencies.len(),
        needs(release.dependencies[i]) is Some,
        !check.done.contains(needs(release.dependencies[i])->0),
        forall|j: int|
            i < j < release.dependencies.len() ==> match needs(#[trigger] release.dependencies[j]) {
                Some(n) => check.done.contains(n),
                None => true,
            },
    ensures
        ({
            let s = walk(check, name, release, version, next, notes);
            s.action is Fetch || s.action is Finished ==> s.action is Fetch
                && s.action->Fetch_name == needs(release.dependencies[i])->0
                && check.todo.is_prefix_of(s.check.todo)
        }),
    decreases release.dependencies.len() - next,
{
    let dependency = release.dependencies[next];
    if conflict_in(check.manifest, dependency) is None {
        let after = CheckView {
            todo: match wanted(check.done, dependency) {
                Some(n) => check.todo.push(n),
                None => check.todo,
            },
            ..check
        };
        let said = notes + dependency_lines(check.done, name, dependency);
        assert(check.todo.is_prefix_of(after.todo));
        if next == i {
            assert(after.todo.drop_last() =~= check.todo);
            lemma_walk_goes_deep(
                after,
                name,
                release,
                version,
                next + 1,
                said,
                needs(dependency)->0,
            );
        } else {
            lemma_walk_asks_last_needed(after, name, release, version, next + 1, said, i);
        }
    }
}

/// The check goes deep: behind a release that needs mods it has not asked about,
/// it asks about the last of these first, and keeps the mods that were found
/// before for later, unless a conflict or an unreadable version stops it.
pub proof fn law_last_needed_is_next(check: CheckView, event: CheckEvent, i: int)
    requires
        check.stage is Asked,
        event is Answer,
        newest(releases(event->Answer_0.releases@)) is Some,
        0 <= i < release_in_hand(check, event).dependencies.len(),
        needs(release_in_hand(check, event).dependencies[i]) is Some,
        !check.done.contains(needs(release_in_hand(check, event).dependencies[i])->0),
        forall|j: int|
            i < j < release_in_hand(check, event).dependencies.len() ==> match needs(
                #[trigger] release_in_hand(check, event).dependencies[j],
            ) {
                Some(n) => check.done.contains(n),
                None => true,
            },
    ensures
        ({
            let s = step(check, event);
            s.action is Fetch || s.action is Finished ==> s.action is Fetch
                && s.action->Fetch_name == needs(release_in_hand(check, event).dependencies[i])->0
                && check.todo.is_prefix_of(s.check.todo)
        }),
{
    let release = release_in_hand(check, event);
    lemma_walk_asks_last_needed(
        check,
        check.stage->Asked_name,
        release,
        version_of(release),
        0,
        Seq::empty(),
        i,
    );
}

/// An answer about a mod whose local version cannot be read fails the check with
/// the reason, as soon as no conflict is left to be looked at; a local version
/// that can be read never fails it.
pub proof fn law_unreadable_local_version(check: CheckView, event: CheckEvent)
    requires
        check.stage is Asked,
        event is Answer,
        newest(releases(event->Answer_0.releases@)) is Some,
    ensures
        ({
            let name = check.stage->Asked_name;
            let s = step(check, event);
            &&& s.action matches CheckActionView::Failed { error } ==> check.manifest.contains_key(
                name,
            ) && semver_parse(check.manifest[name].version) == Err::<ModVersionView, Seq<char>>(
                error,
            )
            &&& check.manifest.contains_key(name) && semver_parse(
                check.manifest[name].version,
            ) is Err ==> s.action is Failed || s.action is LookFor
        }),
{
    let list = releases(event->Answer_0.releases@);
    let release = list[newest(list)->0];
    lemma_walk_fails(
        check,
        check.stage->Asked_name,
        release,
        version_of(release),
        0,
        Seq::empty(),
    );
}

proof fn lemma_walk_fails(
    check: CheckView,
    name: Seq<char>,
    release: ReleaseView,
    version: ModVersionView,
    next: int,
    notes: Seq<NoteView>,
)
    requires
        0 <= next <= release.dependencies.len(),
    ensures
        ({
            let s = walk(check, name, release, version, next, notes);
            &&& s.action matches CheckActionView::Failed { error } ==> check.manifest.contains_key(
                name,
            ) && semver_parse(check.manifest[name].version) == Err::<ModVersionView, Seq<char>>(
                error,
            )
            &&& check.manifest.contains_key(name) && semver_parse(
                check.manifest[name].version,
            ) is Err ==> s.action is Failed || s.action is LookFor
        }),
    decreases release.dependencies.len() - next,
{
    if next < release.dependencies.len() {
        let dependency = release.dependencies[next];
        if conflict_in(check.manifest, dependency) is None {
            lemma_walk_fails(
                CheckView {
                    todo: match wanted(check.done, dependency) {
                        Some(n) => check.todo.push(n),
                        None => check.todo,
                    },
                    ..check
                },
                name,
                release,
                version,
                next + 1,
                notes + dependency_lines(check.done, name, dependency),
            );
        }
    }
}

/// Whether a file is one of those that were found.
pub open spec fn is_found(
    queue: Map<Seq<char>, FileToDownloadView>,
    file: FileToDownloadView,
) -> bool {
    exists|k: Seq<char>| #[trigger] queue.contains_key(k) && queue[k] == file
}

/// What a check asks for says what it was meant to say; a complete one hands over
/// every file that it found, each once, and no other.
pub proof fn law_actions_are_told(action: CheckAction, view: CheckActionView)
    requires
        matches_action(action, view),
    ensures
        match action {
            CheckAction::Fetch { name, url } => view is Fetch && view->Fetch_name == name@
                && view->Fetch_url == url@,
            CheckAction::LookFor { file_name } => view is LookFor && view->LookFor_file_name
                == file_name@,
            CheckAction::Conflict { message } => view is Conflict && view->message == message@,
            CheckAction::Failed { error } => view is Failed && view->error == error@,
            CheckAction::Unexpected => view is Unexpected,
            CheckAction::Finished { files: list } => {
                &&& view is Finished
                &&& list@.len() == view->queue.len()
                &&& forall|k: Seq<char>| #[trigger]
                    view->queue.contains_key(k) ==> files(list@).contains(view->queue[k])
                &&& forall|i: int|
                    0 <= i < list@.len() ==> is_found(view->queue, (#[trigger] list@[i])@)
            },
        },
{
    if let CheckAction::Finished { files: list } = action {
        let queue = view->queue;
        let order = files(list@);
        let keys = choose|keys: Seq<Seq<char>>| #[trigger]
            enumerates(keys, queue) && order == keys.map_values(|k: Seq<char>| queue[k]);
        assert(lists_values(order, queue));
        assert forall|k: Seq<char>| #[trigger] queue.contains_key(k) implies order.contains(
            queue[k],
        ) by {
            assert(queue.dom().contains(k));
            assert(keys.to_set().contains(k));
            let i = choose|i: int| 0 <= i < keys.len() && keys[i] == k;
            assert(order[i] == queue[k]);
        }
        assert(order.len() == list@.len());
        assert forall|i: int| 0 <= i < list@.len() implies is_found(
            queue,
            (#[trigger] list@[i])@,
        ) by {
            assert(order[i] == list@[i]@);
            assert(keys.contains(keys[i]));
            assert(keys.to_set().contains(keys[i]));
            assert(queue.contains_key(keys[i]));
        }
    }
}

/// An answer leaves the manifest alone; only a stale conflict takes from it.
pub proof fn law_answer_keeps_the_manifest(check: CheckView, event: CheckEvent)
    requires
        check.stage is Asked,
        event is Answer,
    ensures
        step(check, event).check.manifest == check.manifest,
{
    let list = releases(event->Answer_0.releases@);
    if let Some(i) = newest(list) {
        lemma_walk_keeps_manifest(
            check,
            check.stage->Asked_name,
            list[i],
            version_of(list[i]),
            0,
            Seq::empty(),
        );
    }
}

/// An event that was not waited for changes nothing and says nothing.
pub proof fn law_unexpected_event(check: CheckView, event: CheckEvent)
    requires
        match check.stage {
            StageView::Ready => !(event is Begin),
            StageView::Asked { .. } => event is Begin || event is FilePresent,
            StageView::Looking { .. } => !(event is FilePresent),
            StageView::Over => true,
        },
    ensures
        step(check, event).check == check,
        step(check, event).action is Unexpected,
        step(check, event).notes.len() == 0,
{
}

} // verus!

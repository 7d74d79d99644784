//! What a whole update check finds, whatever the portal answers and whatever
//! files are in the folder.

use vstd::prelude::*;
use crate::models::{releases, FileToDownloadView, ManifestView, ReleaseView};
use crate::notes::NoteView;
use crate::string_map::enumerates;
use crate::update::{
    begin_line, conflict_in, dependency_lines, download_of, gone_lines, needs_download,
    next_position, no_reply_line, pick, queue_line, refused_line, settle, step, walk, wanted,
    without, CheckActionView, CheckEvent, CheckView, StageView,
};
use crate::update_laws::{
    covered, current, law_step, lemma_next_position, lemma_pick, needs, run,
};
use crate::version::{newest, version_of, ModVersionView};

verus! {

/// A check that is to be started: it asks about the mods of its manifest.
pub open spec fn begun(check: CheckView) -> bool {
    &&& check.stage is Ready
    &&& check.done == Set::<Seq<char>>::empty()
    &&& check.queue == Map::<Seq<char>, FileToDownloadView>::empty()
    &&& enumerates(check.todo, check.manifest)
}

/// What came of a series of events.
#[verifier::ext_equal]
pub struct Past {
    /// The newest release of each mod whose answer had one that can be read.
    pub answers: Map<Seq<char>, ReleaseView>,
    /// The mods that a stale conflict dropped from the manifest.
    pub gone: Set<Seq<char>>,
    /// Those of them that had been decided about before, so that the conflict
    /// took out their download too.
    pub taken: Set<Seq<char>>,
}

/// What an event adds.
pub open spec fn recorded(past: Past, check: CheckView, event: CheckEvent) -> Past {
    match (check.stage, event) {
        (StageView::Asked { name }, CheckEvent::Answer(answer)) => {
            let list = releases(answer.releases@);
            match newest(list) {
                Some(i) => Past { answers: past.answers.insert(name, list[i]), ..past },
                None => past,
            }
        },
        (StageView::Looking { name, conflict, .. }, CheckEvent::FilePresent(false)) => Past {
            gone: past.gone.insert(conflict),
            taken: if check.done.contains(conflict) && conflict != name {
                past.taken.insert(conflict)
            } else {
                past.taken
            },
            ..past
        },
        _ => past,
    }
}

/// What came of a series of events that a check went through.
pub open spec fn past(check: CheckView, events: Seq<CheckEvent>) -> Past
    decreases events.len(),
{
    if events.len() == 0 {
        Past { answers: Map::empty(), gone: Set::empty(), taken: Set::empty() }
    } else {
        recorded(
            past(check, events.drop_last()),
            run(check, events.drop_last()),
            events.last(),
        )
    }
}

/// Whether a release cannot do without a mod that does not come with the game.
pub open spec fn needed_by(release: ReleaseView, name: Seq<char>) -> bool {
    exists|i: int|
        0 <= i < release.dependencies.len() && needs(#[trigger] release.dependencies[i]) == Some(
            name,
        )
}

/// Whether a set holds the mods of a manifest and, with each mod, every mod that
/// its newest release needs.
pub open spec fn closed_under(
    set: Set<Seq<char>>,
    manifest: ManifestView,
    answers: Map<Seq<char>, ReleaseView>,
) -> bool {
    &&& manifest.dom().subset_of(set)
    &&& forall|m: Seq<char>, n: Seq<char>|
        #![trigger set.contains(m), needed_by(answers[m], n)]
        set.contains(m) && answers.contains_key(m) && needed_by(answers[m], n) ==> set.contains(n)
}

/// Whether a mod is to be downloaded, as far as its answer, the manifest that is
/// left and the conflicts go: its newest release is missing or newer, and no
/// conflict took it out.
pub open spec fn to_fetch(manifest: ManifestView, past: Past, name: Seq<char>) -> bool {
    &&& past.answers.contains_key(name)
    &&& !past.taken.contains(name)
    &&& needs_download(manifest, name, version_of(past.answers[name])) == Ok::<bool, Seq<char>>(true)
}

/// Whether a mod was asked about and is done with.
pub open spec fn is_decided(check: CheckView, hand: Option<Seq<char>>, name: Seq<char>) -> bool {
    check.done.contains(name) && hand != Some(name)
}

/// What holds of a check that began with `manifest`, went through `past` and has
/// the mod `hand` in hand, whose dependencies before `upto` were looked at.
pub open spec fn holds(
    manifest: ManifestView,
    check: CheckView,
    past: Past,
    hand: Option<Seq<char>>,
    upto: int,
) -> bool {
    &&& past.answers.dom().subset_of(check.done)
    &&& hand matches Some(h) ==> check.done.contains(h)
    &&& manifest.dom().subset_of(covered(check))
    // Every mod that was found to be needed is asked about or will be.
    &&& forall|m: Seq<char>, i: int|
        #![trigger past.answers[m].dependencies[i]]
        past.answers.contains_key(m) && 0 <= i < past.answers[m].dependencies.len() && (hand
            == Some(m) ==> i < upto) && needs(past.answers[m].dependencies[i]) is Some ==> covered(
            check,
        ).contains(needs(past.answers[m].dependencies[i])->0)
    // The downloads are those of the mods that are done with.
    &&& forall|m: Seq<char>| #[trigger]
        check.queue.contains_key(m) <==> is_decided(check, hand, m) && to_fetch(
            check.manifest,
            past,
            m,
        )
    &&& forall|m: Seq<char>| #[trigger]
        check.queue.contains_key(m) ==> check.queue[m] == download_of(
            check.manifest,
            m,
            past.answers[m],
            version_of(past.answers[m]),
        )
    // The manifest has lost what stale conflicts dropped.
    &&& check.manifest == manifest.remove_keys(past.gone)
    &&& forall|m: Seq<char>| #[trigger] past.taken.contains(m) ==> is_decided(check, hand, m)
}

/// How many dependencies of the mod in hand were looked at.
pub open spec fn looked_at(check: CheckView) -> int {
    match check.stage {
        StageView::Looking { next, .. } => next,
        _ => 0,
    }
}

/// What holds of a check between two events.
pub open spec fn on_course(manifest: ManifestView, check: CheckView, past: Past) -> bool {
    &&& holds(manifest, check, past, current(check), looked_at(check))
    &&& check.stage matches StageView::Asked { name } ==> !past.answers.contains_key(name)
    &&& check.stage matches StageView::Looking { name, release, version, next, conflict, .. } ==> {
        &&& past.answers.contains_key(name)
        &&& past.answers[name] == release
        &&& version == version_of(release)
        &&& 0 <= next <= release.dependencies.len()
        &&& check.manifest.contains_key(conflict)
    }
}

/// Goes on to the next mod once the one in hand is done with.
proof fn lemma_pick_holds(
    manifest: ManifestView,
    check: CheckView,
    past: Past,
    notes: Seq<NoteView>,
)
    requires
        holds(manifest, check, past, None, 0),
    ensures
        on_course(manifest, pick(check, notes).check, past),
        pick(check, notes).check.manifest == check.manifest,
        pick(check, notes).action is Finished <==> pick(check, notes).check.stage is Over,
        pick(check, notes).action is Finished ==> covered(pick(check, notes).check) == pick(
            check,
            notes,
        ).check.done,
        pick(check, notes).action is Fetch || pick(check, notes).action is Finished,
{
    lemma_pick(check, None, notes);
    let s = pick(check, notes);
    assert(covered(check).subset_of(covered(s.check)));
    assert forall|m: Seq<char>| #[trigger] s.check.queue.contains_key(m) <==> is_decided(
        s.check,
        current(s.check),
        m,
    ) && to_fetch(s.check.manifest, past, m) by {
        assert(check.queue.contains_key(m) <==> is_decided(check, None, m) && to_fetch(
            check.manifest,
            past,
            m,
        ));
        if let CheckActionView::Fetch { name, .. } = s.action {
            if m == name && to_fetch(check.manifest, past, m) {
                assert(past.answers.dom().contains(m));
            }
        }
    }
    assert forall|m: Seq<char>| #[trigger] past.taken.contains(m) implies is_decided(
        s.check,
        current(s.check),
        m,
    ) by {
        assert(is_decided(check, None, m));
    }
}

/// Decides about the mod in hand.
proof fn lemma_settle_holds(
    manifest: ManifestView,
    check: CheckView,
    past: Past,
    name: Seq<char>,
    release: ReleaseView,
    notes: Seq<NoteView>,
)
    requires
        holds(manifest, check, past, Some(name), release.dependencies.len() as int),
        past.answers.contains_key(name),
        past.answers[name] == release,
    ensures
        ({
            let s = settle(check, name, release, version_of(release), notes);
            (s.action is Failed && s.check.stage is Over) || {
                &&& on_course(manifest, s.check, past)
                &&& s.check.manifest == check.manifest
                &&& s.action is Finished <==> s.check.stage is Over
                &&& s.action is Finished ==> covered(s.check) == s.check.done
                &&& s.action is Fetch || s.action is Finished
            }
        }),
{
    let version = version_of(release);
    assert(!is_decided(check, Some(name), name));
    assert(!check.queue.contains_key(name));
    assert(!past.taken.contains(name));
    match needs_download(check.manifest, name, version) {
        Err(_) => {},
        Ok(false) => {
            assert forall|m: Seq<char>| #[trigger] check.queue.contains_key(m) <==> is_decided(
                check,
                None,
                m,
            ) && to_fetch(check.manifest, past, m) by {
                assert(m != name ==> is_decided(check, None, m) == is_decided(check, Some(name), m));
            }
            assert forall|m: Seq<char>| #[trigger] past.taken.contains(m) implies is_decided(
                check,
                None,
                m,
            ) by {
                assert(is_decided(check, Some(name), m));
            }
            lemma_pick_holds(manifest, check, past, notes);
        },
        Ok(true) => {
            let with = CheckView {
                queue: check.queue.insert(
                    name,
                    download_of(check.manifest, name, release, version),
                ),
                ..check
            };
            assert(covered(with) == covered(check));
            assert forall|m: Seq<char>| #[trigger] with.queue.contains_key(m) <==> is_decided(
                with,
                None,
                m,
            ) && to_fetch(with.manifest, past, m) by {
                assert(m != name ==> is_decided(with, None, m) == is_decided(check, Some(name), m));
                assert(check.queue.contains_key(m) || !check.queue.contains_key(m));
            }
            assert forall|m: Seq<char>| #[trigger] with.queue.contains_key(m) implies with.queue[m]
                == download_of(
                with.manifest,
                m,
                past.answers[m],
                version_of(past.answers[m]),
            ) by {
                if m != name {
                    assert(check.queue.contains_key(m));
                }
            }
            assert forall|m: Seq<char>| #[trigger] past.taken.contains(m) implies is_decided(
                with,
                None,
                m,
            ) by {
                assert(is_decided(check, Some(name), m));
            }
            lemma_pick_holds(manifest, with, past, notes.push(queue_line(name, version)));
        },
    }
}

proof fn lemma_covered_push(check: CheckView, name: Seq<char>)
    ensures
        forall|x: Seq<char>| #[trigger]
            covered(CheckView { todo: check.todo.push(name), ..check }).contains(x) <==> covered(
                check,
            ).contains(x) || x == name,
{
    let after = CheckView { todo: check.todo.push(name), ..check };
    assert forall|x: Seq<char>| #[trigger] covered(after).contains(x) <==> covered(check).contains(
        x,
    ) || x == name by {
        assert(after.todo[check.todo.len() as int] == name);
        if check.todo.contains(x) {
            let j = choose|j: int| 0 <= j < check.todo.len() && check.todo[j] == x;
            assert(after.todo[j] == x);
        }
        if after.todo.contains(x) {
            let j = choose|j: int| 0 <= j < after.todo.len() && after.todo[j] == x;
            if j < check.todo.len() {
                assert(check.todo[j] == x);
            }
        }
    }
}

/// Looks at the dependencies of the mod in hand from `next` on.
proof fn lemma_walk_holds(
    manifest: ManifestView,
    check: CheckView,
    past: Past,
    name: Seq<char>,
    release: ReleaseView,
    next: int,
    notes: Seq<NoteView>,
)
    requires
        holds(manifest, check, past, Some(name), next),
        past.answers.contains_key(name),
        past.answers[name] == release,
        0 <= next <= release.dependencies.len(),
    ensures
        ({
            let s = walk(check, name, release, version_of(release), next, notes);
            (s.action is Failed && s.check.stage is Over) || {
                &&& on_course(manifest, s.check, past)
                &&& s.check.manifest == check.manifest
                &&& s.action is Finished <==> s.check.stage is Over
                &&& s.action is Finished ==> covered(s.check) == s.check.done
                &&& s.action is LookFor || s.action is Fetch || s.action is Finished
            }
        }),
    decreases release.dependencies.len() - next,
{
    if next == release.dependencies.len() {
        lemma_settle_holds(manifest, check, past, name, release, notes);
    } else {
        let dependency = release.dependencies[next];
        match conflict_in(check.manifest, dependency) {
            Some(conflict) => {
                let s = walk(check, name, release, version_of(release), next, notes);
                assert(needs(dependency) is None);
                assert(covered(s.check) == covered(check));
                assert forall|m: Seq<char>, i: int|
                    #![trigger past.answers[m].dependencies[i]]
                    past.answers.contains_key(m) && 0 <= i < past.answers[m].dependencies.len() && (
                    Some(name) == Some(m) ==> i < next + 1) && needs(
                        past.answers[m].dependencies[i],
                    ) is Some implies covered(s.check).contains(
                    needs(past.answers[m].dependencies[i])->0,
                ) by {}
                assert forall|m: Seq<char>| #[trigger] s.check.queue.contains_key(m) <==> is_decided(
                    s.check,
                    Some(name),
                    m,
                ) && to_fetch(s.check.manifest, past, m) by {
                    assert(check.queue.contains_key(m) || !check.queue.contains_key(m));
                    assert(is_decided(s.check, Some(name), m) == is_decided(check, Some(name), m));
                }
                assert forall|m: Seq<char>| #[trigger] past.taken.contains(m) implies is_decided(
                    s.check,
                    Some(name),
                    m,
                ) by {
                    assert(is_decided(check, Some(name), m));
                }
            },
            None => {
                let after = CheckView {
                    todo: match wanted(check.done, dependency) {
                        Some(n) => check.todo.push(n),
                        None => check.todo,
                    },
                    ..check
                };
                if let Some(n) = wanted(check.done, dependency) {
                    lemma_covered_push(check, n);
                }
                assert(covered(check).subset_of(covered(after)));
                if let Some(n) = needs(dependency) {
                    assert(covered(after).contains(n));
                }
                assert forall|m: Seq<char>| #[trigger] after.queue.contains_key(m) <==> is_decided(
                    after,
                    Some(name),
                    m,
                ) && to_fetch(after.manifest, past, m) by {
                    assert(check.queue.contains_key(m) || !check.queue.contains_key(m));
                    assert(is_decided(after, Some(name), m) == is_decided(check, Some(name), m));
                }
                assert forall|m: Seq<char>| #[trigger] past.taken.contains(m) implies is_decided(
                    after,
                    Some(name),
                    m,
                ) by {
                    assert(is_decided(check, Some(name), m));
                }
                lemma_walk_holds(
                    manifest,
                    after,
                    past,
                    name,
                    release,
                    next + 1,
                    notes + dependency_lines(check.done, name, dependency),
                );
            },
        }
    }
}

/// Hands the mod that was asked about over to its newest release.
proof fn lemma_answer_holds(
    manifest: ManifestView,
    check: CheckView,
    past: Past,
    name: Seq<char>,
    release: ReleaseView,
)
    requires
        on_course(manifest, check, past),
        check.stage == (StageView::Asked { name }),
    ensures
        holds(
            manifest,
            check,
            Past { answers: past.answers.insert(name, release), ..past },
            Some(name),
            0,
        ),
{
    let more = Past { answers: past.answers.insert(name, release), ..past };
    assert(current(check) == Some(name));
    assert forall|m: Seq<char>| #[trigger] more.answers.dom().contains(m) implies check.done.contains(
        m,
    ) by {
        if m != name {
            assert(past.answers.dom().contains(m));
        }
    }
    assert forall|m: Seq<char>, i: int|
        #![trigger more.answers[m].dependencies[i]]
        more.answers.contains_key(m) && 0 <= i < more.answers[m].dependencies.len() && (Some(name)
            == Some(m) ==> i < 0) && needs(more.answers[m].dependencies[i]) is Some implies covered(
        check,
    ).contains(needs(more.answers[m].dependencies[i])->0) by {
        assert(m != name);
        assert(past.answers[m].dependencies[i] == more.answers[m].dependencies[i]);
    }
    assert forall|m: Seq<char>| #[trigger] check.queue.contains_key(m) <==> is_decided(
        check,
        Some(name),
        m,
    ) && to_fetch(check.manifest, more, m) by {
        if m != name {
            assert(to_fetch(check.manifest, more, m) == to_fetch(check.manifest, past, m));
        }
    }
}

/// Drops the mod of a stale conflict.
proof fn lemma_without_holds(manifest: ManifestView, check: CheckView, past: Past)
    requires
        on_course(manifest, check, past),
        check.stage is Looking,
    ensures
        holds(
            manifest,
            without(check, check.stage->conflict),
            recorded(past, check, CheckEvent::FilePresent(false)),
            current(check),
            looked_at(check),
        ),
{
    let conflict = check.stage->conflict;
    let left = without(check, conflict);
    let more = recorded(past, check, CheckEvent::FilePresent(false));
    let hand = current(check);
    assert(covered(left) == covered(check));
    assert forall|m: Seq<char>| #[trigger] left.queue.contains_key(m) <==> is_decided(
        left,
        hand,
        m,
    ) && to_fetch(left.manifest, more, m) by {
        assert(check.queue.contains_key(m) <==> is_decided(check, hand, m) && to_fetch(
            check.manifest,
            past,
            m,
        ));
        assert(is_decided(left, hand, m) == is_decided(check, hand, m));
        if m != conflict {
            assert(more.taken.contains(m) == past.taken.contains(m));
            assert(to_fetch(left.manifest, more, m) == to_fetch(check.manifest, past, m));
        }
    }
    assert forall|m: Seq<char>| #[trigger] left.queue.contains_key(m) implies left.queue[m]
        == download_of(left.manifest, m, more.answers[m], version_of(more.answers[m])) by {
        assert(check.queue.contains_key(m));
    }
    assert(left.manifest =~= manifest.remove_keys(more.gone));
    assert forall|m: Seq<char>| #[trigger] more.taken.contains(m) implies is_decided(
        left,
        hand,
        m,
    ) by {
        if past.taken.contains(m) {
            assert(is_decided(check, hand, m));
        }
    }
}

pub(crate) proof fn lemma_step_holds(
    manifest: ManifestView,
    check: CheckView,
    past: Past,
    event: CheckEvent,
)
    requires
        on_course(manifest, check, past),
        !(check.stage is Over),
        step(check, event).action is Finished || !(step(check, event).check.stage is Over),
    ensures
        on_course(manifest, step(check, event).check, recorded(past, check, event)),
        step(check, event).action is Finished ==> step(check, event).check.stage is Over && covered(
            step(check, event).check,
        ) == step(check, event).check.done,
{
    match (check.stage, event) {
        (StageView::Ready, CheckEvent::Begin) => {
            lemma_pick_holds(manifest, check, past, seq![begin_line()]);
        },
        (StageView::Asked { name }, CheckEvent::NoReply { error }) => {
            lemma_unanswered_holds(manifest, check, past, name);
            lemma_pick_holds(manifest, check, past, seq![no_reply_line(name, error@)]);
        },
        (StageView::Asked { name }, CheckEvent::Refused { status, body }) => {
            lemma_unanswered_holds(manifest, check, past, name);
            lemma_pick_holds(manifest, check, past, seq![refused_line(name, status@, body@)]);
        },
        (StageView::Asked { name }, CheckEvent::Answer(answer)) => {
            let list = releases(answer.releases@);
            match newest(list) {
                None => {
                    lemma_unanswered_holds(manifest, check, past, name);
                    lemma_pick_holds(manifest, check, past, Seq::empty());
                },
                Some(i) => {
                    lemma_answer_holds(manifest, check, past, name, list[i]);
                    lemma_walk_holds(
                        manifest,
                        check,
                        recorded(past, check, event),
                        name,
                        list[i],
                        0,
                        Seq::empty(),
                    );
                },
            }
        },
        (
            StageView::Looking { name, release, version, next, conflict, file_name },
            CheckEvent::FilePresent(present),
        ) => {
            if !present {
                lemma_without_holds(manifest, check, past);
                lemma_walk_holds(
                    manifest,
                    without(check, conflict),
                    recorded(past, check, event),
                    name,
                    release,
                    next,
                    gone_lines(check, conflict, file_name),
                );
            }
        },
        _ => {},
    }
}

/// A mod without an answer is done with.
proof fn lemma_unanswered_holds(
    manifest: ManifestView,
    check: CheckView,
    past: Past,
    name: Seq<char>,
)
    requires
        on_course(manifest, check, past),
        check.stage == (StageView::Asked { name }),
    ensures
        holds(manifest, check, past, None, 0),
{
    assert(current(check) == Some(name));
    assert forall|m: Seq<char>| #[trigger] check.queue.contains_key(m) <==> is_decided(
        check,
        None,
        m,
    ) && to_fetch(check.manifest, past, m) by {
        if m != name {
            assert(is_decided(check, None, m) == is_decided(check, Some(name), m));
        }
    }
    assert forall|m: Seq<char>| #[trigger] past.taken.contains(m) implies is_decided(
        check,
        None,
        m,
    ) by {
        assert(is_decided(check, Some(name), m));
    }
}

/// A check that is not over is on course.
pub(crate) proof fn lemma_run_holds(check: CheckView, events: Seq<CheckEvent>)
    requires
        begun(check),
        !(run(check, events).stage is Over),
    ensures
        on_course(check.manifest, run(check, events), past(check, events)),
    decreases events.len(),
{
    if events.len() == 0 {
        let none = past(check, events);
        assert(check.manifest =~= check.manifest.remove_keys(none.gone));
        assert forall|n: Seq<char>| check.manifest.dom().contains(n) implies covered(
            check,
        ).contains(n) by {
            assert(check.todo.to_set().contains(n));
        }
    } else {
        let before = run(check, events.drop_last());
        lemma_run_holds(check, events.drop_last());
        lemma_step_holds(
            check.manifest,
            before,
            past(check, events.drop_last()),
            events.last(),
        );
    }
}

/// What was answered stays: a mod is asked about once.
pub(crate) proof fn lemma_answers_stay(check: CheckView, events: Seq<CheckEvent>)
    requires
        begun(check),
        events.len() > 0,
    ensures
        past(check, events.drop_last()).answers.submap_of(past(check, events).answers),
{
    let before = run(check, events.drop_last());
    if !(before.stage is Over) {
        lemma_run_holds(check, events.drop_last());
    }
}

proof fn lemma_closed_before(check: CheckView, events: Seq<CheckEvent>, set: Set<Seq<char>>)
    requires
        begun(check),
        events.len() > 0,
        closed_under(set, check.manifest, past(check, events).answers),
    ensures
        closed_under(set, check.manifest, past(check, events.drop_last()).answers),
{
    lemma_answers_stay(check, events);
    let less = past(check, events.drop_last()).answers;
    let more = past(check, events).answers;
    assert forall|m: Seq<char>, n: Seq<char>|
        #![trigger set.contains(m), needed_by(less[m], n)]
        set.contains(m) && less.contains_key(m) && needed_by(less[m], n) implies set.contains(n) by {
        assert(less.dom().contains(m));
        assert(more.dom().contains(m));
        assert(needed_by(more[m], n));
    }
}

/// The mods that a walk adds are ones that the release needs.
proof fn lemma_walk_adds_needed(
    check: CheckView,
    name: Seq<char>,
    release: ReleaseView,
    version: ModVersionView,
    next: int,
    notes: Seq<NoteView>,
    set: Set<Seq<char>>,
)
    requires
        0 <= next <= release.dependencies.len(),
        covered(check).subset_of(set),
        forall|n: Seq<char>| #[trigger] needed_by(release, n) ==> set.contains(n),
    ensures
        covered(walk(check, name, release, version, next, notes).check).subset_of(set),
    decreases release.dependencies.len() - next,
{
    if next == release.dependencies.len() {
        match needs_download(check.manifest, name, version) {
            Err(_) => {},
            Ok(false) => {
                lemma_pick_adds_nothing(check, notes);
            },
            Ok(true) => {
                let with = CheckView {
                    queue: check.queue.insert(
                        name,
                        download_of(check.manifest, name, release, version),
                    ),
                    ..check
                };
                assert(covered(with) == covered(check));
                lemma_pick_adds_nothing(with, notes.push(queue_line(name, version)));
            },
        }
    } else {
        let dependency = release.dependencies[next];
        match conflict_in(check.manifest, dependency) {
            Some(_) => {
                assert(covered(walk(check, name, release, version, next, notes).check) == covered(
                    check,
                ));
            },
            None => {
                let after = CheckView {
                    todo: match wanted(check.done, dependency) {
                        Some(n) => check.todo.push(n),
                        None => check.todo,
                    },
                    ..check
                };
                if let Some(n) = wanted(check.done, dependency) {
                    lemma_covered_push(check, n);
                    assert(needs(dependency) == Some(n));
                    assert(needed_by(release, n));
                }
                lemma_walk_adds_needed(
                    after,
                    name,
                    release,
                    version,
                    next + 1,
                    notes + dependency_lines(check.done, name, dependency),
                    set,
                );
            },
        }
    }
}

proof fn lemma_pick_adds_nothing(check: CheckView, notes: Seq<NoteView>)
    ensures
        covered(pick(check, notes).check).subset_of(covered(check)),
{
    let s = pick(check, notes);
    assert forall|x: Seq<char>| covered(s.check).contains(x) implies covered(check).contains(x) by {
        match next_position(check.todo, check.done) {
            Some(i) => {
                lemma_next_position(check.todo, check.done);
                assert(check.todo.contains(check.todo[i]));
                if s.check.todo.contains(x) {
                    let j = choose|j: int| 0 <= j < s.check.todo.len() && s.check.todo[j] == x;
                    assert(check.todo[j] == x);
                }
            },
            None => {},
        }
    }
}

/// Nothing is asked about in vain: every set that holds the mods of the manifest
/// and, with each mod, every mod that its newest release needs, holds all mods
/// that a check asked about or will.
pub proof fn law_only_needed_mods_are_asked(
    check: CheckView,
    events: Seq<CheckEvent>,
    set: Set<Seq<char>>,
)
    requires
        begun(check),
        closed_under(set, check.manifest, past(check, events).answers),
    ensures
        covered(run(check, events)).subset_of(set),
        run(check, events).done.subset_of(set),
    decreases events.len(),
{
    if events.len() == 0 {
        assert forall|n: Seq<char>| covered(check).contains(n) implies set.contains(n) by {
            assert(check.todo.to_set().contains(n));
            assert(check.manifest.dom().contains(n));
        }
    } else {
        let before = run(check, events.drop_last());
        let event = events.last();
        lemma_closed_before(check, events, set);
        law_only_needed_mods_are_asked(check, events.drop_last(), set);
        if !(before.stage is Over) {
            lemma_run_holds(check, events.drop_last());
        }
        let answers = past(check, events).answers;
        match (before.stage, event) {
            (StageView::Ready, CheckEvent::Begin) => {
                lemma_pick_adds_nothing(before, seq![begin_line()]);
            },
            (StageView::Asked { name }, CheckEvent::NoReply { error }) => {
                lemma_pick_adds_nothing(before, seq![no_reply_line(name, error@)]);
            },
            (StageView::Asked { name }, CheckEvent::Refused { status, body }) => {
                lemma_pick_adds_nothing(before, seq![refused_line(name, status@, body@)]);
            },
            (StageView::Asked { name }, CheckEvent::Answer(answer)) => {
                let list = releases(answer.releases@);
                match newest(list) {
                    None => {
                        lemma_pick_adds_nothing(before, Seq::empty());
                    },
                    Some(i) => {
                        assert(set.contains(name));
                        assert(answers[name] == list[i]);
                        assert forall|n: Seq<char>| #[trigger]
                            needed_by(list[i], n) implies set.contains(n) by {
                            assert(needed_by(answers[name], n));
                        }
                        lemma_walk_adds_needed(
                            before,
                            name,
                            list[i],
                            version_of(list[i]),
                            0,
                            Seq::empty(),
                            set,
                        );
                    },
                }
            },
            (
                StageView::Looking { name, release, version, next, conflict, file_name },
                CheckEvent::FilePresent(present),
            ) => {
                if !present {
                    assert(set.contains(name));
                    assert forall|n: Seq<char>| #[trigger]
                        needed_by(release, n) implies set.contains(n) by {
                        assert(needed_by(answers[name], n));
                    }
                    assert(covered(without(before, conflict)) == covered(before));
                    lemma_walk_adds_needed(
                        without(before, conflict),
                        name,
                        release,
                        version,
                        next,
                        gone_lines(before, conflict, file_name),
                        set,
                    );
                } else {
                    assert(covered(run(check, events)) == covered(before));
                }
            },
            _ => {},
        }
    }
}

/// What a complete check has found. The mods that it asked about are those of
/// the manifest and, with each mod, every mod that its newest release needs; by
/// `law_only_needed_mods_are_asked` there are no others. The manifest has lost
/// what stale conflicts dropped. The downloads are exactly those of the mods
/// whose newest release is missing or newer, but for those that a conflict took
/// out.
pub proof fn law_what_a_check_finds(check: CheckView, events: Seq<CheckEvent>)
    requires
        begun(check),
        events.len() > 0,
        step(run(check, events.drop_last()), events.last()).action is Finished,
    ensures
        ({
            let end = run(check, events);
            let told = past(check, events);
            &&& closed_under(end.done, check.manifest, told.answers)
            &&& end.manifest == check.manifest.remove_keys(told.gone)
            &&& step(run(check, events.drop_last()), events.last()).action == (
            CheckActionView::Finished { queue: end.queue })
            &&& forall|m: Seq<char>| #[trigger]
                end.queue.contains_key(m) <==> to_fetch(end.manifest, told, m)
            &&& forall|m: Seq<char>| #[trigger]
                end.queue.contains_key(m) ==> end.queue[m] == download_of(
                    end.manifest,
                    m,
                    told.answers[m],
                    version_of(told.answers[m]),
                )
        }),
{
    let before = run(check, events.drop_last());
    let end = run(check, events);
    let told = past(check, events);
    assert(!(before.stage is Over));
    lemma_run_holds(check, events.drop_last());
    lemma_step_holds(check.manifest, before, past(check, events.drop_last()), events.last());
    law_step(before, events.last());
    assert(current(end) is None);
    assert forall|m: Seq<char>, n: Seq<char>|
        #![trigger end.done.contains(m), needed_by(told.answers[m], n)]
        end.done.contains(m) && told.answers.contains_key(m) && needed_by(
            told.answers[m],
            n,
        ) implies end.done.contains(n) by {
        let i = choose|i: int|
            0 <= i < told.answers[m].dependencies.len() && needs(
                #[trigger] told.answers[m].dependencies[i],
            ) == Some(n);
        assert(covered(end).contains(n));
    }
    assert forall|m: Seq<char>| #[trigger] end.queue.contains_key(m) <==> to_fetch(
        end.manifest,
        told,
        m,
    ) by {
        if to_fetch(end.manifest, told, m) {
            assert(told.answers.dom().contains(m));
        }
    }
}

/// Whether every step of a series asks for something: an answer or a file.
pub open spec fn goes_on(check: CheckView, events: Seq<CheckEvent>) -> bool
    decreases events.len(),
{
    events.len() > 0 ==> {
        let s = step(run(check, events.drop_last()), events.last());
        &&& goes_on(check, events.drop_last())
        &&& s.action is Fetch || s.action is LookFor
    }
}

/// One for a check that waits for a file.
spec fn waits(check: CheckView) -> int {
    if check.stage is Looking {
        1
    } else {
        0
    }
}

/// Every step has asked about a new mod or has a conflict behind it that the
/// manifest lost.
proof fn lemma_steps_are_counted(check: CheckView, events: Seq<CheckEvent>)
    requires
        begun(check),
        goes_on(check, events),
    ensures
        !(run(check, events).stage is Over),
        run(check, events).done.finite(),
        run(check, events).manifest.dom().finite(),
        events.len() == run(check, events).done.len() + check.manifest.len() - run(
            check,
            events,
        ).manifest.len() + waits(run(check, events)),
    decreases events.len(),
{
    broadcast use vstd::seq_lib::seq_to_set_is_finite;

    if events.len() == 0 {
        assert(check.todo.to_set().finite());
    } else {
        let before = run(check, events.drop_last());
        let event = events.last();
        let s = step(before, event);
        lemma_steps_are_counted(check, events.drop_last());
        lemma_run_holds(check, events.drop_last());
        law_step(before, event);
        lemma_manifest_after(check.manifest, before, past(check, events.drop_last()), event);
    }
}

/// What a step that asks for something does to the manifest.
proof fn lemma_manifest_after(
    manifest: ManifestView,
    check: CheckView,
    past: Past,
    event: CheckEvent,
)
    requires
        on_course(manifest, check, past),
        step(check, event).action is Fetch || step(check, event).action is LookFor,
    ensures
        !(step(check, event).check.stage is Over),
        step(check, event).action is LookFor <==> step(check, event).check.stage is Looking,
        !(check.stage is Looking) ==> step(check, event).check.manifest == check.manifest,
        check.stage is Looking ==> check.manifest.contains_key(check.stage->conflict) && step(
            check,
            event,
        ).check.manifest == check.manifest.remove(check.stage->conflict),
{
    match (check.stage, event) {
        (StageView::Asked { name }, CheckEvent::Answer(answer)) => {
            let list = releases(answer.releases@);
            if let Some(i) = newest(list) {
                lemma_walk_keeps_manifest(check, name, list[i], version_of(list[i]), 0, Seq::empty());
            }
        },
        (
            StageView::Looking { name, release, version, next, conflict, file_name },
            CheckEvent::FilePresent(_),
        ) => {
            lemma_walk_keeps_manifest(
                without(check, conflict),
                name,
                release,
                version,
                next,
                gone_lines(check, conflict, file_name),
            );
        },
        _ => {},
    }
}

pub(crate) proof fn lemma_walk_keeps_manifest(
    check: CheckView,
    name: Seq<char>,
    release: ReleaseView,
    version: ModVersionView,
    next: int,
    notes: Seq<NoteView>,
)
    requires
        0 <= next <= release.dependencies.len(),
    ensures
        ({
            let s = walk(check, name, release, version, next, notes);
            &&& s.check.manifest == check.manifest
            &&& s.action is LookFor <==> s.check.stage is Looking
            &&& s.action is Fetch ==> s.check.stage is Asked
        }),
    decreases release.dependencies.len() - next,
{
    if next < release.dependencies.len() && conflict_in(
        check.manifest,
        release.dependencies[next],
    ) is None {
        let dependency = release.dependencies[next];
        lemma_walk_keeps_manifest(
            CheckView {
                todo: match wanted(check.done, dependency) {
                    Some(n) => check.todo.push(n),
                    None => check.todo,
                },
                ..check
            },
            name,
            release,
            version,
            next + 1,
            notes + dependency_lines(check.done, name, dependency),
        );
    }
}

/// A check ends: where finitely many mods hold those of the manifest and, with
/// each, every mod that its newest release needs, it asks for no more answers
/// than there are such mods, and for no more files than there are mods in the
/// manifest.
pub proof fn law_check_ends(check: CheckView, events: Seq<CheckEvent>, set: Set<Seq<char>>)
    requires
        begun(check),
        goes_on(check, events),
        set.finite(),
        closed_under(set, check.manifest, past(check, events).answers),
    ensures
        events.len() <= set.len() + check.manifest.len(),
{
    lemma_steps_are_counted(check, events);
    law_only_needed_mods_are_asked(check, events, set);
    vstd::set_lib::lemma_len_subset(run(check, events).done, set);
    lemma_run_holds(check, events);
    let end = run(check, events);
    if end.stage is Looking {
        assert(end.manifest.dom().contains(end.stage->conflict));
        assert(end.manifest.dom().len() > 0);
    }
}

} // verus!

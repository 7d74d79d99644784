//! What holds of every automated run.

use vstd::prelude::*;
use crate::automated::{
    after_token, check_begun, checked, downloads_line, follows, fresh_check, list_line,
    next_download, AutoActionView, AutoEvent, AutoStageView, AutoStepView, SessionView,
};
use crate::clock::{rfc3339_text, Timestamp};
use crate::folder_laws::{law_extension_of_a_download, law_new_mods_begin};
use crate::manifest::{is_extension, plain_name};
use crate::models::{ConfigView, FileToDownloadView, ManifestView};
use crate::new_mods::{
    json_pretty, listed, new_mods_step, ModReply, NewModsActionView, NewModsView,
};
use crate::notes::{out, NoteView};
use crate::string_map::{enumerates, lists_values};
use crate::text::decimal;
use crate::update::{step, CheckActionView, CheckEvent};
use crate::update_laws::lemma_next_position;

verus! {

/// A login with user name and password leaves no password behind, any other
/// token leaves it alone, and nothing else of the configuration changes but the
/// stored session.
pub proof fn law_password_is_discarded(
    config: ConfigView,
    token: Seq<char>,
    stamp: Seq<char>,
    internal: bool,
)
    ensures
        internal ==> after_token(config, token, stamp, internal).password.len() == 0,
        !internal ==> after_token(config, token, stamp, internal).password == config.password,
        after_token(config, token, stamp, internal).username == config.username,
        after_token(config, token, stamp, internal).use_tui == config.use_tui,
        after_token(config, token, stamp, internal).token_source == config.token_source,
        !internal && token == config.last_session_token ==> after_token(
            config,
            token,
            stamp,
            internal,
        ) == config,
{
}

/// The manifest after a download: the one that the next download starts from,
/// or the one that is to be saved.
pub open spec fn manifest_after(next: AutoStepView) -> ManifestView {
    match next.action {
        AutoActionView::SaveManifest { manifest } => manifest,
        _ => next.stage->Downloading_manifest,
    }
}

/// A download that fails leaves the manifest alone; one that succeeds sets the
/// version of its mod and touches no other.
pub proof fn law_download_result(
    stage: AutoStageView,
    result: Result<(), String>,
    now: Timestamp,
    next: AutoStepView,
)
    requires
        stage is Downloading,
        follows(stage, AutoEvent::Downloaded(result), now, next),
    ensures
        result is Err ==> manifest_after(next) == stage->Downloading_manifest,
        result is Ok ==> {
            let name = stage->Downloading_file.base_name;
            &&& manifest_after(next).contains_key(name)
            &&& manifest_after(next)[name].version == stage->Downloading_file.new_version
            &&& manifest_after(next).remove(name) == stage->Downloading_manifest.remove(name)
        },
{
    if result is Ok {
        let name = stage->Downloading_file.base_name;
        assert(manifest_after(next).remove(name) =~= stage->Downloading_manifest.remove(name));
    }
}

/// A run from `stage`: what happened when, and what each step led to.
pub open spec fn trace(
    stage: AutoStageView,
    events: Seq<AutoEvent>,
    times: Seq<Timestamp>,
    steps: Seq<AutoStepView>,
) -> bool
    decreases events.len(),
{
    &&& times.len() == events.len()
    &&& steps.len() == events.len()
    &&& events.len() > 0 ==> {
        &&& follows(stage, events[0], times[0], steps[0])
        &&& trace(steps[0].stage, events.skip(1), times.skip(1), steps.skip(1))
    }
}

/// Every file of the queue is downloaded once, in order, whatever becomes of
/// the others; then the manifest is saved.
pub proof fn law_downloads_in_order(
    stage: AutoStageView,
    events: Seq<AutoEvent>,
    times: Seq<Timestamp>,
    steps: Seq<AutoStepView>,
    i: int,
)
    requires
        stage is Downloading,
        trace(stage, events, times, steps),
        forall|j: int| 0 <= j < events.len() ==> #[trigger] events[j] is Downloaded,
        0 <= i < events.len(),
        i <= stage->rest.len(),
    ensures
        i < stage->rest.len() ==> steps[i].action == (AutoActionView::Download {
            file: stage->rest[i],
            username: stage->Downloading_session.username,
            token: stage->Downloading_session.token,
        }),
        i == stage->rest.len() ==> steps[i].action is SaveManifest && steps[i].stage == (
        AutoStageView::SavingManifest { failed: stage->Downloading_failed }),
    decreases events.len(),
{
    assert(events[0] is Downloaded);
    if i > 0 {
        let after = steps[0].stage;
        assert(after is Downloading);
        assert(after->rest == stage->rest.skip(1));
        assert forall|j: int| 0 <= j < events.skip(1).len() implies #[trigger] events.skip(
            1,
        )[j] is Downloaded by {
            assert(events.skip(1)[j] == events[j + 1]);
        }
        law_downloads_in_order(after, events.skip(1), times.skip(1), steps.skip(1), i - 1);
        assert(steps.skip(1)[i - 1] == steps[i]);
        if i < stage->rest.len() {
            assert(after->rest[i - 1] == stage->rest[i]);
        }
    }
}

/// What was asked to be done up to a point of a run holds a manifest to be
/// saved.
pub open spec fn has_saved(steps: Seq<AutoStepView>) -> bool {
    exists|i: int| 0 <= i < steps.len() && (#[trigger] steps[i]).action is SaveManifest
}

/// Stages that come behind the saving of the manifest.
pub open spec fn is_late(stage: AutoStageView) -> bool {
    stage is SavingManifest || stage is WritingNewMods
}

/// A run that finishes has saved the manifest before.
pub proof fn law_finished_run_has_saved(
    stage: AutoStageView,
    events: Seq<AutoEvent>,
    times: Seq<Timestamp>,
    steps: Seq<AutoStepView>,
)
    requires
        trace(stage, events, times, steps),
        !is_late(stage),
        steps.len() > 0,
        steps.last().action is Finished,
    ensures
        has_saved(steps),
    decreases events.len(),
{
    let first = steps[0];
    if first.action is SaveManifest {
        assert(steps[0].action is SaveManifest);
    } else {
        assert(!is_late(first.stage));
        assert(!(first.action is Finished));
        let rest = steps.skip(1);
        assert(steps.len() > 1);
        assert(rest.last() == steps.last());
        law_finished_run_has_saved(first.stage, events.skip(1), times.skip(1), rest);
        let i = choose|i: int| 0 <= i < rest.len() && (#[trigger] rest[i]).action is SaveManifest;
        assert(steps[i + 1] == rest[i]);
    }
}

/// What cannot be done ends the run with that error, and a run that has ended
/// does nothing any more.
pub proof fn law_errors_end_the_run(
    stage: AutoStageView,
    event: AutoEvent,
    now: Timestamp,
    next: AutoStepView,
)
    requires
        follows(stage, event, now, next),
    ensures
        stage is Over ==> next.stage is Over && next.action is Unexpected && next.notes.len() == 0,
        !(stage is Over) && !(stage is Ready) && event is Failed ==> next.stage is Over
            && next.action == (AutoActionView::Stopped { error: event->error@ }),
{
}

/// Without a configuration the run writes the template and then hands over to
/// the interactive program, and does nothing else.
pub proof fn law_missing_config(
    events: Seq<AutoEvent>,
    times: Seq<Timestamp>,
    steps: Seq<AutoStepView>,
)
    requires
        trace(AutoStageView::Ready, events, times, steps),
        events.len() == 2,
        events[0] == (AutoEvent::Begin { config_exists: false }),
        events[1] is Saved,
    ensures
        steps[0].action == (AutoActionView::CreateTemplate { config: crate::config::template() }),
        steps[1].action is LaunchTui,
        steps[1].stage is Over,
{
    assert(events.skip(1)[0] == events[1]);
    assert(steps.skip(1)[0] == steps[1]);
    reveal_with_fuel(trace, 3);
}

/// Who downloads, as far as a stage knows.
pub open spec fn session_in(stage: AutoStageView) -> Option<SessionView> {
    match stage {
        AutoStageView::SavingConfig { session } => Some(session),
        AutoStageView::LoadingManifest { session } => Some(session),
        AutoStageView::ReadingNewMods { session, .. } => Some(session),
        AutoStageView::AddingMods { session, .. } => Some(session),
        AutoStageView::Checking { session, .. } => Some(session),
        AutoStageView::Downloading { session, .. } => Some(session),
        _ => None,
    }
}

/// A session comes from the token that was obtained and the user name of the
/// configuration that it was obtained for, and stays as it is; every download
/// carries it.
pub proof fn law_session(
    stage: AutoStageView,
    event: AutoEvent,
    now: Timestamp,
    next: AutoStepView,
)
    requires
        follows(stage, event, now, next),
    ensures
        session_in(next.stage) is Some ==> session_in(next.stage) == session_in(stage) || (
        stage is Authenticating && event is Token && (session_in(next.stage)->0).username
            == stage->Authenticating_config.username && (session_in(next.stage)->0).token
            == event->token@),
        next.action matches AutoActionView::Download { username, token, .. } ==> session_in(
            next.stage,
        ) is Some && username == (session_in(next.stage)->0).username && token == (session_in(
            next.stage,
        )->0).token,
        next.stage matches AutoStageView::Authenticating { config } ==> stage == next.stage || (
        stage is LoadingConfig && event is ConfigLoaded && config == event->ConfigLoaded_0@),
{
}

/// The stage before a step of a run.
pub open spec fn stage_before(
    stage: AutoStageView,
    steps: Seq<AutoStepView>,
    i: int,
) -> AutoStageView {
    if i <= 0 {
        stage
    } else {
        steps[i - 1].stage
    }
}

proof fn lemma_trace_at(
    stage: AutoStageView,
    events: Seq<AutoEvent>,
    times: Seq<Timestamp>,
    steps: Seq<AutoStepView>,
    i: int,
)
    requires
        trace(stage, events, times, steps),
        0 <= i < events.len(),
    ensures
        follows(stage_before(stage, steps, i), events[i], times[i], steps[i]),
        steps.len() == events.len(),
    decreases events.len(),
{
    if i > 0 {
        lemma_trace_at(steps[0].stage, events.skip(1), times.skip(1), steps.skip(1), i - 1);
        assert(events.skip(1)[i - 1] == events[i]);
        assert(times.skip(1)[i - 1] == times[i]);
        assert(steps.skip(1)[i - 1] == steps[i]);
        if i > 1 {
            assert(steps.skip(1)[i - 2] == steps[i - 1]);
        }
    }
}

proof fn lemma_token_came(
    events: Seq<AutoEvent>,
    times: Seq<Timestamp>,
    steps: Seq<AutoStepView>,
    i: int,
) -> (t: int)
    requires
        trace(AutoStageView::Ready, events, times, steps),
        0 <= i <= events.len(),
        session_in(stage_before(AutoStageView::Ready, steps, i)) is Some,
    ensures
        0 <= t < i,
        events[t] is Token,
        stage_before(AutoStageView::Ready, steps, t) is Authenticating,
        session_in(stage_before(AutoStageView::Ready, steps, i)) == Some(
            SessionView {
                username: stage_before(
                    AutoStageView::Ready,
                    steps,
                    t,
                )->Authenticating_config.username,
                token: events[t]->token@,
            },
        ),
    decreases i,
{
    lemma_trace_at(AutoStageView::Ready, events, times, steps, i - 1);
    let before = stage_before(AutoStageView::Ready, steps, i - 1);
    law_session(before, events[i - 1], times[i - 1], steps[i - 1]);
    if session_in(before) == session_in(steps[i - 1].stage) {
        lemma_token_came(events, times, steps, i - 1)
    } else {
        i - 1
    }
}

proof fn lemma_config_came(
    events: Seq<AutoEvent>,
    times: Seq<Timestamp>,
    steps: Seq<AutoStepView>,
    i: int,
) -> (c: int)
    requires
        trace(AutoStageView::Ready, events, times, steps),
        0 <= i <= events.len(),
        stage_before(AutoStageView::Ready, steps, i) is Authenticating,
    ensures
        0 <= c < i,
        events[c] is ConfigLoaded,
        events[c]->ConfigLoaded_0@ == stage_before(
            AutoStageView::Ready,
            steps,
            i,
        )->Authenticating_config,
        stage_before(AutoStageView::Ready, steps, c) is LoadingConfig,
    decreases i,
{
    lemma_trace_at(AutoStageView::Ready, events, times, steps, i - 1);
    let before = stage_before(AutoStageView::Ready, steps, i - 1);
    law_session(before, events[i - 1], times[i - 1], steps[i - 1]);
    if before == steps[i - 1].stage {
        lemma_config_came(events, times, steps, i - 1)
    } else {
        i - 1
    }
}

/// In every run each download carries the token that was obtained in that run
/// and the user name of the configuration that was loaded in it: first the
/// configuration was waited for and came, then the token was waited for and
/// came, and then the download was asked for.
pub proof fn law_downloads_use_the_session(
    events: Seq<AutoEvent>,
    times: Seq<Timestamp>,
    steps: Seq<AutoStepView>,
    i: int,
) -> (at: (int, int))
    requires
        trace(AutoStageView::Ready, events, times, steps),
        0 <= i < events.len(),
        steps[i].action is Download,
    ensures
        0 <= at.0 < at.1 <= i,
        stage_before(AutoStageView::Ready, steps, at.0) is LoadingConfig,
        events[at.0] is ConfigLoaded,
        stage_before(AutoStageView::Ready, steps, at.1) is Authenticating,
        events[at.1] is Token,
        steps[i].action->username == events[at.0]->ConfigLoaded_0.username@,
        steps[i].action->token == events[at.1]->token@,
{
    lemma_trace_at(AutoStageView::Ready, events, times, steps, i);
    law_session(
        stage_before(AutoStageView::Ready, steps, i),
        events[i],
        times[i],
        steps[i],
    );
    let t: int = lemma_token_came(events, times, steps, i + 1);
    let c: int = lemma_config_came(events, times, steps, t);
    (c, t)
}

/// A token that was obtained is entered in the configuration: with the time
/// where it differs from the stored one, and without the password after a login
/// with user name and password. What has changed that way is saved, and where
/// nothing has, the run goes on to the manifest.
pub proof fn law_token_is_entered(
    config: ConfigView,
    token: String,
    internal: bool,
    now: Timestamp,
    next: AutoStepView,
)
    requires
        follows(
            AutoStageView::Authenticating { config },
            AutoEvent::Token { token, internal },
            now,
            next,
        ),
    ensures
        next.action is SaveConfig <==> token@ != config.last_session_token || internal,
        next.action is LoadManifest <==> token@ == config.last_session_token && !internal,
        next.action matches AutoActionView::SaveConfig { config: saved } ==> {
            &&& saved.last_session_token == token@
            &&& token@ != config.last_session_token ==> saved.last_login == rfc3339_text(now)
            &&& token@ == config.last_session_token ==> saved.last_login == config.last_login
            &&& internal ==> saved.password.len() == 0
            &&& !internal ==> saved.password == config.password
            &&& saved.username == config.username
            &&& saved.use_tui == config.use_tui
            &&& saved.token_source == config.token_source
        },
        next.notes.len() == 0,
{
}

/// The run asks for a token for the configuration that was loaded, checks the
/// manifest that was loaded, and reads the list of new mods in between.
pub proof fn law_what_is_loaded_is_used(
    stage: AutoStageView,
    event: AutoEvent,
    now: Timestamp,
    next: AutoStepView,
)
    requires
        follows(stage, event, now, next),
    ensures
        stage is LoadingConfig && event is ConfigLoaded ==> next.action == (
        AutoActionView::GetToken { config: event->ConfigLoaded_0@ }),
        stage is SavingConfig && event is Saved ==> next.action is LoadManifest,
        stage is LoadingManifest && event is ManifestLoaded ==> next.action is ReadNewMods
            && next.stage is ReadingNewMods && next.stage->ReadingNewMods_manifest
            == event->ManifestLoaded_0@,
        stage is Ready && event is Begin ==> (next.action is LoadConfig <==> event->config_exists)
            && (next.action is CreateTemplate <==> !event->config_exists),
        stage is CreatingTemplate && event is Saved ==> next.action is LaunchTui,
{
}

/// Whether a run goes on to check this manifest, with these mods to be written
/// back in the end: nothing was found yet, and where there is nothing to check,
/// the manifest is saved at once.
pub open spec fn begins_to_check(
    next: AutoStepView,
    manifest: ManifestView,
    failed: Option<Seq<Seq<char>>>,
) -> bool {
    if manifest.dom().len() == 0 {
        &&& next.action == (AutoActionView::SaveManifest { manifest })
        &&& next.stage == (AutoStageView::SavingManifest { failed })
    } else {
        &&& next.stage is Checking
        &&& next.stage->Checking_failed == failed
        &&& next.stage->check.manifest == manifest
        &&& next.stage->check.queue.dom().len() == 0
        &&& next.action is Fetch
        &&& manifest.contains_key(next.action->Fetch_name)
    }
}

proof fn lemma_check_begins(
    session: SessionView,
    failed: Option<Seq<Seq<char>>>,
    manifest: ManifestView,
    notes: Seq<NoteView>,
    next: AutoStepView,
)
    requires
        check_begun(session, failed, manifest, notes, next),
    ensures
        begins_to_check(next, manifest, failed),
{
    let todo = choose|todo: Seq<Seq<char>>| #[trigger]
        enumerates(todo, manifest) && checked(
            session,
            failed,
            step(
                fresh_check(manifest, todo),
                CheckEvent::Begin,
            ),
            notes,
            next,
        );
    let check = fresh_check(manifest, todo);
    lemma_next_position(check.todo, check.done);
    let s = step(check, CheckEvent::Begin);
    if todo.len() == 0 {
        assert(s.action is Finished);
        assert(check.queue.dom() =~= Set::<Seq<char>>::empty());
        lemma_nothing_listed(check.queue);
    } else {
        assert(!check.done.contains(todo[0]));
        assert(s.action is Fetch);
        let name = s.action->Fetch_name;
        assert(todo.contains(name));
        assert(todo.to_set().contains(name));
        assert(manifest.dom().contains(name));
        assert(check.queue.dom() =~= Set::<Seq<char>>::empty());
    }
}

proof fn lemma_nothing_listed(queue: Map<Seq<char>, FileToDownloadView>)
    requires
        queue.dom().len() == 0,
        queue.dom().finite(),
    ensures
        forall|order: Seq<FileToDownloadView>| #[trigger]
            lists_values(order, queue) ==> order.len() == 0,
{
    assert forall|order: Seq<FileToDownloadView>| #[trigger]
        lists_values(order, queue) implies order.len() == 0 by {
        let keys = choose|keys: Seq<Seq<char>>| #[trigger]
            enumerates(keys, queue) && order == keys.map_values(|k: Seq<char>| queue[k]);
        assert(keys.len() == 0);
    }
}

/// Without a list of new mods the manifest is checked as it is, and nothing will
/// be written back.
pub proof fn law_without_a_list(
    session: SessionView,
    manifest: ManifestView,
    now: Timestamp,
    next: AutoStepView,
)
    requires
        follows(
            AutoStageView::ReadingNewMods { session, manifest },
            AutoEvent::NewModsFile(None),
            now,
            next,
        ),
    ensures
        begins_to_check(next, manifest, None),
{
    lemma_check_begins(
        session,
        None,
        manifest,
        seq![list_line(false)],
        next,
    );
}

/// With a list of new mods the run stops if the list cannot be read, asks about
/// the listed mods that the manifest lacks, or checks the manifest at once where
/// it lacks none.
pub proof fn law_with_a_list(
    session: SessionView,
    manifest: ManifestView,
    content: String,
    now: Timestamp,
    next: AutoStepView,
)
    requires
        follows(
            AutoStageView::ReadingNewMods { session, manifest },
            AutoEvent::NewModsFile(Some(content)),
            now,
            next,
        ),
    ensures
        match listed(content@) {
            Err(error) => next.action == (AutoActionView::Stopped { error }),
            Ok(names) => {
                let lacks = exists|i: int|
                    0 <= i < names.len() && !manifest.contains_key(#[trigger] names[i]);
                &&& lacks ==> next.stage is AddingMods && next.action is AskMod
                    && next.stage->mods.manifest == manifest && next.stage->mods.failed.len() == 0
                    && names.contains(next.action->AskMod_name) && !manifest.contains_key(
                    next.action->AskMod_name,
                )
                &&& !lacks ==> begins_to_check(next, manifest, Some(Seq::empty()))
            },
        },
{
    if let Ok(names) = listed(content@) {
        let mods = NewModsView {
            manifest,
            asked: None,
            names,
            failed: Seq::empty(),
        };
        law_new_mods_begin(mods);
        let s = new_mods_step(mods, None);
        match s.action {
            NewModsActionView::Ask { name, .. } => {
                assert(names.contains(name));
            },
            NewModsActionView::Finished => {
                lemma_check_begins(
                    session,
                    Some(s.mods.failed),
                    s.mods.manifest,
                    seq![list_line(true)] + s.notes,
                    next,
                );
            },
        }
    }
}

/// Once all new mods were dealt with, the manifest with them is checked, and
/// those that failed are kept to be written back.
pub proof fn law_new_mods_are_checked(
    stage: AutoStageView,
    reply: ModReply,
    now: Timestamp,
    next: AutoStepView,
)
    requires
        stage is AddingMods,
        follows(stage, AutoEvent::Reply(reply), now, next),
    ensures
        ({
            let s = new_mods_step(stage->mods, Some(reply));
            &&& s.action matches NewModsActionView::Ask { name, url } ==> next.action == (
            AutoActionView::AskMod { name, url }) && next.stage is AddingMods && next.stage->mods
                == s.mods
            &&& s.action is Finished ==> begins_to_check(
                next,
                s.mods.manifest,
                Some(s.mods.failed),
            )
        }),
{
    let s = new_mods_step(stage->mods, Some(reply));
    if s.action is Finished {
        lemma_check_begins(
            stage->AddingMods_session,
            Some(s.mods.failed),
            s.mods.manifest,
            Seq::empty() + s.notes,
            next,
        );
    }
}

/// The downloads of a run that are still to be made.
pub open spec fn to_download(next: AutoStepView) -> Seq<FileToDownloadView> {
    match next.stage {
        AutoStageView::Downloading { file, rest, .. } => seq![file] + rest,
        _ => Seq::empty(),
    }
}

/// What a complete check found is downloaded, every file once and nothing else,
/// and the downloads start from the manifest that the check left; where nothing
/// was found, that manifest is saved. What the check asks for before is passed
/// on as it is.
pub proof fn law_found_files_are_downloaded(
    stage: AutoStageView,
    event: CheckEvent,
    now: Timestamp,
    next: AutoStepView,
)
    requires
        stage is Checking,
        follows(stage, AutoEvent::Check(event), now, next),
    ensures
        ({
            let s = step(stage->check, event);
            match s.action {
                CheckActionView::Finished { queue } => {
                    let files = to_download(next);
                    &&& files.len() == queue.len()
                    &&& forall|k: Seq<char>| #[trigger]
                        queue.contains_key(k) ==> files.contains(queue[k])
                    &&& forall|i: int|
                        0 <= i < files.len() ==> exists|k: Seq<char>| #[trigger]
                            queue.contains_key(k) && queue[k] == #[trigger] files[i]
                    &&& files.len() > 0 ==> next.action is Download && next.action->file == files[0]
                        && next.stage->Downloading_manifest == s.check.manifest
                        && next.stage->Downloading_failed == stage->Checking_failed
                    &&& files.len() == 0 ==> next.action == (AutoActionView::SaveManifest {
                        manifest: s.check.manifest,
                    }) && next.stage == (AutoStageView::SavingManifest {
                        failed: stage->Checking_failed,
                    })
                },
                CheckActionView::Fetch { name, url } => next.action == (AutoActionView::Fetch {
                    name,
                    url,
                }) && next.stage is Checking && next.stage->check == s.check,
                CheckActionView::LookFor { file_name } => next.action == (
                AutoActionView::LookFor { file_name }) && next.stage is Checking
                    && next.stage->check == s.check,
                CheckActionView::Conflict { message } => next.action == (
                AutoActionView::Conflict { message }) && next.stage is Over,
                CheckActionView::Failed { error } => next.action == (AutoActionView::Stopped {
                    error,
                }) && next.stage is Over,
                CheckActionView::Unexpected => next.action is Unexpected,
            }
        }),
{
    let s = step(stage->check, event);
    if let CheckActionView::Finished { queue } = s.action {
        let order = choose|order: Seq<FileToDownloadView>| #[trigger]
            lists_values(order, queue) && next == next_download(
                stage->Checking_session,
                stage->Checking_failed,
                s.check.manifest,
                order,
                (Seq::empty() + s.notes).push(downloads_line(order.len())),
            );
        let keys = choose|keys: Seq<Seq<char>>| #[trigger]
            enumerates(keys, queue) && order == keys.map_values(|k: Seq<char>| queue[k]);
        let files = to_download(next);
        assert(files =~= order);
        assert forall|k: Seq<char>| #[trigger] queue.contains_key(k) implies files.contains(
            queue[k],
        ) by {
            assert(queue.dom().contains(k));
            assert(keys.to_set().contains(k));
            let i = choose|i: int| 0 <= i < keys.len() && keys[i] == k;
            assert(order[i] == queue[k]);
        }
        assert forall|i: int| 0 <= i < files.len() implies exists|k: Seq<char>| #[trigger]
            queue.contains_key(k) && queue[k] == #[trigger] files[i] by {
            assert(keys.contains(keys[i]));
            assert(keys.to_set().contains(keys[i]));
            assert(queue.contains_key(keys[i]));
        }
    }
}

/// After the manifest was saved, a run that read a list of new mods writes back
/// exactly those that failed, and one that read none is finished; once they are
/// written, the run is finished too.
pub proof fn law_what_is_written_back(
    stage: AutoStageView,
    now: Timestamp,
    next: AutoStepView,
)
    requires
        follows(stage, AutoEvent::Saved, now, next),
    ensures
        stage matches AutoStageView::SavingManifest { failed } ==> match failed {
            Some(names) => next.action == (AutoActionView::WriteNewMods {
                content: json_pretty(names),
            }) && next.stage == (AutoStageView::WritingNewMods { failed: names }),
            None => next.action is Finished && next.stage is Over,
        },
        stage is WritingNewMods ==> next.action is Finished && next.stage is Over,
{
}

/// The line before the downloads says how many there are.
pub proof fn law_downloads_are_announced(count: nat)
    ensures
        count == 0 ==> downloads_line(count) == out(
            "\nAll checked local files and their dependencies are up-to-date."@,
        ),
        count > 0 ==> downloads_line(count) == out(
            "\nStarting downloads for "@ + decimal(count) + " files..."@,
        ),
{
}

/// Whether an event is the one that a stage waits for.
pub open spec fn waited_for(stage: AutoStageView, event: AutoEvent) -> bool {
    match stage {
        AutoStageView::Ready => event is Begin,
        AutoStageView::CreatingTemplate => event is Saved || event is Failed,
        AutoStageView::LoadingConfig => event is ConfigLoaded || event is Failed,
        AutoStageView::Authenticating { .. } => event is Token || event is Failed,
        AutoStageView::SavingConfig { .. } => event is Saved || event is Failed,
        AutoStageView::LoadingManifest { .. } => event is ManifestLoaded || event is Failed,
        AutoStageView::ReadingNewMods { .. } => event is NewModsFile || event is Failed,
        AutoStageView::AddingMods { .. } => event is Reply || event is Failed,
        AutoStageView::Checking { .. } => event is Check || event is Failed,
        AutoStageView::Downloading { .. } => event is Downloaded || event is Failed,
        AutoStageView::SavingManifest { .. } => event is Saved || event is Failed,
        AutoStageView::WritingNewMods { .. } => event is Saved || event is Failed,
        AutoStageView::Over => false,
    }
}

/// An event that was not waited for changes nothing and says nothing.
pub proof fn law_unexpected_event(
    stage: AutoStageView,
    event: AutoEvent,
    now: Timestamp,
    next: AutoStepView,
)
    requires
        follows(stage, event, now, next),
        !waited_for(stage, event),
    ensures
        next.stage == stage,
        next.action is Unexpected,
        next.notes.len() == 0,
{
}

/// A download that succeeded is entered with the extension that its file is named
/// with, or as a zip file where it is named without one.
pub proof fn law_download_extension(
    stage: AutoStageView,
    now: Timestamp,
    next: AutoStepView,
    stem: Seq<char>,
    extension: Seq<char>,
)
    requires
        stage is Downloading,
        follows(stage, AutoEvent::Downloaded(Ok(())), now, next),
        plain_name(stage->Downloading_file.full_new_name),
        stem.len() > 0,
        !extension.contains('.'),
    ensures
        ({
            let file = stage->Downloading_file;
            &&& file.full_new_name == stem + seq!['.'] + extension ==> manifest_after(
                next,
            )[file.base_name].extension == extension
            &&& !file.full_new_name.contains('.') ==> manifest_after(
                next,
            )[file.base_name].extension == "zip"@
        }),
{
    let file = stage->Downloading_file;
    let found = manifest_after(next)[file.base_name].extension;
    let other = if file.full_new_name.contains('.') {
        Seq::<char>::empty()
    } else {
        file.full_new_name
    };
    assert(is_extension(found, file.full_new_name));
    law_extension_of_a_download(stem, extension, other, found);
}

} // verus!

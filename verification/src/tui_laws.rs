//! What holds of the interactive program whatever is typed and whatever
//! happens.

use vstd::prelude::*;
use crate::clock::Timestamp;
use crate::manifest::placeholder;
use crate::models::FileToDownloadView;
use crate::text::trimmed;
use crate::tui::{
    adding_begun, current, download_asked, edited, editing_key, event_handled, field, key_pressed,
    moved_down, moved_up, next_panel, normal_key, quiet, scrolled, shortened, with_field,
    work_ended, AppEventView, ConfigField, InputMode, Key, ListPosition, Panel, TuiCommandView,
    TuiView,
};
use crate::tui_tasks::{all_done, batch_step, BatchActionView, BatchView};

verus! {

/// The program after some keys.
pub open spec fn pressed(app: TuiView, keys: Seq<Key>) -> TuiView
    decreases keys.len(),
{
    if keys.len() == 0 {
        app
    } else {
        pressed(key_pressed(app, keys[0]).app, keys.skip(1))
    }
}

/// Whether none of some keys asks for work.
pub open spec fn no_work(app: TuiView, keys: Seq<Key>) -> bool
    decreases keys.len(),
{
    keys.len() > 0 ==> {
        &&& key_pressed(app, keys[0]).command is None
        &&& no_work(key_pressed(app, keys[0]).app, keys.skip(1))
    }
}

/// Whether some keys type a text.
pub open spec fn types(keys: Seq<Key>, text: Seq<char>) -> bool {
    &&& keys.len() == text.len()
    &&& forall|i: int| 0 <= i < keys.len() ==> #[trigger] keys[i] == Key::Char(text[i])
}

/// Tab goes round: it leads from the local mods to the queue, to the log and
/// back, so that each panel has its turn once in three times; it changes nothing
/// else and asks for no work.
pub proof fn law_tab_goes_round(app: TuiView)
    ensures
        ({
            let one = normal_key(app, Key::Tab);
            let two = normal_key(one.app, Key::Tab);
            let three = normal_key(two.app, Key::Tab);
            &&& one == quiet(TuiView { active_panel: next_panel(app.active_panel), ..app })
            &&& two == quiet(
                TuiView { active_panel: next_panel(next_panel(app.active_panel)), ..app },
            )
            &&& three == quiet(app)
            &&& app.active_panel != one.app.active_panel
            &&& one.app.active_panel != two.app.active_panel
            &&& two.app.active_panel != app.active_panel
        }),
        next_panel(Panel::LocalMods) == Panel::DownloadQueue,
        next_panel(Panel::DownloadQueue) == Panel::Log,
        next_panel(Panel::Log) == Panel::LocalMods,
        app.input_mode == InputMode::Normal ==> pressed(
            app,
            seq![Key::Tab, Key::Tab, Key::Tab],
        ) == app,
{
    let one = normal_key(app, Key::Tab).app;
    let two = normal_key(one, Key::Tab).app;
    assert(normal_key(two, Key::Tab).app =~= app);
    let keys = seq![Key::Tab, Key::Tab, Key::Tab];
    reveal_with_fuel(pressed, 4);
    assert(keys.skip(1)[0] == Key::Tab);
    assert(keys.skip(1).skip(1)[0] == Key::Tab);
    assert(keys.skip(1).skip(1).skip(1).len() == 0);
}

/// Nothing that happens removes or changes a line of the log, and each event
/// adds one at most.
pub proof fn law_log_only_grows(
    app: TuiView,
    event: AppEventView,
    now: Timestamp,
    extension: Seq<char>,
)
    ensures
        app.status_log.is_prefix_of(event_handled(app, event, now, extension).app.status_log),
        event_handled(app, event, now, extension).app.status_log.len() <= app.status_log.len() + 1,
{
}

/// The program ends only when `q` or `Q` is pressed while nothing is being
/// typed, and then it ends.
pub proof fn law_quit(app: TuiView, event: AppEventView, now: Timestamp, extension: Seq<char>)
    ensures
        event_handled(app, event, now, extension).app.should_quit <==> app.should_quit || (
        app.input_mode == InputMode::Normal && (event == AppEventView::Key(Key::Char('q')) || event
            == AppEventView::Key(Key::Char('Q')))),
{
}

/// While something is being typed, every key but Enter leaves the
/// configuration, the manifest, the queue and the token alone and asks for no
/// work.
pub proof fn law_typing_changes_nothing(app: TuiView, key: Key)
    requires
        app.input_mode != InputMode::Normal,
        key != Key::Enter,
    ensures
        key_pressed(app, key).command is None,
        key_pressed(app, key).app.config == app.config,
        key_pressed(app, key).app.manifest == app.manifest,
        key_pressed(app, key).app.download_queue == app.download_queue,
        key_pressed(app, key).app.token == app.token,
        key_pressed(app, key).app.input_mode == app.input_mode || (key == Key::Esc && key_pressed(
            app,
            key,
        ).app.input_mode == InputMode::Normal),
{
}

/// The configuration can be edited at will and is as before once the edit is
/// cancelled: no keys but Enter and Esc, then Esc, change it or ask for work.
pub proof fn law_edit_can_be_cancelled(app: TuiView, keys: Seq<Key>)
    requires
        app.input_mode == InputMode::EditingConfig,
        forall|i: int| 0 <= i < keys.len() ==> #[trigger] keys[i] != Key::Enter && keys[i]
            != Key::Esc,
    ensures
        pressed(app, keys.push(Key::Esc)).config == app.config,
        pressed(app, keys.push(Key::Esc)).input_mode == InputMode::Normal,
        no_work(app, keys.push(Key::Esc)),
    decreases keys.len(),
{
    let all = keys.push(Key::Esc);
    if keys.len() == 0 {
        assert(all.skip(1).len() == 0);
        reveal_with_fuel(pressed, 2);
        reveal_with_fuel(no_work, 2);
    } else {
        assert(keys[0] != Key::Enter);
        let next = key_pressed(app, keys[0]).app;
        assert(next.input_mode == InputMode::EditingConfig);
        assert forall|i: int| 0 <= i < keys.skip(1).len() implies #[trigger] keys.skip(1)[i]
            != Key::Enter && keys.skip(1)[i] != Key::Esc by {
            assert(keys.skip(1)[i] == keys[i + 1]);
        }
        law_edit_can_be_cancelled(next, keys.skip(1));
        assert(all.skip(1) =~= keys.skip(1).push(Key::Esc));
        assert(all[0] == keys[0]);
    }
}

/// Backspace takes back the character that was typed before.
pub proof fn law_backspace_undoes(app: TuiView, c: char)
    requires
        app.input_mode != InputMode::Normal,
    ensures
        key_pressed(key_pressed(app, Key::Char(c)).app, Key::Backspace).app == app,
{
    let typed = key_pressed(app, Key::Char(c)).app;
    let back = key_pressed(typed, Key::Backspace).app;
    assert(app.mod_input_buffer.push(c).drop_last() =~= app.mod_input_buffer);
    assert(field(app).push(c).drop_last() =~= field(app));
    assert(back =~= app);
}

/// To open the editor and save at once changes nothing of the configuration.
pub proof fn law_unedited_config_is_kept(app: TuiView)
    requires
        app.input_mode == InputMode::Normal,
    ensures
        ({
            let open = key_pressed(app, Key::Char('c')).app;
            let saved = key_pressed(open, Key::Enter);
            &&& open.input_mode == InputMode::EditingConfig
            &&& saved.app.config == app.config
            &&& saved.command == Some(TuiCommandView::SaveConfig { config: app.config })
        }),
{
    let open = key_pressed(app, Key::Char('c')).app;
    assert(edited(open) =~= app.config);
}

/// The text of the field that is not being typed in.
pub open spec fn other_text(app: TuiView) -> Seq<char> {
    match app.config_edit_focus {
        ConfigField::Username => app.config_edit_password,
        ConfigField::Password => app.config_edit_username,
    }
}

/// A character goes behind the text of the field that has the focus, and
/// Backspace takes it back; on an empty field Backspace does nothing. The other
/// field, the focus and the configuration stay. Tab goes to the other field, and
/// a second time back.
pub proof fn law_only_the_focused_field_changes(app: TuiView, c: char)
    ensures
        ({
            let typed = editing_key(app, Key::Char(c));
            &&& typed.command is None
            &&& field(typed.app) == field(app).push(c)
            &&& other_text(typed.app) == other_text(app)
            &&& typed.app.config == app.config
            &&& typed.app.config_edit_focus == app.config_edit_focus
            &&& editing_key(typed.app, Key::Backspace) == quiet(app)
        }),
        field(app).len() == 0 ==> editing_key(app, Key::Backspace) == quiet(app),
        editing_key(app, Key::Backspace).app.config == app.config,
        editing_key(app, Key::Backspace).app.config_edit_focus == app.config_edit_focus,
        other_text(editing_key(app, Key::Backspace).app) == other_text(app),
        editing_key(app, Key::Tab).app.config_edit_focus != app.config_edit_focus,
        editing_key(editing_key(app, Key::Tab).app, Key::Tab) == quiet(app),
{
    let typed = editing_key(app, Key::Char(c)).app;
    assert(field(app).push(c).drop_last() =~= field(app));
    assert(editing_key(typed, Key::Backspace).app =~= app);
    assert(editing_key(app, Key::Backspace).app =~= with_field(app, shortened(field(app))));
    assert(editing_key(editing_key(app, Key::Tab).app, Key::Tab).app =~= app);
}

proof fn lemma_typing(app: TuiView, keys: Seq<Key>, text: Seq<char>)
    requires
        app.input_mode == InputMode::AddingMod,
        types(keys, text),
    ensures
        pressed(app, keys) == (TuiView { mod_input_buffer: app.mod_input_buffer + text, ..app }),
    decreases keys.len(),
{
    if keys.len() == 0 {
        assert(app.mod_input_buffer + text =~= app.mod_input_buffer);
    } else {
        assert(keys[0] == Key::Char(text[0]));
        let next = key_pressed(app, keys[0]).app;
        assert forall|i: int| 0 <= i < keys.skip(1).len() implies #[trigger] keys.skip(1)[i]
            == Key::Char(text.skip(1)[i]) by {
            assert(keys.skip(1)[i] == keys[i + 1]);
        }
        lemma_typing(next, keys.skip(1), text.skip(1));
        assert(app.mod_input_buffer.push(text[0]) + text.skip(1) =~= app.mod_input_buffer + text);
    }
}

/// A name that is typed after F2 is asked about without the whitespace at its
/// ends, unless it is blank: then the input stays open and nothing is asked.
pub proof fn law_typed_name_is_validated(app: TuiView, keys: Seq<Key>, text: Seq<char>)
    requires
        app.input_mode == InputMode::Normal,
        types(keys, text),
    ensures
        ({
            let typed = pressed(key_pressed(app, Key::F(2)).app, keys);
            let entered = key_pressed(typed, Key::Enter);
            if trimmed(text).len() == 0 {
                entered.command is None && entered.app.input_mode == InputMode::AddingMod
                    && entered.app.mod_input_buffer == text
            } else {
                entered.command matches Some(TuiCommandView::ValidateMod { mod_name, .. })
                    && mod_name == trimmed(text) && entered.app.input_mode == InputMode::Normal
            }
        }),
{
    let open = key_pressed(app, Key::F(2)).app;
    assert(open == adding_begun(app));
    lemma_typing(open, keys, text);
    assert(open.mod_input_buffer + text =~= text);
}

/// A selection inside a list stays inside it, whichever way one moves.
pub proof fn law_moves_stay_inside(place: ListPosition, len: nat)
    requires
        place.selected matches Some(i) && i < len,
    ensures
        moved_up(place).selected matches Some(i) && i < len,
        moved_down(place, len).selected matches Some(i) && i < len,
{
}

/// Down and up again, or up and down again, leads back, except at the end where
/// the first move does nothing.
pub proof fn law_moves_undo_each_other(place: ListPosition, len: nat)
    requires
        place.selected matches Some(i) && i < len,
        len <= usize::MAX,
    ensures
        moved_down(place, len) != place ==> moved_up(moved_down(place, len)) == place,
        moved_up(place) != place ==> moved_down(moved_up(place), len) == place,
        moved_down(place, len) == place ==> current(place) + 1 == len,
        moved_up(place) == place ==> current(place) == 0,
{
}

/// The queue is downloaded exactly when F4 is pressed while nothing is being
/// typed, with something in the queue and a token; no other event starts it.
pub proof fn law_when_downloads_start(
    app: TuiView,
    event: AppEventView,
    now: Timestamp,
    extension: Seq<char>,
)
    ensures
        (event_handled(app, event, now, extension).command matches Some(
            TuiCommandView::DownloadAll { .. },
        )) <==> app.input_mode == InputMode::Normal && event == AppEventView::Key(Key::F(4))
            && app.download_queue.len() > 0 && app.token is Some,
{
}

/// What is downloaded is the whole queue, with the user's name and token; the
/// queue is empty then, so that nothing is downloaded twice.
pub proof fn law_queue_is_downloaded_once(app: TuiView)
    requires
        app.input_mode == InputMode::Normal,
        app.download_queue.len() > 0,
        app.token is Some,
    ensures
        ({
            let first = key_pressed(app, Key::F(4));
            &&& first.command == Some(
                TuiCommandView::DownloadAll {
                    queue: app.download_queue,
                    username: app.config.username,
                    token: app.token->0,
                },
            )
            &&& first.app.download_queue.len() == 0
            &&& key_pressed(first.app, Key::F(4)).command is None
        }),
{
}

/// Without a token nothing is downloaded, and the queue is kept.
pub proof fn law_no_download_without_token(app: TuiView)
    requires
        app.token is None,
    ensures
        download_asked(app).command is None,
        download_asked(app).app.download_queue == app.download_queue,
{
}

/// Once a login has succeeded, F4 downloads what is in the queue with that
/// token.
pub proof fn law_login_allows_downloads(
    app: TuiView,
    token: Seq<char>,
    internal: bool,
    now: Timestamp,
    extension: Seq<char>,
)
    requires
        app.input_mode == InputMode::Normal,
        app.download_queue.len() > 0,
    ensures
        ({
            let after = work_ended(
                app,
                AppEventView::AuthDone { result: Ok((token, internal)) },
                now,
                extension,
            );
            &&& after.app.config.last_session_token == token
            &&& internal ==> after.app.config.password.len() == 0
            &&& after.command == Some(TuiCommandView::SaveToken { config: after.app.config })
            &&& key_pressed(after.app, Key::F(4)).command == Some(
                TuiCommandView::DownloadAll {
                    queue: app.download_queue,
                    username: app.config.username,
                    token,
                },
            )
        }),
{
}

/// A mod that the portal knows is in the manifest from then on, as one that is
/// still to be fetched, and takes part in the next update check; one that it
/// does not know leaves the manifest alone.
pub proof fn law_validated_mod(
    app: TuiView,
    name: Seq<char>,
    result: Result<(), Seq<char>>,
    now: Timestamp,
    extension: Seq<char>,
)
    requires
        app.input_mode == InputMode::Normal,
    ensures
        ({
            let after = work_ended(
                app,
                AppEventView::ModValidated { mod_name: name, result },
                now,
                extension,
            ).app;
            &&& result is Err ==> after.manifest == app.manifest
            &&& result is Ok ==> after.manifest == app.manifest.insert(name, placeholder())
            &&& key_pressed(after, Key::F(1)).command == Some(
                TuiCommandView::CheckUpdates { manifest: after.manifest },
            )
        }),
{
}

/// After the log was scrolled its latest line is selected.
pub proof fn law_log_follows(app: TuiView)
    requires
        0 < app.status_log.len() <= usize::MAX,
    ensures
        scrolled(app).log_list.selected == Some((app.status_log.len() - 1) as usize),
        scrolled(app) == (TuiView { log_list: scrolled(app).log_list, ..app }),
{
}

/// The events of a series of downloads that end with these results.
pub open spec fn batch_events(
    batch: BatchView,
    results: Seq<Option<Result<(), Seq<char>>>>,
) -> Seq<AppEventView>
    decreases results.len(),
{
    if results.len() == 0 {
        Seq::empty()
    } else {
        let next = batch_step(batch, results[0]);
        next.events + batch_events(next.batch, results.skip(1))
    }
}

/// One event for each file, in order, with its result.
pub open spec fn reports(
    queue: Seq<FileToDownloadView>,
    results: Seq<Result<(), Seq<char>>>,
) -> Seq<AppEventView> {
    Seq::new(
        queue.len(),
        |i: int| AppEventView::DownloadDone { file: queue[i], result: results[i] },
    )
}

/// Results that are handed over one by one.
pub open spec fn handed_over(results: Seq<Result<(), Seq<char>>>) -> Seq<
    Option<Result<(), Seq<char>>>,
> {
    results.map_values(|r: Result<(), Seq<char>>| Some(r))
}

proof fn lemma_batch(batch: BatchView, results: Seq<Result<(), Seq<char>>>)
    requires
        batch.current is Some,
        results.len() == batch.queue.len() + 1,
    ensures
        batch_events(batch, handed_over(results)) == reports(
            seq![batch.current->0] + batch.queue,
            results,
        ).push(all_done()),
    decreases results.len(),
{
    let all = seq![batch.current->0] + batch.queue;
    let given = handed_over(results);
    let next = batch_step(batch, given[0]);
    assert(given[0] == Some(results[0]));
    assert(given.skip(1) =~= handed_over(results.skip(1)));
    let first = AppEventView::DownloadDone { file: batch.current->0, result: results[0] };
    if batch.queue.len() == 0 {
        assert(given.skip(1).len() == 0);
        assert(batch_events(next.batch, given.skip(1)) =~= Seq::empty());
        assert(next.events =~= seq![first, all_done()]);
        assert(reports(all, results) =~= seq![first]);
        assert(batch_events(batch, given) =~= reports(all, results).push(all_done()));
    } else {
        lemma_batch(next.batch, results.skip(1));
        assert(seq![batch.queue[0]] + batch.queue.skip(1) =~= batch.queue);
        assert(next.events =~= seq![first]);
        let rest = reports(batch.queue, results.skip(1));
        assert forall|i: int| 0 <= i < rest.len() implies #[trigger] rest[i] == reports(
            all,
            results,
        )[i + 1] by {
            assert(all[i + 1] == batch.queue[i]);
            assert(results.skip(1)[i] == results[i + 1]);
        }
        assert(batch_events(batch, given) =~= reports(all, results).push(all_done()));
    }
}

/// Every file of a series is downloaded and reported once, in order, with its
/// own result; behind the last one the end is reported.
pub proof fn law_downloads_are_reported(
    queue: Seq<FileToDownloadView>,
    username: Seq<char>,
    token: Seq<char>,
    results: Seq<Result<(), Seq<char>>>,
)
    requires
        queue.len() > 0,
        results.len() == queue.len(),
    ensures
        ({
            let batch = BatchView { current: None, queue, username, token };
            &&& batch_step(batch, None).action == (BatchActionView::Download {
                file: queue[0],
                username,
                token,
            })
            &&& batch_events(batch, seq![None] + handed_over(results)) == reports(
                queue,
                results,
            ).push(all_done())
        }),
{
    let batch = BatchView { current: None, queue, username, token };
    let given = seq![None] + handed_over(results);
    let next = batch_step(batch, None);
    assert(given[0] is None);
    assert(given.skip(1) =~= handed_over(results));
    lemma_batch(next.batch, results);
    assert(seq![queue[0]] + queue.skip(1) =~= queue);
    assert(next.events =~= Seq::empty());
    assert(batch_events(batch, given) =~= reports(queue, results).push(all_done()));
}

} // verus!

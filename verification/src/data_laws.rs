//! What is said of the data is said of the data itself: each view holds every
//! field of its value, unchanged and in its own place.

use vstd::prelude::*;
use crate::auth::{TokenStep, TokenStepView};
use crate::automated::{AutoAction, AutoActionView};
use crate::manifest::{scans, text_of, ScannedFile};
use crate::models::{
    files, releases, ApiFileResponse, Config, FileToDownload, LocalVersionInfo, Release,
};
use crate::new_mods::{NewModsAction, NewModsActionView};
use crate::notes::{lines, Note};
use crate::overlay::Overlay;
use crate::screen::{pieces, rows_of, PanelPicture, Piece};
use crate::text::{decimal, texts};
use crate::tui::{
    messages, result_of, selected, top, AppEvent, AppEventView, ListPosition, StatusMessage, TuiApp,
    TuiCommand, TuiCommandView,
};
use crate::tui_start::StartConfig;
use crate::tui_tasks::{BatchAction, BatchActionView};
use crate::version::{full_release, version_text, ModVersion, ModVersionView};

verus! {

/// A configuration by its contents.
pub proof fn law_config_view(config: Config)
    ensures
        config@.username == config.username@,
        config@.password == config.password@,
        config@.last_login == config.last_login@,
        config@.last_session_token == config.last_session_token@,
        config@.use_tui == config.use_tui,
        config@.token_source == config.token_source@,
{
}

/// A list of texts by its contents.
pub proof fn law_texts_view(list: Seq<String>)
    ensures
        texts(list).len() == list.len(),
        forall|i: int| 0 <= i < list.len() ==> #[trigger] texts(list)[i] == list[i]@,
{
}

/// A release by its contents.
pub proof fn law_release_view(release: Release, answer: ApiFileResponse)
    ensures
        release@.version == release.version@,
        release@.download_url == release.download_url@,
        release@.dependencies == texts(release.info_json.dependencies@),
        releases(answer.releases@).len() == answer.releases@.len(),
        forall|i: int|
            0 <= i < answer.releases@.len() ==> #[trigger] releases(answer.releases@)[i]
                == answer.releases@[i]@,
{
}

/// An entry of the manifest and a download by their contents.
pub proof fn law_file_views(
    info: LocalVersionInfo,
    file: FileToDownload,
    list: Seq<FileToDownload>,
    scanned: ScannedFile,
    folder: Seq<ScannedFile>,
)
    ensures
        info@.version == info.version@,
        info@.extension == info.extension@,
        file@.base_name == file.base_name@,
        file@.new_version == file.new_version@,
        file@.full_new_name == file.full_new_name@,
        file@.download_url == file.download_url@,
        files(list).len() == list.len(),
        forall|i: int| 0 <= i < list.len() ==> #[trigger] files(list)[i] == list[i]@,
        scanned@.full_name == scanned.full_name@,
        scanned@.stem == text_of(scanned.stem),
        scanned@.extension == scanned.extension@,
        scans(folder).len() == folder.len(),
        forall|i: int| 0 <= i < folder.len() ==> #[trigger] scans(folder)[i] == folder[i]@,
{
}

/// An optional text by its contents.
pub proof fn law_text_view(text: String)
    ensures
        text_of(Some(text)) == Some(text@),
        text_of(None) is None,
{
}

/// A version by its contents; a full release is written as its three numbers with
/// dots between them, a pre-release with `-` and its name behind them, and build
/// metadata with `+` behind that.
pub proof fn law_version_view(version: ModVersion, v: ModVersionView)
    ensures
        version@.major == version.major,
        version@.minor == version.minor,
        version@.patch == version.patch,
        version@.pre == version.pre@,
        version@.build == version.build@,
        ({
            let numbers = decimal(v.major as nat) + "."@ + decimal(v.minor as nat) + "."@ + decimal(
                v.patch as nat,
            );
            &&& v.pre.len() == 0 && v.build.len() == 0 ==> version_text(v) == numbers
            &&& v.pre.len() > 0 && v.build.len() == 0 ==> version_text(v) == numbers + "-"@ + v.pre
            &&& v.pre.len() == 0 && v.build.len() > 0 ==> version_text(v) == numbers + "+"@
                + v.build
            &&& v.pre.len() > 0 && v.build.len() > 0 ==> version_text(v) == numbers + "-"@ + v.pre
                + "+"@ + v.build
        }),
        full_release(v.major, v.minor, v.patch).major == v.major,
        full_release(v.major, v.minor, v.patch).minor == v.minor,
        full_release(v.major, v.minor, v.patch).patch == v.patch,
        full_release(v.major, v.minor, v.patch).pre.len() == 0,
        full_release(v.major, v.minor, v.patch).build.len() == 0,
{
}

/// Lines of the terminal and of the log by their contents.
pub proof fn law_line_views(
    note: Note,
    notes: Seq<Note>,
    message: StatusMessage,
    log: Seq<StatusMessage>,
)
    ensures
        note@.stream == note.stream && note@.text == note.text@,
        lines(notes).len() == notes.len(),
        forall|i: int| 0 <= i < notes.len() ==> #[trigger] lines(notes)[i] == notes[i]@,
        message@.text == message.text@ && message@.level == message.level,
        messages(log).len() == log.len(),
        forall|i: int| 0 <= i < log.len() ==> #[trigger] messages(log)[i] == log[i]@,
{
}

/// The interactive program by its contents.
pub proof fn law_app_view(app: TuiApp)
    ensures
        app@.config == app.config@,
        app@.token == text_of(app.token),
        app@.manifest == app.manifest@,
        app@.download_queue == files(app.download_queue@),
        app@.status_log == messages(app.status_log@),
        app@.active_panel == app.active_panel,
        app@.mod_list == app.mod_list,
        app@.queue_list == app.queue_list,
        app@.log_list == app.log_list,
        app@.should_quit == app.should_quit,
        app@.input_mode == app.input_mode,
        app@.mod_input_buffer == app.mod_input_buffer@,
        app@.config_edit_username == app.config_edit_username@,
        app@.config_edit_password == app.config_edit_password@,
        app@.config_edit_focus == app.config_edit_focus,
{
}

/// To select an item keeps the first one shown; to select none goes back to the
/// top.
pub proof fn law_selection(place: ListPosition, i: usize)
    ensures
        selected(place, Some(i)).selected == Some(i),
        selected(place, Some(i)).offset == place.offset,
        selected(place, None).selected is None,
        selected(place, None).offset == 0,
        top().selected is None,
        top().offset == 0,
{
}

/// Work that is asked for by its contents.
pub proof fn law_command_view(command: TuiCommand)
    ensures
        match command {
            TuiCommand::CheckUpdates { manifest } => command@ == (TuiCommandView::CheckUpdates {
                manifest: manifest@,
            }),
            TuiCommand::ValidateMod { mod_name, url } => command@ == (
            TuiCommandView::ValidateMod { mod_name: mod_name@, url: url@ }),
            TuiCommand::Authenticate { config } => command@ == (TuiCommandView::Authenticate {
                config: config@,
            }),
            TuiCommand::DownloadAll { queue, username, token } => command@ == (
            TuiCommandView::DownloadAll {
                queue: files(queue@),
                username: username@,
                token: token@,
            }),
            TuiCommand::ReloadManifest => command@ is ReloadManifest,
            TuiCommand::ReloadConfig => command@ is ReloadConfig,
            TuiCommand::SaveConfig { config } => command@ == (TuiCommandView::SaveConfig {
                config: config@,
            }),
            TuiCommand::SaveToken { config } => command@ == (TuiCommandView::SaveToken {
                config: config@,
            }),
            TuiCommand::SaveManifest { manifest } => command@ == (TuiCommandView::SaveManifest {
                manifest: manifest@,
            }),
        },
{
}

/// What happened, by its contents.
pub proof fn law_event_view(event: AppEvent, result: Result<(), String>)
    ensures
        result is Ok <==> result_of(result) is Ok,
        result matches Err(e) ==> result_of(result) == Err::<(), Seq<char>>(e@),
        match event {
            AppEvent::Key(key) => event@ == AppEventView::Key(key),
            AppEvent::UpdateCheckDone { files: list, manifest } => event@ == (
            AppEventView::UpdateCheckDone { files: files(list@), manifest: manifest@ }),
            AppEvent::UpdateCheckFailed { manifest, error } => event@ == (
            AppEventView::UpdateCheckFailed { manifest: manifest@, error: error@ }),
            AppEvent::DownloadDone { file, result: r } => event@ == (AppEventView::DownloadDone {
                file: file@,
                result: result_of(r),
            }),
            AppEvent::ModValidated { mod_name, result: r } => event@ == (
            AppEventView::ModValidated { mod_name: mod_name@, result: result_of(r) }),
            AppEvent::AuthDone { result: Ok((token, internal)) } => event@ == (
            AppEventView::AuthDone { result: Ok((token@, internal)) }),
            AppEvent::AuthDone { result: Err(e) } => event@ == (AppEventView::AuthDone {
                result: Err(e@),
            }),
            AppEvent::ConfigSaved { result: r } => event@ == (AppEventView::ConfigSaved {
                result: result_of(r),
            }),
            AppEvent::TokenSaved { result: r } => event@ == (AppEventView::TokenSaved {
                result: result_of(r),
            }),
            AppEvent::ManifestSaved { result: r } => event@ == (AppEventView::ManifestSaved {
                result: result_of(r),
            }),
            AppEvent::ManifestReloaded { result: Ok(manifest) } => event@ == (
            AppEventView::ManifestReloaded { result: Ok(manifest@) }),
            AppEvent::ManifestReloaded { result: Err(e) } => event@ == (
            AppEventView::ManifestReloaded { result: Err(e@) }),
            AppEvent::ConfigReloaded { result: Ok(config) } => event@ == (
            AppEventView::ConfigReloaded { result: Ok(config@) }),
            AppEvent::ConfigReloaded { result: Err(e) } => event@ == (
            AppEventView::ConfigReloaded { result: Err(e@) }),
        },
{
}

/// What an automated run asks for, by its contents.
pub proof fn law_auto_action_view(action: AutoAction)
    ensures
        match action {
            AutoAction::CreateTemplate { config } => action@ == (AutoActionView::CreateTemplate {
                config: config@,
            }),
            AutoAction::LaunchTui => action@ is LaunchTui,
            AutoAction::LoadConfig => action@ is LoadConfig,
            AutoAction::GetToken { config } => action@ == (AutoActionView::GetToken {
                config: config@,
            }),
            AutoAction::SaveConfig { config } => action@ == (AutoActionView::SaveConfig {
                config: config@,
            }),
            AutoAction::LoadManifest => action@ is LoadManifest,
            AutoAction::ReadNewMods => action@ is ReadNewMods,
            AutoAction::AskMod { name, url } => action@ == (AutoActionView::AskMod {
                name: name@,
                url: url@,
            }),
            AutoAction::Fetch { name, url } => action@ == (AutoActionView::Fetch {
                name: name@,
                url: url@,
            }),
            AutoAction::LookFor { file_name } => action@ == (AutoActionView::LookFor {
                file_name: file_name@,
            }),
            AutoAction::Conflict { message } => action@ == (AutoActionView::Conflict {
                message: message@,
            }),
            AutoAction::Download { file, username, token } => action@ == (
            AutoActionView::Download { file: file@, username: username@, token: token@ }),
            AutoAction::SaveManifest { manifest } => action@ == (AutoActionView::SaveManifest {
                manifest: manifest@,
            }),
            AutoAction::WriteNewMods { content } => action@ == (AutoActionView::WriteNewMods {
                content: content@,
            }),
            AutoAction::Finished => action@ is Finished,
            AutoAction::Stopped { error } => action@ == (AutoActionView::Stopped {
                error: error@,
            }),
            AutoAction::Unexpected => action@ is Unexpected,
        },
{
}

/// What the smaller tasks ask for, by its contents.
pub proof fn law_task_views(mods: NewModsAction, batch: BatchAction, step: TokenStep)
    ensures
        match mods {
            NewModsAction::Ask { name, url } => mods@ == (NewModsActionView::Ask {
                name: name@,
                url: url@,
            }),
            NewModsAction::Finished => mods@ is Finished,
        },
        match batch {
            BatchAction::Download { file, username, token } => batch@ == (
            BatchActionView::Download { file: file@, username: username@, token: token@ }),
            BatchAction::Finished => batch@ is Finished,
        },
        match step {
            TokenStep::ReadPlayerData => step@ is ReadPlayerData,
            TokenStep::Use { token } => step@ == (TokenStepView::Use { token: token@ }),
            TokenStep::LogIn { url, username, password } => step@ == (TokenStepView::LogIn {
                url: url@,
                username: username@,
                password: password@,
            }),
        },
{
}

/// What is shown, by its contents.
pub proof fn law_picture_views(
    piece: Piece,
    row: Seq<Piece>,
    rows: Seq<Vec<Piece>>,
    panel: PanelPicture,
    overlay: Overlay,
    start: StartConfig,
)
    ensures
        piece@.text == piece.text@ && piece@.look == piece.look,
        pieces(row).len() == row.len(),
        forall|i: int| 0 <= i < row.len() ==> #[trigger] pieces(row)[i] == row[i]@,
        rows_of(rows).len() == rows.len(),
        forall|i: int| 0 <= i < rows.len() ==> #[trigger] rows_of(rows)[i] == pieces(rows[i]@),
        panel@.title == panel.title@ && panel@.symbol == panel.symbol@,
        panel@.rows == rows_of(panel.rows@),
        panel@.border == panel.border && panel@.highlight == panel.highlight,
        panel@.place == panel.place,
        overlay@.title == overlay.title@ && overlay@.rows == rows_of(overlay.rows@),
        overlay@.border == overlay.border && overlay@.look == overlay.look,
        overlay@.cursor_x == overlay.cursor_x && overlay@.cursor_y == overlay.cursor_y,
        start@.notes == lines(start.notes@) && start@.config == start.config@,
        start@.missing == start.missing && start@.write == start.write,
{
}

} // verus!

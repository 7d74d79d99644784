//! Background work of the interactive program, and the events that it ends
//! with.

use vstd::prelude::*;
use vstd::string::StringExecFns;
use crate::auth::{is_success, status_is_success};
use crate::models::{files, FileToDownload, FileToDownloadView, VersionManifest};
use crate::string_map::{Duplicate, StringMap};
use crate::text::owned;
use crate::tui::{result_of, AppEvent, AppEventView};
use crate::update::UpdateCheck;

verus! {

/// The event at the end of an update check: what it found, or why it failed,
/// with the manifest as the check left it.
pub fn check_ended(check: UpdateCheck, result: Result<Vec<FileToDownload>, String>) -> (event:
    AppEvent)
    ensures
        event@ == match result {
            Ok(found) => AppEventView::UpdateCheckDone {
                files: files(found@),
                manifest: check@.manifest,
            },
            Err(error) => AppEventView::UpdateCheckFailed {
                manifest: check@.manifest,
                error: error@,
            },
        },
{
    let manifest: VersionManifest = check.into_manifest();
    match result {
        Ok(found) => AppEvent::UpdateCheckDone { files: found, manifest },
        Err(error) => AppEvent::UpdateCheckFailed { manifest, error },
    }
}

/// What the portal said about a mod that was typed.
pub enum PortalReply {
    /// It answered with this status and this text.
    Answered { code: u16, status: String, body: String },
    /// It could not be reached.
    NoReply { error: String },
}

/// Whether the portal knows the mod, or why not.
pub open spec fn verdict(reply: PortalReply) -> Result<(), Seq<char>> {
    match reply {
        PortalReply::Answered { code, status, body } => if is_success(code) {
            Ok(())
        } else {
            Err("API returned "@ + status@ + ": "@ + body@)
        },
        PortalReply::NoReply { error } => Err(error@),
    }
}

/// The event at the end of a question about a mod.
pub fn validation_ended(mod_name: String, reply: PortalReply) -> (event: AppEvent)
    ensures
        event@ == (AppEventView::ModValidated { mod_name: mod_name@, result: verdict(reply) }),
{
    let result: Result<(), String> = match reply {
        PortalReply::Answered { code, status, body } => if status_is_success(code) {
            Ok(())
        } else {
            Err(
                owned("API returned ").concat(status.as_str()).concat(": ").concat(body.as_str()),
            )
        },
        PortalReply::NoReply { error } => Err(error),
    };
    AppEvent::ModValidated { mod_name, result }
}

/// Downloads that are made one after the other.
pub struct DownloadBatch {
    current: Option<FileToDownload>,
    queue: Vec<FileToDownload>,
    username: String,
    token: String,
}

#[verifier::ext_equal]
pub struct BatchView {
    /// The file that is being downloaded.
    pub current: Option<FileToDownloadView>,
    /// The files behind it.
    pub queue: Seq<FileToDownloadView>,
    pub username: Seq<char>,
    pub token: Seq<char>,
}

impl View for DownloadBatch {
    type V = BatchView;

    closed spec fn view(&self) -> BatchView {
        BatchView {
            current: match self.current {
                Some(file) => Some(file@),
                None => None,
            },
            queue: files(self.queue@),
            username: self.username@,
            token: self.token@,
        }
    }
}

/// What is to be done next.
pub enum BatchAction {
    Download { file: FileToDownload, username: String, token: String },
    /// Nothing: all downloads were made.
    Finished,
}

#[verifier::ext_equal]
pub enum BatchActionView {
    Download { file: FileToDownloadView, username: Seq<char>, token: Seq<char> },
    Finished,
}

impl View for BatchAction {
    type V = BatchActionView;

    open spec fn view(&self) -> BatchActionView {
        match self {
            BatchAction::Download { file, username, token } => BatchActionView::Download {
                file: file@,
                username: username@,
                token: token@,
            },
            BatchAction::Finished => BatchActionView::Finished,
        }
    }
}

/// The events to report, in this order, and what is to be done then.
pub struct BatchStep {
    pub events: Vec<AppEvent>,
    pub action: BatchAction,
}

#[verifier::ext_equal]
pub struct BatchStepView {
    pub batch: BatchView,
    pub events: Seq<AppEventView>,
    pub action: BatchActionView,
}

/// The events of a list.
pub open spec fn events(list: Seq<AppEvent>) -> Seq<AppEventView> {
    list.map_values(|e: AppEvent| e@)
}

/// The event behind the last download: an update check that found nothing, with
/// an empty manifest.
pub open spec fn all_done() -> AppEventView {
    AppEventView::UpdateCheckDone { files: Seq::empty(), manifest: Map::empty() }
}

/// The events that report how the current download ended.
pub open spec fn download_report(
    current: Option<FileToDownloadView>,
    result: Option<Result<(), Seq<char>>>,
) -> Seq<AppEventView> {
    match (current, result) {
        (Some(file), Some(result)) => seq![AppEventView::DownloadDone { file, result }],
        _ => Seq::empty(),
    }
}

/// One step: the end of the current download is reported, and the next one
/// begins.
pub open spec fn batch_step(
    batch: BatchView,
    result: Option<Result<(), Seq<char>>>,
) -> BatchStepView {
    let report = download_report(batch.current, result);
    if batch.queue.len() == 0 {
        BatchStepView {
            batch: BatchView { current: None, ..batch },
            events: report.push(all_done()),
            action: BatchActionView::Finished,
        }
    } else {
        BatchStepView {
            batch: BatchView {
                current: Some(batch.queue[0]),
                queue: batch.queue.skip(1),
                ..batch
            },
            events: report,
            action: BatchActionView::Download {
                file: batch.queue[0],
                username: batch.username,
                token: batch.token,
            },
        }
    }
}

/// The result of a download, if one was made.
pub open spec fn made(result: Option<Result<(), String>>) -> Option<Result<(), Seq<char>>> {
    match result {
        Some(r) => Some(result_of(r)),
        None => None,
    }
}

impl DownloadBatch {
    /// Downloads that are to be made.
    pub fn new(queue: Vec<FileToDownload>, username: String, token: String) -> (batch: Self)
        ensures
            batch@ == (BatchView {
                current: None,
                queue: files(queue@),
                username: username@,
                token: token@,
            }),
    {
        DownloadBatch { current: None, queue, username, token }
    }

    /// Handles the result of the current download, if one was made, and says
    /// what is to be done next.
    pub fn next(&mut self, result: Option<Result<(), String>>) -> (r: BatchStep)
        ensures
            final(self)@ == batch_step(old(self)@, made(result)).batch,
            events(r.events@) == batch_step(old(self)@, made(result)).events,
            r.action@ == batch_step(old(self)@, made(result)).action,
    {
        let mut list: Vec<AppEvent> = Vec::new();
        let ghost before = self@;
        let current: Option<FileToDownload> = self.current.take();
        match (current, result) {
            (Some(file), Some(outcome)) => {
                list.push(AppEvent::DownloadDone { file, result: outcome });
            },
            _ => {},
        }
        let ghost report = download_report(before.current, made(result));
        assert(events(list@) =~= report);
        if self.queue.len() == 0 {
            let manifest: VersionManifest = StringMap::new();
            let none: Vec<FileToDownload> = Vec::new();
            assert(files(none@) =~= Seq::<FileToDownloadView>::empty());
            list.push(AppEvent::UpdateCheckDone { files: none, manifest });
            assert(events(list@) =~= report.push(all_done()));
            BatchStep { events: list, action: BatchAction::Finished }
        } else {
            let file: FileToDownload = self.queue.remove(0);
            assert(self@.queue =~= before.queue.skip(1));
            let action: BatchAction = BatchAction::Download {
                file: file.duplicate(),
                username: self.username.clone(),
                token: self.token.clone(),
            };
            self.current = Some(file);
            assert(self@ =~= batch_step(before, made(result)).batch);
            BatchStep { events: list, action }
        }
    }
}

} // verus!

//! Downloads: their addresses, and what a refused one reports.

use vstd::prelude::*;
use vstd::string::StringExecFns;
use crate::models::{FileToDownload, FileToDownloadView};
use crate::notes::{lines, no_notes, out, say, Note, NoteView};
use crate::text::owned;

verus! {

/// The address of a download with the user's name and token.
pub open spec fn signed_address(
    url: Seq<char>,
    username: Seq<char>,
    token: Seq<char>,
) -> Seq<char> {
    url + "?username="@ + username + "&token="@ + token
}

/// Where to download from, and the lines to print before it.
#[derive(Debug)]
pub struct DownloadRequest {
    pub notes: Vec<Note>,
    pub url: String,
}

/// The line before a download.
pub open spec fn downloading_line(url: Seq<char>) -> NoteView {
    out("Downloading from "@ + url + "..."@)
}

/// Prepares the download of a file.
pub fn download_file(file: &FileToDownload, username: &str, token: &str) -> (request:
    DownloadRequest)
    ensures
        request.url@ == signed_address(file@.download_url, username@, token@),
        lines(request.notes@) == seq![downloading_line(request.url@)],
{
    let url: String = file.download_url.clone().concat("?username=").concat(username).concat(
        "&token=",
    ).concat(token);
    let mut notes: Vec<Note> = no_notes();
    say(&mut notes, owned("Downloading from ").concat(url.as_str()).concat("..."));
    assert(lines(notes@) =~= seq![downloading_line(url@)]);
    DownloadRequest { notes, url }
}

/// The text that reports a refused download.
pub open spec fn download_refusal(
    file: FileToDownloadView,
    status: Seq<char>,
    body: Seq<char>,
) -> Seq<char> {
    "Failed to download "@ + file.full_new_name + ": Status "@ + status + "\nResponse: "@ + body
}

/// Reports a refused download.
pub fn download_refused(file: &FileToDownload, status: &str, body: &str) -> (error: String)
    ensures
        error@ == download_refusal(file@, status@, body@),
{
    owned("Failed to download ").concat(file.full_new_name.as_str()).concat(": Status ").concat(
        status,
    ).concat("\nResponse: ").concat(body)
}

} // verus!

//! The data that the program keeps and exchanges: its configuration, the
//! answers of the mod portal, the local version manifest and the downloads.

use vstd::prelude::*;
use crate::string_map::{Duplicate, StringMap};
use crate::text::{clone_texts, texts};

verus! {

/// The contents of `config.json`.
#[derive(Debug)]
pub struct Config {
    pub username: String,
    pub password: String,
    pub last_login: String,
    pub last_session_token: String,
    pub use_tui: bool,
    /// Where session tokens come from: `player-data.json`, or a login of the
    /// program's own (`internal` or empty).
    pub token_source: String,
}

#[verifier::ext_equal]
pub struct ConfigView {
    pub username: Seq<char>,
    pub password: Seq<char>,
    pub last_login: Seq<char>,
    pub last_session_token: Seq<char>,
    pub use_tui: bool,
    pub token_source: Seq<char>,
}

impl View for Config {
    type V = ConfigView;

    open spec fn view(&self) -> ConfigView {
        ConfigView {
            username: self.username@,
            password: self.password@,
            last_login: self.last_login@,
            last_session_token: self.last_session_token@,
            use_tui: self.use_tui,
            token_source: self.token_source@,
        }
    }
}

impl Duplicate for Config {
    fn duplicate(&self) -> (r: Self) {
        Config {
            username: self.username.clone(),
            password: self.password.clone(),
            last_login: self.last_login.clone(),
            last_session_token: self.last_session_token.clone(),
            use_tui: self.use_tui,
            token_source: self.token_source.clone(),
        }
    }
}

impl Clone for Config {
    fn clone(&self) -> (r: Self)
        ensures
            r@ == self@,
    {
        self.duplicate()
    }
}

/// What the login service answers.
#[derive(Debug)]
pub struct AuthResponse {
    pub token: String,
}

/// The part of Factorio's `player-data.json` that matters here.
#[derive(Debug)]
pub struct PlayerData {
    pub service_token: String,
}

/// The `info.json` of a release.
#[derive(Debug)]
pub struct InfoJson {
    pub dependencies: Vec<String>,
}

impl Clone for InfoJson {
    fn clone(&self) -> (r: Self)
        ensures
            texts(r.dependencies@) == texts(self.dependencies@),
    {
        InfoJson { dependencies: clone_texts(&self.dependencies) }
    }
}

/// One release of a mod.
#[derive(Debug)]
pub struct Release {
    pub version: String,
    pub download_url: String,
    pub info_json: InfoJson,
}

#[verifier::ext_equal]
pub struct ReleaseView {
    pub version: Seq<char>,
    pub download_url: Seq<char>,
    pub dependencies: Seq<Seq<char>>,
}

impl View for Release {
    type V = ReleaseView;

    open spec fn view(&self) -> ReleaseView {
        ReleaseView {
            version: self.version@,
            download_url: self.download_url@,
            dependencies: texts(self.info_json.dependencies@),
        }
    }
}

impl Duplicate for Release {
    fn duplicate(&self) -> (r: Self) {
        Release {
            version: self.version.clone(),
            download_url: self.download_url.clone(),
            info_json: self.info_json.clone(),
        }
    }
}

impl Clone for Release {
    fn clone(&self) -> (r: Self)
        ensures
            r@ == self@,
    {
        self.duplicate()
    }
}

/// What the portal answers about a mod.
#[derive(Debug)]
pub struct ApiFileResponse {
    pub name: String,
    pub releases: Vec<Release>,
}

/// The releases of an answer.
pub open spec fn releases(list: Seq<Release>) -> Seq<ReleaseView> {
    list.map_values(|r: Release| r@)
}

impl Clone for ApiFileResponse {
    fn clone(&self) -> (r: Self)
        ensures
            r.name@ == self.name@,
            releases(r.releases@) == releases(self.releases@),
    {
        let mut list: Vec<Release> = Vec::new();
        for i in 0..self.releases.len()
            invariant
                list@.len() == i,
                forall|j: int| 0 <= j < i ==> (#[trigger] list@[j])@ == self.releases@[j]@,
        {
            list.push(self.releases[i].duplicate());
        }
        assert(releases(list@) =~= releases(self.releases@));
        ApiFileResponse { name: self.name.clone(), releases: list }
    }
}

/// The version of a mod that is in the folder, and the extension of its file.
#[derive(Debug)]
pub struct LocalVersionInfo {
    pub version: String,
    pub extension: String,
}

#[verifier::ext_equal]
pub struct LocalVersionInfoView {
    pub version: Seq<char>,
    pub extension: Seq<char>,
}

impl View for LocalVersionInfo {
    type V = LocalVersionInfoView;

    open spec fn view(&self) -> LocalVersionInfoView {
        LocalVersionInfoView { version: self.version@, extension: self.extension@ }
    }
}

impl Duplicate for LocalVersionInfo {
    fn duplicate(&self) -> (r: Self) {
        LocalVersionInfo { version: self.version.clone(), extension: self.extension.clone() }
    }
}

impl Clone for LocalVersionInfo {
    fn clone(&self) -> (r: Self)
        ensures
            r@ == self@,
    {
        self.duplicate()
    }
}

/// A download that is still to be made.
#[derive(Debug)]
pub struct FileToDownload {
    pub base_name: String,
    pub new_version: String,
    pub full_new_name: String,
    pub download_url: String,
}

#[verifier::ext_equal]
pub struct FileToDownloadView {
    pub base_name: Seq<char>,
    pub new_version: Seq<char>,
    pub full_new_name: Seq<char>,
    pub download_url: Seq<char>,
}

impl View for FileToDownload {
    type V = FileToDownloadView;

    open spec fn view(&self) -> FileToDownloadView {
        FileToDownloadView {
            base_name: self.base_name@,
            new_version: self.new_version@,
            full_new_name: self.full_new_name@,
            download_url: self.download_url@,
        }
    }
}

impl Duplicate for FileToDownload {
    fn duplicate(&self) -> (r: Self) {
        FileToDownload {
            base_name: self.base_name.clone(),
            new_version: self.new_version.clone(),
            full_new_name: self.full_new_name.clone(),
            download_url: self.download_url.clone(),
        }
    }
}

impl Clone for FileToDownload {
    fn clone(&self) -> (r: Self)
        ensures
            r@ == self@,
    {
        self.duplicate()
    }
}

/// The downloads in a list.
pub open spec fn files(list: Seq<FileToDownload>) -> Seq<FileToDownloadView> {
    list.map_values(|f: FileToDownload| f@)
}

/// The local mods by name.
pub type VersionManifest = StringMap<LocalVersionInfo>;

/// What a manifest holds.
pub type ManifestView = Map<Seq<char>, LocalVersionInfoView>;

} // verus!

//! How the interactive program starts.

use vstd::prelude::*;
use vstd::string::StringExecFns;
use crate::config::{blank, blank_config, template, template_config, TEMPLATE_USERNAME};
use crate::models::{Config, ConfigView, FileToDownloadView, ManifestView, VersionManifest};
use crate::notes::{err, lines, no_notes, warn, Note, NoteView};
use crate::text::{owned, same};
use crate::tui::{
    logged, selected, top, ConfigField, InputMode, ListPosition, LogLevel, Panel, StatusView, TuiApp,
    TuiView,
};

verus! {

/// What was found of the configuration.
pub enum FoundConfig {
    /// There is none.
    Missing,
    /// There is one that cannot be read.
    Unreadable { error: String },
    Loaded(Config),
}

/// The configuration to start with.
pub struct StartConfig {
    pub notes: Vec<Note>,
    pub config: Config,
    /// Whether it stands in for one that is missing.
    pub missing: bool,
    /// Whether it is to be written as a template.
    pub write: bool,
}

#[verifier::ext_equal]
pub struct StartConfigView {
    pub notes: Seq<NoteView>,
    pub config: ConfigView,
    pub missing: bool,
    pub write: bool,
}

impl View for StartConfig {
    type V = StartConfigView;

    open spec fn view(&self) -> StartConfigView {
        StartConfigView {
            notes: lines(self.notes@),
            config: self.config@,
            missing: self.missing,
            write: self.write,
        }
    }
}

/// The configuration that the program starts with: a template where there is
/// none, which is written, and an empty one where it cannot be read.
pub open spec fn config_for(found: FoundConfig) -> StartConfigView {
    match found {
        FoundConfig::Missing => StartConfigView {
            notes: Seq::empty(),
            config: template(),
            missing: true,
            write: true,
        },
        FoundConfig::Unreadable { error } => StartConfigView {
            notes: seq![err("Warning: failed to load config.json ("@ + error@ + ")"@)],
            config: blank(),
            missing: true,
            write: false,
        },
        FoundConfig::Loaded(config) => StartConfigView {
            notes: Seq::empty(),
            config: config@,
            missing: false,
            write: false,
        },
    }
}

/// Chooses the configuration to start with.
pub fn start_config(found: FoundConfig) -> (start: StartConfig)
    ensures
        start@ == config_for(found),
{
    let mut notes: Vec<Note> = no_notes();
    match found {
        FoundConfig::Missing => StartConfig {
            notes,
            config: template_config(),
            missing: true,
            write: true,
        },
        FoundConfig::Unreadable { error } => {
            warn(
                &mut notes,
                owned("Warning: failed to load config.json (").concat(error.as_str()).concat(")"),
            );
            assert(lines(notes@) =~= config_for(found).notes);
            StartConfig { notes, config: blank_config(), missing: true, write: false }
        },
        FoundConfig::Loaded(config) => StartConfig { notes, config, missing: false, write: false },
    }
}

/// A line that informs.
pub open spec fn info_line(text: Seq<char>) -> StatusView {
    StatusView { text, level: LogLevel::Info }
}

/// The lines that the log starts with.
pub open spec fn first_lines() -> Seq<StatusView> {
    seq![
        info_line("Rusty Gears v3 — Interactive Mode"@),
        info_line("F1 Check  |  F2 Add Mod  |  F3 Auth  |  F4 Download All"@),
        info_line("c Config  |  r Reload Config  |  Tab Focus  |  q Quit"@),
    ]
}

/// The program before its first hint: the first mod is selected, if there is
/// one.
pub open spec fn first_view(config: ConfigView, manifest: ManifestView) -> TuiView {
    TuiView {
        config,
        token: None,
        manifest,
        download_queue: Seq::empty(),
        status_log: first_lines(),
        active_panel: Panel::LocalMods,
        mod_list: if manifest.len() > 0 {
            selected(top(), Some(0))
        } else {
            top()
        },
        queue_list: top(),
        log_list: top(),
        should_quit: false,
        input_mode: InputMode::Normal,
        mod_input_buffer: Seq::empty(),
        config_edit_username: Seq::empty(),
        config_edit_password: Seq::empty(),
        config_edit_focus: ConfigField::Username,
    }
}

/// The program as it starts, with a hint where the configuration is missing or
/// still the template.
pub open spec fn start_view(config: ConfigView, missing: bool, manifest: ManifestView) -> TuiView {
    let app = first_view(config, manifest);
    if missing {
        logged(
            app,
            LogLevel::Error,
            "config.json not found — a template was created. Press c to configure now."@,
        )
    } else if config.username == TEMPLATE_USERNAME@ {
        logged(
            app,
            LogLevel::Info,
            "Default config detected. Press c to enter your credentials."@,
        )
    } else {
        app
    }
}

impl TuiApp {
    /// The program as it starts.
    pub fn start(config: Config, missing: bool, manifest: VersionManifest) -> (app: Self)
        ensures
            app@ == start_view(config@, missing, manifest@),
    {
        let mut app: TuiApp = TuiApp {
            config,
            token: None,
            manifest,
            download_queue: Vec::new(),
            status_log: Vec::new(),
            active_panel: Panel::LocalMods,
            mod_list: ListPosition::new(),
            queue_list: ListPosition::new(),
            log_list: ListPosition::new(),
            should_quit: false,
            input_mode: InputMode::Normal,
            mod_input_buffer: String::new(),
            config_edit_username: String::new(),
            config_edit_password: String::new(),
            config_edit_focus: ConfigField::Username,
        };
        app.log_info("Rusty Gears v3 — Interactive Mode");
        app.log_info("F1 Check  |  F2 Add Mod  |  F3 Auth  |  F4 Download All");
        app.log_info("c Config  |  r Reload Config  |  Tab Focus  |  q Quit");
        if app.manifest.len() > 0 {
            app.mod_list.select(Some(0));
        }
        assert(app@ =~= first_view(config@, manifest@)) by {
            assert(app@.status_log =~= first_lines());
            assert(app@.download_queue =~= Seq::<FileToDownloadView>::empty());
        }
        if missing {
            app.log_error(
                "config.json not found — a template was created. Press c to configure now.",
            );
        } else if same(app.config.username.as_str(), TEMPLATE_USERNAME) {
            app.log_info("Default config detected. Press c to enter your credentials.");
        }
        app
    }
}

} // verus!

//! A verified core for keeping a folder of Factorio mods up to date: which
//! releases to fetch, which session token to use, and how the interactive
//! screen reacts to keys and to finished background work.

pub mod api;
pub mod auth;
pub mod automated;
pub mod automated_laws;
pub mod clock;
pub mod config;
pub mod data_laws;
pub mod download;
pub mod folder_laws;
pub mod layout;
pub mod line_laws;
pub mod manifest;
pub mod models;
pub mod new_mods;
pub mod notes;
pub mod overlay;
pub mod screen;
pub mod screen_laws;
pub mod session_laws;
pub mod string_map;
pub mod text;
pub mod text_laws;
pub mod tui;
pub mod tui_event_laws;
pub mod tui_laws;
pub mod tui_start;
pub mod tui_tasks;
pub mod update;
pub mod update_laws;
pub mod update_outcome_laws;
pub mod update_run_laws;
pub mod version;

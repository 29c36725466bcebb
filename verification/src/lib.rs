//! Verified core of the OMT Tools suite: settings editing, discovery server
//! bookkeeping, launcher helpers and view state rules.

pub mod config_form;
pub mod discovery;
pub mod editing;
pub mod entries;
pub mod launcher;
pub mod monitor;
pub mod monitor_menu;
pub mod monitor_poll;
pub mod monitor_prefs;
pub mod patterns;
pub mod patterns_form;
pub mod settings_editor;
pub mod settings_laws;
pub mod text;

use vstd::prelude::*;

pub mod text;
pub mod toast;
pub mod top_bar;
pub mod constants;
pub mod default_settings;
pub mod mcp;
pub mod note;
pub mod panels;
pub mod path;
pub mod prompting;
pub mod save;
pub mod info_messages;
pub mod app_state;
pub mod block;
pub mod dialogs;
pub mod editor;
pub mod export;
pub mod file_tree;
pub mod file_tree_backend;
pub mod sort;
pub mod import;
pub mod hotkeys;
pub mod json_text;
pub mod search;
pub mod settings_panel;
pub mod settings_validation;

verus! {
} // verus!

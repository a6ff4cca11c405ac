//! Core logic of a keyboard-first file manager: file classification, path
//! naming, tab navigation history, listing order, batch renaming, bookmarks
//! and workspaces, with their contracts proved by Verus.

pub mod batch_rename;
pub mod bookmarks;
pub mod channel;
pub mod command_palette;
pub mod commands;
pub mod context_menu;
pub mod directory;
pub mod dispatch;
pub mod error;
pub mod file_list;
pub mod file_ops;
pub mod file_utils;
pub mod git;
pub mod icons;
pub mod listing;
pub mod numbers;
pub mod paths;
pub mod preview;
pub mod properties;
pub mod responses;
pub mod search;
pub mod session;
pub mod shortcuts;
pub mod sidebar;
pub mod state;
pub mod status_bar;
pub mod system;
pub mod tab_bar;
pub mod text;
pub mod timestamps;
pub mod top_bar;
pub mod trash_ops;
pub mod types;
pub mod user_dirs;
pub mod watcher;
pub mod window;
pub mod worker;

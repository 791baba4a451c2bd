//! Core state machines and data logic of a terminal user interface for git.
//!
//! - `selection`, `diff_nav`, `diff_search`, `diff_view`: the diff view's
//!   selection, numeric-prefix movement, copy commands and search.
//! - `blame_search`: the blame view's selection and incremental search.
//! - `commit_list`, `logwalker`, `commit`: the commit list over a time-ordered
//!   walk of the commit graph; commit ids and their hex forms.
//! - `options`, `config`, `keys`: the repository's persisted preferences.
//! - `rebase_todo`, `rebase_session`, `ipc`: interactive rebase through a
//!   helper editor: todo lines, the parent's protocol, the shared region.
//! - `branch_list`, `extern_cmd`, `copy_popups`, `copy_keys`, `popups`:
//!   the popups' key handling.
//! - `jobs`, `queue`, `lfs`, `utils`, `text`: background jobs, queued
//!   events, LFS listings, column layout and character search.

pub mod selection;
pub mod text;
pub mod diff_nav;
pub mod diff_search;
pub mod diff_view;
pub mod config;
pub mod keys;
pub mod options;
pub mod blame_search;
pub mod utils;
pub mod commit;
pub mod logwalker;
pub mod jobs;
pub mod queue;
pub mod copy_popups;
pub mod copy_keys;
pub mod rebase_todo;
pub mod rebase_session;
pub mod commit_list;
pub mod ipc;
pub mod extern_cmd;
pub mod lfs;
pub mod branch_list;
pub mod popups;

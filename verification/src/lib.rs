//! The logic behind three panels of a session browser: the read-only file viewer, the quick-open
//! palette and the worktree settings page.
//!
//! Each panel is a state that events change; its functions say what to show and what to ask of the
//! surroundings (a call to the engine, a wait, a link for the platform).

pub mod display;
pub mod file_open;
pub mod file_viewer;
pub mod link;
pub mod percent;
pub mod proto;
pub mod size;
pub mod text;
pub mod viewer;
pub mod viewer_pane;
pub mod worktrees;

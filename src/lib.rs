//! Detects and collapses redundant directory nesting: a directory whose one
//! qualifying child is itself a directory has that child's contents lifted
//! into it, and the emptied child removed.
//!
//! The library decides; the caller touches the filesystem. A [`FixSession`]
//! asks for directory listings and hands out moves and removals one at a time,
//! and the caller answers each request with an [`Event`].

pub mod entry;
pub mod path;
pub mod resolver;
pub mod session;
pub mod walker;

pub use entry::{name_view, Entry};
pub use path::{child_path, copy_path, path_name};
pub use resolver::{
    count_nested_dirs, find_nested_dir, plan_unnest, FsOp, UnnestPlan,
};
pub use session::{fix_nested_directories, Action, Event, FixError, FixSession, Phase};
pub use walker::DirWalker;

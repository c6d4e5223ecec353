//! Renames files to random identifiers: the decisions of the renamer, without the
//! filesystem. A caller performs each action on the disk and hands back the
//! event that says how it went.

pub mod config;
pub mod error;
pub mod laws;
pub mod name;
pub mod plan;
pub mod renamer;
pub mod token;

pub use config::AppConfig;
pub use error::RenameError;
pub use plan::{Action, Entry, Event, FileLocation, RenameOperation, Target};
pub use renamer::FileRenamer;

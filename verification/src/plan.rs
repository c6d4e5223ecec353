//! What passes between the renamer and whoever touches the disk for it: the
//! files and entries handed in, the actions asked for, and the events that
//! answer them.

use crate::error::RenameError;
use crate::name::{is_hidden_name, new_name};
use crate::token::is_random_token;
use vstd::prelude::*;

verus! {

/// A file, as far as the renamer reads its path.
#[derive(Debug)]
pub struct FileLocation {
    /// The path of the file, as it is to be handed back for the rename.
    pub path: String,
    /// The directory part of the path; `None` where the path has none.
    pub parent: Option<String>,
    /// The base name: the last component of the path.
    pub name: String,
}

/// What a [`FileLocation`] holds, as plain values.
pub struct FileLocationView {
    /// The path of the file.
    pub path: Seq<char>,
    /// The directory part of the path, if it has one.
    pub parent: Option<Seq<char>>,
    /// The base name.
    pub name: Seq<char>,
}

impl View for FileLocation {
    type V = FileLocationView;

    open spec fn view(&self) -> FileLocationView {
        FileLocationView {
            path: self.path@,
            parent: self.parent.deep_view(),
            name: self.name@,
        }
    }
}

/// What the target path of a run names.
#[derive(Debug)]
pub enum Target {
    /// Nothing exists at the path.
    Missing,
    /// A regular file, with the directory part and the base name of the path.
    File { parent: Option<String>, name: String },
    /// Anything else that exists. It is walked as a directory.
    Other,
}

/// One entry of a directory that is being walked.
#[derive(Debug)]
pub enum Entry {
    /// A subdirectory, with its path.
    Directory { path: String },
    /// A regular file.
    File(FileLocation),
    /// Neither of the two.
    Other,
}

/// One rename: the file at `source` gets the name `new_name` in `directory`.
#[derive(Debug)]
pub struct RenameOperation {
    /// The path of the file as it is now.
    pub source: String,
    /// The directory that the file lies in and stays in.
    pub directory: String,
    /// The base name that the file gets.
    pub new_name: String,
}

/// What the renamer asks for next.
#[derive(Debug)]
pub enum Action {
    /// Open the directory at `path` for enumeration.
    OpenDirectory { path: String },
    /// Hand over the next entry of the directory opened last and not yet
    /// exhausted.
    NextEntry,
    /// Tell the user that the hidden file at `path` is left alone.
    ReportSkipped { path: String },
    /// Tell the user of the rename and perform it.
    Rename(RenameOperation),
    /// The run is over, with this result.
    Finish(Result<(), RenameError>),
}

/// How the action asked for last went.
#[derive(Debug)]
pub enum Event {
    /// It was done, and there is nothing to hand over.
    Completed,
    /// The next entry of the directory.
    Entry(Entry),
    /// The directory has no further entry.
    EndOfDirectory,
    /// The filesystem refused.
    Failed(std::io::Error),
}

/// What the renamer waits for.
#[derive(Clone, Copy, Debug, PartialEq, Eq, Structural)]
pub enum Awaiting {
    /// Word that a directory was opened.
    Opening,
    /// The next entry of a directory.
    Entry,
    /// Word that a rename or a report was carried out.
    Effect,
    /// Nothing: the run is over.
    Nothing,
}

/// A new name for a file called `old_name`: the token of a random identifier,
/// a dot, and the extension of the old name.
pub open spec fn is_new_name_for(name: Seq<char>, old_name: Seq<char>) -> bool {
    &&& name.len() >= 33
    &&& is_random_token(name.take(32))
    &&& name == new_name(name.take(32), old_name)
}

impl RenameOperation {
    /// This operation renames `file`: it takes the file from its own path and
    /// leaves it in its parent directory under a new name that keeps the
    /// extension.
    pub open spec fn renames(&self, file: FileLocationView) -> bool {
        &&& file.parent is Some
        &&& self.source@ == file.path
        &&& self.directory@ == file.parent->0
        &&& is_new_name_for(self.new_name@, file.name)
    }
}

impl Action {
    /// This action opens the directory at `path`.
    pub open spec fn opens(&self, path: Seq<char>) -> bool {
        self matches Action::OpenDirectory { path: opened } && opened@ == path
    }

    /// This action reports that the file at `path` is left alone.
    pub open spec fn skips(&self, path: Seq<char>) -> bool {
        self matches Action::ReportSkipped { path: skipped } && skipped@ == path
    }

    /// What the renamer waits for once it has asked for this action.
    pub open spec fn awaited(&self) -> Awaiting {
        match self {
            Action::OpenDirectory { .. } => Awaiting::Opening,
            Action::NextEntry => Awaiting::Entry,
            Action::ReportSkipped { .. } => Awaiting::Effect,
            Action::Rename(_) => Awaiting::Effect,
            Action::Finish(_) => Awaiting::Nothing,
        }
    }
}

/// What is decided for one file: a hidden file is skipped unless hidden files
/// are included; a file whose path has no parent cannot be renamed; any other
/// file is renamed.
pub open spec fn file_outcome(
    file: FileLocationView,
    include_hidden: bool,
    outcome: Result<Option<RenameOperation>, RenameError>,
) -> bool {
    if !include_hidden && is_hidden_name(file.name) {
        outcome matches Ok(None)
    } else if file.parent is None {
        outcome matches Err(RenameError::NoParentDirectory)
    } else {
        outcome matches Ok(Some(operation)) && operation.renames(file)
    }
}

/// The action that carries out what is decided for one file.
pub open spec fn file_action(file: FileLocationView, include_hidden: bool, action: Action) -> bool {
    if !include_hidden && is_hidden_name(file.name) {
        action.skips(file.path)
    } else if file.parent is None {
        action == Action::Finish(Err(RenameError::NoParentDirectory))
    } else {
        action matches Action::Rename(operation) && operation.renames(file)
    }
}

} // verus!

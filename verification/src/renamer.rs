//! The renamer: a run over one target path, taken one step at a time.

use crate::config::AppConfig;
use crate::error::RenameError;
use crate::name::{compose_name, is_excluded, is_excluded_name, is_hidden};
use crate::plan::{
    file_action, file_outcome, is_new_name_for, Action, Awaiting, Entry, Event, FileLocation,
    FileLocationView, RenameOperation, Target,
};
use crate::token::{is_random_token, lemma_random_token, random_bits, token_from_bits};
use vstd::prelude::*;

verus! {

/// A run at one moment, as plain values.
pub struct RunState {
    /// Whether the walk goes down into subdirectories.
    pub recursive: bool,
    /// Whether hidden files are renamed like any other.
    pub include_hidden: bool,
    /// The paths of the directories entered and not yet left, outermost first.
    pub open: Seq<Seq<char>>,
    /// What the run waits for.
    pub awaiting: Awaiting,
}

impl RunState {
    /// The same run, waiting for something else.
    pub open spec fn awaits(self, awaiting: Awaiting) -> RunState {
        RunState { awaiting, ..self }
    }

    /// The run once it has asked to open the directory at `path`.
    pub open spec fn enters(self, path: Seq<char>) -> RunState {
        RunState { open: self.open.push(path), awaiting: Awaiting::Opening, ..self }
    }

    /// The run once the innermost directory is exhausted.
    pub open spec fn leaves(self) -> RunState {
        if self.open.len() == 0 {
            self
        } else {
            RunState { open: self.open.drop_last(), ..self }
        }
    }

    /// What holds of every run: entries are only asked of a directory that was
    /// entered, and without recursion no directory is entered below the target.
    pub open spec fn wf(self) -> bool {
        &&& (self.awaiting is Opening || self.awaiting is Entry) ==> self.open.len() >= 1
        &&& !self.recursive ==> self.open.len() <= 1
    }

    /// Whether `event` answers what the run waits for.
    pub open spec fn accepts(self, event: Event) -> bool {
        match self.awaiting {
            Awaiting::Opening | Awaiting::Effect => event is Completed || event is Failed,
            Awaiting::Entry => event is Entry || event is EndOfDirectory || event is Failed,
            Awaiting::Nothing => false,
        }
    }
}

/// How a run goes on when nothing is left to do where it stands: it asks for
/// the next entry of the innermost open directory, or ends well if none is open.
pub open spec fn proceeds(base: RunState, post: RunState, action: Action) -> bool {
    if base.open.len() == 0 {
        post == base.awaits(Awaiting::Nothing) && action == Action::Finish(Ok(()))
    } else {
        post == base.awaits(Awaiting::Entry) && action is NextEntry
    }
}

/// What one entry of a directory leads to. A subdirectory is entered only in a
/// recursive run. A file on the exclusion list is passed over whatever the flags
/// say; any other file is skipped or renamed as `file_action` says. Everything
/// else is passed over.
pub open spec fn entry_step(pre: RunState, entry: Entry, post: RunState, action: Action) -> bool {
    match entry {
        Entry::Directory { path } => if pre.recursive {
            post == pre.enters(path@) && action.opens(path@)
        } else {
            post == pre && action is NextEntry
        },
        Entry::File(file) => if is_excluded_name(file@.name) {
            post == pre && action is NextEntry
        } else {
            file_action(file@, pre.include_hidden, action) && post == pre.awaits(action.awaited())
        },
        Entry::Other => post == pre && action is NextEntry,
    }
}

/// One step of a run: from the state `pre` and an event that it accepts to the
/// state `post` and the action asked for next. The first failure ends the run
/// with that error.
pub open spec fn step(pre: RunState, event: Event, post: RunState, action: Action) -> bool {
    match event {
        Event::Failed(error) => post == pre.awaits(Awaiting::Nothing) && action == Action::Finish(
            Err(RenameError::Io(error)),
        ),
        Event::Completed => if pre.awaiting is Opening {
            post == pre.awaits(Awaiting::Entry) && action is NextEntry
        } else {
            proceeds(pre, post, action)
        },
        Event::EndOfDirectory => proceeds(pre.leaves(), post, action),
        Event::Entry(entry) => entry_step(pre, entry, post, action),
    }
}

/// How a run begins. A target that does not exist ends it at once with
/// `InvalidPath`. A regular file is skipped or renamed by itself. Anything else
/// is entered as a directory.
pub open spec fn begins(config: &AppConfig, target: Target, post: RunState, action: Action) -> bool {
    let start = RunState {
        recursive: config@.recursive,
        include_hidden: config@.include_hidden,
        open: Seq::empty(),
        awaiting: Awaiting::Nothing,
    };
    match target {
        Target::Missing => post == start && action == Action::Finish(
            Err(RenameError::InvalidPath),
        ),
        Target::File { parent, name } => {
            let file = FileLocationView {
                path: config@.target_path,
                parent: parent.deep_view(),
                name: name@,
            };
            file_action(file, config@.include_hidden, action) && post == start.awaits(
                action.awaited(),
            )
        },
        Target::Other => post == start.enters(config@.target_path) && action.opens(
            config@.target_path,
        ),
    }
}

/// One run of the renamer over a target path.
pub struct FileRenamer {
    recursive: bool,
    hidden: bool,
    open: Vec<String>,
    awaiting: Awaiting,
}

impl View for FileRenamer {
    type V = RunState;

    closed spec fn view(&self) -> RunState {
        RunState {
            recursive: self.recursive,
            include_hidden: self.hidden,
            open: self.open@.map_values(|path: String| path@),
            awaiting: self.awaiting,
        }
    }
}

impl FileRenamer {
    /// A fresh token: the 32 upper-case hexadecimal digits of a random
    /// identifier of version 4.
    pub fn format_uuid() -> (token: String)
        ensures
            is_random_token(token@),
    {
        let bits = random_bits();
        proof {
            lemma_random_token(bits);
        }
        token_from_bits(bits)
    }

    /// A new name for the file called `old_name`: a fresh token, a dot, and the
    /// extension of the old name.
    pub fn generate_new_name(old_name: &str) -> (made: Result<String, RenameError>)
        ensures
            made matches Ok(name) && is_new_name_for(name@, old_name@),
    {
        let token = Self::format_uuid();
        let name = compose_name(token.as_str(), old_name);
        proof {
            assert(name@.take(32) =~= token@);
        }
        Ok(name)
    }

    /// Decides what happens to one file; `hidden` says whether hidden files are
    /// included. A hidden file that is not included is left alone (`Ok(None)`).
    /// Any other file is renamed within its directory, and one whose path has
    /// no parent gives `NoParentDirectory`.
    pub fn rename_file(file: &FileLocation, hidden: bool) -> (outcome: Result<
        Option<RenameOperation>,
        RenameError,
    >)
        ensures
            file_outcome(file@, hidden, outcome),
    {
        if !hidden && is_hidden(file.name.as_str()) {
            return Ok(None);
        }
        let new_name = match Self::generate_new_name(file.name.as_str()) {
            Ok(name) => name,
            Err(error) => {
                return Err(error);
            },
        };
        match &file.parent {
            Some(parent) => Ok(
                Some(RenameOperation { source: file.path.clone(), directory: parent.clone(), new_name }),
            ),
            None => Err(RenameError::NoParentDirectory),
        }
    }

    /// Begins a run: looks at what the target path names and asks for the first
    /// action.
    pub fn process(config: &AppConfig, target: Target) -> (run: (FileRenamer, Action))
        ensures
            begins(config, target, run.0@, run.1),
            run.0@.wf(),
    {
        let mut renamer = FileRenamer {
            recursive: config.recursive(),
            hidden: config.hidden(),
            open: Vec::new(),
            awaiting: Awaiting::Nothing,
        };
        assert(renamer@.open =~= Seq::empty());
        match target {
            Target::Missing => (renamer, Action::Finish(Err(RenameError::InvalidPath))),
            Target::File { parent, name } => {
                let file = FileLocation { path: config.target_path().clone(), parent, name };
                let action = renamer.file_step(&file);
                (renamer, action)
            },
            Target::Other => {
                let action = renamer.open_directory(config.target_path().clone());
                (renamer, action)
            },
        }
    }

    /// Takes the run one step further with the event that answers the action
    /// asked for last. An event that does not answer it changes nothing and
    /// yields no action; so does any event once the run is over.
    pub fn resume(&mut self, event: Event) -> (next: Option<Action>)
        ensures
            old(self)@.wf() ==> final(self)@.wf(),
            match next {
                Some(action) => old(self)@.accepts(event) && step(
                    old(self)@,
                    event,
                    final(self)@,
                    action,
                ),
                None => !old(self)@.accepts(event) && final(self)@ == old(self)@,
            },
    {
        match self.awaiting {
            Awaiting::Nothing => None,
            Awaiting::Opening => match event {
                Event::Completed => {
                    self.awaiting = Awaiting::Entry;
                    Some(Action::NextEntry)
                },
                Event::Failed(error) => Some(self.fail(error)),
                _ => None,
            },
            Awaiting::Effect => match event {
                Event::Completed => Some(self.proceed()),
                Event::Failed(error) => Some(self.fail(error)),
                _ => None,
            },
            Awaiting::Entry => match event {
                Event::Entry(entry) => Some(self.process_directory(entry)),
                Event::EndOfDirectory => {
                    self.open.pop();
                    assert(self@.open =~= old(self)@.leaves().open);
                    Some(self.proceed())
                },
                Event::Failed(error) => Some(self.fail(error)),
                Event::Completed => None,
            },
        }
    }

    /// The number of directories entered and not yet left.
    pub fn depth(&self) -> (depth: usize)
        ensures
            depth == self@.open.len(),
    {
        self.open.len()
    }

    /// Whether the run is over.
    pub fn is_finished(&self) -> (finished: bool)
        ensures
            finished == (self@.awaiting is Nothing),
    {
        match self.awaiting {
            Awaiting::Nothing => true,
            _ => false,
        }
    }

    /// Takes the walk of the innermost open directory one entry further.
    fn process_directory(&mut self, entry: Entry) -> (action: Action)
        ensures
            entry_step(old(self)@, entry, final(self)@, action),
    {
        match entry {
            Entry::Directory { path } => {
                if self.recursive {
                    self.open_directory(path)
                } else {
                    Action::NextEntry
                }
            },
            Entry::File(file) => {
                if is_excluded(file.name.as_str()) {
                    Action::NextEntry
                } else {
                    self.file_step(&file)
                }
            },
            Entry::Other => Action::NextEntry,
        }
    }

    /// Enters the directory at `path`.
    fn open_directory(&mut self, path: String) -> (action: Action)
        ensures
            final(self)@ == old(self)@.enters(path@),
            action.opens(path@),
    {
        self.open.push(path.clone());
        self.awaiting = Awaiting::Opening;
        assert(self@.open =~= old(self)@.open.push(path@));
        Action::OpenDirectory { path }
    }

    /// Asks for what `rename_file` decides of `file`.
    fn file_step(&mut self, file: &FileLocation) -> (action: Action)
        ensures
            file_action(file@, old(self)@.include_hidden, action),
            final(self)@ == old(self)@.awaits(action.awaited()),
    {
        match Self::rename_file(file, self.hidden) {
            Ok(None) => {
                self.awaiting = Awaiting::Effect;
                Action::ReportSkipped { path: file.path.clone() }
            },
            Ok(Some(operation)) => {
                self.awaiting = Awaiting::Effect;
                Action::Rename(operation)
            },
            Err(error) => {
                self.awaiting = Awaiting::Nothing;
                Action::Finish(Err(error))
            },
        }
    }

    /// Goes on where nothing is left to do at this point of the walk.
    fn proceed(&mut self) -> (action: Action)
        ensures
            proceeds(old(self)@, final(self)@, action),
    {
        if self.open.len() == 0 {
            self.awaiting = Awaiting::Nothing;
            Action::Finish(Ok(()))
        } else {
            self.awaiting = Awaiting::Entry;
            Action::NextEntry
        }
    }

    /// Ends the run with what the filesystem said.
    fn fail(&mut self, error: std::io::Error) -> (action: Action)
        ensures
            final(self)@ == old(self)@.awaits(Awaiting::Nothing),
            action == Action::Finish(Err(RenameError::Io(error))),
    {
        self.awaiting = Awaiting::Nothing;
        Action::Finish(Err(RenameError::from(error)))
    }
}

} // verus!

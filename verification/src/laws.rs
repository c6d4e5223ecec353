//! What holds of every run and of every new name, stated over the same spec
//! functions as the contracts of the renamer.

use crate::config::AppConfig;
use crate::error::RenameError;
use crate::name::{
    excluded_names, extension_of, is_excluded_name, is_hidden_name, lemma_last_dot_unique,
};
use crate::plan::{
    file_outcome, is_new_name_for, Action, Entry, Event, FileLocation, FileLocationView,
    RenameOperation, Target,
};
use crate::renamer::{begins, entry_step, step, RunState};
use crate::token::{is_random_token, is_upper_hex_char};
use vstd::prelude::*;

verus! {

/// A base name made of a stem that is not empty, a dot, and an extension that
/// holds no dot has exactly that extension.
pub proof fn lemma_extension_of_joined(stem: Seq<char>, extension: Seq<char>)
    requires
        stem.len() > 0,
        forall|i: int| 0 <= i < extension.len() ==> extension[i] != '.',
    ensures
        extension_of(stem + seq!['.'] + extension) == Some(extension),
{
    let name = stem + seq!['.'] + extension;
    lemma_last_dot_unique(name, stem.len() as int);
    assert(name.skip(stem.len() as int + 1) =~= extension);
}

/// A base name without a dot has no extension, and neither has a name whose
/// only dot comes first.
pub proof fn lemma_extension_of_plain(name: Seq<char>)
    requires
        forall|i: int| 0 < i < name.len() ==> name[i] != '.',
    ensures
        extension_of(name) is None,
{
    if name.len() > 0 && name[0] == '.' {
        lemma_last_dot_unique(name, 0);
    } else {
        lemma_last_dot_unique(name, -1);
    }
}

/// The new name of a file with the extension `extension` is 32 upper-case
/// hexadecimal digits, a dot, and that extension.
pub proof fn lemma_new_name_with_extension(
    name: Seq<char>,
    old_name: Seq<char>,
    extension: Seq<char>,
)
    requires
        is_new_name_for(name, old_name),
        extension_of(old_name) == Some(extension),
    ensures
        name.len() == 33 + extension.len(),
        forall|i: int| 0 <= i < 32 ==> is_upper_hex_char(#[trigger] name[i]),
        name[32] == '.',
        name.skip(33) == extension,
        is_random_token(name.take(32)),
{
    let token = name.take(32);
    assert forall|i: int| 0 <= i < 32 implies is_upper_hex_char(#[trigger] name[i]) by {
        assert(name[i] == token[i]);
    }
    assert(name.skip(33) =~= extension);
}

/// The new name of a file without an extension is 32 upper-case hexadecimal
/// digits and a dot: the dot stays.
pub proof fn lemma_new_name_without_extension(name: Seq<char>, old_name: Seq<char>)
    requires
        is_new_name_for(name, old_name),
        extension_of(old_name) is None,
    ensures
        name.len() == 33,
        forall|i: int| 0 <= i < 32 ==> is_upper_hex_char(#[trigger] name[i]),
        name[32] == '.',
{
    let token = name.take(32);
    assert forall|i: int| 0 <= i < 32 implies is_upper_hex_char(#[trigger] name[i]) by {
        assert(name[i] == token[i]);
    }
}

/// A hidden file is left alone while hidden files are not included, and is
/// renamed like any other once they are.
pub proof fn lemma_hidden_policy(
    file: FileLocationView,
    excluding: Result<Option<RenameOperation>, RenameError>,
    including: Result<Option<RenameOperation>, RenameError>,
)
    requires
        is_hidden_name(file.name),
        file.parent is Some,
        file_outcome(file, false, excluding),
        file_outcome(file, true, including),
    ensures
        excluding matches Ok(None),
        including matches Ok(Some(operation)) && operation.renames(file),
{
}

/// A directory is entered in answer to an entry only where the run is
/// recursive and the entry is a subdirectory; then it is that subdirectory.
pub proof fn lemma_descent_only_when_recursive(
    pre: RunState,
    entry: Entry,
    post: RunState,
    action: Action,
)
    requires
        entry_step(pre, entry, post, action),
    ensures
        action is OpenDirectory <==> pre.recursive && entry is Directory,
        action is OpenDirectory ==> action.opens(entry->path@),
{
}

/// A run without recursion never asks to open a directory once it has begun,
/// and never has more than the target directory open.
pub proof fn lemma_no_descent_without_recursion(
    pre: RunState,
    event: Event,
    post: RunState,
    action: Action,
)
    requires
        pre.wf(),
        !pre.recursive,
        pre.accepts(event),
        step(pre, event, post, action),
    ensures
        !(action is OpenDirectory),
        post.open.len() <= 1,
{
}

/// Every step keeps what holds of every run.
pub proof fn lemma_step_preserves_wf(pre: RunState, event: Event, post: RunState, action: Action)
    requires
        pre.wf(),
        pre.accepts(event),
        step(pre, event, post, action),
    ensures
        post.wf(),
{
}

/// A target that does not exist ends the run at once with `InvalidPath`: no
/// action on the disk is asked for, and no event is taken any more.
pub proof fn lemma_missing_target(config: &AppConfig, post: RunState, action: Action)
    requires
        begins(config, Target::Missing, post, action),
    ensures
        action == Action::Finish(Err(RenameError::InvalidPath)),
        forall|event: Event| !post.accepts(event),
{
}

/// A file on the exclusion list that turns up in a directory is passed over,
/// whatever the flags say: the run asks for the next entry and stays as it is.
pub proof fn lemma_excluded_never_renamed(
    pre: RunState,
    file: FileLocation,
    post: RunState,
    action: Action,
)
    requires
        is_excluded_name(file@.name),
        entry_step(pre, Entry::File(file), post, action),
    ensures
        action is NextEntry,
        post == pre,
{
}

/// The metadata file `.DS_Store` is on the exclusion list.
pub proof fn lemma_ds_store_excluded()
    ensures
        is_excluded_name(".DS_Store"@),
{
    assert(excluded_names()[0] == ".DS_Store"@);
}

/// The first failure ends the run with the error that the filesystem gave.
pub proof fn lemma_first_failure_ends(
    pre: RunState,
    error: std::io::Error,
    post: RunState,
    action: Action,
)
    requires
        step(pre, Event::Failed(error), post, action),
    ensures
        action == Action::Finish(Err(RenameError::Io(error))),
        post.awaiting is Nothing,
        forall|event: Event| !post.accepts(event),
{
}

} // verus!

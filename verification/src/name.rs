//! File names: which are hidden, which are never touched, what extension a name
//! carries, and the new name that a token and an old name give.

use vstd::prelude::*;
use vstd::string::*;

verus! {

/// A hidden file is one whose base name begins with a dot.
pub open spec fn is_hidden_name(name: Seq<char>) -> bool {
    name.len() > 0 && name[0] == '.'
}

/// The base names that a directory walk never renames, whatever the flags say:
/// metadata files that a platform drops beside the user's own files.
pub open spec fn excluded_names() -> Seq<Seq<char>> {
    seq![".DS_Store"@]
}

/// Whether a directory walk leaves a file of this base name alone.
pub open spec fn is_excluded_name(name: Seq<char>) -> bool {
    excluded_names().contains(name)
}

/// The position of the last dot in `name`, or -1 where it holds none.
pub open spec fn last_dot(name: Seq<char>) -> int
    decreases name.len(),
{
    if name.len() == 0 {
        -1
    } else if name.last() == '.' {
        name.len() - 1
    } else {
        last_dot(name.drop_last())
    }
}

/// The extension of a base name: what follows its last dot. A name without a
/// dot has none, and neither has one whose only dot is its first character.
pub open spec fn extension_of(name: Seq<char>) -> Option<Seq<char>> {
    if last_dot(name) <= 0 {
        None
    } else {
        Some(name.skip(last_dot(name) + 1))
    }
}

/// The extension of a base name, empty where it has none.
pub open spec fn extension_or_empty(name: Seq<char>) -> Seq<char> {
    match extension_of(name) {
        Some(extension) => extension,
        None => Seq::empty(),
    }
}

/// The new name of a file: the token, a dot, and the old name's extension. The
/// dot stays where the old name has no extension.
pub open spec fn new_name(token: Seq<char>, old_name: Seq<char>) -> Seq<char> {
    token + seq!['.'] + extension_or_empty(old_name)
}

/// `last_dot` finds a dot after which no dot follows, or tells that there is none.
pub proof fn lemma_last_dot(name: Seq<char>)
    ensures
        -1 <= last_dot(name) < name.len(),
        last_dot(name) >= 0 ==> name[last_dot(name)] == '.',
        forall|j: int| last_dot(name) < j < name.len() ==> name[j] != '.',
    decreases name.len(),
{
    if name.len() > 0 && name.last() != '.' {
        let front = name.drop_last();
        lemma_last_dot(front);
        assert forall|j: int| last_dot(name) < j < name.len() implies name[j] != '.' by {
            if j < front.len() {
                assert(front[j] == name[j]);
            }
        }
    }
}

/// A dot at `i` with none after it is the last dot.
pub proof fn lemma_last_dot_unique(name: Seq<char>, i: int)
    requires
        -1 <= i < name.len(),
        i >= 0 ==> name[i] == '.',
        forall|j: int| i < j < name.len() ==> name[j] != '.',
    ensures
        last_dot(name) == i,
{
    lemma_last_dot(name);
}

/// Whether the base name marks a hidden file.
pub fn is_hidden(name: &str) -> (hidden: bool)
    ensures
        hidden == is_hidden_name(name@),
{
    name.unicode_len() > 0 && name.get_char(0) == '.'
}

/// Whether a directory walk leaves a file of this base name alone.
pub fn is_excluded(name: &str) -> (excluded: bool)
    ensures
        excluded == is_excluded_name(name@),
{
    let sidecar = String::from_str(".DS_Store");
    let found = name.to_owned() == sidecar;
    proof {
        assert(excluded_names()[0] == ".DS_Store"@);
        assert(found == excluded_names().contains(name@));
    }
    found
}

/// The extension of a base name, if it has one.
pub fn extension(name: &str) -> (found: Option<String>)
    ensures
        found is Some == extension_of(name@) is Some,
        found is Some ==> found->0@ == extension_of(name@)->0,
{
    let len = name.unicode_len();
    let mut i: usize = len;
    while i > 0 && name.get_char(i - 1) != '.'
        invariant
            i <= len,
            len == name@.len(),
            forall|j: int| i <= j < len ==> name@[j] != '.',
        decreases i,
    {
        i = i - 1;
    }
    proof {
        lemma_last_dot_unique(name@, i - 1);
    }
    if i <= 1 {
        None
    } else {
        Some(String::from_str(name.substring_char(i, len)))
    }
}

/// Puts a new name together from a token and the old base name.
pub fn compose_name(token: &str, old_name: &str) -> (name: String)
    ensures
        name@ == new_name(token@, old_name@),
{
    let mut name = String::from_str(token);
    name.append(".");
    proof {
        reveal_strlit(".");
        assert("."@ =~= seq!['.']);
    }
    match extension(old_name) {
        Some(found) => {
            name.append(found.as_str());
        },
        None => {
            assert(name@ =~= new_name(token@, old_name@));
        },
    }
    name
}

} // verus!

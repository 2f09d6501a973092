//! The create, rename and delete operations a prompt asks for.
use vstd::prelude::*;

use crate::filesystem::utils::{get_type_by_name, names_folder, FileType};
use crate::path::{join_path, joined, parent, parent_path};

verus! {

/// A filesystem change to carry out.
#[derive(Debug, PartialEq, Eq)]
pub enum Mutation {
    /// Create a directory and any missing parents.
    CreateDir(String),
    /// Create an empty file.
    CreateFile(String),
    /// Move `from` to `to`.
    Rename { from: String, to: String },
    /// Remove a file, or a directory with all it holds.
    Delete(String),
}

/// `m` creates `file` in `cur`: a directory when the name ends in a
/// separator, an empty file otherwise.
pub open spec fn creates(m: Mutation, file: Seq<char>, cur: Seq<char>) -> bool {
    match m {
        Mutation::CreateDir(p) => names_folder(file) && p@ == joined(cur, file),
        Mutation::CreateFile(p) => !names_folder(file) && p@ == joined(cur, file),
        _ => false,
    }
}

/// `m` renames `path` to `new`, taken relative to the directory that
/// holds `path`.
pub open spec fn renames(m: Mutation, path: Seq<char>, new: Seq<char>) -> bool {
    match m {
        Mutation::Rename { from, to } => from@ == path && to@ == joined(parent(path), new),
        _ => false,
    }
}

/// `m` deletes `file`.
pub open spec fn deletes(m: Mutation, file: Seq<char>) -> bool {
    match m {
        Mutation::Delete(p) => p@ == file,
        _ => false,
    }
}

/// Whether a confirmation answer is yes: a single `y`, in either case.
pub open spec fn confirms(answer: Seq<char>) -> bool {
    answer == seq!['y'] || answer == seq!['Y']
}

/// Whether `answer` confirms a deletion.
pub fn is_confirmation(answer: &str) -> (r: bool)
    ensures
        r == confirms(answer@),
{
    if answer.unicode_len() != 1 {
        false
    } else {
        let c = answer.get_char(0);
        proof {
            if c == 'y' || c == 'Y' {
                assert(answer@ =~= seq![c]);
            }
        }
        c == 'y' || c == 'Y'
    }
}

/// Creating `file` in `current_path`: a name ending in a separator is a
/// directory, any other name an empty file.
pub fn create_file(file: &str, current_path: &str) -> (r: Mutation)
    ensures
        creates(r, file@, current_path@),
{
    let path = join_path(current_path, file);
    match get_type_by_name(file) {
        FileType::Folder => Mutation::CreateDir(path),
        FileType::File(_) => Mutation::CreateFile(path),
    }
}

/// Renaming `path` to `new`, taken relative to the directory that
/// holds `path` unless it is absolute.
pub fn rename_file(path: &str, new: &str) -> (r: Mutation)
    ensures
        renames(r, path@, new@),
{
    let dir = parent_path(path);
    Mutation::Rename { from: String::from_str(path), to: join_path(dir.as_str(), new) }
}

/// Deleting `file`, which happens only when `confirmation` says yes;
/// otherwise nothing is to be done.
pub fn delete_file(file: &str, confirmation: &str) -> (r: Option<Mutation>)
    ensures
        confirms(confirmation@) ==> (r matches Some(m) && deletes(m, file@)),
        !confirms(confirmation@) ==> r is None,
{
    if is_confirmation(confirmation) {
        Some(Mutation::Delete(String::from_str(file)))
    } else {
        None
    }
}

/// What a finished change says it did.
pub open spec fn described(m: Mutation) -> Seq<char> {
    match m {
        Mutation::CreateDir(p) => "created "@ + p@,
        Mutation::CreateFile(p) => "created "@ + p@,
        Mutation::Rename { from, to } => "renamed "@ + from@ + " to "@ + to@,
        Mutation::Delete(p) => "deleted "@ + p@,
    }
}

impl Mutation {
    /// A short account of the change, for a notification.
    pub fn describe(&self) -> (r: String)
        ensures
            r@ == described(*self),
    {
        match self {
            Mutation::CreateDir(p) | Mutation::CreateFile(p) => {
                let mut r = String::from_str("created ");
                r.append(p.as_str());
                r
            },
            Mutation::Rename { from, to } => {
                let mut r = String::from_str("renamed ");
                r.append(from.as_str());
                r.append(" to ");
                r.append(to.as_str());
                r
            },
            Mutation::Delete(p) => {
                let mut r = String::from_str("deleted ");
                r.append(p.as_str());
                r
            },
        }
    }
}

} // verus!

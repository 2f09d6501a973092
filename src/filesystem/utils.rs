//! Classification of paths and names into files and folders.
use vstd::prelude::*;

use crate::text::ends_with_char;

verus! {

/// Pattern whose first group is the extension at the end of a file name.
pub const FILEEXTENTION_MATCH: &'static str = r"\.([0-9a-zA-Z]+)$";

/// A name or path seen as a folder, or as a file with an optional extension.
#[derive(PartialEq, Debug)]
pub enum FileType<'a> {
    File(Option<&'a str>),
    Folder,
}

/// A character that may appear in a file extension.
pub open spec fn is_ext_char(c: char) -> bool {
    ('0' <= c && c <= '9') || ('a' <= c && c <= 'z') || ('A' <= c && c <= 'Z')
}

/// Number of extension characters at the end of `s`.
pub open spec fn ext_suffix_len(s: Seq<char>) -> nat
    decreases s.len(),
{
    if s.len() > 0 && is_ext_char(s.last()) {
        1 + ext_suffix_len(s.drop_last())
    } else {
        0
    }
}

/// The extension of a name: the non-empty run of ASCII letters and digits
/// that ends the name and follows a dot.
pub open spec fn extension_of(s: Seq<char>) -> Option<Seq<char>> {
    let n = ext_suffix_len(s);
    if n > 0 && n < s.len() && s[s.len() - n - 1] == '.' {
        Some(s.subrange(s.len() - n, s.len() as int))
    } else {
        None
    }
}

/// Whether a name denotes a folder: it ends in a path separator.
pub open spec fn names_folder(s: Seq<char>) -> bool {
    s.len() > 0 && (s.last() == '/' || s.last() == '\\')
}

/// Relies on `regex::Regex::new` and `regex::Regex::captures`: the pattern
/// `\.([0-9a-zA-Z]+)$` matches only at the end of the text, so its first
/// group is the maximal run of ASCII letters and digits ending the text,
/// provided a dot precedes it.
#[verifier::external_body]
fn capture_extension<'a>(name: &'a str) -> (r: Option<&'a str>)
    ensures
        r matches Some(e) ==> extension_of(name@) == Some(e@),
        r is None ==> extension_of(name@) is None,
{
    let re = regex::Regex::new(FILEEXTENTION_MATCH).unwrap();
    match re.captures(name) {
        Some(c) => match c.get(1) {
            Some(m) => Some(m.as_str()),
            None => None,
        },
        None => None,
    }
}

/// Classifies a name typed by the user: a trailing `/` or `\` makes it a
/// folder, otherwise it is a file with the extension found at its end.
pub fn get_type_by_name<'a>(name: &'a str) -> (r: FileType<'a>)
    ensures
        names_folder(name@) ==> r is Folder,
        !names_folder(name@) ==> match r {
            FileType::File(Some(e)) => extension_of(name@) == Some(e@),
            FileType::File(None) => extension_of(name@) is None,
            FileType::Folder => false,
        },
{
    if ends_with_char(name, '\\') || ends_with_char(name, '/') {
        FileType::Folder
    } else {
        FileType::File(capture_extension(name))
    }
}

/// Classifies an existing path, given whether it is a directory.
pub fn get_type<'a>(is_dir: bool) -> (r: FileType<'a>)
    ensures
        r == (if is_dir { FileType::Folder } else { FileType::File(None) }),
{
    if is_dir {
        FileType::Folder
    } else {
        FileType::File(None)
    }
}

} // verus!

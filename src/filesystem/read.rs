//! Directory entries and the decisions of a directory read with fallback.
use vstd::prelude::*;

verus! {

/// The kind of a filesystem object, as reported without following links.
#[derive(PartialEq, Eq, Structural, Clone, Copy, Debug)]
pub enum FileKind {
    File,
    Dir,
    Symlink,
    Other,
}

/// The ways in which browsing can fail.
#[derive(Debug)]
pub enum BrowseError {
    /// A directory could not be listed.
    NotReadable { path: String, cause: String },
    /// A create, rename or delete failed.
    Io { cause: String },
    /// A path could not be resolved to the object it names.
    Resolution { path: String, cause: String },
    /// Neither a directory nor its fallback could be listed.
    FatalRead { path: String, cause: String },
}

/// One entry of a directory listing.
#[derive(Debug)]
pub struct File {
    pub path: String,
    pub file_type: FileKind,
    pub name: String,
}

impl File {
    /// An entry with the given path, kind and name.
    pub fn new(path: String, file_type: FileKind, name: String) -> (r: File)
        ensures
            r.path == path,
            r.file_type == file_type,
            r.name == name,
    {
        File { path, file_type, name }
    }

    /// Whether the entry is a directory: it is one itself, or it is a link
    /// whose resolved `target` is one. `target` is what resolving the
    /// entry's path gave; its failure counts only for a link.
    pub fn is_dir(&self, target: Result<FileKind, BrowseError>) -> (r: Result<bool, BrowseError>)
        ensures
            self.file_type == FileKind::Dir ==> r == Ok::<bool, BrowseError>(true),
            self.file_type == FileKind::Symlink ==> r == match target {
                Ok(k) => Ok(k == FileKind::Dir),
                Err(e) => Err(e),
            },
            self.file_type != FileKind::Dir && self.file_type != FileKind::Symlink ==> r
                == Ok::<bool, BrowseError>(false),
    {
        match self.file_type {
            FileKind::Dir => Ok(true),
            FileKind::Symlink => match target {
                Ok(k) => Ok(k == FileKind::Dir),
                Err(e) => Err(e),
            },
            _ => Ok(false),
        }
    }

    /// Whether the entry is a regular file: it is one itself, or it is a
    /// link whose resolved `target` is one.
    pub fn is_file(&self, target: Result<FileKind, BrowseError>) -> (r: Result<bool, BrowseError>)
        ensures
            self.file_type == FileKind::File ==> r == Ok::<bool, BrowseError>(true),
            self.file_type == FileKind::Symlink ==> r == match target {
                Ok(k) => Ok(k == FileKind::File),
                Err(e) => Err(e),
            },
            self.file_type != FileKind::File && self.file_type != FileKind::Symlink ==> r
                == Ok::<bool, BrowseError>(false),
    {
        match self.file_type {
            FileKind::File => Ok(true),
            FileKind::Symlink => match target {
                Ok(k) => Ok(k == FileKind::File),
                Err(e) => Err(e),
            },
            _ => Ok(false),
        }
    }
}

/// A directory as read: its canonical path and its entries in read order.
#[derive(Debug)]
pub struct Listing {
    pub path: String,
    pub files: Vec<File>,
}

/// The outcome of a read with fallback.
#[derive(Debug)]
pub enum ReadRes {
    /// The path could not be read; the fallback was read instead.
    FallBack { error: BrowseError, files: Listing },
    /// The path was read.
    Read(Listing),
}

/// Where a read with fallback stands after the first read.
#[derive(Debug)]
pub enum ReadStep {
    /// Nothing more to read.
    Done(ReadRes),
    /// The first read failed with `error`: read `path` next.
    Fallback { error: BrowseError, path: String },
}

/// The error that ends browsing when the fallback cannot be read either.
pub open spec fn fatal_of(e: BrowseError) -> BrowseError {
    match e {
        BrowseError::NotReadable { path, cause } => BrowseError::FatalRead { path, cause },
        _ => e,
    }
}

/// Decides on the result of reading a path: a listing is the outcome; a
/// failure sends the read on to the fallback path, keeping the error.
pub fn read_with_fallback(first: Result<Listing, BrowseError>, fallback: String) -> (r: ReadStep)
    ensures
        match first {
            Ok(l) => r == ReadStep::Done(ReadRes::Read(l)),
            Err(e) => r == ReadStep::Fallback { error: e, path: fallback },
        },
{
    match first {
        Ok(l) => ReadStep::Done(ReadRes::Read(l)),
        Err(e) => ReadStep::Fallback { error: e, path: fallback },
    }
}

/// Decides on the result of reading the fallback after the first read
/// failed with `error`: its listing comes with that error; its failure is
/// fatal.
pub fn finish_fallback(error: BrowseError, second: Result<Listing, BrowseError>) -> (r: Result<ReadRes, BrowseError>)
    ensures
        match second {
            Ok(l) => r == Ok::<ReadRes, BrowseError>(ReadRes::FallBack { error, files: l }),
            Err(e) => r == Err::<ReadRes, BrowseError>(fatal_of(e)),
        },
{
    match second {
        Ok(l) => Ok(ReadRes::FallBack { error, files: l }),
        Err(BrowseError::NotReadable { path, cause }) => Err(BrowseError::FatalRead { path, cause }),
        Err(e) => Err(e),
    }
}

} // verus!

//! Start-up settings.
use vstd::prelude::*;

verus! {

/// The directory opened when none is given.
pub const DEFAULT_DIR: &'static str = "./";

/// What the browser starts with.
#[derive(Debug, PartialEq, Eq)]
pub struct Settings {
    /// The directory to open.
    pub dir: String,
}

/// The settings for an optional directory argument, the current directory
/// when it is absent.
pub fn parse_args(dir: Option<String>) -> (r: Settings)
    ensures
        match dir {
            Some(d) => r.dir == d,
            None => r.dir@ == DEFAULT_DIR@,
        },
{
    match dir {
        Some(d) => Settings { dir: d },
        None => Settings { dir: String::from_str(DEFAULT_DIR) },
    }
}

} // verus!

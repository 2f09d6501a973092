//! Directory entries, directory reads with fallback, and file mutations.
pub mod modify;
pub mod read;
pub mod utils;

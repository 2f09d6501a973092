//! Core of a terminal file browser: the navigation and mode state machine,
//! the fuzzy filter over directory entries, the fallback directory read and
//! the transient notification queue.
pub mod filesystem;
pub mod fuzzy;
pub mod input;
pub mod navigation;
pub mod path;
pub mod settings;
pub mod state;
pub mod text;

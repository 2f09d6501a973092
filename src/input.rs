//! Key bindings: what a key press asks for in the current mode.
use vstd::prelude::*;

use crate::state::{buffer_of, Mode};

verus! {

/// A key as the terminal reports it.
#[derive(PartialEq, Eq, Structural, Clone, Copy, Debug)]
pub enum Key {
    Char(char),
    Up,
    Down,
    Left,
    Right,
    Enter,
    Backspace,
    Esc,
    Other,
}

/// An input event: a key pressed or released, or anything else.
#[derive(PartialEq, Eq, Structural, Clone, Copy, Debug)]
pub enum InputEvent {
    Key { code: Key, released: bool },
    Other,
}

/// An edit of the active prompt.
#[derive(PartialEq, Eq, Structural, Clone, Copy, Debug)]
pub enum ModifyMode {
    PushChar(char),
    PopChar,
}

/// The mode that an intent switches to. Rename and delete prompts take the
/// selected entry as their target.
#[derive(PartialEq, Eq, Structural, Clone, Copy, Debug)]
pub enum ModeKind {
    Basic,
    EscapedSearch,
    Search,
    Command,
    CreateFile,
    RenameFile,
    DeleteFile,
}

/// What the user asked for.
#[derive(PartialEq, Eq, Structural, Clone, Copy, Debug)]
pub enum InputResult {
    MoveUp,
    MoveDown,
    EnterFolder,
    GoBack,
    ModeChange(ModeKind),
    ModifyMode(ModifyMode),
    ExecuteMode,
    Quit,
    Skip,
}

/// The intent of a key pressed in `mode`. In a mode with a prompt,
/// characters, Backspace and Enter edit and run the prompt; Escape leaves a
/// search for its escaped state and anything else for browsing; the other
/// keys browse.
pub open spec fn key_intent(mode: Mode, key: Key) -> InputResult {
    let typing = buffer_of(mode) is Some;
    if typing && key is Char {
        InputResult::ModifyMode(ModifyMode::PushChar(key->Char_0))
    } else if typing && key == Key::Backspace {
        InputResult::ModifyMode(ModifyMode::PopChar)
    } else if typing && key == Key::Enter {
        InputResult::ExecuteMode
    } else if key == Key::Esc {
        match mode {
            Mode::Basic => InputResult::Skip,
            Mode::Search(_) => InputResult::ModeChange(ModeKind::EscapedSearch),
            _ => InputResult::ModeChange(ModeKind::Basic),
        }
    } else {
        match key {
            Key::Up | Key::Char('k') => InputResult::MoveUp,
            Key::Down | Key::Char('j') => InputResult::MoveDown,
            Key::Left | Key::Char('h') | Key::Enter => InputResult::GoBack,
            Key::Right | Key::Char('l') => InputResult::EnterFolder,
            Key::Char('/') => InputResult::ModeChange(ModeKind::Search),
            Key::Char(':') => InputResult::ModeChange(ModeKind::Command),
            Key::Char('c') => InputResult::ModeChange(ModeKind::CreateFile),
            Key::Char('r') => InputResult::ModeChange(ModeKind::RenameFile),
            Key::Char('d') => InputResult::ModeChange(ModeKind::DeleteFile),
            Key::Char('q') => InputResult::Quit,
            _ => InputResult::Skip,
        }
    }
}

/// Whether the mode has a prompt that typing edits.
fn is_typing(mode: &Mode) -> (r: bool)
    ensures
        r == buffer_of(*mode) is Some,
{
    match mode {
        Mode::Basic | Mode::EscapedSearch => false,
        _ => true,
    }
}

/// The intent of a key pressed in `mode`.
pub fn match_keycode(mode: &Mode, input: Key) -> (r: InputResult)
    ensures
        r == key_intent(*mode, input),
{
    let typing = is_typing(mode);
    match input {
        Key::Char(c) if typing => InputResult::ModifyMode(ModifyMode::PushChar(c)),
        Key::Backspace if typing => InputResult::ModifyMode(ModifyMode::PopChar),
        Key::Enter if typing => InputResult::ExecuteMode,
        Key::Esc => match mode {
            Mode::Basic => InputResult::Skip,
            Mode::Search(_) => InputResult::ModeChange(ModeKind::EscapedSearch),
            _ => InputResult::ModeChange(ModeKind::Basic),
        },
        Key::Up | Key::Char('k') => InputResult::MoveUp,
        Key::Down | Key::Char('j') => InputResult::MoveDown,
        Key::Left | Key::Char('h') | Key::Enter => InputResult::GoBack,
        Key::Right | Key::Char('l') => InputResult::EnterFolder,
        Key::Char('/') => InputResult::ModeChange(ModeKind::Search),
        Key::Char(':') => InputResult::ModeChange(ModeKind::Command),
        Key::Char('c') => InputResult::ModeChange(ModeKind::CreateFile),
        Key::Char('r') => InputResult::ModeChange(ModeKind::RenameFile),
        Key::Char('d') => InputResult::ModeChange(ModeKind::DeleteFile),
        Key::Char('q') => InputResult::Quit,
        _ => InputResult::Skip,
    }
}

/// The intent of an input event: a key press goes by its key; releases and
/// other events ask for nothing.
pub fn input(mode: &Mode, event: InputEvent) -> (r: InputResult)
    ensures
        match event {
            InputEvent::Key { code, released: false } => r == key_intent(*mode, code),
            _ => r == InputResult::Skip,
        },
{
    match event {
        InputEvent::Key { code, released } => {
            if released {
                InputResult::Skip
            } else {
                match_keycode(mode, code)
            }
        },
        InputEvent::Other => InputResult::Skip,
    }
}

} // verus!

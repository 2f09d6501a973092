//! One step of browsing: reading the current directory, and applying what
//! the user asked for.
use vstd::prelude::*;

use crate::filesystem::modify::{confirms, create_file, creates, delete_file, deletes, described,
    rename_file, renames, Mutation};
use crate::filesystem::read::{BrowseError, File, FileKind, Listing, ReadRes};
use crate::fuzzy::fuzzy_order;
use crate::input::{InputResult, ModeKind, ModifyMode};
use crate::path::{parent, parent_path};
use crate::state::{buffer_of, same_prompt, Info, InfoKind, Mode, SortMode, State};

verus! {

/// The directory read when the current one cannot be.
pub const FALLBACK_PATH: &'static str = "./";

/// How long a notification is shown, in milliseconds.
pub const INFO_TTL_MS: u64 = 4000;

/// The read that a step needs.
#[derive(Debug, PartialEq, Eq)]
pub enum ReadPlan {
    /// Read the directory again; it was read successfully before.
    Direct(String),
    /// Read a directory newly moved to, falling back on `fallback`.
    WithFallback { path: String, fallback: String },
}

/// What the caller has to do after an intent was applied.
#[derive(Debug, PartialEq, Eq)]
pub enum Action {
    /// Nothing.
    Nothing,
    /// End the session.
    Quit,
    /// Resolve this path and hand the outcome to `enter_folder`.
    Resolve(String),
    /// Carry out this change, without waiting for it, and hand its outcome
    /// to `report`.
    Mutate(Mutation),
}

/// A listing in the order a sort mode gives it.
pub open spec fn ordered(files: Seq<File>, mode: SortMode, query: Seq<char>) -> Seq<File> {
    if mode == SortMode::Fuzzy {
        fuzzy_order(files, query)
    } else {
        files
    }
}

/// A selection brought within a listing of `len` entries.
pub open spec fn clamped(sel: int, len: int) -> int {
    if sel < len {
        sel
    } else if len == 0 {
        0
    } else {
        len - 1
    }
}

/// `after` is `before` with one notification of kind `k` added at the end.
pub open spec fn notified(before: Seq<Info>, after: Seq<Info>, k: InfoKind) -> bool {
    &&& after.len() == before.len() + 1
    &&& after.drop_last() == before
    &&& after.last().kind == k
}

/// The variant of a mode.
pub open spec fn kind_of(m: Mode) -> ModeKind {
    match m {
        Mode::Basic => ModeKind::Basic,
        Mode::EscapedSearch => ModeKind::EscapedSearch,
        Mode::Search(_) => ModeKind::Search,
        Mode::Command(_) => ModeKind::Command,
        Mode::CreateFile(_) => ModeKind::CreateFile,
        Mode::RenameFile(_, _) => ModeKind::RenameFile,
        Mode::DeleteFile(_, _) => ModeKind::DeleteFile,
    }
}

/// The path a rename or delete prompt acts on.
pub open spec fn target_of(m: Mode) -> Option<Seq<char>> {
    match m {
        Mode::RenameFile(t, _) => Some(t@),
        Mode::DeleteFile(t, _) => Some(t@),
        _ => None,
    }
}

/// A buffer after an edit.
pub open spec fn edit_buffer(b: Seq<char>, e: ModifyMode) -> Seq<char> {
    match e {
        ModifyMode::PushChar(c) => b.push(c),
        ModifyMode::PopChar => if b.len() == 0 {
            b
        } else {
            b.drop_last()
        },
    }
}

/// The selection of a well-formed state lies in `[0, max(0, len - 1)]`
/// for a listing of `len` entries, an empty one included.
pub proof fn lemma_selection_in_range(s: State)
    requires
        s.wf(),
    ensures
        0 <= s.selected <= if s.files.files@.len() == 0 { 0 } else { s.files.files@.len() - 1 },
{
}

impl State {
    /// The selected entry, if the listing has one.
    pub open spec fn selected_file(&self) -> Option<File> {
        if self.selected < self.files.files@.len() {
            Some(self.files.files@[self.selected as int])
        } else {
            None
        }
    }

    /// `b` is `a` with the selection moved to `sel` and nothing else changed.
    pub open spec fn reselected(a: State, b: State, sel: int) -> bool {
        &&& b.selected == sel
        &&& b.path == a.path
        &&& b.last_path == a.last_path
        &&& b.files == a.files
        &&& b.info == a.info
        &&& b.mode == a.mode
    }

    /// Moving up: one entry up, stopping at the first.
    pub open spec fn moved_up(a: State, b: State) -> bool {
        State::reselected(a, b, if a.selected == 0 { 0 } else { a.selected - 1 })
    }

    /// Moving down: one entry down, stopping at the last.
    pub open spec fn moved_down(a: State, b: State) -> bool {
        State::reselected(a, b, clamped(a.selected + 1, a.files.files@.len() as int))
    }

    /// Going back: the parent directory, with the selection at the top.
    pub open spec fn went_back(a: State, b: State) -> bool {
        &&& b.path@ == parent(a.path@)
        &&& b.selected == 0
        &&& b.last_path == a.last_path
        &&& b.files == a.files
        &&& b.info == a.info
        &&& b.mode == a.mode
    }

    /// Entering the selected entry, given what resolving its path gave:
    /// a failure is reported and nothing else changes; an entry that
    /// resolves to a directory becomes the current path with the selection
    /// at the top; anything else changes nothing.
    pub open spec fn entered(a: State, b: State, target: Result<FileKind, BrowseError>) -> bool {
        match a.selected_file() {
            None => b == a,
            Some(f) => match target {
                Err(e) => {
                    &&& notified(a.info@, b.info@, InfoKind::Error(e))
                    &&& State::reselected(a, State { info: a.info, ..b }, a.selected as int)
                },
                Ok(k) => if f.file_type == FileKind::Dir || (f.file_type == FileKind::Symlink && k
                    == FileKind::Dir) {
                    &&& b.path@ == f.path@
                    &&& b.selected == 0
                    &&& b.last_path == a.last_path
                    &&& b.files == a.files
                    &&& b.info == a.info
                    &&& b.mode == a.mode
                } else {
                    b == a
                },
            },
        }
    }

    /// Switching to a mode of kind `k`: rename and delete need a selected
    /// entry, which becomes their target, and nothing changes without one.
    /// A rename prompt starts with the target's path, every other prompt
    /// empty. The filter follows the new mode, and an escaped search keeps
    /// the filter it had.
    pub open spec fn mode_set(a: State, b: State, k: ModeKind) -> bool {
        if (k == ModeKind::RenameFile || k == ModeKind::DeleteFile) && a.selected_file() is None {
            b == a
        } else {
            &&& kind_of(b.mode) == k
            &&& buffer_of(b.mode) == match k {
                ModeKind::Basic => None,
                ModeKind::EscapedSearch => None,
                ModeKind::RenameFile => Some(a.selected_file()->0.path@),
                _ => Some(Seq::<char>::empty()),
            }
            &&& target_of(b.mode) == match k {
                ModeKind::RenameFile => Some(a.selected_file()->0.path@),
                ModeKind::DeleteFile => Some(a.selected_file()->0.path@),
                _ => None,
            }
            &&& if k == ModeKind::EscapedSearch {
                b.files == a.files
            } else {
                b.files.files == a.files.files && b.filter_follows_mode()
            }
            &&& b.path == a.path
            &&& b.last_path == a.last_path
            &&& b.selected == a.selected
            &&& b.info == a.info
        }
    }

    /// Editing the prompt: its buffer takes the edit, a search or command
    /// filters by the new text, and a mode without a prompt changes nothing.
    pub open spec fn edited(a: State, b: State, e: ModifyMode) -> bool {
        match buffer_of(a.mode) {
            None => b == a,
            Some(buf) => {
                &&& same_prompt(a.mode, b.mode)
                &&& buffer_of(b.mode) == Some(edit_buffer(buf, e))
                &&& b.files.files == a.files.files
                &&& b.files.sort_mode == a.files.sort_mode
                &&& (a.filter_follows_mode() ==> b.filter_follows_mode())
                &&& b.path == a.path
                &&& b.last_path == a.last_path
                &&& b.selected == a.selected
                &&& b.info == a.info
            },
        }
    }

    /// Running the prompt: a create, rename or confirmed delete asks for its
    /// change, an unconfirmed delete asks for nothing, and each of them, like
    /// a command, returns to browsing; a search is escaped, keeping its
    /// filter; without a prompt nothing changes.
    pub open spec fn executed(a: State, b: State, r: Action) -> bool {
        &&& match a.mode {
            Mode::CreateFile(buf) => r matches Action::Mutate(m) && creates(m, buf@, a.path@),
            Mode::RenameFile(t, buf) => r matches Action::Mutate(m) && renames(m, t@, buf@),
            Mode::DeleteFile(t, buf) => if confirms(buf@) {
                r matches Action::Mutate(m) && deletes(m, t@)
            } else {
                r == Action::Nothing
            },
            _ => r == Action::Nothing,
        }
        &&& match a.mode {
            Mode::Basic => b == a,
            Mode::EscapedSearch => b == a,
            Mode::Search(_) => b.mode == Mode::EscapedSearch && b.files == a.files,
            _ => b.mode == Mode::Basic && b.files.files == a.files.files && b.filter_follows_mode(),
        }
        &&& b.path == a.path
        &&& b.last_path == a.last_path
        &&& b.selected == a.selected
        &&& b.info == a.info
    }

    /// Adds a notification made now.
    fn notify(&mut self, kind: InfoKind)
        ensures
            notified(old(self).info@, final(self).info@, kind),
            final(self).path == old(self).path,
            final(self).last_path == old(self).last_path,
            final(self).files == old(self).files,
            final(self).selected == old(self).selected,
            final(self).mode == old(self).mode,
    {
        let ghost k = kind;
        self.info.push(Info::new(kind));
        proof {
            assert(self.info@.drop_last() =~= old(self).info@);
        }
    }

    /// The read this step needs: the current path again when it was the
    /// last one read, otherwise the current path with the fallback.
    pub fn read_plan(&self) -> (r: ReadPlan)
        ensures
            self.path@ == self.last_path@ ==> (r matches ReadPlan::Direct(p) && p@ == self.path@),
            self.path@ != self.last_path@ ==> (r matches ReadPlan::WithFallback { path, fallback }
                && path@ == self.path@ && fallback@ == FALLBACK_PATH@),
    {
        if self.path == self.last_path {
            ReadPlan::Direct(self.path.clone())
        } else {
            ReadPlan::WithFallback { path: self.path.clone(), fallback: String::from_str(FALLBACK_PATH) }
        }
    }

    /// Replaces the listing, orders it by the filter and brings the
    /// selection within it.
    fn refresh(&mut self, files: Vec<File>)
        ensures
            final(self).wf(),
            final(self).files.files@ == ordered(files@, old(self).files.sort_mode, old(self).files.input@),
            final(self).files.sort_mode == old(self).files.sort_mode,
            final(self).files.input == old(self).files.input,
            final(self).selected == clamped(old(self).selected as int, final(self).files.files@.len() as int),
            final(self).path == old(self).path,
            final(self).last_path == old(self).last_path,
            final(self).info == old(self).info,
            final(self).mode == old(self).mode,
    {
        self.files.files = files;
        let _ = self.files.sort();
        let len = self.files.files.len();
        if self.selected >= len {
            self.selected = if len == 0 {
                0
            } else {
                len - 1
            };
        }
    }

    /// Takes in a read with fallback: the directory read becomes the
    /// current and last read path and its entries the listing; after a
    /// fallback the error of the first read is reported.
    pub fn apply_read(&mut self, res: ReadRes)
        ensures
            final(self).wf(),
            final(self).mode == old(self).mode,
            final(self).files.sort_mode == old(self).files.sort_mode,
            final(self).files.input == old(self).files.input,
            final(self).selected == clamped(old(self).selected as int, final(self).files.files@.len() as int),
            match res {
                ReadRes::Read(l) => {
                    &&& final(self).path == l.path
                    &&& final(self).last_path == l.path
                    &&& final(self).files.files@ == ordered(l.files@, old(self).files.sort_mode, old(self).files.input@)
                    &&& final(self).info == old(self).info
                },
                ReadRes::FallBack { error, files: l } => {
                    &&& final(self).path == l.path
                    &&& final(self).last_path == l.path
                    &&& final(self).files.files@ == ordered(l.files@, old(self).files.sort_mode, old(self).files.input@)
                    &&& notified(old(self).info@, final(self).info@, InfoKind::Error(error))
                },
            },
    {
        match res {
            ReadRes::Read(l) => {
                self.last_path = l.path.clone();
                self.path = l.path;
                self.refresh(l.files);
            },
            ReadRes::FallBack { error, files: l } => {
                self.notify(InfoKind::Error(error));
                self.last_path = l.path.clone();
                self.path = l.path;
                self.refresh(l.files);
            },
        }
    }

    /// Takes in a direct read of the current path: its entries become the
    /// listing; a failure is reported, the listing kept, and the next step
    /// reads with fallback.
    pub fn apply_direct(&mut self, res: Result<Listing, BrowseError>)
        requires
            old(self).wf(),
        ensures
            final(self).wf(),
            final(self).mode == old(self).mode,
            final(self).path == old(self).path,
            final(self).files.sort_mode == old(self).files.sort_mode,
            final(self).files.input == old(self).files.input,
            final(self).selected == clamped(old(self).selected as int, final(self).files.files@.len() as int),
            match res {
                Ok(l) => {
                    &&& final(self).last_path == old(self).last_path
                    &&& final(self).files.files@ == ordered(l.files@, old(self).files.sort_mode, old(self).files.input@)
                    &&& final(self).info == old(self).info
                },
                Err(e) => {
                    &&& final(self).last_path@.len() == 0
                    &&& final(self).files == old(self).files
                    &&& notified(old(self).info@, final(self).info@, InfoKind::Error(e))
                },
            },
    {
        match res {
            Ok(l) => self.refresh(l.files),
            Err(e) => {
                self.notify(InfoKind::Error(e));
                self.last_path = String::new();
            },
        }
    }

    /// Moves the selection one entry up.
    pub fn move_up(&mut self)
        requires
            old(self).wf(),
        ensures
            final(self).wf(),
            State::moved_up(*old(self), *final(self)),
    {
        if self.selected > 0 {
            self.selected = self.selected - 1;
        }
    }

    /// Moves the selection one entry down.
    pub fn move_down(&mut self)
        requires
            old(self).wf(),
        ensures
            final(self).wf(),
            State::moved_down(*old(self), *final(self)),
    {
        let len = self.files.files.len();
        let next = self.selected + 1;
        self.selected = if next < len {
            next
        } else if len == 0 {
            0
        } else {
            len - 1
        };
    }

    /// Goes back to the parent directory.
    pub fn go_back(&mut self)
        ensures
            final(self).wf(),
            State::went_back(*old(self), *final(self)),
    {
        self.path = parent_path(self.path.as_str());
        self.selected = 0;
    }

    /// Enters the selected entry, given what resolving its path gave.
    pub fn enter_folder(&mut self, target: Result<FileKind, BrowseError>)
        requires
            old(self).wf(),
        ensures
            final(self).wf(),
            State::entered(*old(self), *final(self), target),
    {
        if self.selected < self.files.files.len() {
            match target {
                Err(e) => self.notify(InfoKind::Error(e)),
                Ok(k) => {
                    let is_dir = self.files.files[self.selected].is_dir(Ok(k));
                    if let Ok(true) = is_dir {
                        self.path = self.files.files[self.selected].path.clone();
                        self.selected = 0;
                    }
                },
            }
        }
    }

    /// Switches to a mode of kind `k`.
    pub fn set_mode(&mut self, k: ModeKind)
        requires
            old(self).wf(),
        ensures
            final(self).wf(),
            State::mode_set(*old(self), *final(self), k),
    {
        match k {
            ModeKind::Basic => self.change_sort_mode(Mode::Basic, SortMode::Fuzzy),
            ModeKind::EscapedSearch => self.change_sort_mode(Mode::EscapedSearch, SortMode::Fuzzy),
            ModeKind::Search => self.change_sort_mode(Mode::Search(String::new()), SortMode::Fuzzy),
            ModeKind::Command => self.change_sort_mode(Mode::Command(String::new()), SortMode::Fuzzy),
            ModeKind::CreateFile => self.change_sort_mode(Mode::CreateFile(String::new()), SortMode::Fuzzy),
            ModeKind::RenameFile => {
                if self.selected < self.files.files.len() {
                    let p = self.files.files[self.selected].path.clone();
                    self.change_sort_mode(Mode::RenameFile(p.clone(), p), SortMode::Fuzzy);
                }
            },
            ModeKind::DeleteFile => {
                if self.selected < self.files.files.len() {
                    let p = self.files.files[self.selected].path.clone();
                    self.change_sort_mode(Mode::DeleteFile(p, String::new()), SortMode::Fuzzy);
                }
            },
        }
    }

    /// Edits the prompt of the active mode.
    pub fn modify(&mut self, e: ModifyMode)
        requires
            old(self).wf(),
        ensures
            final(self).wf(),
            State::edited(*old(self), *final(self), e),
    {
        match e {
            ModifyMode::PushChar(c) => self.mode.push(c),
            ModifyMode::PopChar => self.mode.pop(),
        }
        match &self.mode {
            Mode::Search(q) => {
                self.files.input = q.clone();
            },
            Mode::Command(q) => {
                self.files.input = q.clone();
            },
            _ => {},
        }
    }

    /// Runs the prompt of the active mode.
    pub fn execute(&mut self) -> (r: Action)
        requires
            old(self).wf(),
        ensures
            final(self).wf(),
            State::executed(*old(self), *final(self), r),
    {
        let action = match &self.mode {
            Mode::CreateFile(buf) => Action::Mutate(create_file(buf.as_str(), self.path.as_str())),
            Mode::RenameFile(t, buf) => Action::Mutate(rename_file(t.as_str(), buf.as_str())),
            Mode::DeleteFile(t, buf) => match delete_file(t.as_str(), buf.as_str()) {
                Some(m) => Action::Mutate(m),
                None => Action::Nothing,
            },
            _ => Action::Nothing,
        };
        match &self.mode {
            Mode::Basic | Mode::EscapedSearch => {},
            Mode::Search(_) => self.mode = Mode::EscapedSearch,
            _ => self.change_sort_mode(Mode::Basic, SortMode::Fuzzy),
        }
        action
    }

    /// Applies an intent, and says what the caller has to do next.
    pub fn handle_input(&mut self, input: InputResult) -> (r: Action)
        requires
            old(self).wf(),
        ensures
            final(self).wf(),
            old(self).filter_follows_mode() ==> final(self).filter_follows_mode(),
            match input {
                InputResult::MoveUp => r == Action::Nothing && State::moved_up(*old(self), *final(self)),
                InputResult::MoveDown => r == Action::Nothing && State::moved_down(*old(self), *final(self)),
                InputResult::EnterFolder => *final(self) == *old(self) && match old(self).selected_file() {
                    Some(f) => r matches Action::Resolve(p) && p@ == f.path@,
                    None => r == Action::Nothing,
                },
                InputResult::GoBack => r == Action::Nothing && State::went_back(*old(self), *final(self)),
                InputResult::ModeChange(k) => r == Action::Nothing && State::mode_set(*old(self), *final(self), k),
                InputResult::ModifyMode(e) => r == Action::Nothing && State::edited(*old(self), *final(self), e),
                InputResult::ExecuteMode => State::executed(*old(self), *final(self), r),
                InputResult::Quit => r == Action::Quit && *final(self) == *old(self),
                InputResult::Skip => r == Action::Nothing && *final(self) == *old(self),
            },
    {
        match input {
            InputResult::MoveUp => {
                self.move_up();
                Action::Nothing
            },
            InputResult::MoveDown => {
                self.move_down();
                Action::Nothing
            },
            InputResult::EnterFolder => {
                if self.selected < self.files.files.len() {
                    Action::Resolve(self.files.files[self.selected].path.clone())
                } else {
                    Action::Nothing
                }
            },
            InputResult::GoBack => {
                self.go_back();
                Action::Nothing
            },
            InputResult::ModeChange(k) => {
                self.set_mode(k);
                Action::Nothing
            },
            InputResult::ModifyMode(e) => {
                self.modify(e);
                Action::Nothing
            },
            InputResult::ExecuteMode => self.execute(),
            InputResult::Quit => Action::Quit,
            InputResult::Skip => Action::Nothing,
        }
    }

    /// Reports how a change ended: a failure as an error, a success as a
    /// message saying what was done.
    pub fn report(&mut self, outcome: Result<Mutation, BrowseError>)
        ensures
            final(self).path == old(self).path,
            final(self).last_path == old(self).last_path,
            final(self).files == old(self).files,
            final(self).selected == old(self).selected,
            final(self).mode == old(self).mode,
            match outcome {
                Ok(m) => final(self).info@.len() == old(self).info@.len() + 1
                    && final(self).info@.drop_last() == old(self).info@
                    && (final(self).info@.last().kind matches InfoKind::Message(t) && t@ == described(m)),
                Err(e) => notified(old(self).info@, final(self).info@, InfoKind::Error(e)),
            },
    {
        match outcome {
            Ok(m) => {
                let t = m.describe();
                self.notify(InfoKind::Message(t));
            },
            Err(e) => self.notify(InfoKind::Error(e)),
        }
    }
}

} // verus!

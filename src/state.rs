//! Modes, notifications, and the listing with its sort mode.
use vstd::prelude::*;

use crate::filesystem::read::{BrowseError, File};
use crate::fuzzy::{fuzzy_order, indices_view, order_by_scores, scores, skim_fuzzy_indices, skim_indices};
use crate::text::{pop_char, push_char};

verus! {

/// The active input context. Every mode but `Basic` and `EscapedSearch`
/// holds the text typed into its prompt.
#[derive(Debug, PartialEq, Eq)]
pub enum Mode {
    /// Browsing the listing.
    Basic,
    /// A search left with Escape: its filter stays, typing no longer edits it.
    EscapedSearch,
    /// Typing a fuzzy search query.
    Search(String),
    /// Typing a command; the text filters the listing like a search.
    Command(String),
    /// Typing the name of a file or folder to create.
    CreateFile(String),
    /// Typing a new name for the target path.
    RenameFile(String, String),
    /// Confirming the deletion of the target path.
    DeleteFile(String, String),
}

/// The text buffer of a mode, if it has one.
pub open spec fn buffer_of(m: Mode) -> Option<Seq<char>> {
    match m {
        Mode::Basic => None,
        Mode::EscapedSearch => None,
        Mode::Search(s) => Some(s@),
        Mode::Command(s) => Some(s@),
        Mode::CreateFile(s) => Some(s@),
        Mode::RenameFile(_, s) => Some(s@),
        Mode::DeleteFile(_, s) => Some(s@),
    }
}

/// Whether two modes are the same variant with the same target, whatever
/// their buffers hold.
pub open spec fn same_prompt(a: Mode, b: Mode) -> bool {
    match (a, b) {
        (Mode::Basic, Mode::Basic) => true,
        (Mode::EscapedSearch, Mode::EscapedSearch) => true,
        (Mode::Search(_), Mode::Search(_)) => true,
        (Mode::Command(_), Mode::Command(_)) => true,
        (Mode::CreateFile(_), Mode::CreateFile(_)) => true,
        (Mode::RenameFile(t, _), Mode::RenameFile(u, _)) => t == u,
        (Mode::DeleteFile(t, _), Mode::DeleteFile(u, _)) => t == u,
        _ => false,
    }
}

impl Mode {
    /// The text typed into the active prompt, if the mode has one.
    pub fn get(&self) -> (r: Option<String>)
        ensures
            match r {
                Some(s) => buffer_of(*self) == Some(s@),
                None => buffer_of(*self) is None,
            },
    {
        match self {
            Mode::Search(s) | Mode::Command(s) | Mode::CreateFile(s) => Some(s.clone()),
            Mode::RenameFile(_, s) | Mode::DeleteFile(_, s) => Some(s.clone()),
            _ => None,
        }
    }

    /// The buffer that typing edits, if the mode has one.
    fn buffer_mut(&mut self) -> (r: Option<&mut String>)
        ensures
            match r {
                Some(b) => {
                    &&& buffer_of(*old(self)) == Some(b@)
                    &&& buffer_of(*final(self)) == Some(final(b)@)
                    &&& same_prompt(*old(self), *final(self))
                },
                None => buffer_of(*old(self)) is None && *final(self) == *old(self),
            },
    {
        match self {
            Mode::Search(s) => Some(s),
            Mode::Command(s) => Some(s),
            Mode::CreateFile(s) => Some(s),
            Mode::RenameFile(_, s) => Some(s),
            Mode::DeleteFile(_, s) => Some(s),
            _ => None,
        }
    }

    /// Appends a character to the active prompt; a mode without one is kept.
    pub fn push(&mut self, c: char)
        ensures
            same_prompt(*old(self), *final(self)),
            match buffer_of(*old(self)) {
                Some(b) => buffer_of(*final(self)) == Some(b.push(c)),
                None => *final(self) == *old(self),
            },
    {
        match self.buffer_mut() {
            Some(b) => push_char(b, c),
            None => {},
        }
    }

    /// Removes the last character of the active prompt, if any; a mode
    /// without a prompt is kept.
    pub fn pop(&mut self)
        ensures
            same_prompt(*old(self), *final(self)),
            match buffer_of(*old(self)) {
                Some(b) => buffer_of(*final(self)) == Some(
                    if b.len() == 0 { b } else { b.drop_last() },
                ),
                None => *final(self) == *old(self),
            },
    {
        match self.buffer_mut() {
            Some(b) => {
                let _ = pop_char(b);
            },
            None => {},
        }
    }
}

/// What a notification says.
#[derive(Debug)]
pub enum InfoKind {
    Error(BrowseError),
    Message(String),
}

/// A transient notification and the time it was made, in milliseconds
/// since the Unix epoch.
#[derive(Debug)]
pub struct Info {
    pub kind: InfoKind,
    pub time: u64,
}

/// Relies on `std::time::SystemTime::now`: the current wall-clock time in
/// milliseconds since the Unix epoch, or 0 for a clock set before it.
#[verifier::external_body]
fn now_millis() -> u64 {
    match std::time::SystemTime::now().duration_since(std::time::UNIX_EPOCH) {
        Ok(d) => d.as_millis() as u64,
        Err(_) => 0,
    }
}

/// How long a notification has existed at time `now`; none before it was made.
pub open spec fn age(time: u64, now: u64) -> int {
    if now >= time {
        now - time
    } else {
        0
    }
}

/// Whether a notification is still shown at `now`, given its time to live.
pub open spec fn alive(info: Info, ttl: u64, now: u64) -> bool {
    age(info.time, now) < ttl
}

/// The notifications that survive a purge at `now`, in their order.
pub open spec fn purged(infos: Seq<Info>, ttl: u64, now: u64) -> Seq<Info> {
    infos.filter(|i: Info| alive(i, ttl, now))
}

impl Info {
    /// A notification made now.
    pub fn new(k: InfoKind) -> (r: Info)
        ensures
            r.kind == k,
    {
        Info { kind: k, time: now_millis() }
    }

    /// A notification made at `time`.
    pub fn at(k: InfoKind, time: u64) -> (r: Info)
        ensures
            r.kind == k,
            r.time == time,
    {
        Info { kind: k, time }
    }
}

/// Drops every notification whose age at `now` has reached `ttl`, keeping
/// the others in order.
pub fn purge_expired(infos: &mut Vec<Info>, ttl: u64, now: u64)
    ensures
        final(infos)@ == purged(old(infos)@, ttl, now),
{
    let ghost orig = infos@;
    let mut i: usize = 0;
    let ghost mut j: int = 0;
    while i < infos.len()
        invariant
            0 <= j <= orig.len(),
            i == purged(orig.subrange(0, j), ttl, now).len(),
            infos@ == purged(orig.subrange(0, j), ttl, now) + orig.subrange(j, orig.len() as int),
        decreases infos@.len() - i,
    {
        let ghost before = infos@;
        let ghost kept = purged(orig.subrange(0, j), ttl, now);
        proof {
            assert(before[i as int] == orig[j]);
            assert(orig.subrange(0, j + 1).drop_last() =~= orig.subrange(0, j));
            reveal(Seq::filter);
        }
        let t = infos[i].time;
        let keep = if now >= t {
            now - t < ttl
        } else {
            0 < ttl
        };
        if keep {
            i = i + 1;
            proof {
                assert(purged(orig.subrange(0, j + 1), ttl, now) == kept.push(orig[j]));
                assert(infos@ =~= kept.push(orig[j]) + orig.subrange(j + 1, orig.len() as int));
            }
        } else {
            let _ = infos.remove(i);
            proof {
                assert(purged(orig.subrange(0, j + 1), ttl, now) == kept);
                assert(infos@ =~= kept + orig.subrange(j + 1, orig.len() as int));
            }
        }
        proof {
            j = j + 1;
        }
    }
    proof {
        assert(orig.subrange(0, j) =~= orig);
        assert(infos@ =~= purged(orig, ttl, now));
    }
}

/// Purging twice is purging once at the later time, and a notification
/// that has expired never comes back.
pub proof fn lemma_purge_monotonic(infos: Seq<Info>, ttl: u64, t1: u64, t2: u64)
    requires
        t1 <= t2,
    ensures
        purged(purged(infos, ttl, t1), ttl, t2) == purged(infos, ttl, t2),
        forall|k: int|
            0 <= k < infos.len() && !alive(#[trigger] infos[k], ttl, t1) ==> !purged(infos, ttl, t2).contains(
                infos[k],
            ),
    decreases infos.len(),
{
    reveal(Seq::filter);
    if infos.len() > 0 {
        let ys = infos.drop_last();
        let x = infos.last();
        lemma_purge_monotonic(ys, ttl, t1, t2);
        let p1 = purged(ys, ttl, t1);
        assert(p1.push(x).drop_last() =~= p1);
    }
    assert forall|k: int|
        0 <= k < infos.len() && !alive(#[trigger] infos[k], ttl, t1) implies !purged(infos, ttl, t2).contains(
        infos[k],
    ) by {
        let p = |i: Info| alive(i, ttl, t2);
        if purged(infos, ttl, t2).contains(infos[k]) {
            let m = choose|m: int| 0 <= m < infos.filter(p).len() && infos.filter(p)[m] == infos[k];
            infos.lemma_filter_pred(p, m);
        }
    }
}

/// How a listing is ordered.
#[derive(PartialEq, Eq, Structural, Clone, Copy, Debug)]
pub enum SortMode {
    /// The order of the directory read.
    Default,
    /// Fuzzy matches against the query, best first.
    Fuzzy,
}

/// Scores entry names against a query with the skim fuzzy matcher.
#[derive(Debug)]
pub struct Scorer;

impl Scorer {
    /// The fuzzy score of the entry's name against `pattern`, with the
    /// matched positions, or nothing when it does not match.
    pub fn score(&self, pattern: &str, file: &File) -> (r: Option<(i64, Vec<usize>)>)
        ensures
            indices_view(r) == skim_indices(file.name@, pattern@),
    {
        skim_fuzzy_indices(file.name.as_str(), pattern)
    }
}

impl SortMode {
    /// The scorer that orders a listing in this mode; none keeps the read order.
    pub fn get_score_fn(&self) -> (r: Option<Scorer>)
        ensures
            r is Some <==> *self == SortMode::Fuzzy,
    {
        match self {
            SortMode::Default => None,
            SortMode::Fuzzy => Some(Scorer),
        }
    }
}

/// The entries of the current directory with the way they are ordered.
#[derive(Debug)]
pub struct Files {
    pub files: Vec<File>,
    pub sort_mode: SortMode,
    pub input: String,
}

impl Files {
    /// A listing in read order with an empty query.
    pub fn new(files: Vec<File>) -> (r: Files)
        ensures
            r.files@ == files@,
            r.sort_mode == SortMode::Default,
            r.input@.len() == 0,
    {
        Files { files, sort_mode: SortMode::Default, input: String::new() }
    }

    /// Orders the listing by its sort mode. In read order nothing changes
    /// and the result is `None`; in fuzzy order the listing keeps only the
    /// entries matching the query, best score first, ties in read order.
    pub fn sort(&mut self) -> (r: Option<()>)
        ensures
            final(self).sort_mode == old(self).sort_mode,
            final(self).input == old(self).input,
            old(self).sort_mode == SortMode::Default ==> r is None && final(self).files@ == old(self).files@,
            old(self).sort_mode == SortMode::Fuzzy ==> r is Some && final(self).files@ == fuzzy_order(
                old(self).files@,
                old(self).input@,
            ),
    {
        let scorer = match self.sort_mode.get_score_fn() {
            Some(f) => f,
            None => return None,
        };
        let ghost expected = scores(self.files@, self.input@);
        let mut keys: Vec<Option<i64>> = Vec::new();
        let mut i: usize = 0;
        while i < self.files.len()
            invariant
                i <= self.files@.len(),
                keys@.len() == i,
                expected == scores(self.files@, self.input@),
                forall|k: int| 0 <= k < i ==> #[trigger] keys@[k] == expected[k],
            decreases self.files@.len() - i,
        {
            let key = match scorer.score(self.input.as_str(), &self.files[i]) {
                Some(p) => Some(p.0),
                None => None,
            };
            keys.push(key);
            i = i + 1;
        }
        assert(keys@ =~= expected);
        let mut files: Vec<File> = Vec::new();
        std::mem::swap(&mut self.files, &mut files);
        self.files = order_by_scores(files, keys);
        Some(())
    }
}

/// The whole browsing state: where the user is, what is listed and
/// selected, the active mode and the pending notifications.
#[derive(Debug)]
pub struct State {
    pub path: String,
    pub last_path: String,
    pub files: Files,
    pub selected: usize,
    pub info: Vec<Info>,
    pub mode: Mode,
}

impl State {
    /// The selection stays within the listing: it is 0 or indexes an entry.
    pub open spec fn wf(&self) -> bool {
        self.selected == 0 || self.selected < self.files.files@.len()
    }

    /// The listing's filter is the one the mode calls for: a search or a
    /// command filters by its text, an escaped search keeps its filter, and
    /// every other mode lists in read order.
    pub open spec fn filter_follows_mode(&self) -> bool {
        match self.mode {
            Mode::Search(q) => self.files.sort_mode == SortMode::Fuzzy && self.files.input@ == q@,
            Mode::Command(q) => self.files.sort_mode == SortMode::Fuzzy && self.files.input@ == q@,
            Mode::EscapedSearch => true,
            _ => self.files.sort_mode == SortMode::Default && self.files.input@.len() == 0,
        }
    }

    /// A state about to read `path`, with nothing listed yet.
    pub fn new(path: String) -> (r: State)
        ensures
            r.wf(),
            r.filter_follows_mode(),
            r.path == path,
            r.last_path@.len() == 0,
            r.files.files@.len() == 0,
            r.selected == 0,
            r.info@.len() == 0,
            r.mode == Mode::Basic,
    {
        State {
            path,
            last_path: String::new(),
            files: Files::new(Vec::new()),
            selected: 0,
            info: Vec::new(),
            mode: Mode::Basic,
        }
    }

    /// The notification on display: the most recent one still kept.
    pub fn current_info(&self) -> (r: Option<&Info>)
        ensures
            self.info@.len() == 0 ==> r is None,
            self.info@.len() > 0 ==> r == Some(&self.info@.last()),
    {
        let n = self.info.len();
        if n == 0 {
            None
        } else {
            Some(&self.info[n - 1])
        }
    }

    /// Drops the notifications that have lived `ttl` milliseconds or more
    /// by the clock's current time.
    pub fn purge_info(infos: &mut Vec<Info>, ttl: u64)
        ensures
            exists|now: u64| final(infos)@ == purged(old(infos)@, ttl, now),
    {
        let now = now_millis();
        purge_expired(infos, ttl, now);
    }

    /// Switches to `mode` and sets the listing's filter to match it: a
    /// search or command filters by its text in `search_mode`, an escaped
    /// search keeps the filter, and any other mode lists in read order.
    pub fn change_sort_mode(&mut self, mode: Mode, search_mode: SortMode)
        ensures
            final(self).mode == mode,
            final(self).path == old(self).path,
            final(self).last_path == old(self).last_path,
            final(self).files.files == old(self).files.files,
            final(self).selected == old(self).selected,
            final(self).info == old(self).info,
            match mode {
                Mode::Search(q) => final(self).files.sort_mode == search_mode && final(self).files.input@ == q@,
                Mode::Command(q) => final(self).files.sort_mode == search_mode && final(self).files.input@ == q@,
                Mode::EscapedSearch => final(self).files.sort_mode == old(self).files.sort_mode
                    && final(self).files.input == old(self).files.input,
                _ => final(self).files.sort_mode == SortMode::Default && final(self).files.input@.len() == 0,
            },
    {
        self.mode = mode;
        match &self.mode {
            Mode::Search(q) => {
                self.files.sort_mode = search_mode;
                self.files.input = q.clone();
            },
            Mode::Command(q) => {
                self.files.sort_mode = search_mode;
                self.files.input = q.clone();
            },
            Mode::EscapedSearch => {},
            _ => {
                self.files.sort_mode = SortMode::Default;
                self.files.input = String::new();
            },
        }
    }
}

} // verus!

//! Common payload types of the wire messages.
//!
//! Times are kept as RFC 3339 strings; the server parses and checks them.
use vstd::prelude::*;

use crate::ids::{PaneId, SessionId, WindowId};

verus! {

/// Kind of client, announced in `Hello`.
#[derive(Clone, Copy, Debug, PartialEq, Eq, Structural)]
pub enum ClientKind {
    /// The tray (Tauri host).
    Tray,
    /// The one-shot `winmux` command line.
    Cli,
}

/// Size of a pane in cells.
#[derive(Clone, Copy, Debug, PartialEq, Eq, Structural)]
pub struct PaneSize {
    /// Rows.
    pub rows: u16,
    /// Columns.
    pub cols: u16,
}

/// Direction in which a window is split.
#[derive(Clone, Copy, Debug, PartialEq, Eq, Structural)]
pub enum SplitDirection {
    /// Horizontal split (top and bottom).
    Horizontal,
    /// Vertical split (left and right).
    Vertical,
}

/// Direction of movement for `SelectPane` / `SelectWindow`.
#[derive(Clone, Copy, Debug, PartialEq, Eq, Structural)]
pub enum SelectDirection {
    /// Left.
    Left,
    /// Right.
    Right,
    /// Up.
    Up,
    /// Down.
    Down,
    /// Next sibling.
    Next,
    /// Previous sibling.
    Previous,
}

/// One entry of a `SessionList` answer.
#[derive(Debug, PartialEq, Eq)]
pub struct SessionSummary {
    /// Session identifier.
    pub id: SessionId,
    /// Name the user gave.
    pub name: String,
    /// Creation time (RFC 3339).
    pub created_at: String,
    /// Number of windows.
    pub windows: u16,
    /// Number of clients attached now.
    pub attached_clients: u16,
}

/// Summary of a window (in attach answers).
#[derive(Debug, PartialEq, Eq)]
pub struct WindowSummary {
    /// Window identifier.
    pub id: WindowId,
    /// Index in the session (from 0).
    pub index: u8,
    /// Name the user gave, if any.
    pub name: Option<String>,
    /// Active pane.
    pub active_pane: PaneId,
}

/// Summary of a pane (in attach answers).
#[derive(Debug, PartialEq, Eq)]
pub struct PaneSummary {
    /// Pane identifier.
    pub id: PaneId,
    /// Size in cells.
    pub size: PaneSize,
    /// Index in its window (from 0).
    pub index: u8,
    /// Title reported by OSC 0/2, if any.
    pub title: Option<String>,
    /// Whether the shell is alive.
    pub alive: bool,
}

/// Environment variables as a map from name to value (each name once).
#[derive(Debug, PartialEq, Eq)]
pub struct EnvMap {
    entries: Vec<(String, String)>,
}

/// The map that a list of distinct-keyed entries stands for.
pub open spec fn entries_map(s: Seq<(String, String)>) -> Map<Seq<char>, Seq<char>>
    decreases s.len(),
{
    if s.len() == 0 {
        Map::empty()
    } else {
        entries_map(s.drop_last()).insert(s.last().0@, s.last().1@)
    }
}

/// Whether no key occurs twice.
pub open spec fn keys_distinct(s: Seq<(String, String)>) -> bool {
    forall|i: int, j: int| 0 <= i < j < s.len() ==> s[i].0@ != s[j].0@
}

proof fn lemma_entries_map_lookup(s: Seq<(String, String)>, i: int)
    requires
        keys_distinct(s),
        0 <= i < s.len(),
    ensures
        entries_map(s).contains_key(s[i].0@),
        entries_map(s)[s[i].0@] == s[i].1@,
    decreases s.len(),
{
    if i < s.len() - 1 {
        lemma_entries_map_lookup(s.drop_last(), i);
    }
}

proof fn lemma_entries_map_domain(s: Seq<(String, String)>, k: Seq<char>)
    ensures
        entries_map(s).contains_key(k) <==> exists|i: int| 0 <= i < s.len() && s[i].0@ == k,
    decreases s.len(),
{
    if s.len() > 0 {
        lemma_entries_map_domain(s.drop_last(), k);
        if entries_map(s.drop_last()).contains_key(k) {
            let i = choose|i: int| 0 <= i < s.drop_last().len() && s.drop_last()[i].0@ == k;
            assert(s[i].0@ == k);
        }
        if exists|i: int| 0 <= i < s.len() && s[i].0@ == k {
            let i = choose|i: int| 0 <= i < s.len() && s[i].0@ == k;
            if i < s.len() - 1 {
                assert(s.drop_last()[i].0@ == k);
            }
        }
    }
}

proof fn lemma_entries_map_update(s: Seq<(String, String)>, i: int, v: String)
    requires
        keys_distinct(s),
        0 <= i < s.len(),
    ensures
        keys_distinct(s.update(i, (s[i].0, v))),
        entries_map(s.update(i, (s[i].0, v))) == entries_map(s).insert(s[i].0@, v@),
{
    let t = s.update(i, (s[i].0, v));
    let k = s[i].0@;
    assert forall|key: Seq<char>| #[trigger] entries_map(t).contains_key(key) <==> entries_map(
        s,
    ).insert(k, v@).contains_key(key) by {
        lemma_entries_map_domain(t, key);
        lemma_entries_map_domain(s, key);
        if exists|j: int| 0 <= j < s.len() && s[j].0@ == key {
            let j = choose|j: int| 0 <= j < s.len() && s[j].0@ == key;
            assert(t[j].0@ == key);
        }
        if exists|j: int| 0 <= j < t.len() && t[j].0@ == key {
            let j = choose|j: int| 0 <= j < t.len() && t[j].0@ == key;
            assert(s[j].0@ == key);
        }
    }
    assert forall|key: Seq<char>| #[trigger] entries_map(t).contains_key(key) implies entries_map(
        t,
    )[key] == entries_map(s).insert(k, v@)[key] by {
        lemma_entries_map_domain(t, key);
        let j = choose|j: int| 0 <= j < t.len() && t[j].0@ == key;
        lemma_entries_map_lookup(t, j);
        if j != i {
            lemma_entries_map_lookup(s, j);
        }
    }
    assert(entries_map(t) =~= entries_map(s).insert(k, v@));
}

impl View for EnvMap {
    type V = Map<Seq<char>, Seq<char>>;

    closed spec fn view(&self) -> Map<Seq<char>, Seq<char>> {
        entries_map(self.entries@)
    }
}

impl EnvMap {
    #[verifier::type_invariant]
    spec fn distinct(self) -> bool {
        keys_distinct(self.entries@)
    }

    /// An empty map.
    pub fn new() -> (r: Self)
        ensures
            r@ == Map::<Seq<char>, Seq<char>>::empty(),
    {
        EnvMap { entries: Vec::new() }
    }

    /// Number of variables.
    pub fn len(&self) -> (r: usize)
        ensures
            r == self@.len(),
    {
        proof {
            use_type_invariant(self);
            lemma_entries_map_len(self.entries@);
        }
        self.entries.len()
    }

    /// Whether the map is empty.
    pub fn is_empty(&self) -> (r: bool)
        ensures
            r == (self@.len() == 0),
    {
        self.len() == 0
    }

    /// Sets `key` to `value`, replacing an earlier value of `key`.
    pub fn insert(&mut self, key: String, value: String)
        ensures
            final(self)@ == old(self)@.insert(key@, value@),
    {
        proof {
            use_type_invariant(&*self);
        }
        let n = self.entries.len();
        let mut i: usize = 0;
        while i < n
            invariant
                n == self.entries@.len(),
                i <= n,
                forall|j: int| 0 <= j < i ==> self.entries@[j].0@ != key@,
                keys_distinct(self.entries@),
                self.entries@ == old(self).entries@,
            decreases n - i,
        {
            if self.entries[i].0 == key {
                let ghost s = self.entries@;
                let k = self.entries[i].0.clone();
                proof {
                    lemma_entries_map_update(s, i as int, value);
                }
                let mut entries: Vec<(String, String)> = Vec::new();
        std::mem::swap(&mut entries, &mut self.entries);
                entries.set(i, (k, value));
                assert(entries@ =~= s.update(i as int, (s[i as int].0, value)));
                self.entries = entries;
                return;
            }
            i = i + 1;
        }
        let ghost s = self.entries@;
        let mut entries: Vec<(String, String)> = Vec::new();
        std::mem::swap(&mut entries, &mut self.entries);
        entries.push((key, value));
        proof {
            assert(entries@.drop_last() =~= s);
            assert forall|a: int, b: int| 0 <= a < b < entries@.len() implies entries@[a].0@
                != entries@[b].0@ by {
                if b < s.len() {
                    assert(entries@[a] == s[a] && entries@[b] == s[b]);
                }
            }
        }
        self.entries = entries;
    }

    /// The value of `key`, if set.
    pub fn get(&self, key: &str) -> (r: Option<&String>)
        ensures
            match r {
                Some(v) => self@.contains_key(key@) && self@[key@] == v@,
                None => !self@.contains_key(key@),
            },
    {
        proof {
            use_type_invariant(self);
        }
        let n = self.entries.len();
        let mut i: usize = 0;
        while i < n
            invariant
                n == self.entries@.len(),
                i <= n,
                forall|j: int| 0 <= j < i ==> self.entries@[j].0@ != key@,
                keys_distinct(self.entries@),
            decreases n - i,
        {
            if crate::text::str_eq(self.entries[i].0.as_str(), key) {
                proof {
                    lemma_entries_map_lookup(self.entries@, i as int);
                }
                return Some(&self.entries[i].1);
            }
            i = i + 1;
        }
        proof {
            lemma_entries_map_domain(self.entries@, key@);
        }
        None
    }

    /// A copy of the map.
    pub fn copy(&self) -> (r: Self)
        ensures
            r@ == self@,
    {
        let mut out = EnvMap::new();
        let n = self.entries.len();
        let mut i: usize = 0;
        assert(self.entries@.take(0) =~= Seq::<(String, String)>::empty());
        while i < n
            invariant
                n == self.entries@.len(),
                i <= n,
                out@ == entries_map(self.entries@.take(i as int)),
            decreases n - i,
        {
            let k = self.entries[i].0.clone();
            let v = self.entries[i].1.clone();
            out.insert(k, v);
            assert(self.entries@.take(i + 1).drop_last() =~= self.entries@.take(i as int));
            i = i + 1;
        }
        assert(self.entries@.take(n as int) =~= self.entries@);
        out
    }

    /// The entries, each name once, in the order they were first set.
    pub fn entries(&self) -> (r: &Vec<(String, String)>)
        ensures
            keys_distinct(r@),
            entries_map(r@) == self@,
    {
        proof {
            use_type_invariant(self);
        }
        &self.entries
    }
}

proof fn lemma_entries_map_len(s: Seq<(String, String)>)
    requires
        keys_distinct(s),
    ensures
        entries_map(s).len() == s.len(),
        entries_map(s).dom().finite(),
    decreases s.len(),
{
    if s.len() > 0 {
        let t = s.drop_last();
        lemma_entries_map_len(t);
        lemma_entries_map_domain(t, s.last().0@);
        if entries_map(t).contains_key(s.last().0@) {
            let i = choose|i: int| 0 <= i < t.len() && t[i].0@ == s.last().0@;
            assert(s[i].0@ == s[s.len() - 1].0@);
        }
    }
}

/// Payload of a `NewSession` request.
#[derive(Debug, PartialEq, Eq)]
pub struct NewSessionRequest {
    /// Session name; when absent the server picks `untitled-N`.
    pub name: Option<String>,
    /// Shell path or alias such as `pwsh` or `cmd`.
    pub shell: Option<String>,
    /// Working directory of the first pane.
    pub cwd: Option<String>,
    /// Extra environment variables for the shell.
    pub env: EnvMap,
    /// When `true` the session is created but this client does not attach.
    pub detached: bool,
}

/// Payload of a `Command` message.
#[derive(Debug, PartialEq, Eq)]
pub struct CommandRequest {
    /// tmux-equivalent command name, such as `send-keys`.
    pub tmux: String,
    /// Arguments, positional ones and flags as given.
    pub args: Vec<String>,
}

/// Payload of a `CommandResult` answer.
#[derive(Debug, PartialEq, Eq)]
pub struct CommandResultPayload {
    /// Whether the command succeeded.
    pub ok: bool,
    /// Standard output, if any.
    pub stdout: Option<String>,
    /// Standard error, if any.
    pub stderr: Option<String>,
}

} // verus!

//! The in-memory session model and registry of the server.
//!
//! Sessions hold windows, windows hold panes. The registry keeps every
//! session, an index from session name to id, the counter behind
//! `untitled-N` names, and the runtime resources (the shell handle) of each
//! pane. It backs `ListSessions`, `NewSession`, `Attach`, `KillSession` and
//! the rest of the dispatcher.
use vstd::prelude::*;

use crate::ids::{id_text, PaneId, SessionId, WindowId};
use vstd::arithmetic::power2::pow2;
use crate::keyed::{
    has_key, keyed_map, keys_unique, lemma_keyed_domain, lemma_keyed_len, lemma_keyed_lookup,
    lemma_keyed_push, lemma_keyed_remove, lemma_keyed_update,
};
use crate::messages::{AttachTarget, KillSessionTarget};
use crate::text::{
    decimal_spec, lemma_text_lt_irreflexive, lemma_text_lt_transitive, push_decimal, push_str, str_eq,
    str_lt, text_lt,
};
use crate::types::{NewSessionRequest, PaneSize, PaneSummary, SessionSummary, WindowSummary};

verus! {

/// Metadata of one pane.
#[derive(Debug)]
pub struct PaneState {
    /// Wire identifier.
    pub id: PaneId,
    /// Index in the window (from 0).
    pub index: u8,
    /// Current size in cells.
    pub size: PaneSize,
    /// Title received through OSC 0/2.
    pub title: Option<String>,
    /// Whether the shell is alive.
    pub alive: bool,
}

/// Metadata of one window (tab).
#[derive(Debug)]
pub struct WindowState {
    /// Wire identifier.
    pub id: WindowId,
    /// Index in the session (from 0); indices of closed windows are not reused.
    pub index: u8,
    /// Name the user gave; without one the active pane's title is shown.
    pub name: Option<String>,
    /// Active pane.
    pub active_pane: PaneId,
    /// Panes (a window always has at least one).
    pub panes: Vec<PaneState>,
}

/// Metadata of one session.
#[derive(Debug)]
pub struct SessionState {
    /// Wire identifier.
    pub id: SessionId,
    /// Name given by the user or `untitled-N`.
    pub name: String,
    /// Creation time (RFC 3339).
    pub created_at: String,
    /// Windows (at least one).
    pub windows: Vec<WindowState>,
    /// Active window.
    pub active_window: WindowId,
    /// Number of clients attached now.
    pub attached_clients: u16,
}

/// Abstract value of a pane.
pub ghost struct PaneView {
    pub id: Seq<char>,
    pub index: u8,
    pub size: PaneSize,
    pub title: Option<Seq<char>>,
    pub alive: bool,
}

/// Abstract value of a window.
pub ghost struct WindowView {
    pub id: Seq<char>,
    pub index: u8,
    pub name: Option<Seq<char>>,
    pub active_pane: Seq<char>,
    pub panes: Seq<PaneView>,
}

/// Abstract value of a session.
pub ghost struct SessionView {
    pub id: Seq<char>,
    pub name: Seq<char>,
    pub created_at: Seq<char>,
    pub windows: Seq<WindowView>,
    pub active_window: Seq<char>,
    pub attached_clients: u16,
}

/// The view of an optional string.
pub open spec fn opt_view(o: Option<String>) -> Option<Seq<char>> {
    match o {
        Some(s) => Some(s@),
        None => None,
    }
}

impl View for PaneState {
    type V = PaneView;

    open spec fn view(&self) -> PaneView {
        PaneView {
            id: self.id@,
            index: self.index,
            size: self.size,
            title: opt_view(self.title),
            alive: self.alive,
        }
    }
}

impl View for WindowState {
    type V = WindowView;

    open spec fn view(&self) -> WindowView {
        WindowView {
            id: self.id@,
            index: self.index,
            name: opt_view(self.name),
            active_pane: self.active_pane@,
            panes: self.panes@.map_values(|p: PaneState| p@),
        }
    }
}

impl View for SessionState {
    type V = SessionView;

    open spec fn view(&self) -> SessionView {
        SessionView {
            id: self.id@,
            name: self.name@,
            created_at: self.created_at@,
            windows: self.windows@.map_values(|w: WindowState| w@),
            active_window: self.active_window@,
            attached_clients: self.attached_clients,
        }
    }
}

fn clone_opt(o: &Option<String>) -> (r: Option<String>)
    ensures
        opt_view(r) == opt_view(*o),
{
    match o {
        Some(s) => Some(s.clone()),
        None => None,
    }
}

/// Whether a pane summary describes a pane.
pub open spec fn pane_summary_of(s: PaneSummary, p: PaneView) -> bool {
    s.id@ == p.id && s.size == p.size && s.index == p.index && opt_view(s.title) == p.title
        && s.alive == p.alive
}

/// Whether a window summary describes a window.
pub open spec fn window_summary_of(s: WindowSummary, w: WindowView) -> bool {
    s.id@ == w.id && s.index == w.index && opt_view(s.name) == w.name && s.active_pane@
        == w.active_pane
}

/// The window count as the wire reports it (saturating at `u16::MAX`).
pub open spec fn window_count(n: nat) -> u16 {
    if n <= u16::MAX {
        n as u16
    } else {
        u16::MAX
    }
}

/// Whether a session summary describes a session.
pub open spec fn session_summary_of(s: SessionSummary, v: SessionView) -> bool {
    s.id@ == v.id && s.name@ == v.name && s.created_at@ == v.created_at && s.windows
        == window_count(v.windows.len()) && s.attached_clients == v.attached_clients
}

impl PaneState {
    /// The wire summary of this pane.
    fn summary(&self) -> (r: PaneSummary)
        ensures
            pane_summary_of(r, self@),
    {
        PaneSummary {
            id: self.id.clone(),
            size: self.size,
            index: self.index,
            title: clone_opt(&self.title),
            alive: self.alive,
        }
    }
}

impl WindowState {
    /// The wire summary of this window.
    fn summary(&self) -> (r: WindowSummary)
        ensures
            window_summary_of(r, self@),
    {
        WindowSummary {
            id: self.id.clone(),
            index: self.index,
            name: clone_opt(&self.name),
            active_pane: self.active_pane.clone(),
        }
    }
}

impl SessionState {
    /// The wire summary of this session.
    fn summary(&self) -> (r: SessionSummary)
        ensures
            session_summary_of(r, self@),
    {
        let n = self.windows.len();
        let windows: u16 = if n <= 65535 {
            n as u16
        } else {
            65535
        };
        SessionSummary {
            id: self.id.clone(),
            name: self.name.clone(),
            created_at: self.created_at.clone(),
            windows,
            attached_clients: self.attached_clients,
        }
    }
}

/// The Crockford base-32 alphabet of ULID text.
pub open spec fn ulid_alphabet() -> Seq<char> {
    "0123456789ABCDEFGHJKMNPQRSTVWXYZ"@
}

/// The 26-character text of a 128-bit ULID value: base 32, most significant digit first.
pub open spec fn ulid_chars(value: u128) -> Seq<char> {
    Seq::new(26, |i: int| ulid_alphabet()[((value as int) / (pow2((5 * (25 - i)) as nat) as int)) % 32])
}

/// Whether a text is `<prefix>-` followed by the text of some ULID.
pub open spec fn is_ulid_id(prefix: Seq<char>, t: Seq<char>) -> bool {
    exists|v: u128| t == id_text(prefix, #[trigger] ulid_chars(v))
}

/// A new ULID value (`ulid::Ulid::new`, the value's bits).
///
/// Trusted; it rests on the clock and on random bits, so nothing is stated of it.
#[verifier::external_body]
fn ulid_value() -> u128 {
    ulid::Ulid::new().0
}

/// The text of a ULID value (`ulid::Ulid::to_string`).
///
/// Trusted: the crate encodes the value in 26 characters of its alphabet
/// `0123456789ABCDEFGHJKMNPQRSTVWXYZ`, five bits each, most significant first;
/// the contract states exactly that.
#[verifier::external_body]
fn ulid_text(value: u128) -> (r: String)
    ensures
        r@ == ulid_chars(value),
{
    ulid::Ulid(value).to_string()
}

fn ulid_body() -> (r: String)
    ensures
        exists|v: u128| r@ == #[trigger] ulid_chars(v),
{
    let v = ulid_value();
    ulid_text(v)
}

/// A new session identifier, `ses-` and a fresh ULID.
pub fn new_session_id() -> (r: SessionId)
    ensures
        is_ulid_id(SessionId::prefix_spec(), r@),
{
    let body = ulid_body();
    let ghost v = choose|v: u128| body@ == ulid_chars(v);
    match SessionId::from_body(body.as_str()) {
        Ok(id) => id,
        Err(_) => SessionId::from_raw(body),
    }
}

/// A new window identifier, `win-` and a fresh ULID.
pub fn new_window_id() -> (r: WindowId)
    ensures
        is_ulid_id(WindowId::prefix_spec(), r@),
{
    let body = ulid_body();
    let ghost v = choose|v: u128| body@ == ulid_chars(v);
    match WindowId::from_body(body.as_str()) {
        Ok(id) => id,
        Err(_) => WindowId::from_raw(body),
    }
}

/// A new pane identifier, `pane-` and a fresh ULID.
pub fn new_pane_id() -> (r: PaneId)
    ensures
        is_ulid_id(PaneId::prefix_spec(), r@),
{
    let body = ulid_body();
    let ghost v = choose|v: u128| body@ == ulid_chars(v);
    match PaneId::from_body(body.as_str()) {
        Ok(id) => id,
        Err(_) => PaneId::from_raw(body),
    }
}

#[verifier::external_type_specification]
#[verifier::external_body]
pub struct ExOffsetDateTime(time::OffsetDateTime);

#[verifier::external_type_specification]
#[verifier::external_body]
pub struct ExTimeFormatError(time::error::Format);

/// The current time in UTC (`time::OffsetDateTime::now_utc`).
///
/// Trusted; it reads the clock, so nothing is stated of it.
#[verifier::external_body]
fn now_utc() -> time::OffsetDateTime {
    time::OffsetDateTime::now_utc()
}

/// Whether the characters at the given positions are ASCII digits.
pub open spec fn digits_at(s: Seq<char>, from: int, to: int) -> bool {
    forall|i: int| from <= i < to ==> crate::text::is_digit(#[trigger] s[i])
}

/// The offset at the end of an RFC 3339 timestamp: `Z`, or a sign and `HH:MM`.
pub open spec fn rfc3339_offset_shape(t: Seq<char>) -> bool {
    ||| t == seq!['Z']
    ||| {
        &&& t.len() == 6
        &&& (t[0] == '+' || t[0] == '-')
        &&& digits_at(t, 1, 3)
        &&& t[3] == ':'
        &&& digits_at(t, 4, 6)
    }
}

/// The shape of an RFC 3339 timestamp as the `time` crate writes it:
/// `YYYY-MM-DDTHH:MM:SS`, then a `.` and one to nine fraction digits when the
/// nanoseconds are not zero, then the offset.
pub open spec fn rfc3339_shape(s: Seq<char>) -> bool {
    &&& s.len() >= 20
    &&& digits_at(s, 0, 4)
    &&& s[4] == '-'
    &&& digits_at(s, 5, 7)
    &&& s[7] == '-'
    &&& digits_at(s, 8, 10)
    &&& s[10] == 'T'
    &&& digits_at(s, 11, 13)
    &&& s[13] == ':'
    &&& digits_at(s, 14, 16)
    &&& s[16] == ':'
    &&& digits_at(s, 17, 19)
    &&& {
        let rest = s.skip(19);
        ||| rfc3339_offset_shape(rest)
        ||| exists|k: int|
            1 <= k <= 9 && k + 1 < rest.len() && rest[0] == '.' && digits_at(rest, 1, k + 1)
                && #[trigger] rfc3339_offset_shape(rest.skip(k + 1))
    }
}

/// The RFC 3339 text of a time (`time::OffsetDateTime::format` with `Rfc3339`).
///
/// Trusted: on success the text has the shape the crate's `Rfc3339` formatter
/// writes (four-digit year, two-digit month, day, hour, minute and second,
/// a fraction of one to nine digits when there are nanoseconds, then `Z` or
/// `±HH:MM`). Which digits, that is which calendar date the time falls on, is
/// not stated, and neither is when formatting fails.
#[verifier::external_body]
fn format_rfc3339(t: time::OffsetDateTime) -> (r: Result<String, time::error::Format>)
    ensures
        r matches Ok(s) ==> rfc3339_shape(s@),
{
    t.format(&time::format_description::well_known::Rfc3339)
}

/// The creation-time text: the formatted time, or the Unix epoch when formatting failed.
fn rfc3339_or_epoch(formatted: Result<String, time::error::Format>) -> (r: String)
    ensures
        match formatted {
            Ok(s) => r@ == s@,
            Err(_) => r@ == "1970-01-01T00:00:00Z"@,
        },
{
    match formatted {
        Ok(s) => s,
        Err(_) => "1970-01-01T00:00:00Z".to_owned(),
    }
}

/// The current time as an RFC 3339 timestamp (the Unix epoch when it cannot be formatted).
fn now_rfc3339() -> (r: String)
    ensures
        rfc3339_shape(r@),
{
    let formatted = format_rfc3339(now_utc());
    proof {
        reveal_strlit("1970-01-01T00:00:00Z");
        let e = "1970-01-01T00:00:00Z"@;
        assert(e.skip(19) =~= seq!['Z']);
    }
    rfc3339_or_epoch(formatted)
}

/// Why a registry operation failed.
#[derive(Debug, PartialEq, Eq)]
pub enum RegistryError {
    /// No session has that name or id.
    SessionNotFound(String),
    /// A session with that name exists already.
    NameTaken(String),
    /// No session holds a pane with that id.
    PaneNotFound(String),
    /// No session holds a window with that id.
    WindowNotFound(String),
}

/// The text of a registry error, as it is shown to users.
pub open spec fn registry_error_text(e: RegistryError) -> Seq<char> {
    match e {
        RegistryError::SessionNotFound(t) => "session not found: "@ + t@,
        RegistryError::NameTaken(n) => "session name `"@ + n@ + "` already exists"@,
        RegistryError::PaneNotFound(t) => "pane not found: "@ + t@,
        RegistryError::WindowNotFound(t) => "window not found: "@ + t@,
    }
}

impl RegistryError {
    /// The error's text.
    pub fn message(&self) -> (r: String)
        ensures
            r@ == registry_error_text(*self),
    {
        match self {
            RegistryError::SessionNotFound(t) => {
                let mut s = String::from_str("session not found: ");
                push_str(&mut s, t.as_str());
                s
            },
            RegistryError::NameTaken(n) => {
                let mut s = String::from_str("session name `");
                push_str(&mut s, n.as_str());
                push_str(&mut s, "` already exists");
                assert(s@ =~= registry_error_text(*self));
                s
            },
            RegistryError::PaneNotFound(t) => {
                let mut s = String::from_str("pane not found: ");
                push_str(&mut s, t.as_str());
                s
            },
            RegistryError::WindowNotFound(t) => {
                let mut s = String::from_str("window not found: ");
                push_str(&mut s, t.as_str());
                s
            },
        }
    }
}

/// What an `Attach` answer needs.
#[derive(Debug)]
pub struct AttachResult {
    /// The attached session.
    pub session_id: SessionId,
    /// Its active window.
    pub active_window: WindowId,
    /// Summaries of its windows.
    pub windows: Vec<WindowSummary>,
    /// Summaries of the panes of the active window.
    pub panes: Vec<PaneSummary>,
}

/// Whether an attach result describes a session: its active window, the
/// summaries of its windows and of the panes of its active window.
pub open spec fn attach_result_of(a: AttachResult, s: SessionView) -> bool {
    &&& a.active_window@ == s.active_window
    &&& a.windows@.len() == s.windows.len()
    &&& forall|k: int| 0 <= k < s.windows.len() ==> window_summary_of(#[trigger] a.windows@[k], s.windows[k])
    &&& a.panes@.len() == active_window_panes(s).len()
    &&& forall|k: int| 0 <= k < a.panes@.len() ==> pane_summary_of(#[trigger] a.panes@[k], active_window_panes(s)[k])
}

/// What killing a pane or a window did.
#[derive(Debug, PartialEq, Eq)]
pub struct KillOutcome {
    /// The session that held the pane or window.
    pub session_id: SessionId,
    /// Whether that session was ended because nothing was left in it.
    pub session_removed: bool,
}

/// Runtime resources of one pane; `P` is the handle of its shell.
#[derive(Debug)]
pub struct PaneRuntime<P> {
    /// Wire identifier of the pane.
    pub pane_id: PaneId,
    /// Its window.
    pub window_id: WindowId,
    /// Its session.
    pub session_id: SessionId,
    /// The shell's terminal handle.
    pub pty: P,
}

/// Abstract value of the registry.
pub ghost struct RegistryView<P> {
    /// Sessions by id.
    pub sessions: Map<Seq<char>, SessionView>,
    /// Session ids by name.
    pub names: Map<Seq<char>, Seq<char>>,
    /// The counter behind `untitled-N` names.
    pub untitled_counter: u32,
    /// Pane runtimes by pane id.
    pub runtimes: Map<Seq<char>, PaneRuntime<P>>,
}

/// Key of a session entry.
pub open spec fn session_key() -> spec_fn(SessionState) -> Seq<char> {
    |s: SessionState| s.id@
}

/// Value of a session entry.
pub open spec fn session_val() -> spec_fn(SessionState) -> SessionView {
    |s: SessionState| s@
}

/// Key of a name-index entry.
pub open spec fn name_key() -> spec_fn((String, SessionId)) -> Seq<char> {
    |e: (String, SessionId)| e.0@
}

/// Value of a name-index entry.
pub open spec fn name_val() -> spec_fn((String, SessionId)) -> Seq<char> {
    |e: (String, SessionId)| e.1@
}

/// Key of a pane-runtime entry.
pub open spec fn runtime_key<P>() -> spec_fn(PaneRuntime<P>) -> Seq<char> {
    |r: PaneRuntime<P>| r.pane_id@
}

/// Value of a pane-runtime entry.
pub open spec fn runtime_val<P>() -> spec_fn(PaneRuntime<P>) -> PaneRuntime<P> {
    |r: PaneRuntime<P>| r
}

/// The in-memory session store of one server process.
pub struct Registry<P> {
    sessions: Vec<SessionState>,
    name_index: Vec<(String, SessionId)>,
    untitled_counter: u32,
    pane_runtimes: Vec<PaneRuntime<P>>,
}

impl<P> View for Registry<P> {
    type V = RegistryView<P>;

    closed spec fn view(&self) -> RegistryView<P> {
        RegistryView {
            sessions: keyed_map(self.sessions@, session_key(), session_val()),
            names: keyed_map(self.name_index@, name_key(), name_val()),
            untitled_counter: self.untitled_counter,
            runtimes: keyed_map(self.pane_runtimes@, runtime_key(), runtime_val()),
        }
    }
}

/// The session a target names: by name through the name index, by id when that session exists.
pub open spec fn resolve_attach_spec<P>(v: RegistryView<P>, t: AttachTarget) -> Option<Seq<char>> {
    match t {
        AttachTarget::Name(n) => if v.names.contains_key(n@) {
            Some(v.names[n@])
        } else {
            None
        },
        AttachTarget::Id { id } => if v.sessions.contains_key(id@) {
            Some(id@)
        } else {
            None
        },
    }
}

/// The session a kill target names (as for attach targets).
pub open spec fn resolve_kill_spec<P>(v: RegistryView<P>, t: KillSessionTarget) -> Option<Seq<char>> {
    match t {
        KillSessionTarget::Name(n) => if v.names.contains_key(n@) {
            Some(v.names[n@])
        } else {
            None
        },
        KillSessionTarget::Id(id) => if v.sessions.contains_key(id@) {
            Some(id@)
        } else {
            None
        },
    }
}

/// How an attach target is shown in an error: the name, or the id text.
pub open spec fn attach_display_spec(t: AttachTarget) -> Seq<char> {
    match t {
        AttachTarget::Name(n) => n@,
        AttachTarget::Id { id } => id@,
    }
}

/// How a kill target is shown in an error: the name, or the id text.
pub open spec fn kill_display_spec(t: KillSessionTarget) -> Seq<char> {
    match t {
        KillSessionTarget::Name(n) => n@,
        KillSessionTarget::Id(id) => id@,
    }
}

/// Shows an attach target in an error message.
pub fn target_attach_display(target: &AttachTarget) -> (r: String)
    ensures
        r@ == attach_display_spec(*target),
{
    match target {
        AttachTarget::Name(n) => n.clone(),
        AttachTarget::Id { id } => id.as_str().to_owned(),
    }
}

/// Shows a kill target in an error message.
pub fn target_kill_display(target: &KillSessionTarget) -> (r: String)
    ensures
        r@ == kill_display_spec(*target),
{
    match target {
        KillSessionTarget::Name(n) => n.clone(),
        KillSessionTarget::Id(id) => id.as_str().to_owned(),
    }
}

/// A session with its attached-client count replaced.
pub open spec fn with_attached(v: SessionView, n: u16) -> SessionView {
    SessionView { attached_clients: n, ..v }
}

/// `n + 1`, saturating at `u16::MAX`.
pub open spec fn sat_inc(n: u16) -> u16 {
    if n < u16::MAX {
        (n + 1) as u16
    } else {
        u16::MAX
    }
}

/// `n - 1`, saturating at 0.
pub open spec fn sat_dec(n: u16) -> u16 {
    if n > 0 {
        (n - 1) as u16
    } else {
        0
    }
}

/// Index of the first window with the given id (the length when there is none).
pub open spec fn first_window_index(ws: Seq<WindowView>, id: Seq<char>) -> nat
    decreases ws.len(),
{
    if ws.len() == 0 {
        0
    } else if ws[0].id == id {
        0
    } else {
        1 + first_window_index(ws.drop_first(), id)
    }
}

/// The panes of a session's active window (of the first window with that id;
/// none when no window has it).
pub open spec fn active_window_panes(v: SessionView) -> Seq<PaneView> {
    let i = first_window_index(v.windows, v.active_window);
    if i < v.windows.len() {
        v.windows[i as int].panes
    } else {
        Seq::empty()
    }
}

proof fn lemma_first_window_index(ws: Seq<WindowView>, id: Seq<char>, i: int)
    requires
        0 <= i <= ws.len(),
        forall|j: int| 0 <= j < i ==> ws[j].id != id,
        i < ws.len() ==> ws[i].id == id,
    ensures
        first_window_index(ws, id) == i,
    decreases i,
{
    if i > 0 {
        lemma_first_window_index(ws.drop_first(), id, i - 1);
    }
}

/// The registry after one session's value is replaced.
pub open spec fn with_session<P>(v: RegistryView<P>, s: SessionView) -> RegistryView<P> {
    RegistryView { sessions: v.sessions.insert(s.id, s), ..v }
}

fn window_summaries(ws: &Vec<WindowState>) -> (r: Vec<WindowSummary>)
    ensures
        r@.len() == ws@.len(),
        forall|k: int| 0 <= k < ws@.len() ==> window_summary_of(#[trigger] r@[k], ws@[k]@),
{
    let mut out: Vec<WindowSummary> = Vec::new();
    let n = ws.len();
    let mut i: usize = 0;
    while i < n
        invariant
            n == ws@.len(),
            i <= n,
            out@.len() == i,
            forall|k: int| 0 <= k < i ==> window_summary_of(#[trigger] out@[k], ws@[k]@),
        decreases n - i,
    {
        out.push(ws[i].summary());
        i = i + 1;
    }
    out
}

fn pane_summaries(ps: &Vec<PaneState>) -> (r: Vec<PaneSummary>)
    ensures
        r@.len() == ps@.len(),
        forall|k: int| 0 <= k < ps@.len() ==> pane_summary_of(#[trigger] r@[k], ps@[k]@),
{
    let mut out: Vec<PaneSummary> = Vec::new();
    let n = ps.len();
    let mut i: usize = 0;
    while i < n
        invariant
            n == ps@.len(),
            i <= n,
            out@.len() == i,
            forall|k: int| 0 <= k < i ==> pane_summary_of(#[trigger] out@[k], ps@[k]@),
        decreases n - i,
    {
        out.push(ps[i].summary());
        i = i + 1;
    }
    out
}

/// Summaries of the panes of the active window.
fn active_pane_summaries(s: &SessionState) -> (r: Vec<PaneSummary>)
    ensures
        r@.len() == active_window_panes(s@).len(),
        forall|k: int|
            0 <= k < r@.len() ==> pane_summary_of(#[trigger] r@[k], active_window_panes(s@)[k]),
{
    let ghost wv = s.windows@.map_values(|w: WindowState| w@);
    let n = s.windows.len();
    let mut i: usize = 0;
    while i < n
        invariant
            n == s.windows@.len(),
            wv == s@.windows,
            i <= n,
            forall|j: int| 0 <= j < i ==> wv[j].id != s@.active_window,
        decreases n - i,
    {
        if s.windows[i].id.same_as(&s.active_window) {
            proof {
                lemma_first_window_index(wv, s@.active_window, i as int);
            }
            let r = pane_summaries(&s.windows[i].panes);
            assert(active_window_panes(s@) =~= s.windows@[i as int].panes@.map_values(
                |p: PaneState| p@,
            ));
            return r;
        }
        i = i + 1;
    }
    proof {
        lemma_first_window_index(wv, s@.active_window, n as int);
    }
    Vec::new()
}

/// The registry with another `untitled-N` counter.
pub open spec fn with_counter<P>(v: RegistryView<P>, c: u32) -> RegistryView<P> {
    RegistryView { untitled_counter: c, ..v }
}

/// The registry with another name index.
pub open spec fn with_names<P>(v: RegistryView<P>, names: Map<Seq<char>, Seq<char>>) -> RegistryView<P> {
    RegistryView { names, ..v }
}

/// The registry with another runtime table.
pub open spec fn with_runtimes<P>(v: RegistryView<P>, runtimes: Map<Seq<char>, PaneRuntime<P>>) -> RegistryView<P> {
    RegistryView { runtimes, ..v }
}

/// The name `untitled-N` for counter value `N`.
pub open spec fn untitled_name(c: u32) -> Seq<char> {
    "untitled-"@ + decimal_spec(c as nat)
}

/// The counter after one wrapping step.
pub open spec fn next_counter(c: u32) -> u32 {
    if c == u32::MAX {
        0
    } else {
        (c + 1) as u32
    }
}

/// Steps the counter until `untitled-N` is a free name, trying at most `fuel + 1` values.
pub open spec fn untitled_search(names: Map<Seq<char>, Seq<char>>, c: u32, fuel: nat) -> u32
    decreases fuel,
{
    let n = next_counter(c);
    if fuel == 0 || !names.contains_key(untitled_name(n)) {
        n
    } else {
        untitled_search(names, n, (fuel - 1) as nat)
    }
}

/// The counter value whose `untitled-N` name the registry hands out next
/// (the first free one in one full turn of the counter).
pub open spec fn untitled_counter_after<P>(v: RegistryView<P>) -> u32 {
    untitled_search(v.names, v.untitled_counter, 4294967295)
}

/// Whether some `untitled-N` name is still free, so that the search for one ends.
pub open spec fn can_name_untitled<P>(v: RegistryView<P>) -> bool {
    !v.names.contains_key(untitled_name(untitled_counter_after(v)))
}

/// The name a `NewSession` request asks for; an empty name counts as none.
pub open spec fn requested_name(req: NewSessionRequest) -> Option<Seq<char>> {
    match req.name {
        Some(n) => if n@.len() > 0 {
            Some(n@)
        } else {
            None
        },
        None => None,
    }
}

/// A fresh session with one window holding one pane.
pub open spec fn fresh_session(
    id: Seq<char>,
    name: Seq<char>,
    created_at: Seq<char>,
    window_id: Seq<char>,
    pane_id: Seq<char>,
    size: PaneSize,
    alive: bool,
) -> SessionView {
    SessionView {
        id,
        name,
        created_at,
        windows: seq![
            WindowView {
                id: window_id,
                index: 0,
                name: None,
                active_pane: pane_id,
                panes: seq![PaneView { id: pane_id, index: 0, size, title: None, alive }],
            },
        ],
        active_window: window_id,
        attached_clients: 0,
    }
}

/// The name a successful `NewSession` gets, and the counter afterwards.
pub open spec fn chosen_name<P>(v: RegistryView<P>, req: NewSessionRequest) -> (Seq<char>, u32) {
    match requested_name(req) {
        Some(n) => (n, v.untitled_counter),
        None => (untitled_name(untitled_counter_after(v)), untitled_counter_after(v)),
    }
}

/// Whether `NewSession` is refused because the requested name is taken.
pub open spec fn name_taken<P>(v: RegistryView<P>, req: NewSessionRequest) -> bool {
    requested_name(req) matches Some(n) && v.names.contains_key(n)
}

/// The registry after a session is registered under a chosen name.
pub open spec fn with_new_session<P>(v: RegistryView<P>, req: NewSessionRequest, s: SessionView) -> RegistryView<P> {
    RegistryView {
        sessions: v.sessions.insert(s.id, s),
        names: v.names.insert(chosen_name(v, req).0, s.id),
        untitled_counter: chosen_name(v, req).1,
        runtimes: v.runtimes,
    }
}

/// Builds a session with one window holding one pane.
fn new_session_state(
    session_id: SessionId,
    name: String,
    created_at: String,
    window_id: WindowId,
    pane_id: PaneId,
    size: PaneSize,
    alive: bool,
) -> (r: SessionState)
    ensures
        r@ == fresh_session(session_id@, name@, created_at@, window_id@, pane_id@, size, alive),
{
    let pane = PaneState { id: pane_id.clone(), index: 0, size, title: None, alive };
    let ghost pv = pane@;
    let mut panes: Vec<PaneState> = Vec::new();
    panes.push(pane);
    assert(panes@.map_values(|p: PaneState| p@) =~= seq![pv]);
    let window = WindowState { id: window_id.clone(), index: 0, name: None, active_pane: pane_id, panes };
    let ghost wv = window@;
    let mut windows: Vec<WindowState> = Vec::new();
    windows.push(window);
    assert(windows@.map_values(|w: WindowState| w@) =~= seq![wv]);
    SessionState { id: session_id, name, created_at, windows, active_window: window_id, attached_clients: 0 }
}

/// The panes of a sequence of windows, window by window, in order.
pub open spec fn panes_of(ws: Seq<WindowView>) -> Seq<PaneView>
    decreases ws.len(),
{
    if ws.len() == 0 {
        Seq::empty()
    } else {
        panes_of(ws.drop_last()) + ws.last().panes
    }
}

/// The ids of a sequence of panes.
pub open spec fn pane_ids(ps: Seq<PaneView>) -> Seq<Seq<char>> {
    ps.map_values(|p: PaneView| p.id)
}

/// The ids of all panes of a session, window by window.
pub open spec fn session_pane_ids(s: SessionView) -> Seq<Seq<char>> {
    pane_ids(panes_of(s.windows))
}

proof fn lemma_panes_of_take(ws: Seq<WindowView>, i: int)
    requires
        0 <= i < ws.len(),
    ensures
        panes_of(ws.take(i + 1)) == panes_of(ws.take(i)) + ws[i].panes,
{
    assert(ws.take(i + 1).drop_last() =~= ws.take(i));
}

proof fn lemma_pane_ids_step(a: Seq<PaneView>, b: Seq<PaneView>, j: int)
    requires
        0 <= j < b.len(),
    ensures
        pane_ids(a + b.take(j + 1)) == pane_ids(a + b.take(j)).push(b[j].id),
{
    assert(pane_ids(a + b.take(j + 1)) =~= pane_ids(a + b.take(j)).push(b[j].id));
}

/// Index of the first pane with the given id (the length when there is none).
pub open spec fn first_pane_index(ps: Seq<PaneView>, id: Seq<char>) -> nat
    decreases ps.len(),
{
    if ps.len() == 0 {
        0
    } else if ps[0].id == id {
        0
    } else {
        1 + first_pane_index(ps.drop_first(), id)
    }
}

/// Whether a window holds a pane with the given id.
pub open spec fn window_has_pane(w: WindowView, id: Seq<char>) -> bool {
    first_pane_index(w.panes, id) < w.panes.len()
}

/// Index of the first window holding a pane with the given id (the length when there is none).
pub open spec fn first_window_with_pane(ws: Seq<WindowView>, id: Seq<char>) -> nat
    decreases ws.len(),
{
    if ws.len() == 0 {
        0
    } else if window_has_pane(ws[0], id) {
        0
    } else {
        1 + first_window_with_pane(ws.drop_first(), id)
    }
}

/// Whether a session holds a pane with the given id.
pub open spec fn session_has_pane(s: SessionView, id: Seq<char>) -> bool {
    first_window_with_pane(s.windows, id) < s.windows.len()
}

/// A session after the size of its pane with the given id (the first one) is set.
pub open spec fn with_pane_size(s: SessionView, id: Seq<char>, size: PaneSize) -> SessionView {
    let i = first_window_with_pane(s.windows, id) as int;
    let w = s.windows[i];
    let j = first_pane_index(w.panes, id) as int;
    SessionView {
        windows: s.windows.update(
            i,
            WindowView { panes: w.panes.update(j, PaneView { size, ..w.panes[j] }), ..w },
        ),
        ..s
    }
}

proof fn lemma_first_pane_index(ps: Seq<PaneView>, id: Seq<char>, i: int)
    requires
        0 <= i <= ps.len(),
        forall|j: int| 0 <= j < i ==> ps[j].id != id,
        i < ps.len() ==> ps[i].id == id,
    ensures
        first_pane_index(ps, id) == i,
    decreases i,
{
    if i > 0 {
        lemma_first_pane_index(ps.drop_first(), id, i - 1);
    }
}

proof fn lemma_first_window_with_pane(ws: Seq<WindowView>, id: Seq<char>, i: int)
    requires
        0 <= i <= ws.len(),
        forall|j: int| 0 <= j < i ==> !window_has_pane(#[trigger] ws[j], id),
        i < ws.len() ==> window_has_pane(ws[i], id),
    ensures
        first_window_with_pane(ws, id) == i,
    decreases i,
{
    if i > 0 {
        let t = ws.drop_first();
        assert forall|j: int| 0 <= j < i - 1 implies !window_has_pane(#[trigger] t[j], id) by {
            assert(t[j] == ws[j + 1]);
        }
        lemma_first_window_with_pane(t, id, i - 1);
    }
}

fn find_pane_in_window(w: &WindowState, id: &PaneId) -> (r: Option<usize>)
    ensures
        match r {
            Some(k) => k == first_pane_index(w@.panes, id@) && k < w@.panes.len(),
            None => !window_has_pane(w@, id@),
        },
{
    let ghost ps = w@.panes;
    let n = w.panes.len();
    let mut k: usize = 0;
    while k < n
        invariant
            n == w.panes@.len(),
            ps == w@.panes,
            k <= n,
            forall|j: int| 0 <= j < k ==> ps[j].id != id@,
        decreases n - k,
    {
        if w.panes[k].id.same_as(id) {
            proof {
                lemma_first_pane_index(ps, id@, k as int);
            }
            return Some(k);
        }
        k = k + 1;
    }
    proof {
        lemma_first_pane_index(ps, id@, n as int);
    }
    None
}

fn find_pane_in_session(s: &SessionState, id: &PaneId) -> (r: Option<(usize, usize)>)
    ensures
        match r {
            Some((j, k)) => {
                &&& j == first_window_with_pane(s@.windows, id@)
                &&& j < s@.windows.len()
                &&& k == first_pane_index(s@.windows[j as int].panes, id@)
                &&& k < s@.windows[j as int].panes.len()
            },
            None => !session_has_pane(s@, id@),
        },
{
    let ghost ws = s@.windows;
    let n = s.windows.len();
    let mut j: usize = 0;
    while j < n
        invariant
            n == s.windows@.len(),
            ws == s@.windows,
            j <= n,
            forall|a: int| 0 <= a < j ==> !window_has_pane(#[trigger] ws[a], id@),
        decreases n - j,
    {
        match find_pane_in_window(&s.windows[j], id) {
            Some(k) => {
                proof {
                    lemma_first_window_with_pane(ws, id@, j as int);
                }
                return Some((j, k));
            },
            None => {},
        }
        j = j + 1;
    }
    proof {
        lemma_first_window_with_pane(ws, id@, n as int);
    }
    None
}

proof fn lemma_window_index(ws: Seq<WindowView>, id: Seq<char>, i: int)
    requires
        0 <= i <= ws.len(),
        forall|j: int| 0 <= j < i ==> (#[trigger] ws[j]).id != id,
        i < ws.len() ==> ws[i].id == id,
    ensures
        window_index(ws, id) == i,
    decreases i,
{
    if i > 0 {
        let t = ws.drop_first();
        assert forall|j: int| 0 <= j < i - 1 implies (#[trigger] t[j]).id != id by {
            assert(t[j] == ws[j + 1]);
        }
        lemma_window_index(t, id, i - 1);
    }
}

fn find_window_in_session(s: &SessionState, id: &WindowId) -> (r: Option<usize>)
    ensures
        match r {
            Some(j) => j == window_index(s@.windows, id@) && j < s@.windows.len(),
            None => !session_has_window(s@, id@),
        },
{
    let ghost ws = s@.windows;
    let n = s.windows.len();
    let mut j: usize = 0;
    while j < n
        invariant
            n == s.windows@.len(),
            ws == s@.windows,
            j <= n,
            forall|a: int| 0 <= a < j ==> (#[trigger] ws[a]).id != id@,
        decreases n - j,
    {
        if s.windows[j].id.same_as(id) {
            proof {
                lemma_window_index(ws, id@, j as int);
            }
            return Some(j);
        }
        j = j + 1;
    }
    proof {
        lemma_window_index(ws, id@, n as int);
    }
    None
}

/// Removes the window at `i` from a session (which keeps at least one
/// window) and returns the session and the removed window.
fn remove_window_from_session(s: SessionState, i: usize) -> (r: (SessionState, WindowState))
    requires
        i < s@.windows.len(),
        s@.windows.len() > 1,
    ensures
        r.0@ == without_window_at(s@, i as int),
        r.1@ == s@.windows[i as int],
{
    let ghost sv = s@;
    let mut s = s;
    let mut windows: Vec<WindowState> = Vec::new();
    std::mem::swap(&mut windows, &mut s.windows);
    let ghost old_ws = windows@;
    let w = windows.remove(i);
    assert(windows@ =~= old_ws.remove(i as int));
    assert(windows@.map_values(|x: WindowState| x@) =~= sv.windows.remove(i as int));
    if s.active_window.same_as(&w.id) {
        let n = windows.len();
        let idx = if i < n {
            i
        } else {
            n - 1
        };
        s.active_window = windows[idx].id.clone();
    }
    s.windows = windows;
    (s, w)
}

/// Removes pane `k` of window `j` from a session that keeps at least one window.
fn remove_pane_from_session(s: SessionState, j: usize, k: usize) -> (r: SessionState)
    requires
        j < s@.windows.len(),
        k < s@.windows[j as int].panes.len(),
        !pane_is_last(s@, j as int),
    ensures
        r@ == without_pane_at(s@, j as int, k as int),
{
    let ghost sv = s@;
    let mut s = s;
    if s.windows[j].panes.len() == 1 {
        let (s2, _w) = remove_window_from_session(s, j);
        return s2;
    }
    let mut windows: Vec<WindowState> = Vec::new();
    std::mem::swap(&mut windows, &mut s.windows);
    let ghost old_ws = windows@;
    let mut w = windows.remove(j);
    let ghost wv = w@;
    let removed = w.panes.remove(k);
    assert(w.panes@.map_values(|p: PaneState| p@) =~= wv.panes.remove(k as int));
    if w.active_pane.same_as(&removed.id) {
        let n = w.panes.len();
        let idx = if k < n {
            k
        } else {
            n - 1
        };
        w.active_pane = w.panes[idx].id.clone();
    }
    windows.insert(j, w);
    assert(windows@ =~= old_ws.update(j as int, windows@[j as int]));
    assert(windows@.map_values(|x: WindowState| x@) =~= without_pane_at(sv, j as int, k as int).windows);
    s.windows = windows;
    s
}

/// Whether a pane runtime with this id is registered (for filtering pane ids).
pub open spec fn has_runtime<P>(runtimes: Map<Seq<char>, PaneRuntime<P>>) -> spec_fn(Seq<char>) -> bool {
    |k: Seq<char>| runtimes.contains_key(k)
}

/// Whether `after` is `before` with a new session `id` registered for `req`,
/// whose window and pane have fresh ULID identifiers (40 x 120, not alive),
/// created at a time written as an RFC 3339 timestamp.
pub open spec fn created_with_fresh_ids<P>(
    before: RegistryView<P>,
    after: RegistryView<P>,
    req: NewSessionRequest,
    id: Seq<char>,
) -> bool {
    exists|window_id: Seq<char>, pane_id: Seq<char>, created_at: Seq<char>|
        is_ulid_id(WindowId::prefix_spec(), window_id) && is_ulid_id(PaneId::prefix_spec(), pane_id)
            && rfc3339_shape(created_at) && after == with_new_session(
            before,
            req,
            #[trigger] fresh_session(
                id,
                chosen_name(before, req).0,
                created_at,
                window_id,
                pane_id,
                PaneSize { rows: 40, cols: 120 },
                false,
            ),
        )
}

/// The registry after a session is ended: the session is gone, its name is
/// free, and the runtimes of its panes are dropped.
pub open spec fn without_session<P>(v: RegistryView<P>, id: Seq<char>) -> RegistryView<P> {
    let s = v.sessions[id];
    RegistryView {
        sessions: v.sessions.remove(id),
        names: v.names.remove(s.name),
        untitled_counter: v.untitled_counter,
        runtimes: v.runtimes.remove_keys(session_pane_ids(s).to_set()),
    }
}

/// Whether the name index and the sessions agree: each session is stored
/// under its own id, each name leads to a session of that name, and each
/// session is found under its name.
pub open spec fn names_consistent<P>(v: RegistryView<P>) -> bool {
    &&& forall|id: Seq<char>| #[trigger] v.sessions.contains_key(id) ==> v.sessions[id].id == id
    &&& forall|n: Seq<char>|
        #[trigger] v.names.contains_key(n) ==> v.sessions.contains_key(v.names[n])
            && v.sessions[v.names[n]].name == n
    &&& forall|id: Seq<char>|
        #[trigger] v.sessions.contains_key(id) ==> v.names.contains_key(v.sessions[id].name)
            && v.names[v.sessions[id].name] == id
}

/// Law: an empty registry is consistent.
pub proof fn lemma_empty_registry_consistent<P>(v: RegistryView<P>)
    requires
        v.sessions == Map::<Seq<char>, SessionView>::empty(),
        v.names == Map::<Seq<char>, Seq<char>>::empty(),
    ensures
        names_consistent(v),
{
}

/// Law: registering a session whose id is new, under the name `NewSession`
/// chooses, keeps the registry consistent.
pub proof fn lemma_create_keeps_names_consistent<P>(
    v: RegistryView<P>,
    req: NewSessionRequest,
    s: SessionView,
)
    requires
        names_consistent(v),
        !v.sessions.contains_key(s.id),
        s.name == chosen_name(v, req).0,
        !name_taken(v, req),
        requested_name(req) is None ==> can_name_untitled(v),
    ensures
        names_consistent(with_new_session(v, req, s)),
{
    let w = with_new_session(v, req, s);
    let n0 = chosen_name(v, req).0;
    assert(!v.names.contains_key(n0));
    assert forall|n: Seq<char>| #[trigger] w.names.contains_key(n) implies w.sessions.contains_key(
        w.names[n],
    ) && w.sessions[w.names[n]].name == n by {
        if n != n0 {
            assert(v.names.contains_key(n));
            assert(v.names[n] != s.id);
        }
    }
    assert forall|id: Seq<char>| #[trigger] w.sessions.contains_key(id) implies w.names.contains_key(
        w.sessions[id].name,
    ) && w.names[w.sessions[id].name] == id by {
        if id != s.id {
            assert(v.sessions.contains_key(id));
            assert(v.sessions[id].name != n0);
        }
    }
}

/// Law: ending a session keeps the registry consistent.
pub proof fn lemma_kill_keeps_names_consistent<P>(v: RegistryView<P>, id: Seq<char>)
    requires
        names_consistent(v),
        v.sessions.contains_key(id),
    ensures
        names_consistent(without_session(v, id)),
{
    let w = without_session(v, id);
    let n0 = v.sessions[id].name;
    assert forall|n: Seq<char>| #[trigger] w.names.contains_key(n) implies w.sessions.contains_key(
        w.names[n],
    ) && w.sessions[w.names[n]].name == n by {
        assert(v.names.contains_key(n) && n != n0);
        assert(v.names[n] != id);
    }
    assert forall|i: Seq<char>| #[trigger] w.sessions.contains_key(i) implies w.names.contains_key(
        w.sessions[i].name,
    ) && w.names[w.sessions[i].name] == i by {
        assert(v.sessions.contains_key(i) && i != id);
        assert(v.sessions[i].name != n0);
    }
}

/// Law: replacing a session's value, keeping its id and name (as attaching
/// and detaching do), keeps the registry consistent.
pub proof fn lemma_update_keeps_names_consistent<P>(v: RegistryView<P>, s: SessionView)
    requires
        names_consistent(v),
        v.sessions.contains_key(s.id),
        v.sessions[s.id].name == s.name,
    ensures
        names_consistent(with_session(v, s)),
{
}

/// Law: in a consistent registry, killing by a registered name resolves to
/// that name's session, and afterwards the session is gone and the name is
/// free for a new session.
pub proof fn lemma_kill_by_name_frees_name<P>(v: RegistryView<P>, target: KillSessionTarget)
    requires
        names_consistent(v),
        target matches KillSessionTarget::Name(n) && v.names.contains_key(n@),
    ensures
        ({
            let n = kill_display_spec(target);
            let id = v.names[n];
            &&& resolve_kill_spec(v, target) == Some(id)
            &&& v.sessions.contains_key(id)
            &&& !without_session(v, id).sessions.contains_key(id)
            &&& !without_session(v, id).names.contains_key(n)
        }),
{
}

/// Law: once a session is killed, an attach to it fails, whether the target
/// gives its id or its name, and none of its panes keeps a runtime.
pub proof fn lemma_killed_session_not_attachable<P>(
    v: RegistryView<P>,
    id: Seq<char>,
    by_id: AttachTarget,
    by_name: AttachTarget,
)
    requires
        v.sessions.contains_key(id),
        by_id matches AttachTarget::Id { id: i } && i@ == id,
        by_name matches AttachTarget::Name(n) && n@ == v.sessions[id].name,
    ensures
        resolve_attach_spec(without_session(v, id), by_id) is None,
        resolve_attach_spec(without_session(v, id), by_name) is None,
        forall|p: Seq<char>|
            session_pane_ids(v.sessions[id]).contains(p) ==> !(#[trigger] without_session(
                v,
                id,
            ).runtimes.contains_key(p)),
{
}

/// Law: killing a pane or a window keeps the registry consistent.
pub proof fn lemma_kill_pane_or_window_keeps_names_consistent<P>(
    v: RegistryView<P>,
    sid: Seq<char>,
    p: Seq<char>,
    w: Seq<char>,
)
    requires
        names_consistent(v),
        v.sessions.contains_key(sid),
        session_has_pane(v.sessions[sid], p),
        session_has_window(v.sessions[sid], w),
    ensures
        names_consistent(after_kill_pane(v, sid, p)),
        names_consistent(after_kill_window(v, sid, w)),
{
    let s = v.sessions[sid];
    lemma_kill_keeps_names_consistent(v, sid);
    let i = first_window_with_pane(s.windows, p) as int;
    if !pane_is_last(s, i) {
        let s2 = without_pane_at(s, i, first_pane_index(s.windows[i].panes, p) as int);
        assert(s2.id == s.id && s2.name == s.name);
    }
    if s.windows.len() != 1 {
        let s3 = without_window_at(s, window_index(s.windows, w) as int);
        assert(s3.id == s.id && s3.name == s.name);
    }
}

/// Law: killing the only pane of a session, or its only window, ends the
/// session: it is gone, its name is free and its pane has no runtime left.
pub proof fn lemma_kill_last_pane_ends_session<P>(v: RegistryView<P>, sid: Seq<char>, p: Seq<char>, w: Seq<char>)
    requires
        v.sessions.contains_key(sid),
        v.sessions[sid].windows.len() == 1,
        v.sessions[sid].windows[0].panes.len() == 1,
        v.sessions[sid].windows[0].panes[0].id == p,
        v.sessions[sid].windows[0].id == w,
    ensures
        after_kill_pane(v, sid, p) == without_session(v, sid),
        after_kill_window(v, sid, w) == without_session(v, sid),
        !after_kill_pane(v, sid, p).sessions.contains_key(sid),
        !after_kill_pane(v, sid, p).names.contains_key(v.sessions[sid].name),
        !after_kill_pane(v, sid, p).runtimes.contains_key(p),
{
    let s = v.sessions[sid];
    assert(window_has_pane(s.windows[0], p));
    assert(first_window_with_pane(s.windows, p) == 0);
    assert(window_index(s.windows, w) == 0);
    assert(panes_of(s.windows) =~= panes_of(s.windows.drop_last()) + s.windows[0].panes);
    assert(panes_of(s.windows.drop_last()) =~= Seq::<PaneView>::empty());
    assert(session_pane_ids(s)[0] == p);
    assert(session_pane_ids(s).to_set().contains(p));
}

/// Law: after `NewSession`, the session can be found by the name it got and by its id.
pub proof fn lemma_created_session_resolves<P>(
    v: RegistryView<P>,
    req: NewSessionRequest,
    s: SessionView,
    by_name: AttachTarget,
    by_id: AttachTarget,
)
    requires
        by_name matches AttachTarget::Name(n) && n@ == chosen_name(v, req).0,
        by_id matches AttachTarget::Id { id } && id@ == s.id,
    ensures
        resolve_attach_spec(with_new_session(v, req, s), by_name) == Some(s.id),
        resolve_attach_spec(with_new_session(v, req, s), by_id) == Some(s.id),
        with_new_session(v, req, s).sessions.contains_key(s.id),
{
}

/// Law: attaching and then detaching a client leaves the registry as it was,
/// unless the count had already reached its maximum.
pub proof fn lemma_attach_then_detach_restores<P>(v: RegistryView<P>, id: Seq<char>)
    requires
        v.sessions.contains_key(id),
        v.sessions[id].id == id,
        v.sessions[id].attached_clients < u16::MAX,
    ensures
        ({
            let s = v.sessions[id];
            let a = with_session(v, with_attached(s, sat_inc(s.attached_clients)));
            with_session(a, with_attached(a.sessions[id], sat_dec(a.sessions[id].attached_clients)))
                == v
        }),
{
    let s = v.sessions[id];
    let a = with_session(v, with_attached(s, sat_inc(s.attached_clients)));
    let d = with_session(a, with_attached(a.sessions[id], sat_dec(a.sessions[id].attached_clients)));
    assert(d.sessions =~= v.sessions);
}

/// Whether `r` lists the sessions of `v`: one summary per session, each
/// session once, oldest creation time first.
pub open spec fn lists_sessions<P>(v: RegistryView<P>, r: Seq<SessionSummary>) -> bool {
    &&& v.sessions.dom().finite()
    &&& r.len() == v.sessions.len()
    &&& forall|k: int|
        0 <= k < r.len() ==> v.sessions.contains_key(#[trigger] r[k].id@) && session_summary_of(
            r[k],
            v.sessions[r[k].id@],
        )
    &&& forall|a: int, b: int| 0 <= a < b < r.len() ==> r[a].id@ != r[b].id@
    &&& forall|a: int, b: int| 0 <= a < b < r.len() ==> !text_lt(r[b].created_at@, r[a].created_at@)
}

/// The active pane of a session: that of its active window (none when no window has that id).
pub open spec fn active_pane_spec(s: SessionView) -> Option<Seq<char>> {
    let i = first_window_index(s.windows, s.active_window);
    if i < s.windows.len() {
        Some(s.windows[i as int].active_pane)
    } else {
        None
    }
}

/// Whether `after` is `before` with the size of the pane `id` set: in one
/// session that holds the pane when there is one, else nothing changes.
pub open spec fn pane_resized<P>(before: RegistryView<P>, after: RegistryView<P>, id: Seq<char>, size: PaneSize) -> bool {
    &&& (exists|sid: Seq<char>|
        before.sessions.contains_key(sid) && session_has_pane(#[trigger] before.sessions[sid], id))
        ==> exists|sid: Seq<char>|
        before.sessions.contains_key(sid) && session_has_pane(#[trigger] before.sessions[sid], id)
            && after == with_session(before, with_pane_size(before.sessions[sid], id, size))
    &&& !(exists|sid: Seq<char>|
        before.sessions.contains_key(sid) && session_has_pane(#[trigger] before.sessions[sid], id))
        ==> after == before
}

/// The position that takes the place of a removed element at `i` in a
/// sequence of `len` remaining elements: `i` itself, or the last one.
pub open spec fn successor_index(i: int, len: int) -> int {
    if i < len {
        i
    } else {
        len - 1
    }
}

/// A session after its window at position `i` is removed. When that window
/// was the active one, the window that takes its place (or the last one)
/// becomes active.
pub open spec fn without_window_at(s: SessionView, i: int) -> SessionView {
    let windows = s.windows.remove(i);
    SessionView {
        windows,
        active_window: if s.active_window == s.windows[i].id && windows.len() > 0 {
            windows[successor_index(i, windows.len() as int)].id
        } else {
            s.active_window
        },
        ..s
    }
}

/// A session after pane `j` of its window `i` is removed. A window left
/// without panes is removed too; when the removed pane was the window's
/// active one, the pane that takes its place (or the last one) becomes active.
pub open spec fn without_pane_at(s: SessionView, i: int, j: int) -> SessionView {
    let w = s.windows[i];
    let panes = w.panes.remove(j);
    if panes.len() == 0 {
        without_window_at(s, i)
    } else {
        SessionView {
            windows: s.windows.update(
                i,
                WindowView {
                    panes,
                    active_pane: if w.active_pane == w.panes[j].id {
                        panes[successor_index(j, panes.len() as int)].id
                    } else {
                        w.active_pane
                    },
                    ..w
                },
            ),
            ..s
        }
    }
}

/// Whether the window at `i` is the session's only window and holds a single pane.
pub open spec fn pane_is_last(s: SessionView, i: int) -> bool {
    s.windows.len() == 1 && s.windows[i].panes.len() == 1
}

/// Whether some session of the registry holds a pane with this id.
pub open spec fn pane_exists<P>(v: RegistryView<P>, p: Seq<char>) -> bool {
    exists|sid: Seq<char>| v.sessions.contains_key(sid) && session_has_pane(#[trigger] v.sessions[sid], p)
}

/// The registry after the pane `p` of session `sid` is killed: the pane
/// (the first with that id) leaves its window and its runtime is dropped; an
/// emptied window leaves the session; a session left without windows is
/// ended as `KillSession` ends it.
pub open spec fn after_kill_pane<P>(v: RegistryView<P>, sid: Seq<char>, p: Seq<char>) -> RegistryView<P> {
    let s = v.sessions[sid];
    let i = first_window_with_pane(s.windows, p) as int;
    if pane_is_last(s, i) {
        without_session(v, sid)
    } else {
        RegistryView {
            sessions: v.sessions.insert(
                sid,
                without_pane_at(s, i, first_pane_index(s.windows[i].panes, p) as int),
            ),
            runtimes: v.runtimes.remove(p),
            ..v
        }
    }
}

/// Index of the first window with the given id (the length when there is none).
pub open spec fn window_index(ws: Seq<WindowView>, id: Seq<char>) -> nat
    decreases ws.len(),
{
    if ws.len() == 0 {
        0
    } else if ws[0].id == id {
        0
    } else {
        1 + window_index(ws.drop_first(), id)
    }
}

/// Whether a session holds a window with the given id.
pub open spec fn session_has_window(s: SessionView, id: Seq<char>) -> bool {
    window_index(s.windows, id) < s.windows.len()
}

/// Whether some session of the registry holds a window with this id.
pub open spec fn window_exists<P>(v: RegistryView<P>, w: Seq<char>) -> bool {
    exists|sid: Seq<char>| v.sessions.contains_key(sid) && session_has_window(#[trigger] v.sessions[sid], w)
}

/// The registry after the window `w` of session `sid` is killed: the window
/// (the first with that id) leaves the session and the runtimes of its panes
/// are dropped; a session left without windows is ended as `KillSession`
/// ends it.
pub open spec fn after_kill_window<P>(v: RegistryView<P>, sid: Seq<char>, w: Seq<char>) -> RegistryView<P> {
    let s = v.sessions[sid];
    let i = window_index(s.windows, w) as int;
    if s.windows.len() == 1 {
        without_session(v, sid)
    } else {
        RegistryView {
            sessions: v.sessions.insert(sid, without_window_at(s, i)),
            runtimes: v.runtimes.remove_keys(pane_ids(s.windows[i].panes).to_set()),
            ..v
        }
    }
}

/// The registry after a client attaches to session `id`.
pub open spec fn attach_effect<P>(v: RegistryView<P>, id: Seq<char>) -> RegistryView<P> {
    with_session(v, with_attached(v.sessions[id], sat_inc(v.sessions[id].attached_clients)))
}

impl<P> Registry<P> {
    #[verifier::type_invariant]
    spec fn keys_distinct(self) -> bool {
        &&& keys_unique(self.sessions@, session_key())
        &&& keys_unique(self.name_index@, name_key())
        &&& keys_unique(self.pane_runtimes@, runtime_key())
    }

    /// An empty registry.
    pub fn new() -> (r: Self)
        ensures
            r@.sessions == Map::<Seq<char>, SessionView>::empty(),
            r@.names == Map::<Seq<char>, Seq<char>>::empty(),
            r@.untitled_counter == 0,
            r@.runtimes == Map::<Seq<char>, PaneRuntime<P>>::empty(),
            names_consistent(r@),
    {
        Registry {
            sessions: Vec::new(),
            name_index: Vec::new(),
            untitled_counter: 0,
            pane_runtimes: Vec::new(),
        }
    }

    fn find_session(&self, id: &SessionId) -> (r: Option<usize>)
        ensures
            match r {
                Some(i) => i < self.sessions@.len() && self.sessions@[i as int].id@ == id@,
                None => !has_key(self.sessions@, session_key(), id@),
            },
    {
        let n = self.sessions.len();
        let mut i: usize = 0;
        while i < n
            invariant
                n == self.sessions@.len(),
                i <= n,
                forall|j: int| 0 <= j < i ==> self.sessions@[j].id@ != id@,
            decreases n - i,
        {
            if self.sessions[i].id.same_as(id) {
                return Some(i);
            }
            i = i + 1;
        }
        None
    }

    fn find_name(&self, name: &str) -> (r: Option<usize>)
        ensures
            match r {
                Some(i) => i < self.name_index@.len() && self.name_index@[i as int].0@ == name@,
                None => !has_key(self.name_index@, name_key(), name@),
            },
    {
        let n = self.name_index.len();
        let mut i: usize = 0;
        while i < n
            invariant
                n == self.name_index@.len(),
                i <= n,
                forall|j: int| 0 <= j < i ==> self.name_index@[j].0@ != name@,
            decreases n - i,
        {
            if str_eq(self.name_index[i].0.as_str(), name) {
                return Some(i);
            }
            i = i + 1;
        }
        None
    }

    fn find_runtime(&self, pane_id: &PaneId) -> (r: Option<usize>)
        ensures
            match r {
                Some(i) => i < self.pane_runtimes@.len() && self.pane_runtimes@[i as int].pane_id@
                    == pane_id@,
                None => !has_key(self.pane_runtimes@, runtime_key(), pane_id@),
            },
    {
        let n = self.pane_runtimes.len();
        let mut i: usize = 0;
        while i < n
            invariant
                n == self.pane_runtimes@.len(),
                i <= n,
                forall|j: int| 0 <= j < i ==> self.pane_runtimes@[j].pane_id@ != pane_id@,
            decreases n - i,
        {
            if self.pane_runtimes[i].pane_id.same_as(pane_id) {
                return Some(i);
            }
            i = i + 1;
        }
        None
    }

    /// The id stored under a session name, if any.
    fn lookup_name(&self, name: &str) -> (r: Option<SessionId>)
        ensures
            match r {
                Some(id) => self@.names.contains_key(name@) && self@.names[name@] == id@,
                None => !self@.names.contains_key(name@),
            },
    {
        proof {
            use_type_invariant(self);
            lemma_keyed_domain(self.name_index@, name_key(), name_val(), name@);
        }
        match self.find_name(name) {
            Some(i) => {
                proof {
                    lemma_keyed_lookup(self.name_index@, name_key(), name_val(), i as int);
                }
                Some(self.name_index[i].1.clone())
            },
            None => None,
        }
    }

    /// Whether a session with this id exists.
    fn has_session(&self, id: &SessionId) -> (r: bool)
        ensures
            r == self@.sessions.contains_key(id@),
    {
        proof {
            use_type_invariant(self);
            lemma_keyed_domain(self.sessions@, session_key(), session_val(), id@);
        }
        self.find_session(id).is_some()
    }

    fn resolve_attach_target(&self, target: &AttachTarget) -> (r: Option<SessionId>)
        ensures
            match (r, resolve_attach_spec(self@, *target)) {
                (Some(a), Some(b)) => a@ == b,
                (None, None) => true,
                _ => false,
            },
    {
        match target {
            AttachTarget::Name(name) => self.lookup_name(name.as_str()),
            AttachTarget::Id { id } => {
                if self.has_session(id) {
                    Some(id.clone())
                } else {
                    None
                }
            },
        }
    }

    fn resolve_kill_target(&self, target: &KillSessionTarget) -> (r: Option<SessionId>)
        ensures
            match (r, resolve_kill_spec(self@, *target)) {
                (Some(a), Some(b)) => a@ == b,
                (None, None) => true,
                _ => false,
            },
    {
        match target {
            KillSessionTarget::Name(name) => self.lookup_name(name.as_str()),
            KillSessionTarget::Id(id) => {
                if self.has_session(id) {
                    Some(id.clone())
                } else {
                    None
                }
            },
        }
    }

    fn set_attached(&mut self, i: usize, n: u16)
        requires
            i < old(self).sessions@.len(),
        ensures
            final(self)@ == with_session(
                old(self)@,
                with_attached(old(self)@.sessions[old(self).sessions@[i as int].id@], n),
            ),
    {
        proof {
            use_type_invariant(&*self);
            lemma_keyed_lookup(self.sessions@, session_key(), session_val(), i as int);
        }
        let ghost old_s = self.sessions@;
        let mut sessions: Vec<SessionState> = Vec::new();
        std::mem::swap(&mut sessions, &mut self.sessions);
        let mut s = sessions.remove(i);
        s.attached_clients = n;
        sessions.insert(i, s);
        proof {
            assert(sessions@ =~= old_s.update(i as int, sessions@[i as int]));
            lemma_keyed_update(old_s, session_key(), session_val(), i as int, sessions@[i as int]);
        }
        self.sessions = sessions;
    }

    /// Attaches a client to a session: raises its attached-client count by one
    /// (saturating) and gathers what the `Attach` answer needs.
    pub fn attach(&mut self, target: &AttachTarget) -> (r: Result<AttachResult, RegistryError>)
        ensures
            match r {
                Ok(a) => {
                    let id = a.session_id@;
                    let s = old(self)@.sessions[id];
                    &&& resolve_attach_spec(old(self)@, *target) == Some(id)
                    &&& old(self)@.sessions.contains_key(id)
                    &&& final(self)@ == with_session(old(self)@, with_attached(s, sat_inc(s.attached_clients)))
                    &&& attach_result_of(a, s)
                },
                Err(RegistryError::SessionNotFound(m)) => {
                    &&& final(self)@ == old(self)@
                    &&& match resolve_attach_spec(old(self)@, *target) {
                        None => m@ == attach_display_spec(*target),
                        Some(id) => !old(self)@.sessions.contains_key(id) && m@ == id,
                    }
                },
                Err(_) => false,
            },
    {
        proof {
            use_type_invariant(&*self);
        }
        let id = match self.resolve_attach_target(target) {
            Some(id) => id,
            None => return Err(RegistryError::SessionNotFound(target_attach_display(target))),
        };
        proof {
            lemma_keyed_domain(self.sessions@, session_key(), session_val(), id@);
        }
        let i = match self.find_session(&id) {
            Some(i) => i,
            None => return Err(RegistryError::SessionNotFound(id.as_str().to_owned())),
        };
        proof {
            lemma_keyed_lookup(self.sessions@, session_key(), session_val(), i as int);
        }
        let windows = window_summaries(&self.sessions[i].windows);
        let panes = active_pane_summaries(&self.sessions[i]);
        let active_window = self.sessions[i].active_window.clone();
        let count = self.sessions[i].attached_clients;
        let next = if count < 65535 {
            count + 1
        } else {
            65535
        };
        self.set_attached(i, next);
        Ok(AttachResult { session_id: id, active_window, windows, panes })
    }

    /// Lowers a session's attached-client count by one (saturating at 0); unknown ids are ignored.
    pub fn detach(&mut self, id: &SessionId)
        ensures
            old(self)@.sessions.contains_key(id@) ==> final(self)@ == with_session(
                old(self)@,
                with_attached(
                    old(self)@.sessions[id@],
                    sat_dec(old(self)@.sessions[id@].attached_clients),
                ),
            ),
            !old(self)@.sessions.contains_key(id@) ==> final(self)@ == old(self)@,
    {
        proof {
            use_type_invariant(&*self);
            lemma_keyed_domain(self.sessions@, session_key(), session_val(), id@);
        }
        match self.find_session(id) {
            Some(i) => {
                proof {
                    lemma_keyed_lookup(self.sessions@, session_key(), session_val(), i as int);
                }
                let count = self.sessions[i].attached_clients;
                let next = if count > 0 {
                    count - 1
                } else {
                    0
                };
                self.set_attached(i, next);
            },
            None => {},
        }
    }

    fn next_untitled_name(&mut self) -> (r: String)
        requires
            can_name_untitled(old(self)@),
        ensures
            final(self)@ == with_counter(old(self)@, untitled_counter_after(old(self)@)),
            r@ == untitled_name(untitled_counter_after(old(self)@)),
    {
        let ghost target = untitled_counter_after(self@);
        let ghost mut fuel: nat = 4294967295;
        loop
            invariant
                target == untitled_counter_after(old(self)@),
                untitled_search(self@.names, self@.untitled_counter, fuel) == target,
                !self@.names.contains_key(untitled_name(target)),
                self@.names == old(self)@.names,
                self@.sessions == old(self)@.sessions,
                self@.runtimes == old(self)@.runtimes,
            decreases fuel,
        {
            proof {
                use_type_invariant(&*self);
            }
            let ghost cur = self.untitled_counter;
            let next = self.untitled_counter.wrapping_add(1);
            assert(next == next_counter(cur));
            self.untitled_counter = next;
            let mut candidate = String::new();
            push_str(&mut candidate, "untitled-");
            push_decimal(&mut candidate, next as u64);
            assert(candidate@ =~= untitled_name(next));
            if self.lookup_name(candidate.as_str()).is_none() {
                return candidate;
            }
            proof {
                fuel = (fuel - 1) as nat;
            }
        }
    }

    fn put_session(&mut self, s: SessionState)
        ensures
            final(self)@ == with_session(old(self)@, s@),
    {
        proof {
            use_type_invariant(&*self);
        }
        let ghost old_s = self.sessions@;
        match self.find_session(&s.id) {
            Some(i) => {
                let mut sessions: Vec<SessionState> = Vec::new();
                std::mem::swap(&mut sessions, &mut self.sessions);
                let _ = sessions.remove(i);
                sessions.insert(i, s);
                proof {
                    assert(sessions@ =~= old_s.update(i as int, sessions@[i as int]));
                    lemma_keyed_update(old_s, session_key(), session_val(), i as int, sessions@[i as int]);
                }
                self.sessions = sessions;
            },
            None => {
                let mut sessions: Vec<SessionState> = Vec::new();
                std::mem::swap(&mut sessions, &mut self.sessions);
                proof {
                    lemma_keyed_push(old_s, session_key(), session_val(), s);
                }
                sessions.push(s);
                self.sessions = sessions;
            },
        }
    }

    fn put_name(&mut self, name: String, id: SessionId)
        ensures
            final(self)@ == with_names(old(self)@, old(self)@.names.insert(name@, id@)),
    {
        proof {
            use_type_invariant(&*self);
        }
        let ghost old_n = self.name_index@;
        match self.find_name(name.as_str()) {
            Some(i) => {
                let mut names: Vec<(String, SessionId)> = Vec::new();
                std::mem::swap(&mut names, &mut self.name_index);
                let _ = names.remove(i);
                names.insert(i, (name, id));
                proof {
                    assert(names@ =~= old_n.update(i as int, names@[i as int]));
                    lemma_keyed_update(old_n, name_key(), name_val(), i as int, names@[i as int]);
                }
                self.name_index = names;
            },
            None => {
                let mut names: Vec<(String, SessionId)> = Vec::new();
                std::mem::swap(&mut names, &mut self.name_index);
                proof {
                    lemma_keyed_push(old_n, name_key(), name_val(), (name, id));
                }
                names.push((name, id));
                self.name_index = names;
            },
        }
    }

    fn put_runtime(&mut self, rt: PaneRuntime<P>)
        ensures
            final(self)@ == with_runtimes(old(self)@, old(self)@.runtimes.insert(rt.pane_id@, rt)),
    {
        proof {
            use_type_invariant(&*self);
        }
        let ghost old_r = self.pane_runtimes@;
        match self.find_runtime(&rt.pane_id) {
            Some(i) => {
                let mut rts: Vec<PaneRuntime<P>> = Vec::new();
                std::mem::swap(&mut rts, &mut self.pane_runtimes);
                let _ = rts.remove(i);
                rts.insert(i, rt);
                proof {
                    assert(rts@ =~= old_r.update(i as int, rts@[i as int]));
                    lemma_keyed_update(old_r, runtime_key(), runtime_val(), i as int, rts@[i as int]);
                }
                self.pane_runtimes = rts;
            },
            None => {
                let mut rts: Vec<PaneRuntime<P>> = Vec::new();
                std::mem::swap(&mut rts, &mut self.pane_runtimes);
                proof {
                    lemma_keyed_push(old_r, runtime_key(), runtime_val(), rt);
                }
                rts.push(rt);
                self.pane_runtimes = rts;
            },
        }
    }

    /// Picks the session name for a request: the requested non-empty name unless
    /// it is taken, or the next free `untitled-N`.
    fn choose_name(&mut self, req: &NewSessionRequest) -> (r: Result<String, RegistryError>)
        requires
            requested_name(*req) is None ==> can_name_untitled(old(self)@),
        ensures
            match r {
                Ok(n) => !name_taken(old(self)@, *req) && n@ == chosen_name(old(self)@, *req).0
                    && final(self)@ == with_counter(old(self)@, chosen_name(old(self)@, *req).1),
                Err(RegistryError::NameTaken(n)) => name_taken(old(self)@, *req) && final(self)@
                    == old(self)@ && requested_name(*req) == Some(n@),
                Err(_) => false,
            },
    {
        match &req.name {
            Some(n) => {
                if n.as_str().unicode_len() > 0 {
                    if self.lookup_name(n.as_str()).is_some() {
                        return Err(RegistryError::NameTaken(n.clone()));
                    }
                    return Ok(n.clone());
                }
            },
            None => {},
        }
        Ok(self.next_untitled_name())
    }

    /// Registers a new session under a name already chosen.
    fn insert_session(&mut self, name: String, session: SessionState)
        ensures
            final(self)@ == (RegistryView {
                sessions: old(self)@.sessions.insert(session.id@, session@),
                names: old(self)@.names.insert(name@, session.id@),
                ..old(self)@
            }),
    {
        let id = session.id.clone();
        self.put_session(session);
        self.put_name(name, id);
    }

    /// Registers a new session whose identifiers and creation time are given.
    ///
    /// The session gets one window and one placeholder pane (40 x 120, not
    /// alive). The name is the requested one (refused with `NameTaken` when
    /// another session has it) or the next free `untitled-N`.
    pub fn create_session_with_ids(
        &mut self,
        req: &NewSessionRequest,
        session_id: SessionId,
        window_id: WindowId,
        pane_id: PaneId,
        created_at: String,
    ) -> (r: Result<SessionId, RegistryError>)
        requires
            requested_name(*req) is None ==> can_name_untitled(old(self)@),
        ensures
            match r {
                Ok(id) => {
                    &&& !name_taken(old(self)@, *req)
                    &&& id@ == session_id@
                    &&& final(self)@ == with_new_session(
                        old(self)@,
                        *req,
                        fresh_session(
                            session_id@,
                            chosen_name(old(self)@, *req).0,
                            created_at@,
                            window_id@,
                            pane_id@,
                            PaneSize { rows: 40, cols: 120 },
                            false,
                        ),
                    )
                },
                Err(RegistryError::NameTaken(n)) => name_taken(old(self)@, *req) && final(self)@
                    == old(self)@ && requested_name(*req) == Some(n@),
                Err(_) => false,
            },
    {
        let name = self.choose_name(req)?;
        let session = new_session_state(
            session_id.clone(),
            name.clone(),
            created_at,
            window_id,
            pane_id,
            PaneSize { rows: 40, cols: 120 },
            false,
        );
        self.insert_session(name, session);
        Ok(session_id)
    }

    /// Creates a session with fresh ULID identifiers, created now, with one
    /// window and one placeholder pane (40 x 120, not alive). The name is the
    /// requested one (refused with `NameTaken` when another session has it) or
    /// the next free `untitled-N`.
    pub fn create_session(&mut self, req: &NewSessionRequest) -> (r: Result<SessionId, RegistryError>)
        requires
            requested_name(*req) is None ==> can_name_untitled(old(self)@),
        ensures
            match r {
                Ok(id) => {
                    &&& !name_taken(old(self)@, *req)
                    &&& is_ulid_id(SessionId::prefix_spec(), id@)
                    &&& created_with_fresh_ids(old(self)@, final(self)@, *req, id@)
                },
                Err(RegistryError::NameTaken(n)) => name_taken(old(self)@, *req) && final(self)@
                    == old(self)@ && requested_name(*req) == Some(n@),
                Err(_) => false,
            },
    {
        let name = self.choose_name(req)?;
        let pane_id = new_pane_id();
        let window_id = new_window_id();
        let session_id = new_session_id();
        let created_at = now_rfc3339();
        let ghost wid = window_id@;
        let ghost pid = pane_id@;
        let ghost cat = created_at@;
        let session = new_session_state(
            session_id.clone(),
            name.clone(),
            created_at,
            window_id,
            pane_id,
            PaneSize { rows: 40, cols: 120 },
            false,
        );
        self.insert_session(name, session);
        assert(self@ == with_new_session(
            old(self)@,
            *req,
            fresh_session(
                session_id@,
                chosen_name(old(self)@, *req).0,
                cat,
                wid,
                pid,
                PaneSize { rows: 40, cols: 120 },
                false,
            ),
        ));
        Ok(session_id)
    }

    /// Registers a session whose first pane already has its runtime (a
    /// spawned shell), created at the given time: one window, one live pane of
    /// the given size, identifiers taken from the runtime. The name is chosen
    /// as for `create_session`; on `NameTaken` nothing changes and the runtime
    /// is dropped.
    pub fn create_session_with_runtime_at(
        &mut self,
        req: &NewSessionRequest,
        size: PaneSize,
        runtime: PaneRuntime<P>,
        created_at: String,
    ) -> (r: Result<(SessionId, PaneId), RegistryError>)
        requires
            requested_name(*req) is None ==> can_name_untitled(old(self)@),
        ensures
            match r {
                Ok((sid, pid)) => {
                    &&& !name_taken(old(self)@, *req)
                    &&& sid@ == runtime.session_id@
                    &&& pid@ == runtime.pane_id@
                    &&& final(self)@ == with_runtimes(
                        with_new_session(
                            old(self)@,
                            *req,
                            fresh_session(
                                runtime.session_id@,
                                chosen_name(old(self)@, *req).0,
                                created_at@,
                                runtime.window_id@,
                                runtime.pane_id@,
                                size,
                                true,
                            ),
                        ),
                        old(self)@.runtimes.insert(runtime.pane_id@, runtime),
                    )
                },
                Err(RegistryError::NameTaken(n)) => name_taken(old(self)@, *req) && final(self)@
                    == old(self)@ && requested_name(*req) == Some(n@),
                Err(_) => false,
            },
    {
        let name = self.choose_name(req)?;
        let session_id = runtime.session_id.clone();
        let window_id = runtime.window_id.clone();
        let pane_id = runtime.pane_id.clone();
        let session = new_session_state(
            session_id.clone(),
            name.clone(),
            created_at,
            window_id,
            pane_id.clone(),
            size,
            true,
        );
        self.insert_session(name, session);
        self.put_runtime(runtime);
        Ok((session_id, pane_id))
    }

    /// `create_session_with_runtime_at`, created now.
    pub fn create_session_with_runtime(
        &mut self,
        req: &NewSessionRequest,
        size: PaneSize,
        runtime: PaneRuntime<P>,
    ) -> (r: Result<(SessionId, PaneId), RegistryError>)
        requires
            requested_name(*req) is None ==> can_name_untitled(old(self)@),
        ensures
            match r {
                Ok((sid, pid)) => {
                    &&& !name_taken(old(self)@, *req)
                    &&& sid@ == runtime.session_id@
                    &&& pid@ == runtime.pane_id@
                    &&& exists|created_at: Seq<char>|
                        rfc3339_shape(created_at) && final(self)@ == with_runtimes(
                            with_new_session(
                                old(self)@,
                                *req,
                                #[trigger] fresh_session(
                                    runtime.session_id@,
                                    chosen_name(old(self)@, *req).0,
                                    created_at,
                                    runtime.window_id@,
                                    runtime.pane_id@,
                                    size,
                                    true,
                                ),
                            ),
                            old(self)@.runtimes.insert(runtime.pane_id@, runtime),
                        )
                },
                Err(RegistryError::NameTaken(n)) => name_taken(old(self)@, *req) && final(self)@
                    == old(self)@ && requested_name(*req) == Some(n@),
                Err(_) => false,
            },
    {
        let created_at = now_rfc3339();
        let ghost cat = created_at@;
        let ghost rt = runtime;
        let r = self.create_session_with_runtime_at(req, size, runtime, created_at);
        assert(r is Ok ==> final(self)@ == with_runtimes(
            with_new_session(
                old(self)@,
                *req,
                fresh_session(
                    rt.session_id@,
                    chosen_name(old(self)@, *req).0,
                    cat,
                    rt.window_id@,
                    rt.pane_id@,
                    size,
                    true,
                ),
            ),
            old(self)@.runtimes.insert(rt.pane_id@, rt),
        ));
        r
    }

    fn remove_runtime(&mut self, pane_id: &PaneId)
        ensures
            final(self)@ == with_runtimes(old(self)@, old(self)@.runtimes.remove(pane_id@)),
    {
        proof {
            use_type_invariant(&*self);
            lemma_keyed_domain(self.pane_runtimes@, runtime_key(), runtime_val(), pane_id@);
        }
        let ghost old_r = self.pane_runtimes@;
        match self.find_runtime(pane_id) {
            Some(i) => {
                let mut rts: Vec<PaneRuntime<P>> = Vec::new();
                std::mem::swap(&mut rts, &mut self.pane_runtimes);
                let _ = rts.remove(i);
                proof {
                    lemma_keyed_remove(old_r, runtime_key(), runtime_val(), i as int);
                }
                self.pane_runtimes = rts;
            },
            None => {
                assert(old(self)@.runtimes.remove(pane_id@) =~= old(self)@.runtimes);
            },
        }
    }

    fn remove_name(&mut self, name: &str)
        ensures
            final(self)@ == with_names(old(self)@, old(self)@.names.remove(name@)),
    {
        proof {
            use_type_invariant(&*self);
            lemma_keyed_domain(self.name_index@, name_key(), name_val(), name@);
        }
        let ghost old_n = self.name_index@;
        match self.find_name(name) {
            Some(i) => {
                let mut names: Vec<(String, SessionId)> = Vec::new();
                std::mem::swap(&mut names, &mut self.name_index);
                let _ = names.remove(i);
                proof {
                    lemma_keyed_remove(old_n, name_key(), name_val(), i as int);
                }
                self.name_index = names;
            },
            None => {
                assert(old(self)@.names.remove(name@) =~= old(self)@.names);
            },
        }
    }

    /// Takes the session with this id out of the store.
    fn take_session(&mut self, id: &SessionId) -> (r: Option<SessionState>)
        ensures
            match r {
                Some(s) => old(self)@.sessions.contains_key(id@) && s@ == old(self)@.sessions[id@]
                    && s.id@ == id@
                    && final(self)@ == (RegistryView { sessions: old(self)@.sessions.remove(id@), ..old(self)@ }),
                None => !old(self)@.sessions.contains_key(id@) && final(self)@ == old(self)@,
            },
    {
        proof {
            use_type_invariant(&*self);
            lemma_keyed_domain(self.sessions@, session_key(), session_val(), id@);
        }
        let ghost old_s = self.sessions@;
        match self.find_session(id) {
            Some(i) => {
                proof {
                    lemma_keyed_lookup(old_s, session_key(), session_val(), i as int);
                }
                let mut sessions: Vec<SessionState> = Vec::new();
                std::mem::swap(&mut sessions, &mut self.sessions);
                let s = sessions.remove(i);
                proof {
                    lemma_keyed_remove(old_s, session_key(), session_val(), i as int);
                }
                self.sessions = sessions;
                Some(s)
            },
            None => None,
        }
    }

    /// Drops the runtimes of all panes of a session.
    fn remove_session_runtimes(&mut self, s: &SessionState)
        ensures
            final(self)@ == with_runtimes(
                old(self)@,
                old(self)@.runtimes.remove_keys(session_pane_ids(s@).to_set()),
            ),
    {
        let ghost ws = s@.windows;
        let ghost old_rt = self@.runtimes;
        let nw = s.windows.len();
        let mut i: usize = 0;
        assert(pane_ids(panes_of(ws.take(0))).to_set() =~= Set::empty());
        assert(old_rt.remove_keys(Set::empty()) =~= old_rt);
        while i < nw
            invariant
                nw == s.windows@.len(),
                ws == s@.windows,
                i <= nw,
                old_rt == old(self)@.runtimes,
                self@ == with_runtimes(
                    old(self)@,
                    old_rt.remove_keys(pane_ids(panes_of(ws.take(i as int))).to_set()),
                ),
            decreases nw - i,
        {
            let w = &s.windows[i];
            let ghost before = panes_of(ws.take(i as int));
            let ghost ps = ws[i as int].panes;
            assert(ps == w.panes@.map_values(|p: PaneState| p@));
            let np = w.panes.len();
            let mut j: usize = 0;
            assert(before + ps.take(0) =~= before);
            while j < np
                invariant
                    np == w.panes@.len(),
                    ps == w.panes@.map_values(|p: PaneState| p@),
                    j <= np,
                    old_rt == old(self)@.runtimes,
                    self@ == with_runtimes(
                        old(self)@,
                        old_rt.remove_keys(pane_ids(before + ps.take(j as int)).to_set()),
                    ),
                decreases np - j,
            {
                let ghost done = pane_ids(before + ps.take(j as int));
                self.remove_runtime(&w.panes[j].id);
                proof {
                    lemma_pane_ids_step(before, ps, j as int);
                    done.lemma_push_to_set_commute(ps[j as int].id);
                    assert(old_rt.remove_keys(done.to_set()).remove(ps[j as int].id) =~= old_rt.remove_keys(
                        done.to_set().insert(ps[j as int].id),
                    ));
                }
                j = j + 1;
            }
            proof {
                assert(ps.take(np as int) =~= ps);
                lemma_panes_of_take(ws, i as int);
            }
            i = i + 1;
        }
        assert(ws.take(nw as int) =~= ws);
    }

    /// The id of a session holding a pane with this id, if any.
    fn pane_owner(&self, pane_id: &PaneId) -> (r: Option<SessionId>)
        ensures
            match r {
                Some(sid) => self@.sessions.contains_key(sid@) && session_has_pane(self@.sessions[sid@], pane_id@),
                None => !pane_exists(self@, pane_id@),
            },
    {
        proof {
            use_type_invariant(self);
        }
        let ghost ss = self.sessions@;
        let n = self.sessions.len();
        let mut i: usize = 0;
        while i < n
            invariant
                n == ss.len(),
                ss == self.sessions@,
                keys_unique(ss, session_key()),
                i <= n,
                forall|a: int| 0 <= a < i ==> !session_has_pane(#[trigger] ss[a]@, pane_id@),
            decreases n - i,
        {
            if find_pane_in_session(&self.sessions[i], pane_id).is_some() {
                proof {
                    lemma_keyed_lookup(ss, session_key(), session_val(), i as int);
                }
                return Some(self.sessions[i].id.clone());
            }
            i = i + 1;
        }
        proof {
            assert forall|sid: Seq<char>|
                self@.sessions.contains_key(sid) implies !session_has_pane(#[trigger] self@.sessions[sid], pane_id@) by {
                lemma_keyed_domain(ss, session_key(), session_val(), sid);
                let a = choose|a: int| 0 <= a < ss.len() && session_key()(ss[a]) == sid;
                lemma_keyed_lookup(ss, session_key(), session_val(), a);
            }
        }
        None
    }

    /// The id of a session holding a window with this id, if any.
    fn window_owner(&self, window_id: &WindowId) -> (r: Option<SessionId>)
        ensures
            match r {
                Some(sid) => self@.sessions.contains_key(sid@) && session_has_window(
                    self@.sessions[sid@],
                    window_id@,
                ),
                None => !window_exists(self@, window_id@),
            },
    {
        proof {
            use_type_invariant(self);
        }
        let ghost ss = self.sessions@;
        let n = self.sessions.len();
        let mut i: usize = 0;
        while i < n
            invariant
                n == ss.len(),
                ss == self.sessions@,
                keys_unique(ss, session_key()),
                i <= n,
                forall|a: int| 0 <= a < i ==> !session_has_window(#[trigger] ss[a]@, window_id@),
            decreases n - i,
        {
            if find_window_in_session(&self.sessions[i], window_id).is_some() {
                proof {
                    lemma_keyed_lookup(ss, session_key(), session_val(), i as int);
                }
                return Some(self.sessions[i].id.clone());
            }
            i = i + 1;
        }
        proof {
            assert forall|sid: Seq<char>|
                self@.sessions.contains_key(sid) implies !session_has_window(
                #[trigger] self@.sessions[sid],
                window_id@,
            ) by {
                lemma_keyed_domain(ss, session_key(), session_val(), sid);
                let a = choose|a: int| 0 <= a < ss.len() && session_key()(ss[a]) == sid;
                lemma_keyed_lookup(ss, session_key(), session_val(), a);
            }
        }
        None
    }

    /// Drops the runtimes of all panes of a window.
    fn remove_window_runtimes(&mut self, w: &WindowState)
        ensures
            final(self)@ == with_runtimes(
                old(self)@,
                old(self)@.runtimes.remove_keys(pane_ids(w@.panes).to_set()),
            ),
    {
        let ghost ps = w@.panes;
        let ghost old_rt = self@.runtimes;
        let np = w.panes.len();
        let mut j: usize = 0;
        assert(pane_ids(ps.take(0)).to_set() =~= Set::empty());
        assert(old_rt.remove_keys(Set::empty()) =~= old_rt);
        while j < np
            invariant
                np == w.panes@.len(),
                ps == w.panes@.map_values(|p: PaneState| p@),
                j <= np,
                old_rt == old(self)@.runtimes,
                self@ == with_runtimes(old(self)@, old_rt.remove_keys(pane_ids(ps.take(j as int)).to_set())),
            decreases np - j,
        {
            let ghost done = pane_ids(ps.take(j as int));
            self.remove_runtime(&w.panes[j].id);
            proof {
                assert(pane_ids(ps.take(j + 1)) =~= done.push(ps[j as int].id));
                done.lemma_push_to_set_commute(ps[j as int].id);
                assert(old_rt.remove_keys(done.to_set()).remove(ps[j as int].id) =~= old_rt.remove_keys(
                    done.to_set().insert(ps[j as int].id),
                ));
            }
            j = j + 1;
        }
        assert(ps.take(np as int) =~= ps);
    }

    /// Kills a pane: it leaves its window and its shell's runtime is dropped;
    /// a window left without panes leaves its session, and a session left
    /// without windows is ended (its name freed, as `kill_session` does).
    /// Reports the pane's session and whether it was ended.
    pub fn kill_pane(&mut self, pane_id: &PaneId) -> (r: Result<KillOutcome, RegistryError>)
        ensures
            match r {
                Ok(o) => {
                    let s = old(self)@.sessions[o.session_id@];
                    &&& old(self)@.sessions.contains_key(o.session_id@)
                    &&& session_has_pane(s, pane_id@)
                    &&& final(self)@ == after_kill_pane(old(self)@, o.session_id@, pane_id@)
                    &&& o.session_removed == pane_is_last(s, first_window_with_pane(s.windows, pane_id@) as int)
                },
                Err(RegistryError::PaneNotFound(m)) => !pane_exists(old(self)@, pane_id@) && m@ == pane_id@
                    && final(self)@ == old(self)@,
                Err(_) => false,
            },
    {
        let sid = match self.pane_owner(pane_id) {
            Some(sid) => sid,
            None => return Err(RegistryError::PaneNotFound(pane_id.as_str().to_owned())),
        };
        let ghost sv = self@.sessions[sid@];
        let session = match self.take_session(&sid) {
            Some(s) => s,
            None => {
                proof {
                    assert(false);
                }
                return Err(RegistryError::PaneNotFound(pane_id.as_str().to_owned()));
            },
        };
        let (j, k) = match find_pane_in_session(&session, pane_id) {
            Some(jk) => jk,
            None => {
                proof {
                    assert(false);
                }
                return Err(RegistryError::PaneNotFound(pane_id.as_str().to_owned()));
            },
        };
        if session.windows.len() == 1 && session.windows[j].panes.len() == 1 {
            self.remove_name(session.name.as_str());
            self.remove_session_runtimes(&session);
            proof {
                assert(final(self)@ =~= without_session(old(self)@, sid@));
            }
            return Ok(KillOutcome { session_id: sid, session_removed: true });
        }
        let s2 = remove_pane_from_session(session, j, k);
        self.put_session(s2);
        self.remove_runtime(pane_id);
        proof {
            assert(final(self)@.sessions =~= old(self)@.sessions.insert(
                sid@,
                without_pane_at(sv, j as int, k as int),
            ));
        }
        Ok(KillOutcome { session_id: sid, session_removed: false })
    }

    /// Kills a window: it leaves its session and the runtimes of its panes are
    /// dropped; a session left without windows is ended (its name freed, as
    /// `kill_session` does). Reports the window's session and whether it was ended.
    pub fn kill_window(&mut self, window_id: &WindowId) -> (r: Result<KillOutcome, RegistryError>)
        ensures
            match r {
                Ok(o) => {
                    let s = old(self)@.sessions[o.session_id@];
                    &&& old(self)@.sessions.contains_key(o.session_id@)
                    &&& session_has_window(s, window_id@)
                    &&& final(self)@ == after_kill_window(old(self)@, o.session_id@, window_id@)
                    &&& o.session_removed == (s.windows.len() == 1)
                },
                Err(RegistryError::WindowNotFound(m)) => !window_exists(old(self)@, window_id@) && m@
                    == window_id@ && final(self)@ == old(self)@,
                Err(_) => false,
            },
    {
        let sid = match self.window_owner(window_id) {
            Some(sid) => sid,
            None => return Err(RegistryError::WindowNotFound(window_id.as_str().to_owned())),
        };
        let ghost sv = self@.sessions[sid@];
        let session = match self.take_session(&sid) {
            Some(s) => s,
            None => {
                proof {
                    assert(false);
                }
                return Err(RegistryError::WindowNotFound(window_id.as_str().to_owned()));
            },
        };
        let j = match find_window_in_session(&session, window_id) {
            Some(j) => j,
            None => {
                proof {
                    assert(false);
                }
                return Err(RegistryError::WindowNotFound(window_id.as_str().to_owned()));
            },
        };
        if session.windows.len() == 1 {
            self.remove_name(session.name.as_str());
            self.remove_session_runtimes(&session);
            proof {
                assert(final(self)@ =~= without_session(old(self)@, sid@));
            }
            return Ok(KillOutcome { session_id: sid, session_removed: true });
        }
        let (s2, w) = remove_window_from_session(session, j);
        self.put_session(s2);
        self.remove_window_runtimes(&w);
        proof {
            assert(final(self)@.sessions =~= old(self)@.sessions.insert(sid@, without_window_at(sv, j as int)));
        }
        Ok(KillOutcome { session_id: sid, session_removed: false })
    }

    /// Ends a session: drops it, frees its name and drops the runtimes of its panes.
    pub fn kill_session(&mut self, target: &KillSessionTarget) -> (r: Result<SessionId, RegistryError>)
        ensures
            match r {
                Ok(id) => {
                    let s = old(self)@.sessions[id@];
                    &&& resolve_kill_spec(old(self)@, *target) == Some(id@)
                    &&& old(self)@.sessions.contains_key(id@)
                    &&& final(self)@ == without_session(old(self)@, id@)
                },
                Err(RegistryError::SessionNotFound(m)) => {
                    &&& final(self)@ == old(self)@
                    &&& match resolve_kill_spec(old(self)@, *target) {
                        None => m@ == kill_display_spec(*target),
                        Some(id) => !old(self)@.sessions.contains_key(id) && m@ == id,
                    }
                },
                Err(_) => false,
            },
    {
        let id = match self.resolve_kill_target(target) {
            Some(id) => id,
            None => return Err(RegistryError::SessionNotFound(target_kill_display(target))),
        };
        let session = match self.take_session(&id) {
            Some(s) => s,
            None => return Err(RegistryError::SessionNotFound(id.as_str().to_owned())),
        };
        self.remove_name(session.name.as_str());
        self.remove_session_runtimes(&session);
        Ok(id)
    }

    /// The shell handle of a pane, if the pane has a runtime.
    pub fn pty_for_pane(&self, pane_id: &PaneId) -> (r: Option<&P>)
        ensures
            match r {
                Some(p) => self@.runtimes.contains_key(pane_id@) && *p == self@.runtimes[pane_id@].pty,
                None => !self@.runtimes.contains_key(pane_id@),
            },
    {
        proof {
            use_type_invariant(self);
            lemma_keyed_domain(self.pane_runtimes@, runtime_key(), runtime_val(), pane_id@);
        }
        match self.find_runtime(pane_id) {
            Some(i) => {
                proof {
                    lemma_keyed_lookup(self.pane_runtimes@, runtime_key(), runtime_val(), i as int);
                }
                Some(&self.pane_runtimes[i].pty)
            },
            None => None,
        }
    }

    /// The (pane id, shell handle) pairs of a session's panes that have a
    /// runtime, window by window; empty for an unknown session.
    pub fn ptys_for_session(&self, session_id: &SessionId) -> (r: Vec<(PaneId, &P)>)
        ensures
            !self@.sessions.contains_key(session_id@) ==> r@.len() == 0,
            self@.sessions.contains_key(session_id@) ==> {
                let ids = session_pane_ids(self@.sessions[session_id@]).filter(
                    has_runtime(self@.runtimes),
                );
                &&& r@.len() == ids.len()
                &&& forall|k: int|
                    0 <= k < ids.len() ==> (#[trigger] r@[k]).0@ == ids[k] && *r@[k].1
                        == self@.runtimes[ids[k]].pty
            },
    {
        proof {
            use_type_invariant(self);
            lemma_keyed_domain(self.sessions@, session_key(), session_val(), session_id@);
        }
        let mut out: Vec<(PaneId, &P)> = Vec::new();
        let si = match self.find_session(session_id) {
            Some(si) => si,
            None => return out,
        };
        proof {
            lemma_keyed_lookup(self.sessions@, session_key(), session_val(), si as int);
        }
        let s = &self.sessions[si];
        let ghost ws = s@.windows;
        let ghost rts = self@.runtimes;
        let ghost pred = has_runtime(rts);
        proof {
            reveal(Seq::filter);
            assert(pane_ids(panes_of(ws.take(0))) =~= Seq::<Seq<char>>::empty());
        }
        let nw = s.windows.len();
        let mut i: usize = 0;
        while i < nw
            invariant
                nw == s.windows@.len(),
                ws == s@.windows,
                i <= nw,
                rts == self@.runtimes,
                pred == has_runtime(rts),
                out@.len() == pane_ids(panes_of(ws.take(i as int))).filter(pred).len(),
                forall|k: int|
                    0 <= k < out@.len() ==> (#[trigger] out@[k]).0@ == pane_ids(
                        panes_of(ws.take(i as int)),
                    ).filter(pred)[k] && *out@[k].1 == rts[out@[k].0@].pty,
            decreases nw - i,
        {
            let w = &s.windows[i];
            let ghost before = panes_of(ws.take(i as int));
            let ghost ps = ws[i as int].panes;
            let np = w.panes.len();
            let mut j: usize = 0;
            assert(before + ps.take(0) =~= before);
            while j < np
                invariant
                    np == w.panes@.len(),
                    ps == w.panes@.map_values(|p: PaneState| p@),
                    j <= np,
                    rts == self@.runtimes,
                    pred == has_runtime(rts),
                    out@.len() == pane_ids(before + ps.take(j as int)).filter(pred).len(),
                    forall|k: int|
                        0 <= k < out@.len() ==> (#[trigger] out@[k]).0@ == pane_ids(
                            before + ps.take(j as int),
                        ).filter(pred)[k] && *out@[k].1 == rts[out@[k].0@].pty,
                decreases np - j,
            {
                let ghost done = pane_ids(before + ps.take(j as int));
                let pid = &w.panes[j].id;
                proof {
                    lemma_pane_ids_step(before, ps, j as int);
                    done.lemma_filter_push(pid@, pred);
                }
                match self.pty_for_pane(pid) {
                    Some(p) => {
                        out.push((pid.clone(), p));
                    },
                    None => {},
                }
                j = j + 1;
            }
            proof {
                assert(ps.take(np as int) =~= ps);
                lemma_panes_of_take(ws, i as int);
            }
            i = i + 1;
        }
        assert(ws.take(nw as int) =~= ws);
        out
    }

    /// Sets the size of the pane with this id (in the first session, window and
    /// pane that hold it); `false` when no session holds it.
    pub fn update_pane_size(&mut self, pane_id: &PaneId, size: PaneSize) -> (r: bool)
        ensures
            r == exists|sid: Seq<char>|
                old(self)@.sessions.contains_key(sid) && session_has_pane(
                    #[trigger] old(self)@.sessions[sid],
                    pane_id@,
                ),
            pane_resized(old(self)@, final(self)@, pane_id@, size),
    {
        proof {
            use_type_invariant(&*self);
        }
        let ghost old_s = self.sessions@;
        let n = self.sessions.len();
        let mut i: usize = 0;
        while i < n
            invariant
                n == self.sessions@.len(),
                old_s == self.sessions@,
                self@ == old(self)@,
                keys_unique(old_s, session_key()),
                i <= n,
                forall|a: int| 0 <= a < i ==> !session_has_pane(#[trigger] old_s[a]@, pane_id@),
            decreases n - i,
        {
            match find_pane_in_session(&self.sessions[i], pane_id) {
                Some((j, k)) => {
                    proof {
                        use_type_invariant(&*self);
                        lemma_keyed_lookup(old_s, session_key(), session_val(), i as int);
                    }
                    let mut sessions: Vec<SessionState> = Vec::new();
                    std::mem::swap(&mut sessions, &mut self.sessions);
                    let ghost before = sessions@[i as int]@;
                    let ghost old_w = sessions@[i as int].windows@[j as int];
                    let ghost old_p = old_w.panes@[k as int];
                    sessions[i].windows[j].panes[k].size = size;
                    proof {
                        let after = sessions@[i as int];
                        let new_w = after.windows@[j as int];
                        assert(new_w.panes@ =~= old_w.panes@.update(k as int, new_w.panes@[k as int]));
                        assert(new_w.panes@[k as int]@ == PaneView { size, ..old_p@ });
                        assert(new_w.panes@.map_values(|p: PaneState| p@) =~= old_w@.panes.update(
                            k as int,
                            PaneView { size, ..old_p@ },
                        ));
                        assert(after.windows@ =~= sessions@[i as int].windows@.update(j as int, new_w));
                        assert(after.windows@.map_values(|w: WindowState| w@) =~= with_pane_size(
                            before,
                            pane_id@,
                            size,
                        ).windows);
                        assert(after@ == with_pane_size(before, pane_id@, size));
                        assert(sessions@ =~= old_s.update(i as int, after));
                        lemma_keyed_update(old_s, session_key(), session_val(), i as int, after);
                    }
                    self.sessions = sessions;
                    proof {
                        let sid = old_s[i as int].id@;
                        assert(old(self)@.sessions[sid] == before);
                        assert(session_has_pane(old(self)@.sessions[sid], pane_id@));
                    }
                    return true;
                },
                None => {},
            }
            i = i + 1;
        }
        proof {
            assert forall|sid: Seq<char>|
                old(self)@.sessions.contains_key(sid) implies !session_has_pane(
                #[trigger] old(self)@.sessions[sid],
                pane_id@,
            ) by {
                lemma_keyed_domain(old_s, session_key(), session_val(), sid);
                let a = choose|a: int| 0 <= a < old_s.len() && session_key()(old_s[a]) == sid;
                lemma_keyed_lookup(old_s, session_key(), session_val(), a);
            }
        }
        false
    }

    /// Summaries of all sessions, oldest first (ordered by creation time text;
    /// sessions created at the same time keep the store's order).
    pub fn list_summaries(&self) -> (r: Vec<SessionSummary>)
        ensures
            lists_sessions(self@, r@),
    {
        proof {
            use_type_invariant(self);
            lemma_keyed_len(self.sessions@, session_key(), session_val());
        }
        let ghost src = self.sessions@;
        let n = self.sessions.len();
        let mut out: Vec<SessionSummary> = Vec::new();
        let mut i: usize = 0;
        while i < n
            invariant
                n == src.len(),
                src == self.sessions@,
                keys_unique(src, session_key()),
                i <= n,
                out@.len() == i,
                forall|k: int|
                    0 <= k < out@.len() ==> exists|j: int|
                        0 <= j < i && (#[trigger] out@[k]).id@ == src[j].id@ && session_summary_of(
                            out@[k],
                            src[j]@,
                        ),
                forall|a: int, b: int| 0 <= a < b < out@.len() ==> out@[a].id@ != out@[b].id@,
                forall|a: int, b: int|
                    0 <= a < b < out@.len() ==> !text_lt(out@[b].created_at@, out@[a].created_at@),
            decreases n - i,
        {
            let x = self.sessions[i].summary();
            let len = out.len();
            let mut p: usize = 0;
            while p < len && !str_lt(x.created_at.as_str(), out[p].created_at.as_str())
                invariant
                    len == out@.len(),
                    p <= len,
                    forall|k: int| 0 <= k < p ==> !text_lt(x.created_at@, #[trigger] out@[k].created_at@),
                decreases len - p,
            {
                p = p + 1;
            }
            let ghost old_out = out@;
            proof {
                assert forall|k: int| 0 <= k < old_out.len() implies old_out[k].id@ != x.id@ by {
                    let j = choose|j: int|
                        0 <= j < i && (#[trigger] old_out[k]).id@ == src[j].id@ && session_summary_of(
                            old_out[k],
                            src[j]@,
                        );
                    assert(session_key()(src[j]) != session_key()(src[i as int]));
                }
                assert forall|q: int| p <= q < old_out.len() implies !text_lt(
                    #[trigger] old_out[q].created_at@,
                    x.created_at@,
                ) by {
                    if text_lt(old_out[q].created_at@, x.created_at@) {
                        lemma_text_lt_transitive(old_out[q].created_at@, x.created_at@, old_out[p as int].created_at@);
                        if q == p {
                            lemma_text_lt_irreflexive(old_out[q].created_at@);
                        }
                    }
                }
            }
            out.insert(p, x);
            proof {
                assert forall|k: int| 0 <= k < out@.len() implies exists|j: int|
                    0 <= j < i + 1 && (#[trigger] out@[k]).id@ == src[j].id@ && session_summary_of(
                        out@[k],
                        src[j]@,
                    ) by {
                    if k < p {
                        assert(out@[k] == old_out[k]);
                    } else if k > p {
                        assert(out@[k] == old_out[k - 1]);
                    } else {
                        assert(out@[k].id@ == src[i as int].id@);
                    }
                }
                assert forall|a: int, b: int| 0 <= a < b < out@.len() implies out@[a].id@ != out@[b].id@
                    && !text_lt(out@[b].created_at@, out@[a].created_at@) by {
                    if b < p {
                        assert(out@[a] == old_out[a] && out@[b] == old_out[b]);
                    } else if a > p {
                        assert(out@[a] == old_out[a - 1] && out@[b] == old_out[b - 1]);
                    } else if a == p {
                        assert(out@[b] == old_out[b - 1]);
                    } else if b == p {
                        assert(out@[a] == old_out[a]);
                    } else {
                        assert(out@[a] == old_out[a] && out@[b] == old_out[b - 1]);
                    }
                }
            }
            i = i + 1;
        }
        proof {
            assert forall|k: int| 0 <= k < out@.len() implies self@.sessions.contains_key(
                #[trigger] out@[k].id@,
            ) && session_summary_of(out@[k], self@.sessions[out@[k].id@]) by {
                let j = choose|j: int|
                    0 <= j < n && (#[trigger] out@[k]).id@ == src[j].id@ && session_summary_of(
                        out@[k],
                        src[j]@,
                    );
                lemma_keyed_lookup(src, session_key(), session_val(), j);
            }
        }
        out
    }

    /// The id of the session with this name, if any.
    pub fn session_id_by_name(&self, name: &str) -> (r: Option<SessionId>)
        ensures
            match r {
                Some(id) => self@.names.contains_key(name@) && self@.names[name@] == id@,
                None => !self@.names.contains_key(name@),
            },
    {
        self.lookup_name(name)
    }

    /// The active pane of a session, if the session exists and its active window does.
    pub fn active_pane_of_session(&self, id: &SessionId) -> (r: Option<PaneId>)
        ensures
            match r {
                Some(p) => self@.sessions.contains_key(id@) && active_pane_spec(self@.sessions[id@])
                    == Some(p@),
                None => !self@.sessions.contains_key(id@) || active_pane_spec(self@.sessions[id@])
                    is None,
            },
    {
        proof {
            use_type_invariant(self);
            lemma_keyed_domain(self.sessions@, session_key(), session_val(), id@);
        }
        let i = match self.find_session(id) {
            Some(i) => i,
            None => return None,
        };
        proof {
            lemma_keyed_lookup(self.sessions@, session_key(), session_val(), i as int);
        }
        let s = &self.sessions[i];
        let ghost wv = s@.windows;
        let n = s.windows.len();
        let mut j: usize = 0;
        while j < n
            invariant
                n == s.windows@.len(),
                wv == s@.windows,
                j <= n,
                self@.sessions.contains_key(id@),
                self@.sessions[id@] == s@,
                forall|k: int| 0 <= k < j ==> wv[k].id != s@.active_window,
            decreases n - j,
        {
            if s.windows[j].id.same_as(&s.active_window) {
                proof {
                    lemma_first_window_index(wv, s@.active_window, j as int);
                    assert(wv[j as int] == s.windows@[j as int]@);
                }
                let p = s.windows[j].active_pane.clone();
                assert(active_pane_spec(s@) == Some(p@));
                return Some(p);
            }
            j = j + 1;
        }
        proof {
            lemma_first_window_index(wv, s@.active_window, n as int);
        }
        None
    }

    /// Whether some `untitled-N` name is still free (so that a session
    /// without a name can be created).
    pub fn has_free_untitled_name(&self) -> (r: bool)
        ensures
            r == can_name_untitled(self@),
    {
        let ghost target = untitled_counter_after(self@);
        let mut c: u32 = self.untitled_counter;
        let mut fuel: u32 = 4294967295;
        loop
            invariant
                target == untitled_counter_after(self@),
                untitled_search(self@.names, c, fuel as nat) == target,
            decreases fuel,
        {
            let n = c.wrapping_add(1);
            assert(n == next_counter(c));
            let mut candidate = String::new();
            push_str(&mut candidate, "untitled-");
            push_decimal(&mut candidate, n as u64);
            assert(candidate@ =~= untitled_name(n));
            if self.lookup_name(candidate.as_str()).is_none() {
                return true;
            }
            if fuel == 0 {
                return false;
            }
            c = n;
            fuel = fuel - 1;
        }
    }

    /// Number of clients attached to a session, if it exists.
    pub fn attached_clients(&self, id: &SessionId) -> (r: Option<u16>)
        ensures
            match r {
                Some(n) => self@.sessions.contains_key(id@) && self@.sessions[id@].attached_clients
                    == n,
                None => !self@.sessions.contains_key(id@),
            },
    {
        proof {
            use_type_invariant(self);
            lemma_keyed_domain(self.sessions@, session_key(), session_val(), id@);
        }
        match self.find_session(id) {
            Some(i) => {
                proof {
                    lemma_keyed_lookup(self.sessions@, session_key(), session_val(), i as int);
                }
                Some(self.sessions[i].attached_clients)
            },
            None => None,
        }
    }
}

} // verus!

//! Prefixed identifiers: `ses-…`, `win-…`, `pane-…`, `cli-…`, `msg-…`.
//!
//! On the wire an identifier is the string `<prefix>-<body>`. These types keep
//! identifiers of different kinds apart and check their shape; the server
//! makes the bodies.
use vstd::prelude::*;

use crate::text::{push_char, push_str, str_starts_with};

verus! {

/// Why an identifier could not be read.
#[derive(Debug, PartialEq, Eq)]
pub enum IdError {
    /// The text does not start with `<expected>-`.
    WrongPrefix {
        /// The prefix that was expected.
        expected: &'static str,
        /// The text that was given.
        actual: String,
    },
    /// Nothing follows the prefix.
    EmptyBody(&'static str),
}

/// The wire text of an identifier with the given prefix and body.
pub open spec fn id_text(prefix: Seq<char>, body: Seq<char>) -> Seq<char> {
    prefix + seq!['-'] + body
}

/// Whether `raw` starts with `<prefix>-`.
pub open spec fn has_id_prefix(prefix: Seq<char>, raw: Seq<char>) -> bool {
    let p = prefix + seq!['-'];
    p.len() <= raw.len() && raw.subrange(0, p.len() as int) == p
}

/// The body of an identifier text: what follows `<prefix>-`, or the whole text
/// when it does not start that way.
pub open spec fn id_body(prefix: Seq<char>, raw: Seq<char>) -> Seq<char> {
    if has_id_prefix(prefix, raw) {
        raw.subrange(prefix.len() + 1int, raw.len() as int)
    } else {
        raw
    }
}

/// Whether `raw` is a well-formed identifier text for `prefix`.
pub open spec fn is_id_text(prefix: Seq<char>, raw: Seq<char>) -> bool {
    has_id_prefix(prefix, raw) && raw.len() > prefix.len() + 1
}

/// What reading `raw` as an identifier gives: the text itself, or the error
/// (`true` for a wrong prefix, `false` for an empty body).
pub open spec fn id_parse_spec(prefix: Seq<char>, raw: Seq<char>) -> Result<Seq<char>, bool> {
    if !has_id_prefix(prefix, raw) {
        Err(true)
    } else if raw.len() == prefix.len() + 1 {
        Err(false)
    } else {
        Ok(raw)
    }
}

/// Whether an `IdError` is the one `id_parse_spec` describes.
pub open spec fn id_error_matches(e: IdError, prefix: Seq<char>, raw: Seq<char>, wrong: bool) -> bool {
    if wrong {
        e matches IdError::WrongPrefix { expected, actual } && expected@ == prefix && actual@ == raw
    } else {
        e matches IdError::EmptyBody(p) && p@ == prefix
    }
}

/// The text of an identifier error, as it is shown to users.
pub open spec fn id_error_text(e: IdError) -> Seq<char> {
    match e {
        IdError::WrongPrefix { expected, actual } => "expected prefix `"@ + expected@ + "-`, got `"@
            + actual@ + "`"@,
        IdError::EmptyBody(p) => "identifier body is empty after prefix `"@ + p@ + "-`"@,
    }
}

impl IdError {
    /// The error's text.
    pub fn message(&self) -> (r: String)
        ensures
            r@ == id_error_text(*self),
    {
        let mut s = String::new();
        match self {
            IdError::WrongPrefix { expected, actual } => {
                push_str(&mut s, "expected prefix `");
                push_str(&mut s, expected);
                push_str(&mut s, "-`, got `");
                push_str(&mut s, actual.as_str());
                push_str(&mut s, "`");
            },
            IdError::EmptyBody(p) => {
                push_str(&mut s, "identifier body is empty after prefix `");
                push_str(&mut s, p);
                push_str(&mut s, "-`");
            },
        }
        assert(s@ =~= id_error_text(*self));
        s
    }
}

fn dashed(prefix: &str) -> (r: String)
    ensures
        r@ == prefix@ + seq!['-'],
{
    let mut s = String::from_str(prefix);
    push_char(&mut s, '-');
    s
}

fn text_from_body(prefix: &'static str, body: &str) -> (r: Result<String, IdError>)
    ensures
        match r {
            Ok(s) => body@.len() > 0 && s@ == id_text(prefix@, body@),
            Err(e) => body@.len() == 0 && id_error_matches(e, prefix@, body@, false),
        },
{
    if body.unicode_len() == 0 {
        return Err(IdError::EmptyBody(prefix));
    }
    let mut s = dashed(prefix);
    s.append(body);
    Ok(s)
}

fn text_parse(prefix: &'static str, s: &str) -> (r: Result<String, IdError>)
    ensures
        match r {
            Ok(t) => id_parse_spec(prefix@, s@) == Ok::<Seq<char>, bool>(t@),
            Err(e) => id_parse_spec(prefix@, s@) is Err && id_error_matches(
                e,
                prefix@,
                s@,
                id_parse_spec(prefix@, s@)->Err_0,
            ),
        },
{
    let p = dashed(prefix);
    if !str_starts_with(s, p.as_str()) {
        return Err(IdError::WrongPrefix { expected: prefix, actual: s.to_owned() });
    }
    if s.unicode_len() == p.as_str().unicode_len() {
        return Err(IdError::EmptyBody(prefix));
    }
    Ok(s.to_owned())
}

fn text_body<'a>(prefix: &str, raw: &'a str) -> (r: &'a str)
    ensures
        r@ == id_body(prefix@, raw@),
{
    let p = dashed(prefix);
    if str_starts_with(raw, p.as_str()) {
        raw.substring_char(p.as_str().unicode_len(), raw.unicode_len())
    } else {
        raw
    }
}

/// Law: an identifier built from a non-empty body reads back as the same text,
/// and its body is the body it was built from.
pub proof fn lemma_id_roundtrip(prefix: Seq<char>, body: Seq<char>)
    requires
        body.len() > 0,
    ensures
        id_parse_spec(prefix, id_text(prefix, body)) == Ok::<Seq<char>, bool>(id_text(prefix, body)),
        id_body(prefix, id_text(prefix, body)) == body,
        is_id_text(prefix, id_text(prefix, body)),
{
    let t = id_text(prefix, body);
    assert(t.subrange(0, prefix.len() + 1int) =~= prefix + seq!['-']);
    assert(t.subrange(prefix.len() + 1int, t.len() as int) =~= body);
}

/// Session identifier (`ses-<ULID>`).
#[derive(Debug, Eq, Hash, PartialEq, Ord, PartialOrd)]
pub struct SessionId {
    raw: String,
}

impl View for SessionId {
    type V = Seq<char>;

    closed spec fn view(&self) -> Seq<char> {
        self.raw@
    }
}

impl Clone for SessionId {
    fn clone(&self) -> (r: Self)
        ensures
            r@ == self@,
    {
        SessionId { raw: self.raw.clone() }
    }
}

impl SessionId {
    /// Wire prefix.
    pub const PREFIX: &'static str = "ses";

    /// The characters of the wire prefix.
    pub open spec fn prefix_spec() -> Seq<char> {
        seq!['s', 'e', 's']
    }

    /// The wire prefix.
    pub fn prefix() -> (r: &'static str)
        ensures
            r@ == Self::prefix_spec(),
    {
        proof {
            reveal_strlit("ses");
        }
        "ses"
    }

    /// Takes a text that already carries the prefix, without checking it.
    pub fn from_raw(raw: String) -> (r: Self)
        ensures
            r@ == raw@,
    {
        SessionId { raw }
    }

    /// Builds an identifier from its body (a ULID or the like); an empty body is refused.
    pub fn from_body(body: &str) -> (r: Result<Self, IdError>)
        ensures
            match r {
                Ok(id) => body@.len() > 0 && id@ == id_text(Self::prefix_spec(), body@),
                Err(e) => body@.len() == 0 && id_error_matches(e, Self::prefix_spec(), body@, false),
            },
    {
        let p = Self::prefix();
        match text_from_body(p, body) {
            Ok(raw) => Ok(SessionId { raw }),
            Err(e) => Err(e),
        }
    }

    /// Reads an identifier from its wire text, checking the prefix and that a body follows.
    pub fn parse(s: &str) -> (r: Result<Self, IdError>)
        ensures
            match r {
                Ok(id) => id_parse_spec(Self::prefix_spec(), s@) == Ok::<Seq<char>, bool>(id@),
                Err(e) => id_parse_spec(Self::prefix_spec(), s@) is Err && id_error_matches(
                    e,
                    Self::prefix_spec(),
                    s@,
                    id_parse_spec(Self::prefix_spec(), s@)->Err_0,
                ),
            },
    {
        let p = Self::prefix();
        match text_parse(p, s) {
            Ok(raw) => Ok(SessionId { raw }),
            Err(e) => Err(e),
        }
    }

    /// The wire text.
    pub fn as_str(&self) -> (r: &str)
        ensures
            r@ == self@,
    {
        self.raw.as_str()
    }

    /// The body after the prefix (the whole text for an unchecked identifier without it).
    pub fn body(&self) -> (r: &str)
        ensures
            r@ == id_body(Self::prefix_spec(), self@),
    {
        text_body(Self::prefix(), self.raw.as_str())
    }

    /// Whether two identifiers have the same text.
    pub fn same_as(&self, other: &Self) -> (r: bool)
        ensures
            r == (self@ == other@),
    {
        self.raw == other.raw
    }
}

impl core::str::FromStr for SessionId {
    type Err = IdError;

    /// As `parse`.
    fn from_str(s: &str) -> (r: Result<Self, IdError>)
        ensures
            match r {
                Ok(id) => id_parse_spec(SessionId::prefix_spec(), s@) == Ok::<Seq<char>, bool>(id@),
                Err(e) => id_parse_spec(SessionId::prefix_spec(), s@) is Err && id_error_matches(
                    e,
                    SessionId::prefix_spec(),
                    s@,
                    id_parse_spec(SessionId::prefix_spec(), s@)->Err_0,
                ),
            },
    {
        Self::parse(s)
    }
}

/// Window identifier (`win-<ULID>`).
#[derive(Debug, Eq, Hash, PartialEq, Ord, PartialOrd)]
pub struct WindowId {
    raw: String,
}

impl View for WindowId {
    type V = Seq<char>;

    closed spec fn view(&self) -> Seq<char> {
        self.raw@
    }
}

impl Clone for WindowId {
    fn clone(&self) -> (r: Self)
        ensures
            r@ == self@,
    {
        WindowId { raw: self.raw.clone() }
    }
}

impl WindowId {
    /// Wire prefix.
    pub const PREFIX: &'static str = "win";

    /// The characters of the wire prefix.
    pub open spec fn prefix_spec() -> Seq<char> {
        seq!['w', 'i', 'n']
    }

    /// The wire prefix.
    pub fn prefix() -> (r: &'static str)
        ensures
            r@ == Self::prefix_spec(),
    {
        proof {
            reveal_strlit("win");
        }
        "win"
    }

    /// Takes a text that already carries the prefix, without checking it.
    pub fn from_raw(raw: String) -> (r: Self)
        ensures
            r@ == raw@,
    {
        WindowId { raw }
    }

    /// Builds an identifier from its body (a ULID or the like); an empty body is refused.
    pub fn from_body(body: &str) -> (r: Result<Self, IdError>)
        ensures
            match r {
                Ok(id) => body@.len() > 0 && id@ == id_text(Self::prefix_spec(), body@),
                Err(e) => body@.len() == 0 && id_error_matches(e, Self::prefix_spec(), body@, false),
            },
    {
        let p = Self::prefix();
        match text_from_body(p, body) {
            Ok(raw) => Ok(WindowId { raw }),
            Err(e) => Err(e),
        }
    }

    /// Reads an identifier from its wire text, checking the prefix and that a body follows.
    pub fn parse(s: &str) -> (r: Result<Self, IdError>)
        ensures
            match r {
                Ok(id) => id_parse_spec(Self::prefix_spec(), s@) == Ok::<Seq<char>, bool>(id@),
                Err(e) => id_parse_spec(Self::prefix_spec(), s@) is Err && id_error_matches(
                    e,
                    Self::prefix_spec(),
                    s@,
                    id_parse_spec(Self::prefix_spec(), s@)->Err_0,
                ),
            },
    {
        let p = Self::prefix();
        match text_parse(p, s) {
            Ok(raw) => Ok(WindowId { raw }),
            Err(e) => Err(e),
        }
    }

    /// The wire text.
    pub fn as_str(&self) -> (r: &str)
        ensures
            r@ == self@,
    {
        self.raw.as_str()
    }

    /// The body after the prefix (the whole text for an unchecked identifier without it).
    pub fn body(&self) -> (r: &str)
        ensures
            r@ == id_body(Self::prefix_spec(), self@),
    {
        text_body(Self::prefix(), self.raw.as_str())
    }

    /// Whether two identifiers have the same text.
    pub fn same_as(&self, other: &Self) -> (r: bool)
        ensures
            r == (self@ == other@),
    {
        self.raw == other.raw
    }
}

impl core::str::FromStr for WindowId {
    type Err = IdError;

    /// As `parse`.
    fn from_str(s: &str) -> (r: Result<Self, IdError>)
        ensures
            match r {
                Ok(id) => id_parse_spec(WindowId::prefix_spec(), s@) == Ok::<Seq<char>, bool>(id@),
                Err(e) => id_parse_spec(WindowId::prefix_spec(), s@) is Err && id_error_matches(
                    e,
                    WindowId::prefix_spec(),
                    s@,
                    id_parse_spec(WindowId::prefix_spec(), s@)->Err_0,
                ),
            },
    {
        Self::parse(s)
    }
}

/// Pane identifier (`pane-<ULID>`).
#[derive(Debug, Eq, Hash, PartialEq, Ord, PartialOrd)]
pub struct PaneId {
    raw: String,
}

impl View for PaneId {
    type V = Seq<char>;

    closed spec fn view(&self) -> Seq<char> {
        self.raw@
    }
}

impl Clone for PaneId {
    fn clone(&self) -> (r: Self)
        ensures
            r@ == self@,
    {
        PaneId { raw: self.raw.clone() }
    }
}

impl PaneId {
    /// Wire prefix.
    pub const PREFIX: &'static str = "pane";

    /// The characters of the wire prefix.
    pub open spec fn prefix_spec() -> Seq<char> {
        seq!['p', 'a', 'n', 'e']
    }

    /// The wire prefix.
    pub fn prefix() -> (r: &'static str)
        ensures
            r@ == Self::prefix_spec(),
    {
        proof {
            reveal_strlit("pane");
        }
        "pane"
    }

    /// Takes a text that already carries the prefix, without checking it.
    pub fn from_raw(raw: String) -> (r: Self)
        ensures
            r@ == raw@,
    {
        PaneId { raw }
    }

    /// Builds an identifier from its body (a ULID or the like); an empty body is refused.
    pub fn from_body(body: &str) -> (r: Result<Self, IdError>)
        ensures
            match r {
                Ok(id) => body@.len() > 0 && id@ == id_text(Self::prefix_spec(), body@),
                Err(e) => body@.len() == 0 && id_error_matches(e, Self::prefix_spec(), body@, false),
            },
    {
        let p = Self::prefix();
        match text_from_body(p, body) {
            Ok(raw) => Ok(PaneId { raw }),
            Err(e) => Err(e),
        }
    }

    /// Reads an identifier from its wire text, checking the prefix and that a body follows.
    pub fn parse(s: &str) -> (r: Result<Self, IdError>)
        ensures
            match r {
                Ok(id) => id_parse_spec(Self::prefix_spec(), s@) == Ok::<Seq<char>, bool>(id@),
                Err(e) => id_parse_spec(Self::prefix_spec(), s@) is Err && id_error_matches(
                    e,
                    Self::prefix_spec(),
                    s@,
                    id_parse_spec(Self::prefix_spec(), s@)->Err_0,
                ),
            },
    {
        let p = Self::prefix();
        match text_parse(p, s) {
            Ok(raw) => Ok(PaneId { raw }),
            Err(e) => Err(e),
        }
    }

    /// The wire text.
    pub fn as_str(&self) -> (r: &str)
        ensures
            r@ == self@,
    {
        self.raw.as_str()
    }

    /// The body after the prefix (the whole text for an unchecked identifier without it).
    pub fn body(&self) -> (r: &str)
        ensures
            r@ == id_body(Self::prefix_spec(), self@),
    {
        text_body(Self::prefix(), self.raw.as_str())
    }

    /// Whether two identifiers have the same text.
    pub fn same_as(&self, other: &Self) -> (r: bool)
        ensures
            r == (self@ == other@),
    {
        self.raw == other.raw
    }
}

impl core::str::FromStr for PaneId {
    type Err = IdError;

    /// As `parse`.
    fn from_str(s: &str) -> (r: Result<Self, IdError>)
        ensures
            match r {
                Ok(id) => id_parse_spec(PaneId::prefix_spec(), s@) == Ok::<Seq<char>, bool>(id@),
                Err(e) => id_parse_spec(PaneId::prefix_spec(), s@) is Err && id_error_matches(
                    e,
                    PaneId::prefix_spec(),
                    s@,
                    id_parse_spec(PaneId::prefix_spec(), s@)->Err_0,
                ),
            },
    {
        Self::parse(s)
    }
}

/// Client identifier (`cli-<ULID>`).
#[derive(Debug, Eq, Hash, PartialEq, Ord, PartialOrd)]
pub struct ClientId {
    raw: String,
}

impl View for ClientId {
    type V = Seq<char>;

    closed spec fn view(&self) -> Seq<char> {
        self.raw@
    }
}

impl Clone for ClientId {
    fn clone(&self) -> (r: Self)
        ensures
            r@ == self@,
    {
        ClientId { raw: self.raw.clone() }
    }
}

impl ClientId {
    /// Wire prefix.
    pub const PREFIX: &'static str = "cli";

    /// The characters of the wire prefix.
    pub open spec fn prefix_spec() -> Seq<char> {
        seq!['c', 'l', 'i']
    }

    /// The wire prefix.
    pub fn prefix() -> (r: &'static str)
        ensures
            r@ == Self::prefix_spec(),
    {
        proof {
            reveal_strlit("cli");
        }
        "cli"
    }

    /// Takes a text that already carries the prefix, without checking it.
    pub fn from_raw(raw: String) -> (r: Self)
        ensures
            r@ == raw@,
    {
        ClientId { raw }
    }

    /// Builds an identifier from its body (a ULID or the like); an empty body is refused.
    pub fn from_body(body: &str) -> (r: Result<Self, IdError>)
        ensures
            match r {
                Ok(id) => body@.len() > 0 && id@ == id_text(Self::prefix_spec(), body@),
                Err(e) => body@.len() == 0 && id_error_matches(e, Self::prefix_spec(), body@, false),
            },
    {
        let p = Self::prefix();
        match text_from_body(p, body) {
            Ok(raw) => Ok(ClientId { raw }),
            Err(e) => Err(e),
        }
    }

    /// Reads an identifier from its wire text, checking the prefix and that a body follows.
    pub fn parse(s: &str) -> (r: Result<Self, IdError>)
        ensures
            match r {
                Ok(id) => id_parse_spec(Self::prefix_spec(), s@) == Ok::<Seq<char>, bool>(id@),
                Err(e) => id_parse_spec(Self::prefix_spec(), s@) is Err && id_error_matches(
                    e,
                    Self::prefix_spec(),
                    s@,
                    id_parse_spec(Self::prefix_spec(), s@)->Err_0,
                ),
            },
    {
        let p = Self::prefix();
        match text_parse(p, s) {
            Ok(raw) => Ok(ClientId { raw }),
            Err(e) => Err(e),
        }
    }

    /// The wire text.
    pub fn as_str(&self) -> (r: &str)
        ensures
            r@ == self@,
    {
        self.raw.as_str()
    }

    /// The body after the prefix (the whole text for an unchecked identifier without it).
    pub fn body(&self) -> (r: &str)
        ensures
            r@ == id_body(Self::prefix_spec(), self@),
    {
        text_body(Self::prefix(), self.raw.as_str())
    }

    /// Whether two identifiers have the same text.
    pub fn same_as(&self, other: &Self) -> (r: bool)
        ensures
            r == (self@ == other@),
    {
        self.raw == other.raw
    }
}

impl core::str::FromStr for ClientId {
    type Err = IdError;

    /// As `parse`.
    fn from_str(s: &str) -> (r: Result<Self, IdError>)
        ensures
            match r {
                Ok(id) => id_parse_spec(ClientId::prefix_spec(), s@) == Ok::<Seq<char>, bool>(id@),
                Err(e) => id_parse_spec(ClientId::prefix_spec(), s@) is Err && id_error_matches(
                    e,
                    ClientId::prefix_spec(),
                    s@,
                    id_parse_spec(ClientId::prefix_spec(), s@)->Err_0,
                ),
            },
    {
        Self::parse(s)
    }
}

/// Message identifier that pairs a request with its answer (`msg-<ULID>`).
#[derive(Debug, Eq, Hash, PartialEq, Ord, PartialOrd)]
pub struct MessageId {
    raw: String,
}

impl View for MessageId {
    type V = Seq<char>;

    closed spec fn view(&self) -> Seq<char> {
        self.raw@
    }
}

impl Clone for MessageId {
    fn clone(&self) -> (r: Self)
        ensures
            r@ == self@,
    {
        MessageId { raw: self.raw.clone() }
    }
}

impl MessageId {
    /// Wire prefix.
    pub const PREFIX: &'static str = "msg";

    /// The characters of the wire prefix.
    pub open spec fn prefix_spec() -> Seq<char> {
        seq!['m', 's', 'g']
    }

    /// The wire prefix.
    pub fn prefix() -> (r: &'static str)
        ensures
            r@ == Self::prefix_spec(),
    {
        proof {
            reveal_strlit("msg");
        }
        "msg"
    }

    /// Takes a text that already carries the prefix, without checking it.
    pub fn from_raw(raw: String) -> (r: Self)
        ensures
            r@ == raw@,
    {
        MessageId { raw }
    }

    /// Builds an identifier from its body (a ULID or the like); an empty body is refused.
    pub fn from_body(body: &str) -> (r: Result<Self, IdError>)
        ensures
            match r {
                Ok(id) => body@.len() > 0 && id@ == id_text(Self::prefix_spec(), body@),
                Err(e) => body@.len() == 0 && id_error_matches(e, Self::prefix_spec(), body@, false),
            },
    {
        let p = Self::prefix();
        match text_from_body(p, body) {
            Ok(raw) => Ok(MessageId { raw }),
            Err(e) => Err(e),
        }
    }

    /// Reads an identifier from its wire text, checking the prefix and that a body follows.
    pub fn parse(s: &str) -> (r: Result<Self, IdError>)
        ensures
            match r {
                Ok(id) => id_parse_spec(Self::prefix_spec(), s@) == Ok::<Seq<char>, bool>(id@),
                Err(e) => id_parse_spec(Self::prefix_spec(), s@) is Err && id_error_matches(
                    e,
                    Self::prefix_spec(),
                    s@,
                    id_parse_spec(Self::prefix_spec(), s@)->Err_0,
                ),
            },
    {
        let p = Self::prefix();
        match text_parse(p, s) {
            Ok(raw) => Ok(MessageId { raw }),
            Err(e) => Err(e),
        }
    }

    /// The wire text.
    pub fn as_str(&self) -> (r: &str)
        ensures
            r@ == self@,
    {
        self.raw.as_str()
    }

    /// The body after the prefix (the whole text for an unchecked identifier without it).
    pub fn body(&self) -> (r: &str)
        ensures
            r@ == id_body(Self::prefix_spec(), self@),
    {
        text_body(Self::prefix(), self.raw.as_str())
    }

    /// Whether two identifiers have the same text.
    pub fn same_as(&self, other: &Self) -> (r: bool)
        ensures
            r == (self@ == other@),
    {
        self.raw == other.raw
    }
}

impl core::str::FromStr for MessageId {
    type Err = IdError;

    /// As `parse`.
    fn from_str(s: &str) -> (r: Result<Self, IdError>)
        ensures
            match r {
                Ok(id) => id_parse_spec(MessageId::prefix_spec(), s@) == Ok::<Seq<char>, bool>(id@),
                Err(e) => id_parse_spec(MessageId::prefix_spec(), s@) is Err && id_error_matches(
                    e,
                    MessageId::prefix_spec(),
                    s@,
                    id_parse_spec(MessageId::prefix_spec(), s@)->Err_0,
                ),
            },
    {
        Self::parse(s)
    }
}

} // verus!

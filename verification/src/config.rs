//! Configuration of the broker and of the worker agent.
//!
//! The configuration text is a small table format: a `[server]` table
//! with the broker's two listen addresses and a `[client]` table with
//! the agent's broker address and local target address. Blank lines
//! and `#` comments are skipped, every entry is `key = "value"`, an
//! unknown key is ignored, a repeated key keeps its last value, and
//! all four addresses must be present. Reading the file itself is the
//! thin caller's job; this module turns its text into a `Config` or
//! says exactly why it cannot.

use vstd::prelude::*;
use vstd::string::*;

verus! {

/// Why configuration text was rejected.
#[derive(Clone, Copy, PartialEq, Eq, Structural, Debug)]
pub enum ConfigError {
    /// Some line is neither blank, a comment, a table header nor a
    /// well-formed `key = "value"` entry.
    Syntax,
    /// One of the four addresses never appeared in its table.
    MissingField,
}

/// The broker's two listen addresses.
#[derive(Clone, Debug)]
pub struct ServerConfig {
    /// Where worker agents dial in.
    pub client_addr: String,
    /// Where user clients dial in.
    pub user_addr: String,
}

/// The worker agent's two peer addresses.
#[derive(Clone, Debug)]
pub struct ClientConfig {
    /// The broker's worker-listen address, as the agent dials it.
    pub server_addr: String,
    /// The local target service the agent relays to.
    pub target_addr: String,
}

/// Everything both roles need to start.
#[derive(Clone, Debug)]
pub struct Config {
    pub server: ServerConfig,
    pub client: ClientConfig,
}

/// Mathematical image of `ServerConfig`.
pub struct ServerConfigV {
    pub client_addr: Seq<char>,
    pub user_addr: Seq<char>,
}

/// Mathematical image of `ClientConfig`.
pub struct ClientConfigV {
    pub server_addr: Seq<char>,
    pub target_addr: Seq<char>,
}

/// Mathematical image of `Config`.
pub struct ConfigV {
    pub server: ServerConfigV,
    pub client: ClientConfigV,
}

impl View for ServerConfig {
    type V = ServerConfigV;

    open spec fn view(&self) -> ServerConfigV {
        ServerConfigV { client_addr: self.client_addr@, user_addr: self.user_addr@ }
    }
}

impl View for ClientConfig {
    type V = ClientConfigV;

    open spec fn view(&self) -> ClientConfigV {
        ClientConfigV { server_addr: self.server_addr@, target_addr: self.target_addr@ }
    }
}

impl View for Config {
    type V = ConfigV;

    open spec fn view(&self) -> ConfigV {
        ConfigV { server: self.server@, client: self.client@ }
    }
}

/// Which table the parser is inside.
#[derive(Clone, Copy, PartialEq, Eq, Structural)]
pub enum Section {
    /// Before any table header.
    Outside,
    /// Inside `[server]`.
    Server,
    /// Inside `[client]`.
    Client,
}

/// The parser's state between lines: the current table and every
/// address seen so far.
pub struct ParseSt {
    pub section: Section,
    pub client_addr: Option<Seq<char>>,
    pub user_addr: Option<Seq<char>>,
    pub server_addr: Option<Seq<char>>,
    pub target_addr: Option<Seq<char>>,
}

/// The first position at or after `from` holding `c`, if any.
pub open spec fn find_from(t: Seq<char>, from: int, c: char) -> Option<int>
    decreases t.len() - from,
{
    if from < 0 || from >= t.len() {
        None
    } else if t[from] == c {
        Some(from)
    } else {
        find_from(t, from + 1, c)
    }
}

/// A found position lies in range, holds `c`, and nothing before it
/// does.
pub proof fn lemma_find_from_bounds(t: Seq<char>, from: int, c: char)
    requires
        find_from(t, from, c) is Some,
    ensures
        match find_from(t, from, c) {
            Some(i) => from <= i < t.len() && t[i] == c && forall|j: int|
                from <= j < i ==> t[j] != c,
            None => false,
        },
    decreases t.len() - from,
{
    if from < 0 || from >= t.len() {
    } else if t[from] == c {
    } else {
        lemma_find_from_bounds(t, from + 1, c);
    }
}

/// A line with its line-feed split off may still carry a carriage
/// return; it is not part of the line.
pub open spec fn strip_cr(l: Seq<char>) -> Seq<char> {
    if l.len() > 0 && l.last() == '\r' {
        l.drop_last()
    } else {
        l
    }
}

/// Reads a line as a `key = "value"` entry: the key runs to the first
/// space, ` = "` follows, and the value is everything up to a closing
/// quote that ends the line and appears nowhere inside the value.
pub open spec fn parse_key_value(l: Seq<char>) -> Option<(Seq<char>, Seq<char>)> {
    match find_from(l, 0, ' ') {
        None => None,
        Some(i) => if i >= 1 && l.len() >= i + 5 && l[i + 1] == '=' && l[i + 2] == ' ' && l[i
            + 3] == '"' && find_from(l, i + 4, '"') == Some(l.len() - 1) {
            Some((l.take(i), l.subrange(i + 4, l.len() - 1)))
        } else {
            None
        },
    }
}

/// One line's effect on the parser's state, or `None` on a malformed
/// line: blanks and comments change nothing, a table header switches
/// the section, a known entry records its value (later entries win),
/// and an unknown entry is ignored.
pub open spec fn apply_line(st: ParseSt, raw: Seq<char>) -> Option<ParseSt> {
    let l = strip_cr(raw);
    if l.len() == 0 {
        Some(st)
    } else if l[0] == '#' {
        Some(st)
    } else if l == "[server]"@ {
        Some(ParseSt { section: Section::Server, ..st })
    } else if l == "[client]"@ {
        Some(ParseSt { section: Section::Client, ..st })
    } else {
        match parse_key_value(l) {
            None => None,
            Some((k, v)) => if st.section is Server && k == "client_addr"@ {
                Some(ParseSt { client_addr: Some(v), ..st })
            } else if st.section is Server && k == "user_addr"@ {
                Some(ParseSt { user_addr: Some(v), ..st })
            } else if st.section is Client && k == "server_addr"@ {
                Some(ParseSt { server_addr: Some(v), ..st })
            } else if st.section is Client && k == "target_addr"@ {
                Some(ParseSt { target_addr: Some(v), ..st })
            } else {
                Some(st)
            },
        }
    }
}

/// Folds `apply_line` over the text, one line-feed-separated line at
/// a time.
pub open spec fn parse_lines(st: ParseSt, t: Seq<char>) -> Option<ParseSt>
    decreases t.len(),
    via parse_lines_decreases
{
    if t.len() == 0 {
        Some(st)
    } else {
        match find_from(t, 0, '\n') {
            None => apply_line(st, t),
            Some(i) => match apply_line(st, t.take(i)) {
                None => None,
                Some(st2) => parse_lines(st2, t.skip(i + 1)),
            },
        }
    }
}

#[via_fn]
proof fn parse_lines_decreases(st: ParseSt, t: Seq<char>) {
    if t.len() != 0 && find_from(t, 0, '\n') is Some {
        lemma_find_from_bounds(t, 0, '\n');
    }
}

/// Before the first line: no table entered, nothing seen.
pub open spec fn init_state() -> ParseSt {
    ParseSt {
        section: Section::Outside,
        client_addr: None,
        user_addr: None,
        server_addr: None,
        target_addr: None,
    }
}

/// What loading configuration text yields: the four addresses if the
/// text is well-formed and complete, else the exact reason it is not.
pub open spec fn spec_load(t: Seq<char>) -> Result<ConfigV, ConfigError> {
    match parse_lines(init_state(), t) {
        None => Err(ConfigError::Syntax),
        Some(st) => match (st.client_addr, st.user_addr, st.server_addr, st.target_addr) {
            (Some(ca), Some(ua), Some(sa), Some(ta)) => Ok(
                ConfigV {
                    server: ServerConfigV { client_addr: ca, user_addr: ua },
                    client: ClientConfigV { server_addr: sa, target_addr: ta },
                },
            ),
            _ => Err(ConfigError::MissingField),
        },
    }
}

/// A loaded `Config`, seen at the spec level.
pub open spec fn load_result_view(r: Result<Config, ConfigError>) -> Result<
    ConfigV,
    ConfigError,
> {
    match r {
        Ok(c) => Ok(c@),
        Err(e) => Err(e),
    }
}

/// The parser's exec state between lines.
struct ParseState {
    section: Section,
    client_addr: Option<String>,
    user_addr: Option<String>,
    server_addr: Option<String>,
    target_addr: Option<String>,
}

impl View for ParseState {
    type V = ParseSt;

    closed spec fn view(&self) -> ParseSt {
        ParseSt {
            section: self.section,
            client_addr: self.client_addr.deep_view(),
            user_addr: self.user_addr.deep_view(),
            server_addr: self.server_addr.deep_view(),
            target_addr: self.target_addr.deep_view(),
        }
    }
}

spec fn opt_state_view(r: Option<ParseState>) -> Option<ParseSt> {
    match r {
        Some(st) => Some(st@),
        None => None,
    }
}

/// First position of `c` in `s` at or after `from`.
fn find_char(s: &str, from: usize, c: char) -> (r: Option<usize>)
    requires
        from <= s@.len(),
    ensures
        match r {
            Some(i) => find_from(s@, from as int, c) == Some(i as int),
            None => find_from(s@, from as int, c) is None,
        },
{
    let n = s.unicode_len();
    let mut i: usize = from;
    while i < n
        invariant
            from <= i <= n,
            n == s@.len(),
            find_from(s@, from as int, c) == find_from(s@, i as int, c),
        decreases n - i,
    {
        if s.get_char(i) == c {
            return Some(i);
        }
        i = i + 1;
    }
    None
}

/// Character-for-character string equality.
fn str_eq(a: &str, b: &str) -> (r: bool)
    ensures
        r == (a@ == b@),
{
    let n = a.unicode_len();
    let m = b.unicode_len();
    if n != m {
        proof {
            if a@ == b@ {
                assert(a@.len() == b@.len());
            }
        }
        return false;
    }
    let mut i: usize = 0;
    while i < n
        invariant
            i <= n,
            n == a@.len(),
            n == b@.len(),
            forall|j: int| 0 <= j < i ==> a@[j] == b@[j],
        decreases n - i,
    {
        if a.get_char(i) != b.get_char(i) {
            proof {
                if a@ == b@ {
                    assert(a@[i as int] == b@[i as int]);
                }
            }
            return false;
        }
        i = i + 1;
    }
    proof {
        assert(a@ =~= b@);
    }
    true
}

/// One line's effect on the exec parser state.
fn apply_line_exec(st: ParseState, line: &str) -> (r: Option<ParseState>)
    ensures
        opt_state_view(r) == apply_line(st@, line@),
{
    let n = line.unicode_len();
    let l: &str = if n > 0 && line.get_char(n - 1) == '\r' {
        line.substring_char(0, n - 1)
    } else {
        line
    };
    proof {
        assert(l@ =~= strip_cr(line@));
    }
    let ln = l.unicode_len();
    if ln == 0 {
        return Some(st);
    }
    if l.get_char(0) == '#' {
        return Some(st);
    }
    if str_eq(l, "[server]") {
        return Some(ParseState { section: Section::Server, ..st });
    }
    if str_eq(l, "[client]") {
        return Some(ParseState { section: Section::Client, ..st });
    }
    match find_char(l, 0, ' ') {
        None => None,
        Some(i) => {
            proof {
                lemma_find_from_bounds(l@, 0, ' ');
            }
            if i >= 1 && ln - i >= 5 && l.get_char(i + 1) == '=' && l.get_char(i + 2) == ' '
                && l.get_char(i + 3) == '"' {
                let closing = find_char(l, i + 4, '"');
                let well_closed = match closing {
                    Some(j) => j == ln - 1,
                    None => false,
                };
                if well_closed {
                    let key = l.substring_char(0, i);
                    let value = l.substring_char(i + 4, ln - 1);
                    if st.section == Section::Server && str_eq(key, "client_addr") {
                        Some(ParseState { client_addr: Some(value.to_owned()), ..st })
                    } else if st.section == Section::Server && str_eq(key, "user_addr") {
                        Some(ParseState { user_addr: Some(value.to_owned()), ..st })
                    } else if st.section == Section::Client && str_eq(key, "server_addr") {
                        Some(ParseState { server_addr: Some(value.to_owned()), ..st })
                    } else if st.section == Section::Client && str_eq(key, "target_addr") {
                        Some(ParseState { target_addr: Some(value.to_owned()), ..st })
                    } else {
                        Some(st)
                    }
                } else {
                    None
                }
            } else {
                None
            }
        },
    }
}

/// Folds `apply_line_exec` over the text, line by line.
fn parse_lines_exec(st: ParseState, rest: &str) -> (r: Option<ParseState>)
    ensures
        opt_state_view(r) == parse_lines(st@, rest@),
    decreases rest@.len(),
{
    let n = rest.unicode_len();
    if n == 0 {
        return Some(st);
    }
    match find_char(rest, 0, '\n') {
        None => apply_line_exec(st, rest),
        Some(i) => {
            proof {
                lemma_find_from_bounds(rest@, 0, '\n');
            }
            let line = rest.substring_char(0, i);
            let tail = rest.substring_char(i + 1, n);
            match apply_line_exec(st, line) {
                None => None,
                Some(st2) => parse_lines_exec(st2, tail),
            }
        },
    }
}

impl Config {
    /// Turns configuration text into a `Config`: exactly the result
    /// of `spec_load` on the text — the four addresses when every
    /// line is well-formed and each table supplied its entries, a
    /// syntax error on the first malformed line, and a missing-field
    /// error when a complete read left an address unseen. Reading the
    /// file from disk is the thin caller's job.
    pub fn load(text: &str) -> (r: Result<Config, ConfigError>)
        ensures
            load_result_view(r) == spec_load(text@),
    {
        let st0 = ParseState {
            section: Section::Outside,
            client_addr: None,
            user_addr: None,
            server_addr: None,
            target_addr: None,
        };
        proof {
            assert(st0@ == init_state());
        }
        match parse_lines_exec(st0, text) {
            None => Err(ConfigError::Syntax),
            Some(st) => match (st.client_addr, st.user_addr, st.server_addr, st.target_addr) {
                (Some(ca), Some(ua), Some(sa), Some(ta)) => Ok(
                    Config {
                        server: ServerConfig { client_addr: ca, user_addr: ua },
                        client: ClientConfig { server_addr: sa, target_addr: ta },
                    },
                ),
                _ => Err(ConfigError::MissingField),
            },
        }
    }
}

} // verus!

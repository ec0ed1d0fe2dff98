//! Tor ControlPort protocol: configuration, replies, errors, and the parsers
//! and decisions of the control client.
//!
//! The client sends one single-line command at a time and reads the
//! synchronous reply: a single line (`250 OK`) or same-code continuations
//! (`250-...` ending with a final `250 ...`). Data replies (`250+`) and
//! asynchronous events are not supported.
use vstd::prelude::*;
use vstd::string::*;

use crate::logs::{ascii_lower, lower_char};
use crate::text::{
    char_debug_text, debug_char, debug_str, decimal, decimal_string, find, parse_unsigned,
    parse_unsigned_range, str_debug_text, trim_end_crlf, trim_end_crlf_len,
};

verus! {

/// How the client authenticates to the ControlPort.
#[derive(Debug, Clone, PartialEq, Eq)]
pub enum TorControlAuth {
    Null,
    Cookie { cookie_path: String },
}

/// Where the ControlPort is and how to authenticate to it.
#[derive(Debug, Clone, PartialEq, Eq)]
pub struct TorControlConfig {
    pub host: String,
    pub port: u16,
    pub auth: TorControlAuth,
}

/// The abstract ControlPort configuration: host text, port, and the cookie
/// path text for cookie authentication (`None` for null authentication).
pub struct ControlView {
    pub host: Seq<char>,
    pub port: u16,
    pub cookie_path: Option<Seq<char>>,
}

/// The cookie path text of an authentication method, `None` for null
/// authentication.
pub open spec fn auth_view(auth: TorControlAuth) -> Option<Seq<char>> {
    match auth {
        TorControlAuth::Null => None,
        TorControlAuth::Cookie { cookie_path } => Some(cookie_path@),
    }
}

impl View for TorControlConfig {
    type V = ControlView;

    open spec fn view(&self) -> ControlView {
        ControlView { host: self.host@, port: self.port, cookie_path: auth_view(self.auth) }
    }
}

impl TorControlConfig {
    /// A ControlPort configuration.
    pub fn new(host: &str, port: u16, auth: TorControlAuth) -> (c: Self)
        ensures
            c.host@ == host@,
            c.port == port,
            c.auth == auth,
    {
        Self { host: String::from_str(host), port, auth }
    }

    /// A ControlPort on `127.0.0.1`.
    pub fn localhost(port: u16, auth: TorControlAuth) -> (c: Self)
        ensures
            c.host@ == "127.0.0.1"@,
            c.port == port,
            c.auth == auth,
    {
        Self::new("127.0.0.1", port, auth)
    }
}

/// The texts of `lines` joined with `'\n'`.
pub open spec fn join_lines(lines: Seq<Seq<char>>) -> Seq<char>
    decreases lines.len(),
{
    if lines.len() == 0 {
        Seq::empty()
    } else if lines.len() == 1 {
        lines[0]
    } else {
        join_lines(lines.drop_last()) + seq!['\n'] + lines.last()
    }
}

/// The texts of a sequence of strings.
pub open spec fn texts(lines: Seq<String>) -> Seq<Seq<char>> {
    lines.map_values(|s: String| s@)
}

/// A complete ControlPort reply: its status code and the text of each line.
#[derive(Debug, Clone, PartialEq, Eq)]
pub struct TorControlReply {
    code: u16,
    lines: Vec<String>,
}

impl View for TorControlReply {
    type V = (u16, Seq<Seq<char>>);

    closed spec fn view(&self) -> (u16, Seq<Seq<char>>) {
        (self.code, texts(self.lines@))
    }
}

impl TorControlReply {
    /// A reply with the given code and line texts.
    pub fn new(code: u16, lines: Vec<String>) -> (r: Self)
        ensures
            r@ == (code, texts(lines@)),
    {
        Self { code, lines }
    }

    /// The status code.
    pub fn code(&self) -> (c: u16)
        ensures
            c == self@.0,
    {
        self.code
    }

    /// The line texts.
    pub fn lines(&self) -> (l: &[String])
        ensures
            texts(l@) == self@.1,
    {
        self.lines.as_slice()
    }

    /// The line texts joined with `'\n'`.
    pub fn message(&self) -> (m: String)
        ensures
            m@ == join_lines(self@.1),
    {
        let n = self.lines.len();
        if n == 0 {
            return String::new();
        }
        let mut m = self.lines[0].clone();
        let mut i: usize = 1;
        proof {
            assert(texts(self.lines@).subrange(0, 1) =~= seq![self.lines@[0]@]);
        }
        while i < n
            invariant
                1 <= i <= n,
                n == self.lines@.len(),
                m@ == join_lines(texts(self.lines@).subrange(0, i as int)),
            decreases n - i,
        {
            let ghost prev = texts(self.lines@).subrange(0, i as int);
            let ghost next = texts(self.lines@).subrange(0, i + 1);
            assert(next.drop_last() =~= prev);
            m.append("\n");
            proof {
                reveal_strlit("\n");
                assert("\n"@ =~= seq!['\n']);
            }
            m.append(self.lines[i].as_str());
            i = i + 1;
        }
        assert(texts(self.lines@).subrange(0, n as int) =~= texts(self.lines@));
        m
    }

    /// Whether the code is a success code (`200..300`).
    pub fn is_success(&self) -> (b: bool)
        ensures
            b == (200 <= self@.0 < 300),
    {
        200 <= self.code && self.code < 300
    }
}

/// The command that asks Tor for a new identity.
pub fn signal_newnym_command() -> (c: &'static str)
    ensures
        c@ == "SIGNAL NEWNYM"@,
{
    "SIGNAL NEWNYM"
}

/// The command that asks Tor for its bootstrap phase.
pub fn getinfo_bootstrap_phase_command() -> (c: &'static str)
    ensures
        c@ == "GETINFO status/bootstrap-phase"@,
{
    "GETINFO status/bootstrap-phase"
}

/// Bootstrap progress as Tor reports it through `GETINFO status/bootstrap-phase`.
#[derive(Debug, Clone, PartialEq, Eq)]
pub struct TorBootstrapPhase {
    pub(crate) progress: u8,
    pub(crate) tag: Option<String>,
    pub(crate) summary: Option<String>,
}

/// The text of an optional string.
pub open spec fn opt_text(s: Option<String>) -> Option<Seq<char>> {
    match s {
        Some(t) => Some(t@),
        None => None,
    }
}

impl View for TorBootstrapPhase {
    type V = (u8, Option<Seq<char>>, Option<Seq<char>>);

    closed spec fn view(&self) -> (u8, Option<Seq<char>>, Option<Seq<char>>) {
        (self.progress, opt_text(self.tag), opt_text(self.summary))
    }
}

impl TorBootstrapPhase {
    /// A bootstrap phase with the given progress, tag and summary.
    pub fn new(progress: u8, tag: Option<String>, summary: Option<String>) -> (p: Self)
        ensures
            p@ == (progress, opt_text(tag), opt_text(summary)),
    {
        Self { progress, tag, summary }
    }

    /// The progress percentage.
    pub fn progress(&self) -> (p: u8)
        ensures
            p == self@.0,
    {
        self.progress
    }

    /// The phase tag, such as `loading_descriptors`.
    pub fn tag(&self) -> (t: Option<&str>)
        ensures
            match t {
                Some(s) => self@.1 == Some(s@),
                None => self@.1 is None,
            },
    {
        match &self.tag {
            Some(s) => Some(s.as_str()),
            None => None,
        }
    }

    /// The human-readable summary.
    pub fn summary(&self) -> (t: Option<&str>)
        ensures
            match t {
                Some(s) => self@.2 == Some(s@),
                None => self@.2 is None,
            },
    {
        match &self.summary {
            Some(s) => Some(s.as_str()),
            None => None,
        }
    }
}

/// Errors of the ControlPort client. Operating-system errors are carried as
/// their text.
#[derive(Debug, Clone, PartialEq, Eq)]
pub enum TorControlError {
    MissingConfig,
    Connect { host: String, port: u16, source: String },
    AuthenticationFailed { code: u16, message: String },
    CommandFailed { code: u16, message: String },
    MalformedResponse { message: String },
    CookieRead { path: String, source: String },
    InvalidCookieLength { path: String },
    Io(String),
}

/// The text of a `TorControlError`.
pub open spec fn control_error_text(e: TorControlError) -> Seq<char> {
    match e {
        TorControlError::MissingConfig => "Tor ControlPort is not configured in TorRuntimeConfig"@,
        TorControlError::Connect { host, port, source } => "failed to connect to Tor ControlPort at "@
            + host@ + ":"@ + decimal(port as nat) + ": "@ + source@,
        TorControlError::AuthenticationFailed { code, message } =>
            "control port authentication failed with Tor code "@ + decimal(code as nat) + ": "@
            + message@,
        TorControlError::CommandFailed { code, message } =>
            "Tor ControlPort command failed with code "@ + decimal(code as nat) + ": "@ + message@,
        TorControlError::MalformedResponse { message } => "malformed ControlPort response: "@
            + message@,
        TorControlError::CookieRead { path, source } => "failed to read ControlPort cookie from "@
            + path@ + ": "@ + source@,
        TorControlError::InvalidCookieLength { path } => "ControlPort cookie at "@ + path@
            + " must be exactly 32 bytes"@,
        TorControlError::Io(source) => "ControlPort I/O error: "@ + source@,
    }
}

/// The abstract control error: `TorControlError` with each text as its
/// characters.
pub enum ControlErrorView {
    MissingConfig,
    Connect { host: Seq<char>, port: u16, source: Seq<char> },
    AuthenticationFailed { code: u16, message: Seq<char> },
    CommandFailed { code: u16, message: Seq<char> },
    MalformedResponse { message: Seq<char> },
    CookieRead { path: Seq<char>, source: Seq<char> },
    InvalidCookieLength { path: Seq<char> },
    Io(Seq<char>),
}

impl View for TorControlError {
    type V = ControlErrorView;

    open spec fn view(&self) -> ControlErrorView {
        match self {
            TorControlError::MissingConfig => ControlErrorView::MissingConfig,
            TorControlError::Connect { host, port, source } => ControlErrorView::Connect {
                host: host@,
                port: *port,
                source: source@,
            },
            TorControlError::AuthenticationFailed { code, message } =>
                ControlErrorView::AuthenticationFailed { code: *code, message: message@ },
            TorControlError::CommandFailed { code, message } => ControlErrorView::CommandFailed {
                code: *code,
                message: message@,
            },
            TorControlError::MalformedResponse { message } => ControlErrorView::MalformedResponse {
                message: message@,
            },
            TorControlError::CookieRead { path, source } => ControlErrorView::CookieRead {
                path: path@,
                source: source@,
            },
            TorControlError::InvalidCookieLength { path } => ControlErrorView::InvalidCookieLength {
                path: path@,
            },
            TorControlError::Io(source) => ControlErrorView::Io(source@),
        }
    }
}

impl TorControlError {
    /// The human-readable text of the error.
    pub fn message(&self) -> (m: String)
        ensures
            m@ == control_error_text(*self),
    {
        match self {
            TorControlError::MissingConfig => String::from_str(
                "Tor ControlPort is not configured in TorRuntimeConfig",
            ),
            TorControlError::Connect { host, port, source } => String::from_str(
                "failed to connect to Tor ControlPort at ",
            ).concat(host.as_str()).concat(":").concat(decimal_string(*port as u64).as_str()).concat(
                ": ",
            ).concat(source.as_str()),
            TorControlError::AuthenticationFailed { code, message } => String::from_str(
                "control port authentication failed with Tor code ",
            ).concat(decimal_string(*code as u64).as_str()).concat(": ").concat(message.as_str()),
            TorControlError::CommandFailed { code, message } => String::from_str(
                "Tor ControlPort command failed with code ",
            ).concat(decimal_string(*code as u64).as_str()).concat(": ").concat(message.as_str()),
            TorControlError::MalformedResponse { message } => String::from_str(
                "malformed ControlPort response: ",
            ).concat(message.as_str()),
            TorControlError::CookieRead { path, source } => String::from_str(
                "failed to read ControlPort cookie from ",
            ).concat(path.as_str()).concat(": ").concat(source.as_str()),
            TorControlError::InvalidCookieLength { path } => String::from_str(
                "ControlPort cookie at ",
            ).concat(path.as_str()).concat(" must be exactly 32 bytes"),
            TorControlError::Io(source) => String::from_str("ControlPort I/O error: ").concat(
                source.as_str(),
            ),
        }
    }
}

/// A malformed-response error with the given message.
pub open spec fn is_malformed(e: TorControlError, message: Seq<char>) -> bool {
    e matches TorControlError::MalformedResponse { message: m } && m@ == message
}

/// Number of bytes of the UTF-8 encoding of `c`.
pub open spec fn utf8_width(c: char) -> nat {
    if c as u32 <= 0x7f {
        1
    } else if c as u32 <= 0x7ff {
        2
    } else if c as u32 <= 0xffff {
        3
    } else {
        4
    }
}

/// Number of bytes of the UTF-8 encoding of `s`.
pub open spec fn utf8_length(s: Seq<char>) -> nat
    decreases s.len(),
{
    if s.len() == 0 {
        0
    } else {
        utf8_length(s.drop_last()) + utf8_width(s.last())
    }
}

/// The first byte of the UTF-8 encoding of `c`, read as a character (as
/// `bytes[i] as char` reads it).
pub open spec fn first_utf8_byte(c: char) -> char {
    if c as u32 <= 0x7f {
        c
    } else if c as u32 <= 0x7ff {
        ((0xc0u32 + (c as u32) / 64) as u8) as char
    } else if c as u32 <= 0xffff {
        ((0xe0u32 + (c as u32) / 4096) as u8) as char
    } else {
        ((0xf0u32 + (c as u32) / 262144) as u8) as char
    }
}

/// The inputs on which reading a reply line does not slice inside a
/// character: once trailing CR/LF are cut, the line is shorter than 4 bytes or
/// its first 3 bytes are whole characters.
pub open spec fn reply_line_slices_cleanly(line: Seq<char>) -> bool {
    let t = trim_end_crlf(line);
    utf8_length(t) < 4 || exists|k: int| 0 <= k <= t.len() && utf8_length(t.subrange(0, k)) == 3
}

/// What reading one reply line gives: its code, separator and text, or the
/// message of the malformed-response error. The line, without trailing CR/LF,
/// must be at least 4 bytes, start with a 3-character numeric code and have
/// `' '`, `'-'` or `'+'` as its fourth byte.
pub open spec fn reply_line_result(line: Seq<char>) -> Result<(u16, char, Seq<char>), Seq<char>> {
    let t = trim_end_crlf(line);
    if utf8_length(t) < 4 {
        Err("reply line is too short: "@ + str_debug_text(t))
    } else if !(t.len() >= 3 && utf8_length(t.subrange(0, 3)) == 3 && parse_unsigned(
        t.subrange(0, 3),
        65535,
    ) is Some) {
        Err("reply line does not start with a numeric code: "@ + str_debug_text(t))
    } else {
        let sep = first_utf8_byte(t[3]);
        if !(sep == ' ' || sep == '-' || sep == '+') {
            Err("unsupported reply separator "@ + char_debug_text(sep) + " in "@ + str_debug_text(t))
        } else {
            Ok(
                (
                    parse_unsigned(t.subrange(0, 3), 65535)->Some_0 as u16,
                    sep,
                    t.subrange(4, t.len() as int),
                ),
            )
        }
    }
}

/// One parsed reply line: code, separator (`' '` final, `'-'` continuation,
/// `'+'` data) and text.
#[derive(Debug, Clone, PartialEq, Eq)]
pub struct ParsedReplyLine {
    pub code: u16,
    pub separator: char,
    pub text: String,
}

proof fn lemma_utf8_length_prefix(s: Seq<char>, k: int)
    requires
        0 <= k <= s.len(),
    ensures
        utf8_length(s.subrange(0, k)) <= utf8_length(s),
    decreases s.len() - k,
{
    if k < s.len() {
        assert(s.subrange(0, k + 1).drop_last() =~= s.subrange(0, k));
        lemma_utf8_length_prefix(s, k + 1);
    } else {
        assert(s.subrange(0, k) =~= s);
    }
}

proof fn lemma_utf8_length_grows(s: Seq<char>, k: int)
    requires
        0 <= k < s.len(),
    ensures
        utf8_length(s.subrange(0, k + 1)) == utf8_length(s.subrange(0, k)) + utf8_width(s[k]),
{
    assert(s.subrange(0, k + 1).drop_last() =~= s.subrange(0, k));
}

fn char_utf8_width(c: char) -> (w: usize)
    ensures
        w == utf8_width(c),
{
    let v = c as u32;
    if v <= 0x7f {
        1
    } else if v <= 0x7ff {
        2
    } else if v <= 0xffff {
        3
    } else {
        4
    }
}

fn first_byte_char(c: char) -> (r: char)
    ensures
        r == first_utf8_byte(c),
{
    let v = c as u32;
    if v <= 0x7f {
        c
    } else if v <= 0x7ff {
        ((0xc0u32 + v / 64) as u8) as char
    } else if v <= 0xffff {
        ((0xe0u32 + v / 4096) as u8) as char
    } else {
        ((0xf0u32 + v / 262144) as u8) as char
    }
}

/// Whether the UTF-8 encoding of `t` is at least 4 bytes long.
fn utf8_at_least_4(t: &str) -> (b: bool)
    ensures
        b == (utf8_length(t@) >= 4),
{
    let n = t.unicode_len();
    let mut k: usize = 0;
    let mut acc: usize = 0;
    assert(t@.subrange(0, 0) =~= Seq::<char>::empty());
    while k < n && acc < 4
        invariant
            k <= n,
            n == t@.len(),
            acc == utf8_length(t@.subrange(0, k as int)),
            acc <= 8,
        decreases n - k,
    {
        proof {
            lemma_utf8_length_grows(t@, k as int);
        }
        acc = acc + char_utf8_width(t.get_char(k));
        k = k + 1;
    }
    proof {
        lemma_utf8_length_prefix(t@, k as int);
        if k == n {
            assert(t@.subrange(0, k as int) =~= t@);
        }
    }
    acc >= 4
}

/// Whether reading `line` as a reply line stays on character boundaries
/// (the condition of `parse_reply_line`).
pub fn reply_line_is_sliceable(line: &str) -> (b: bool)
    ensures
        b == reply_line_slices_cleanly(line@),
{
    let tlen = trim_end_crlf_len(line);
    let t = line.substring_char(0, tlen);
    let n = tlen;
    let mut k: usize = 0;
    let mut acc: usize = 0;
    assert(t@.subrange(0, 0) =~= Seq::<char>::empty());
    while k < n && acc < 3
        invariant
            k <= n,
            n == t@.len(),
            acc == utf8_length(t@.subrange(0, k as int)),
            acc <= 7,
            forall|j: int| 0 <= j < k ==> utf8_length(t@.subrange(0, j)) < 3,
        decreases n - k,
    {
        proof {
            lemma_utf8_length_grows(t@, k as int);
        }
        acc = acc + char_utf8_width(t.get_char(k));
        k = k + 1;
    }
    if acc == 3 {
        return true;
    }
    let long = utf8_at_least_4(t);
    proof {
        assert forall|j: int| 0 <= j <= t@.len() implies utf8_length(t@.subrange(0, j)) != 3 by {
            if j > k {
                lemma_utf8_length_monotone(t@, k as int, j);
            }
        }
    }
    !long
}

proof fn lemma_utf8_length_monotone(s: Seq<char>, a: int, b: int)
    requires
        0 <= a <= b <= s.len(),
    ensures
        utf8_length(s.subrange(0, a)) <= utf8_length(s.subrange(0, b)),
        a < b ==> utf8_length(s.subrange(0, a)) < utf8_length(s.subrange(0, b)),
    decreases b - a,
{
    if a < b {
        lemma_utf8_length_grows(s, b - 1);
        lemma_utf8_length_monotone(s, a, b - 1);
    }
}

/// Parses one ControlPort reply line into code, separator and text.
///
/// Trailing `'\r'` and `'\n'` are cut first. The line must then be at least
/// 4 bytes, start with a 3-character numeric code and have `' '`, `'-'` or
/// `'+'` as its fourth byte; otherwise the error is a malformed response.
pub fn parse_reply_line(line: &str) -> (r: Result<ParsedReplyLine, TorControlError>)
    requires
        reply_line_slices_cleanly(line@),
    ensures
        match reply_line_result(line@) {
            Ok((code, sep, text)) => r matches Ok(p) && p.code == code && p.separator == sep
                && p.text@ == text,
            Err(message) => r matches Err(e) && is_malformed(e, message),
        },
{
    let tlen = trim_end_crlf_len(line);
    let t = line.substring_char(0, tlen);
    let ghost tv = trim_end_crlf(line@);
    assert(t@ == tv);
    if !utf8_at_least_4(t) {
        let message = String::from_str("reply line is too short: ").concat(debug_str(t).as_str());
        return Err(TorControlError::MalformedResponse { message });
    }
    let numeric_prefix = tlen >= 3 && (t.get_char(0) as u32) <= 0x7f && (t.get_char(1) as u32)
        <= 0x7f && (t.get_char(2) as u32) <= 0x7f;
    proof {
        if tlen >= 3 {
            lemma_utf8_length_grows(tv, 0);
            lemma_utf8_length_grows(tv, 1);
            lemma_utf8_length_grows(tv, 2);
            assert(tv.subrange(0, 0) =~= Seq::<char>::empty());
        }
    }
    let code = if numeric_prefix {
        parse_unsigned_range(t, 0, 3, 65535)
    } else {
        None
    };
    let code = match code {
        Some(c) => c as u16,
        None => {
            let message = String::from_str("reply line does not start with a numeric code: ").concat(
                debug_str(t).as_str(),
            );
            return Err(TorControlError::MalformedResponse { message });
        },
    };
    proof {
        if tlen < 4 {
            lemma_utf8_length_grows(tv, 0);
            lemma_utf8_length_grows(tv, 1);
            lemma_utf8_length_grows(tv, 2);
            assert(tv.subrange(0, 3) =~= tv);
        }
    }
    let separator = first_byte_char(t.get_char(3));
    if !(separator == ' ' || separator == '-' || separator == '+') {
        let message = String::from_str("unsupported reply separator ").concat(
            debug_char(separator).as_str(),
        ).concat(" in ").concat(debug_str(t).as_str());
        return Err(TorControlError::MalformedResponse { message });
    }
    let text = String::from_str(t.substring_char(4, tlen));
    Ok(ParsedReplyLine { code, separator, text })
}


/// The message of the error for `250+` data replies.
pub open spec fn data_reply_message() -> Seq<char> {
    "ControlPort data replies are not supported by this foundation layer"@
}

/// The message of the error for a continuation line whose code differs from
/// the first line's.
pub open spec fn code_mismatch_message(expected: u16, got: u16) -> Seq<char> {
    "expected reply code "@ + decimal(expected as nat) + " in continuation, got "@ + decimal(
        got as nat,
    )
}

/// The message of the error for a reply cut short by the end of the stream.
pub open spec fn eof_message() -> Seq<char> {
    "unexpected EOF while reading ControlPort response"@
}

/// Progress of reading one reply, line by line.
#[derive(Debug)]
pub enum ReplyProgress {
    /// More lines are needed.
    NeedMore,
    /// The reply is complete.
    Complete(TorControlReply),
    /// The reply is malformed.
    Failed(TorControlError),
}

/// Reads one reply from its lines: the first line gives the code; `'-'`
/// lines continue it with the same code; a `' '` line ends it; a `'+'` line
/// (data reply) is refused.
pub struct ReplyAssembler {
    code: Option<u16>,
    lines: Vec<String>,
}

impl View for ReplyAssembler {
    type V = (Option<u16>, Seq<Seq<char>>);

    closed spec fn view(&self) -> (Option<u16>, Seq<Seq<char>>) {
        (self.code, texts(self.lines@))
    }
}

/// The outcome of feeding `line` to an assembler in state `s`: the next state
/// and the progress. `Ok(None)` means more lines are needed; `Ok(Some(reply))`
/// is the complete reply; `Err(message)` is a malformed response.
pub open spec fn feed_result(s: (Option<u16>, Seq<Seq<char>>), line: Seq<char>) -> (
    (Option<u16>, Seq<Seq<char>>),
    Result<Option<(u16, Seq<Seq<char>>)>, Seq<char>>,
) {
    match reply_line_result(line) {
        Err(m) => (s, Err(m)),
        Ok((c, sep, text)) => match s.0 {
            None => if sep == '+' {
                (s, Err(data_reply_message()))
            } else if sep == ' ' {
                (s, Ok(Some((c, seq![text]))))
            } else {
                ((Some(c), seq![text]), Ok(None))
            },
            Some(code) => if c != code {
                (s, Err(code_mismatch_message(code, c)))
            } else if sep == '+' {
                (s, Err(data_reply_message()))
            } else if sep == ' ' {
                (s, Ok(Some((code, s.1.push(text)))))
            } else {
                ((Some(code), s.1.push(text)), Ok(None))
            },
        },
    }
}

impl ReplyAssembler {
    /// An assembler that has read nothing yet.
    pub fn new() -> (a: Self)
        ensures
            a@ == (None::<u16>, Seq::<Seq<char>>::empty()),
    {
        ReplyAssembler { code: None, lines: Vec::new() }
    }

    /// Feeds the next line of the reply.
    pub fn feed(&mut self, line: &str) -> (p: ReplyProgress)
        requires
            reply_line_slices_cleanly(line@),
        ensures
            final(self)@ == feed_result(old(self)@, line@).0,
            match feed_result(old(self)@, line@).1 {
                Ok(None) => p is NeedMore,
                Ok(Some(reply)) => p matches ReplyProgress::Complete(r) && r@ == reply,
                Err(m) => p matches ReplyProgress::Failed(e) && is_malformed(e, m),
            },
    {
        let parsed = match parse_reply_line(line) {
            Ok(p) => p,
            Err(e) => return ReplyProgress::Failed(e),
        };
        match self.code {
            None => {
                if parsed.separator == '+' {
                    return ReplyProgress::Failed(data_reply_error());
                }
                let mut lines = Vec::new();
                lines.push(parsed.text);
                proof {
                    assert(texts(lines@) =~= seq![parsed.text@]);
                }
                if parsed.separator == ' ' {
                    return ReplyProgress::Complete(TorControlReply::new(parsed.code, lines));
                }
                self.code = Some(parsed.code);
                self.lines = lines;
                ReplyProgress::NeedMore
            },
            Some(code) => {
                if parsed.code != code {
                    let message = String::from_str("expected reply code ").concat(
                        decimal_string(code as u64).as_str(),
                    ).concat(" in continuation, got ").concat(
                        decimal_string(parsed.code as u64).as_str(),
                    );
                    return ReplyProgress::Failed(TorControlError::MalformedResponse { message });
                }
                if parsed.separator == '+' {
                    return ReplyProgress::Failed(data_reply_error());
                }
                let is_final = parsed.separator == ' ';
                let ghost before = self.lines@;
                let mut lines = self.lines.clone();
                lines.push(parsed.text);
                proof {
                    assert(texts(lines@) =~= texts(before).push(parsed.text@));
                }
                if is_final {
                    return ReplyProgress::Complete(TorControlReply::new(code, lines));
                }
                self.lines = lines;
                ReplyProgress::NeedMore
            },
        }
    }
}

fn data_reply_error() -> (e: TorControlError)
    ensures
        is_malformed(e, data_reply_message()),
{
    TorControlError::MalformedResponse {
        message: String::from_str(
            "ControlPort data replies are not supported by this foundation layer",
        ),
    }
}

/// The error for a reply cut short by the end of the stream.
pub fn eof_error() -> (e: TorControlError)
    ensures
        is_malformed(e, eof_message()),
{
    TorControlError::MalformedResponse {
        message: String::from_str("unexpected EOF while reading ControlPort response"),
    }
}

/// The error when a command is sent with no open connection.
pub fn no_connection_error() -> (e: TorControlError)
    ensures
        is_malformed(e, "no active ControlPort connection"@),
{
    TorControlError::MalformedResponse {
        message: String::from_str("no active ControlPort connection"),
    }
}

/// Whether `command` fits in one ControlPort frame: it holds no `'\r'` and no
/// `'\n'`.
pub open spec fn is_single_line(command: Seq<char>) -> bool {
    forall|i: int| 0 <= i < command.len() ==> command[i] != '\r' && command[i] != '\n'
}

/// Refuses a command that would not fit in one ControlPort frame.
pub fn check_command_frame(command: &str) -> (r: Result<(), TorControlError>)
    ensures
        r is Ok <==> is_single_line(command@),
        r matches Err(e) ==> is_malformed(e, "commands must be single-line ControlPort frames"@),
{
    let n = command.unicode_len();
    let mut i: usize = 0;
    while i < n
        invariant
            i <= n,
            n == command@.len(),
            forall|j: int| 0 <= j < i ==> command@[j] != '\r' && command@[j] != '\n',
        decreases n - i,
    {
        let c = command.get_char(i);
        if c == '\r' || c == '\n' {
            return Err(TorControlError::MalformedResponse {
                message: String::from_str("commands must be single-line ControlPort frames"),
            });
        }
        i = i + 1;
    }
    Ok(())
}

/// What a command's reply means: the reply itself on a success code, else a
/// `CommandFailed` error with the code and the joined lines.
pub fn command_reply_outcome(reply: TorControlReply) -> (r: Result<TorControlReply, TorControlError>)
    ensures
        200 <= reply@.0 < 300 ==> (r matches Ok(ok) && ok@ == reply@),
        !(200 <= reply@.0 < 300) ==> (r matches Err(TorControlError::CommandFailed { code, message })
            && code == reply@.0 && message@ == join_lines(reply@.1)),
{
    if reply.is_success() {
        Ok(reply)
    } else {
        Err(TorControlError::CommandFailed { code: reply.code(), message: reply.message() })
    }
}

/// What the reply to `AUTHENTICATE` means: success, or the command failure
/// reported as an authentication failure; other errors pass through.
pub fn authentication_outcome(result: Result<TorControlReply, TorControlError>) -> (r: Result<
    (),
    TorControlError,
>)
    ensures
        result is Ok ==> r is Ok,
        result matches Err(TorControlError::CommandFailed { code, message }) ==> r == Err::<
            (),
            TorControlError,
        >(TorControlError::AuthenticationFailed { code, message }),
        result matches Err(e) ==> (!(e is CommandFailed) ==> r == Err::<(), TorControlError>(e)),
{
    match result {
        Ok(_) => Ok(()),
        Err(TorControlError::CommandFailed { code, message }) => Err(
            TorControlError::AuthenticationFailed { code, message },
        ),
        Err(error) => Err(error),
    }
}

/// The upper-case hexadecimal digit for `n < 16`.
pub open spec fn hex_digit(n: nat) -> char {
    if n < 10 {
        ('0' as int + n) as char
    } else {
        ('A' as int + n - 10) as char
    }
}

/// The upper-case hexadecimal text of `bytes`, two digits per byte, as
/// `format!("{byte:02X}")` writes each.
pub open spec fn hex_upper(bytes: Seq<u8>) -> Seq<char>
    decreases bytes.len(),
{
    if bytes.len() == 0 {
        Seq::empty()
    } else {
        hex_upper(bytes.drop_last()) + seq![
            hex_digit((bytes.last() / 16) as nat),
            hex_digit((bytes.last() % 16) as nat),
        ]
    }
}

fn hex_digit_str(n: u8) -> (s: &'static str)
    requires
        n < 16,
    ensures
        s@ == seq![hex_digit(n as nat)],
{
    proof {
        reveal_strlit("0");
        reveal_strlit("1");
        reveal_strlit("2");
        reveal_strlit("3");
        reveal_strlit("4");
        reveal_strlit("5");
        reveal_strlit("6");
        reveal_strlit("7");
        reveal_strlit("8");
        reveal_strlit("9");
        reveal_strlit("A");
        reveal_strlit("B");
        reveal_strlit("C");
        reveal_strlit("D");
        reveal_strlit("E");
        reveal_strlit("F");
    }
    let s = if n == 0 {
        "0"
    } else if n == 1 {
        "1"
    } else if n == 2 {
        "2"
    } else if n == 3 {
        "3"
    } else if n == 4 {
        "4"
    } else if n == 5 {
        "5"
    } else if n == 6 {
        "6"
    } else if n == 7 {
        "7"
    } else if n == 8 {
        "8"
    } else if n == 9 {
        "9"
    } else if n == 10 {
        "A"
    } else if n == 11 {
        "B"
    } else if n == 12 {
        "C"
    } else if n == 13 {
        "D"
    } else if n == 14 {
        "E"
    } else {
        "F"
    };
    assert(s@ =~= seq![hex_digit(n as nat)]);
    s
}

/// Upper-case hexadecimal encoding of `bytes`.
pub fn encode_hex(bytes: &[u8]) -> (s: String)
    ensures
        s@ == hex_upper(bytes@),
{
    let mut encoded = String::new();
    let n = bytes.len();
    let mut i: usize = 0;
    assert(bytes@.subrange(0, 0) =~= Seq::<u8>::empty());
    while i < n
        invariant
            i <= n,
            n == bytes@.len(),
            encoded@ == hex_upper(bytes@.subrange(0, i as int)),
        decreases n - i,
    {
        let b = bytes[i];
        let ghost prefix = bytes@.subrange(0, i + 1);
        assert(prefix.drop_last() =~= bytes@.subrange(0, i as int));
        encoded.append(hex_digit_str(b / 16));
        encoded.append(hex_digit_str(b % 16));
        proof {
            assert(encoded@ =~= hex_upper(prefix));
        }
        i = i + 1;
    }
    assert(bytes@.subrange(0, n as int) =~= bytes@);
    encoded
}

/// The `AUTHENTICATE` command for null authentication.
pub fn null_authenticate_command() -> (c: String)
    ensures
        c@ == "AUTHENTICATE"@,
{
    String::from_str("AUTHENTICATE")
}

/// The `AUTHENTICATE` command for cookie authentication, from the cookie read
/// at `cookie_path`: the cookie must be exactly 32 bytes and is sent in
/// upper-case hexadecimal.
pub fn cookie_authenticate_command(cookie_path: &str, cookie: &[u8]) -> (r: Result<
    String,
    TorControlError,
>)
    ensures
        cookie@.len() == 32 ==> (r matches Ok(c) && c@ == "AUTHENTICATE "@ + hex_upper(cookie@)),
        cookie@.len() != 32 ==> (r matches Err(TorControlError::InvalidCookieLength { path })
            && path@ == cookie_path@),
{
    if cookie.len() != 32 {
        return Err(TorControlError::InvalidCookieLength { path: String::from_str(cookie_path) });
    }
    Ok(String::from_str("AUTHENTICATE ").concat(encode_hex(cookie).as_str()))
}


/// The tokens of a ControlPort key/value payload, read from index `i` with
/// the tokens found so far, the token being built and whether a quote is
/// open. Unquoted spaces and tabs separate tokens; `'"'` opens and closes
/// quotes and is dropped; `'\\'` takes the next character literally.
pub open spec fn split_tokens_from(
    input: Seq<char>,
    i: int,
    tokens: Seq<Seq<char>>,
    current: Seq<char>,
    in_quotes: bool,
) -> Result<Seq<Seq<char>>, Seq<char>>
    decreases input.len() - i,
{
    if i < 0 || i >= input.len() {
        if in_quotes {
            Err("unterminated quote in control reply"@)
        } else if current.len() > 0 {
            Ok(tokens.push(current))
        } else {
            Ok(tokens)
        }
    } else {
        let ch = input[i];
        if ch == '"' {
            split_tokens_from(input, i + 1, tokens, current, !in_quotes)
        } else if ch == '\\' {
            if i + 1 >= input.len() {
                Err("dangling escape in control reply"@)
            } else {
                split_tokens_from(input, i + 2, tokens, current.push(input[i + 1]), in_quotes)
            }
        } else if (ch == ' ' || ch == '\t') && !in_quotes {
            if current.len() > 0 {
                split_tokens_from(input, i + 1, tokens.push(current), Seq::empty(), in_quotes)
            } else {
                split_tokens_from(input, i + 1, tokens, current, in_quotes)
            }
        } else {
            split_tokens_from(input, i + 1, tokens, current.push(ch), in_quotes)
        }
    }
}

/// The tokens of a ControlPort key/value payload, or the message of the
/// malformed-response error (dangling escape, unterminated quote).
pub open spec fn split_tokens(input: Seq<char>) -> Result<Seq<Seq<char>>, Seq<char>> {
    split_tokens_from(input, 0, Seq::empty(), Seq::empty(), false)
}

/// Splits a ControlPort key/value payload into tokens, honouring quotes and
/// backslash escapes.
pub fn split_control_kv_tokens(input: &str) -> (r: Result<Vec<String>, TorControlError>)
    ensures
        match split_tokens(input@) {
            Ok(tokens) => r matches Ok(v) && texts(v@) == tokens,
            Err(m) => r matches Err(e) && is_malformed(e, m),
        },
{
    let n = input.unicode_len();
    let mut tokens: Vec<String> = Vec::new();
    let mut current = String::new();
    let mut in_quotes = false;
    let mut i: usize = 0;
    assert(texts(tokens@) =~= Seq::<Seq<char>>::empty());
    while i < n
        invariant
            i <= n,
            n == input@.len(),
            split_tokens(input@) == split_tokens_from(
                input@,
                i as int,
                texts(tokens@),
                current@,
                in_quotes,
            ),
        decreases n - i,
    {
        let ch = input.get_char(i);
        let ghost t0 = texts(tokens@);
        let ghost c0 = current@;
        let ghost q0 = in_quotes;
        if ch == '"' {
            in_quotes = !in_quotes;
            i = i + 1;
            assert(split_tokens_from(input@, i - 1, t0, c0, q0) == split_tokens_from(input@, i as int, t0, c0, !q0));
        } else if ch == '\\' {
            if i + 1 >= n {
                return Err(TorControlError::MalformedResponse {
                    message: String::from_str("dangling escape in control reply"),
                });
            }
            current.append(input.substring_char(i + 1, i + 2));
            proof {
                assert(input@.subrange(i + 1, i + 2) =~= seq![input@[i + 1]]);
                assert(current@ =~= c0.push(input@[i + 1]));
            }
            i = i + 2;
        } else if (ch == ' ' || ch == '\t') && !in_quotes {
            if current.unicode_len() > 0 {
                let ghost before = tokens@;
                tokens.push(current);
                current = String::new();
                proof {
                    assert(texts(tokens@) =~= texts(before).push(tokens@.last()@));
                    assert(split_tokens_from(input@, i as int, t0, c0, q0) == split_tokens_from(input@, i + 1, t0.push(c0), Seq::empty(), q0));
                }
            } else {
                assert(split_tokens_from(input@, i as int, t0, c0, q0) == split_tokens_from(input@, i + 1, t0, c0, q0));
            }
            i = i + 1;
        } else {
            current.append(input.substring_char(i, i + 1));
            proof {
                assert(input@.subrange(i as int, i + 1) =~= seq![ch]);
                assert(current@ =~= c0.push(ch));
            }
            i = i + 1;
        }
    }
    if in_quotes {
        return Err(TorControlError::MalformedResponse {
            message: String::from_str("unterminated quote in control reply"),
        });
    }
    if current.unicode_len() > 0 {
        let ghost before = tokens@;
        tokens.push(current);
        proof {
            assert(texts(tokens@) =~= texts(before).push(tokens@.last()@));
        }
    }
    Ok(tokens)
}

/// Every token is non-empty.
pub proof fn lemma_tokens_nonempty(
    input: Seq<char>,
    i: int,
    tokens: Seq<Seq<char>>,
    current: Seq<char>,
    in_quotes: bool,
)
    requires
        forall|k: int| 0 <= k < tokens.len() ==> tokens[k].len() > 0,
    ensures
        split_tokens_from(input, i, tokens, current, in_quotes) matches Ok(out) ==> forall|k: int|
            0 <= k < out.len() ==> out[k].len() > 0,
    decreases input.len() - i,
{
    if i < 0 || i >= input.len() {
    } else {
        let ch = input[i];
        if ch == '"' {
            lemma_tokens_nonempty(input, i + 1, tokens, current, !in_quotes);
        } else if ch == '\\' {
            if i + 1 < input.len() {
                lemma_tokens_nonempty(input, i + 2, tokens, current.push(input[i + 1]), in_quotes);
            }
        } else if (ch == ' ' || ch == '\t') && !in_quotes {
            if current.len() > 0 {
                lemma_tokens_nonempty(input, i + 1, tokens.push(current), Seq::empty(), in_quotes);
            } else {
                lemma_tokens_nonempty(input, i + 1, tokens, current, in_quotes);
            }
        } else {
            lemma_tokens_nonempty(input, i + 1, tokens, current.push(ch), in_quotes);
        }
    }
}

/// The tokens that `split_control_kv_tokens` returns are never empty.
pub proof fn lemma_split_tokens_nonempty(input: Seq<char>)
    ensures
        split_tokens(input) matches Ok(out) ==> forall|k: int|
            0 <= k < out.len() ==> out[k].len() > 0,
{
    lemma_tokens_nonempty(input, 0, Seq::empty(), Seq::empty(), false);
}


/// The prefix `"status/bootstrap-phase="` of the bootstrap-phase reply line.
pub open spec fn bootstrap_phase_prefix() -> Seq<char> {
    seq![
        's', 't', 'a', 't', 'u', 's', '/', 'b', 'o', 'o', 't', 's', 't', 'r', 'a', 'p', '-',
        'p', 'h', 'a', 's', 'e', '=',
    ]
}

/// Whether `s` starts with `p`.
pub open spec fn starts_with(s: Seq<char>, p: Seq<char>) -> bool {
    p.len() <= s.len() && s.subrange(0, p.len() as int) == p
}

/// The index of the first line, from index `i`, that starts with `p`.
pub open spec fn first_line_with_prefix(lines: Seq<Seq<char>>, p: Seq<char>, i: int) -> Option<
    int,
>
    decreases lines.len() - i,
{
    if i < 0 || i >= lines.len() {
        None
    } else if starts_with(lines[i], p) {
        Some(i)
    } else {
        first_line_with_prefix(lines, p, i + 1)
    }
}

/// Whether `a` and `b` are equal once ASCII letters are lower-cased, as
/// `eq_ignore_ascii_case` decides.
pub open spec fn eq_ignore_ascii_case(a: Seq<char>, b: Seq<char>) -> bool {
    a.len() == b.len() && forall|i: int| 0 <= i < a.len() ==> ascii_lower(a[i]) == ascii_lower(
        b[i],
    )
}

/// A token split at its first `'='` into key and value.
pub open spec fn split_key_value(token: Seq<char>) -> Option<(Seq<char>, Seq<char>)> {
    match find(token, seq!['=']) {
        Some(j) => Some((token.subrange(0, j), token.subrange(j + 1, token.len() as int))),
        None => None,
    }
}

/// Progress, tag and summary found so far.
pub type PhaseFields = (Option<u8>, Option<Seq<char>>, Option<Seq<char>>);

/// Reads one token: a `PROGRESS`, `TAG` or `SUMMARY` key (in any letter case)
/// sets its field; tokens without `'='` and other keys change nothing. A
/// `PROGRESS` that is no `u8`, or exceeds `100`, is the message of a
/// malformed-response error.
pub open spec fn phase_token_step(token: Seq<char>, acc: PhaseFields) -> Result<
    PhaseFields,
    Seq<char>,
> {
    match split_key_value(token) {
        None => Ok(acc),
        Some((key, value)) => if eq_ignore_ascii_case(
            key,
            seq!['P', 'R', 'O', 'G', 'R', 'E', 'S', 'S'],
        ) {
            match parse_unsigned(value, 255) {
                None => Err("invalid bootstrap progress value: "@ + str_debug_text(value)),
                Some(p) => if p > 100 {
                    Err("bootstrap progress out of range: "@ + decimal(p))
                } else {
                    Ok((Some(p as u8), acc.1, acc.2))
                },
            }
        } else if eq_ignore_ascii_case(key, seq!['T', 'A', 'G']) {
            Ok((acc.0, Some(value), acc.2))
        } else if eq_ignore_ascii_case(key, seq!['S', 'U', 'M', 'M', 'A', 'R', 'Y']) {
            Ok((acc.0, acc.1, Some(value)))
        } else {
            Ok(acc)
        },
    }
}

/// Reads the tokens from index `i` in order; a later key overrides an
/// earlier one; the first refused token ends the reading.
pub open spec fn phase_fields_from(tokens: Seq<Seq<char>>, i: int, acc: PhaseFields) -> Result<
    PhaseFields,
    Seq<char>,
>
    decreases tokens.len() - i,
{
    if i < 0 || i >= tokens.len() {
        Ok(acc)
    } else {
        match phase_token_step(tokens[i], acc) {
            Ok(next) => phase_fields_from(tokens, i + 1, next),
            Err(m) => Err(m),
        }
    }
}

/// What reading a `GETINFO status/bootstrap-phase` reply gives: from the
/// first line starting with `status/bootstrap-phase=`, the progress, tag and
/// summary of its key/value tokens; or the message of the malformed-response
/// error (no such line, bad tokens, bad or missing `PROGRESS`).
pub open spec fn bootstrap_phase_result(lines: Seq<Seq<char>>) -> Result<
    (u8, Option<Seq<char>>, Option<Seq<char>>),
    Seq<char>,
> {
    match first_line_with_prefix(lines, bootstrap_phase_prefix(), 0) {
        None => Err("missing status/bootstrap-phase line in GETINFO reply"@),
        Some(i) => {
            let payload = lines[i].subrange(23, lines[i].len() as int);
            match split_tokens(payload) {
                Err(m) => Err(m),
                Ok(tokens) => match phase_fields_from(tokens, 0, (None, None, None)) {
                    Err(m) => Err(m),
                    Ok(fields) => match fields.0 {
                        None => Err("missing PROGRESS in status/bootstrap-phase reply"@),
                        Some(p) => Ok((p, fields.1, fields.2)),
                    },
                },
            }
        },
    }
}

fn find_prefixed_line(lines: &[String], prefix: &str) -> (r: Option<usize>)
    ensures
        r matches Some(i) ==> first_line_with_prefix(texts(lines@), prefix@, 0) == Some(i as int)
            && i < lines@.len(),
        r is None ==> first_line_with_prefix(texts(lines@), prefix@, 0) is None,
{
    let ghost all = texts(lines@);
    let n = lines.len();
    let mut i: usize = 0;
    while i < n
        invariant
            i <= n,
            n == lines@.len(),
            all == texts(lines@),
            first_line_with_prefix(all, prefix@, 0) == first_line_with_prefix(
                all,
                prefix@,
                i as int,
            ),
        decreases n - i,
    {
        assert(all[i as int] == lines@[i as int]@);
        if starts_with_exec(lines[i].as_str(), prefix) {
            return Some(i);
        }
        i = i + 1;
    }
    None
}

fn starts_with_exec(s: &str, p: &str) -> (b: bool)
    ensures
        b == starts_with(s@, p@),
{
    let n = p.unicode_len();
    let len = s.unicode_len();
    if n > len {
        return false;
    }
    let r = crate::text::matches_at_exec(s, p, 0);
    r
}

/// Whether `key` equals the literal `lit` ignoring ASCII case.
fn key_is(key: &str, lit: &str) -> (b: bool)
    ensures
        b == eq_ignore_ascii_case(key@, lit@),
{
    let n = key.unicode_len();
    if n != lit.unicode_len() {
        return false;
    }
    let mut i: usize = 0;
    while i < n
        invariant
            i <= n,
            n == key@.len(),
            n == lit@.len(),
            forall|j: int| 0 <= j < i ==> ascii_lower(key@[j]) == ascii_lower(lit@[j]),
        decreases n - i,
    {
        if lower_char(key.get_char(i)) != lower_char(lit.get_char(i)) {
            return false;
        }
        i = i + 1;
    }
    true
}

/// Applies one token of the bootstrap-phase payload to the fields read so far.
fn apply_phase_token(
    token: &str,
    progress: Option<u8>,
    tag: Option<String>,
    summary: Option<String>,
) -> (r: Result<(Option<u8>, Option<String>, Option<String>), TorControlError>)
    ensures
        match phase_token_step(token@, (progress, opt_text(tag), opt_text(summary))) {
            Ok(next) => r matches Ok(f) && (f.0, opt_text(f.1), opt_text(f.2)) == next,
            Err(m) => r matches Err(e) && is_malformed(e, m),
        },
{
    proof {
        reveal_strlit("PROGRESS");
        reveal_strlit("TAG");
        reveal_strlit("SUMMARY");
        assert("PROGRESS"@ =~= seq!['P', 'R', 'O', 'G', 'R', 'E', 'S', 'S']);
        assert("TAG"@ =~= seq!['T', 'A', 'G']);
        assert("SUMMARY"@ =~= seq!['S', 'U', 'M', 'M', 'A', 'R', 'Y']);
    }
    let tlen = token.unicode_len();
    let j = match crate::text::find_char(token, '=') {
        None => return Ok((progress, tag, summary)),
        Some(j) => j,
    };
    proof {
        crate::text::lemma_find_from(token@, seq!['='], 0);
    }
    let key = token.substring_char(0, j);
    let value = token.substring_char(j + 1, tlen);
    assert(split_key_value(token@) == Some((key@, value@)));
    if key_is(key, "PROGRESS") {
        let vlen = value.unicode_len();
        assert(value@.subrange(0, vlen as int) =~= value@);
        let parsed = match parse_unsigned_range(value, 0, vlen, 255) {
            Some(p) => p,
            None => {
                return Err(TorControlError::MalformedResponse {
                    message: String::from_str("invalid bootstrap progress value: ").concat(
                        debug_str(value).as_str(),
                    ),
                });
            },
        };
        if parsed > 100 {
            return Err(TorControlError::MalformedResponse {
                message: String::from_str("bootstrap progress out of range: ").concat(
                    decimal_string(parsed as u64).as_str(),
                ),
            });
        }
        Ok((Some(parsed as u8), tag, summary))
    } else if key_is(key, "TAG") {
        Ok((progress, Some(String::from_str(value)), summary))
    } else if key_is(key, "SUMMARY") {
        Ok((progress, tag, Some(String::from_str(value))))
    } else {
        Ok((progress, tag, summary))
    }
}

/// Reads the bootstrap phase from a `GETINFO status/bootstrap-phase` reply.
pub fn parse_bootstrap_phase_reply(reply: &TorControlReply) -> (r: Result<
    TorBootstrapPhase,
    TorControlError,
>)
    ensures
        match bootstrap_phase_result(reply@.1) {
            Ok(fields) => r matches Ok(phase) && phase@ == fields,
            Err(m) => r matches Err(e) && is_malformed(e, m),
        },
{
    proof {
        reveal_strlit("status/bootstrap-phase=");
    }
    let prefix = "status/bootstrap-phase=";
    assert(prefix@ =~= bootstrap_phase_prefix());
    let lines = reply.lines();
    let ghost all = reply@.1;
    let i = match find_prefixed_line(lines, prefix) {
        Some(i) => i,
        None => {
            return Err(TorControlError::MalformedResponse {
                message: String::from_str("missing status/bootstrap-phase line in GETINFO reply"),
            });
        },
    };
    proof {
        lemma_first_line_with_prefix(all, bootstrap_phase_prefix(), 0);
    }
    let line = lines[i].as_str();
    assert(line@ == all[i as int]);
    let len = line.unicode_len();
    let payload = line.substring_char(23, len);
    let tokens = match split_control_kv_tokens(payload) {
        Ok(t) => t,
        Err(e) => return Err(e),
    };
    let ghost tok = texts(tokens@);
    let mut progress: Option<u8> = None;
    let mut tag: Option<String> = None;
    let mut summary: Option<String> = None;
    let count = tokens.len();
    let mut k: usize = 0;
    while k < count
        invariant
            k <= count,
            count == tokens@.len(),
            tok == texts(tokens@),
            all == reply@.1,
            i < all.len(),
            23 <= all[i as int].len(),
            first_line_with_prefix(all, bootstrap_phase_prefix(), 0) == Some(i as int),
            split_tokens(all[i as int].subrange(23, all[i as int].len() as int)) == Ok::<
                Seq<Seq<char>>,
                Seq<char>,
            >(tok),
            phase_fields_from(tok, 0, (None, None, None)) == phase_fields_from(
                tok,
                k as int,
                (progress, opt_text(tag), opt_text(summary)),
            ),
        decreases count - k,
    {
        let token = tokens[k].as_str();
        assert(token@ == tok[k as int]);
        let ghost acc = (progress, opt_text(tag), opt_text(summary));
        let next = apply_phase_token(token, progress, tag, summary);
        match next {
            Ok((p, t, s)) => {
                progress = p;
                tag = t;
                summary = s;
            },
            Err(e) => {
                assert(phase_fields_from(tok, k as int, acc) == Err::<PhaseFields, Seq<char>>(
                    phase_token_step(tok[k as int], acc)->Err_0,
                ));
                assert(bootstrap_phase_result(all) == Err::<(u8, Option<Seq<char>>, Option<Seq<char>>), Seq<char>>(
                    phase_token_step(tok[k as int], acc)->Err_0,
                ));
                return Err(e);
            },
        }
        k = k + 1;
    }
    match progress {
        Some(p) => Ok(TorBootstrapPhase { progress: p, tag, summary }),
        None => Err(TorControlError::MalformedResponse {
            message: String::from_str("missing PROGRESS in status/bootstrap-phase reply"),
        }),
    }
}

proof fn lemma_first_line_with_prefix(lines: Seq<Seq<char>>, p: Seq<char>, i: int)
    requires
        0 <= i,
    ensures
        first_line_with_prefix(lines, p, i) matches Some(j) ==> i <= j < lines.len() && starts_with(
            lines[j],
            p,
        ),
    decreases lines.len() - i,
{
    if i < lines.len() && !starts_with(lines[i], p) {
        lemma_first_line_with_prefix(lines, p, i + 1);
    }
}

} // verus!

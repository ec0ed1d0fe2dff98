//! Log-tail classification: bootstrap progress and warnings from Tor's log.
use vstd::prelude::*;
use vstd::string::*;

use crate::domain::{event_views, EventView, TorEvent};
use crate::log_parser::bootstrap_percentage;
use crate::text::{char_count, matches_at};

verus! {

/// The character `c` with ASCII upper-case letters made lower-case, as
/// `to_ascii_lowercase` gives it.
pub open spec fn ascii_lower(c: char) -> char {
    if 'A' <= c && c <= 'Z' {
        ((c as int) + 32) as char
    } else {
        c
    }
}

/// `s` with ASCII upper-case letters made lower-case.
pub open spec fn ascii_lowercase(s: Seq<char>) -> Seq<char> {
    s.map_values(|c: char| ascii_lower(c))
}

/// The tag `"[warn]"` that Tor puts on warning lines.
pub open spec fn warn_tag() -> Seq<char> {
    seq!['[', 'w', 'a', 'r', 'n', ']']
}

/// Whether the line, lower-cased, contains `"[warn]"`.
pub open spec fn mentions_warning(line: Seq<char>) -> bool {
    exists|i: int| matches_at(ascii_lowercase(line), warn_tag(), i)
}

/// The character `c` with an ASCII upper-case letter made lower-case.
pub fn lower_char(c: char) -> (r: char)
    ensures
        r == ascii_lower(c),
{
    if 'A' <= c && c <= 'Z' {
        let b = c as u8;
        ((b + 32) as u8) as char
    } else {
        c
    }
}

/// The lower-case letter for an ASCII upper-case letter, as a string.
fn lower_letter(c: char) -> (s: &'static str)
    requires
        'A' <= c <= 'Z',
    ensures
        s@ == seq![ascii_lower(c)],
{
    proof {
        reveal_strlit("a");
        reveal_strlit("b");
        reveal_strlit("c");
        reveal_strlit("d");
        reveal_strlit("e");
        reveal_strlit("f");
        reveal_strlit("g");
        reveal_strlit("h");
        reveal_strlit("i");
        reveal_strlit("j");
        reveal_strlit("k");
        reveal_strlit("l");
        reveal_strlit("m");
        reveal_strlit("n");
        reveal_strlit("o");
        reveal_strlit("p");
        reveal_strlit("q");
        reveal_strlit("r");
        reveal_strlit("s");
        reveal_strlit("t");
        reveal_strlit("u");
        reveal_strlit("v");
        reveal_strlit("w");
        reveal_strlit("x");
        reveal_strlit("y");
        reveal_strlit("z");
    }
    let s = if c == 'A' {
        "a"
    } else if c == 'B' {
        "b"
    } else if c == 'C' {
        "c"
    } else if c == 'D' {
        "d"
    } else if c == 'E' {
        "e"
    } else if c == 'F' {
        "f"
    } else if c == 'G' {
        "g"
    } else if c == 'H' {
        "h"
    } else if c == 'I' {
        "i"
    } else if c == 'J' {
        "j"
    } else if c == 'K' {
        "k"
    } else if c == 'L' {
        "l"
    } else if c == 'M' {
        "m"
    } else if c == 'N' {
        "n"
    } else if c == 'O' {
        "o"
    } else if c == 'P' {
        "p"
    } else if c == 'Q' {
        "q"
    } else if c == 'R' {
        "r"
    } else if c == 'S' {
        "s"
    } else if c == 'T' {
        "t"
    } else if c == 'U' {
        "u"
    } else if c == 'V' {
        "v"
    } else if c == 'W' {
        "w"
    } else if c == 'X' {
        "x"
    } else if c == 'Y' {
        "y"
    } else {
        "z"
    };
    assert(s@ =~= seq![ascii_lower(c)]);
    s
}

/// `s` with ASCII upper-case letters made lower-case, as
/// `str::to_ascii_lowercase` gives it.
pub fn ascii_lowercased(s: &str) -> (r: String)
    ensures
        r@ == ascii_lowercase(s@),
{
    let n = s.unicode_len();
    let mut r = String::new();
    let mut i: usize = 0;
    while i < n
        invariant
            i <= n,
            n == s@.len(),
            r@ == ascii_lowercase(s@.subrange(0, i as int)),
        decreases n - i,
    {
        let c = s.get_char(i);
        let ghost before = r@;
        if 'A' <= c && c <= 'Z' {
            r.append(lower_letter(c));
        } else {
            r.append(s.substring_char(i, i + 1));
        }
        proof {
            assert(s@.subrange(0, i + 1) =~= s@.subrange(0, i as int).push(c));
            assert(r@ =~= ascii_lowercase(s@.subrange(0, i + 1)));
        }
        i = i + 1;
    }
    assert(s@.subrange(0, n as int) =~= s@);
    r
}

fn warn_tag_at(line: &str, i: usize) -> (b: bool)
    requires
        i + 6 <= line@.len() <= usize::MAX,
    ensures
        b == matches_at(ascii_lowercase(line@), warn_tag(), i as int),
{
    let ghost low = ascii_lowercase(line@);
    let r = lower_char(line.get_char(i)) == '[' && lower_char(line.get_char(i + 1)) == 'w'
        && lower_char(line.get_char(i + 2)) == 'a' && lower_char(line.get_char(i + 3)) == 'r'
        && lower_char(line.get_char(i + 4)) == 'n' && lower_char(line.get_char(i + 5)) == ']';
    proof {
        if r {
            assert(low.subrange(i as int, i + 6) =~= warn_tag());
        } else if matches_at(low, warn_tag(), i as int) {
            assert(low.subrange(i as int, i + 6)[0] == low[i as int]);
            assert(low.subrange(i as int, i + 6)[1] == low[i + 1]);
            assert(low.subrange(i as int, i + 6)[2] == low[i + 2]);
            assert(low.subrange(i as int, i + 6)[3] == low[i + 3]);
            assert(low.subrange(i as int, i + 6)[4] == low[i + 4]);
            assert(low.subrange(i as int, i + 6)[5] == low[i + 5]);
        }
    }
    r
}

/// Whether the line, lower-cased, contains `"[warn]"`.
pub fn is_warning_line(line: &str) -> (b: bool)
    ensures
        b == mentions_warning(line@),
{
    let len = char_count(line);
    let ghost low = ascii_lowercase(line@);
    if len < 6 {
        assert forall|i: int| !matches_at(low, warn_tag(), i) by {}
        return false;
    }
    let mut i: usize = 0;
    while i < len - 5
        invariant
            6 <= len,
            i <= len - 5,
            len == line@.len(),
            low == ascii_lowercase(line@),
            forall|j: int| 0 <= j < i ==> !matches_at(low, warn_tag(), j),
        decreases len - i,
    {
        if warn_tag_at(line, i) {
            return true;
        }
        i = i + 1;
    }
    assert forall|j: int| !matches_at(low, warn_tag(), j) by {
        if 0 <= j < i {
        }
    }
    false
}

/// Parses a bootstrap percentage from a Tor log line; see
/// `log_parser::parse_bootstrap_percentage`.
pub fn parse_bootstrap_percentage(line: &str) -> (r: Option<u8>)
    ensures
        r == bootstrap_percentage(line@),
{
    crate::log_parser::parse_bootstrap_percentage(line)
}

/// What `classify_log_line` gives: the line itself, then its bootstrap
/// percentage when it announces one, then the line as a warning when it
/// carries Tor's `[warn]` tag (in any letter case).
pub open spec fn classified_with_warnings(line: Seq<char>, events: Seq<TorEvent>) -> bool {
    let n: int = if bootstrap_percentage(line) is Some {
        2
    } else {
        1
    };
    &&& events.len() == n + if mentions_warning(line) {
        1int
    } else {
        0int
    }
    &&& events[0] matches TorEvent::LogLine(text) && text@ == line
    &&& bootstrap_percentage(line) matches Some(p) ==> events[1] == TorEvent::Bootstrap(p)
    &&& mentions_warning(line) ==> (events[n] matches TorEvent::Warning(text) && text@ == line)
}

/// The events of one log line, by their views: the line itself, then its
/// bootstrap percentage when it announces one, then the line as a warning
/// when it carries Tor's `[warn]` tag.
pub open spec fn log_line_events(line: Seq<char>) -> Seq<EventView> {
    seq![EventView::LogLine(line)] + match bootstrap_percentage(line) {
        Some(p) => seq![EventView::Bootstrap(p)],
        None => Seq::empty(),
    } + if mentions_warning(line) {
        seq![EventView::Warning(line)]
    } else {
        Seq::empty()
    }
}

/// Converts a raw Tor log line into runtime events: the line itself, its
/// bootstrap progress if any, and a warning if Tor tagged it `[warn]`.
pub fn classify_log_line(line: &str) -> (events: Vec<TorEvent>)
    ensures
        classified_with_warnings(line@, events@),
        event_views(events@) == log_line_events(line@),
{
    let mut events = Vec::new();
    events.push(TorEvent::LogLine(String::from_str(line)));
    if let Some(percent) = parse_bootstrap_percentage(line) {
        events.push(TorEvent::Bootstrap(percent));
    }
    if is_warning_line(line) {
        events.push(TorEvent::Warning(String::from_str(line)));
    }
    assert(event_views(events@) =~= log_line_events(line@));
    events
}

} // verus!

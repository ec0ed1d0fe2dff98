//! Helpers for turning Tor log lines into structured events.
use vstd::prelude::*;
use vstd::string::*;

use crate::domain::TorEvent;
use crate::text::{
    char_count, find, find_char, find_str, parse_unsigned, parse_unsigned_range, trim,
    trim_bounds,
};

verus! {

/// The marker `"Bootstrapped "` that precedes a bootstrap percentage.
pub open spec fn bootstrap_marker() -> Seq<char> {
    seq!['B', 'o', 'o', 't', 's', 't', 'r', 'a', 'p', 'p', 'e', 'd', ' ']
}

/// The bootstrap percentage a log line announces: after the first
/// `"Bootstrapped "`, the text up to the next `'%'`, trimmed, read as a `u8`
/// (an optional `'+'`, then decimal digits) that is at most `100`.
pub open spec fn bootstrap_percentage(line: Seq<char>) -> Option<u8> {
    match find(line, bootstrap_marker()) {
        None => None,
        Some(i) => {
            let rest = line.subrange(i + 13, line.len() as int);
            match find(rest, seq!['%']) {
                None => None,
                Some(j) => match parse_unsigned(trim(rest.subrange(0, j)), 255) {
                    Some(v) => if v <= 100 {
                        Some(v as u8)
                    } else {
                        None
                    },
                    None => None,
                },
            }
        },
    }
}

/// Parses a bootstrap percentage from a Tor log line.
///
/// Returns `Some(percent)` for inputs like `Bootstrapped 45%`, and `None` when
/// the line does not contain a valid bootstrap percentage.
pub fn parse_bootstrap_percentage(line: &str) -> (r: Option<u8>)
    ensures
        r == bootstrap_percentage(line@),
{
    proof {
        reveal_strlit("Bootstrapped ");
    }
    let marker = "Bootstrapped ";
    assert(marker@ =~= bootstrap_marker());
    let start = match find_str(line, marker) {
        Some(i) => i,
        None => return None,
    };
    proof {
        crate::text::lemma_find_from(line@, bootstrap_marker(), 0);
    }
    let len = char_count(line);
    let begin = start + 13;
    let remainder = line.substring_char(begin, len);
    let percent_end = match find_char(remainder, '%') {
        Some(j) => j,
        None => return None,
    };
    proof {
        crate::text::lemma_find_from(remainder@, seq!['%'], 0);
    }
    let digits = remainder.substring_char(0, percent_end);
    let (a, b) = trim_bounds(digits);
    let value = match parse_unsigned_range(digits, a, b, 255) {
        Some(v) => v,
        None => return None,
    };
    if value <= 100 {
        Some(value as u8)
    } else {
        None
    }
}

/// What `classify_log_line` gives: the line itself, then its bootstrap
/// percentage when it announces one.
pub open spec fn classified(line: Seq<char>, events: Seq<TorEvent>) -> bool {
    &&& events.len() == if bootstrap_percentage(line) is Some {
        2int
    } else {
        1int
    }
    &&& events[0] matches TorEvent::LogLine(text) && text@ == line
    &&& bootstrap_percentage(line) matches Some(p) ==> events[1] == TorEvent::Bootstrap(p)
}

/// Converts a raw Tor log line into the structured events the runtime uses.
///
/// The caller emits `TorEvent::LogLine` for every line first, then uses the
/// optional bootstrap event to update state and broadcast progress.
pub fn classify_log_line(line: &str) -> (events: Vec<TorEvent>)
    ensures
        classified(line@, events@),
{
    let mut events = Vec::new();
    events.push(TorEvent::LogLine(String::from_str(line)));
    if let Some(percent) = parse_bootstrap_percentage(line) {
        events.push(TorEvent::Bootstrap(percent));
    }
    events
}

} // verus!

//! Decisions of the log tail, which follows Tor's log file by polling its
//! length and reading what was appended.
//!
//! The tail keeps the offset it has read up to and the bytes of an
//! unfinished last line. Each complete line (ending in `'\n'`) is decoded
//! (invalid UTF-8 replaced), trimmed, and, unless empty, classified into
//! runtime events.
use vstd::prelude::*;
use vstd::utf8::{decode_utf8, valid_utf8};

use crate::domain::{event_views, EventView, TorEvent};
use crate::logs::{classify_log_line, log_line_events};
use crate::text::{trim, trimmed};

verus! {

/// The byte `'\n'`.
pub const NEWLINE: u8 = 10;

/// The index of the first `'\n'` at or after `k`.
pub open spec fn newline_from(b: Seq<u8>, k: int) -> Option<int>
    decreases b.len() - k,
{
    if k < 0 || k >= b.len() {
        None
    } else if b[k] == NEWLINE {
        Some(k)
    } else {
        newline_from(b, k + 1)
    }
}

/// `newline_from` finds the first `'\n'` at or after `k`.
pub proof fn lemma_newline_from(b: Seq<u8>, k: int)
    requires
        0 <= k,
    ensures
        match newline_from(b, k) {
            Some(i) => k <= i < b.len() && b[i] == NEWLINE && forall|j: int|
                k <= j < i ==> b[j] != NEWLINE,
            None => forall|j: int| k <= j < b.len() ==> b[j] != NEWLINE,
        },
    decreases b.len() - k,
{
    if k < b.len() && b[k] != NEWLINE {
        lemma_newline_from(b, k + 1);
    }
}

/// The complete lines of `b`, each with its `'\n'`, and what follows the
/// last of them.
pub open spec fn split_lines(b: Seq<u8>) -> (Seq<Seq<u8>>, Seq<u8>)
    decreases b.len(),
{
    match newline_from(b, 0) {
        Some(i) => {
            proof {
                lemma_newline_from(b, 0);
            }
            let rest = split_lines(b.subrange(i + 1, b.len() as int));
            (seq![b.subrange(0, i + 1)] + rest.0, rest.1)
        },
        None => (Seq::empty(), b),
    }
}

/// What `String::from_utf8_lossy` gives for `bytes`: the decoded text, each
/// invalid sequence replaced by U+FFFD.
pub uninterp spec fn utf8_lossy_text(bytes: Seq<u8>) -> Seq<char>;

/// Decodes bytes as UTF-8, replacing invalid sequences (std's
/// `String::from_utf8_lossy`).
///
/// Trusted: the result is named by `utf8_lossy_text`, a function of the bytes
/// alone, and on valid UTF-8 it is the decoded text, as std documents.
#[verifier::external_body]
fn utf8_lossy(bytes: &[u8]) -> (r: String)
    ensures
        r@ == utf8_lossy_text(bytes@),
        valid_utf8(bytes@) ==> r@ == decode_utf8(bytes@),
{
    String::from_utf8_lossy(bytes).into_owned()
}

/// The text of a complete line: decoded and trimmed.
pub open spec fn line_text(line: Seq<u8>) -> Seq<char> {
    trim(utf8_lossy_text(line))
}

/// The events of one complete line: none when its text is empty.
pub open spec fn line_events(line: Seq<u8>) -> Seq<EventView> {
    if line_text(line).len() == 0 {
        Seq::empty()
    } else {
        log_line_events(line_text(line))
    }
}

/// The events of a sequence of complete lines, in order.
pub open spec fn lines_events(lines: Seq<Seq<u8>>) -> Seq<EventView>
    decreases lines.len(),
{
    if lines.len() == 0 {
        Seq::empty()
    } else {
        lines_events(lines.drop_last()) + line_events(lines.last())
    }
}

/// Draining pending bytes: the events of their complete lines and the bytes
/// left pending.
pub open spec fn drain_lines(pending: Seq<u8>) -> (Seq<EventView>, Seq<u8>) {
    (lines_events(split_lines(pending).0), split_lines(pending).1)
}

/// The index of the first `'\n'` in `b`.
fn find_newline(b: &Vec<u8>) -> (r: Option<usize>)
    ensures
        match r {
            Some(i) => newline_from(b@, 0) == Some(i as int),
            None => newline_from(b@, 0) is None,
        },
{
    let mut k: usize = 0;
    while k < b.len()
        invariant
            k <= b.len(),
            newline_from(b@, 0) == newline_from(b@, k as int),
        decreases b.len() - k,
    {
        if b[k] == NEWLINE {
            return Some(k);
        }
        k += 1;
    }
    None
}

/// The views of two event lists joined are the views of each, joined.
proof fn lemma_event_views_concat(a: Seq<TorEvent>, b: Seq<TorEvent>)
    ensures
        event_views(a + b) == event_views(a) + event_views(b),
{
    assert(event_views(a + b) =~= event_views(a) + event_views(b));
}

/// Classifies every complete line of `pending` and keeps the unfinished rest.
pub fn drain_pending_lines(pending: &mut Vec<u8>) -> (events: Vec<TorEvent>)
    ensures
        event_views(events@) == drain_lines(old(pending)@).0,
        final(pending)@ == drain_lines(old(pending)@).1,
{
    let ghost orig = pending@;
    let mut rest = pending.split_off(0);
    assert(rest@ =~= orig);
    let mut events: Vec<TorEvent> = Vec::new();
    let ghost mut lines: Seq<Seq<u8>> = Seq::empty();
    let mut next = find_newline(&rest);
    while next.is_some()
        invariant
            split_lines(orig) == (lines + split_lines(rest@).0, split_lines(rest@).1),
            event_views(events@) == lines_events(lines),
            match next {
                Some(i) => newline_from(rest@, 0) == Some(i as int),
                None => newline_from(rest@, 0) is None,
            },
        decreases rest@.len(),
    {
        let i = match next {
            Some(i) => i,
            None => 0,
        };
        proof {
            lemma_newline_from(rest@, 0);
        }
        assert(i < rest.len());
        let ghost before = rest@;
        let tail = rest.split_off(i + 1);
        let line = rest;
        let text = utf8_lossy(line.as_slice());
        let t = trimmed(text.as_str());
        let ghost old_events = events@;
        if !t.as_str().is_empty() {
            let mut evs = classify_log_line(t.as_str());
            proof {
                lemma_event_views_concat(events@, evs@);
            }
            events.append(&mut evs);
        }
        proof {
            assert(lines.push(line@).drop_last() =~= lines);
            assert(split_lines(before) == (
                seq![before.subrange(0, i + 1)] + split_lines(tail@).0,
                split_lines(tail@).1,
            ));
            assert(lines + (seq![line@] + split_lines(tail@).0) =~= lines.push(line@)
                + split_lines(tail@).0);
            lines = lines.push(line@);
        }
        rest = tail;
        next = find_newline(&rest);
    }
    assert(lines + split_lines(rest@).0 =~= lines);
    *pending = rest;
    events
}

/// Joining line lists joins their events.
pub proof fn lemma_lines_events_concat(a: Seq<Seq<u8>>, b: Seq<Seq<u8>>)
    ensures
        lines_events(a + b) == lines_events(a) + lines_events(b),
    decreases b.len(),
{
    if b.len() == 0 {
        assert(a + b =~= a);
        assert(lines_events(a) + lines_events(b) =~= lines_events(a));
    } else {
        assert((a + b).drop_last() =~= a + b.drop_last());
        lemma_lines_events_concat(a, b.drop_last());
        assert(lines_events(a + b) =~= lines_events(a) + lines_events(b));
    }
}

/// Splitting `s + t` into lines splits `s` first, then what `s` left
/// unfinished followed by `t`.
pub proof fn lemma_split_append(s: Seq<u8>, t: Seq<u8>)
    ensures
        split_lines(s + t) == (
            split_lines(s).0 + split_lines(split_lines(s).1 + t).0,
            split_lines(split_lines(s).1 + t).1,
        ),
    decreases s.len(),
{
    lemma_newline_from(s, 0);
    lemma_newline_from(s + t, 0);
    match newline_from(s, 0) {
        Some(i) => {
            assert((s + t)[i] == s[i]);
            assert(newline_from(s + t, 0) == Some(i));
            let s2 = s.subrange(i + 1, s.len() as int);
            assert((s + t).subrange(i + 1, (s + t).len() as int) =~= s2 + t);
            assert((s + t).subrange(0, i + 1) =~= s.subrange(0, i + 1));
            lemma_split_append(s2, t);
            let x = split_lines(split_lines(s2).1 + t);
            assert(seq![s.subrange(0, i + 1)] + (split_lines(s2).0 + x.0) =~= (seq![
                s.subrange(0, i + 1),
            ] + split_lines(s2).0) + x.0);
        },
        None => {
            assert(Seq::<Seq<u8>>::empty() + split_lines(s + t).0 =~= split_lines(s + t).0);
        },
    }
}

/// Reading the log in pieces gives the same events, and leaves the same
/// unfinished line, as reading it at once: feeding `a` then `b` to pending
/// bytes `p` equals feeding `a + b`.
pub proof fn lemma_chunking_independent(p: Seq<u8>, a: Seq<u8>, b: Seq<u8>)
    ensures
        drain_lines(p + (a + b)).0 == drain_lines(p + a).0 + drain_lines(
            drain_lines(p + a).1 + b,
        ).0,
        drain_lines(p + (a + b)).1 == drain_lines(drain_lines(p + a).1 + b).1,
{
    assert(p + (a + b) =~= (p + a) + b);
    lemma_split_append(p + a, b);
    lemma_lines_events_concat(
        split_lines(p + a).0,
        split_lines(split_lines(p + a).1 + b).0,
    );
}

/// What the tail does after learning the log file's length.
#[derive(Debug, Clone, Copy, PartialEq, Eq, Structural)]
pub enum TailStep {
    /// Nothing new: wait one poll interval.
    Wait,
    /// Read `len` bytes starting at `from`, then call `on_read`.
    Read { from: u64, len: u64 },
}

/// The tail's progress through the log file: the offset read up to and the
/// bytes of an unfinished last line.
pub struct LogTailState {
    offset: u64,
    pending: Vec<u8>,
}

impl View for LogTailState {
    type V = (u64, Seq<u8>);

    closed spec fn view(&self) -> (u64, Seq<u8>) {
        (self.offset, self.pending@)
    }
}

/// The state once the file length `len` is known: a file shorter than the
/// offset was truncated or replaced, so reading starts over.
pub open spec fn rebased(s: (u64, Seq<u8>), len: u64) -> (u64, Seq<u8>) {
    if len < s.0 {
        (0u64, Seq::empty())
    } else {
        s
    }
}

impl LogTailState {
    /// A tail at the start of the file.
    pub fn new() -> (s: Self)
        ensures
            s@ == (0u64, Seq::<u8>::empty()),
    {
        LogTailState { offset: 0, pending: Vec::new() }
    }

    /// Decides what to do once the file is `len` bytes long: start over when
    /// it shrank, read what was appended when it grew, wait otherwise.
    pub fn on_file_length(&mut self, len: u64) -> (step: TailStep)
        ensures
            final(self)@ == rebased(old(self)@, len),
            len > rebased(old(self)@, len).0 ==> step == (TailStep::Read {
                from: rebased(old(self)@, len).0,
                len: (len - rebased(old(self)@, len).0) as u64,
            }),
            len <= rebased(old(self)@, len).0 ==> step == TailStep::Wait,
    {
        if len < self.offset {
            self.offset = 0;
            self.pending.clear();
        }
        if len > self.offset {
            TailStep::Read { from: self.offset, len: len - self.offset }
        } else {
            TailStep::Wait
        }
    }

    /// Takes the bytes read up to file length `file_len` and returns the
    /// events of the lines they complete, in order.
    pub fn on_read(&mut self, file_len: u64, chunk: &[u8]) -> (events: Vec<TorEvent>)
        ensures
            final(self)@.0 == file_len,
            event_views(events@) == drain_lines(old(self)@.1 + chunk@).0,
            final(self)@.1 == drain_lines(old(self)@.1 + chunk@).1,
    {
        self.offset = file_len;
        let mut i: usize = 0;
        while i < chunk.len()
            invariant
                i <= chunk@.len(),
                self.offset == file_len,
                self.pending@ == old(self)@.1 + chunk@.subrange(0, i as int),
            decreases chunk@.len() - i,
        {
            self.pending.push(chunk[i]);
            proof {
                assert(chunk@.subrange(0, i + 1) =~= chunk@.subrange(0, i as int).push(chunk@[i as int]));
            }
            i += 1;
        }
        assert(chunk@.subrange(0, i as int) =~= chunk@);
        drain_pending_lines(&mut self.pending)
    }
}

/// One poll of the tail when the file holds `file`: `on_file_length` with
/// its length, then, when it asks to read, `on_read` with the bytes it asked
/// for. Gives the state after the poll and the events it yields.
pub open spec fn tail_poll(s: (u64, Seq<u8>), file: Seq<u8>) -> ((u64, Seq<u8>), Seq<EventView>) {
    let len = file.len() as u64;
    let b = rebased(s, len);
    if len > b.0 {
        let d = drain_lines(b.1 + file.subrange(b.0 as int, file.len() as int));
        ((len, d.1), d.0)
    } else {
        (b, Seq::empty())
    }
}

/// Polls of a fresh tail over successive contents of the file: the state
/// after the last poll and all events, in order.
pub open spec fn tail_run(files: Seq<Seq<u8>>) -> ((u64, Seq<u8>), Seq<EventView>)
    decreases files.len(),
{
    if files.len() == 0 {
        ((0u64, Seq::empty()), Seq::empty())
    } else {
        let before = tail_run(files.drop_last());
        let step = tail_poll(before.0, files.last());
        (step.0, before.1 + step.1)
    }
}

/// Whether each observed content extends the one before it: the file is
/// only appended to.
pub open spec fn append_only(files: Seq<Seq<u8>>) -> bool {
    forall|i: int| 0 <= i < files.len() - 1 ==> #[trigger] extends_at(files, i)
}

/// Whether content `i + 1` extends content `i`.
pub open spec fn extends_at(files: Seq<Seq<u8>>, i: int) -> bool {
    files[i].len() <= files[i + 1].len() && files[i + 1].subrange(0, files[i].len() as int)
        == files[i]
}

/// Whether every observed content has a length that fits in `u64`.
pub open spec fn lengths_fit(files: Seq<Seq<u8>>) -> bool {
    forall|i: int| 0 <= i < files.len() ==> #[trigger] files[i].len() <= u64::MAX
}

/// The events and unfinished rest of a whole file, drained at once.
proof fn lemma_drain_empty()
    ensures
        drain_lines(Seq::empty()) == (Seq::<EventView>::empty(), Seq::<u8>::empty()),
{
    assert(newline_from(Seq::<u8>::empty(), 0) is None);
}

/// Following a file that is only appended to yields, in file order, the
/// events of every complete line it holds (blank lines yield none), and
/// keeps the unfinished last line pending: the same as draining the last
/// content at once.
pub proof fn lemma_tail_follows_appends(files: Seq<Seq<u8>>)
    requires
        files.len() > 0,
        append_only(files),
        lengths_fit(files),
    ensures
        tail_run(files) == (
            (files.last().len() as u64, drain_lines(files.last()).1),
            drain_lines(files.last()).0,
        ),
    decreases files.len(),
{
    let g = files.last();
    assert(g.len() <= u64::MAX) by {
        assert(files[files.len() - 1].len() <= u64::MAX);
    }
    if files.len() == 1 {
        assert(files.drop_last() =~= Seq::<Seq<u8>>::empty());
        assert(g.subrange(0, g.len() as int) =~= g);
        assert(Seq::<u8>::empty() + g =~= g);
        assert(tail_run(files.drop_last()) == ((0u64, Seq::<u8>::empty()), Seq::<EventView>::empty()));
        if g.len() == 0 {
            lemma_drain_empty();
            assert(g =~= Seq::<u8>::empty());
        } else {
            assert(tail_poll((0u64, Seq::<u8>::empty()), g) == (
                (g.len() as u64, drain_lines(g).1),
                drain_lines(g).0,
            ));
        }
        assert(Seq::<EventView>::empty() + drain_lines(g).0 =~= drain_lines(g).0);
    } else {
        let prev = files.drop_last();
        assert(append_only(prev)) by {
            assert forall|i: int| 0 <= i < prev.len() - 1 implies #[trigger] extends_at(
                prev,
                i,
            ) by {
                assert(prev[i] == files[i] && prev[i + 1] == files[i + 1]);
                assert(extends_at(files, i));
            }
        }
        assert(lengths_fit(prev)) by {
            assert forall|i: int| 0 <= i < prev.len() implies #[trigger] prev[i].len()
                <= u64::MAX by {
                assert(prev[i] == files[i]);
            }
        }
        lemma_tail_follows_appends(prev);
        let f = prev.last();
        assert(f == files[files.len() - 2]);
        assert(g == files[files.len() - 1]);
        assert(extends_at(files, files.len() - 2));
        assert(files[files.len() - 2].len() <= u64::MAX);
        assert(f.len() <= g.len() && g.subrange(0, f.len() as int) == f);
        let before = tail_run(prev);
        assert(before == ((f.len() as u64, drain_lines(f).1), drain_lines(f).0));
        assert(tail_run(files) == (
            tail_poll(before.0, g).0,
            before.1 + tail_poll(before.0, g).1,
        ));
        let chunk = g.subrange(f.len() as int, g.len() as int);
        assert(f + chunk =~= g);
        if g.len() > f.len() {
            lemma_chunking_independent(Seq::empty(), f, chunk);
            assert(Seq::<u8>::empty() + (f + chunk) =~= g);
            assert(Seq::<u8>::empty() + f =~= f);
            assert(tail_poll(before.0, g) == (
                (g.len() as u64, drain_lines(drain_lines(f).1 + chunk).1),
                drain_lines(drain_lines(f).1 + chunk).0,
            ));
        } else {
            assert(g =~= f);
            assert(drain_lines(f).0 + Seq::<EventView>::empty() =~= drain_lines(f).0);
        }
    }
}

/// A file found shorter than what was read (truncated or replaced) is read
/// again from its start: the poll yields exactly the events of the file's
/// complete lines and keeps its unfinished last line, whatever came before.
pub proof fn lemma_tail_restarts_on_truncation(s: (u64, Seq<u8>), file: Seq<u8>)
    requires
        file.len() < s.0,
    ensures
        tail_poll(s, file) == ((file.len() as u64, drain_lines(file).1), drain_lines(file).0),
{
    assert(file.subrange(0, file.len() as int) =~= file);
    assert(Seq::<u8>::empty() + file =~= file);
    if file.len() == 0 {
        lemma_drain_empty();
        assert(file =~= Seq::<u8>::empty());
    }
}

/// The index of the last poll, up to `i`, at which the file was found
/// shorter than at the poll before (truncated or replaced); `0` when there
/// was none.
pub open spec fn last_restart_at(files: Seq<Seq<u8>>, i: int) -> int
    decreases i,
{
    if i <= 0 {
        0
    } else if files[i].len() < files[i - 1].len() {
        i
    } else {
        last_restart_at(files, i - 1)
    }
}

/// Whether between any two polls the file was either appended to or found
/// shorter (truncated or replaced).
pub open spec fn appended_or_truncated(files: Seq<Seq<u8>>) -> bool {
    forall|i: int|
        0 <= i < files.len() - 1 ==> #[trigger] extends_at(files, i) || files[i + 1].len()
            < files[i].len()
}

/// `last_restart_at` reads only the contents up to `i`.
proof fn lemma_last_restart_prefix(files: Seq<Seq<u8>>, n: int, i: int)
    requires
        0 <= i < n <= files.len(),
    ensures
        last_restart_at(files, i) == last_restart_at(files.subrange(0, n), i),
    decreases i,
{
    if i > 0 {
        lemma_last_restart_prefix(files, n, i - 1);
    }
}

/// `last_restart_at` gives `0` or a poll that found the file shorter.
proof fn lemma_last_restart_bounds(files: Seq<Seq<u8>>, i: int)
    requires
        0 <= i < files.len(),
    ensures
        0 <= last_restart_at(files, i) <= i,
    decreases i,
{
    if i > 0 {
        lemma_last_restart_bounds(files, i - 1);
    }
}

/// Following a file that is appended to and now and then truncated or
/// replaced: the tail ends with the unfinished last line of the current
/// content pending, and its events are those of the polls before the last
/// truncation followed by the events of every complete line of the current
/// content, in order. Bytes held before a truncation are dropped.
pub proof fn lemma_tail_follows_history(files: Seq<Seq<u8>>)
    requires
        files.len() > 0,
        appended_or_truncated(files),
        lengths_fit(files),
    ensures
        tail_run(files) == (
            (files.last().len() as u64, drain_lines(files.last()).1),
            tail_run(files.subrange(0, last_restart_at(files, files.len() - 1))).1 + drain_lines(
                files.last(),
            ).0,
        ),
    decreases files.len(),
{
    let n = files.len() as int;
    let g = files.last();
    assert(files[n - 1].len() <= u64::MAX);
    if n == 1 {
        assert(files.drop_last() =~= Seq::<Seq<u8>>::empty());
        assert(files.subrange(0, 0) =~= Seq::<Seq<u8>>::empty());
        assert(tail_run(files.drop_last()) == ((0u64, Seq::<u8>::empty()), Seq::<EventView>::empty()));
        assert(g.subrange(0, g.len() as int) =~= g);
        assert(Seq::<u8>::empty() + g =~= g);
        if g.len() == 0 {
            lemma_drain_empty();
            assert(g =~= Seq::<u8>::empty());
        } else {
            assert(tail_poll((0u64, Seq::<u8>::empty()), g) == (
                (g.len() as u64, drain_lines(g).1),
                drain_lines(g).0,
            ));
        }
        assert(Seq::<EventView>::empty() + drain_lines(g).0 =~= drain_lines(g).0);
    } else {
        let prev = files.drop_last();
        assert(prev =~= files.subrange(0, n - 1));
        assert(appended_or_truncated(prev)) by {
            assert forall|i: int| 0 <= i < prev.len() - 1 implies #[trigger] extends_at(prev, i)
                || prev[i + 1].len() < prev[i].len() by {
                assert(prev[i] == files[i] && prev[i + 1] == files[i + 1]);
                assert(extends_at(files, i) || files[i + 1].len() < files[i].len());
            }
        }
        assert(lengths_fit(prev)) by {
            assert forall|i: int| 0 <= i < prev.len() implies #[trigger] prev[i].len()
                <= u64::MAX by {
                assert(prev[i] == files[i]);
            }
        }
        lemma_tail_follows_history(prev);
        let f = prev.last();
        assert(f == files[n - 2]);
        assert(files[n - 2].len() <= u64::MAX);
        let k = last_restart_at(prev, n - 2);
        lemma_last_restart_bounds(prev, n - 2);
        let earlier = tail_run(prev.subrange(0, k)).1;
        let before = tail_run(prev);
        assert(before == ((f.len() as u64, drain_lines(f).1), earlier + drain_lines(f).0));
        assert(tail_run(files) == (
            tail_poll(before.0, g).0,
            before.1 + tail_poll(before.0, g).1,
        ));
        assert(extends_at(files, n - 2) || g.len() < f.len());
        if g.len() < f.len() {
            assert(last_restart_at(files, n - 1) == n - 1);
            lemma_tail_restarts_on_truncation(before.0, g);
        } else {
            assert(extends_at(files, n - 2));
            lemma_last_restart_prefix(files, n - 1, n - 2);
            assert(last_restart_at(files, n - 1) == k);
            assert(files.subrange(0, k) =~= prev.subrange(0, k));
            assert(f.len() <= g.len() && g.subrange(0, f.len() as int) == f);
            let chunk = g.subrange(f.len() as int, g.len() as int);
            assert(f + chunk =~= g);
            if g.len() > f.len() {
                lemma_chunking_independent(Seq::empty(), f, chunk);
                assert(Seq::<u8>::empty() + (f + chunk) =~= g);
                assert(Seq::<u8>::empty() + f =~= f);
                assert(tail_poll(before.0, g) == (
                    (g.len() as u64, drain_lines(drain_lines(f).1 + chunk).1),
                    drain_lines(drain_lines(f).1 + chunk).0,
                ));
                assert(earlier + drain_lines(f).0 + drain_lines(drain_lines(f).1 + chunk).0
                    =~= earlier + (drain_lines(f).0 + drain_lines(drain_lines(f).1 + chunk).0));
            } else {
                assert(g =~= f);
                assert(earlier + drain_lines(f).0 + Seq::<EventView>::empty() =~= earlier
                    + drain_lines(f).0);
            }
        }
    }
}

} // verus!

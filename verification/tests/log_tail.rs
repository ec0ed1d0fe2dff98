use torq::domain::TorEvent;
use torq::log_tail::{drain_pending_lines, LogTailState, TailStep};

#[test]
fn complete_lines_become_events_and_rest_stays_pending() {
    let mut pending = b"Bootstrapped 5%: start\r\n[warn] bad\n  \npartial".to_vec();
    let events = drain_pending_lines(&mut pending);
    assert_eq!(
        events,
        vec![
            TorEvent::LogLine("Bootstrapped 5%: start".to_string()),
            TorEvent::Bootstrap(5),
            TorEvent::LogLine("[warn] bad".to_string()),
            TorEvent::Warning("[warn] bad".to_string()),
        ]
    );
    assert_eq!(pending, b"partial".to_vec());
}

#[test]
fn invalid_utf8_is_replaced() {
    let mut pending = vec![b'a', 0xff, b'b', b'\n'];
    let events = drain_pending_lines(&mut pending);
    assert_eq!(events, vec![TorEvent::LogLine("a\u{fffd}b".to_string())]);
    assert!(pending.is_empty());

    let mut utf8 = "é ok\n".as_bytes().to_vec();
    assert_eq!(
        drain_pending_lines(&mut utf8),
        vec![TorEvent::LogLine("é ok".to_string())]
    );
}

#[test]
fn chunked_reads_give_the_same_events() {
    let log = b"line one\nBootstrapped 50%: half\nlast";
    let mut whole = LogTailState::new();
    assert_eq!(
        whole.on_file_length(log.len() as u64),
        TailStep::Read {
            from: 0,
            len: log.len() as u64
        }
    );
    let all_at_once = whole.on_read(log.len() as u64, log);

    let mut pieces = LogTailState::new();
    let mut events = pieces.on_read(6, &log[..6]);
    events.extend(pieces.on_read(20, &log[6..20]));
    events.extend(pieces.on_read(log.len() as u64, &log[20..]));
    assert_eq!(events, all_at_once);
    assert_eq!(
        events,
        vec![
            TorEvent::LogLine("line one".to_string()),
            TorEvent::LogLine("Bootstrapped 50%: half".to_string()),
            TorEvent::Bootstrap(50),
        ]
    );
}

#[test]
fn truncated_file_is_read_again_from_the_start() {
    let mut tail = LogTailState::new();
    tail.on_file_length(10);
    tail.on_read(10, b"0123456789");
    assert_eq!(tail.on_file_length(10), TailStep::Wait);
    assert_eq!(
        tail.on_file_length(14),
        TailStep::Read { from: 10, len: 4 }
    );
    assert_eq!(tail.on_file_length(3), TailStep::Read { from: 0, len: 3 });
    let events = tail.on_read(3, b"ok\n");
    assert_eq!(events, vec![TorEvent::LogLine("ok".to_string())]);
    assert_eq!(tail.on_file_length(0), TailStep::Wait);
}

fn poll(tail: &mut LogTailState, file: &[u8]) -> Vec<TorEvent> {
    match tail.on_file_length(file.len() as u64) {
        TailStep::Wait => Vec::new(),
        TailStep::Read { from, len } => {
            let end = (from + len) as usize;
            tail.on_read(from + len, &file[from as usize..end])
        }
    }
}

#[test]
fn growth_and_truncation_mixed() {
    let mut tail = LogTailState::new();
    let mut events = poll(&mut tail, b"one\ntw");
    events.extend(poll(&mut tail, b"one\ntwo\nthree"));
    // Replaced by a shorter file: the held "three" is dropped.
    events.extend(poll(&mut tail, b"new\n"));
    events.extend(poll(&mut tail, b"new\nmore\n"));
    assert_eq!(
        events,
        vec![
            TorEvent::LogLine("one".to_string()),
            TorEvent::LogLine("two".to_string()),
            TorEvent::LogLine("new".to_string()),
            TorEvent::LogLine("more".to_string()),
        ]
    );
}

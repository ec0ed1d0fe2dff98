use torq::domain::TorEvent;
use torq::{log_parser, logs};

#[test]
fn log_parser_parses_bootstrap_percentage() {
    assert_eq!(
        log_parser::parse_bootstrap_percentage("Bootstrapped 45%: Loading"),
        Some(45)
    );
    assert_eq!(
        log_parser::parse_bootstrap_percentage("Bootstrapped 0%: Starting"),
        Some(0)
    );
    assert_eq!(
        log_parser::parse_bootstrap_percentage("Bootstrapped 100%: Done"),
        Some(100)
    );
}

#[test]
fn log_parser_rejects_invalid_bootstrap_lines() {
    assert_eq!(log_parser::parse_bootstrap_percentage("Bootstrapped 101%"), None);
    assert_eq!(log_parser::parse_bootstrap_percentage("Bootstrapped foo%"), None);
    assert_eq!(log_parser::parse_bootstrap_percentage("Tor is ready"), None);
}

#[test]
fn log_parser_classifies_log_lines_in_order() {
    let events = log_parser::classify_log_line("Bootstrapped 45%: Loading");

    assert_eq!(
        events,
        vec![
            TorEvent::LogLine("Bootstrapped 45%: Loading".to_string()),
            TorEvent::Bootstrap(45),
        ]
    );
}

#[test]
fn classifies_plain_log_lines() {
    let events = log_parser::classify_log_line("Bootstrapped halfway there");

    assert_eq!(
        events,
        vec![TorEvent::LogLine("Bootstrapped halfway there".to_string())]
    );
}

#[test]
fn logs_parses_bootstrap_percentage() {
    assert_eq!(
        logs::parse_bootstrap_percentage("Bootstrapped 45%: Loading"),
        Some(45)
    );
    assert_eq!(
        logs::parse_bootstrap_percentage("Bootstrapped 0%: Starting"),
        Some(0)
    );
    assert_eq!(
        logs::parse_bootstrap_percentage("Bootstrapped 100%: Done"),
        Some(100)
    );
}

#[test]
fn logs_rejects_invalid_bootstrap_lines() {
    assert_eq!(logs::parse_bootstrap_percentage("Bootstrapped 101%"), None);
    assert_eq!(logs::parse_bootstrap_percentage("Bootstrapped foo%"), None);
    assert_eq!(logs::parse_bootstrap_percentage("Tor is ready"), None);
}

#[test]
fn logs_classifies_log_lines_in_order() {
    let events = logs::classify_log_line("Bootstrapped 45%: Loading");

    assert_eq!(
        events,
        vec![
            TorEvent::LogLine("Bootstrapped 45%: Loading".to_string()),
            TorEvent::Bootstrap(45),
        ]
    );
}

#[test]
fn bootstrap_percentage_tolerates_padding_and_plus_sign() {
    assert_eq!(
        log_parser::parse_bootstrap_percentage("[notice] Bootstrapped  7 %: x"),
        Some(7)
    );
    assert_eq!(log_parser::parse_bootstrap_percentage("Bootstrapped +9%"), Some(9));
    assert_eq!(log_parser::parse_bootstrap_percentage("Bootstrapped 9"), None);
    assert_eq!(log_parser::parse_bootstrap_percentage("Bootstrapped %"), None);
    assert_eq!(log_parser::parse_bootstrap_percentage("Bootstrapped 300%"), None);
}

#[test]
fn warning_lines_are_classified_in_any_case() {
    let line = "Apr 01 [WARN] Could not bind to 127.0.0.1:9050";
    assert_eq!(
        logs::classify_log_line(line),
        vec![
            TorEvent::LogLine(line.to_string()),
            TorEvent::Warning(line.to_string()),
        ]
    );
    assert!(logs::is_warning_line("x [Warn] y"));
    assert!(!logs::is_warning_line("x [warning] y"));
}

#[test]
fn warning_with_bootstrap_lists_progress_first() {
    let line = "[warn] Bootstrapped 12%: Problem";
    assert_eq!(
        logs::classify_log_line(line),
        vec![
            TorEvent::LogLine(line.to_string()),
            TorEvent::Bootstrap(12),
            TorEvent::Warning(line.to_string()),
        ]
    );
}

#[test]
fn lower_char_matches_std() {
    for c in ['A', 'Z', 'a', 'm', '0', '[', 'É', 'ß'] {
        assert_eq!(logs::lower_char(c), c.to_ascii_lowercase());
    }
}

#[test]
fn ascii_lowercasing_matches_std() {
    for s in ["START", "Hello World", "ÉTÉ [WARN] x", "", "already lower", "MiXeD-123_Z"] {
        assert_eq!(logs::ascii_lowercased(s), s.to_ascii_lowercase());
    }
}

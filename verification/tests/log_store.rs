use kaspa_ng_core::log_store::{strip_ansi_codes, LogLevel, LogStore};

fn messages(store: &LogStore, limit: usize) -> Vec<String> {
    store.snapshot(limit).into_iter().map(|l| l.message).collect()
}

#[test]
fn strip_removes_csi_colour_codes() {
    assert_eq!(strip_ansi_codes("\u{1b}[31mred\u{1b}[0m plain"), "red plain");
}

#[test]
fn strip_removes_osc_sequences() {
    assert_eq!(strip_ansi_codes("a\u{1b}]0;title\u{7}b"), "ab");
    assert_eq!(strip_ansi_codes("a\u{1b}]0;title\u{1b}\\b"), "ab");
}

#[test]
fn strip_removes_dcs_sequences() {
    assert_eq!(strip_ansi_codes("x\u{1b}Pq#0;2;0;0;0\u{1b}\\y"), "xy");
    assert_eq!(strip_ansi_codes("x\u{1b}_payload\u{1b}\\y"), "xy");
}

#[test]
fn strip_drops_the_character_after_a_lone_escape() {
    assert_eq!(strip_ansi_codes("a\u{1b}cb"), "ab");
    assert_eq!(strip_ansi_codes("a\u{1b}"), "a");
}

#[test]
fn strip_swallows_an_unfinished_sequence() {
    assert_eq!(strip_ansi_codes("a\u{1b}[31"), "a");
    assert_eq!(strip_ansi_codes("a\u{1b}]never ends"), "a");
}

#[test]
fn strip_keeps_whitespace_and_drops_other_controls() {
    assert_eq!(strip_ansi_codes("a\tb\nc\rd\u{0}e\u{7f}f\u{85}g"), "a\tb\nc\rdefg");
}

#[test]
fn strip_keeps_plain_text() {
    assert_eq!(strip_ansi_codes("héllo wörld ✓"), "héllo wörld ✓");
    assert_eq!(strip_ansi_codes(""), "");
}

#[test]
fn new_store_is_empty() {
    let store = LogStore::new(4);
    assert_eq!(store.len(), 0);
    assert_eq!(store.capacity(), 4);
    assert!(store.snapshot(10).is_empty());
}

#[test]
fn push_keeps_the_newest_lines_in_order() {
    let mut store = LogStore::new(3);
    for i in 0..5 {
        store.push(LogLevel::Info, &format!("line {i}"));
    }
    assert_eq!(store.len(), 3);
    assert_eq!(messages(&store, 10), vec!["line 2", "line 3", "line 4"]);
}

#[test]
fn push_strips_escape_sequences() {
    let mut store = LogStore::new(2);
    store.push(LogLevel::Warn, "\u{1b}[1mbold\u{1b}[0m");
    let lines = store.snapshot(1);
    assert_eq!(lines[0].message, "bold");
    assert_eq!(lines[0].level, LogLevel::Warn);
    assert_eq!(lines[0].level.as_str(), "WARN");
}

#[test]
fn push_stamps_lines_with_a_time() {
    let mut store = LogStore::new(2);
    store.push(LogLevel::Info, "x");
    let ts = &store.snapshot(1)[0].ts;
    assert!(ts.contains('T'));
    assert!(ts.len() >= 20);
}

#[test]
fn push_at_uses_the_given_time() {
    let mut store = LogStore::new(2);
    store.push_at("2024-01-02T03:04:05+00:00".to_string(), LogLevel::Error, "boom");
    let lines = store.snapshot(5);
    assert_eq!(lines.len(), 1);
    assert_eq!(lines[0].ts, "2024-01-02T03:04:05+00:00");
    assert_eq!(lines[0].level, LogLevel::Error);
    assert_eq!(lines[0].message, "boom");
}

#[test]
fn snapshot_clamps_the_limit() {
    let mut store = LogStore::new(10);
    for i in 0..4 {
        store.push(LogLevel::Info, &format!("{i}"));
    }
    assert_eq!(messages(&store, 2), vec!["2", "3"]);
    assert_eq!(messages(&store, 4), vec!["0", "1", "2", "3"]);
    assert_eq!(messages(&store, 100), vec!["0", "1", "2", "3"]);
    assert!(messages(&store, 0).is_empty());
}

#[test]
fn snapshot_does_not_change_the_store() {
    let mut store = LogStore::new(5);
    for i in 0..7 {
        store.push(LogLevel::Info, &format!("{i}"));
    }
    let first = messages(&store, 3);
    let second = messages(&store, 3);
    assert_eq!(first, second);
    assert_eq!(store.len(), 5);
    assert_eq!(messages(&store, 5), vec!["2", "3", "4", "5", "6"]);
}

#[test]
fn store_without_capacity_holds_nothing() {
    let mut store = LogStore::new(0);
    store.push(LogLevel::Info, "dropped");
    assert_eq!(store.len(), 0);
}

#[test]
fn store_of_one_holds_the_last_line() {
    let mut store = LogStore::new(1);
    store.push(LogLevel::Info, "a");
    store.push(LogLevel::Info, "b");
    assert_eq!(messages(&store, 1), vec!["b"]);
}

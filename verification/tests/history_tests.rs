use lineshell::history::HistoryCache;
use lineshell::session::Shell;

fn chars(s: &str) -> Vec<char> {
    s.chars().collect()
}

fn text(v: &[char]) -> String {
    v.iter().collect()
}

#[test]
fn browse_two_entries_up_and_down() {
    // Starting empty, confirm `ls`, confirm `pwd`; then browse both ways.
    let mut sh = Shell::new(chars("home"));
    for c in "ls".chars() {
        sh.on_char(c);
    }
    let d = sh.on_enter(&Vec::new());
    assert!(d.is_some());
    for c in "pwd".chars() {
        sh.on_char(c);
    }
    let d = sh.on_enter(&Vec::new());
    assert!(d.is_some());

    sh.on_up();
    assert_eq!(text(&sh.edit.buffer), "pwd");
    assert_eq!(sh.edit.cursor, 3);
    sh.on_up();
    assert_eq!(text(&sh.edit.buffer), "ls");
    sh.on_down();
    assert_eq!(text(&sh.edit.buffer), "pwd");
    sh.on_down();
    assert_eq!(text(&sh.edit.buffer), "");
    assert_eq!(sh.history.browse_index, 0);
}

#[test]
fn move_up_stops_at_oldest() {
    let mut h = HistoryCache::new();
    h.record(chars("one"));
    let first = h.move_up();
    assert_eq!(text(&first.unwrap()), "one");
    assert_eq!(h.browse_index, 1);
    let second = h.move_up();
    assert!(second.is_none());
    assert_eq!(h.browse_index, 1);
}

#[test]
fn move_up_on_empty_cache_does_nothing() {
    let mut h = HistoryCache::new();
    assert!(h.move_up().is_none());
    assert_eq!(h.browse_index, 0);
}

#[test]
fn move_down_while_not_browsing_is_noop() {
    let mut h = HistoryCache::new();
    h.record(chars("one"));
    assert!(h.move_down().is_none());
    assert_eq!(h.browse_index, 0);
}

#[test]
fn record_keeps_most_recent_first() {
    let mut h = HistoryCache::new();
    h.record(chars("ls"));
    h.record(chars("pwd"));
    assert_eq!(h.entries.len(), 2);
    assert_eq!(text(&h.entries[0]), "pwd");
    assert_eq!(text(&h.entries[1]), "ls");
}

#[test]
fn record_keeps_duplicates() {
    let mut h = HistoryCache::new();
    h.record(chars("ls"));
    h.record(chars("ls"));
    assert_eq!(h.entries.len(), 2);
    assert_eq!(text(&h.entries[0]), "ls");
    assert_eq!(text(&h.entries[1]), "ls");
}

#[test]
fn record_empty_line_on_empty_cache_is_kept() {
    // The append policy: a line is kept whenever it is non-empty or the
    // cache holds nothing yet.
    let mut h = HistoryCache::new();
    h.record(Vec::new());
    assert_eq!(h.entries.len(), 1);
    assert!(h.entries[0].is_empty());
}

#[test]
fn record_empty_line_on_nonempty_cache_is_dropped() {
    let mut h = HistoryCache::new();
    h.record(chars("ls"));
    h.record(Vec::new());
    assert_eq!(h.entries.len(), 1);
    assert_eq!(text(&h.entries[0]), "ls");
}

#[test]
fn record_resets_browsing() {
    let mut h = HistoryCache::new();
    h.record(chars("one"));
    h.move_up();
    assert_eq!(h.browse_index, 1);
    h.record(chars("two"));
    assert_eq!(h.browse_index, 0);
}

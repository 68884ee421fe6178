use lineshell::caret_back_cells;
use lineshell::completion::Candidate;
use lineshell::dispatch::Directive;
use lineshell::session::{KeyEvent, Shell};

fn chars(s: &str) -> Vec<char> {
    s.chars().collect()
}

fn text(v: &[char]) -> String {
    v.iter().collect()
}

fn shell_with_line(line: &str) -> Shell {
    let mut sh = Shell::new(chars("home"));
    for c in line.chars() {
        sh.on_char(c);
    }
    sh
}

#[test]
fn insert_while_menu_visible_closes_it() {
    // A structural edit while the menu is shown closes it and resets the
    // highlight to 0.
    let mut sh = shell_with_line("ls fo");
    sh.on_tab(3);
    sh.on_tab(3);
    sh.on_tab(3);
    assert!(sh.completion.menu_visible);
    assert_eq!(sh.completion.highlighted_index, 1);
    sh.on_char('x');
    assert!(!sh.completion.menu_visible);
    assert!(!sh.completion.highlighting);
    assert_eq!(sh.completion.highlighted_index, 0);
}

#[test]
fn delete_while_menu_visible_closes_it() {
    let mut sh = shell_with_line("ls fo");
    sh.on_tab(2);
    assert!(sh.completion.menu_visible);
    sh.on_backspace();
    assert!(!sh.completion.menu_visible);
    assert!(!sh.completion.highlighting);
    assert_eq!(sh.completion.highlighted_index, 0);
    assert_eq!(text(&sh.edit.buffer), "ls f");
}

#[test]
fn delete_at_start_still_closes_menu() {
    let mut sh = shell_with_line("ls fo");
    for _ in 0..5 {
        sh.on_left();
    }
    assert_eq!(sh.edit.cursor, 0);
    sh.on_tab(2);
    sh.on_backspace();
    assert_eq!(text(&sh.edit.buffer), "ls fo");
    assert!(!sh.completion.menu_visible);
}

#[test]
fn enter_with_menu_accepts_highlighted_candidate() {
    let mut sh = shell_with_line("cat src/ma");
    sh.on_tab(2);
    sh.on_tab(2);
    sh.on_tab(2);
    assert_eq!(sh.completion.highlighted_index, 1);
    let names = vec![chars("main.rs"), chars("markers.rs")];
    let d = sh.on_enter(&names);
    assert!(d.is_none());
    assert_eq!(text(&sh.edit.buffer), "cat src/markers.rs");
    assert_eq!(sh.edit.cursor, sh.edit.buffer.len());
    assert!(sh.edit.suggestion.is_empty());
    assert!(!sh.completion.menu_visible);
    assert!(sh.history.entries.is_empty());
}

#[test]
fn enter_with_open_menu_and_no_highlight_takes_first() {
    let mut sh = shell_with_line("cat ma");
    sh.on_tab(2);
    assert!(!sh.completion.highlighting);
    let names = vec![chars("main.rs"), chars("markers.rs")];
    let d = sh.on_enter(&names);
    assert!(d.is_none());
    assert_eq!(text(&sh.edit.buffer), "cat main.rs");
}

#[test]
fn enter_with_empty_menu_only_closes_it() {
    let mut sh = shell_with_line("cat zz");
    sh.on_tab(1);
    sh.completion.menu_visible = true;
    let d = sh.on_enter(&Vec::new());
    assert!(d.is_none());
    assert_eq!(text(&sh.edit.buffer), "cat zz");
    assert!(!sh.completion.menu_visible);
}

#[test]
fn enter_without_menu_confirms_records_and_clears() {
    let mut sh = shell_with_line("echo hi");
    let d = sh.on_enter(&Vec::new());
    match d {
        Some(Directive::Spawn { program, args }) => {
            assert_eq!(text(&program), "echo");
            assert_eq!(args.len(), 1);
            assert_eq!(text(&args[0]), "hi");
        },
        _ => panic!("a confirmed command line must spawn"),
    }
    assert!(sh.edit.buffer.is_empty());
    assert_eq!(sh.edit.cursor, 0);
    assert_eq!(sh.history.entries.len(), 1);
    assert_eq!(text(&sh.history.entries[0]), "echo hi");
    assert_eq!(sh.history.browse_index, 0);
}

#[test]
fn exit_with_pending_content_is_exit_alone() {
    // The pending line `exit whatever` terminates; nothing of it is run.
    let mut sh = shell_with_line("exit whatever");
    let d = sh.on_enter(&Vec::new());
    assert!(matches!(d, Some(Directive::Exit)));
}

#[test]
fn failed_cd_leaves_display_dir_unchanged() {
    // A failed change of directory hands in nothing: the displayed segment
    // stays what it was.
    let mut sh = Shell::new(chars("home"));
    sh.after_cd(None);
    assert_eq!(text(&sh.display_dir), "home");
}

#[test]
fn successful_cd_shows_last_path_segment() {
    let mut sh = Shell::new(chars("home"));
    sh.after_cd(Some(chars("/home/user/projects")));
    assert_eq!(text(&sh.display_dir), "projects");
    sh.after_cd(Some(chars("/")));
    assert_eq!(text(&sh.display_dir), "");
}

#[test]
fn wants_suggestion_only_at_end_of_nonempty_line() {
    let mut sh = Shell::new(chars("home"));
    assert!(!sh.wants_suggestion());
    sh.on_char('a');
    assert!(sh.wants_suggestion());
    sh.on_left();
    assert!(!sh.wants_suggestion());
}

#[test]
fn blank_line_wants_no_suggestion() {
    // A whitespace-only line has no token to complete, so no suggestion is
    // due; a trailing blank after real content still leaves one due.
    let mut sh = Shell::new(chars("home"));
    sh.on_char(' ');
    assert!(!sh.wants_suggestion());
    sh.on_char('\t');
    assert!(!sh.wants_suggestion());
    let mut sh = Shell::new(chars("home"));
    sh.on_char('c');
    sh.on_char('d');
    sh.on_char(' ');
    assert!(sh.wants_suggestion());
}

#[test]
fn set_suggestion_on_blank_line_stays_empty() {
    // Even with entries that match the empty prefix, a blank line shows no
    // inline suggestion.
    let mut sh = Shell::new(chars("home"));
    sh.on_char(' ');
    let entries = vec![Candidate { name: chars("alpha"), is_dir: false }];
    sh.set_suggestion(&entries);
    assert!(sh.edit.suggestion.is_empty());
    // With real content before the blank, the same entries do suggest.
    let mut sh = Shell::new(chars("home"));
    sh.on_char('c');
    sh.on_char('d');
    sh.on_char(' ');
    sh.set_suggestion(&entries);
    assert_eq!(text(&sh.edit.suggestion), "alpha");
}

#[test]
fn set_suggestion_away_from_end_stays_empty() {
    let mut sh = Shell::new(chars("home"));
    sh.on_char('f');
    sh.on_char('o');
    sh.on_left();
    let entries = vec![Candidate { name: chars("foo.txt"), is_dir: false }];
    sh.set_suggestion(&entries);
    assert!(sh.edit.suggestion.is_empty());
}

#[test]
fn set_suggestion_matches_engine_result() {
    let mut sh = shell_with_line("fo");
    let entries = vec![
        Candidate { name: chars("foo.txt"), is_dir: false },
        Candidate { name: chars("foobar"), is_dir: false },
        Candidate { name: chars("bar"), is_dir: false },
    ];
    sh.set_suggestion(&entries);
    assert_eq!(text(&sh.edit.suggestion), "o.txt");
    sh.clear_suggestion();
    assert!(sh.edit.suggestion.is_empty());
}

#[test]
fn tab_then_sync_reflect_recomputed_candidates() {
    let mut sh = shell_with_line("ls fo");
    sh.on_tab(2);
    assert!(sh.completion.menu_visible);
    sh.begin_tick(2);
    assert!(sh.completion.menu_visible);
    sh.begin_tick(0);
    assert!(!sh.completion.menu_visible);
}

#[test]
fn caret_back_cells_counts_drawn_tail() {
    assert_eq!(caret_back_cells(5, 3, 2), 6);
    assert_eq!(caret_back_cells(4, 0, 4), 0);
}

#[test]
fn on_key_routes_every_kind_of_keystroke() {
    let mut sh = Shell::new(chars("home"));
    let none: Vec<Vec<char>> = Vec::new();
    assert!(sh.on_key(KeyEvent::Char('h'), &none).is_none());
    assert!(sh.on_key(KeyEvent::Char('i'), &none).is_none());
    assert_eq!(text(&sh.edit.buffer), "hi");
    assert!(sh.on_key(KeyEvent::ArrowLeft, &none).is_none());
    assert_eq!(sh.edit.cursor, 1);
    assert!(sh.on_key(KeyEvent::ArrowRight, &none).is_none());
    assert_eq!(sh.edit.cursor, 2);
    assert!(sh.on_key(KeyEvent::Backspace, &none).is_none());
    assert_eq!(text(&sh.edit.buffer), "h");
    assert!(sh.on_key(KeyEvent::Other, &none).is_none());
    assert_eq!(text(&sh.edit.buffer), "h");
    let d = sh.on_key(KeyEvent::Enter, &none);
    assert!(matches!(d, Some(Directive::Spawn { .. })));
    assert!(sh.on_key(KeyEvent::ArrowUp, &none).is_none());
    assert_eq!(text(&sh.edit.buffer), "h");
    assert!(sh.on_key(KeyEvent::ArrowDown, &none).is_none());
    assert!(sh.edit.buffer.is_empty());
    let names = vec![chars("ha"), chars("hb")];
    assert!(sh.on_key(KeyEvent::Char('h'), &none).is_none());
    assert!(sh.on_key(KeyEvent::Tab, &names).is_none());
    assert!(sh.completion.menu_visible);
    let d = sh.on_key(KeyEvent::Enter, &names);
    assert!(d.is_none());
    assert_eq!(text(&sh.edit.buffer), "ha");
}

#[test]
fn history_recall_after_confirm_round_trip() {
    let mut sh = shell_with_line("pwd");
    sh.on_enter(&Vec::new());
    sh.on_up();
    assert_eq!(text(&sh.edit.buffer), "pwd");
    let d = sh.on_enter(&Vec::new());
    assert!(matches!(d, Some(Directive::Spawn { .. })));
    assert_eq!(sh.history.entries.len(), 2);
}

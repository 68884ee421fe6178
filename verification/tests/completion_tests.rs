use lineshell::completion::{
    accept_line, best_match, compute_scope, matched_names, scope_dir_of, split_search_path,
    suggestion_for, typed_prefix_of, Candidate, CompletionState, Scope,
};

fn chars(s: &str) -> Vec<char> {
    s.chars().collect()
}

fn text(v: &[char]) -> String {
    v.iter().collect()
}

fn entry(name: &str, is_dir: bool) -> Candidate {
    Candidate { name: chars(name), is_dir }
}

#[test]
fn suggestion_picks_lexicographically_smallest_match() {
    // Entries {foo.txt, foobar, bar} and typed token `fo`: the winner is
    // `foo.txt`, so the suggestion is what remains past the prefix.
    let entries = vec![entry("foo.txt", false), entry("foobar", false), entry("bar", false)];
    let s = suggestion_for(&chars("fo"), &entries);
    assert_eq!(text(&s), "o.txt");
}

#[test]
fn suggestion_empty_when_nothing_matches() {
    let entries = vec![entry("alpha", false), entry("beta", false)];
    let s = suggestion_for(&chars("zz"), &entries);
    assert!(s.is_empty());
}

#[test]
fn suggestion_empty_on_exact_file_match() {
    let entries = vec![entry("notes", false)];
    let s = suggestion_for(&chars("notes"), &entries);
    assert!(s.is_empty());
}

#[test]
fn suggestion_appends_separator_for_directory() {
    let entries = vec![entry("src", true)];
    let s = suggestion_for(&chars("sr"), &entries);
    assert_eq!(text(&s), "c/");
    let exact = suggestion_for(&chars("src"), &entries);
    assert_eq!(text(&exact), "/");
}

#[test]
fn suggestion_empty_prefix_matches_everything() {
    let entries = vec![entry("beta", false), entry("alpha", false)];
    let s = suggestion_for(&chars(""), &entries);
    assert_eq!(text(&s), "alpha");
}

#[test]
fn best_match_prefers_earlier_entry_on_equal_names() {
    let entries = vec![entry("dup", true), entry("dup", false)];
    let j = best_match(&chars("du"), &entries);
    assert_eq!(j, Some(0));
    let s = suggestion_for(&chars("du"), &entries);
    assert_eq!(text(&s), "p/");
}

#[test]
fn best_match_none_without_matches() {
    let entries = vec![entry("alpha", false)];
    assert_eq!(best_match(&chars("b"), &entries), None);
}

#[test]
fn matched_names_keep_listing_order_unsorted() {
    let entries = vec![
        entry("foobar", false),
        entry("bar", false),
        entry("foo.txt", false),
        entry("fob", true),
    ];
    let names = matched_names(&chars("fo"), &entries);
    let shown: Vec<String> = names.iter().map(|n| text(n)).collect();
    assert_eq!(shown, vec!["foobar".to_string(), "foo.txt".to_string(), "fob".to_string()]);
}

#[test]
fn matched_names_empty_when_nothing_matches() {
    let entries = vec![entry("alpha", false)];
    let names = matched_names(&chars("zz"), &entries);
    assert!(names.is_empty());
}

#[test]
fn typed_prefix_is_last_segment_of_last_token() {
    assert_eq!(text(&typed_prefix_of(&chars("ls src/ma"))), "ma");
    assert_eq!(text(&typed_prefix_of(&chars("fo"))), "fo");
    assert_eq!(text(&typed_prefix_of(&chars("ls "))), "");
    assert_eq!(text(&typed_prefix_of(&chars("a/b c"))), "c");
}

#[test]
fn scope_is_search_path_only_in_command_position() {
    assert!(matches!(compute_scope(&chars("fo")), Scope::SearchPath));
    assert!(matches!(compute_scope(&chars("  fo")), Scope::SearchPath));
    match compute_scope(&chars("ls fo")) {
        Scope::Directory(d) => assert_eq!(text(&d), "."),
        Scope::SearchPath => panic!("an argument token must not search the path"),
    }
    match compute_scope(&chars("src/ma")) {
        Scope::Directory(d) => assert_eq!(text(&d), "./src"),
        Scope::SearchPath => panic!("a token with a separator must not search the path"),
    }
}

#[test]
fn scope_dir_follows_token_directory_portion() {
    assert_eq!(text(&scope_dir_of(&chars("ls src/ma"))), "./src");
    assert_eq!(text(&scope_dir_of(&chars("ls a/b/c"))), "./a/b");
    assert_eq!(text(&scope_dir_of(&chars("ls fo"))), ".");
    assert_eq!(text(&scope_dir_of(&chars(""))), ".");
}

#[test]
fn accept_line_replaces_typed_prefix_with_name() {
    let r = accept_line(&chars("ls src/ma"), &chars("main.rs"));
    assert_eq!(text(&r), "ls src/main.rs");
    let r = accept_line(&chars("ma"), &chars("main.rs"));
    assert_eq!(text(&r), "main.rs");
    let r = accept_line(&chars("cat  a/b"), &chars("bin"));
    assert_eq!(text(&r), "cat  a/bin");
}

#[test]
fn split_search_path_keeps_order_and_empty_pieces() {
    let pieces = split_search_path(&chars("/bin:/usr/bin::/opt"));
    let dirs: Vec<String> = pieces.iter().map(|p| text(p)).collect();
    assert_eq!(
        dirs,
        vec!["/bin".to_string(), "/usr/bin".to_string(), "".to_string(), "/opt".to_string()]
    );
    let single = split_search_path(&chars("/bin"));
    assert_eq!(single.len(), 1);
    assert_eq!(text(&single[0]), "/bin");
}

#[test]
fn suggestion_orders_names_by_code_point() {
    let entries = vec![entry("étude", false), entry("zebra", false)];
    let s = suggestion_for(&chars(""), &entries);
    assert_eq!(text(&s), "zebra");
}

#[test]
fn trailing_separator_makes_prefix_empty() {
    assert_eq!(text(&typed_prefix_of(&chars("ls src/"))), "");
    assert_eq!(text(&scope_dir_of(&chars("ls src/"))), "./src");
    let entries = vec![entry("main.rs", false)];
    let s = suggestion_for(&typed_prefix_of(&chars("ls src/")), &entries);
    assert_eq!(text(&s), "main.rs");
}

#[test]
fn menu_cycle_opens_then_highlights_then_advances() {
    let mut c = CompletionState::new();
    c.cycle(3);
    assert!(c.menu_visible);
    assert!(!c.highlighting);
    assert_eq!(c.highlighted_index, 0);
    c.cycle(3);
    assert!(c.highlighting);
    assert_eq!(c.highlighted_index, 0);
    c.cycle(3);
    assert_eq!(c.highlighted_index, 1);
}

#[test]
fn menu_cycle_wraps_to_zero_at_candidate_count() {
    // Three matching candidates, highlight at 2: one more request wraps to 0.
    let mut c = CompletionState::new();
    c.menu_visible = true;
    c.highlighting = true;
    c.highlighted_index = 2;
    c.cycle(3);
    assert!(c.menu_visible);
    assert!(c.highlighting);
    assert_eq!(c.highlighted_index, 0);
}

#[test]
fn menu_cycle_with_no_candidates_closes() {
    let mut c = CompletionState::new();
    c.menu_visible = true;
    c.highlighting = true;
    c.highlighted_index = 1;
    c.cycle(0);
    assert!(!c.menu_visible);
    assert!(!c.highlighting);
    assert_eq!(c.highlighted_index, 0);
}

#[test]
fn sync_closes_empty_menu_and_wraps_stale_highlight() {
    let mut c = CompletionState::new();
    c.menu_visible = true;
    c.sync_with(0);
    assert!(!c.menu_visible);
    let mut c = CompletionState::new();
    c.menu_visible = true;
    c.highlighting = true;
    c.highlighted_index = 5;
    c.sync_with(3);
    assert!(c.menu_visible);
    assert_eq!(c.highlighted_index, 0);
}

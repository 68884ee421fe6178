use lineshell::dispatch::{parse_line, tokenize, unknown_command_report, Directive};

fn chars(s: &str) -> Vec<char> {
    s.chars().collect()
}

fn text(v: &[char]) -> String {
    v.iter().collect()
}

#[test]
fn tokenize_splits_on_runs_of_whitespace() {
    let ts = tokenize(&chars("  ls  -l   /tmp "));
    let words: Vec<String> = ts.iter().map(|t| text(t)).collect();
    assert_eq!(words, vec!["ls".to_string(), "-l".to_string(), "/tmp".to_string()]);
}

#[test]
fn tokenize_handles_tabs_and_empty_line() {
    let ts = tokenize(&chars("a\tb"));
    let words: Vec<String> = ts.iter().map(|t| text(t)).collect();
    assert_eq!(words, vec!["a".to_string(), "b".to_string()]);
    assert!(tokenize(&chars("")).is_empty());
    assert!(tokenize(&chars("   \t ")).is_empty());
}

#[test]
fn parse_empty_line_is_empty_directive() {
    assert!(matches!(parse_line(&chars("")), Directive::Empty));
    assert!(matches!(parse_line(&chars("   ")), Directive::Empty));
}

#[test]
fn parse_exit_terminates_even_with_arguments() {
    // A line starting with `exit` exits at once; what follows is not run.
    assert!(matches!(parse_line(&chars("exit")), Directive::Exit));
    assert!(matches!(parse_line(&chars("exit now please")), Directive::Exit));
    assert!(matches!(parse_line(&chars("  exit  0")), Directive::Exit));
}

#[test]
fn parse_cd_takes_first_argument() {
    match parse_line(&chars("cd /tmp extra")) {
        Directive::ChangeDir(p) => assert_eq!(text(&p), "/tmp"),
        _ => panic!("cd must become a change-directory directive"),
    }
}

#[test]
fn parse_bare_cd_falls_back_to_root() {
    match parse_line(&chars("cd")) {
        Directive::ChangeDir(p) => assert_eq!(text(&p), "/"),
        _ => panic!("cd must become a change-directory directive"),
    }
}

#[test]
fn parse_other_first_token_spawns_with_args() {
    match parse_line(&chars("grep -r needle .")) {
        Directive::Spawn { program, args } => {
            assert_eq!(text(&program), "grep");
            let got: Vec<String> = args.iter().map(|a| text(a)).collect();
            assert_eq!(got, vec!["-r".to_string(), "needle".to_string(), ".".to_string()]);
        },
        _ => panic!("an unknown first token must spawn"),
    }
}

#[test]
fn parse_exit_as_argument_still_spawns() {
    match parse_line(&chars("echo exit")) {
        Directive::Spawn { program, args } => {
            assert_eq!(text(&program), "echo");
            assert_eq!(args.len(), 1);
            assert_eq!(text(&args[0]), "exit");
        },
        _ => panic!("exit not in command position must not terminate"),
    }
}

#[test]
fn unknown_command_report_quotes_the_name() {
    let r = unknown_command_report(&chars("frobnicate"));
    assert_eq!(text(&r), "Unknown Command: \"frobnicate\"");
    let r = unknown_command_report(&chars(""));
    assert_eq!(text(&r), "Unknown Command: \"\"");
}

#[test]
fn parse_near_words_are_not_builtins() {
    assert!(matches!(parse_line(&chars("exits")), Directive::Spawn { .. }));
    assert!(matches!(parse_line(&chars("cdx")), Directive::Spawn { .. }));
    assert!(matches!(parse_line(&chars("c")), Directive::Spawn { .. }));
}

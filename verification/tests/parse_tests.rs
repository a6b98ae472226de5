use catfish::parse::{parse_line, tokens, Invocation};
use catfish::text::{bytes_eq, starts_with, trim};

fn b(s: &str) -> Vec<u8> {
    s.as_bytes().to_vec()
}

#[test]
fn trim_removes_outer_whitespace() {
    assert_eq!(trim(&b("  ls -la \t")), b("ls -la"));
    assert_eq!(trim(&b("ls")), b("ls"));
    assert_eq!(trim(&b("   \t ")), b(""));
    assert_eq!(trim(&b("")), b(""));
}

#[test]
fn tokens_split_on_whitespace() {
    assert_eq!(tokens(&b("ls -la  /tmp")), vec![b("ls"), b("-la"), b("/tmp")]);
    assert_eq!(tokens(&b("  ")), Vec::<Vec<u8>>::new());
    assert_eq!(tokens(&b("one")), vec![b("one")]);
}

#[test]
fn bytes_helpers() {
    assert!(bytes_eq(&b("abc"), &b("abc")));
    assert!(!bytes_eq(&b("abc"), &b("abd")));
    assert!(!bytes_eq(&b("abc"), &b("ab")));
    assert!(starts_with(&b("foobar"), &b("foo")));
    assert!(starts_with(&b("foo"), &b("")));
    assert!(!starts_with(&b("fo"), &b("foo")));
    assert!(!starts_with(&b("bar"), &b("foo")));
}

#[test]
fn single_command_parses_to_one_external() {
    let invs = parse_line(&b("ls -la"));
    assert_eq!(
        invs,
        vec![Invocation::External { name: b("ls"), args: vec![b("-la")] }]
    );
}

#[test]
fn pipeline_parses_in_order() {
    let invs = parse_line(&b("ls -la | grep foo"));
    assert_eq!(
        invs,
        vec![
            Invocation::External { name: b("ls"), args: vec![b("-la")] },
            Invocation::External { name: b("grep"), args: vec![b("foo")] },
        ]
    );
}

#[test]
fn blank_lines_parse_to_empty_pipeline() {
    assert_eq!(parse_line(&b("")), Vec::<Invocation>::new());
    assert_eq!(parse_line(&b("   \t ")), Vec::<Invocation>::new());
}

#[test]
fn line_is_trimmed_before_splitting() {
    // After trimming, the leading separator text is no separator at all:
    // the piece is "| ls", whose first token names the command "|".
    let invs = parse_line(&b(" | ls"));
    assert_eq!(
        invs,
        vec![Invocation::External { name: b("|"), args: vec![b("ls")] }]
    );
    assert_eq!(
        parse_line(&b("  ls  ")),
        vec![Invocation::External { name: b("ls"), args: Vec::new() }]
    );
}

#[test]
fn cd_forms() {
    assert_eq!(parse_line(&b("cd")), vec![Invocation::Cd { arg: None }]);
    assert_eq!(parse_line(&b("cd /tmp")), vec![Invocation::Cd { arg: Some(b("/tmp")) }]);
    // only the first argument counts
    assert_eq!(parse_line(&b("cd /tmp /var")), vec![Invocation::Cd { arg: Some(b("/tmp")) }]);
}

#[test]
fn exit_and_near_misses() {
    assert_eq!(parse_line(&b("exit")), vec![Invocation::Exit]);
    assert_eq!(
        parse_line(&b("exits")),
        vec![Invocation::External { name: b("exits"), args: Vec::new() }]
    );
    assert_eq!(
        parse_line(&b("cdx")),
        vec![Invocation::External { name: b("cdx"), args: Vec::new() }]
    );
}

#[test]
fn builtin_inside_pipeline_is_still_a_builtin() {
    let invs = parse_line(&b("ls | cd /tmp | wc"));
    assert_eq!(
        invs,
        vec![
            Invocation::External { name: b("ls"), args: Vec::new() },
            Invocation::Cd { arg: Some(b("/tmp")) },
            Invocation::External { name: b("wc"), args: Vec::new() },
        ]
    );
}

#[test]
fn separator_must_have_spaces_on_both_sides() {
    let invs = parse_line(&b("ls|wc"));
    assert_eq!(
        invs,
        vec![Invocation::External { name: b("ls|wc"), args: Vec::new() }]
    );
    let invs = parse_line(&b("ls |wc"));
    assert_eq!(
        invs,
        vec![Invocation::External { name: b("ls"), args: vec![b("|wc")] }]
    );
}

#[test]
fn empty_piece_between_separators_is_skipped() {
    let invs = parse_line(&b("ls |  | wc"));
    assert_eq!(
        invs,
        vec![
            Invocation::External { name: b("ls"), args: Vec::new() },
            Invocation::External { name: b("wc"), args: Vec::new() },
        ]
    );
}

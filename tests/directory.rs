use ccx::{parse_session_line, parse_session_list, Session};

fn pairs(v: &[Session]) -> Vec<(String, bool)> {
    v.iter().map(|s| (s.name.clone(), s.attached)).collect()
}

#[test]
fn listing_keeps_only_prefixed_sessions() {
    let out = "ccx-0000abcd:1\nwork:0\nccx-12345678:0\nmy-ccx-1:1\n";
    let got = parse_session_list(out);
    assert_eq!(
        pairs(&got),
        vec![
            ("ccx-0000abcd".to_string(), true),
            ("ccx-12345678".to_string(), false)
        ]
    );
    assert!(got.iter().all(|s| s.name.starts_with("ccx-")));
}

#[test]
fn listing_of_nothing_is_empty() {
    assert!(parse_session_list("").is_empty());
    assert!(parse_session_list("\n\n").is_empty());
    assert!(parse_session_list("main:1\nother:0").is_empty());
}

#[test]
fn listing_without_final_newline_and_with_crlf() {
    let got = parse_session_list("ccx-a:0\r\nccx-b:1");
    assert_eq!(
        pairs(&got),
        vec![("ccx-a".to_string(), false), ("ccx-b".to_string(), true)]
    );
}

#[test]
fn listing_line_needs_a_colon() {
    assert!(parse_session_line("ccx-abc").is_none());
    assert!(parse_session_line("ccx:1").is_none());
    let s = parse_session_line("ccx-x:y:1").unwrap();
    assert_eq!(s.name, "ccx-x");
    assert!(!s.attached);
    let s = parse_session_line("ccx-x:2").unwrap();
    assert!(!s.attached);
    let s = parse_session_line("ccx-:1").unwrap();
    assert_eq!(s.name, "ccx-");
    assert!(s.attached);
}

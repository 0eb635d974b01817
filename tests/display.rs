use ccx::{
    is_blank, lines_of, list_table, name_at_most, pad_right, parse_session_list, recent_output,
    shorten_path, sort_by_name, status_line, trim_text,
};

#[test]
fn recent_output_keeps_last_nonblank_lines() {
    let content = "a\n\n  \nb\r\nc\n\n";
    assert_eq!(recent_output(content, 2), vec!["b", "c"]);
    assert_eq!(recent_output(content, 10), vec!["a", "b", "c"]);
    assert!(recent_output(content, 0).is_empty());
    assert!(recent_output("", 5).is_empty());
}

#[test]
fn lines_and_blank_and_trim() {
    assert_eq!(lines_of("x\ny\n"), vec!["x", "y", ""]);
    assert_eq!(lines_of(""), vec![""]);
    assert!(is_blank(" \t"));
    assert!(!is_blank(" a "));
    assert_eq!(trim_text("  ✳ title \n"), "✳ title");
    assert_eq!(trim_text("   "), "");
}

#[test]
fn home_is_shortened() {
    assert_eq!(shorten_path("/home/u/proj", Some("/home/u")), "~/proj");
    assert_eq!(shorten_path("/srv/x", Some("/home/u")), "/srv/x");
    assert_eq!(shorten_path("/srv/x", None), "/srv/x");
}

#[test]
fn overview_line_shapes() {
    assert_eq!(
        status_line("ccx-1", "✳ Done now", Some("/home/u/p"), Some("/home/u")),
        "ccx-1 *done* [✳ Done now] ~/p"
    );
    assert_eq!(
        status_line("ccx-2", "⠙ busy", None, None),
        "ccx-2 *in-progress* [⠙ busy]"
    );
    assert_eq!(status_line("ccx-3", "", None, None), "ccx-3");
    assert_eq!(status_line("ccx-4", "plain", None, None), "ccx-4 [plain]");
}

#[test]
fn list_table_sorted_and_padded() {
    let sessions = parse_session_list("ccx-b:0\nccx-a:1\n");
    let got = list_table(sessions);
    assert_eq!(
        got,
        vec![
            format!("{:<20} {:<10}", "SESSION", "ATTACHED"),
            format!("{:-<20} {:-<10}", "", ""),
            format!("{:<20} {:<10}", "ccx-a", "yes"),
            format!("{:<20} {:<10}", "ccx-b", "no"),
        ]
    );
    assert_eq!(list_table(Vec::new()), vec!["No active ccx sessions"]);
}

#[test]
fn sorting_and_ordering() {
    let sorted = sort_by_name(parse_session_list("ccx-c:0\nccx-a:0\nccx-b:1\n"));
    let names: Vec<&str> = sorted.iter().map(|s| s.name.as_str()).collect();
    assert_eq!(names, vec!["ccx-a", "ccx-b", "ccx-c"]);
    assert!(name_at_most("ab", "abc"));
    assert!(!name_at_most("abc", "ab"));
    assert!(name_at_most("", ""));
    assert!(name_at_most("a", "b"));
    assert_eq!(pad_right("ab", 4, "."), "ab..");
    assert_eq!(pad_right("abcdef", 4, "."), "abcdef");
}

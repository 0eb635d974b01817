use ccx::{is_braille_spinner, parse_status_from_title, SessionStatus};

#[test]
fn test_is_braille_spinner() {
    // All braille patterns except blank should be spinners
    assert!(is_braille_spinner('⠐')); // U+2810
    assert!(is_braille_spinner('⠋')); // U+280B
    assert!(is_braille_spinner('⠂')); // U+2802
    assert!(is_braille_spinner('⣿')); // U+28FF (max braille)
    assert!(is_braille_spinner('⠁')); // U+2801 (min non-blank braille)

    // Blank braille and non-braille should not be spinners
    assert!(!is_braille_spinner('⠀')); // U+2800 (blank braille)
    assert!(!is_braille_spinner('A'));
    assert!(!is_braille_spinner('✳'));
}

#[test]
fn test_parse_status_done() {
    assert_eq!(
        parse_status_from_title("✳ Stack Issue 1"),
        SessionStatus::Done
    );
    assert_eq!(parse_status_from_title("✳"), SessionStatus::Done);
    assert_eq!(
        parse_status_from_title("  ✳ with spaces"),
        SessionStatus::Done
    );
}

#[test]
fn test_parse_status_in_progress() {
    assert_eq!(
        parse_status_from_title("⠐ Stack Issue 1"),
        SessionStatus::InProgress
    );
    assert_eq!(
        parse_status_from_title("⠋ Spinning"),
        SessionStatus::InProgress
    );
    assert_eq!(
        parse_status_from_title("⠹ Another spinner"),
        SessionStatus::InProgress
    );
    // The spinner frame with a single low dot
    assert_eq!(
        parse_status_from_title("⠂ Status Indicators"),
        SessionStatus::InProgress
    );
}

#[test]
fn test_parse_status_unknown() {
    assert_eq!(parse_status_from_title(""), SessionStatus::Unknown);
    assert_eq!(parse_status_from_title("   "), SessionStatus::Unknown);
    assert_eq!(
        parse_status_from_title("No spinner here"),
        SessionStatus::Unknown
    );
}

#[test]
fn test_session_status_display() {
    assert_eq!(SessionStatus::InProgress.to_string(), "in-progress");
    assert_eq!(SessionStatus::Done.to_string(), "done");
    assert_eq!(SessionStatus::Unknown.to_string(), "unknown");
}

#[test]
fn classify_example_titles() {
    assert_eq!(parse_status_from_title("✳ Build finished"), SessionStatus::Done);
    assert_eq!(parse_status_from_title("⠙ compiling"), SessionStatus::InProgress);
    assert_eq!(parse_status_from_title(""), SessionStatus::Unknown);
    assert_eq!(parse_status_from_title("  "), SessionStatus::Unknown);
    assert_eq!(parse_status_from_title("Just text"), SessionStatus::Unknown);
}

#[test]
fn blank_titles_of_any_white_space_are_unknown() {
    assert_eq!(parse_status_from_title("\t\n \r"), SessionStatus::Unknown);
    assert_eq!(parse_status_from_title("\u{3000}\u{a0}"), SessionStatus::Unknown);
}

#[test]
fn done_glyph_after_unicode_white_space() {
    assert_eq!(parse_status_from_title("\u{2003}\u{2733} done"), SessionStatus::Done);
    assert_eq!(parse_status_from_title("\t✳"), SessionStatus::Done);
}

#[test]
fn spinner_block_bounds() {
    assert_eq!(parse_status_from_title("\u{2801}"), SessionStatus::InProgress);
    assert_eq!(parse_status_from_title("\u{28ff} x"), SessionStatus::InProgress);
    assert_eq!(parse_status_from_title("\u{2800} x"), SessionStatus::Unknown);
    assert_eq!(parse_status_from_title("\u{2900}"), SessionStatus::Unknown);
    assert_eq!(parse_status_from_title("\u{27ff}"), SessionStatus::Unknown);
}

#[test]
fn only_the_first_character_counts() {
    assert_eq!(parse_status_from_title("a ✳"), SessionStatus::Unknown);
    assert_eq!(parse_status_from_title("Z⠙"), SessionStatus::Unknown);
    assert_eq!(parse_status_from_title("⠙ ✳"), SessionStatus::InProgress);
}

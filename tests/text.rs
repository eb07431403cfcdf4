use reasoning_translation::text::{
    extract_first_bold, extract_reasoning_body_for_translation, format_bilingual_title, is_white,
    trim_chars,
};

fn chars(s: &str) -> Vec<char> {
    s.chars().collect()
}

#[test]
fn bold_title_is_extracted_and_trimmed() {
    assert_eq!(extract_first_bold("**Plan**"), Some("Plan".to_string()));
    assert_eq!(extract_first_bold("intro **  Check files ** rest"), Some("Check files".to_string()));
    assert_eq!(extract_first_bold("**计划**"), Some("计划".to_string()));
}

#[test]
fn bold_title_needs_a_closed_nonblank_pair() {
    assert_eq!(extract_first_bold("no markers"), None);
    assert_eq!(extract_first_bold("**still streaming"), None);
    assert_eq!(extract_first_bold("**   ** later **x**"), None);
    assert_eq!(extract_first_bold(""), None);
}

#[test]
fn reasoning_body_follows_the_title() {
    assert_eq!(
        extract_reasoning_body_for_translation("  **Plan**\n\nRead the code first.  "),
        Some("Read the code first.".to_string())
    );
    assert_eq!(extract_reasoning_body_for_translation("**Plan**   "), None);
    assert_eq!(extract_reasoning_body_for_translation("Plan without title"), None);
    assert_eq!(extract_reasoning_body_for_translation("**open only"), None);
}

#[test]
fn bilingual_title_wraps_translation_in_parentheses() {
    assert_eq!(format_bilingual_title("Plan", "计划"), "Plan(计划)");
    assert_eq!(format_bilingual_title("", ""), "()");
}

#[test]
fn trim_removes_unicode_white_space_at_both_ends() {
    assert_eq!(trim_chars(&chars("\u{3000} a b \n\t")), chars("a b"));
    assert_eq!(trim_chars(&chars("   ")), Vec::<char>::new());
    assert!(is_white('\u{2028}'));
    assert!(!is_white('x'));
}

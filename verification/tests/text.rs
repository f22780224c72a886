use heic_convert::search::output_file_name;
use heic_convert::text::same_text;

#[test]
fn decimal_rendering() {
    assert_eq!(output_file_name("a", "b", 7), "a (7).b");
    assert_eq!(output_file_name("a", "b", 10), "a (10).b");
    assert_eq!(output_file_name("a", "b", 305), "a (305).b");
    assert_eq!(output_file_name("a", "b", u32::MAX), format!("a ({}).b", u32::MAX));
}

#[test]
fn text_helpers() {
    assert!(same_text("png", "png"));
    assert!(!same_text("png", "PNG"));
    assert!(!same_text("png", "pn"));
    assert!(same_text("", ""));
}

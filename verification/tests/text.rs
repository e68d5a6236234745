use yoo::paths::{extension, file_name_of, stem};
use yoo::text::{chars_of, parse_u64_text, string_of, trimmed};

#[test]
fn trims_and_parses_text() {
    assert_eq!(trimmed("  a b \n"), "a b");
    assert_eq!(parse_u64_text("+42"), Some(42));
    assert_eq!(parse_u64_text("18446744073709551616"), None);
    assert_eq!(parse_u64_text(""), None);
}

#[test]
fn splits_paths_like_std() {
    assert_eq!(file_name_of("/a/b.tar.gz/", false).map(|v| string_of(&v)), Some("b.tar.gz".into()));
    assert_eq!(file_name_of("/a/..", false), None);
    assert_eq!(string_of(&stem(&chars_of("b.tar.gz"))), "b.tar");
    assert_eq!(extension(&chars_of("b.tar.gz")).map(|v| string_of(&v)), Some("gz".into()));
    assert_eq!(extension(&chars_of(".bashrc")), None);
}

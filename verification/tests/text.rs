use map_editor::text::{joined, decimal_string};

#[test]
fn decimal_string_matches_format() {
    for n in [0usize, 1, 9, 10, 11, 99, 100, 101, 12345, 1000000, usize::MAX] {
        assert_eq!(decimal_string(n), format!("{}", n));
    }
}

#[test]
fn decimal_strings_differ_for_different_numbers() {
    let mut seen = std::collections::HashSet::new();
    for n in 0..2000usize {
        assert!(seen.insert(decimal_string(n)));
    }
}

#[test]
fn concat_joins() {
    assert_eq!(joined("ab", "cd"), "abcd");
    assert_eq!(joined("", ""), "");
}

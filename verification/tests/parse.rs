use enum_extend::args::parse_extends;

fn ids(items: &[&str]) -> Option<Vec<Vec<u8>>> {
    Some(items.iter().map(|s| s.as_bytes().to_vec()).collect())
}

#[test]
fn single_item_with_trailing_comma_is_a_list() {
    assert_eq!(parse_extends(&b"(A,)".to_vec()), ids(&["A"]));
}

#[test]
fn single_item_without_trailing_comma_is_rejected() {
    assert_eq!(parse_extends(&b"(A)".to_vec()), None);
}

#[test]
fn two_items() {
    assert_eq!(parse_extends(&b"(A, B)".to_vec()), ids(&["A", "B"]));
}

#[test]
fn two_items_with_trailing_comma() {
    assert_eq!(parse_extends(&b"(A, B,)".to_vec()), ids(&["A", "B"]));
}

#[test]
fn empty_list() {
    assert_eq!(parse_extends(&b"()".to_vec()), ids(&[]));
}

#[test]
fn blank_space_is_ignored() {
    assert_eq!(parse_extends(&b"  ( Alpha ,\n Beta_2 )  ".to_vec()), ids(&["Alpha", "Beta_2"]));
}

#[test]
fn underscore_and_digits_in_identifiers() {
    assert_eq!(parse_extends(&b"(_x1,)".to_vec()), ids(&["_x1"]));
}

#[test]
fn item_starting_with_a_digit_is_rejected() {
    assert_eq!(parse_extends(&b"(1A,)".to_vec()), None);
}

#[test]
fn path_item_is_rejected() {
    assert_eq!(parse_extends(&b"(some::Path,)".to_vec()), None);
}

#[test]
fn missing_closing_parenthesis_is_rejected() {
    assert_eq!(parse_extends(&b"(A,".to_vec()), None);
}

#[test]
fn trailing_junk_is_rejected() {
    assert_eq!(parse_extends(&b"(A,) extra".to_vec()), None);
}

#[test]
fn missing_opening_parenthesis_is_rejected() {
    assert_eq!(parse_extends(&b"A,".to_vec()), None);
}

#[test]
fn doubled_comma_is_rejected() {
    assert_eq!(parse_extends(&b"(A,,B)".to_vec()), None);
}

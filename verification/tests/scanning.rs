use cosmos_submit::text::{
    char_is_digit, char_is_space, chars_of, contains, drop_spaces, find, find_field, read_decimal,
    skip_digits, skip_spaces,
};

fn text_of(chars: &[char], range: (usize, usize)) -> String {
    chars[range.0..range.1].iter().collect()
}

#[test]
fn chars_of_keeps_every_character_in_order() {
    assert_eq!(chars_of("a:b"), vec!['a', ':', 'b']);
    assert_eq!(chars_of("h\u{e9}!"), vec!['h', '\u{e9}', '!']);
    assert_eq!(chars_of(""), Vec::<char>::new());
}

#[test]
fn find_gives_the_first_position_in_the_range() {
    let s = chars_of("a,b,c");
    assert_eq!(find(&s, ',', 0, 5), 1);
    assert_eq!(find(&s, ',', 2, 5), 3);
    assert_eq!(find(&s, ',', 1, 5), 1);
}

#[test]
fn find_gives_the_end_of_the_range_where_nothing_is_found() {
    let s = chars_of("a,b,c");
    assert_eq!(find(&s, ';', 0, 5), 5);
    assert_eq!(find(&s, ',', 2, 3), 3);
    assert_eq!(find(&s, ',', 4, 4), 4);
}

#[test]
fn contains_finds_a_pattern_anywhere() {
    let s = chars_of("insufficient fees; got");
    assert!(contains(&s, &chars_of("insufficient fee")));
    assert!(contains(&s, &chars_of("; got")));
    assert!(contains(&s, &chars_of("fees")));
    assert!(contains(&s, &chars_of("")));
    assert!(contains(&s, &s));
}

#[test]
fn contains_refuses_what_is_not_there() {
    let s = chars_of("insufficient funds");
    assert!(!contains(&s, &chars_of("insufficient fee")));
    assert!(!contains(&s, &chars_of("insufficient funds!")));
    assert!(!contains(&chars_of(""), &chars_of("a")));
    assert!(contains(&chars_of(""), &chars_of("")));
}

#[test]
fn find_field_cuts_at_every_separator() {
    let s = chars_of("a: bc :d");
    assert_eq!(find_field(&s, ':', 0).map(|r| text_of(&s, r)), Some("a".to_string()));
    assert_eq!(find_field(&s, ':', 1).map(|r| text_of(&s, r)), Some(" bc ".to_string()));
    assert_eq!(find_field(&s, ':', 2).map(|r| text_of(&s, r)), Some("d".to_string()));
    assert_eq!(find_field(&s, ':', 3), None);
}

#[test]
fn find_field_keeps_empty_items() {
    let s = chars_of("::");
    assert_eq!(find_field(&s, ':', 0), Some((0, 0)));
    assert_eq!(find_field(&s, ':', 1), Some((1, 1)));
    assert_eq!(find_field(&s, ':', 2), Some((2, 2)));
    assert_eq!(find_field(&s, ':', 3), None);
    let empty = chars_of("");
    assert_eq!(find_field(&empty, ':', 0), Some((0, 0)));
    assert_eq!(find_field(&empty, ':', 1), None);
}

#[test]
fn blanks_and_digits_are_told_apart() {
    assert!(char_is_space(' ') && char_is_space('\t') && char_is_space('\n') && char_is_space('\r'));
    assert!(!char_is_space('a') && !char_is_space('0'));
    assert!(char_is_digit('0') && char_is_digit('9'));
    assert!(!char_is_digit('/') && !char_is_digit(':') && !char_is_digit('a'));
}

#[test]
fn skipping_stops_at_the_first_other_character() {
    let s = chars_of("  12ab  ");
    assert_eq!(skip_spaces(&s, 0, 8), 2);
    assert_eq!(skip_spaces(&s, 2, 8), 2);
    assert_eq!(skip_digits(&s, 2, 8), 4);
    assert_eq!(skip_digits(&s, 4, 8), 4);
    assert_eq!(drop_spaces(&s, 0, 8), 6);
    assert_eq!(drop_spaces(&s, 0, 6), 6);
    let blank = chars_of("   ");
    assert_eq!(skip_spaces(&blank, 0, 3), 3);
    assert_eq!(drop_spaces(&blank, 1, 3), 1);
}

#[test]
fn read_decimal_reads_the_digits_of_the_range() {
    let s = chars_of("x1234y");
    assert_eq!(read_decimal(&s, 1, 5), Some(1234));
    assert_eq!(read_decimal(&s, 2, 4), Some(23));
    assert_eq!(read_decimal(&s, 3, 3), Some(0));
    assert_eq!(read_decimal(&chars_of("007"), 0, 3), Some(7));
}

#[test]
fn read_decimal_gives_nothing_for_another_character() {
    let s = chars_of("x1234y");
    assert_eq!(read_decimal(&s, 0, 5), None);
    assert_eq!(read_decimal(&s, 1, 6), None);
    assert_eq!(read_decimal(&chars_of("12 4"), 0, 4), None);
    assert_eq!(read_decimal(&chars_of("-1"), 0, 2), None);
}

#[test]
fn read_decimal_gives_nothing_past_the_largest_number() {
    let max = chars_of("340282366920938463463374607431768211455");
    assert_eq!(read_decimal(&max, 0, max.len()), Some(u128::MAX));
    let over = chars_of("340282366920938463463374607431768211456");
    assert_eq!(read_decimal(&over, 0, over.len()), None);
}

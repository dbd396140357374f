use learn_rust::{
    add_digits, add_three, calculate_length, create_lesson, first_word_index, first_word_slice,
    is_whitespace_byte, token_end_of,
};

#[test]
fn whitespace_bytes() {
    for b in [b' ', b'\t', b'\n', b'\r', 0x0c] {
        assert!(is_whitespace_byte(b));
    }
    for b in [b'a', b'0', b'!', 0x0b, 0x00, 0xa0, 0xff] {
        assert!(!is_whitespace_byte(b));
    }
}

#[test]
fn token_end_of_slices() {
    assert_eq!(token_end_of(b""), 0);
    assert_eq!(token_end_of(b"abc"), 3);
    assert_eq!(token_end_of(b"ab c"), 2);
    assert_eq!(token_end_of(b" abc"), 0);
    assert_eq!(token_end_of(b"a\tb c"), 1);
}

#[test]
fn first_word_index_of_sentence() {
    let s = String::from("Lazar likes the Rust language!");
    assert_eq!(first_word_index(&s), 5);
    assert_eq!(first_word_index(&String::from("")), 0);
    assert_eq!(first_word_index(&String::from("NoSpacesHere")), 12);
}

#[test]
fn first_word_slice_of_sentence() {
    let s = String::from("Lazar likes the Rust language!");
    assert_eq!(first_word_slice(&s), "Lazar");
    assert_eq!(first_word_slice(&String::from("")), "");
    assert_eq!(first_word_slice(&String::from("NoSpacesHere")), "NoSpacesHere");
    assert_eq!(first_word_slice(&String::from(" lead")), "");
}

#[test]
fn first_word_slice_multibyte() {
    let s = String::from("ünïcode wörds");
    assert_eq!(first_word_index(&s), 9);
    assert_eq!(first_word_slice(&s), "ünïcode");
}

#[test]
fn length_counts_bytes() {
    assert_eq!(calculate_length(&String::from("Lazar")), 5);
    assert_eq!(calculate_length(&String::from("")), 0);
    assert_eq!(calculate_length(&String::from("ö")), 2);
}

#[test]
fn digits_are_appended() {
    let mut digits = String::from("abc");
    add_digits(&mut digits);
    assert_eq!(digits, "abcdef");
    add_digits(&mut digits);
    assert_eq!(digits, "abcdefdef");
}

#[test]
fn three_is_added() {
    assert_eq!(add_three(3), 6);
    assert_eq!(add_three(-3), 0);
    assert_eq!(add_three(i32::MAX - 3), i32::MAX);
}

#[test]
fn new_lesson_is_unpublished() {
    let lesson = create_lesson(
        String::from("Chakra UI Course"),
        1,
        String::from("https://egghead.io/courses/build-a-modern-user-interface-with-chakra-ui-fac68106"),
    );
    assert_eq!(lesson.name, "Chakra UI Course");
    assert_eq!(lesson.duration, 1);
    assert_eq!(
        lesson.url,
        "https://egghead.io/courses/build-a-modern-user-interface-with-chakra-ui-fac68106"
    );
    assert!(!lesson.is_published);
}

use tallr::text::{bytes_eq, concat2, is_blank, str_eq, u64_to_decimal};

#[test]
fn strings_are_equal_when_their_characters_are() {
    assert!(str_eq("", ""));
    assert!(str_eq("DONE", "DONE"));
    assert!(!str_eq("DONE", "DONe"));
    assert!(!str_eq("DONE", "DONE "));
    assert!(!str_eq("", "x"));
    assert!(str_eq("gr\u{fc}n", "gr\u{fc}n"));
    assert!(!str_eq("gr\u{fc}n", "grun"));
}

#[test]
fn byte_slices_are_equal_when_their_bytes_are() {
    assert!(bytes_eq(b"", b""));
    assert!(bytes_eq(b"abc", b"abc"));
    assert!(!bytes_eq(b"abc", b"abd"));
    assert!(!bytes_eq(b"abc", b"ab"));
}

#[test]
fn numbers_are_written_in_decimal() {
    assert_eq!(u64_to_decimal(0), "0");
    assert_eq!(u64_to_decimal(7), "7");
    assert_eq!(u64_to_decimal(9), "9");
    assert_eq!(u64_to_decimal(10), "10");
    assert_eq!(u64_to_decimal(1234567890), "1234567890");
    assert_eq!(u64_to_decimal(u64::MAX), "18446744073709551615");
    for n in [1u64, 42, 99, 100, 101, 999, 1000, 65535, 4_294_967_296] {
        assert_eq!(u64_to_decimal(n), n.to_string());
    }
}

#[test]
fn two_strings_are_joined_in_order() {
    assert_eq!(concat2("ab", "cd"), "abcd");
    assert_eq!(concat2("", "cd"), "cd");
    assert_eq!(concat2("ab", ""), "ab");
}

#[test]
fn a_text_of_white_space_is_blank() {
    assert!(is_blank(""));
    assert!(is_blank(" "));
    assert!(is_blank(" \t\r\n "));
    assert!(is_blank("\u{a0}\u{2003}"));
    assert!(!is_blank("x"));
    assert!(!is_blank("  {}  "));
    assert!(!is_blank("\u{200b}"));
}

use dir_player::{str_eq, u64_to_padded3_string, u64_to_string};

#[test]
fn decimal_rendering() {
    assert_eq!(u64_to_string(0), "0");
    assert_eq!(u64_to_string(7), "7");
    assert_eq!(u64_to_string(10), "10");
    assert_eq!(u64_to_string(1_234), "1234");
    assert_eq!(u64_to_string(u64::MAX), "18446744073709551615");
}

#[test]
fn padded_rendering() {
    assert_eq!(u64_to_padded3_string(0), "000");
    assert_eq!(u64_to_padded3_string(5), "005");
    assert_eq!(u64_to_padded3_string(57), "057");
    assert_eq!(u64_to_padded3_string(234), "234");
    assert_eq!(u64_to_padded3_string(1_199), "1199");
}

#[test]
fn string_equality_is_character_wise() {
    assert!(str_eq("", ""));
    assert!(str_eq("chunk_started", "chunk_started"));
    assert!(!str_eq("chunk_started", "chunk_ended"));
    assert!(!str_eq("abc", "ab"));
    assert!(!str_eq("ab", "abc"));
    assert!(str_eq("héllo", "héllo"));
    assert!(!str_eq("héllo", "hello"));
}

use geopattern::digest::{decode_window, hex_digit, read_digits, PatternError};

const DIGEST: &str = "51551ffd119cd1cea023f9a13890ee014f8d53b7";

#[test]
fn hex_digit_accepts_both_cases() {
    assert_eq!(hex_digit(b'0'), Some(0));
    assert_eq!(hex_digit(b'9'), Some(9));
    assert_eq!(hex_digit(b'a'), Some(10));
    assert_eq!(hex_digit(b'f'), Some(15));
    assert_eq!(hex_digit(b'A'), Some(10));
    assert_eq!(hex_digit(b'F'), Some(15));
}

#[test]
fn hex_digit_refuses_other_bytes() {
    assert_eq!(hex_digit(b'g'), None);
    assert_eq!(hex_digit(b'G'), None);
    assert_eq!(hex_digit(b'/'), None);
    assert_eq!(hex_digit(b':'), None);
    assert_eq!(hex_digit(b'+'), None);
    assert_eq!(hex_digit(b' '), None);
    assert_eq!(hex_digit(0), None);
    assert_eq!(hex_digit(0xff), None);
}

#[test]
fn decode_window_reads_one_digit() {
    assert_eq!(decode_window(DIGEST, 0, 1), Ok(5));
    assert_eq!(decode_window(DIGEST, 1, 1), Ok(1));
    assert_eq!(decode_window(DIGEST, 20, 1), Ok(15));
    assert_eq!(decode_window(DIGEST, 39, 1), Ok(7));
}

#[test]
fn decode_window_reads_most_significant_digit_first() {
    assert_eq!(decode_window(DIGEST, 14, 3), Ok(0xcea));
    assert_eq!(decode_window("00ff", 2, 2), Ok(255));
    assert_eq!(decode_window("00fF", 0, 4), Ok(255));
    assert_eq!(decode_window("10", 0, 2), Ok(16));
}

#[test]
fn decode_window_reads_the_largest_number() {
    assert_eq!(decode_window("ffffffffffffffff", 0, 16), Ok(u64::MAX));
    assert_eq!(decode_window("00ffffffffffffffff", 0, 18), Ok(u64::MAX));
}

#[test]
fn decode_window_refuses_a_number_too_large() {
    assert_eq!(decode_window("10000000000000000", 0, 17), Err(PatternError::MalformedDigest));
}

#[test]
fn decode_window_refuses_a_window_past_the_end() {
    assert_eq!(decode_window("abc", 1, 3), Err(PatternError::MalformedDigest));
    assert_eq!(decode_window("abc", 3, 1), Err(PatternError::MalformedDigest));
    assert_eq!(decode_window("abc", 4, 0), Err(PatternError::MalformedDigest));
    assert_eq!(decode_window("", 0, 1), Err(PatternError::MalformedDigest));
    assert_eq!(decode_window("abc", usize::MAX, 2), Err(PatternError::MalformedDigest));
    assert_eq!(decode_window("abc", 2, usize::MAX), Err(PatternError::MalformedDigest));
}

#[test]
fn decode_window_refuses_an_empty_window() {
    assert_eq!(decode_window("abc", 0, 0), Err(PatternError::MalformedDigest));
}

#[test]
fn decode_window_refuses_other_characters() {
    assert_eq!(decode_window("abg", 0, 3), Err(PatternError::MalformedDigest));
    assert_eq!(decode_window("+ab", 0, 3), Err(PatternError::MalformedDigest));
    assert_eq!(decode_window("-1", 0, 2), Err(PatternError::MalformedDigest));
    assert_eq!(decode_window("a b", 0, 3), Err(PatternError::MalformedDigest));
    assert_eq!(decode_window("é1", 0, 1), Err(PatternError::MalformedDigest));
}

#[test]
fn decode_window_looks_at_the_window_only() {
    assert_eq!(decode_window("zz1fzz", 2, 2), Ok(0x1f));
}

#[test]
fn read_digits_reads_the_front() {
    assert_eq!(read_digits(DIGEST, 6), Ok(vec![5, 1, 5, 5, 1, 15]));
    assert_eq!(read_digits(DIGEST, 0), Ok(vec![]));
    assert_eq!(read_digits(DIGEST, 40).map(|d| d.len()), Ok(40));
    assert_eq!(read_digits("12zz", 2), Ok(vec![1, 2]));
}

#[test]
fn read_digits_refuses_a_short_or_foreign_digest() {
    assert_eq!(read_digits(DIGEST, 41), Err(PatternError::MalformedDigest));
    assert_eq!(read_digits("12zz", 3), Err(PatternError::MalformedDigest));
}

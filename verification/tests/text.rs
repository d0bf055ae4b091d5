use raphael_bencher::text::{contains, decimal};

#[test]
fn decimal_of_zero_is_one_digit() {
    assert_eq!(decimal(0), "0");
}

#[test]
fn decimal_of_single_digits() {
    assert_eq!(decimal(1), "1");
    assert_eq!(decimal(7), "7");
    assert_eq!(decimal(9), "9");
}

#[test]
fn decimal_keeps_inner_and_trailing_zeros() {
    assert_eq!(decimal(10), "10");
    assert_eq!(decimal(100), "100");
    assert_eq!(decimal(1002003), "1002003");
}

#[test]
fn decimal_of_common_numbers() {
    assert_eq!(decimal(42), "42");
    assert_eq!(decimal(31180380), "31180380");
}

#[test]
fn decimal_of_largest_number() {
    assert_eq!(decimal(u64::MAX), "18446744073709551615");
}

#[test]
fn decimal_agrees_with_std_formatting() {
    let samples: Vec<u64> = vec![0, 5, 19, 99, 101, 65535, 65536, 4294967296, 999999999999];
    for n in samples {
        assert_eq!(decimal(n), format!("{}", n));
    }
}

#[test]
fn contains_finds_a_mention_in_the_middle() {
    assert!(contains("hey @RaphaelBencher please check", "@RaphaelBencher"));
}

#[test]
fn contains_finds_a_match_at_either_end() {
    assert!(contains("@RaphaelBencher go", "@RaphaelBencher"));
    assert!(contains("go @RaphaelBencher", "@RaphaelBencher"));
    assert!(contains("@RaphaelBencher", "@RaphaelBencher"));
}

#[test]
fn contains_rejects_a_near_miss() {
    assert!(!contains("hey @RaphaelBenche please", "@RaphaelBencher"));
    assert!(!contains("hey @raphaelbencher please", "@RaphaelBencher"));
    assert!(!contains("hey @Raphael Bencher please", "@RaphaelBencher"));
}

#[test]
fn contains_rejects_a_needle_longer_than_the_text() {
    assert!(!contains("@Raphael", "@RaphaelBencher"));
    assert!(!contains("", "x"));
}

#[test]
fn contains_finds_the_empty_needle_everywhere() {
    assert!(contains("abc", ""));
    assert!(contains("", ""));
}

#[test]
fn contains_finds_a_match_after_a_false_start() {
    assert!(contains("aaab", "aab"));
    assert!(contains("abababc", "ababc"));
    assert!(!contains("ababab", "ababc"));
}

#[test]
fn contains_compares_characters_not_bytes() {
    assert!(contains("grüße @RaphaelBencher", "@RaphaelBencher"));
    assert!(contains("naïve café", "ï"));
    assert!(!contains("cafe", "é"));
}

#[test]
fn contains_agrees_with_std_search() {
    let texts: Vec<&str> = vec!["", "a", "ab", "abc", "aab", "abab", "xyzabc", "héllo"];
    for hay in texts.iter() {
        for needle in texts.iter() {
            assert_eq!(contains(hay, needle), hay.contains(needle));
        }
    }
}

use std::collections::hash_map::DefaultHasher;
use std::hash::Hasher;
use url_shortener::key_generator::{url_hash, KeyGenerator};
use url_shortener::short_key::{as_characters, ALPHABET_SIZE, DEFAULT_SHORTENED_LENGTH};

const STRINGS_OF_LENGTH_8: u64 = 2_821_109_907_456;

#[test]
fn alphabet_and_default_length() {
    assert_eq!(ALPHABET_SIZE, 36);
    assert_eq!(DEFAULT_SHORTENED_LENGTH, 8);
    assert_eq!(STRINGS_OF_LENGTH_8, 36u64.pow(8));
}

#[test]
fn single_digits_are_0_to_9_then_a_to_z() {
    let digits: String = (0..36).map(|d| as_characters(d, 8)).collect();
    assert_eq!(digits, "0123456789abcdefghijklmnopqrstuvwxyz");
}

#[test]
fn most_significant_digit_comes_first() {
    assert_eq!(as_characters(36, 8), "10");
    assert_eq!(as_characters(36 * 36 + 1, 8), "101");
    assert_eq!(as_characters(123_456_789_012_345, 10), "17rf9km92x");
}

#[test]
fn shorter_numbers_are_not_padded() {
    assert_eq!(as_characters(0, 8), "0");
    assert_eq!(as_characters(35, 8), "z");
    assert_eq!(as_characters(STRINGS_OF_LENGTH_8 - 1, 9), "zzzzzzzz");
}

#[test]
fn longer_numbers_keep_their_last_digits() {
    assert_eq!(as_characters(123_456_789_012_345, 8), "rf9km92x");
    assert_eq!(as_characters(STRINGS_OF_LENGTH_8, 8), "00000000");
    assert_eq!(as_characters(STRINGS_OF_LENGTH_8, 9), "100000000");
    assert_eq!(as_characters(36 * 36 + 1, 2), "01");
    assert_eq!(as_characters(36 * 36 + 1, 1), "1");
}

#[test]
fn largest_number_has_thirteen_digits() {
    assert_eq!(as_characters(u64::MAX, 13), "3w5e11264sgsf");
    assert_eq!(as_characters(u64::MAX, 14), "3w5e11264sgsf");
    assert_eq!(as_characters(u64::MAX, usize::MAX), "3w5e11264sgsf");
    assert_eq!(as_characters(u64::MAX, 12), "w5e11264sgsf");
    assert_eq!(as_characters(u64::MAX, 8), "1264sgsf");
}

#[test]
fn length_zero_keeps_nothing() {
    assert_eq!(as_characters(0, 0), "");
    assert_eq!(as_characters(u64::MAX, 0), "");
}

#[test]
fn url_hash_is_the_default_hash_of_the_bytes() {
    for url in ["", "http://example.com", "http://a.com/é"] {
        let mut hasher = DefaultHasher::new();
        hasher.write(url.as_bytes());
        assert_eq!(url_hash(url), hasher.finish());
    }
    assert_ne!(url_hash("http://a.com"), url_hash("http://b.com"));
}

#[test]
fn generation_starts_at_length_eight_with_no_attempts() {
    let generator = KeyGenerator::new("http://example.com");
    assert_eq!(
        generator,
        KeyGenerator { hash: url_hash("http://example.com"), length: 8, attempts: 0 }
    );
}

#[test]
fn candidate_is_the_hash_cut_to_the_target_length() {
    let generator = KeyGenerator { hash: 123_456_789_012_345, length: 8, attempts: 0 };
    assert_eq!(generator.candidate(), "rf9km92x");
    let generator = KeyGenerator { hash: 123_456_789_012_345, length: 9, attempts: 0 };
    assert_eq!(generator.candidate(), "7rf9km92x");
    let generator = KeyGenerator { hash: 35, length: 8, attempts: 7 };
    assert_eq!(generator.candidate(), "z");
}

#[test]
fn generator_is_deterministic() {
    let first = KeyGenerator::new("http://example.com");
    let second = KeyGenerator::new("http://example.com");
    assert_eq!(first, second);
    assert_eq!(first.candidate(), second.candidate());
    assert_eq!(first.reject(), second.reject());
    assert_eq!(first.reject().candidate(), second.reject().candidate());
}

#[test]
fn same_candidate_recurs_while_the_length_stays() {
    let mut generator = KeyGenerator::new("http://example.com");
    let candidate = generator.candidate();
    for attempts in 1..=1000u64 {
        generator = generator.reject();
        assert_eq!(generator.attempts, attempts);
        assert_eq!(generator.length, 8);
        assert_eq!(generator.candidate(), candidate);
    }
}

#[test]
fn generator_escalates_to_length_nine_when_length_eight_is_exhausted() {
    let hash = 123_456_789_012_345;
    let almost = KeyGenerator { hash, length: 8, attempts: STRINGS_OF_LENGTH_8 - 2 };
    let last = almost.reject();
    assert_eq!(last, KeyGenerator { hash, length: 8, attempts: STRINGS_OF_LENGTH_8 - 1 });
    assert_eq!(last.candidate(), "rf9km92x");
    let escalated = last.reject();
    assert_eq!(escalated, KeyGenerator { hash, length: 9, attempts: STRINGS_OF_LENGTH_8 });
    assert_eq!(escalated.candidate(), "7rf9km92x");
    assert_eq!(
        escalated.reject(),
        KeyGenerator { hash, length: 9, attempts: STRINGS_OF_LENGTH_8 + 1 }
    );
}

#[test]
fn attempts_are_not_reset_when_the_length_grows() {
    let hash = 1;
    let before = KeyGenerator { hash, length: 9, attempts: 36u64.pow(9) - 1 };
    assert_eq!(before.reject(), KeyGenerator { hash, length: 10, attempts: 36u64.pow(9) });
}

#[test]
fn length_grows_by_one_per_rejection() {
    let behind = KeyGenerator { hash: 1, length: 3, attempts: 36u64.pow(8) };
    let next = behind.reject();
    assert_eq!(next.length, 4);
    assert_eq!(next.reject().length, 5);
}

#[test]
fn length_twelve_is_the_last_that_can_be_exhausted() {
    let hash = u64::MAX;
    let before = KeyGenerator { hash, length: 12, attempts: 36u64.pow(12) - 1 };
    let after = before.reject();
    assert_eq!(after, KeyGenerator { hash, length: 13, attempts: 36u64.pow(12) });
    assert_eq!(after.candidate(), "3w5e11264sgsf");
    let end = KeyGenerator { hash, length: 13, attempts: u64::MAX - 1 }.reject();
    assert_eq!(end, KeyGenerator { hash, length: 13, attempts: u64::MAX });
}

#[test]
fn attempts_stop_at_the_largest_count() {
    let full = KeyGenerator { hash: 5, length: 13, attempts: u64::MAX };
    assert_eq!(full.reject(), full);
    let huge = KeyGenerator { hash: 5, length: usize::MAX, attempts: u64::MAX };
    assert_eq!(huge.reject(), huge);
}

#[test]
fn length_zero_is_exhausted_by_the_first_rejection() {
    let generator = KeyGenerator { hash: 5, length: 0, attempts: 0 };
    assert_eq!(generator.candidate(), "");
    assert_eq!(generator.reject(), KeyGenerator { hash: 5, length: 1, attempts: 1 });
}

use url_shortener::decoder::{Decoder, Phase};
use url_shortener::value_parser::{
    deserialize_value, serialize_value, DeserializeError, Value, NO_PASSWORD,
};

fn record(url: &str, password: Option<&str>) -> Value {
    Value { url: url.to_string(), password: password.map(|p| p.to_string()) }
}

fn feed(bytes: &[u8]) -> Result<Decoder, DeserializeError> {
    let mut decoder = Decoder::new();
    for byte in bytes {
        decoder = decoder.push(*byte)?;
    }
    Ok(decoder)
}

#[test]
fn absent_password_is_written_as_the_reserved_count() {
    let bytes = serialize_value(&record("x", None));
    assert_eq!(bytes, vec![0, 0, 0, 1, b'x', 0xFF, 0xFF, 0xFF, 0xFF]);
}

#[test]
fn empty_password_is_written_as_count_zero() {
    let bytes = serialize_value(&record("x", Some("")));
    assert_eq!(bytes, vec![0, 0, 0, 1, b'x', 0, 0, 0, 0]);
}

#[test]
fn absent_and_empty_password_differ_on_the_wire() {
    assert_ne!(serialize_value(&record("x", None)), serialize_value(&record("x", Some(""))));
    assert_eq!(deserialize_value(&serialize_value(&record("x", None))), Ok(record("x", None)));
    assert_eq!(
        deserialize_value(&serialize_value(&record("x", Some("")))),
        Ok(record("x", Some("")))
    );
}

#[test]
fn the_reserved_count_is_all_ones() {
    assert_eq!(NO_PASSWORD, 0xFFFF_FFFF);
    assert_eq!(NO_PASSWORD, u32::MAX);
}

#[test]
fn url_and_password_are_written_with_their_byte_counts() {
    let bytes = serialize_value(&record("http://a.com", Some("pw")));
    let mut expected = vec![0, 0, 0, 12];
    expected.extend_from_slice(b"http://a.com");
    expected.extend_from_slice(&[0, 0, 0, 2]);
    expected.extend_from_slice(b"pw");
    assert_eq!(bytes, expected);
}

#[test]
fn lengths_are_big_endian() {
    let url = "u".repeat(0x0102_03);
    let bytes = serialize_value(&record(&url, None));
    assert_eq!(&bytes[0..4], &[0x00, 0x01, 0x02, 0x03]);
    assert_eq!(bytes.len(), 4 + 0x0102_03 + 4);
    assert_eq!(deserialize_value(&bytes), Ok(record(&url, None)));
}

#[test]
fn lengths_count_bytes_not_characters() {
    let bytes = serialize_value(&record("é", Some("日本")));
    assert_eq!(
        bytes,
        vec![0, 0, 0, 2, 0xC3, 0xA9, 0, 0, 0, 6, 0xE6, 0x97, 0xA5, 0xE6, 0x9C, 0xAC]
    );
    assert_eq!(deserialize_value(&bytes), Ok(record("é", Some("日本"))));
}

#[test]
fn round_trip_without_password() {
    let value = record("http://example.com", None);
    assert_eq!(deserialize_value(&serialize_value(&value)), Ok(value));
}

#[test]
fn round_trip_with_password() {
    let value = record("http://example.com", Some("p"));
    assert_eq!(deserialize_value(&serialize_value(&value)), Ok(value));
}

#[test]
fn round_trip_of_empty_texts() {
    let value = record("", Some(""));
    assert_eq!(serialize_value(&value), vec![0, 0, 0, 0, 0, 0, 0, 0]);
    assert_eq!(deserialize_value(&serialize_value(&value)), Ok(value));
    let value = record("", None);
    assert_eq!(serialize_value(&value), vec![0, 0, 0, 0, 0xFF, 0xFF, 0xFF, 0xFF]);
    assert_eq!(deserialize_value(&serialize_value(&value)), Ok(value));
}

#[test]
fn round_trip_of_many_records() {
    let urls = ["", "a", "http://example.com/?q=1&r=2", "ü-ñ-🚀", "line\nbreak\0nul"];
    let passwords = [None, Some(""), Some("p"), Some("pässwörd"), Some("\u{10FFFF}")];
    for url in urls {
        for password in passwords {
            let value = record(url, password);
            assert_eq!(deserialize_value(&serialize_value(&value)), Ok(value));
        }
    }
}

#[test]
fn empty_input_is_too_short() {
    assert_eq!(deserialize_value(&vec![]), Err(DeserializeError::TooShort));
}

#[test]
fn truncated_record_is_too_short() {
    let bytes = vec![0, 0, 0, 5, b'a', b'b'];
    assert_eq!(deserialize_value(&bytes), Err(DeserializeError::TooShort));
}

#[test]
fn every_proper_prefix_is_too_short() {
    for value in [record("http://a.com", Some("secret")), record("http://a.com", None)] {
        let bytes = serialize_value(&value);
        for cut in 0..bytes.len() {
            assert_eq!(
                deserialize_value(&bytes[..cut].to_vec()),
                Err(DeserializeError::TooShort),
                "cut at {}",
                cut
            );
        }
        assert_eq!(deserialize_value(&bytes), Ok(value));
    }
}

#[test]
fn missing_password_field_is_too_short() {
    assert_eq!(deserialize_value(&vec![0, 0, 0, 1, b'x']), Err(DeserializeError::TooShort));
    assert_eq!(
        deserialize_value(&vec![0, 0, 0, 1, b'x', 0xFF, 0xFF, 0xFF]),
        Err(DeserializeError::TooShort)
    );
}

#[test]
fn reserved_count_in_the_url_field_is_an_ordinary_length() {
    let bytes = vec![0xFF, 0xFF, 0xFF, 0xFF, b'x', b'y'];
    assert_eq!(deserialize_value(&bytes), Err(DeserializeError::TooShort));
    let decoder = feed(&bytes).unwrap();
    assert_eq!(decoder.phase, Phase::UrlPayload);
    assert_eq!(decoder.remaining, 0xFFFF_FFFD);
}

#[test]
fn largest_password_length_is_an_ordinary_length() {
    let bytes = vec![0, 0, 0, 0, 0xFF, 0xFF, 0xFF, 0xFE, 1, 2, 3];
    assert_eq!(deserialize_value(&bytes), Err(DeserializeError::TooShort));
    let decoder = feed(&bytes).unwrap();
    assert_eq!(decoder.phase, Phase::PasswordPayload);
    assert_eq!(decoder.remaining, 0xFFFF_FFFE - 3);
}

#[test]
fn extra_bytes_are_too_long() {
    let mut bytes = serialize_value(&record("x", None));
    bytes.push(0);
    assert_eq!(deserialize_value(&bytes), Err(DeserializeError::TooLong));
    let mut bytes = serialize_value(&record("x", Some("p")));
    bytes.push(b'q');
    assert_eq!(deserialize_value(&bytes), Err(DeserializeError::TooLong));
    let mut bytes = serialize_value(&record("x", Some("")));
    bytes.extend_from_slice(&[1, 2, 3, 4, 5]);
    assert_eq!(deserialize_value(&bytes), Err(DeserializeError::TooLong));
}

#[test]
fn two_records_in_a_row_are_too_long() {
    let mut bytes = serialize_value(&record("x", Some("p")));
    bytes.extend(serialize_value(&record("y", None)));
    assert_eq!(deserialize_value(&bytes), Err(DeserializeError::TooLong));
}

#[test]
fn url_that_is_not_text_is_invalid_text() {
    let bytes = vec![0, 0, 0, 2, 0xFF, 0xFE, 0xFF, 0xFF, 0xFF, 0xFF];
    assert_eq!(deserialize_value(&bytes), Err(DeserializeError::InvalidText));
}

#[test]
fn password_that_is_not_text_is_invalid_text() {
    let bytes = vec![0, 0, 0, 1, b'x', 0, 0, 0, 1, 0x80];
    assert_eq!(deserialize_value(&bytes), Err(DeserializeError::InvalidText));
}

#[test]
fn character_cut_in_two_is_invalid_text() {
    let bytes = vec![0, 0, 0, 1, 0xC3, 0, 0, 0, 1, 0xA9];
    assert_eq!(deserialize_value(&bytes), Err(DeserializeError::InvalidText));
}

#[test]
fn the_first_fault_in_reading_order_decides() {
    // The URL is complete and not text; that the password field is missing
    // comes later.
    assert_eq!(deserialize_value(&vec![0, 0, 0, 1, 0xFF]), Err(DeserializeError::InvalidText));
    // The password is complete and not text; the extra byte comes later.
    assert_eq!(
        deserialize_value(&vec![0, 0, 0, 0, 0, 0, 0, 1, 0xFF, 7]),
        Err(DeserializeError::InvalidText)
    );
    // The URL is cut off, whatever its bytes are.
    assert_eq!(deserialize_value(&vec![0, 0, 0, 2, 0xFF]), Err(DeserializeError::TooShort));
}

#[test]
fn decoder_walks_through_its_phases() {
    let bytes = serialize_value(&record("ab", Some("c")));
    let mut decoder = Decoder::new();
    let mut phases = vec![decoder.phase];
    for byte in &bytes {
        decoder = decoder.push(*byte).unwrap();
        phases.push(decoder.phase);
    }
    assert_eq!(
        phases,
        vec![
            Phase::UrlLength,
            Phase::UrlLength,
            Phase::UrlLength,
            Phase::UrlLength,
            Phase::UrlPayload,
            Phase::UrlPayload,
            Phase::PasswordLength,
            Phase::PasswordLength,
            Phase::PasswordLength,
            Phase::PasswordLength,
            Phase::PasswordPayload,
            Phase::Done,
        ]
    );
    assert_eq!(decoder.finish(), Ok(record("ab", Some("c"))));
}

#[test]
fn decoder_skips_the_payload_of_an_empty_field() {
    let decoder = feed(&[0, 0, 0, 0]).unwrap();
    assert_eq!(decoder.phase, Phase::PasswordLength);
    assert_eq!(decoder.url, "");
    let decoder = feed(&[0, 0, 0, 0, 0, 0, 0, 0]).unwrap();
    assert_eq!(decoder.phase, Phase::Done);
    assert_eq!(decoder.password, Some(String::new()));
}

#[test]
fn decoder_is_done_right_after_the_reserved_count() {
    let decoder = feed(&[0, 0, 0, 1, b'x', 0xFF, 0xFF, 0xFF, 0xFF]).unwrap();
    assert_eq!(decoder.phase, Phase::Done);
    assert_eq!(decoder.password, None);
    assert_eq!(decoder.push(0), Err(DeserializeError::TooLong));
}

#[test]
fn decoder_counts_the_payload_down() {
    let decoder = feed(&[0, 0, 0, 3, b'a']).unwrap();
    assert_eq!(decoder.phase, Phase::UrlPayload);
    assert_eq!(decoder.remaining, 2);
    assert_eq!(decoder.pending, vec![b'a']);
    let decoder = decoder.push(b'b').unwrap();
    assert_eq!(decoder.remaining, 1);
    let decoder = decoder.push(b'c').unwrap();
    assert_eq!(decoder.phase, Phase::PasswordLength);
    assert_eq!(decoder.url, "abc");
    assert_eq!(decoder.pending, Vec::<u8>::new());
}

#[test]
fn unfinished_decoder_is_too_short() {
    assert_eq!(Decoder::new().finish(), Err(DeserializeError::TooShort));
    assert_eq!(feed(&[0, 0, 0, 1, b'x']).unwrap().finish(), Err(DeserializeError::TooShort));
    assert_eq!(
        feed(&[0, 0, 0, 1, b'x', 0, 0, 0, 2, b'p']).unwrap().finish(),
        Err(DeserializeError::TooShort)
    );
}

#[test]
fn payload_phase_with_nothing_left_is_an_internal_error() {
    for phase in [Phase::UrlPayload, Phase::PasswordPayload] {
        let broken = Decoder {
            phase,
            pending: vec![],
            remaining: 0,
            url: String::new(),
            password: None,
        };
        assert_eq!(broken.push(b'x'), Err(DeserializeError::InternalError));
    }
}

#[test]
fn length_phase_with_a_full_prefix_is_an_internal_error() {
    for phase in [Phase::UrlLength, Phase::PasswordLength] {
        let broken = Decoder {
            phase,
            pending: vec![0, 0, 0, 1],
            remaining: 0,
            url: String::new(),
            password: None,
        };
        assert_eq!(broken.push(b'x'), Err(DeserializeError::InternalError));
    }
}

#[test]
fn no_input_is_answered_with_an_internal_error() {
    for a in 0..=4u8 {
        for b in [0u8, 1, 0x7F, 0x80, 0xFF] {
            for len in 0..12usize {
                let bytes: Vec<u8> =
                    (0..len).map(|i| if i % 4 == 3 { a } else if i % 5 == 4 { b } else { 0 }).collect();
                assert_ne!(deserialize_value(&bytes), Err(DeserializeError::InternalError));
            }
        }
    }
}

#[test]
fn text_is_held_to_the_rules_of_utf8() {
    fn with_url(payload: &[u8]) -> Vec<u8> {
        let mut bytes = vec![0, 0, 0, payload.len() as u8];
        bytes.extend_from_slice(payload);
        bytes.extend_from_slice(&[0xFF, 0xFF, 0xFF, 0xFF]);
        bytes
    }
    // An overlong form, a surrogate, and a value beyond the last scalar.
    for payload in [&[0xC0, 0x80][..], &[0xED, 0xA0, 0x80][..], &[0xF4, 0x90, 0x80, 0x80][..]] {
        assert_eq!(deserialize_value(&with_url(payload)), Err(DeserializeError::InvalidText));
    }
    // The last scalar itself.
    assert_eq!(
        deserialize_value(&with_url(&[0xF4, 0x8F, 0xBF, 0xBF])),
        Ok(record("\u{10FFFF}", None))
    );
}

#[test]
fn decoded_record_is_written_back_as_the_same_bytes() {
    let inputs: Vec<Vec<u8>> = vec![
        vec![0, 0, 0, 0, 0xFF, 0xFF, 0xFF, 0xFF],
        vec![0, 0, 0, 0, 0, 0, 0, 0],
        vec![0, 0, 0, 2, 0xC3, 0xA9, 0, 0, 0, 1, b'p'],
        vec![0, 0, 0, 1, b'x', 0xFF, 0xFF, 0xFF, 0xFF],
    ];
    for bytes in inputs {
        let value = deserialize_value(&bytes).unwrap();
        assert_eq!(serialize_value(&value), bytes);
    }
}

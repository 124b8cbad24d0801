//! What holds of the wire format as a whole.

use vstd::prelude::*;
use vstd::utf8::*;
use crate::big_endian::{be_bytes, be_value, lemma_bytes_of_value, lemma_value_of_bytes};
use crate::decoder::{lemma_finish_tracks, lemma_new_tracks, lemma_push_tracks, DecoderView};
use crate::value_parser::{
    decoding, encoding, text_field, DeserializeError, Record, NO_PASSWORD,
};

verus! {

/// Reading back the encoding of a well-formed record gives that record.
pub proof fn lemma_round_trip(record: Record)
    requires
        record.wf(),
    ensures
        decoding(encoding(record)) == Ok::<Record, DeserializeError>(record),
{
    broadcast use encode_utf8_valid_utf8, encode_utf8_decode_utf8;

    let bytes = encoding(record);
    let url = encode_utf8(record.url);
    let n = url.len() as int;
    lemma_value_of_bytes(n as u32);
    assert(bytes.subrange(0, 4) =~= be_bytes(n as u32));
    assert(bytes.subrange(4, 4 + n) =~= url);
    match record.password {
        None => {
            lemma_value_of_bytes(NO_PASSWORD);
            assert(bytes.subrange(4 + n, 8 + n) =~= be_bytes(NO_PASSWORD));
        },
        Some(p) => {
            let password = encode_utf8(p);
            let m = password.len() as int;
            lemma_value_of_bytes(m as u32);
            assert(bytes.subrange(4 + n, 8 + n) =~= be_bytes(m as u32));
            assert(bytes.subrange(8 + n, 8 + n + m) =~= password);
        },
    }
}

/// A record that was read from bytes is well-formed, and writing it gives
/// those bytes again.
pub proof fn lemma_decoded_record_is_written_back(bytes: Seq<u8>)
    requires
        decoding(bytes) is Ok,
    ensures
        decoding(bytes)->Ok_0.wf(),
        encoding(decoding(bytes)->Ok_0) == bytes,
{
    broadcast use decode_utf8_encode_utf8;

    let n = be_value(bytes.subrange(0, 4)) as int;
    let m = be_value(bytes.subrange(4 + n, 8 + n)) as int;
    lemma_bytes_of_value(bytes.subrange(0, 4));
    lemma_bytes_of_value(bytes.subrange(4 + n, 8 + n));
    assert(encoding(decoding(bytes)->Ok_0) =~= bytes);
}

/// Two well-formed records with the same encoding are the same record.
pub proof fn lemma_encoding_is_injective(a: Record, b: Record)
    requires
        a.wf(),
        b.wf(),
        encoding(a) == encoding(b),
    ensures
        a == b,
{
    lemma_round_trip(a);
    lemma_round_trip(b);
}

/// A record without a password and the same record with an empty password
/// are written differently: the first ends in the reserved count with nothing
/// behind it, the second in the count zero with nothing behind it.
pub proof fn lemma_absent_is_not_empty(url: Seq<char>)
    ensures
        encoding(Record { url, password: None }) == text_field(url) + be_bytes(NO_PASSWORD),
        encoding(Record { url, password: Some(Seq::empty()) }) == text_field(url) + be_bytes(0),
        encoding(Record { url, password: None }) != encoding(
            Record { url, password: Some(Seq::empty()) },
        ),
{
    let absent = encoding(Record { url, password: None });
    let empty = encoding(Record { url, password: Some(Seq::empty()) });
    let at = text_field(url).len() as int;
    assert(encode_utf8(Seq::<char>::empty()) =~= Seq::<u8>::empty());
    assert(absent[at] == be_bytes(NO_PASSWORD)[0]);
    assert(empty[at] == be_bytes(0)[0]);
}

/// A byte string that stops before the end of a record is `TooShort`: every
/// proper prefix of a byte string that stands for a record is.
pub proof fn lemma_prefix_is_too_short(bytes: Seq<u8>, k: int)
    requires
        decoding(bytes) is Ok,
        0 <= k < bytes.len(),
    ensures
        decoding(bytes.subrange(0, k)) == Err::<Record, DeserializeError>(
            DeserializeError::TooShort,
        ),
{
    let prefix = bytes.subrange(0, k);
    let n = be_value(bytes.subrange(0, 4)) as int;
    let m = be_value(bytes.subrange(4 + n, 8 + n)) as int;
    if k >= 4 {
        assert(prefix.subrange(0, 4) =~= bytes.subrange(0, 4));
        if k >= 4 + n {
            assert(prefix.subrange(4, 4 + n) =~= bytes.subrange(4, 4 + n));
            if k >= 8 + n {
                assert(prefix.subrange(4 + n, 8 + n) =~= bytes.subrange(4 + n, 8 + n));
            }
        }
    }
}

/// The encoding of a well-formed record, cut anywhere before its end, is
/// `TooShort`.
pub proof fn lemma_truncated_record_is_too_short(record: Record, k: int)
    requires
        record.wf(),
        0 <= k < encoding(record).len(),
    ensures
        decoding(encoding(record).subrange(0, k)) == Err::<Record, DeserializeError>(
            DeserializeError::TooShort,
        ),
{
    lemma_round_trip(record);
    lemma_prefix_is_too_short(encoding(record), k);
}

/// Bytes after a complete record are `TooLong`.
pub proof fn lemma_trailing_bytes_are_too_long(bytes: Seq<u8>, extra: Seq<u8>)
    requires
        decoding(bytes) is Ok,
        extra.len() > 0,
    ensures
        decoding(bytes + extra) == Err::<Record, DeserializeError>(DeserializeError::TooLong),
{
    let longer = bytes + extra;
    let n = be_value(bytes.subrange(0, 4)) as int;
    let m = be_value(bytes.subrange(4 + n, 8 + n)) as int;
    assert(longer.subrange(0, 4) =~= bytes.subrange(0, 4));
    assert(longer.subrange(4, 4 + n) =~= bytes.subrange(4, 4 + n));
    assert(longer.subrange(4 + n, 8 + n) =~= bytes.subrange(4 + n, 8 + n));
    if m != NO_PASSWORD {
        assert(longer.subrange(8 + n, 8 + n + m) =~= bytes.subrange(8 + n, 8 + n + m));
    }
}

/// The encoding of a well-formed record with anything appended is `TooLong`.
pub proof fn lemma_extended_record_is_too_long(record: Record, extra: Seq<u8>)
    requires
        record.wf(),
        extra.len() > 0,
    ensures
        decoding(encoding(record) + extra) == Err::<Record, DeserializeError>(
            DeserializeError::TooLong,
        ),
{
    lemma_round_trip(record);
    lemma_trailing_bytes_are_too_long(encoding(record), extra);
}

/// No byte string is answered with `InternalError`.
pub proof fn lemma_no_internal_error(bytes: Seq<u8>)
    ensures
        decoding(bytes) != Err::<Record, DeserializeError>(DeserializeError::InternalError),
{
}

proof fn lemma_feed_from(s: DecoderView, bytes: Seq<u8>, i: int)
    requires
        s.tracks(bytes, i),
    ensures
        decoding(bytes) == (match s.feed(bytes.subrange(i, bytes.len() as int)) {
            Ok(last) => last.finish(),
            Err(e) => Err(e),
        }),
    decreases bytes.len() - i,
{
    let rest = bytes.subrange(i, bytes.len() as int);
    if i == bytes.len() {
        lemma_finish_tracks(s, bytes);
    } else {
        lemma_push_tracks(s, bytes, i);
        assert(rest.drop_first() =~= bytes.subrange(i + 1, bytes.len() as int));
        if let Ok(next) = s.push(bytes[i]) {
            lemma_feed_from(next, bytes, i + 1);
        }
    }
}

/// Feeding a byte string to a fresh decoder, byte by byte, and then ending
/// the input gives what the byte string stands for.
pub proof fn lemma_decoder_reads_the_format(bytes: Seq<u8>)
    ensures
        decoding(bytes) == (match DecoderView::initial().feed(bytes) {
            Ok(last) => last.finish(),
            Err(e) => Err(e),
        }),
{
    lemma_new_tracks(bytes);
    assert(bytes.subrange(0, bytes.len() as int) =~= bytes);
    lemma_feed_from(DecoderView::initial(), bytes, 0);
}

} // verus!

//! The stored record and its wire format.
//!
//! A record is written as two fields, the URL and then the password. A field
//! is a big-endian 32-bit byte count followed by that many bytes of UTF-8
//! text. A record without a password carries the count [`NO_PASSWORD`] in the
//! password field and nothing after it, so an absent password and an empty
//! one are written differently.

use vstd::prelude::*;
use vstd::utf8::*;
use crate::big_endian::{be_bytes, be_value, to_be_bytes};
use crate::codec_laws::lemma_decoded_record_is_written_back;
use crate::decoder::{lemma_finish_tracks, lemma_new_tracks, lemma_push_tracks, Decoder};

verus! {

/// The count that stands in the password field of a record without password.
pub const NO_PASSWORD: u32 = 0xFFFF_FFFF;

/// What the key-value store holds under a short key.
#[derive(Debug, Clone, PartialEq, Eq)]
pub struct Value {
    pub url: String,
    pub password: Option<String>,
}

/// Why a byte string is not the encoding of a record.
#[derive(Debug, Clone, Copy, PartialEq, Eq, Structural)]
pub enum DeserializeError {
    /// The bytes end before the record does.
    TooShort,
    /// Bytes follow the end of the record.
    TooLong,
    /// The decoder was handed a state that no run of it produces.
    InternalError,
    /// A field's bytes are not UTF-8 text.
    InvalidText,
}

/// A record as a mathematical value.
pub ghost struct Record {
    pub url: Seq<char>,
    pub password: Option<Seq<char>>,
}

impl Record {
    /// Both texts have a byte count that the wire format can hold: the URL's
    /// fits in 32 bits, and so does the password's, which in addition is not
    /// the reserved count [`NO_PASSWORD`].
    pub open spec fn wf(self) -> bool {
        &&& encode_utf8(self.url).len() <= u32::MAX
        &&& self.password matches Some(p) ==> encode_utf8(p).len() < NO_PASSWORD
    }
}

impl View for Value {
    type V = Record;

    open spec fn view(&self) -> Record {
        Record {
            url: self.url@,
            password: self.password.deep_view(),
        }
    }
}

/// One field on the wire: the byte count of `text` in UTF-8, then the bytes.
/// A count that does not fit in 32 bits is cut to its low 32 bits.
pub open spec fn text_field(text: Seq<char>) -> Seq<u8> {
    be_bytes(encode_utf8(text).len() as u32) + encode_utf8(text)
}

/// The password field on the wire.
pub open spec fn password_field(password: Option<Seq<char>>) -> Seq<u8> {
    match password {
        Some(p) => text_field(p),
        None => be_bytes(NO_PASSWORD),
    }
}

/// The bytes that stand for `record` in the store.
pub open spec fn encoding(record: Record) -> Seq<u8> {
    text_field(record.url) + password_field(record.password)
}

/// The record that `bytes` stand for, or the reason why they stand for none.
///
/// The bytes are read front to back and the first fault found decides: a
/// field that is cut off is `TooShort`, a complete field that is not UTF-8 is
/// `InvalidText`, and anything after the password field is `TooLong`.
pub open spec fn decoding(bytes: Seq<u8>) -> Result<Record, DeserializeError> {
    if bytes.len() < 4 {
        Err(DeserializeError::TooShort)
    } else {
        let n = be_value(bytes.subrange(0, 4)) as int;
        let url = bytes.subrange(4, 4 + n);
        if bytes.len() < 4 + n {
            Err(DeserializeError::TooShort)
        } else if !valid_utf8(url) {
            Err(DeserializeError::InvalidText)
        } else if bytes.len() < 8 + n {
            Err(DeserializeError::TooShort)
        } else {
            let m = be_value(bytes.subrange(4 + n, 8 + n));
            let password = bytes.subrange(8 + n, 8 + n + m);
            if m == NO_PASSWORD {
                if bytes.len() > 8 + n {
                    Err(DeserializeError::TooLong)
                } else {
                    Ok(Record { url: decode_utf8(url), password: None })
                }
            } else if bytes.len() < 8 + n + m {
                Err(DeserializeError::TooShort)
            } else if !valid_utf8(password) {
                Err(DeserializeError::InvalidText)
            } else if bytes.len() > 8 + n + m {
                Err(DeserializeError::TooLong)
            } else {
                Ok(Record { url: decode_utf8(url), password: Some(decode_utf8(password)) })
            }
        }
    }
}

fn append_length(out: &mut Vec<u8>, n: u32)
    ensures
        final(out)@ == old(out)@ + be_bytes(n),
{
    let prefix = to_be_bytes(n);
    out.push(prefix[0]);
    out.push(prefix[1]);
    out.push(prefix[2]);
    out.push(prefix[3]);
    assert(out@ =~= old(out)@ + be_bytes(n));
}

fn append_text_field(out: &mut Vec<u8>, text: &str)
    ensures
        final(out)@ == old(out)@ + text_field(text@),
{
    let bytes = text.as_bytes();
    append_length(out, bytes.len() as u32);
    let ghost before = out@;
    let mut i: usize = 0;
    while i < bytes.len()
        invariant
            i <= bytes@.len(),
            out@ == before + bytes@.subrange(0, i as int),
        decreases bytes@.len() - i,
    {
        out.push(bytes[i]);
        i += 1;
        assert(out@ =~= before + bytes@.subrange(0, i as int));
    }
}

/// Writes a record in the wire format.
pub fn serialize_value(val: &Value) -> (out: Vec<u8>)
    ensures
        out@ == encoding(val@),
{
    let mut out: Vec<u8> = Vec::new();
    append_text_field(&mut out, val.url.as_str());
    match &val.password {
        Some(p) => {
            append_text_field(&mut out, p.as_str());
        },
        None => {
            append_length(&mut out, NO_PASSWORD);
        },
    }
    out
}

/// Reads a record back from the wire format.
///
/// The bytes are fed to a [`Decoder`] one by one. The result is the record
/// that the bytes stand for, or the first fault met while reading them.
pub fn deserialize_value(bytes: &Vec<u8>) -> (r: Result<Value, DeserializeError>)
    ensures
        (match decoding(bytes@) {
            Ok(record) => r matches Ok(v) && v@ == record,
            Err(e) => r matches Err(f) && f == e,
        }),
        r matches Ok(v) ==> v@.wf(),
{
    proof {
        if decoding(bytes@) is Ok {
            lemma_decoded_record_is_written_back(bytes@);
        }
    }
    let mut decoder = Decoder::new();
    let mut i: usize = 0;
    proof {
        lemma_new_tracks(bytes@);
    }
    while i < bytes.len()
        invariant
            decoder@.tracks(bytes@, i as int),
        decreases bytes@.len() - i,
    {
        proof {
            lemma_push_tracks(decoder@, bytes@, i as int);
        }
        match decoder.push(bytes[i]) {
            Ok(next) => {
                decoder = next;
            },
            Err(e) => {
                return Err(e);
            },
        }
        i += 1;
    }
    proof {
        lemma_finish_tracks(decoder@, bytes@);
    }
    decoder.finish()
}

} // verus!

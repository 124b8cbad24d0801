//! The record decoder as a machine that is fed one byte at a time.
//!
//! The machine is in one of five phases: it gathers the four bytes of a
//! length prefix or the bytes of a payload, for the URL or for the password,
//! or it is done. [`crate::value_parser::deserialize_value`] drives it over a
//! whole byte string; a caller that receives a record in pieces can drive it
//! directly.

use vstd::prelude::*;
use vstd::utf8::*;
use crate::big_endian::{be_value, from_be_bytes};
use crate::value_parser::{decoding, DeserializeError, Record, Value, NO_PASSWORD};

verus! {

/// Which field the decoder is reading, and which part of it.
#[derive(Debug, Clone, Copy, PartialEq, Eq, Structural)]
pub enum Phase {
    UrlLength,
    UrlPayload,
    PasswordLength,
    PasswordPayload,
    Done,
}

/// The decoder's state between two bytes.
///
/// A state that the decoder itself produced holds fewer than four bytes in
/// `pending` while a length prefix is read, and expects at least one more
/// byte while a payload is read. The fields are public so that every state
/// can be written down and stepped; a state that breaks these two rules is
/// answered with [`DeserializeError::InternalError`].
#[derive(Debug, Clone, PartialEq, Eq)]
pub struct Decoder {
    pub phase: Phase,
    /// The bytes of the current length prefix or payload read so far.
    pub pending: Vec<u8>,
    /// How many bytes of the current payload are still to come.
    pub remaining: u32,
    pub url: String,
    pub password: Option<String>,
}

/// A decoder state as a mathematical value.
pub ghost struct DecoderView {
    pub phase: Phase,
    pub pending: Seq<u8>,
    pub remaining: u32,
    pub url: Seq<char>,
    pub password: Option<Seq<char>>,
}

impl View for Decoder {
    type V = DecoderView;

    open spec fn view(&self) -> DecoderView {
        DecoderView {
            phase: self.phase,
            pending: self.pending@,
            remaining: self.remaining,
            url: self.url@,
            password: self.password.deep_view(),
        }
    }
}

impl DecoderView {
    /// The state is one that a run of the decoder can be in: a length prefix
    /// that is being read is not complete yet, and a payload that is being
    /// read has bytes to come.
    pub open spec fn wf(self) -> bool {
        match self.phase {
            Phase::UrlLength | Phase::PasswordLength => self.pending.len() < 4,
            Phase::UrlPayload | Phase::PasswordPayload => self.remaining > 0,
            Phase::Done => true,
        }
    }

    /// The state before the first byte.
    pub open spec fn initial() -> DecoderView {
        DecoderView {
            phase: Phase::UrlLength,
            pending: Seq::empty(),
            remaining: 0,
            url: Seq::empty(),
            password: None,
        }
    }

    /// The state once the payload of the current field is complete: the text
    /// is stored and the next field begins, unless the payload is not text.
    pub open spec fn commit(self, payload: Seq<u8>) -> Result<DecoderView, DeserializeError> {
        if !valid_utf8(payload) {
            Err(DeserializeError::InvalidText)
        } else if self.phase == Phase::UrlLength || self.phase == Phase::UrlPayload {
            Ok(
                DecoderView {
                    phase: Phase::PasswordLength,
                    pending: Seq::empty(),
                    remaining: 0,
                    url: decode_utf8(payload),
                    password: self.password,
                },
            )
        } else {
            Ok(
                DecoderView {
                    phase: Phase::Done,
                    pending: Seq::empty(),
                    remaining: 0,
                    url: self.url,
                    password: Some(decode_utf8(payload)),
                },
            )
        }
    }

    /// The state once a length prefix is complete and reads `size`.
    pub open spec fn begin_payload(self, size: u32) -> Result<DecoderView, DeserializeError> {
        if self.phase == Phase::PasswordLength && size == NO_PASSWORD {
            Ok(
                DecoderView {
                    phase: Phase::Done,
                    pending: Seq::empty(),
                    remaining: 0,
                    url: self.url,
                    password: None,
                },
            )
        } else if size == 0 {
            self.commit(Seq::empty())
        } else {
            Ok(
                DecoderView {
                    phase: if self.phase == Phase::UrlLength {
                        Phase::UrlPayload
                    } else {
                        Phase::PasswordPayload
                    },
                    pending: Seq::empty(),
                    remaining: size,
                    url: self.url,
                    password: self.password,
                },
            )
        }
    }

    /// The state after one more byte, or the fault that the byte brings.
    pub open spec fn push(self, byte: u8) -> Result<DecoderView, DeserializeError> {
        match self.phase {
            Phase::Done => Err(DeserializeError::TooLong),
            Phase::UrlLength | Phase::PasswordLength => {
                if self.pending.len() >= 4 {
                    Err(DeserializeError::InternalError)
                } else if self.pending.len() < 3 {
                    Ok(DecoderView { pending: self.pending.push(byte), ..self })
                } else {
                    self.begin_payload(be_value(self.pending.push(byte)))
                }
            },
            Phase::UrlPayload | Phase::PasswordPayload => {
                if self.remaining == 0 {
                    Err(DeserializeError::InternalError)
                } else if self.remaining > 1 {
                    Ok(
                        DecoderView {
                            pending: self.pending.push(byte),
                            remaining: (self.remaining - 1) as u32,
                            ..self
                        },
                    )
                } else {
                    self.commit(self.pending.push(byte))
                }
            },
        }
    }

    /// The state after all of `bytes`, or the first fault on the way.
    pub open spec fn feed(self, bytes: Seq<u8>) -> Result<DecoderView, DeserializeError>
        decreases bytes.len(),
    {
        if bytes.len() == 0 {
            Ok(self)
        } else {
            match self.push(bytes[0]) {
                Ok(next) => next.feed(bytes.drop_first()),
                Err(e) => Err(e),
            }
        }
    }

    /// What the decoder yields when the input ends in this state.
    pub open spec fn finish(self) -> Result<Record, DeserializeError> {
        if self.phase == Phase::Done {
            Ok(Record { url: self.url, password: self.password })
        } else {
            Err(DeserializeError::TooShort)
        }
    }

    /// This is the state that the decoder is in after the first `i` of `bytes`.
    pub open spec fn tracks(self, bytes: Seq<u8>, i: int) -> bool {
        let n = be_value(bytes.subrange(0, 4)) as int;
        let m = be_value(bytes.subrange(4 + n, 8 + n)) as int;
        let url = bytes.subrange(4, 4 + n);
        let password = bytes.subrange(8 + n, 8 + n + m);
        &&& 0 <= i <= bytes.len()
        &&& match self.phase {
            Phase::UrlLength => i < 4 && self.pending == bytes.subrange(0, i),
            Phase::UrlPayload => {
                &&& 4 <= i < 4 + n
                &&& self.pending == bytes.subrange(4, i)
                &&& self.remaining == 4 + n - i
            },
            Phase::PasswordLength => {
                &&& 4 + n <= i < 8 + n
                &&& valid_utf8(url)
                &&& self.url == decode_utf8(url)
                &&& self.pending == bytes.subrange(4 + n, i)
            },
            Phase::PasswordPayload => {
                &&& 8 + n <= i < 8 + n + m
                &&& m != NO_PASSWORD
                &&& valid_utf8(url)
                &&& self.url == decode_utf8(url)
                &&& self.pending == bytes.subrange(8 + n, i)
                &&& self.remaining == 8 + n + m - i
            },
            Phase::Done => {
                &&& 8 + n <= i
                &&& valid_utf8(url)
                &&& self.url == decode_utf8(url)
                &&& if m == NO_PASSWORD {
                    i == 8 + n && self.password is None
                } else {
                    &&& i == 8 + n + m
                    &&& valid_utf8(password)
                    &&& self.password == Some(decode_utf8(password))
                }
            },
        }
    }
}

/// The decoder starts in a well-formed state, a step from a well-formed
/// state never reports `InternalError`, and it leads to a well-formed state.
pub proof fn lemma_push_keeps_wf(s: DecoderView, byte: u8)
    requires
        s.wf(),
    ensures
        DecoderView::initial().wf(),
        s.push(byte) != Err::<DecoderView, DeserializeError>(DeserializeError::InternalError),
        s.push(byte) matches Ok(next) ==> next.wf(),
{
}

/// The initial state is the state after no bytes.
pub proof fn lemma_new_tracks(bytes: Seq<u8>)
    ensures
        DecoderView::initial().tracks(bytes, 0),
{
    assert(bytes.subrange(0, 0) =~= Seq::<u8>::empty());
}

/// One step keeps the decoder in line with the bytes, and a fault that a
/// step reports is the fault of the whole byte string.
pub proof fn lemma_push_tracks(s: DecoderView, bytes: Seq<u8>, i: int)
    requires
        s.tracks(bytes, i),
        i < bytes.len(),
    ensures
        (match s.push(bytes[i]) {
            Ok(next) => next.tracks(bytes, i + 1),
            Err(e) => decoding(bytes) == Err::<Record, DeserializeError>(e),
        }),
{
    let n = be_value(bytes.subrange(0, 4)) as int;
    let m = be_value(bytes.subrange(4 + n, 8 + n)) as int;
    let grown = s.pending.push(bytes[i]);
    match s.phase {
        Phase::UrlLength => {
            assert(grown =~= bytes.subrange(0, i + 1));
            if i == 3 {
                assert(bytes.subrange(4, 4) =~= Seq::<u8>::empty());
                if n == 0 {
                    assert(bytes.subrange(4 + n, 4) =~= Seq::<u8>::empty());
                }
            }
        },
        Phase::UrlPayload => {
            assert(grown =~= bytes.subrange(4, i + 1));
            if i + 1 == 4 + n {
                assert(bytes.subrange(4 + n, 4 + n) =~= Seq::<u8>::empty());
            }
        },
        Phase::PasswordLength => {
            assert(grown =~= bytes.subrange(4 + n, i + 1));
            if i == 7 + n {
                assert(bytes.subrange(8 + n, 8 + n) =~= Seq::<u8>::empty());
            }
        },
        Phase::PasswordPayload => {
            assert(grown =~= bytes.subrange(8 + n, i + 1));
        },
        Phase::Done => {},
    }
}

/// When the input ends, the decoder yields what the byte string stands for.
pub proof fn lemma_finish_tracks(s: DecoderView, bytes: Seq<u8>)
    requires
        s.tracks(bytes, bytes.len() as int),
    ensures
        s.finish() == decoding(bytes),
{
}

/// Stores a complete payload as the text of the field that `phase` reads.
fn commit(phase: Phase, payload: Vec<u8>, url: String, password: Option<String>) -> (r: Result<
    Decoder,
    DeserializeError,
>)
    requires
        phase != Phase::Done,
    ensures
        r matches Ok(d) ==> (DecoderView {
            phase,
            pending: Seq::empty(),
            remaining: 0,
            url: url@,
            password: password.deep_view(),
        }).commit(payload@) == Ok::<DecoderView, DeserializeError>(d@),
        r matches Err(e) ==> e == DeserializeError::InvalidText && !valid_utf8(payload@),
{
    broadcast use encode_utf8_decode_utf8;

    match String::from_utf8(payload) {
        Err(_) => Err(DeserializeError::InvalidText),
        Ok(text) => match phase {
            Phase::UrlLength | Phase::UrlPayload => Ok(
                Decoder {
                    phase: Phase::PasswordLength,
                    pending: Vec::new(),
                    remaining: 0,
                    url: text,
                    password,
                },
            ),
            _ => Ok(
                Decoder {
                    phase: Phase::Done,
                    pending: Vec::new(),
                    remaining: 0,
                    url,
                    password: Some(text),
                },
            ),
        },
    }
}

impl Decoder {
    /// A decoder that has read nothing yet.
    pub fn new() -> (d: Decoder)
        ensures
            d@ == DecoderView::initial(),
    {
        Decoder {
            phase: Phase::UrlLength,
            pending: Vec::new(),
            remaining: 0,
            url: String::new(),
            password: None,
        }
    }

    /// Feeds one byte to the decoder.
    ///
    /// A byte after the record's end is `TooLong`, a field that is complete
    /// with this byte and is not UTF-8 is `InvalidText`, and a state that no
    /// run of the decoder produces is `InternalError`.
    pub fn push(self, byte: u8) -> (r: Result<Decoder, DeserializeError>)
        ensures
            (match self@.push(byte) {
                Ok(next) => r matches Ok(d) && d@ == next,
                Err(e) => r matches Err(f) && f == e,
            }),
    {
        let Decoder { phase, pending, remaining, url, password } = self;
        let mut pending = pending;
        match phase {
            Phase::Done => Err(DeserializeError::TooLong),
            Phase::UrlLength | Phase::PasswordLength => {
                if pending.len() >= 4 {
                    Err(DeserializeError::InternalError)
                } else if pending.len() < 3 {
                    pending.push(byte);
                    Ok(Decoder { phase, pending, remaining, url, password })
                } else {
                    let size = from_be_bytes(pending[0], pending[1], pending[2], byte);
                    match phase {
                        Phase::PasswordLength if size == NO_PASSWORD => Ok(
                            Decoder {
                                phase: Phase::Done,
                                pending: Vec::new(),
                                remaining: 0,
                                url,
                                password: None,
                            },
                        ),
                        _ if size == 0 => commit(phase, Vec::new(), url, password),
                        Phase::UrlLength => Ok(
                            Decoder {
                                phase: Phase::UrlPayload,
                                pending: Vec::new(),
                                remaining: size,
                                url,
                                password,
                            },
                        ),
                        _ => Ok(
                            Decoder {
                                phase: Phase::PasswordPayload,
                                pending: Vec::new(),
                                remaining: size,
                                url,
                                password,
                            },
                        ),
                    }
                }
            },
            Phase::UrlPayload | Phase::PasswordPayload => {
                if remaining == 0 {
                    Err(DeserializeError::InternalError)
                } else {
                    pending.push(byte);
                    if remaining > 1 {
                        Ok(Decoder { phase, pending, remaining: remaining - 1, url, password })
                    } else {
                        commit(phase, pending, url, password)
                    }
                }
            },
        }
    }

    /// Ends the input: the record, if the decoder has read a whole one.
    pub fn finish(self) -> (r: Result<Value, DeserializeError>)
        ensures
            (match self@.finish() {
                Ok(record) => r matches Ok(v) && v@ == record,
                Err(e) => r matches Err(f) && f == e,
            }),
    {
        match self.phase {
            Phase::Done => Ok(Value { url: self.url, password: self.password }),
            _ => Err(DeserializeError::TooShort),
        }
    }
}

} // verus!

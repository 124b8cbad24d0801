//! Who may write under a key.
//!
//! A key that the store does not hold may be written by anyone. A key that
//! it holds may be overwritten only where the stored record has a password
//! and the caller supplies exactly that password. A stored record without a
//! password can therefore never be changed, and whatever keeps the stored
//! record from being read counts against the caller.

use vstd::prelude::*;
use crate::codec_laws::lemma_round_trip;
use crate::store::{lookup_view, Lookup, LookupView, StoreErrorKind};
use crate::value_parser::{decoding, deserialize_value, encoding, Record};

verus! {

/// The key is unused: the store says that it holds nothing under it.
pub open spec fn is_available(lookup: LookupView) -> bool {
    lookup matches Err(e) && e.kind == StoreErrorKind::NotFound
}

/// The stored record may be overwritten by a caller who supplies
/// `credential`: the lookup gave bytes, the bytes are a record, the record
/// has a password, and the credential is that password.
pub open spec fn permits(lookup: LookupView, credential: Option<Seq<char>>) -> bool {
    &&& lookup matches Ok(bytes)
    &&& decoding(bytes) matches Ok(record)
    &&& record.password matches Some(password)
    &&& credential == Some(password)
}

/// The password that proves ownership: the old password where the caller
/// gave one, else the new password.
pub open spec fn credential_of(
    old_password: Option<Seq<char>>,
    password: Option<Seq<char>>,
) -> Option<Seq<char>> {
    if old_password is Some {
        old_password
    } else {
        password
    }
}

/// Whether the answer to a lookup says that the key is unused.
pub fn key_available(lookup: &Lookup) -> (available: bool)
    ensures
        available == is_available(lookup_view(*lookup)),
{
    match lookup {
        Err(e) => match e.kind {
            StoreErrorKind::NotFound => true,
            _ => false,
        },
        Ok(_) => false,
    }
}

/// Whether a caller who supplies `password` may overwrite what the lookup
/// found.
pub fn authenticate(lookup: &Lookup, password: &Option<String>) -> (allowed: bool)
    ensures
        allowed == permits(lookup_view(*lookup), password.deep_view()),
{
    match lookup {
        Ok(bytes) => match deserialize_value(bytes) {
            Ok(value) => match (&value.password, password) {
                (Some(stored), Some(supplied)) => *stored == *supplied,
                _ => false,
            },
            Err(_) => false,
        },
        Err(_) => false,
    }
}

/// The password that proves ownership: `old_password` where there is one,
/// else a copy of `password`.
pub fn effective_credential(old_password: Option<String>, password: &Option<String>) -> (credential:
    Option<String>)
    ensures
        credential.deep_view() == credential_of(old_password.deep_view(), password.deep_view()),
{
    match old_password {
        Some(old) => Some(old),
        None => match password {
            Some(p) => Some(p.clone()),
            None => None,
        },
    }
}

/// Nothing opens a stored record without a password, not even an empty
/// credential.
pub proof fn lemma_unprotected_is_immutable(record: Record, credential: Option<Seq<char>>)
    requires
        record.wf(),
        record.password is None,
    ensures
        !permits(Ok(encoding(record)), credential),
{
    lemma_round_trip(record);
}

/// A stored record with a password opens to that password and to nothing
/// else.
pub proof fn lemma_protected_opens_to_its_password(
    record: Record,
    credential: Option<Seq<char>>,
)
    requires
        record.wf(),
        record.password is Some,
    ensures
        permits(Ok(encoding(record)), credential) <==> credential == record.password,
{
    lemma_round_trip(record);
}

/// What cannot be read is not opened: a refused lookup and stored bytes that
/// are no record both deny the caller.
pub proof fn lemma_fails_closed(lookup: LookupView, credential: Option<Seq<char>>)
    requires
        lookup is Err || decoding(lookup->Ok_0) is Err,
    ensures
        !permits(lookup, credential),
{
}

} // verus!

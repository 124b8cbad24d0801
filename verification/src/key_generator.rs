//! Generation of a short key for a URL.
//!
//! The key is the URL's 64-bit hash in base 36, cut to a target length that
//! starts at eight. A candidate that the store already holds is tried again;
//! once the number of failed tries reaches the number of strings of the
//! target length, the target length grows by one. The generator itself never
//! talks to the store: its caller looks the candidate up and reports a
//! candidate that is taken with [`KeyGenerator::reject`].

use vstd::prelude::*;
use vstd::utf8::encode_utf8;
use vstd::std_specs::hash::DefaultHasherAdditionalSpecFns;
use std::collections::hash_map::DefaultHasher;
use std::hash::Hasher;
use crate::short_key::{
    as_characters, lemma_pow36_grows, lemma_pow36_of_13, pow36, short_form,
    DEFAULT_SHORTENED_LENGTH,
};

verus! {

/// The hash of a URL: what a fresh `DefaultHasher` yields after the URL's
/// bytes were written to it once.
pub open spec fn hash_of(url: Seq<char>) -> u64 {
    DefaultHasher::spec_finish(seq![encode_utf8(url)])
}

/// Hashes the bytes of `url`.
pub fn url_hash(url: &str) -> (hash: u64)
    ensures
        hash == hash_of(url@),
{
    let mut hasher = DefaultHasher::new();
    hasher.write(url.as_bytes());
    hasher.finish()
}

/// Where key generation stands: the URL's hash, the target length, and how
/// many candidates were found taken so far. The count stops at `u64::MAX`.
#[derive(Debug, Clone, Copy, PartialEq, Eq, Structural)]
pub struct KeyGenerator {
    pub hash: u64,
    pub length: usize,
    pub attempts: u64,
}

impl KeyGenerator {
    /// The state in which generation starts for a URL with this hash.
    pub open spec fn start(hash: u64) -> KeyGenerator {
        KeyGenerator { hash, length: DEFAULT_SHORTENED_LENGTH, attempts: 0 }
    }

    /// The key that is tried in this state.
    pub open spec fn key(self) -> Seq<char> {
        short_form(self.hash as nat, self.length as nat)
    }

    /// The state after the candidate of this state was found taken.
    pub open spec fn rejected(self) -> KeyGenerator {
        let attempts = if self.attempts < u64::MAX {
            (self.attempts + 1) as u64
        } else {
            self.attempts
        };
        KeyGenerator {
            hash: self.hash,
            length: if pow36(self.length as nat) <= attempts {
                (self.length + 1) as usize
            } else {
                self.length
            },
            attempts,
        }
    }

    /// The state after `n` candidates in a row were found taken.
    pub open spec fn rejected_times(self, n: nat) -> KeyGenerator
        decreases n,
    {
        if n == 0 {
            self
        } else {
            self.rejected_times((n - 1) as nat).rejected()
        }
    }

    /// The key that generation ends with when it starts in this state, the
    /// store holds the keys in `taken` and does not change, and at most
    /// `retries` candidates may be found taken; `None` where more are.
    pub open spec fn generated(self, taken: Set<Seq<char>>, retries: nat) -> Option<Seq<char>>
        decreases retries,
    {
        if !taken.contains(self.key()) {
            Some(self.key())
        } else if retries == 0 {
            None
        } else {
            self.rejected().generated(taken, (retries - 1) as nat)
        }
    }

    /// Starts key generation for `url`.
    pub fn new(url: &str) -> (g: KeyGenerator)
        ensures
            g == KeyGenerator::start(hash_of(url@)),
    {
        KeyGenerator { hash: url_hash(url), length: DEFAULT_SHORTENED_LENGTH, attempts: 0 }
    }

    /// The key to try next.
    pub fn candidate(&self) -> (key: String)
        ensures
            key@ == self.key(),
    {
        as_characters(self.hash, self.length)
    }

    /// Takes note that the current candidate is taken.
    pub fn reject(self) -> (next: KeyGenerator)
        ensures
            next == self.rejected(),
    {
        let attempts = if self.attempts < u64::MAX {
            self.attempts + 1
        } else {
            self.attempts
        };
        if reaches_power(attempts, self.length) {
            proof {
                lemma_pow36_grows(13, self.length as nat);
                lemma_pow36_of_13();
            }
            KeyGenerator { hash: self.hash, length: self.length + 1, attempts }
        } else {
            KeyGenerator { hash: self.hash, length: self.length, attempts }
        }
    }
}

/// Whether `count` has reached 36 to the power of `exponent`.
fn reaches_power(count: u64, exponent: usize) -> (reached: bool)
    ensures
        reached == (pow36(exponent as nat) <= count),
{
    let mut power: u64 = 1;
    let mut k: usize = 0;
    while k < exponent
        invariant
            k <= exponent,
            power == pow36(k as nat),
        decreases exponent - k,
    {
        if power > count / 36 {
            proof {
                lemma_pow36_grows((k + 1) as nat, exponent as nat);
            }
            return false;
        }
        power = power * 36;
        k += 1;
    }
    power <= count
}

} // verus!

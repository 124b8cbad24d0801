//! What holds of key generation against a store that does not change.

use vstd::prelude::*;
use crate::key_generator::KeyGenerator;
use crate::short_key::{
    lemma_pow36_grows, lemma_pow36_of_13, lemma_pow36_of_8, lemma_pow36_positive,
    lemma_thirteen_digits_hold_64_bits, pow36, short_form,
};

verus! {

/// A rejection keeps the hash. It adds one to the target length where the
/// count of rejections has reached the number of strings of that length, and
/// keeps the target length where it has not.
pub proof fn lemma_rejected_step(s: KeyGenerator)
    ensures
        s.rejected().hash == s.hash,
        s.rejected().length == (if pow36(s.length as nat) <= s.rejected().attempts {
            s.length + 1
        } else {
            s.length as int
        }),
{
    if pow36(s.length as nat) <= u64::MAX {
        lemma_pow36_grows(13, s.length as nat);
        lemma_pow36_of_13();
    }
}

/// After `n` rejections in a row from the start, `n` of them are counted and
/// the target length is the least length from eight on that has more than
/// `n` strings.
pub proof fn lemma_length_after_rejections(hash: u64, n: nat)
    requires
        n <= u64::MAX,
    ensures
        ({
            let s = KeyGenerator::start(hash).rejected_times(n);
            &&& s.hash == hash
            &&& s.attempts == n
            &&& s.length >= 8
            &&& n < pow36(s.length as nat)
            &&& s.length > 8 ==> pow36((s.length - 1) as nat) <= n
        }),
    decreases n,
{
    if n == 0 {
        lemma_pow36_positive(8);
    } else {
        lemma_length_after_rejections(hash, (n - 1) as nat);
        let before = KeyGenerator::start(hash).rejected_times((n - 1) as nat);
        assert(KeyGenerator::start(hash).rejected_times(n) == before.rejected());
        lemma_rejected_step(before);
        lemma_pow36_grows(before.length as nat, (before.length + 1) as nat);
    }
}

/// While fewer candidates were rejected than there are strings of length
/// eight, the target length stays eight. With the rejection that makes their
/// number equal it becomes nine, and it stays nine while fewer were rejected
/// than there are strings of length nine.
pub proof fn lemma_escalates_to_nine(hash: u64, n: nat)
    requires
        n < pow36(9),
    ensures
        KeyGenerator::start(hash).rejected_times(n).length == (if n < pow36(8) {
            8usize
        } else {
            9usize
        }),
{
    lemma_pow36_of_8();
    assert(pow36(9) == 36 * pow36(8));
    lemma_length_after_rejections(hash, n);
    let s = KeyGenerator::start(hash).rejected_times(n);
    if s.length > 9 {
        lemma_pow36_grows(9, (s.length - 1) as nat);
    }
}

/// Against the same store, generation for the same hash ends with the same
/// key however many retries it is given, where it ends with a key at all.
pub proof fn lemma_generation_is_deterministic(
    s: KeyGenerator,
    taken: Set<Seq<char>>,
    retries_a: nat,
    retries_b: nat,
)
    requires
        s.generated(taken, retries_a) is Some,
        s.generated(taken, retries_b) is Some,
    ensures
        s.generated(taken, retries_a) == s.generated(taken, retries_b),
    decreases retries_a,
{
    if taken.contains(s.key()) {
        lemma_generation_is_deterministic(
            s.rejected(),
            taken,
            (retries_a - 1) as nat,
            (retries_b - 1) as nat,
        );
    }
}

/// The key that generation ends with is the candidate of the first target
/// length, from the current one on, whose candidate the store does not hold.
pub proof fn lemma_generated_key_is_first_free(
    s: KeyGenerator,
    taken: Set<Seq<char>>,
    retries: nat,
) -> (length: nat)
    requires
        s.generated(taken, retries) is Some,
    ensures
        s.length <= length,
        s.generated(taken, retries) == Some(short_form(s.hash as nat, length)),
        !taken.contains(short_form(s.hash as nat, length)),
        forall|shorter: nat|
            s.length <= shorter < length ==> taken.contains(
                #[trigger] short_form(s.hash as nat, shorter),
            ),
    decreases retries,
{
    if !taken.contains(s.key()) {
        s.length as nat
    } else {
        lemma_rejected_step(s);
        lemma_generated_key_is_first_free(s.rejected(), taken, (retries - 1) as nat)
    }
}

/// Where the store holds the candidates of all target lengths from eight to
/// thirteen, generation does not end, however many retries it is given: the
/// candidate of length thirteen is the whole hash, and a longer target length
/// brings no new candidate.
pub proof fn lemma_generation_needs_a_free_length(
    hash: u64,
    taken: Set<Seq<char>>,
    retries: nat,
)
    requires
        forall|length: nat|
            8 <= length <= 13 ==> taken.contains(#[trigger] short_form(hash as nat, length)),
    ensures
        KeyGenerator::start(hash).generated(taken, retries) is None,
{
    let start = KeyGenerator::start(hash);
    if start.generated(taken, retries) is Some {
        let length = lemma_generated_key_is_first_free(start, taken, retries);
        if length > 13 {
            lemma_thirteen_digits_hold_64_bits(hash as nat, length);
            assert(taken.contains(short_form(hash as nat, 13)));
        } else {
            assert(taken.contains(short_form(hash as nat, length)));
        }
    }
}

/// Where the store holds the candidate of length eight and not the one of
/// length nine, generation ends with the candidate of length nine, after as
/// many rejections as there are strings of length eight, and not before.
pub proof fn lemma_generation_moves_on_to_nine(hash: u64, taken: Set<Seq<char>>, retries: nat)
    requires
        taken.contains(short_form(hash as nat, 8)),
        !taken.contains(short_form(hash as nat, 9)),
    ensures
        KeyGenerator::start(hash).generated(taken, retries) == (if retries < pow36(8) {
            None
        } else {
            Some(short_form(hash as nat, 9))
        }),
{
    lemma_run_of_rejections(hash, taken, 0, retries);
}

proof fn lemma_run_of_rejections(hash: u64, taken: Set<Seq<char>>, done: nat, retries: nat)
    requires
        taken.contains(short_form(hash as nat, 8)),
        !taken.contains(short_form(hash as nat, 9)),
        done <= pow36(8),
    ensures
        KeyGenerator::start(hash).rejected_times(done).generated(taken, retries) == (if done
            + retries < pow36(8) {
            None
        } else {
            Some(short_form(hash as nat, 9))
        }),
    decreases retries,
{
    lemma_pow36_grows(8, 9);
    lemma_escalates_to_nine(hash, done);
    lemma_pow36_of_8();
    lemma_length_after_rejections(hash, done);
    if done < pow36(8) && retries > 0 {
        lemma_run_of_rejections(hash, taken, done + 1, (retries - 1) as nat);
    }
}

} // verus!

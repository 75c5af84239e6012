//! What holds of the tracker's operations whatever the identifiers are.
//!
//! Each law is stated over the ledger functions that the contracts of
//! `Ackr`'s methods use, so it carries over to any run of those methods.

use crate::model::{completed, seeded, toggled, toggled_all, xor_all, Ledger};
use vstd::prelude::*;
use vstd::seq_lib::{commutative_foldl, lemma_fold_left_permutation};

verus! {

/// XOR as the bit-vector solver knows it: it has a neutral element, every
/// value is its own inverse, and operands can be regrouped and swapped.
proof fn lemma_xor_algebra(a: u64, b: u64, c: u64)
    ensures
        a ^ 0 == a,
        0 ^ a == a,
        (a ^ b) ^ b == a,
        (a ^ b) ^ c == a ^ (b ^ c),
        (a ^ b) ^ c == (a ^ c) ^ b,
        a ^ b == 0 <==> a == b,
{
    assert(a ^ 0 == a) by (bit_vector);
    assert(0 ^ a == a) by (bit_vector);
    assert((a ^ b) ^ b == a) by (bit_vector);
    assert((a ^ b) ^ c == a ^ (b ^ c)) by (bit_vector);
    assert((a ^ b) ^ c == (a ^ c) ^ b) by (bit_vector);
    assert(a ^ b == 0 <==> a == b) by (bit_vector);
}

/// Right after a source is registered its ack value is the source's own
/// identifier, the recorded task is the one given, and the source is not
/// complete unless its identifier is zero. Other sources are untouched.
pub proof fn lemma_seed(ledger: Ledger, source: u64, task: u32)
    ensures
        seeded(ledger, source, task).contains_key(source),
        seeded(ledger, source, task)[source].ack == source,
        seeded(ledger, source, task)[source].task == task,
        source != 0 ==> !completed(seeded(ledger, source, task), source),
        forall|other: u64|
            other != source ==> {
                &&& seeded(ledger, source, task).contains_key(other) == ledger.contains_key(other)
                &&& seeded(ledger, source, task)[other] == ledger[other]
            },
{
}

/// Toggling a tuple never starts or stops tracking a source, keeps every
/// recorded task, and leaves the buckets of all other sources as they were.
/// On a ledger that does not track the source it changes nothing at all.
pub proof fn lemma_toggle_frame(ledger: Ledger, source: u64, tuple: u64)
    ensures
        toggled(ledger, source, tuple).dom() == ledger.dom(),
        !ledger.contains_key(source) ==> toggled(ledger, source, tuple) == ledger,
        ledger.contains_key(source) ==> {
            &&& toggled(ledger, source, tuple)[source].task == ledger[source].task
            &&& toggled(ledger, source, tuple)[source].ack == ledger[source].ack ^ tuple
        },
        forall|other: u64|
            other != source ==> toggled(ledger, source, tuple)[other] == ledger[other],
{
    assert(toggled(ledger, source, tuple).dom() =~= ledger.dom());
}

/// Toggling the same tuple twice in a row gives back the ledger that was
/// there before the first of the two.
pub proof fn lemma_toggle_twice(ledger: Ledger, source: u64, tuple: u64)
    ensures
        toggled(toggled(ledger, source, tuple), source, tuple) == ledger,
{
    if ledger.contains_key(source) {
        lemma_xor_algebra(ledger[source].ack, tuple, 0);
    }
    assert(toggled(toggled(ledger, source, tuple), source, tuple) =~= ledger);
}

/// A tuple that is added to a freshly registered source and then acked
/// leaves the ack value at the seed: the source's own identifier.
pub proof fn lemma_add_then_ack(ledger: Ledger, source: u64, task: u32, tuple: u64)
    ensures
        toggled(toggled(seeded(ledger, source, task), source, tuple), source, tuple) == seeded(
            ledger,
            source,
            task,
        ),
        toggled(toggled(seeded(ledger, source, task), source, tuple), source, tuple)[source].ack
            == source,
{
    lemma_toggle_twice(seeded(ledger, source, task), source, tuple);
}

/// Two toggles on one source can be swapped.
pub proof fn lemma_toggle_swap(ledger: Ledger, source: u64, first: u64, second: u64)
    ensures
        toggled(toggled(ledger, source, first), source, second) == toggled(
            toggled(ledger, source, second),
            source,
            first,
        ),
{
    if ledger.contains_key(source) {
        lemma_xor_algebra(ledger[source].ack, first, second);
    }
    assert(toggled(toggled(ledger, source, first), source, second) =~= toggled(
        toggled(ledger, source, second),
        source,
        first,
    ));
}

/// Toggling a whole sequence of tuples is one toggle with the XOR of them
/// all.
pub proof fn lemma_toggle_all_is_one_toggle(ledger: Ledger, source: u64, tuples: Seq<u64>)
    ensures
        toggled_all(ledger, source, tuples) == toggled(ledger, source, xor_all(tuples)),
    decreases tuples.len(),
{
    if tuples.len() == 0 {
        if ledger.contains_key(source) {
            lemma_xor_algebra(ledger[source].ack, 0, 0);
        }
        assert(toggled(ledger, source, 0) =~= ledger);
    } else {
        let front = tuples.drop_last();
        lemma_toggle_all_is_one_toggle(ledger, source, front);
        if ledger.contains_key(source) {
            lemma_xor_algebra(ledger[source].ack, xor_all(front), tuples.last());
        }
        assert(toggled(toggled(ledger, source, xor_all(front)), source, tuples.last())
            =~= toggled(ledger, source, xor_all(front) ^ tuples.last()));
    }
}

/// The ack value of a source is at all times the XOR of its own identifier
/// and of every tuple toggled under it since it was registered. So the source
/// is complete exactly when those tuples XOR to the source's identifier.
pub proof fn lemma_ack_value(ledger: Ledger, source: u64, task: u32, tuples: Seq<u64>)
    ensures
        toggled_all(seeded(ledger, source, task), source, tuples).contains_key(source),
        toggled_all(seeded(ledger, source, task), source, tuples)[source].ack == source ^ xor_all(
            tuples,
        ),
        toggled_all(seeded(ledger, source, task), source, tuples)[source].task == task,
        completed(toggled_all(seeded(ledger, source, task), source, tuples), source) <==> xor_all(
            tuples,
        ) == source,
{
    lemma_toggle_all_is_one_toggle(seeded(ledger, source, task), source, tuples);
    lemma_xor_algebra(source, xor_all(tuples), 0);
}

/// The order in which tuples are added and acked does not matter: two
/// sequences that are permutations of each other lead to the same ledger.
pub proof fn lemma_order_is_irrelevant(
    ledger: Ledger,
    source: u64,
    tuples: Seq<u64>,
    permuted: Seq<u64>,
)
    requires
        tuples.to_multiset() == permuted.to_multiset(),
    ensures
        toggled_all(ledger, source, tuples) == toggled_all(ledger, source, permuted),
        xor_all(tuples) == xor_all(permuted),
{
    let step = |l: Ledger, tuple: u64| toggled(l, source, tuple);
    assert(commutative_foldl(step)) by {
        assert forall|x: u64, y: u64, l: Ledger| #[trigger] step(step(l, x), y) == step(step(l, y), x) by {
            lemma_toggle_swap(l, source, x, y);
        }
    }
    lemma_fold_left_permutation(tuples, permuted, step, ledger);

    let xor = |acc: u64, tuple: u64| acc ^ tuple;
    assert(commutative_foldl(xor)) by {
        assert forall|x: u64, y: u64, acc: u64| #[trigger] xor(xor(acc, x), y) == xor(xor(acc, y), x) by {
            lemma_xor_algebra(acc, x, y);
        }
    }
    lemma_fold_left_permutation(tuples, permuted, xor, 0u64);
}

} // verus!

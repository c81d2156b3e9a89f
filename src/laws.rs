//! Properties of the generator that relate several operations, stated over
//! the model that the operations' own contracts use.

use vstd::prelude::*;

use crate::model::{
    generate_n, initial, is_permutation, keystream, with_entropy, GeneratorModel,
};
use crate::permutation::{lemma_generate_keeps_permutation, lemma_key_schedule_is_permutation};

verus! {

/// A call made on an initialised generator.
pub enum Operation {
    /// `generate` into a buffer of the given length.
    Generate(nat),
    /// `add_entropy` with the given value.
    AddEntropy(u16),
}

/// The state after one call.
pub open spec fn apply(st: GeneratorModel, op: Operation) -> GeneratorModel {
    match op {
        Operation::Generate(n) => generate_n(st, n).0,
        Operation::AddEntropy(e) => with_entropy(st, e),
    }
}

/// The state after a sequence of calls, in order.
pub open spec fn run(st: GeneratorModel, ops: Seq<Operation>) -> GeneratorModel
    decreases ops.len(),
{
    if ops.len() == 0 {
        st
    } else {
        apply(run(st, ops.drop_last()), ops.last())
    }
}

/// After `init` with any non-empty key, of any length, and after any sequence
/// of `generate` and `add_entropy` calls, the table is a permutation of the
/// 256 byte values.
pub proof fn law_table_stays_permutation(key: Seq<u8>, ops: Seq<Operation>)
    requires
        key.len() > 0,
    ensures
        is_permutation(run(initial(key), ops).table),
    decreases ops.len(),
{
    if ops.len() == 0 {
        lemma_key_schedule_is_permutation(key);
        lemma_generate_keeps_permutation(crate::model::key_schedule(key), 256);
    } else {
        law_table_stays_permutation(key, ops.drop_last());
        let before = run(initial(key), ops.drop_last());
        match ops.last() {
            Operation::Generate(n) => lemma_generate_keeps_permutation(before, n),
            Operation::AddEntropy(e) => {},
        }
    }
}

/// Generating `n` bytes yields exactly `n` bytes.
pub proof fn law_output_length(st: GeneratorModel, n: nat)
    ensures
        generate_n(st, n).1.len() == n,
    decreases n,
{
    if n > 0 {
        law_output_length(st, (n - 1) as nat);
    }
}

/// Without entropy, the bytes that `init` then `generate` produce are a
/// function of the key and the output length alone: equal keys and equal
/// lengths give equal bytes, whatever the buffer held before.
pub proof fn law_deterministic(key1: Seq<u8>, key2: Seq<u8>, n1: nat, n2: nat)
    requires
        key1.len() > 0,
        key1 == key2,
        n1 == n2,
    ensures
        generate_n(initial(key1), n1).1 == generate_n(initial(key2), n2).1,
        generate_n(initial(key1), n1).1 == keystream(key1, n1),
{
}

/// `init(key); generate(buf0); reset(key); generate(buf1)` gives
/// `buf0 == buf1` for equal lengths: the state that `reset` leaves is the one
/// `init` builds, whatever was generated before.
pub proof fn law_reset_restarts_stream(key: Seq<u8>, n: nat)
    requires
        key.len() > 0,
    ensures
        ({
            let (_, buf0) = generate_n(initial(key), n);
            let after_reset = initial(key);
            let (_, buf1) = generate_n(after_reset, n);
            buf0 == buf1
        }),
{
}

/// Generating into an empty buffer leaves the table and both cursors as they
/// were and produces nothing.
pub proof fn law_empty_generate_is_noop(st: GeneratorModel)
    ensures
        generate_n(st, 0).0 == st,
        generate_n(st, 0).1 == Seq::<u8>::empty(),
{
}

/// Folding in entropy touches neither the table, nor `i`, nor the low half of
/// the cursor word.
pub proof fn law_entropy_keeps_table(st: GeneratorModel, e: u16)
    ensures
        with_entropy(st, e).table == st.table,
        with_entropy(st, e).i == st.i,
        with_entropy(st, e).j % 0x1_0000 == st.j % 0x1_0000,
{
}

/// Two different entropy values folded into the same state leave different
/// cursor words: no entropy value is lost against another at the moment it is
/// folded in.
pub proof fn law_entropy_values_distinguished(st: GeneratorModel, e1: u16, e2: u16)
    requires
        e1 != e2,
    ensures
        with_entropy(st, e1).j != with_entropy(st, e2).j,
{
}

} // verus!

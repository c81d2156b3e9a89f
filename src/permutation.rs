//! Proofs that the table stays a permutation of the byte values through the
//! key schedule and every generation step.

use vstd::prelude::*;

use crate::model::{
    generate_n, is_permutation, key_schedule, mix, step, stride_table, swap, GeneratorModel,
};

verus! {

/// 89 is the inverse of 233 modulo 256, so slot `k` of the stride layout can
/// be recovered from its value.
proof fn lemma_stride_inverse(k: u32)
    requires
        k < 256,
    ensures
        ((k + 1) * 233 % 256) * 89 % 256 == (k + 1) % 256,
{
    assert(k < 256 ==> ((k + 1) * 233 % 256) * 89 % 256 == (k + 1) % 256) by (bit_vector);
}

/// Every byte value `v` sits in the stride layout at slot `(89 v + 255) mod 256`.
proof fn lemma_stride_hits(v: u32)
    requires
        v < 256,
    ensures
        ((v * 89 + 255) % 256 + 1) * 233 % 256 == v,
{
    assert(v < 256 ==> ((v * 89 + 255) % 256 + 1) * 233 % 256 == v) by (bit_vector);
}

/// The stride-233 layout is a permutation.
pub proof fn lemma_stride_table_is_permutation()
    ensures
        is_permutation(stride_table()),
{
    let s = stride_table();
    assert forall|a: int, b: int| 0 <= a < b < 256 implies #[trigger] s[a] != #[trigger] s[b] by {
        lemma_stride_inverse(a as u32);
        lemma_stride_inverse(b as u32);
    }
    assert forall|v: u8| #[trigger] s.contains(v) by {
        lemma_stride_hits(v as u32);
        let k = (v as int * 89 + 255) % 256;
        assert(s[k] == v);
    }
}

/// Exchanging two entries of a permutation leaves a permutation.
pub proof fn lemma_swap_keeps_permutation(s: Seq<u8>, a: int, b: int)
    requires
        is_permutation(s),
        0 <= a < 256,
        0 <= b < 256,
    ensures
        is_permutation(swap(s, a, b)),
{
    let t = swap(s, a, b);
    assert forall|x: int, y: int| 0 <= x < y < 256 implies #[trigger] t[x] != #[trigger] t[y] by {
        let sx = if x == a { b } else if x == b { a } else { x };
        let sy = if y == a { b } else if y == b { a } else { y };
        assert(t[x] == s[sx]);
        assert(t[y] == s[sy]);
        if sx < sy {
            assert(s[sx] != s[sy]);
        } else {
            assert(s[sy] != s[sx]);
        }
    }
    assert forall|v: u8| #[trigger] t.contains(v) by {
        assert(s.contains(v));
        let k = choose|k: int| 0 <= k < s.len() && s[k] == v;
        let w = if k == a { b } else if k == b { a } else { k };
        assert(t[w] == v);
    }
}

/// Every round of the key schedule keeps the table a permutation.
pub proof fn lemma_mix_keeps_permutation(key: Seq<u8>, r: nat)
    requires
        key.len() > 0,
    ensures
        is_permutation(mix(key, r).0),
    decreases r,
{
    if r == 0 {
        lemma_stride_table_is_permutation();
    } else {
        lemma_mix_keeps_permutation(key, (r - 1) as nat);
        let (s, j) = mix(key, (r - 1) as nat);
        let nj = ((j + s[(r - 1) % 256] + key[(r - 1) % (key.len() as int)]) % 256) as u8;
        lemma_swap_keeps_permutation(s, (r - 1) % 256, nj as int);
    }
}

/// The key schedule yields a permutation for every non-empty key, short or
/// long.
pub proof fn lemma_key_schedule_is_permutation(key: Seq<u8>)
    requires
        key.len() > 0,
    ensures
        is_permutation(key_schedule(key).table),
{
    lemma_mix_keeps_permutation(key, crate::model::mixing_rounds(key.len()));
}

/// One generation step keeps the table a permutation.
pub proof fn lemma_step_keeps_permutation(st: GeneratorModel)
    requires
        is_permutation(st.table),
    ensures
        is_permutation(step(st).0.table),
{
    let i = ((st.i + 11) % 256) as u8;
    let j = ((crate::model::rotl32(st.j) + st.table[i as int]) % 0x1_0000_0000) as u32;
    lemma_swap_keeps_permutation(st.table, i as int, (j % 256) as int);
}

/// Any number of generation steps keeps the table a permutation.
pub proof fn lemma_generate_keeps_permutation(st: GeneratorModel, n: nat)
    requires
        is_permutation(st.table),
    ensures
        is_permutation(generate_n(st, n).0.table),
    decreases n,
{
    if n > 0 {
        lemma_generate_keeps_permutation(st, (n - 1) as nat);
        lemma_step_keeps_permutation(generate_n(st, (n - 1) as nat).0);
    }
}

} // verus!

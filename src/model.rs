//! The generator described over mathematical values: the key schedule, the
//! byte-production step, entropy folding, and what it means for the table to
//! be a permutation.

use vstd::prelude::*;

verus! {

/// Abstract generator state: the permutation table and the two cursors.
pub struct GeneratorModel {
    /// The 256-entry table.
    pub table: Seq<u8>,
    /// The 8-bit cursor, advanced by a fixed stride per output byte.
    pub i: u8,
    /// The 32-bit cursor word: its low byte indexes the table, its high
    /// half accumulates injected entropy.
    pub j: u32,
}

/// The table before any key byte is mixed in: slot `k` holds
/// `(k + 1) * 233 mod 256`.
pub open spec fn stride_table() -> Seq<u8> {
    Seq::new(256, |k: int| ((k + 1) * 233 % 256) as u8)
}

/// Exchanges the entries at `a` and `b` (a no-op when `a == b`).
pub open spec fn swap(s: Seq<u8>, a: int, b: int) -> Seq<u8> {
    s.update(a, s[b]).update(b, s[a])
}

/// Number of mixing rounds for a key of `key_len` bytes: the key length when
/// it exceeds 256, else 256.
pub open spec fn mixing_rounds(key_len: nat) -> nat {
    if key_len > 256 {
        key_len
    } else {
        256
    }
}

/// Table and running index `j` after `r` mixing rounds of the key schedule.
/// Round `k` (counting from zero) works on slot `k mod 256` with key byte
/// `key[k mod key.len()]`.
pub open spec fn mix(key: Seq<u8>, r: nat) -> (Seq<u8>, u8)
    recommends
        key.len() > 0,
    decreases r,
{
    if r == 0 {
        (stride_table(), 0u8)
    } else {
        let (s, j) = mix(key, (r - 1) as nat);
        let i = (r - 1) % 256;
        let nj = ((j + s[i] + key[(r - 1) % (key.len() as int)]) % 256) as u8;
        (swap(s, i, nj as int), nj)
    }
}

/// State right after the key schedule: the mixed table, `i` read from the
/// table at `j ^ 85`, and the cursor word cleared.
pub open spec fn key_schedule(key: Seq<u8>) -> GeneratorModel
    recommends
        key.len() > 0,
{
    let (s, j) = mix(key, mixing_rounds(key.len()));
    GeneratorModel { table: s, i: s[(j ^ 85u8) as int], j: 0 }
}

/// 32-bit rotation left by one.
pub open spec fn rotl32(x: u32) -> u32 {
    ((x as int * 2) % 0x1_0000_0000 + x as int / 0x8000_0000) as u32
}

/// 16-bit rotation left by one.
pub open spec fn rotl16(x: u16) -> u16 {
    ((x as int * 2) % 0x1_0000 + x as int / 0x8000) as u16
}

/// One generation step: the next state and the byte it emits.
pub open spec fn step(st: GeneratorModel) -> (GeneratorModel, u8) {
    let i = ((st.i + 11) % 256) as u8;
    let a = st.table[i as int];
    let j = ((rotl32(st.j) + a) % 0x1_0000_0000) as u32;
    let j0 = (j % 256) as u8;
    let b = st.table[j0 as int];
    let t = swap(st.table, i as int, j0 as int);
    (GeneratorModel { table: t, i, j }, t[(a + b) % 256])
}

/// The state after `n` steps from `st`, and the `n` bytes emitted on the way.
pub open spec fn generate_n(st: GeneratorModel, n: nat) -> (GeneratorModel, Seq<u8>)
    decreases n,
{
    if n == 0 {
        (st, Seq::empty())
    } else {
        let (mid, out) = generate_n(st, (n - 1) as nat);
        let (next, byte) = step(mid);
        (next, out.push(byte))
    }
}

/// A freshly initialised generator: the key schedule followed by 256
/// discarded output bytes.
pub open spec fn initial(key: Seq<u8>) -> GeneratorModel
    recommends
        key.len() > 0,
{
    generate_n(key_schedule(key), 256).0
}

/// The first `n` bytes a generator initialised with `key` produces.
pub open spec fn keystream(key: Seq<u8>, n: nat) -> Seq<u8>
    recommends
        key.len() > 0,
{
    generate_n(initial(key), n).1
}

/// The state after folding `e` into the high half of the cursor word: that
/// half becomes `rotl16(high) + e` (wrapping); the table, `i` and the low
/// half of the word are kept.
pub open spec fn with_entropy(st: GeneratorModel, e: u16) -> GeneratorModel {
    let high = (st.j / 0x1_0000) as u16;
    let new_high = ((rotl16(high) + e) % 0x1_0000) as u16;
    GeneratorModel { j: (st.j % 0x1_0000 + new_high * 0x1_0000) as u32, ..st }
}

/// `s` has 256 entries, no value twice, and every byte value somewhere.
pub open spec fn is_permutation(s: Seq<u8>) -> bool {
    &&& s.len() == 256
    &&& forall|a: int, b: int| 0 <= a < b < 256 ==> #[trigger] s[a] != #[trigger] s[b]
    &&& forall|v: u8| #[trigger] s.contains(v)
}

} // verus!

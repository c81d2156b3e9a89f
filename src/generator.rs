//! The executable generator engine.

use vstd::prelude::*;

use crate::laws::law_output_length;
use crate::model::{
    generate_n, initial, is_permutation, key_schedule, mix, mixing_rounds, rotl16, rotl32, step,
    stride_table, swap, with_entropy, GeneratorModel,
};
use crate::permutation::{lemma_generate_keeps_permutation, lemma_key_schedule_is_permutation};

verus! {

/// RC4OK generator state: a 256-byte permutation table, the 8-bit cursor `i`
/// and the 32-bit cursor word `j`.
///
/// Every operation takes the state by exclusive reference, so a generating
/// thread and an entropy-injecting thread can never touch the cursor word at
/// the same time through this type.
pub struct RC4ok {
    s: [u8; 256],
    j: u32,
    i: u8,
}

impl View for RC4ok {
    type V = GeneratorModel;

    closed spec fn view(&self) -> GeneratorModel {
        GeneratorModel { table: self.s@, i: self.i, j: self.j }
    }
}

/// The shift-and-or form of a one-bit 32-bit rotation.
proof fn lemma_rotl32_bits(x: u32)
    ensures
        (x << 1u32) | (x >> 31u32) == rotl32(x),
{
    assert((x << 1u32) | (x >> 31u32) == ((x as int * 2) % 0x1_0000_0000 + x as int / 0x8000_0000) as u32) by (bit_vector);
}

/// Rotates a 32-bit word left by one bit.
fn rotate_left_one(x: u32) -> (r: u32)
    ensures
        r == rotl32(x),
{
    proof {
        lemma_rotl32_bits(x);
    }
    (x << 1u32) | (x >> 31u32)
}

/// The shift-and-or form of a one-bit 16-bit rotation.
proof fn lemma_rotl16_bits(x: u16)
    ensures
        (x << 1u16) | (x >> 15u16) == rotl16(x),
{
    assert((x << 1u16) | (x >> 15u16) == ((x as int * 2) % 0x1_0000 + x as int / 0x8000) as u16) by (bit_vector);
}

/// Reading the high half of a word by shifting, and replacing it by masking
/// and shifting.
proof fn lemma_split_word(w: u32, h: u16)
    ensures
        (w >> 16u32) as int == w as int / 0x1_0000,
        (w & 0xffffu32) | ((h as u32) << 16u32) == (w as int % 0x1_0000 + h as int * 0x1_0000) as u32,
{
    assert((w >> 16u32) as int == w as int / 0x1_0000) by (bit_vector);
    assert((w & 0xffffu32) | ((h as u32) << 16u32) == (w as int % 0x1_0000 + h as int * 0x1_0000) as u32) by (bit_vector);
}

impl RC4ok {
    /// Creates a generator from a non-empty key: runs the key schedule, then
    /// draws and discards 256 bytes so that the first bytes handed out carry
    /// no plain imprint of the key.
    pub fn init(key: &[u8]) -> (r: Self)
        requires
            key@.len() > 0,
        ensures
            r@ == initial(key@),
            is_permutation(r@.table),
    {
        let mut state = RC4ok { s: [0u8; 256], j: 0, i: 0 };
        state.ksa(key);
        let mut dump = [0u8; 256];
        state.prga(&mut dump);
        proof {
            lemma_key_schedule_is_permutation(key@);
            lemma_generate_keeps_permutation(key_schedule(key@), 256);
        }
        let mut k: usize = 0;
        while k < 256
            invariant
                dump@.len() == 256,
            decreases 256 - k,
        {
            dump[k] = 0;
            k += 1;
        }
        state
    }

    /// Fills `out` with the next `out.len()` generated bytes, advancing the
    /// state by exactly that many steps. An empty `out` changes nothing.
    pub fn generate(&mut self, out: &mut [u8])
        requires
            is_permutation(old(self)@.table),
        ensures
            final(self)@ == generate_n(old(self)@, old(out)@.len()).0,
            final(out)@ == generate_n(old(self)@, old(out)@.len()).1,
            final(out)@.len() == old(out)@.len(),
            is_permutation(final(self)@.table),
    {
        proof {
            lemma_generate_keeps_permutation(self@, out@.len());
            law_output_length(self@, out@.len());
        }
        self.prga(out);
    }

    /// Folds 16 bits of entropy into the high half of the cursor word: that
    /// half is rotated left by one and `entropy` is added to it (wrapping).
    /// The table, `i` and the low half of the word stay as they were.
    pub fn add_entropy(&mut self, entropy: u16)
        ensures
            final(self)@ == with_entropy(old(self)@, entropy),
    {
        let jw = self.j;
        let high = (jw >> 16u32) as u16;
        let rotated = (high << 1u16) | (high >> 15u16);
        let new_high = rotated.wrapping_add(entropy);
        proof {
            lemma_rotl16_bits(high);
            lemma_split_word(jw, new_high);
        }
        self.j = (jw & 0xffffu32) | ((new_high as u32) << 16u32);
    }

    /// Reinitialises the generator from a non-empty key, exactly as `init`
    /// would: nothing of the previous state survives.
    pub fn reset(&mut self, key: &[u8])
        requires
            key@.len() > 0,
        ensures
            final(self)@ == initial(key@),
            is_permutation(final(self)@.table),
    {
        *self = Self::init(key);
    }

    /// Key scheduling: lays the table out with stride 233, mixes the key in
    /// over `mixing_rounds(key.len())` swaps, then sets `i` from the table and
    /// clears the cursor word (dropping any entropy folded in before).
    fn ksa(&mut self, key: &[u8])
        requires
            key@.len() > 0,
        ensures
            final(self)@ == key_schedule(key@),
    {
        let klen = key.len();
        let mut i: usize = 0;
        let mut j: usize = 0;
        while i < 256
            invariant
                i <= 256,
                j == i * 233 % 256,
                forall|k: int| 0 <= k < i ==> self.s@[k] == stride_table()[k],
            decreases 256 - i,
        {
            proof {
                vstd::arithmetic::div_mod::lemma_add_mod_noop(i * 233, 233, 256);
            }
            j = (j + 233) % 256;
            self.s[i] = j as u8;
            i += 1;
        }
        assert(self.s@ =~= stride_table());

        j = 0;
        i = 0;
        let n: usize = if klen > 256 {
            klen
        } else {
            256
        };
        let mut k: usize = 0;
        while k < n
            invariant
                klen == key@.len(),
                klen > 0,
                n == mixing_rounds(klen as nat),
                k <= n,
                i == k % 256,
                j < 256,
                self.s@ == mix(key@, k as nat).0,
                j == mix(key@, k as nat).1,
            decreases n - k,
        {
            let ghost before = self.s@;
            let ghost next = mix(key@, (k + 1) as nat);
            proof {
                assert(next == ({
                    let nj = ((j + before[i as int] + key@[(k as int) % (klen as int)]) % 256) as u8;
                    (swap(before, i as int, nj as int), nj)
                }));
            }
            j = (j + self.s[i] as usize + key[k % klen] as usize) % 256;
            let a = self.s[i];
            let b = self.s[j];
            self.s[i] = b;
            self.s[j] = a;
            assert(self.s@ =~= next.0);
            i = (i + 1) % 256;
            k += 1;
        }
        let j8 = j as u8;
        self.i = self.s[(j8 ^ 85u8) as usize];
        self.j = 0;
        assert(self@.table =~= key_schedule(key@).table);
    }

    /// One generation step: advances the state and returns the byte it emits.
    fn next_byte(&mut self) -> (byte: u8)
        ensures
            (final(self)@, byte) == step(old(self)@),
    {
        let ghost prev = self@;
        let i = self.i.wrapping_add(11);
        assert(i == ((prev.i + 11) % 256) as u8);
        let a = self.s[i as usize];
        let jw = rotate_left_one(self.j).wrapping_add(a as u32);
        assert(jw == ((rotl32(prev.j) + a) % 0x1_0000_0000) as u32);
        let j0 = (jw % 256) as u8;
        let b = self.s[j0 as usize];
        self.s[i as usize] = b;
        self.s[j0 as usize] = a;
        self.i = i;
        self.j = jw;
        let u = a.wrapping_add(b);
        assert(u == ((a + b) % 256) as u8);
        let ghost next = step(prev);
        assert(self@.table =~= swap(prev.table, i as int, j0 as int));
        assert(self@ == next.0);
        self.s[u as usize]
    }

    /// Fills `out` with the next `out.len()` bytes, one generation step per
    /// byte.
    fn prga(&mut self, out: &mut [u8])
        ensures
            final(self)@ == generate_n(old(self)@, old(out)@.len()).0,
            final(out)@ == generate_n(old(self)@, old(out)@.len()).1,
    {
        let ghost start = self@;
        let olen = out.len();
        let mut idx: usize = 0;
        while idx < olen
            invariant
                olen == out@.len(),
                idx <= olen,
                start == old(self)@,
                olen == old(out)@.len(),
                self@ == generate_n(start, idx as nat).0,
                out@.subrange(0, idx as int) == generate_n(start, idx as nat).1,
            decreases olen - idx,
        {
            let ghost prev_out = out@;
            let byte = self.next_byte();
            out[idx] = byte;
            assert(out@.subrange(0, idx + 1) =~= prev_out.subrange(0, idx as int).push(byte));
            idx += 1;
        }
        assert(out@ =~= out@.subrange(0, olen as int));
    }
}

} // verus!

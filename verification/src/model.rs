//! Mathematical model of the cipher: the substitution network, the round
//! function, the key schedule and the two block transforms, all as spec
//! functions, together with the proofs that tie them together — most
//! importantly that decryption inverts encryption under any schedule.
use vstd::prelude::*;
use vstd::wrapping::u32_specs;
use crate::consts::{KEY_SCHEDULE, S_BOX_0, S_BOX_1, S_BOX_2, S_BOX_3};

verus! {

/// The four 32-bit words a cipher state consists of: the two words of the
/// left half followed by the two words of the right half.
pub type StateWords = (u32, u32, u32, u32);

/// The nonlinear substitution of a 32-bit word: one table lookup per byte
/// (byte 0 = least significant), XOR-ed together.
#[verifier::opaque]
pub open spec fn substitute(v: u32) -> u32 {
    S_BOX_0[(v as u8) as int] ^ S_BOX_1[((v >> 8) as u8) as int]
        ^ S_BOX_2[((v >> 16) as u8) as int] ^ S_BOX_3[((v >> 24) as u8) as int]
}

/// The big-endian 32-bit word formed from four bytes.
pub open spec fn be_word(b0: u8, b1: u8, b2: u8, b3: u8) -> u32 {
    ((b0 as u32) << 24) | ((b1 as u32) << 16) | ((b2 as u32) << 8) | (b3 as u32)
}

/// Word `i` (0-based) of a 16-byte block read as four big-endian words.
pub open spec fn word_at(b: Seq<u8>, i: int) -> u32 {
    be_word(b[4 * i], b[4 * i + 1], b[4 * i + 2], b[4 * i + 3])
}

/// A 16-byte block split into four big-endian words.
pub open spec fn words_of_block(b: Seq<u8>) -> StateWords {
    (word_at(b, 0), word_at(b, 1), word_at(b, 2), word_at(b, 3))
}

/// Four words serialized back to 16 bytes, each word big-endian.
pub open spec fn block_of_words(s: StateWords) -> Seq<u8> {
    let (a, b, c, d) = s;
    seq![
        (a >> 24) as u8, (a >> 16) as u8, (a >> 8) as u8, a as u8,
        (b >> 24) as u8, (b >> 16) as u8, (b >> 8) as u8, b as u8,
        (c >> 24) as u8, (c >> 16) as u8, (c >> 8) as u8, c as u8,
        (d >> 24) as u8, (d >> 16) as u8, (d >> 8) as u8, d as u8,
    ]
}

/// The two halves of a state exchanged.
pub open spec fn swap_halves(s: StateWords) -> StateWords {
    (s.2, s.3, s.0, s.1)
}

/// The cipher's F-function: given the source pair `(r0, r1)` and two round-key
/// words, produce the pair that is XOR-ed into the accumulator half.
pub open spec fn round_f(r0: u32, r1: u32, k0: u32, k1: u32) -> (u32, u32) {
    let t0 = r0 ^ k0;
    let t1 = (r1 ^ k1) ^ t0;
    let u1 = substitute(t1);
    let u0 = substitute(u32_specs::wrapping_add(t0, u1));
    let v1 = substitute(u32_specs::wrapping_add(u1, u0));
    let v0 = u32_specs::wrapping_add(u0, v1);
    (v0, v1)
}

/// One encryption iteration (a pair of Feistel rounds): pair `i` consumes
/// schedule words `4*i .. 4*i+3`, first updating the left half from the right,
/// then the right half from the fresh left.
pub open spec fn enc_step(s: StateWords, ks: Seq<u32>, i: int) -> StateWords {
    let (l0, l1, r0, r1) = s;
    let f = round_f(r0, r1, ks[4 * i], ks[4 * i + 1]);
    let l0n = l0 ^ f.0;
    let l1n = l1 ^ f.1;
    let g = round_f(l0n, l1n, ks[4 * i + 2], ks[4 * i + 3]);
    (l0n, l1n, r0 ^ g.0, r1 ^ g.1)
}

/// One decryption iteration: pair `i` consumes the same schedule words as
/// encryption pair `7 - i`, in reverse order within the pair.
pub open spec fn dec_step(s: StateWords, ks: Seq<u32>, i: int) -> StateWords {
    let (l0, l1, r0, r1) = s;
    let f = round_f(r0, r1, ks[30 - 4 * i], ks[31 - 4 * i]);
    let l0n = l0 ^ f.0;
    let l1n = l1 ^ f.1;
    let g = round_f(l0n, l1n, ks[28 - 4 * i], ks[29 - 4 * i]);
    (l0n, l1n, r0 ^ g.0, r1 ^ g.1)
}

/// The state after the first `n` encryption iterations.
pub open spec fn enc_upto(s: StateWords, ks: Seq<u32>, n: int) -> StateWords
    decreases n,
{
    if n <= 0 {
        s
    } else {
        enc_step(enc_upto(s, ks, n - 1), ks, n - 1)
    }
}

/// The state after the first `n` decryption iterations.
pub open spec fn dec_upto(s: StateWords, ks: Seq<u32>, n: int) -> StateWords
    decreases n,
{
    if n <= 0 {
        s
    } else {
        dec_step(dec_upto(s, ks, n - 1), ks, n - 1)
    }
}

/// A 16-byte block encrypted under a 32-word schedule: split into words, run
/// through all eight iterations (16 rounds), and serialized with the halves
/// in swapped order, as the network omits the final swap.
pub open spec fn encrypt_block_spec(b: Seq<u8>, ks: Seq<u32>) -> Seq<u8> {
    block_of_words(swap_halves(enc_upto(words_of_block(b), ks, 8)))
}

/// A 16-byte block decrypted under a 32-word schedule.
pub open spec fn decrypt_block_spec(b: Seq<u8>, ks: Seq<u32>) -> Seq<u8> {
    block_of_words(swap_halves(dec_upto(words_of_block(b), ks, 8)))
}

/// The four key words after `i` key-schedule iterations: each iteration
/// rotates one pair of words by 8 bits, treated as a 64-bit concatenation —
/// `(k0, k1)` rightward on even iterations, `(k2, k3)` leftward on odd ones.
pub open spec fn schedule_state(k: StateWords, i: int) -> StateWords
    decreases i,
{
    if i <= 0 {
        k
    } else {
        let (k0, k1, k2, k3) = schedule_state(k, i - 1);
        if (i - 1) % 2 == 0 {
            ((k0 >> 8) | (k1 << 24), (k1 >> 8) | (k0 << 24), k2, k3)
        } else {
            (k0, k1, (k2 << 8) | (k3 >> 24), (k3 << 8) | (k2 >> 24))
        }
    }
}

/// Round-key word `j` of the schedule derived from initial key words `k`:
/// iteration `j / 2` emits the substitution of a wraparound combination of
/// the current key words and the iteration's round constant.
pub open spec fn schedule_word(k: StateWords, j: int) -> u32 {
    let i = j / 2;
    let (k0, k1, k2, k3) = schedule_state(k, i);
    if j % 2 == 0 {
        substitute(u32_specs::wrapping_sub(u32_specs::wrapping_add(k0, k2), KEY_SCHEDULE[i]))
    } else {
        substitute(u32_specs::wrapping_add(u32_specs::wrapping_sub(k1, k3), KEY_SCHEDULE[i]))
    }
}

/// The full 32-word round-key schedule derived from a 16-byte user key.
pub open spec fn key_schedule_spec(key: Seq<u8>) -> Seq<u32> {
    Seq::new(32, |j: int| schedule_word(words_of_block(key), j))
}

/// XOR-ing the same value twice restores a word.
proof fn lemma_xor_cancel()
    by (bit_vector)
    ensures
        forall|x: u32, y: u32| #[trigger] ((x ^ y) ^ y) == x,
{
}

/// A decryption iteration undoes the encryption iteration that consumed the
/// same schedule words, up to the exchange of halves.
proof fn lemma_step_inverse(s: StateWords, ks: Seq<u32>, i: int)
    requires
        0 <= i < 8,
    ensures
        dec_step(swap_halves(enc_step(s, ks, 7 - i)), ks, i) == swap_halves(s),
{
    lemma_xor_cancel();
}

/// After `n` decryption iterations of the encrypted state (halves exchanged),
/// the last `n` encryption iterations are undone.
proof fn lemma_dec_unwinds(s: StateWords, ks: Seq<u32>, n: int)
    requires
        0 <= n <= 8,
    ensures
        dec_upto(swap_halves(enc_upto(s, ks, 8)), ks, n) == swap_halves(enc_upto(s, ks, 8 - n)),
    decreases n,
{
    if n > 0 {
        lemma_dec_unwinds(s, ks, n - 1);
        lemma_step_inverse(enc_upto(s, ks, 7 - (n - 1)), ks, n - 1);
    }
}

/// Splitting a block into big-endian words and serializing the words again
/// restores the block.
proof fn lemma_block_words_id(b: Seq<u8>)
    requires
        b.len() == 16,
    ensures
        block_of_words(words_of_block(b)) == b,
{
    assert forall|b0: u8, b1: u8, b2: u8, b3: u8|
        (#[trigger] be_word(b0, b1, b2, b3) >> 24) as u8 == b0
        && (be_word(b0, b1, b2, b3) >> 16) as u8 == b1
        && (be_word(b0, b1, b2, b3) >> 8) as u8 == b2
        && be_word(b0, b1, b2, b3) as u8 == b3 by {
        assert((be_word(b0, b1, b2, b3) >> 24) as u8 == b0
            && (be_word(b0, b1, b2, b3) >> 16) as u8 == b1
            && (be_word(b0, b1, b2, b3) >> 8) as u8 == b2
            && be_word(b0, b1, b2, b3) as u8 == b3) by (bit_vector);
    }
    assert(block_of_words(words_of_block(b)) =~= b);
}

/// Serializing four words to a block and splitting the block again restores
/// the words.
proof fn lemma_words_block_id(s: StateWords)
    ensures
        words_of_block(block_of_words(s)) == s,
{
    assert forall|w: u32|
        #[trigger] be_word((w >> 24) as u8, (w >> 16) as u8, (w >> 8) as u8, w as u8) == w by {
        assert(be_word((w >> 24) as u8, (w >> 16) as u8, (w >> 8) as u8, w as u8) == w)
            by (bit_vector);
    }
}

/// Decrypting the encryption of any 16-byte block under any 32-word schedule
/// restores the block: the two transforms are mutual inverses.
pub proof fn lemma_round_trip(b: Seq<u8>, ks: Seq<u32>)
    requires
        b.len() == 16,
        ks.len() == 32,
    ensures
        decrypt_block_spec(encrypt_block_spec(b, ks), ks) == b,
{
    let s = words_of_block(b);
    lemma_words_block_id(swap_halves(enc_upto(s, ks, 8)));
    lemma_dec_unwinds(s, ks, 8);
    lemma_block_words_id(b);
}

/// An encryption iteration undoes the decryption iteration that consumed the
/// same schedule words, up to the exchange of halves.
proof fn lemma_step_inverse_rev(s: StateWords, ks: Seq<u32>, i: int)
    requires
        0 <= i < 8,
    ensures
        enc_step(swap_halves(dec_step(s, ks, 7 - i)), ks, i) == swap_halves(s),
{
    lemma_xor_cancel();
}

/// After `n` encryption iterations of the decrypted state (halves exchanged),
/// the last `n` decryption iterations are undone.
proof fn lemma_enc_unwinds(s: StateWords, ks: Seq<u32>, n: int)
    requires
        0 <= n <= 8,
    ensures
        enc_upto(swap_halves(dec_upto(s, ks, 8)), ks, n) == swap_halves(dec_upto(s, ks, 8 - n)),
    decreases n,
{
    if n > 0 {
        lemma_enc_unwinds(s, ks, n - 1);
        lemma_step_inverse_rev(dec_upto(s, ks, 7 - (n - 1)), ks, n - 1);
    }
}

/// Encrypting the decryption of any 16-byte block under any 32-word schedule
/// restores the block: together with `lemma_round_trip`, the two transforms
/// are mutual inverses, hence each is bijective for a fixed schedule.
pub proof fn lemma_round_trip_reverse(b: Seq<u8>, ks: Seq<u32>)
    requires
        b.len() == 16,
        ks.len() == 32,
    ensures
        encrypt_block_spec(decrypt_block_spec(b, ks), ks) == b,
{
    let s = words_of_block(b);
    lemma_words_block_id(swap_halves(dec_upto(s, ks, 8)));
    lemma_enc_unwinds(s, ks, 8);
    lemma_block_words_id(b);
}

/// Deriving the round-key schedule is deterministic: equal user keys yield
/// equal 32-word schedules.
pub proof fn lemma_schedule_deterministic(k1: Seq<u8>, k2: Seq<u8>)
    requires
        k1 == k2,
    ensures
        key_schedule_spec(k1) == key_schedule_spec(k2),
{
}

} // verus!

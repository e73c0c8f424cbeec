//! A 128-bit-block, 128-bit-key Feistel cipher (KISA-SEED): key-schedule
//! derivation and single-block encrypt/decrypt, with every transform proved
//! against a mathematical model and decryption proved to invert encryption.
use vstd::prelude::*;

pub mod consts;
pub mod model;

use crate::consts::{KEY_SCHEDULE, NUMBER_OF_ROUNDS, S_BOX_0, S_BOX_1, S_BOX_2, S_BOX_3};
use crate::model::{
    block_of_words, dec_upto, enc_upto, encrypt_block_spec, decrypt_block_spec,
    key_schedule_spec, round_f, schedule_state, schedule_word, substitute, swap_halves,
    words_of_block,
};

verus! {

/// A 128-bit plaintext or ciphertext block.
pub type Block = [u8; 16];

/// The derived round-key schedule: 32 unsigned 32-bit words.
pub type Key = [u32; 32];

/// A 128-bit user key, consumed once at schedule derivation.
pub type UserKey = [u8; 16];

/// Which way a block transform runs the 16 rounds.
enum TransformDirection {
    Encrypt,
    Decrypt,
}

/// The nonlinear substitution of a 32-bit word: one table lookup per byte,
/// XOR-ed together. The cipher's sole source of nonlinearity.
pub fn get_seed_substitute(value: u32) -> (r: u32)
    ensures
        r == substitute(value),
{
    proof {
        reveal(substitute);
    }
    S_BOX_0[(value as u8) as usize] ^ S_BOX_1[((value >> 8) as u8) as usize]
        ^ S_BOX_2[((value >> 16) as u8) as usize] ^ S_BOX_3[((value >> 24) as u8) as usize]
}

/// A 16-byte block split into four 32-bit words, each read big-endian.
pub fn divide_block(block: &[u8]) -> (r: (u32, u32, u32, u32))
    requires
        block@.len() == 16,
    ensures
        r == words_of_block(block@),
{
    let w0 = ((block[0] as u32) << 24) | ((block[1] as u32) << 16) | ((block[2] as u32) << 8)
        | (block[3] as u32);
    let w1 = ((block[4] as u32) << 24) | ((block[5] as u32) << 16) | ((block[6] as u32) << 8)
        | (block[7] as u32);
    let w2 = ((block[8] as u32) << 24) | ((block[9] as u32) << 16) | ((block[10] as u32) << 8)
        | (block[11] as u32);
    let w3 = ((block[12] as u32) << 24) | ((block[13] as u32) << 16) | ((block[14] as u32) << 8)
        | (block[15] as u32);
    (w0, w1, w2, w3)
}

/// One Feistel round: the F-function of the source pair `(r0, r1)` and the
/// two schedule words at `offset` is XOR-ed into the accumulator pair.
fn seed_round(l0: &mut u32, l1: &mut u32, r0: u32, r1: u32, key: &Key, offset: usize)
    requires
        offset + 1 < 32,
    ensures
        *final(l0) == *old(l0) ^ round_f(r0, r1, key@[offset as int], key@[offset as int + 1]).0,
        *final(l1) == *old(l1) ^ round_f(r0, r1, key@[offset as int], key@[offset as int + 1]).1,
{
    let k0 = key[offset];
    let k1 = key[offset + 1];

    let mut t0 = r0 ^ k0;
    let mut t1 = r1 ^ k1;
    t1 ^= t0;

    t1 = get_seed_substitute(t1);
    t0 = get_seed_substitute(t0.wrapping_add(t1));
    t1 = get_seed_substitute(t1.wrapping_add(t0));
    t0 = t0.wrapping_add(t1);
    *l0 ^= t0;
    *l1 ^= t1;
}

/// Runs all 16 rounds over the four state words and serializes the final
/// state with the halves in swapped order, as the network omits the final
/// swap. Encryption consumes schedule-word pairs in ascending order,
/// decryption in exactly the reverse order.
fn transform(
    l0: &mut u32,
    l1: &mut u32,
    r0: &mut u32,
    r1: &mut u32,
    key: Key,
    output: &mut Block,
    direction: TransformDirection,
)
    ensures
        ({
            let s = (*old(l0), *old(l1), *old(r0), *old(r1));
            let e = match direction {
                TransformDirection::Encrypt => enc_upto(s, key@, 8),
                TransformDirection::Decrypt => dec_upto(s, key@, 8),
            };
            (*final(l0), *final(l1), *final(r0), *final(r1)) == e
                && final(output)@ == block_of_words(swap_halves(e))
        }),
{
    let ghost s = (*l0, *l1, *r0, *r1);
    match direction {
        TransformDirection::Encrypt => {
            let mut n: usize = 0;
            while n < 8
                invariant
                    n <= 8,
                    (*l0, *l1, *r0, *r1) == enc_upto(s, key@, n as int),
                decreases 8 - n,
            {
                seed_round(l0, l1, *r0, *r1, &key, 4 * n);
                seed_round(r0, r1, *l0, *l1, &key, 4 * n + 2);
                n += 1;
            }
        },
        TransformDirection::Decrypt => {
            let mut n: usize = 0;
            while n < 8
                invariant
                    n <= 8,
                    (*l0, *l1, *r0, *r1) == dec_upto(s, key@, n as int),
                decreases 8 - n,
            {
                seed_round(l0, l1, *r0, *r1, &key, 30 - 4 * n);
                seed_round(r0, r1, *l0, *l1, &key, 28 - 4 * n);
                n += 1;
            }
        },
    }

    let a = *r0;
    let b = *r1;
    let c = *l0;
    let d = *l1;
    let out: Block = [
        (a >> 24) as u8, (a >> 16) as u8, (a >> 8) as u8, a as u8,
        (b >> 24) as u8, (b >> 16) as u8, (b >> 8) as u8, b as u8,
        (c >> 24) as u8, (c >> 16) as u8, (c >> 8) as u8, c as u8,
        (d >> 24) as u8, (d >> 16) as u8, (d >> 8) as u8, d as u8,
    ];
    assert(out@ =~= block_of_words((a, b, c, d)));
    *output = out;
}

/// Encrypts one 16-byte block under a derived schedule, writing the
/// ciphertext block to `output`.
pub fn encrypt(block: Block, key: Key, output: &mut Block)
    ensures
        final(output)@ == encrypt_block_spec(block@, key@),
{
    let (mut l0, mut l1, mut r0, mut r1) = divide_block(block.as_slice());
    transform(&mut l0, &mut l1, &mut r0, &mut r1, key, output, TransformDirection::Encrypt);
}

/// Decrypts one 16-byte block under a derived schedule, writing the
/// plaintext block to `output`.
pub fn decrypt(block: Block, key: Key, output: &mut Block)
    ensures
        final(output)@ == decrypt_block_spec(block@, key@),
{
    let (mut l0, mut l1, mut r0, mut r1) = divide_block(block.as_slice());
    transform(&mut l0, &mut l1, &mut r0, &mut r1, key, output, TransformDirection::Decrypt);
}

/// Derives the 32-word round-key schedule from a 16-byte user key: each of
/// the 16 iterations emits the substitution of two wraparound combinations
/// of the current key words with the iteration's round constant, then
/// rotates one pair of key words by 8 bits as a 64-bit concatenation.
pub fn derive_key(key: UserKey) -> (derived: Key)
    ensures
        derived@ == key_schedule_spec(key@),
{
    let (mut k0, mut k1, mut k2, mut k3) = divide_block(key.as_slice());
    let ghost init = (k0, k1, k2, k3);
    let mut derived: Key = [0u32; 32];

    let mut temp: u32;
    let mut i: usize = 0;
    while i < NUMBER_OF_ROUNDS
        invariant
            i <= 16,
            (k0, k1, k2, k3) == schedule_state(init, i as int),
            forall|j: int| 0 <= j < 2 * i ==> derived@[j] == schedule_word(init, j),
        decreases 16 - i,
    {
        temp = k0.wrapping_add(k2).wrapping_sub(KEY_SCHEDULE[i]);
        derived[2 * i] = get_seed_substitute(temp);
        temp = k1.wrapping_sub(k3).wrapping_add(KEY_SCHEDULE[i]);
        derived[2 * i + 1] = get_seed_substitute(temp);

        if i % 2 == 0 {
            temp = (k1 >> 8) | (k0 << 24);
            k0 = (k0 >> 8) | (k1 << 24);
            k1 = temp;
        } else {
            temp = (k3 << 8) | (k2 >> 24);
            k2 = (k2 << 8) | (k3 >> 24);
            k3 = temp;
        }
        i += 1;
    }

    assert(derived@ =~= key_schedule_spec(key@));
    derived
}

/// The single error of this layer: construction was given a key whose
/// length is not exactly 16 bytes.
#[derive(Clone, Copy, Debug, PartialEq, Eq, Structural)]
pub struct InvalidLength;

/// A cipher instance: exactly one round-key schedule, derived once at
/// construction and immutable afterwards.
pub struct SEED {
    key: Key,
}

impl SEED {
    /// The 32-word round-key schedule this instance encrypts and decrypts
    /// under.
    pub closed spec fn schedule(&self) -> Seq<u32> {
        self.key@
    }

    /// Builds a cipher from a key of the exact size; cannot fail.
    pub fn new(key: &UserKey) -> (cipher: SEED)
        ensures
            cipher.schedule() == key_schedule_spec(key@),
    {
        SEED { key: derive_key(*key) }
    }

    /// Builds a cipher from a key slice: succeeds with the schedule derived
    /// from the key if and only if the slice is exactly 16 bytes long, and
    /// fails with `InvalidLength` otherwise.
    pub fn new_from_slice(key: &[u8]) -> (r: Result<SEED, InvalidLength>)
        ensures
            key@.len() == 16 ==> (r matches Ok(cipher)
                && cipher.schedule() == key_schedule_spec(key@)),
            key@.len() != 16 ==> (r matches Err(e) && e == InvalidLength),
    {
        if key.len() != 16 {
            return Err(InvalidLength);
        }

        let mut user_key: UserKey = [0u8; 16];
        let mut i: usize = 0;
        while i < 16
            invariant
                i <= 16,
                key@.len() == 16,
                forall|j: int| 0 <= j < i ==> user_key@[j] == key@[j],
            decreases 16 - i,
        {
            user_key[i] = key[i];
            i += 1;
        }
        assert(user_key@ =~= key@);

        Ok(SEED { key: derive_key(user_key) })
    }

    /// Encrypts one 16-byte block under this instance's schedule.
    pub fn encrypt_block(&self, block: Block) -> (out: Block)
        ensures
            out@ == encrypt_block_spec(block@, self.schedule()),
    {
        let mut out: Block = [0u8; 16];
        encrypt(block, self.key, &mut out);
        out
    }

    /// Decrypts one 16-byte block under this instance's schedule.
    pub fn decrypt_block(&self, block: Block) -> (out: Block)
        ensures
            out@ == decrypt_block_spec(block@, self.schedule()),
    {
        let mut out: Block = [0u8; 16];
        decrypt(block, self.key, &mut out);
        out
    }

    /// Optional hardening: overwrites the round-key schedule with zeros once
    /// the instance is no longer needed.
    pub fn wipe(&mut self)
        ensures
            forall|j: int| 0 <= j < 32 ==> final(self).schedule()[j] == 0u32,
    {
        self.key = [0u32; 32];
    }
}

} // verus!

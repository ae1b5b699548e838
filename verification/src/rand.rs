//! Entropy mixing and bounded randomness.
//!
//! A persistent secret seed is combined with per-call public entropy blocks
//! by hashing their concatenation; the digest keys a ChaCha20 stream whose
//! first output bytes become the per-spin seed, and whose first output word,
//! reduced modulo 6, is the bounded draw. The hash and the stream cipher are
//! supplied by outside crates behind trusted wrappers; everything around the
//! calls — concatenation, flattening, the modulo reduction — is verified.

use vstd::prelude::*;

use rand_chacha::ChaCha20Rng;
use rand_core::{RngCore, SeedableRng};
use sha2::{Digest, Sha256};
use vstd::slice::slice_to_vec;

verus! {

broadcast use vstd::array::group_array_axioms;

/// The SHA-256 digest of a byte string: 32 bytes determined by the input
/// alone.
pub uninterp spec fn sha256_of(data: Seq<u8>) -> Seq<u8>;

/// The first 32 bytes of the output stream of a ChaCha20 generator keyed
/// with `key` (block counter and stream id both zero).
pub uninterp spec fn chacha_bytes_of(key: Seq<u8>) -> Seq<u8>;

/// The first 32-bit output word of a ChaCha20 generator keyed with `key`
/// (block counter and stream id both zero).
pub uninterp spec fn chacha_word_of(key: Seq<u8>) -> u32;

/// Relies on sha2's `Sha256::digest`: a pure function of the input bytes
/// that always returns a 32-byte digest.
#[verifier::external_body]
pub fn sha_256(data: &[u8]) -> (r: [u8; 32])
    ensures
        r@ == sha256_of(data@),
{
    let mut result = [0u8; 32];
    result.copy_from_slice(Sha256::digest(data).as_slice());
    result
}

/// Relies on `ChaCha20Rng::from_seed` and rand_core's `RngCore::fill_bytes`:
/// a freshly keyed ChaCha20 generator (block counter and stream id zero)
/// yields its first 32 output bytes as a function of the key alone.
#[verifier::external_body]
fn chacha_block(key: &[u8; 32]) -> (r: [u8; 32])
    ensures
        r@ == chacha_bytes_of(key@),
{
    let mut rng = ChaCha20Rng::from_seed(*key);
    let mut result = [0u8; 32];
    rng.fill_bytes(&mut result);
    result
}

/// Relies on `ChaCha20Rng::from_seed` and rand_core's `RngCore::next_u32`:
/// a freshly keyed ChaCha20 generator (block counter and stream id zero)
/// yields its first 32-bit output word as a function of the key alone.
#[verifier::external_body]
fn chacha_first_word(key: &[u8; 32]) -> (r: u32)
    ensures
        r == chacha_word_of(key@),
{
    let mut rng = ChaCha20Rng::from_seed(*key);
    rng.next_u32()
}

/// A single-use ChaCha20 stream keyed by hashing caller-supplied material.
/// A fresh one is built per draw; `rand_bytes` consumes it.
pub struct CryptoRandom {
    key: [u8; 32],
    fresh: bool,
}

impl CryptoRandom {
    /// The 32-byte key the stream is keyed with.
    pub closed spec fn spec_key(self) -> Seq<u8> {
        self.key@
    }

    /// Whether no output has been drawn yet.
    pub closed spec fn is_fresh(self) -> bool {
        self.fresh
    }

    /// Key a generator with the SHA-256 digest of `seed` followed by
    /// `entropy`.
    pub fn new(seed: &[u8], entropy: &[u8]) -> (r: Self)
        ensures
            r.spec_key() == sha256_of(seed@ + entropy@),
            r.is_fresh(),
    {
        let mut material = slice_to_vec(seed);
        let mut tail = slice_to_vec(entropy);
        material.append(&mut tail);
        CryptoRandom { key: sha_256(material.as_slice()), fresh: true }
    }

    /// Draw the first 32 bytes of the stream.
    pub fn rand_bytes(&mut self) -> (r: [u8; 32])
        requires
            old(self).is_fresh(),
        ensures
            r@ == chacha_bytes_of(old(self).spec_key()),
            final(self).spec_key() == old(self).spec_key(),
            !final(self).is_fresh(),
    {
        self.fresh = false;
        chacha_block(&self.key)
    }
}

/// The big-endian bytes of a 64-bit integer, most significant byte first.
pub open spec fn u64_be_bytes_of(x: u64) -> Seq<u8> {
    seq![
        (x >> 56) as u8,
        (x >> 48) as u8,
        (x >> 40) as u8,
        (x >> 32) as u8,
        (x >> 24) as u8,
        (x >> 16) as u8,
        (x >> 8) as u8,
        x as u8,
    ]
}

/// Split a 64-bit integer into its big-endian bytes.
pub fn u64_be_bytes(x: u64) -> (r: [u8; 8])
    ensures
        r@ == u64_be_bytes_of(x),
{
    let mut r: [u8; 8] = [0u8; 8];
    r[0] = #[verifier::truncate] ((x >> 56) as u8);
    r[1] = #[verifier::truncate] ((x >> 48) as u8);
    r[2] = #[verifier::truncate] ((x >> 40) as u8);
    r[3] = #[verifier::truncate] ((x >> 32) as u8);
    r[4] = #[verifier::truncate] ((x >> 24) as u8);
    r[5] = #[verifier::truncate] ((x >> 16) as u8);
    r[6] = #[verifier::truncate] ((x >> 8) as u8);
    r[7] = #[verifier::truncate] (x as u8);
    proof {
        assert(r@ =~= u64_be_bytes_of(x));
    }
    r
}

/// The 8-byte blocks of `input` flattened into one byte string, in order.
pub open spec fn flat_blocks(input: Seq<[u8; 8]>) -> Seq<u8>
    decreases input.len(),
{
    if input.len() == 0 {
        Seq::empty()
    } else {
        flat_blocks(input.drop_last()) + input.last()@
    }
}

/// Derive a fresh 32-byte seed for one spin: hash the persistent `seed`
/// followed by the entropy blocks in the exact order supplied, then expand
/// the digest through a ChaCha20 stream.
pub fn new_entropy(input: &[[u8; 8]], seed: &[u8]) -> (r: [u8; 32])
    ensures
        r@ == chacha_bytes_of(sha256_of(seed@ + flat_blocks(input@))),
{
    let mut rng_entropy: Vec<u8> = Vec::new();
    let mut i: usize = 0;
    while i < input.len()
        invariant
            i <= input@.len(),
            rng_entropy@ == flat_blocks(input@.subrange(0, i as int)),
        decreases input@.len() - i,
    {
        let mut block = slice_to_vec(input[i].as_slice());
        rng_entropy.append(&mut block);
        proof {
            let done = input@.subrange(0, (i + 1) as int);
            assert(done.drop_last() =~= input@.subrange(0, i as int));
            assert(done.last() == input@[i as int]);
        }
        i = i + 1;
    }
    proof {
        assert(input@.subrange(0, input@.len() as int) =~= input@);
    }
    let mut rng = CryptoRandom::new(seed, rng_entropy.as_slice());
    rng.rand_bytes()
}

/// Order sensitivity: swapping two distinct entropy blocks changes the byte
/// string the mixer feeds to the hash. The derived seeds then differ unless
/// the digest itself collides on the two strings, which cannot be stated of
/// an uninterpreted digest and is cryptographically negligible.
pub proof fn lemma_entropy_order_sensitive(seed: Seq<u8>, a: [u8; 8], b: [u8; 8])
    requires
        a@ != b@,
    ensures
        seed + flat_blocks(seq![a, b]) != seed + flat_blocks(seq![b, a]),
{
    let empty_blocks = Seq::<[u8; 8]>::empty();
    assert(flat_blocks(empty_blocks) == Seq::<u8>::empty());
    let ab = seq![a, b];
    let ba = seq![b, a];
    assert(ab.drop_last() =~= seq![a]);
    assert(seq![a].drop_last() =~= empty_blocks);
    assert(flat_blocks(seq![a]) == Seq::<u8>::empty() + a@);
    assert(flat_blocks(ab) == (Seq::<u8>::empty() + a@) + b@);
    assert(ba.drop_last() =~= seq![b]);
    assert(seq![b].drop_last() =~= empty_blocks);
    assert(flat_blocks(seq![b]) == Seq::<u8>::empty() + b@);
    assert(flat_blocks(ba) == (Seq::<u8>::empty() + b@) + a@);
    let sab = seed + flat_blocks(ab);
    let sba = seed + flat_blocks(ba);
    if sab == sba {
        assert forall|i: int| 0 <= i < 8 implies a@[i] == b@[i] by {
            assert(sab[seed.len() + i] == a@[i]);
            assert(sba[seed.len() + i] == b@[i]);
        }
        assert(a@ =~= b@);
    }
}

/// The bounded draw a 32-byte seed determines: the first ChaCha20 output
/// word reduced modulo 6.
pub open spec fn draw_of(key: Seq<u8>) -> u8 {
    (chacha_word_of(key) % 6) as u8
}

/// Draw a value in `[0, 6)` from a freshly keyed ChaCha20 stream.
pub fn draw(seed: &[u8; 32]) -> (r: u8)
    ensures
        r == draw_of(seed@),
        r < 6,
{
    let word = chacha_first_word(seed);
    (word % 6) as u8
}

} // verus!

//! Properties that hold of every digest in this crate.
use vstd::prelude::*;
use crate::blake2::blake2b_of;
use crate::encoding::{hex_of, lemma_hex_len, lemma_serialize32_len, lemma_serialize64_len};
use crate::md4::md4_of;
use crate::md5::md5_of;
use crate::padding::{lemma_padded_len, padded};
use crate::ripemd160::ripemd160_of;
use crate::sha1::sha1_of;
use crate::sha256::sha256_of;
use crate::sha512::sha512_of;

verus! {

/// Every digest is a function of its inputs alone: equal messages (and,
/// for BLAKE2b, equal keys and lengths) give equal digests, so repeated
/// calls return the same hexadecimal string.
pub proof fn digests_are_deterministic(
    m1: Seq<u8>,
    m2: Seq<u8>,
    key1: Seq<u8>,
    key2: Seq<u8>,
    len: nat,
)
    requires
        m1 == m2,
        key1 == key2,
    ensures
        hex_of(md4_of(m1)) == hex_of(md4_of(m2)),
        hex_of(md5_of(m1)) == hex_of(md5_of(m2)),
        hex_of(sha1_of(m1)) == hex_of(sha1_of(m2)),
        hex_of(sha256_of(m1)) == hex_of(sha256_of(m2)),
        hex_of(sha512_of(m1)) == hex_of(sha512_of(m2)),
        hex_of(ripemd160_of(m1)) == hex_of(ripemd160_of(m2)),
        hex_of(blake2b_of(m1, key1, len)) == hex_of(blake2b_of(m2, key2, len)),
{
}

/// Digests have a fixed length: 16 bytes for MD4 and MD5, 20 for SHA-1
/// and RIPEMD-160, 32 for SHA-256, 64 for SHA-512, and the requested
/// length for BLAKE2b; the hexadecimal form has two digits per byte.
pub proof fn digest_lengths(m: Seq<u8>, key: Seq<u8>, len: nat)
    requires
        1 <= len <= 64,
    ensures
        md4_of(m).len() == 16,
        md5_of(m).len() == 16,
        sha1_of(m).len() == 20,
        ripemd160_of(m).len() == 20,
        sha256_of(m).len() == 32,
        sha512_of(m).len() == 64,
        blake2b_of(m, key, len).len() == len,
        hex_of(md5_of(m)).len() == 32,
        hex_of(sha1_of(m)).len() == 40,
        hex_of(sha256_of(m)).len() == 64,
        hex_of(sha512_of(m)).len() == 128,
        hex_of(blake2b_of(m, key, len)).len() == 2 * len,
{
    lemma_md_lengths(m);
    lemma_wide_lengths(m, key, len);
    lemma_hex_len(md5_of(m));
    lemma_hex_len(sha1_of(m));
    lemma_hex_len(sha256_of(m));
    lemma_hex_len(sha512_of(m));
    lemma_hex_len(blake2b_of(m, key, len));
}

proof fn lemma_md_lengths(m: Seq<u8>)
    ensures
        md4_of(m).len() == 16,
        md5_of(m).len() == 16,
        sha1_of(m).len() == 20,
        ripemd160_of(m).len() == 20,
{
    let p = padded(m, 64, 8, false);
    let q = padded(m, 64, 8, true);
    let h = crate::md4::chain(crate::md4::initial_state(), p, p.len() / 64);
    lemma_serialize32_len(seq![h.0, h.1, h.2, h.3], false);
    let h = crate::md5::chain(crate::md5::initial_state(), p, p.len() / 64);
    lemma_serialize32_len(seq![h.0, h.1, h.2, h.3], false);
    let h = crate::sha1::chain(crate::sha1::initial_state(), q, q.len() / 64);
    lemma_serialize32_len(seq![h.0, h.1, h.2, h.3, h.4], true);
    let h = crate::ripemd160::chain(crate::ripemd160::initial_state(), p, p.len() / 64);
    lemma_serialize32_len(seq![h.0, h.1, h.2, h.3, h.4], false);
}

proof fn lemma_wide_lengths(m: Seq<u8>, key: Seq<u8>, len: nat)
    requires
        1 <= len <= 64,
    ensures
        sha256_of(m).len() == 32,
        sha512_of(m).len() == 64,
        blake2b_of(m, key, len).len() == len,
{
    let q = padded(m, 64, 8, true);
    let h = crate::sha256::chain(crate::sha256::initial_state(), q, q.len() / 64);
    lemma_serialize32_len(seq![h.0, h.1, h.2, h.3, h.4, h.5, h.6, h.7], true);
    let q = padded(m, 128, 16, true);
    let h = crate::sha512::chain(crate::sha512::initial_state(), q, q.len() / 128);
    lemma_serialize64_len(seq![h.0, h.1, h.2, h.3, h.4, h.5, h.6, h.7], true);
    let f = crate::blake2::final_state(
        crate::blake2::initial_state(key.len(), len),
        crate::blake2::keyed_input(m, key),
    );
    lemma_serialize64_len(f, false);
}

/// Padding yields whole blocks, keeps the message as its prefix, and adds
/// at least the terminator byte and the length field.
pub proof fn padding_fills_blocks(m: Seq<u8>, big_endian: bool)
    ensures
        padded(m, 64, 8, big_endian).len() % 64 == 0,
        padded(m, 64, 8, big_endian).len() >= m.len() + 1 + 8,
        padded(m, 64, 8, big_endian).subrange(0, m.len() as int) == m,
        padded(m, 128, 16, big_endian).len() % 128 == 0,
        padded(m, 128, 16, big_endian).len() >= m.len() + 1 + 16,
        padded(m, 128, 16, big_endian).subrange(0, m.len() as int) == m,
{
    lemma_padded_len(m, 64, 8, big_endian);
    lemma_padded_len(m, 128, 16, big_endian);
}

} // verus!

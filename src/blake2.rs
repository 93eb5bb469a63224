//! BLAKE2b (RFC 7693): keyed hashing with a digest of 1 to 64 bytes.
use vstd::prelude::*;
use crate::bits::rotr64;
use crate::encoding::{block_words64, hex_of, read_block64, serialize64, to_hex, write_words64};

verus! {

/// Why a BLAKE2b call was refused before any work was done.
#[derive(Debug, Clone, Copy, PartialEq, Eq, Structural)]
pub enum ConfigError {
    /// The requested digest length is not between 1 and 64 bytes.
    InvalidDigestLength,
    /// The key is longer than 64 bytes.
    KeyTooLong,
}

/// The eight initialisation words.
pub open spec fn init_vector() -> Seq<u64> {
    seq![
        0x6A09E667F3BCC908u64,
        0xBB67AE8584CAA73Bu64,
        0x3C6EF372FE94F82Bu64,
        0xA54FF53A5F1D36F1u64,
        0x510E527FADE682D1u64,
        0x9B05688C2B3E6C1Fu64,
        0x1F83D9ABFB41BD6Bu64,
        0x5BE0CD19137E2179u64,
    ]
}

/// The ten message permutations, sixteen indices each, one after another.
pub open spec fn sigma() -> Seq<usize> {
    seq![
        0usize, 1, 2, 3, 4, 5, 6, 7, 8, 9, 10, 11, 12, 13, 14, 15,
        14, 10, 4, 8, 9, 15, 13, 6, 1, 12, 0, 2, 11, 7, 5, 3,
        11, 8, 12, 0, 5, 2, 15, 13, 10, 14, 3, 6, 7, 1, 9, 4,
        7, 9, 3, 1, 13, 12, 11, 14, 2, 6, 5, 10, 4, 0, 15, 8,
        9, 0, 5, 7, 2, 4, 10, 15, 14, 1, 11, 12, 6, 8, 3, 13,
        2, 12, 6, 10, 0, 11, 8, 3, 4, 13, 7, 5, 15, 14, 1, 9,
        12, 5, 1, 15, 14, 13, 4, 10, 0, 7, 6, 3, 9, 2, 8, 11,
        13, 11, 7, 14, 12, 1, 3, 9, 5, 0, 15, 4, 8, 6, 2, 10,
        6, 15, 14, 9, 11, 3, 0, 8, 12, 2, 13, 7, 1, 4, 10, 5,
        10, 2, 8, 4, 7, 6, 1, 5, 15, 11, 9, 14, 3, 12, 13, 0,
    ]
}

/// The mixing function G on the working vector `v`.
pub open spec fn mixed(v: Seq<u64>, a: int, b: int, c: int, d: int, x: u64, y: u64) -> Seq<u64> {
    let v = v.update(a, v[a].wrapping_add(v[b]).wrapping_add(x));
    let v = v.update(d, rotr64(v[d] ^ v[a], 32));
    let v = v.update(c, v[c].wrapping_add(v[d]));
    let v = v.update(b, rotr64(v[b] ^ v[c], 24));
    let v = v.update(a, v[a].wrapping_add(v[b]).wrapping_add(y));
    let v = v.update(d, rotr64(v[d] ^ v[a], 16));
    let v = v.update(c, v[c].wrapping_add(v[d]));
    v.update(b, rotr64(v[b] ^ v[c], 63))
}

/// Message word `k` of round `r`, under that round's permutation.
pub open spec fn round_word(m: Seq<u64>, r: int, k: int) -> u64 {
    m[sigma()[16 * (r % 10) + k] as int]
}

/// Round `r`: four column mixes, then four diagonal mixes.
pub open spec fn round(v: Seq<u64>, m: Seq<u64>, r: int) -> Seq<u64> {
    let v = mixed(v, 0, 4, 8, 12, round_word(m, r, 0), round_word(m, r, 1));
    let v = mixed(v, 1, 5, 9, 13, round_word(m, r, 2), round_word(m, r, 3));
    let v = mixed(v, 2, 6, 10, 14, round_word(m, r, 4), round_word(m, r, 5));
    let v = mixed(v, 3, 7, 11, 15, round_word(m, r, 6), round_word(m, r, 7));
    let v = mixed(v, 0, 5, 10, 15, round_word(m, r, 8), round_word(m, r, 9));
    let v = mixed(v, 1, 6, 11, 12, round_word(m, r, 10), round_word(m, r, 11));
    let v = mixed(v, 2, 7, 8, 13, round_word(m, r, 12), round_word(m, r, 13));
    mixed(v, 3, 4, 9, 14, round_word(m, r, 14), round_word(m, r, 15))
}

/// The working vector after the first `n` rounds.
pub open spec fn rounds(v: Seq<u64>, m: Seq<u64>, n: nat) -> Seq<u64>
    decreases n,
{
    if n == 0 {
        v
    } else {
        round(rounds(v, m, (n - 1) as nat), m, n - 1)
    }
}

/// The working vector before the rounds: the state, the initialisation
/// words, the byte counter `t` folded in, and the final-block flag.
pub open spec fn work_vector(h: Seq<u64>, t: u128, last: bool) -> Seq<u64> {
    let v = h + init_vector();
    let v = v.update(12, v[12] ^ (t as u64));
    let v = v.update(13, v[13] ^ ((t >> 64u128) as u64));
    if last {
        v.update(14, !v[14])
    } else {
        v
    }
}

/// The compression of one block of sixteen words into the state `h`.
pub open spec fn compressed(h: Seq<u64>, m: Seq<u64>, t: u128, last: bool) -> Seq<u64> {
    let v = rounds(work_vector(h, t, last), m, 12);
    Seq::new(8, |i: int| h[i] ^ v[i] ^ v[i + 8])
}

/// The parameter block folded into the first state word.
pub open spec fn parameter_word(key_len: nat, digest_len: nat) -> u64 {
    0x01010000u64 | ((key_len as u64) << 8u64) | (digest_len as u64)
}

pub open spec fn initial_state(key_len: nat, digest_len: nat) -> Seq<u64> {
    init_vector().update(0, init_vector()[0] ^ parameter_word(key_len, digest_len))
}

/// The bytes that are compressed: a non-empty key, zero-filled to one
/// block, ahead of the message.
pub open spec fn keyed_input(m: Seq<u8>, key: Seq<u8>) -> Seq<u8> {
    if key.len() > 0 {
        key + Seq::new((128 - key.len()) as nat, |i: int| 0u8) + m
    } else {
        m
    }
}

/// How many blocks `len` bytes take; no bytes still take one block.
pub open spec fn block_count(len: nat) -> nat {
    if len == 0 {
        1
    } else {
        ((len + 127) / 128) as nat
    }
}

/// Block `k` of `d`, zero-filled past the end of `d`.
pub open spec fn block_of(d: Seq<u8>, k: int) -> Seq<u8> {
    Seq::new(128, |i: int| if 128 * k + i < d.len() { d[128 * k + i] } else { 0u8 })
}

/// The state after the first `n` blocks of `d`, none of them the last.
pub open spec fn chain(h: Seq<u64>, d: Seq<u8>, n: nat) -> Seq<u64>
    decreases n,
{
    if n == 0 {
        h
    } else {
        compressed(
            chain(h, d, (n - 1) as nat),
            block_words64(block_of(d, n - 1), 0, false),
            (128 * n) as u128,
            false,
        )
    }
}

/// The state after all blocks of `d`; the last one counts only the bytes
/// of `d`.
pub open spec fn final_state(h: Seq<u64>, d: Seq<u8>) -> Seq<u64> {
    let n = block_count(d.len());
    compressed(
        chain(h, d, (n - 1) as nat),
        block_words64(block_of(d, n - 1), 0, false),
        d.len() as u128,
        true,
    )
}

/// The BLAKE2b digest of `m` under `key`, `digest_len` bytes long.
pub open spec fn blake2b_of(m: Seq<u8>, key: Seq<u8>, digest_len: nat) -> Seq<u8> {
    let h = final_state(initial_state(key.len(), digest_len), keyed_input(m, key));
    serialize64(h, false).take(digest_len as int)
}

/// The key's bytes; no key is the empty key.
pub open spec fn key_bytes(key: Option<&[u8]>) -> Seq<u8> {
    match key {
        Some(k) => k@,
        None => Seq::empty(),
    }
}

/// Appends zero bytes until the length is a whole number of `size`-byte
/// blocks; a buffer that already is gets one more whole block.
pub fn pad(buffer: &mut Vec<u8>, size: usize)
    requires
        size > 0,
        old(buffer)@.len() + size <= usize::MAX,
    ensures
        final(buffer)@ == old(buffer)@ + Seq::new(
            (size - old(buffer)@.len() % (size as nat)) as nat,
            |i: int| 0u8,
        ),
        final(buffer)@.len() % (size as nat) == 0,
{
    let m: usize = buffer.len() % size;
    let padding: usize = size - m;
    let ghost start: Seq<u8> = buffer@;
    let mut k: usize = 0;
    while k < padding
        invariant
            k <= padding,
            buffer@ == start + Seq::new(k as nat, |i: int| 0u8),
        decreases padding - k,
    {
        buffer.push(0u8);
        k = k + 1;
        assert(buffer@ =~= start + Seq::new(k as nat, |i: int| 0u8));
    }
    proof {
        let n: int = start.len() as int;
        let s: int = size as int;
        assert((n + (s - n % s)) % s == 0) by (nonlinear_arith)
            requires
                s > 0,
                n >= 0,
        {
            assert(n == s * (n / s) + n % s);
            assert(n + (s - n % s) == s * (n / s + 1));
        }
    }
}

/// Rotates `n` right by `pos` bits.
pub fn rightrotate(n: u64, pos: usize) -> (r: u64)
    requires
        pos <= 64,
    ensures
        r == rotr64(n, pos as u64),
{
    if pos == 0 || pos == 64 {
        n
    } else {
        (n >> (pos as u64)) | (n << ((64 - pos) as u64))
    }
}

/// Applies G to words `a`, `b`, `c`, `d` of `v` with message words `x`, `y`.
pub fn mix(v: &mut Vec<u64>, a: usize, b: usize, c: usize, d: usize, x: u64, y: u64)
    requires
        old(v)@.len() == 16,
        a < 16,
        b < 16,
        c < 16,
        d < 16,
    ensures
        final(v)@ == mixed(old(v)@, a as int, b as int, c as int, d as int, x, y),
{
    let t: u64 = v[a].wrapping_add(v[b]).wrapping_add(x);
    v.set(a, t);
    let t: u64 = rightrotate(v[d] ^ v[a], 32);
    v.set(d, t);
    let t: u64 = v[c].wrapping_add(v[d]);
    v.set(c, t);
    let t: u64 = rightrotate(v[b] ^ v[c], 24);
    v.set(b, t);
    let t: u64 = v[a].wrapping_add(v[b]).wrapping_add(y);
    v.set(a, t);
    let t: u64 = rightrotate(v[d] ^ v[a], 16);
    v.set(d, t);
    let t: u64 = v[c].wrapping_add(v[d]);
    v.set(c, t);
    let t: u64 = rightrotate(v[b] ^ v[c], 63);
    v.set(b, t);
}

/// Compresses the first 128 bytes of `chunk` into `h`; `t` counts the
/// bytes compressed so far, this block included.
pub fn compress(h: &mut Vec<u64>, chunk: &[u8], t: u128, is_last_block: bool)
    requires
        old(h)@.len() == 8,
        chunk@.len() >= 128,
    ensures
        final(h)@ == compressed(old(h)@, block_words64(chunk@, 0, false), t, is_last_block),
{
    let iv: Vec<u64> = vec![
        0x6A09E667F3BCC908,
        0xBB67AE8584CAA73B,
        0x3C6EF372FE94F82B,
        0xA54FF53A5F1D36F1,
        0x510E527FADE682D1,
        0x9B05688C2B3E6C1F,
        0x1F83D9ABFB41BD6B,
        0x5BE0CD19137E2179,
    ];
    let sig: Vec<usize> = vec![
        0, 1, 2, 3, 4, 5, 6, 7, 8, 9, 10, 11, 12, 13, 14, 15,
        14, 10, 4, 8, 9, 15, 13, 6, 1, 12, 0, 2, 11, 7, 5, 3,
        11, 8, 12, 0, 5, 2, 15, 13, 10, 14, 3, 6, 7, 1, 9, 4,
        7, 9, 3, 1, 13, 12, 11, 14, 2, 6, 5, 10, 4, 0, 15, 8,
        9, 0, 5, 7, 2, 4, 10, 15, 14, 1, 11, 12, 6, 8, 3, 13,
        2, 12, 6, 10, 0, 11, 8, 3, 4, 13, 7, 5, 15, 14, 1, 9,
        12, 5, 1, 15, 14, 13, 4, 10, 0, 7, 6, 3, 9, 2, 8, 11,
        13, 11, 7, 14, 12, 1, 3, 9, 5, 0, 15, 4, 8, 6, 2, 10,
        6, 15, 14, 9, 11, 3, 0, 8, 12, 2, 13, 7, 1, 4, 10, 5,
        10, 2, 8, 4, 7, 6, 1, 5, 15, 11, 9, 14, 3, 12, 13, 0,
    ];
    proof {
        assert(iv@ =~= init_vector());
        assert(sig@ =~= sigma());
        assert(forall|k: int| 0 <= k < 160 ==> sig@[k] < 16);
    }
    let ghost h0: Seq<u64> = h@;
    let mut v: Vec<u64> = Vec::new();
    let mut k: usize = 0;
    while k < 16
        invariant
            k <= 16,
            h@ == h0,
            h0.len() == 8,
            iv@ == init_vector(),
            v@ == (h0 + init_vector()).take(k as int),
        decreases 16 - k,
    {
        if k < 8 {
            v.push(h[k]);
        } else {
            v.push(iv[k - 8]);
        }
        assert((h0 + init_vector()).take(k + 1) =~= (h0 + init_vector()).take(k as int).push(v@[k as int]));
        k = k + 1;
    }
    assert((h0 + init_vector()).take(16) =~= h0 + init_vector());
    let t12: u64 = v[12] ^ (t as u64);
    v.set(12, t12);
    let t13: u64 = v[13] ^ ((t >> 64u128) as u64);
    v.set(13, t13);
    if is_last_block {
        let t14: u64 = !v[14];
        v.set(14, t14);
    }
    let m: Vec<u64> = read_block64(chunk, 0, false);
    let ghost mw: Seq<u64> = block_words64(chunk@, 0, false);
    assert(v@ == work_vector(h0, t, is_last_block));
    let mut i: usize = 0;
    while i < 12
        invariant
            i <= 12,
            m@ == mw,
            mw.len() == 16,
            sig@ == sigma(),
            forall|k: int| 0 <= k < 160 ==> sig@[k] < 16,
            v@ == rounds(work_vector(h0, t, is_last_block), mw, i as nat),
            v@.len() == 16,
        decreases 12 - i,
    {
        let s: usize = 16 * (i % 10);
        mix(&mut v, 0, 4, 8, 12, m[sig[s]], m[sig[s + 1]]);
        mix(&mut v, 1, 5, 9, 13, m[sig[s + 2]], m[sig[s + 3]]);
        mix(&mut v, 2, 6, 10, 14, m[sig[s + 4]], m[sig[s + 5]]);
        mix(&mut v, 3, 7, 11, 15, m[sig[s + 6]], m[sig[s + 7]]);
        mix(&mut v, 0, 5, 10, 15, m[sig[s + 8]], m[sig[s + 9]]);
        mix(&mut v, 1, 6, 11, 12, m[sig[s + 10]], m[sig[s + 11]]);
        mix(&mut v, 2, 7, 8, 13, m[sig[s + 12]], m[sig[s + 13]]);
        mix(&mut v, 3, 4, 9, 14, m[sig[s + 14]], m[sig[s + 15]]);
        i = i + 1;
    }
    let ghost fin: Seq<u64> = v@;
    let mut j: usize = 0;
    while j < 8
        invariant
            j <= 8,
            h@.len() == 8,
            v@ == fin,
            fin.len() == 16,
            forall|q: int| 0 <= q < j ==> h@[q] == h0[q] ^ fin[q] ^ fin[q + 8],
            forall|q: int| j <= q < 8 ==> h@[q] == h0[q],
        decreases 8 - j,
    {
        let w: u64 = h[j] ^ v[j] ^ v[j + 8];
        h.set(j, w);
        j = j + 1;
    }
    assert(h@ =~= compressed(h0, mw, t, is_last_block));
}

/// Copies block `k` of `d`, zero-filled past the end of `d`.
fn block_at(d: &[u8], k: usize) -> (r: Vec<u8>)
    requires
        128 * k <= d@.len(),
    ensures
        r@ == block_of(d@, k as int),
{
    let len: usize = d.len();
    let base: usize = 128 * k;
    let mut r: Vec<u8> = Vec::new();
    let mut i: usize = 0;
    while i < 128
        invariant
            i <= 128,
            len == d@.len(),
            base == 128 * k,
            base <= len,
            r@ == block_of(d@, k as int).take(i as int),
        decreases 128 - i,
    {
        let b: u8 = if i < len - base {
            d[base + i]
        } else {
            0u8
        };
        r.push(b);
        assert(block_of(d@, k as int).take(i + 1) =~= block_of(d@, k as int).take(i as int).push(b));
        i = i + 1;
    }
    assert(block_of(d@, k as int).take(128) =~= block_of(d@, k as int));
    r
}

/// The BLAKE2b digest of `input` under `key`, `hashlen` bytes long, as
/// lowercase hexadecimal; refused when `hashlen` is outside 1..=64 or the
/// key is longer than 64 bytes.
pub fn blake2(input: &[u8], key: Option<&[u8]>, hashlen: usize) -> (r: Result<String, ConfigError>)
    requires
        input@.len() <= usize::MAX - 256,
    ensures
        (hashlen < 1 || hashlen > 64) <==> r == Err::<String, ConfigError>(
            ConfigError::InvalidDigestLength,
        ),
        (1 <= hashlen <= 64 && key_bytes(key).len() > 64) <==> r == Err::<String, ConfigError>(
            ConfigError::KeyTooLong,
        ),
        r.is_ok() <==> (1 <= hashlen <= 64 && key_bytes(key).len() <= 64),
        r.is_ok() ==> r.unwrap()@ == hex_of(blake2b_of(input@, key_bytes(key), hashlen as nat)),
{
    if hashlen < 1 || hashlen > 64 {
        return Err(ConfigError::InvalidDigestLength);
    }
    let key_length: usize = match key {
        Some(k) => k.len(),
        None => 0,
    };
    if key_length > 64 {
        return Err(ConfigError::KeyTooLong);
    }
    let mut h: Vec<u64> = vec![
        0x6A09E667F3BCC908,
        0xBB67AE8584CAA73B,
        0x3C6EF372FE94F82B,
        0xA54FF53A5F1D36F1,
        0x510E527FADE682D1,
        0x9B05688C2B3E6C1F,
        0x1F83D9ABFB41BD6B,
        0x5BE0CD19137E2179,
    ];
    assert(h@ =~= init_vector());
    let p: u64 = 0x01010000u64 | ((key_length as u64) << 8u64) | (hashlen as u64);
    let h0: u64 = h[0] ^ p;
    h.set(0, h0);
    assert(h@ =~= initial_state(key_length as nat, hashlen as nat));
    let ghost kb: Seq<u8> = key_bytes(key);
    let mut d: Vec<u8> = Vec::new();
    if key_length > 0 {
        let k: &[u8] = key.unwrap();
        let mut i: usize = 0;
        while i < key_length
            invariant
                i <= key_length,
                key_length == k@.len(),
                d@ == k@.take(i as int),
            decreases key_length - i,
        {
            d.push(k[i]);
            i = i + 1;
            assert(d@ =~= k@.take(i as int));
        }
        assert(k@.take(key_length as int) =~= k@);
        pad(&mut d, 128);
        proof {
            vstd::arithmetic::div_mod::lemma_small_mod(key_length as nat, 128);
        }
    }
    let ghost prefix: Seq<u8> = d@;
    let n: usize = input.len();
    let mut i: usize = 0;
    while i < n
        invariant
            i <= n,
            n == input@.len(),
            prefix.len() <= 128,
            d@ == prefix + input@.take(i as int),
        decreases n - i,
    {
        d.push(input[i]);
        i = i + 1;
        assert(d@ =~= prefix + input@.take(i as int));
    }
    assert(input@.take(n as int) =~= input@);
    assert(d@ =~= keyed_input(input@, kb));
    let len: usize = d.len();
    let blocks: usize = if len == 0 {
        1
    } else {
        (len + 127) / 128
    };
    assert(blocks == block_count(len as nat));
    assert(128 * (blocks - 1) <= len) by (nonlinear_arith)
        requires
            blocks == (if len == 0 { 1 } else { (len + 127) / 128 }),
    ;
    let mut k: usize = 0;
    while k + 1 < blocks
        invariant
            k + 1 <= blocks,
            128 * (blocks - 1) <= len,
            len == d@.len(),
            h@.len() == 8,
            h@ == chain(initial_state(key_length as nat, hashlen as nat), d@, k as nat),
        decreases blocks - k,
    {
        assert(128 * k <= 128 * (blocks - 1)) by (nonlinear_arith)
            requires
                k + 1 < blocks,
        ;
        let blk: Vec<u8> = block_at(d.as_slice(), k);
        compress(&mut h, blk.as_slice(), (128 * (k + 1)) as u128, false);
        k = k + 1;
    }
    let blk: Vec<u8> = block_at(d.as_slice(), blocks - 1);
    compress(&mut h, blk.as_slice(), len as u128, true);
    assert(h@ == final_state(initial_state(key_length as nat, hashlen as nat), d@));
    let mut bytes: Vec<u8> = write_words64(h.as_slice(), false);
    bytes.truncate(hashlen);
    assert(bytes@ =~= blake2b_of(input@, kb, hashlen as nat));
    Ok(to_hex(bytes.as_slice()))
}

} // verus!

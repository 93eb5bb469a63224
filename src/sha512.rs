//! SHA-512 (FIPS 180-4).
use vstd::prelude::*;
use crate::bits::rotr64;
use crate::encoding::{block_words64, hex_of, read_block64, serialize64, to_hex, write_words64};
use crate::padding::{pad_message, padded};

verus! {

/// The eight chaining words.
pub type State = (u64, u64, u64, u64, u64, u64, u64, u64);

pub open spec fn initial_state() -> State {
    (
        0x6a09e667f3bcc908u64,
        0xbb67ae8584caa73bu64,
        0x3c6ef372fe94f82bu64,
        0xa54ff53a5f1d36f1u64,
        0x510e527fade682d1u64,
        0x9b05688c2b3e6c1fu64,
        0x1f83d9abfb41bd6bu64,
        0x5be0cd19137e2179u64,
    )
}

/// The additive constant of each of the 80 steps.
pub open spec fn round_constants() -> Seq<u64> {
    seq![
        0x428a2f98d728ae22u64, 0x7137449123ef65cdu64, 0xb5c0fbcfec4d3b2fu64, 0xe9b5dba58189dbbcu64,
        0x3956c25bf348b538u64, 0x59f111f1b605d019u64, 0x923f82a4af194f9bu64, 0xab1c5ed5da6d8118u64,
        0xd807aa98a3030242u64, 0x12835b0145706fbeu64, 0x243185be4ee4b28cu64, 0x550c7dc3d5ffb4e2u64,
        0x72be5d74f27b896fu64, 0x80deb1fe3b1696b1u64, 0x9bdc06a725c71235u64, 0xc19bf174cf692694u64,
        0xe49b69c19ef14ad2u64, 0xefbe4786384f25e3u64, 0x0fc19dc68b8cd5b5u64, 0x240ca1cc77ac9c65u64,
        0x2de92c6f592b0275u64, 0x4a7484aa6ea6e483u64, 0x5cb0a9dcbd41fbd4u64, 0x76f988da831153b5u64,
        0x983e5152ee66dfabu64, 0xa831c66d2db43210u64, 0xb00327c898fb213fu64, 0xbf597fc7beef0ee4u64,
        0xc6e00bf33da88fc2u64, 0xd5a79147930aa725u64, 0x06ca6351e003826fu64, 0x142929670a0e6e70u64,
        0x27b70a8546d22ffcu64, 0x2e1b21385c26c926u64, 0x4d2c6dfc5ac42aedu64, 0x53380d139d95b3dfu64,
        0x650a73548baf63deu64, 0x766a0abb3c77b2a8u64, 0x81c2c92e47edaee6u64, 0x92722c851482353bu64,
        0xa2bfe8a14cf10364u64, 0xa81a664bbc423001u64, 0xc24b8b70d0f89791u64, 0xc76c51a30654be30u64,
        0xd192e819d6ef5218u64, 0xd69906245565a910u64, 0xf40e35855771202au64, 0x106aa07032bbd1b8u64,
        0x19a4c116b8d2d0c8u64, 0x1e376c085141ab53u64, 0x2748774cdf8eeb99u64, 0x34b0bcb5e19b48a8u64,
        0x391c0cb3c5c95a63u64, 0x4ed8aa4ae3418acbu64, 0x5b9cca4f7763e373u64, 0x682e6ff3d6b2b8a3u64,
        0x748f82ee5defb2fcu64, 0x78a5636f43172f60u64, 0x84c87814a1f0ab72u64, 0x8cc702081a6439ecu64,
        0x90befffa23631e28u64, 0xa4506cebde82bde9u64, 0xbef9a3f7b2c67915u64, 0xc67178f2e372532bu64,
        0xca273eceea26619cu64, 0xd186b8c721c0c207u64, 0xeada7dd6cde0eb1eu64, 0xf57d4f7fee6ed178u64,
        0x06f067aa72176fbau64, 0x0a637dc5a2c898a6u64, 0x113f9804bef90daeu64, 0x1b710b35131c471bu64,
        0x28db77f523047d84u64, 0x32caab7b40c72493u64, 0x3c9ebe0a15c9bebcu64, 0x431d67c49c100d4cu64,
        0x4cc5d4becb3e42b6u64, 0x597f299cfc657e2au64, 0x5fcb6fab3ad6faecu64, 0x6c44198c4a475817u64,
    ]
}

pub open spec fn small_sigma0(x: u64) -> u64 {
    rotr64(x, 1) ^ rotr64(x, 8) ^ (x >> 7u64)
}

pub open spec fn small_sigma1(x: u64) -> u64 {
    rotr64(x, 19) ^ rotr64(x, 61) ^ (x >> 6u64)
}

pub open spec fn big_sigma0(x: u64) -> u64 {
    rotr64(x, 28) ^ rotr64(x, 34) ^ rotr64(x, 39)
}

pub open spec fn big_sigma1(x: u64) -> u64 {
    rotr64(x, 14) ^ rotr64(x, 18) ^ rotr64(x, 41)
}

/// Word `i` of the 80-word message schedule of the block `m`.
pub open spec fn schedule(m: Seq<u64>, i: int) -> u64
    decreases i,
{
    if i < 16 {
        m[i]
    } else {
        schedule(m, i - 16).wrapping_add(small_sigma0(schedule(m, i - 15))).wrapping_add(
            schedule(m, i - 7),
        ).wrapping_add(small_sigma1(schedule(m, i - 2)))
    }
}

/// One step of the 80: two temporaries enter at A and E, the rest shift down.
pub open spec fn step(s: State, m: Seq<u64>, i: int) -> State {
    let (a, b, c, d, e, f, g, h) = s;
    let ch = (e & f) ^ (!e & g);
    let temp1 = h.wrapping_add(big_sigma1(e)).wrapping_add(ch).wrapping_add(
        round_constants()[i],
    ).wrapping_add(schedule(m, i));
    let maj = (a & b) ^ (a & c) ^ (b & c);
    let temp2 = big_sigma0(a).wrapping_add(maj);
    (temp1.wrapping_add(temp2), a, b, c, d.wrapping_add(temp1), e, f, g)
}

/// The registers after the first `n` steps.
pub open spec fn steps(s: State, m: Seq<u64>, n: nat) -> State
    decreases n,
{
    if n == 0 {
        s
    } else {
        step(steps(s, m, (n - 1) as nat), m, n - 1)
    }
}

/// The compression of one block of sixteen words, with feed-forward.
pub open spec fn compressed(h: State, m: Seq<u64>) -> State {
    let r = steps(h, m, 80);
    (
        h.0.wrapping_add(r.0),
        h.1.wrapping_add(r.1),
        h.2.wrapping_add(r.2),
        h.3.wrapping_add(r.3),
        h.4.wrapping_add(r.4),
        h.5.wrapping_add(r.5),
        h.6.wrapping_add(r.6),
        h.7.wrapping_add(r.7),
    )
}

/// The state after the first `n` blocks of the padded message `p`.
pub open spec fn chain(h: State, p: Seq<u8>, n: nat) -> State
    decreases n,
{
    if n == 0 {
        h
    } else {
        compressed(chain(h, p, (n - 1) as nat), block_words64(p, 128 * (n - 1), true))
    }
}

/// The SHA-512 digest of `m`: sixty-four bytes.
pub open spec fn sha512_of(m: Seq<u8>) -> Seq<u8> {
    let p = padded(m, 128, 16, true);
    let h = chain(initial_state(), p, p.len() / 128);
    serialize64(seq![h.0, h.1, h.2, h.3, h.4, h.5, h.6, h.7], true)
}

/// Rotates `n` right by `pos` bits.
pub fn rightrotate(n: u64, pos: usize) -> (r: u64)
    requires
        pos <= 64,
    ensures
        r == rotr64(n, pos as u64),
{
    if pos == 0 || pos == 64 {
        n
    } else {
        (n >> (pos as u64)) | (n << ((64 - pos) as u64))
    }
}

/// Pads `message` to whole 128-byte blocks, ending with its bit length as
/// sixteen big-endian bytes.
pub fn preprocess(message: &[u8]) -> (r: Vec<u8>)
    requires
        message@.len() <= usize::MAX - 256,
    ensures
        r@ == padded(message@, 128, 16, true),
        r@.len() % 128 == 0,
        r@.len() >= message@.len() + 17,
{
    pad_message(message, 128, 16, true)
}

/// Expands a block of sixteen words to the 80-word message schedule.
fn expand(m: &[u64]) -> (w: Vec<u64>)
    requires
        m@.len() == 16,
    ensures
        w@.len() == 80,
        forall|j: int| 0 <= j < 80 ==> w@[j] == schedule(m@, j),
{
    let mut w: Vec<u64> = Vec::new();
    let mut i: usize = 0;
    while i < 80
        invariant
            i <= 80,
            m@.len() == 16,
            w@.len() == i,
            forall|j: int| 0 <= j < i ==> w@[j] == schedule(m@, j),
        decreases 80 - i,
    {
        if i < 16 {
            w.push(m[i]);
        } else {
            let x: u64 = w[i - 15];
            let y: u64 = w[i - 2];
            let s0: u64 = rightrotate(x, 1) ^ rightrotate(x, 8) ^ (x >> 7u64);
            let s1: u64 = rightrotate(y, 19) ^ rightrotate(y, 61) ^ (y >> 6u64);
            w.push(w[i - 16].wrapping_add(s0).wrapping_add(w[i - 7]).wrapping_add(s1));
        }
        i = i + 1;
    }
    w
}

/// Compresses one block of sixteen words into the state.
pub fn compress(hs: State, m: &[u64]) -> (r: State)
    requires
        m@.len() == 16,
    ensures
        r == compressed(hs, m@),
{
    let k: [u64; 80] = [
        0x428a2f98d728ae22, 0x7137449123ef65cd, 0xb5c0fbcfec4d3b2f, 0xe9b5dba58189dbbc,
        0x3956c25bf348b538, 0x59f111f1b605d019, 0x923f82a4af194f9b, 0xab1c5ed5da6d8118,
        0xd807aa98a3030242, 0x12835b0145706fbe, 0x243185be4ee4b28c, 0x550c7dc3d5ffb4e2,
        0x72be5d74f27b896f, 0x80deb1fe3b1696b1, 0x9bdc06a725c71235, 0xc19bf174cf692694,
        0xe49b69c19ef14ad2, 0xefbe4786384f25e3, 0x0fc19dc68b8cd5b5, 0x240ca1cc77ac9c65,
        0x2de92c6f592b0275, 0x4a7484aa6ea6e483, 0x5cb0a9dcbd41fbd4, 0x76f988da831153b5,
        0x983e5152ee66dfab, 0xa831c66d2db43210, 0xb00327c898fb213f, 0xbf597fc7beef0ee4,
        0xc6e00bf33da88fc2, 0xd5a79147930aa725, 0x06ca6351e003826f, 0x142929670a0e6e70,
        0x27b70a8546d22ffc, 0x2e1b21385c26c926, 0x4d2c6dfc5ac42aed, 0x53380d139d95b3df,
        0x650a73548baf63de, 0x766a0abb3c77b2a8, 0x81c2c92e47edaee6, 0x92722c851482353b,
        0xa2bfe8a14cf10364, 0xa81a664bbc423001, 0xc24b8b70d0f89791, 0xc76c51a30654be30,
        0xd192e819d6ef5218, 0xd69906245565a910, 0xf40e35855771202a, 0x106aa07032bbd1b8,
        0x19a4c116b8d2d0c8, 0x1e376c085141ab53, 0x2748774cdf8eeb99, 0x34b0bcb5e19b48a8,
        0x391c0cb3c5c95a63, 0x4ed8aa4ae3418acb, 0x5b9cca4f7763e373, 0x682e6ff3d6b2b8a3,
        0x748f82ee5defb2fc, 0x78a5636f43172f60, 0x84c87814a1f0ab72, 0x8cc702081a6439ec,
        0x90befffa23631e28, 0xa4506cebde82bde9, 0xbef9a3f7b2c67915, 0xc67178f2e372532b,
        0xca273eceea26619c, 0xd186b8c721c0c207, 0xeada7dd6cde0eb1e, 0xf57d4f7fee6ed178,
        0x06f067aa72176fba, 0x0a637dc5a2c898a6, 0x113f9804bef90dae, 0x1b710b35131c471b,
        0x28db77f523047d84, 0x32caab7b40c72493, 0x3c9ebe0a15c9bebc, 0x431d67c49c100d4c,
        0x4cc5d4becb3e42b6, 0x597f299cfc657e2a, 0x5fcb6fab3ad6faec, 0x6c44198c4a475817,
    ];
    proof {
        assert(k@ =~= round_constants());
    }
    let w: Vec<u64> = expand(m);
    let mut a: u64 = hs.0;
    let mut b: u64 = hs.1;
    let mut c: u64 = hs.2;
    let mut d: u64 = hs.3;
    let mut e: u64 = hs.4;
    let mut f: u64 = hs.5;
    let mut g: u64 = hs.6;
    let mut h: u64 = hs.7;
    let mut i: usize = 0;
    while i < 80
        invariant
            i <= 80,
            k@ == round_constants(),
            w@.len() == 80,
            forall|j: int| 0 <= j < 80 ==> w@[j] == schedule(m@, j),
            (a, b, c, d, e, f, g, h) == steps(hs, m@, i as nat),
        decreases 80 - i,
    {
        let s1: u64 = rightrotate(e, 14) ^ rightrotate(e, 18) ^ rightrotate(e, 41);
        let ch: u64 = (e & f) ^ (!e & g);
        let temp1: u64 = h.wrapping_add(s1).wrapping_add(ch).wrapping_add(k[i]).wrapping_add(
            w[i],
        );
        let s0: u64 = rightrotate(a, 28) ^ rightrotate(a, 34) ^ rightrotate(a, 39);
        let maj: u64 = (a & b) ^ (a & c) ^ (b & c);
        let temp2: u64 = s0.wrapping_add(maj);
        h = g;
        g = f;
        f = e;
        e = d.wrapping_add(temp1);
        d = c;
        c = b;
        b = a;
        a = temp1.wrapping_add(temp2);
        i = i + 1;
    }
    (
        hs.0.wrapping_add(a),
        hs.1.wrapping_add(b),
        hs.2.wrapping_add(c),
        hs.3.wrapping_add(d),
        hs.4.wrapping_add(e),
        hs.5.wrapping_add(f),
        hs.6.wrapping_add(g),
        hs.7.wrapping_add(h),
    )
}

/// The SHA-512 digest of `input`, as 128 lowercase hexadecimal digits.
pub fn sha512(input: &[u8]) -> (r: String)
    requires
        input@.len() <= usize::MAX - 256,
    ensures
        r@ == hex_of(sha512_of(input@)),
{
    let p: Vec<u8> = preprocess(input);
    let blocks: usize = p.len() / 128;
    assert(p@.len() == 128 * blocks);
    let mut h: State = (
        0x6a09e667f3bcc908u64,
        0xbb67ae8584caa73bu64,
        0x3c6ef372fe94f82bu64,
        0xa54ff53a5f1d36f1u64,
        0x510e527fade682d1u64,
        0x9b05688c2b3e6c1fu64,
        0x1f83d9abfb41bd6bu64,
        0x5be0cd19137e2179u64,
    );
    let mut k: usize = 0;
    while k < blocks
        invariant
            k <= blocks,
            p@.len() == 128 * blocks,
            128 * blocks <= usize::MAX,
            h == chain(initial_state(), p@, k as nat),
        decreases blocks - k,
    {
        assert(128 * k + 128 <= 128 * blocks) by (nonlinear_arith)
            requires
                k < blocks,
        ;
        let m: Vec<u64> = read_block64(p.as_slice(), 128 * k, true);
        h = compress(h, m.as_slice());
        k = k + 1;
    }
    let words: Vec<u64> = vec![h.0, h.1, h.2, h.3, h.4, h.5, h.6, h.7];
    let bytes: Vec<u8> = write_words64(words.as_slice(), true);
    assert(words@ =~= seq![h.0, h.1, h.2, h.3, h.4, h.5, h.6, h.7]);
    to_hex(bytes.as_slice())
}

} // verus!

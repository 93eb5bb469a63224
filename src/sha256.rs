//! SHA-256 (FIPS 180-4).
use vstd::prelude::*;
use crate::bits::rotr32;
use crate::encoding::{block_words32, hex_of, read_block32, serialize32, to_hex, write_words32};
use crate::padding::{pad_message, padded};

verus! {

/// The eight chaining words.
pub type State = (u32, u32, u32, u32, u32, u32, u32, u32);

pub open spec fn initial_state() -> State {
    (
        0x6a09e667u32,
        0xbb67ae85u32,
        0x3c6ef372u32,
        0xa54ff53au32,
        0x510e527fu32,
        0x9b05688cu32,
        0x1f83d9abu32,
        0x5be0cd19u32,
    )
}

/// The additive constant of each of the 64 steps.
pub open spec fn round_constants() -> Seq<u32> {
    seq![
        0x428a2f98u32, 0x71374491u32, 0xb5c0fbcfu32, 0xe9b5dba5u32, 0x3956c25bu32, 0x59f111f1u32,
        0x923f82a4u32, 0xab1c5ed5u32, 0xd807aa98u32, 0x12835b01u32, 0x243185beu32, 0x550c7dc3u32,
        0x72be5d74u32, 0x80deb1feu32, 0x9bdc06a7u32, 0xc19bf174u32, 0xe49b69c1u32, 0xefbe4786u32,
        0x0fc19dc6u32, 0x240ca1ccu32, 0x2de92c6fu32, 0x4a7484aau32, 0x5cb0a9dcu32, 0x76f988dau32,
        0x983e5152u32, 0xa831c66du32, 0xb00327c8u32, 0xbf597fc7u32, 0xc6e00bf3u32, 0xd5a79147u32,
        0x06ca6351u32, 0x14292967u32, 0x27b70a85u32, 0x2e1b2138u32, 0x4d2c6dfcu32, 0x53380d13u32,
        0x650a7354u32, 0x766a0abbu32, 0x81c2c92eu32, 0x92722c85u32, 0xa2bfe8a1u32, 0xa81a664bu32,
        0xc24b8b70u32, 0xc76c51a3u32, 0xd192e819u32, 0xd6990624u32, 0xf40e3585u32, 0x106aa070u32,
        0x19a4c116u32, 0x1e376c08u32, 0x2748774cu32, 0x34b0bcb5u32, 0x391c0cb3u32, 0x4ed8aa4au32,
        0x5b9cca4fu32, 0x682e6ff3u32, 0x748f82eeu32, 0x78a5636fu32, 0x84c87814u32, 0x8cc70208u32,
        0x90befffau32, 0xa4506cebu32, 0xbef9a3f7u32, 0xc67178f2u32,
    ]
}

pub open spec fn small_sigma0(x: u32) -> u32 {
    rotr32(x, 7) ^ rotr32(x, 18) ^ (x >> 3u32)
}

pub open spec fn small_sigma1(x: u32) -> u32 {
    rotr32(x, 17) ^ rotr32(x, 19) ^ (x >> 10u32)
}

pub open spec fn big_sigma0(x: u32) -> u32 {
    rotr32(x, 2) ^ rotr32(x, 13) ^ rotr32(x, 22)
}

pub open spec fn big_sigma1(x: u32) -> u32 {
    rotr32(x, 6) ^ rotr32(x, 11) ^ rotr32(x, 25)
}

/// Word `i` of the 64-word message schedule of the block `m`.
pub open spec fn schedule(m: Seq<u32>, i: int) -> u32
    decreases i,
{
    if i < 16 {
        m[i]
    } else {
        schedule(m, i - 16).wrapping_add(small_sigma0(schedule(m, i - 15))).wrapping_add(
            schedule(m, i - 7),
        ).wrapping_add(small_sigma1(schedule(m, i - 2)))
    }
}

/// One step of the 64: two temporaries enter at A and E, the rest shift down.
pub open spec fn step(s: State, m: Seq<u32>, i: int) -> State {
    let (a, b, c, d, e, f, g, h) = s;
    let ch = (e & f) ^ (!e & g);
    let temp1 = h.wrapping_add(big_sigma1(e)).wrapping_add(ch).wrapping_add(
        round_constants()[i],
    ).wrapping_add(schedule(m, i));
    let maj = (a & b) ^ (a & c) ^ (b & c);
    let temp2 = big_sigma0(a).wrapping_add(maj);
    (temp1.wrapping_add(temp2), a, b, c, d.wrapping_add(temp1), e, f, g)
}

/// The registers after the first `n` steps.
pub open spec fn steps(s: State, m: Seq<u32>, n: nat) -> State
    decreases n,
{
    if n == 0 {
        s
    } else {
        step(steps(s, m, (n - 1) as nat), m, n - 1)
    }
}

/// The compression of one block of sixteen words, with feed-forward.
pub open spec fn compressed(h: State, m: Seq<u32>) -> State {
    let r = steps(h, m, 64);
    (
        h.0.wrapping_add(r.0),
        h.1.wrapping_add(r.1),
        h.2.wrapping_add(r.2),
        h.3.wrapping_add(r.3),
        h.4.wrapping_add(r.4),
        h.5.wrapping_add(r.5),
        h.6.wrapping_add(r.6),
        h.7.wrapping_add(r.7),
    )
}

/// The state after the first `n` blocks of the padded message `p`.
pub open spec fn chain(h: State, p: Seq<u8>, n: nat) -> State
    decreases n,
{
    if n == 0 {
        h
    } else {
        compressed(chain(h, p, (n - 1) as nat), block_words32(p, 64 * (n - 1), true))
    }
}

/// The SHA-256 digest of `m`: thirty-two bytes.
pub open spec fn sha256_of(m: Seq<u8>) -> Seq<u8> {
    let p = padded(m, 64, 8, true);
    let h = chain(initial_state(), p, p.len() / 64);
    serialize32(seq![h.0, h.1, h.2, h.3, h.4, h.5, h.6, h.7], true)
}

/// Rotates `n` right by `pos` bits.
pub fn rightrotate(n: u32, pos: usize) -> (r: u32)
    requires
        pos <= 32,
    ensures
        r == rotr32(n, pos as u32),
{
    if pos == 0 || pos == 32 {
        n
    } else {
        (n >> (pos as u32)) | (n << ((32 - pos) as u32))
    }
}

/// Pads `message` to whole 64-byte blocks, ending with its bit length as
/// eight big-endian bytes.
pub fn preprocess(message: &[u8]) -> (r: Vec<u8>)
    requires
        message@.len() <= usize::MAX - 256,
    ensures
        r@ == padded(message@, 64, 8, true),
        r@.len() % 64 == 0,
        r@.len() >= message@.len() + 9,
{
    pad_message(message, 64, 8, true)
}

/// Expands a block of sixteen words to the 64-word message schedule.
fn expand(m: &[u32]) -> (w: Vec<u32>)
    requires
        m@.len() == 16,
    ensures
        w@.len() == 64,
        forall|j: int| 0 <= j < 64 ==> w@[j] == schedule(m@, j),
{
    let mut w: Vec<u32> = Vec::new();
    let mut i: usize = 0;
    while i < 64
        invariant
            i <= 64,
            m@.len() == 16,
            w@.len() == i,
            forall|j: int| 0 <= j < i ==> w@[j] == schedule(m@, j),
        decreases 64 - i,
    {
        if i < 16 {
            w.push(m[i]);
        } else {
            let x: u32 = w[i - 15];
            let y: u32 = w[i - 2];
            let s0: u32 = rightrotate(x, 7) ^ rightrotate(x, 18) ^ (x >> 3u32);
            let s1: u32 = rightrotate(y, 17) ^ rightrotate(y, 19) ^ (y >> 10u32);
            w.push(w[i - 16].wrapping_add(s0).wrapping_add(w[i - 7]).wrapping_add(s1));
        }
        i = i + 1;
    }
    w
}

/// Compresses one block of sixteen words into the state.
pub fn compress(hs: State, m: &[u32]) -> (r: State)
    requires
        m@.len() == 16,
    ensures
        r == compressed(hs, m@),
{
    let k: [u32; 64] = [
        0x428a2f98, 0x71374491, 0xb5c0fbcf, 0xe9b5dba5, 0x3956c25b, 0x59f111f1, 0x923f82a4,
        0xab1c5ed5, 0xd807aa98, 0x12835b01, 0x243185be, 0x550c7dc3, 0x72be5d74, 0x80deb1fe,
        0x9bdc06a7, 0xc19bf174, 0xe49b69c1, 0xefbe4786, 0x0fc19dc6, 0x240ca1cc, 0x2de92c6f,
        0x4a7484aa, 0x5cb0a9dc, 0x76f988da, 0x983e5152, 0xa831c66d, 0xb00327c8, 0xbf597fc7,
        0xc6e00bf3, 0xd5a79147, 0x06ca6351, 0x14292967, 0x27b70a85, 0x2e1b2138, 0x4d2c6dfc,
        0x53380d13, 0x650a7354, 0x766a0abb, 0x81c2c92e, 0x92722c85, 0xa2bfe8a1, 0xa81a664b,
        0xc24b8b70, 0xc76c51a3, 0xd192e819, 0xd6990624, 0xf40e3585, 0x106aa070, 0x19a4c116,
        0x1e376c08, 0x2748774c, 0x34b0bcb5, 0x391c0cb3, 0x4ed8aa4a, 0x5b9cca4f, 0x682e6ff3,
        0x748f82ee, 0x78a5636f, 0x84c87814, 0x8cc70208, 0x90befffa, 0xa4506ceb, 0xbef9a3f7,
        0xc67178f2,
    ];
    proof {
        assert(k@ =~= round_constants());
    }
    let w: Vec<u32> = expand(m);
    let mut a: u32 = hs.0;
    let mut b: u32 = hs.1;
    let mut c: u32 = hs.2;
    let mut d: u32 = hs.3;
    let mut e: u32 = hs.4;
    let mut f: u32 = hs.5;
    let mut g: u32 = hs.6;
    let mut h: u32 = hs.7;
    let mut i: usize = 0;
    while i < 64
        invariant
            i <= 64,
            k@ == round_constants(),
            w@.len() == 64,
            forall|j: int| 0 <= j < 64 ==> w@[j] == schedule(m@, j),
            (a, b, c, d, e, f, g, h) == steps(hs, m@, i as nat),
        decreases 64 - i,
    {
        let s1: u32 = rightrotate(e, 6) ^ rightrotate(e, 11) ^ rightrotate(e, 25);
        let ch: u32 = (e & f) ^ (!e & g);
        let temp1: u32 = h.wrapping_add(s1).wrapping_add(ch).wrapping_add(k[i]).wrapping_add(
            w[i],
        );
        let s0: u32 = rightrotate(a, 2) ^ rightrotate(a, 13) ^ rightrotate(a, 22);
        let maj: u32 = (a & b) ^ (a & c) ^ (b & c);
        let temp2: u32 = s0.wrapping_add(maj);
        h = g;
        g = f;
        f = e;
        e = d.wrapping_add(temp1);
        d = c;
        c = b;
        b = a;
        a = temp1.wrapping_add(temp2);
        i = i + 1;
    }
    (
        hs.0.wrapping_add(a),
        hs.1.wrapping_add(b),
        hs.2.wrapping_add(c),
        hs.3.wrapping_add(d),
        hs.4.wrapping_add(e),
        hs.5.wrapping_add(f),
        hs.6.wrapping_add(g),
        hs.7.wrapping_add(h),
    )
}

/// The SHA-256 digest of `input`, as 64 lowercase hexadecimal digits.
pub fn sha256(input: &[u8]) -> (r: String)
    requires
        input@.len() <= usize::MAX - 256,
    ensures
        r@ == hex_of(sha256_of(input@)),
{
    let p: Vec<u8> = preprocess(input);
    let blocks: usize = p.len() / 64;
    assert(p@.len() == 64 * blocks);
    let mut h: State = (
        0x6a09e667u32,
        0xbb67ae85u32,
        0x3c6ef372u32,
        0xa54ff53au32,
        0x510e527fu32,
        0x9b05688cu32,
        0x1f83d9abu32,
        0x5be0cd19u32,
    );
    let mut k: usize = 0;
    while k < blocks
        invariant
            k <= blocks,
            p@.len() == 64 * blocks,
            64 * blocks <= usize::MAX,
            h == chain(initial_state(), p@, k as nat),
        decreases blocks - k,
    {
        assert(64 * k + 64 <= 64 * blocks) by (nonlinear_arith)
            requires
                k < blocks,
        ;
        let m: Vec<u32> = read_block32(p.as_slice(), 64 * k, true);
        h = compress(h, m.as_slice());
        k = k + 1;
    }
    let words: Vec<u32> = vec![h.0, h.1, h.2, h.3, h.4, h.5, h.6, h.7];
    let bytes: Vec<u8> = write_words32(words.as_slice(), true);
    assert(words@ =~= seq![h.0, h.1, h.2, h.3, h.4, h.5, h.6, h.7]);
    to_hex(bytes.as_slice())
}

} // verus!

//! SHA-1 (FIPS 180-4).
use vstd::prelude::*;
use crate::bits::rotl32;
use crate::encoding::{block_words32, hex_of, read_block32, serialize32, to_hex, write_words32};
use crate::padding::{pad_message, padded};

verus! {

/// The five chaining words.
pub type State = (u32, u32, u32, u32, u32);

pub open spec fn initial_state() -> State {
    (0x67452301u32, 0xEFCDAB89u32, 0x98BADCFEu32, 0x10325476u32, 0xC3D2E1F0u32)
}

/// Word `i` of the 80-word message schedule of the block `m`.
pub open spec fn schedule(m: Seq<u32>, i: int) -> u32
    decreases i,
{
    if i < 16 {
        m[i]
    } else {
        rotl32(
            schedule(m, i - 3) ^ schedule(m, i - 8) ^ schedule(m, i - 14) ^ schedule(m, i - 16),
            1,
        )
    }
}

/// The boolean function of step `i`.
pub open spec fn step_function(i: int, b: u32, c: u32, d: u32) -> u32 {
    if i <= 19 {
        (b & c) | (!b & d)
    } else if i <= 39 {
        b ^ c ^ d
    } else if i <= 59 {
        (b & c) | (b & d) | (c & d)
    } else {
        b ^ c ^ d
    }
}

/// The additive constant of step `i`.
pub open spec fn step_constant(i: int) -> u32 {
    if i <= 19 {
        0x5A827999u32
    } else if i <= 39 {
        0x6ED9EBA1u32
    } else if i <= 59 {
        0x8F1BBCDCu32
    } else {
        0xCA62C1D6u32
    }
}

/// One step of the 80.
pub open spec fn step(s: State, m: Seq<u32>, i: int) -> State {
    let t = rotl32(s.0, 5).wrapping_add(step_function(i, s.1, s.2, s.3)).wrapping_add(
        s.4,
    ).wrapping_add(step_constant(i)).wrapping_add(schedule(m, i));
    (t, s.0, rotl32(s.1, 30), s.2, s.3)
}

/// The registers after the first `n` steps.
pub open spec fn steps(s: State, m: Seq<u32>, n: nat) -> State
    decreases n,
{
    if n == 0 {
        s
    } else {
        step(steps(s, m, (n - 1) as nat), m, n - 1)
    }
}

/// The compression of one block of sixteen words, with feed-forward.
pub open spec fn compressed(h: State, m: Seq<u32>) -> State {
    let r = steps(h, m, 80);
    (
        h.0.wrapping_add(r.0),
        h.1.wrapping_add(r.1),
        h.2.wrapping_add(r.2),
        h.3.wrapping_add(r.3),
        h.4.wrapping_add(r.4),
    )
}

/// The state after the first `n` blocks of the padded message `p`.
pub open spec fn chain(h: State, p: Seq<u8>, n: nat) -> State
    decreases n,
{
    if n == 0 {
        h
    } else {
        compressed(chain(h, p, (n - 1) as nat), block_words32(p, 64 * (n - 1), true))
    }
}

/// The SHA-1 digest of `m`: twenty bytes.
pub open spec fn sha1_of(m: Seq<u8>) -> Seq<u8> {
    let p = padded(m, 64, 8, true);
    let h = chain(initial_state(), p, p.len() / 64);
    serialize32(seq![h.0, h.1, h.2, h.3, h.4], true)
}

/// Pads `message` to whole 64-byte blocks, ending with its bit length as
/// eight big-endian bytes.
pub fn preprocess(message: &[u8]) -> (r: Vec<u8>)
    requires
        message@.len() <= usize::MAX - 256,
    ensures
        r@ == padded(message@, 64, 8, true),
        r@.len() % 64 == 0,
        r@.len() >= message@.len() + 9,
{
    pad_message(message, 64, 8, true)
}

/// Rotates `n` left by `pos` bits.
pub fn leftrotate(n: u32, pos: usize) -> (r: u32)
    requires
        pos <= 32,
    ensures
        r == rotl32(n, pos as u32),
{
    if pos == 0 || pos == 32 {
        n
    } else {
        (n << (pos as u32)) | (n >> ((32 - pos) as u32))
    }
}

/// Expands a block of sixteen words to the 80-word message schedule.
fn expand(m: &[u32]) -> (w: Vec<u32>)
    requires
        m@.len() == 16,
    ensures
        w@.len() == 80,
        forall|j: int| 0 <= j < 80 ==> w@[j] == schedule(m@, j),
{
    let mut w: Vec<u32> = Vec::new();
    let mut i: usize = 0;
    while i < 80
        invariant
            i <= 80,
            m@.len() == 16,
            w@.len() == i,
            forall|j: int| 0 <= j < i ==> w@[j] == schedule(m@, j),
        decreases 80 - i,
    {
        if i < 16 {
            w.push(m[i]);
        } else {
            w.push(leftrotate(w[i - 3] ^ w[i - 8] ^ w[i - 14] ^ w[i - 16], 1));
        }
        i = i + 1;
    }
    w
}

/// Compresses one block of sixteen words into the state.
pub fn compress(h: State, m: &[u32]) -> (r: State)
    requires
        m@.len() == 16,
    ensures
        r == compressed(h, m@),
{
    let w: Vec<u32> = expand(m);
    let mut a: u32 = h.0;
    let mut b: u32 = h.1;
    let mut c: u32 = h.2;
    let mut d: u32 = h.3;
    let mut e: u32 = h.4;
    let mut i: usize = 0;
    while i < 80
        invariant
            i <= 80,
            w@.len() == 80,
            forall|j: int| 0 <= j < 80 ==> w@[j] == schedule(m@, j),
            (a, b, c, d, e) == steps(h, m@, i as nat),
        decreases 80 - i,
    {
        let f: u32;
        let k: u32;
        if i <= 19 {
            f = (b & c) | (!b & d);
            k = 0x5A827999;
        } else if i <= 39 {
            f = b ^ c ^ d;
            k = 0x6ED9EBA1;
        } else if i <= 59 {
            f = (b & c) | (b & d) | (c & d);
            k = 0x8F1BBCDC;
        } else {
            f = b ^ c ^ d;
            k = 0xCA62C1D6;
        }
        let temp: u32 = leftrotate(a, 5).wrapping_add(f).wrapping_add(e).wrapping_add(
            k,
        ).wrapping_add(w[i]);
        e = d;
        d = c;
        c = leftrotate(b, 30);
        b = a;
        a = temp;
        i = i + 1;
    }
    (
        h.0.wrapping_add(a),
        h.1.wrapping_add(b),
        h.2.wrapping_add(c),
        h.3.wrapping_add(d),
        h.4.wrapping_add(e),
    )
}

/// The SHA-1 digest of `input`, as 40 lowercase hexadecimal digits.
pub fn sha1(input: &[u8]) -> (r: String)
    requires
        input@.len() <= usize::MAX - 256,
    ensures
        r@ == hex_of(sha1_of(input@)),
{
    let p: Vec<u8> = preprocess(input);
    let blocks: usize = p.len() / 64;
    assert(p@.len() == 64 * blocks);
    let mut h: State = (0x67452301u32, 0xEFCDAB89u32, 0x98BADCFEu32, 0x10325476u32, 0xC3D2E1F0u32);
    let mut k: usize = 0;
    while k < blocks
        invariant
            k <= blocks,
            p@.len() == 64 * blocks,
            64 * blocks <= usize::MAX,
            h == chain(initial_state(), p@, k as nat),
        decreases blocks - k,
    {
        assert(64 * k + 64 <= 64 * blocks) by (nonlinear_arith)
            requires
                k < blocks,
        ;
        let m: Vec<u32> = read_block32(p.as_slice(), 64 * k, true);
        h = compress(h, m.as_slice());
        k = k + 1;
    }
    let words: Vec<u32> = vec![h.0, h.1, h.2, h.3, h.4];
    let bytes: Vec<u8> = write_words32(words.as_slice(), true);
    assert(words@ =~= seq![h.0, h.1, h.2, h.3, h.4]);
    to_hex(bytes.as_slice())
}

} // verus!

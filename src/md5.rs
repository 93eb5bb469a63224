//! MD5 (RFC 1321).
use vstd::prelude::*;
use crate::bits::rotl32;
use crate::encoding::{block_words32, hex_of, read_block32, serialize32, to_hex, write_words32};
use crate::padding::{pad_message, padded};

verus! {

/// The four chaining words A, B, C, D.
pub type State = (u32, u32, u32, u32);

pub open spec fn initial_state() -> State {
    (0x67452301u32, 0xefcdab89u32, 0x98badcfeu32, 0x10325476u32)
}

/// The additive constant of each of the 64 steps.
pub open spec fn round_constants() -> Seq<u32> {
    seq![
        0xd76aa478u32, 0xe8c7b756u32, 0x242070dbu32, 0xc1bdceeeu32, 0xf57c0fafu32, 0x4787c62au32,
        0xa8304613u32, 0xfd469501u32, 0x698098d8u32, 0x8b44f7afu32, 0xffff5bb1u32, 0x895cd7beu32,
        0x6b901122u32, 0xfd987193u32, 0xa679438eu32, 0x49b40821u32, 0xf61e2562u32, 0xc040b340u32,
        0x265e5a51u32, 0xe9b6c7aau32, 0xd62f105du32, 0x02441453u32, 0xd8a1e681u32, 0xe7d3fbc8u32,
        0x21e1cde6u32, 0xc33707d6u32, 0xf4d50d87u32, 0x455a14edu32, 0xa9e3e905u32, 0xfcefa3f8u32,
        0x676f02d9u32, 0x8d2a4c8au32, 0xfffa3942u32, 0x8771f681u32, 0x6d9d6122u32, 0xfde5380cu32,
        0xa4beea44u32, 0x4bdecfa9u32, 0xf6bb4b60u32, 0xbebfbc70u32, 0x289b7ec6u32, 0xeaa127fau32,
        0xd4ef3085u32, 0x04881d05u32, 0xd9d4d039u32, 0xe6db99e5u32, 0x1fa27cf8u32, 0xc4ac5665u32,
        0xf4292244u32, 0x432aff97u32, 0xab9423a7u32, 0xfc93a039u32, 0x655b59c3u32, 0x8f0ccc92u32,
        0xffeff47du32, 0x85845dd1u32, 0x6fa87e4fu32, 0xfe2ce6e0u32, 0xa3014314u32, 0x4e0811a1u32,
        0xf7537e82u32, 0xbd3af235u32, 0x2ad7d2bbu32, 0xeb86d391u32,
    ]
}

/// The left rotation of each of the 64 steps.
pub open spec fn shift_amounts() -> Seq<u32> {
    seq![
        7u32, 12, 17, 22, 7, 12, 17, 22, 7, 12, 17, 22, 7, 12, 17, 22, 5, 9, 14, 20, 5, 9, 14,
        20, 5, 9, 14, 20, 5, 9, 14, 20, 4, 11, 16, 23, 4, 11, 16, 23, 4, 11, 16, 23, 4, 11, 16,
        23, 6, 10, 15, 21, 6, 10, 15, 21, 6, 10, 15, 21, 6, 10, 15, 21,
    ]
}

/// The boolean function of step `i`.
pub open spec fn step_function(i: int, b: u32, c: u32, d: u32) -> u32 {
    if i <= 15 {
        (b & c) | (!b & d)
    } else if i <= 31 {
        (d & b) | (!d & c)
    } else if i <= 47 {
        b ^ c ^ d
    } else {
        c ^ (b | !d)
    }
}

/// The index of the message word that step `i` reads.
pub open spec fn word_index(i: int) -> int {
    if i <= 15 {
        i
    } else if i <= 31 {
        (5 * i + 1) % 16
    } else if i <= 47 {
        (3 * i + 5) % 16
    } else {
        (7 * i) % 16
    }
}

/// One step: the new word enters at B and the registers rotate.
pub open spec fn step(s: State, m: Seq<u32>, i: int) -> State {
    let f = step_function(i, s.1, s.2, s.3).wrapping_add(s.0).wrapping_add(
        round_constants()[i],
    ).wrapping_add(m[word_index(i)]);
    (s.3, s.1.wrapping_add(rotl32(f, shift_amounts()[i])), s.1, s.2)
}

/// The registers after the first `n` steps.
pub open spec fn steps(s: State, m: Seq<u32>, n: nat) -> State
    decreases n,
{
    if n == 0 {
        s
    } else {
        step(steps(s, m, (n - 1) as nat), m, n - 1)
    }
}

/// The compression of one block of sixteen words, with feed-forward.
pub open spec fn compressed(h: State, m: Seq<u32>) -> State {
    let r = steps(h, m, 64);
    (h.0.wrapping_add(r.0), h.1.wrapping_add(r.1), h.2.wrapping_add(r.2), h.3.wrapping_add(r.3))
}

/// The state after the first `n` blocks of the padded message `p`.
pub open spec fn chain(h: State, p: Seq<u8>, n: nat) -> State
    decreases n,
{
    if n == 0 {
        h
    } else {
        compressed(chain(h, p, (n - 1) as nat), block_words32(p, 64 * (n - 1), false))
    }
}

/// The MD5 digest of `m`: sixteen bytes.
pub open spec fn md5_of(m: Seq<u8>) -> Seq<u8> {
    let p = padded(m, 64, 8, false);
    let h = chain(initial_state(), p, p.len() / 64);
    serialize32(seq![h.0, h.1, h.2, h.3], false)
}

/// Rotates `n` left by `pos` bits.
pub fn leftrotate(n: u32, pos: usize) -> (r: u32)
    requires
        pos <= 32,
    ensures
        r == rotl32(n, pos as u32),
{
    if pos == 0 || pos == 32 {
        n
    } else {
        (n << (pos as u32)) | (n >> ((32 - pos) as u32))
    }
}

/// Pads `message` to whole 64-byte blocks, ending with its bit length as
/// eight little-endian bytes.
pub fn preprocess(message: &[u8]) -> (r: Vec<u8>)
    requires
        message@.len() <= usize::MAX - 256,
    ensures
        r@ == padded(message@, 64, 8, false),
        r@.len() % 64 == 0,
        r@.len() >= message@.len() + 9,
{
    pad_message(message, 64, 8, false)
}

/// Compresses one block of sixteen words into the state.
pub fn compress(h: State, m: &[u32]) -> (r: State)
    requires
        m@.len() == 16,
    ensures
        r == compressed(h, m@),
{
    let k: [u32; 64] = [
        0xd76aa478, 0xe8c7b756, 0x242070db, 0xc1bdceee, 0xf57c0faf, 0x4787c62a, 0xa8304613,
        0xfd469501, 0x698098d8, 0x8b44f7af, 0xffff5bb1, 0x895cd7be, 0x6b901122, 0xfd987193,
        0xa679438e, 0x49b40821, 0xf61e2562, 0xc040b340, 0x265e5a51, 0xe9b6c7aa, 0xd62f105d,
        0x02441453, 0xd8a1e681, 0xe7d3fbc8, 0x21e1cde6, 0xc33707d6, 0xf4d50d87, 0x455a14ed,
        0xa9e3e905, 0xfcefa3f8, 0x676f02d9, 0x8d2a4c8a, 0xfffa3942, 0x8771f681, 0x6d9d6122,
        0xfde5380c, 0xa4beea44, 0x4bdecfa9, 0xf6bb4b60, 0xbebfbc70, 0x289b7ec6, 0xeaa127fa,
        0xd4ef3085, 0x04881d05, 0xd9d4d039, 0xe6db99e5, 0x1fa27cf8, 0xc4ac5665, 0xf4292244,
        0x432aff97, 0xab9423a7, 0xfc93a039, 0x655b59c3, 0x8f0ccc92, 0xffeff47d, 0x85845dd1,
        0x6fa87e4f, 0xfe2ce6e0, 0xa3014314, 0x4e0811a1, 0xf7537e82, 0xbd3af235, 0x2ad7d2bb,
        0xeb86d391,
    ];
    let shifts: [usize; 64] = [
        7, 12, 17, 22, 7, 12, 17, 22, 7, 12, 17, 22, 7, 12, 17, 22, 5, 9, 14, 20, 5, 9, 14, 20,
        5, 9, 14, 20, 5, 9, 14, 20, 4, 11, 16, 23, 4, 11, 16, 23, 4, 11, 16, 23, 4, 11, 16, 23,
        6, 10, 15, 21, 6, 10, 15, 21, 6, 10, 15, 21, 6, 10, 15, 21,
    ];
    proof {
        assert(k@ =~= round_constants());
        assert(forall|t: int| 0 <= t < 64 ==> shifts@[t] as u32 == shift_amounts()[t]
            && shifts@[t] < 32);
    }
    let mut a: u32 = h.0;
    let mut b: u32 = h.1;
    let mut c: u32 = h.2;
    let mut d: u32 = h.3;
    let mut i: usize = 0;
    while i < 64
        invariant
            i <= 64,
            m@.len() == 16,
            k@ == round_constants(),
            forall|t: int| 0 <= t < 64 ==> shifts@[t] as u32 == shift_amounts()[t]
                && shifts@[t] < 32,
            (a, b, c, d) == steps(h, m@, i as nat),
        decreases 64 - i,
    {
        let f: u32;
        let g: usize;
        if i <= 15 {
            f = (b & c) | (!b & d);
            g = i;
        } else if i <= 31 {
            f = (d & b) | (!d & c);
            g = (5 * i + 1) % 16;
        } else if i <= 47 {
            f = b ^ c ^ d;
            g = (3 * i + 5) % 16;
        } else {
            f = c ^ (b | !d);
            g = (7 * i) % 16;
        }
        let t: u32 = f.wrapping_add(a).wrapping_add(k[i]).wrapping_add(m[g]);
        a = d;
        d = c;
        c = b;
        b = b.wrapping_add(leftrotate(t, shifts[i]));
        i = i + 1;
    }
    (h.0.wrapping_add(a), h.1.wrapping_add(b), h.2.wrapping_add(c), h.3.wrapping_add(d))
}

/// The MD5 digest of `input`, as 32 lowercase hexadecimal digits.
pub fn md5(input: &[u8]) -> (r: String)
    requires
        input@.len() <= usize::MAX - 256,
    ensures
        r@ == hex_of(md5_of(input@)),
{
    let p: Vec<u8> = preprocess(input);
    let blocks: usize = p.len() / 64;
    assert(p@.len() == 64 * blocks);
    let mut h: State = (0x67452301u32, 0xefcdab89u32, 0x98badcfeu32, 0x10325476u32);
    let mut k: usize = 0;
    while k < blocks
        invariant
            k <= blocks,
            p@.len() == 64 * blocks,
            64 * blocks <= usize::MAX,
            h == chain(initial_state(), p@, k as nat),
        decreases blocks - k,
    {
        assert(64 * k + 64 <= 64 * blocks) by (nonlinear_arith)
            requires
                k < blocks,
        ;
        let m: Vec<u32> = read_block32(p.as_slice(), 64 * k, false);
        h = compress(h, m.as_slice());
        k = k + 1;
    }
    let words: Vec<u32> = vec![h.0, h.1, h.2, h.3];
    let bytes: Vec<u8> = write_words32(words.as_slice(), false);
    assert(words@ =~= seq![h.0, h.1, h.2, h.3]);
    to_hex(bytes.as_slice())
}

} // verus!

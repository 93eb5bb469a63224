//! RIPEMD-160: two parallel pipelines of 80 steps over each block.
use vstd::prelude::*;
use crate::bits::rotl32;
use crate::encoding::{block_words32, hex_of, read_word32, serialize32, to_hex, word32, write_words32};
use crate::md5::leftrotate;
use crate::padding::{pad_message, padded};

verus! {

/// The five chaining words.
pub type State = (u32, u32, u32, u32, u32);

pub open spec fn initial_state() -> State {
    (0x67452301u32, 0xEFCDAB89u32, 0x98BADCFEu32, 0x10325476u32, 0xC3D2E1F0u32)
}

/// The message word that each step of the left pipeline reads.
pub open spec fn left_order() -> Seq<usize> {
    seq![
        0usize, 1, 2, 3, 4, 5, 6, 7, 8, 9, 10, 11, 12, 13, 14, 15, 7, 4, 13, 1, 10, 6, 15, 3, 12,
        0, 9, 5, 2, 14, 11, 8, 3, 10, 14, 4, 9, 15, 8, 1, 2, 7, 0, 6, 13, 11, 5, 12, 1, 9, 11, 10,
        0, 8, 12, 4, 13, 3, 7, 15, 14, 5, 6, 2, 4, 0, 5, 9, 7, 12, 2, 10, 14, 1, 3, 8, 11, 6, 15,
        13,
    ]
}

/// The message word that each step of the right pipeline reads.
pub open spec fn right_order() -> Seq<usize> {
    seq![
        5usize, 14, 7, 0, 9, 2, 11, 4, 13, 6, 15, 8, 1, 10, 3, 12, 6, 11, 3, 7, 0, 13, 5, 10, 14,
        15, 8, 12, 4, 9, 1, 2, 15, 5, 1, 3, 7, 14, 6, 9, 11, 8, 12, 2, 10, 0, 4, 13, 8, 6, 4, 1, 3,
        11, 15, 0, 5, 12, 2, 13, 9, 7, 10, 14, 12, 15, 10, 4, 1, 5, 8, 7, 6, 2, 13, 14, 0, 3, 9,
        11,
    ]
}

/// The left rotation of each step of the left pipeline.
pub open spec fn left_shifts() -> Seq<usize> {
    seq![
        11usize, 14, 15, 12, 5, 8, 7, 9, 11, 13, 14, 15, 6, 7, 9, 8, 7, 6, 8, 13, 11, 9, 7, 15, 7,
        12, 15, 9, 11, 7, 13, 12, 11, 13, 6, 7, 14, 9, 13, 15, 14, 8, 13, 6, 5, 12, 7, 5, 11, 12,
        14, 15, 14, 15, 9, 8, 9, 14, 5, 6, 8, 6, 5, 12, 9, 15, 5, 11, 6, 8, 13, 12, 5, 12, 13, 14,
        11, 8, 5, 6,
    ]
}

/// The left rotation of each step of the right pipeline.
pub open spec fn right_shifts() -> Seq<usize> {
    seq![
        8usize, 9, 9, 11, 13, 15, 15, 5, 7, 7, 8, 11, 14, 14, 12, 6, 9, 13, 15, 7, 12, 8, 9, 11, 7,
        7, 12, 7, 6, 15, 13, 11, 9, 7, 15, 11, 8, 6, 6, 14, 12, 13, 5, 14, 13, 13, 7, 5, 15, 5, 8,
        11, 14, 14, 6, 14, 6, 9, 12, 9, 12, 5, 15, 8, 8, 5, 12, 9, 12, 5, 14, 6, 8, 13, 6, 5, 15,
        13, 11, 11,
    ]
}

/// The boolean function for step `j` of the left pipeline; the right
/// pipeline uses them in reverse order.
pub open spec fn boolean_function(j: int, x: u32, y: u32, z: u32) -> u32 {
    if j <= 15 {
        x ^ y ^ z
    } else if j <= 31 {
        (x & y) | (!x & z)
    } else if j <= 47 {
        (x | !y) ^ z
    } else if j <= 63 {
        (x & z) | (y & !z)
    } else {
        x ^ (y | !z)
    }
}

/// The additive constant of step `j` of the left pipeline.
pub open spec fn left_constant(j: int) -> u32 {
    if j <= 15 {
        0x00000000u32
    } else if j <= 31 {
        0x5A827999u32
    } else if j <= 47 {
        0x6ED9EBA1u32
    } else if j <= 63 {
        0x8F1BBCDCu32
    } else {
        0xA953FD4Eu32
    }
}

/// The additive constant of step `j` of the right pipeline.
pub open spec fn right_constant(j: int) -> u32 {
    if j <= 15 {
        0x50A28BE6u32
    } else if j <= 31 {
        0x5C4DD124u32
    } else if j <= 47 {
        0x6D703EF3u32
    } else if j <= 63 {
        0x7A6D76E9u32
    } else {
        0x00000000u32
    }
}

/// One step of either pipeline, given the step's function value, message
/// word, constant and rotation.
pub open spec fn step(s: State, f: u32, x: u32, k: u32, r: usize) -> State {
    let t = rotl32(s.0.wrapping_add(f).wrapping_add(x).wrapping_add(k), r as u32).wrapping_add(
        s.4,
    );
    (s.4, t, s.1, rotl32(s.2, 10), s.3)
}

/// The left pipeline's registers after its first `n` steps.
pub open spec fn left_steps(s: State, m: Seq<u32>, n: nat) -> State
    decreases n,
{
    if n == 0 {
        s
    } else {
        let j = n - 1;
        let p = left_steps(s, m, (n - 1) as nat);
        step(
            p,
            boolean_function(j, p.1, p.2, p.3),
            m[left_order()[j] as int],
            left_constant(j),
            left_shifts()[j],
        )
    }
}

/// The right pipeline's registers after its first `n` steps.
pub open spec fn right_steps(s: State, m: Seq<u32>, n: nat) -> State
    decreases n,
{
    if n == 0 {
        s
    } else {
        let j = n - 1;
        let p = right_steps(s, m, (n - 1) as nat);
        step(
            p,
            boolean_function(79 - j, p.1, p.2, p.3),
            m[right_order()[j] as int],
            right_constant(j),
            right_shifts()[j],
        )
    }
}

/// The compression of one block: both pipelines, then their registers
/// combined crosswise with the previous state.
pub open spec fn compressed(h: State, m: Seq<u32>) -> State {
    let l = left_steps(h, m, 80);
    let r = right_steps(h, m, 80);
    (
        h.1.wrapping_add(l.2).wrapping_add(r.3),
        h.2.wrapping_add(l.3).wrapping_add(r.4),
        h.3.wrapping_add(l.4).wrapping_add(r.0),
        h.4.wrapping_add(l.0).wrapping_add(r.1),
        h.0.wrapping_add(l.1).wrapping_add(r.2),
    )
}

/// The state after the first `n` blocks of the padded message `p`.
pub open spec fn chain(h: State, p: Seq<u8>, n: nat) -> State
    decreases n,
{
    if n == 0 {
        h
    } else {
        compressed(chain(h, p, (n - 1) as nat), block_words32(p, 64 * (n - 1), false))
    }
}

/// The RIPEMD-160 digest of `m`: twenty bytes.
pub open spec fn ripemd160_of(m: Seq<u8>) -> Seq<u8> {
    let p = padded(m, 64, 8, false);
    let h = chain(initial_state(), p, p.len() / 64);
    serialize32(seq![h.0, h.1, h.2, h.3, h.4], false)
}

/// Pads `message` to whole 64-byte blocks, ending with its bit length as
/// eight little-endian bytes.
pub fn preprocess(message: &[u8]) -> (r: Vec<u8>)
    requires
        message@.len() <= usize::MAX - 256,
    ensures
        r@ == padded(message@, 64, 8, false),
        r@.len() % 64 == 0,
        r@.len() >= message@.len() + 9,
{
    pad_message(message, 64, 8, false)
}

/// The boolean function for step `j`.
pub fn func(j: usize, x: u32, y: u32, z: u32) -> (r: u32)
    requires
        j < 80,
    ensures
        r == boolean_function(j as int, x, y, z),
{
    if j <= 15 {
        x ^ y ^ z
    } else if j <= 31 {
        (x & y) | (!x & z)
    } else if j <= 47 {
        (x | !y) ^ z
    } else if j <= 63 {
        (x & z) | (y & !z)
    } else {
        x ^ (y | !z)
    }
}

/// The word of block `i` of `msg` that step `j` reads under `offsets`.
pub fn word_select(i: usize, j: usize, msg: &[u8], offsets: &[usize]) -> (r: u32)
    requires
        j < offsets@.len(),
        offsets@[j as int] < 16,
        64 * i + 64 <= msg@.len(),
    ensures
        r == word32(msg@, 64 * i + 4 * offsets@[j as int], false),
        r == block_words32(msg@, 64 * i, false)[offsets@[j as int] as int],
{
    let len: usize = msg.len();
    assert(64 * i + 64 <= len);
    read_word32(msg, i * 16 * 4 + offsets[j] * 4, false)
}

/// The additive constant of step `j` of the left pipeline.
pub fn constant_k(j: usize) -> (r: u32)
    requires
        j < 80,
    ensures
        r == left_constant(j as int),
{
    if j <= 15 {
        0x00000000
    } else if j <= 31 {
        0x5A827999
    } else if j <= 47 {
        0x6ED9EBA1
    } else if j <= 63 {
        0x8F1BBCDC
    } else {
        0xA953FD4E
    }
}

/// The additive constant of step `j` of the right pipeline.
pub fn constant_k_p(j: usize) -> (r: u32)
    requires
        j < 80,
    ensures
        r == right_constant(j as int),
{
    if j <= 15 {
        0x50A28BE6
    } else if j <= 31 {
        0x5C4DD124
    } else if j <= 47 {
        0x6D703EF3
    } else if j <= 63 {
        0x7A6D76E9
    } else {
        0x00000000
    }
}

/// Compresses block `i` of the padded message `msg` into the state.
pub fn compress(h: State, msg: &[u8], i: usize) -> (r: State)
    requires
        64 * i + 64 <= msg@.len(),
    ensures
        r == compressed(h, block_words32(msg@, 64 * i, false)),
{
    let r_offsets: Vec<usize> = vec![
        0, 1, 2, 3, 4, 5, 6, 7, 8, 9, 10, 11, 12, 13, 14, 15, 7, 4, 13, 1, 10, 6, 15, 3, 12, 0, 9,
        5, 2, 14, 11, 8, 3, 10, 14, 4, 9, 15, 8, 1, 2, 7, 0, 6, 13, 11, 5, 12, 1, 9, 11, 10, 0, 8,
        12, 4, 13, 3, 7, 15, 14, 5, 6, 2, 4, 0, 5, 9, 7, 12, 2, 10, 14, 1, 3, 8, 11, 6, 15, 13,
    ];
    let r_p_offsets: Vec<usize> = vec![
        5, 14, 7, 0, 9, 2, 11, 4, 13, 6, 15, 8, 1, 10, 3, 12, 6, 11, 3, 7, 0, 13, 5, 10, 14, 15, 8,
        12, 4, 9, 1, 2, 15, 5, 1, 3, 7, 14, 6, 9, 11, 8, 12, 2, 10, 0, 4, 13, 8, 6, 4, 1, 3, 11,
        15, 0, 5, 12, 2, 13, 9, 7, 10, 14, 12, 15, 10, 4, 1, 5, 8, 7, 6, 2, 13, 14, 0, 3, 9, 11,
    ];
    let rotations: Vec<usize> = vec![
        11, 14, 15, 12, 5, 8, 7, 9, 11, 13, 14, 15, 6, 7, 9, 8, 7, 6, 8, 13, 11, 9, 7, 15, 7, 12,
        15, 9, 11, 7, 13, 12, 11, 13, 6, 7, 14, 9, 13, 15, 14, 8, 13, 6, 5, 12, 7, 5, 11, 12, 14,
        15, 14, 15, 9, 8, 9, 14, 5, 6, 8, 6, 5, 12, 9, 15, 5, 11, 6, 8, 13, 12, 5, 12, 13, 14, 11,
        8, 5, 6,
    ];
    let rotations_p: Vec<usize> = vec![
        8, 9, 9, 11, 13, 15, 15, 5, 7, 7, 8, 11, 14, 14, 12, 6, 9, 13, 15, 7, 12, 8, 9, 11, 7, 7,
        12, 7, 6, 15, 13, 11, 9, 7, 15, 11, 8, 6, 6, 14, 12, 13, 5, 14, 13, 13, 7, 5, 15, 5, 8, 11,
        14, 14, 6, 14, 6, 9, 12, 9, 12, 5, 15, 8, 8, 5, 12, 9, 12, 5, 14, 6, 8, 13, 6, 5, 15, 13,
        11, 11,
    ];
    let ghost m: Seq<u32> = block_words32(msg@, 64 * i, false);
    proof {
        assert(r_offsets@ =~= left_order());
        assert(r_p_offsets@ =~= right_order());
        assert(rotations@ =~= left_shifts());
        assert(rotations_p@ =~= right_shifts());
        assert(forall|t: int|
            0 <= t < 80 ==> r_offsets@[t] < 16 && r_p_offsets@[t] < 16 && rotations@[t] <= 32
                && rotations_p@[t] <= 32);
    }
    let mut a: u32 = h.0;
    let mut b: u32 = h.1;
    let mut c: u32 = h.2;
    let mut d: u32 = h.3;
    let mut e: u32 = h.4;
    let mut a_p: u32 = h.0;
    let mut b_p: u32 = h.1;
    let mut c_p: u32 = h.2;
    let mut d_p: u32 = h.3;
    let mut e_p: u32 = h.4;
    let mut j: usize = 0;
    while j < 80
        invariant
            j <= 80,
            64 * i + 64 <= msg@.len(),
            m == block_words32(msg@, 64 * i, false),
            r_offsets@ == left_order(),
            r_p_offsets@ == right_order(),
            rotations@ == left_shifts(),
            rotations_p@ == right_shifts(),
            forall|t: int|
                0 <= t < 80 ==> r_offsets@[t] < 16 && r_p_offsets@[t] < 16 && rotations@[t] <= 32
                    && rotations_p@[t] <= 32,
            (a, b, c, d, e) == left_steps(h, m, j as nat),
            (a_p, b_p, c_p, d_p, e_p) == right_steps(h, m, j as nat),
        decreases 80 - j,
    {
        let t: u32 = leftrotate(
            a.wrapping_add(func(j, b, c, d)).wrapping_add(
                word_select(i, j, msg, r_offsets.as_slice()),
            ).wrapping_add(constant_k(j)),
            rotations[j],
        ).wrapping_add(e);
        a = e;
        e = d;
        d = leftrotate(c, 10);
        c = b;
        b = t;
        let t_p: u32 = leftrotate(
            a_p.wrapping_add(func(79 - j, b_p, c_p, d_p)).wrapping_add(
                word_select(i, j, msg, r_p_offsets.as_slice()),
            ).wrapping_add(constant_k_p(j)),
            rotations_p[j],
        ).wrapping_add(e_p);
        a_p = e_p;
        e_p = d_p;
        d_p = leftrotate(c_p, 10);
        c_p = b_p;
        b_p = t_p;
        j = j + 1;
    }
    (
        h.1.wrapping_add(c).wrapping_add(d_p),
        h.2.wrapping_add(d).wrapping_add(e_p),
        h.3.wrapping_add(e).wrapping_add(a_p),
        h.4.wrapping_add(a).wrapping_add(b_p),
        h.0.wrapping_add(b).wrapping_add(c_p),
    )
}

/// The RIPEMD-160 digest of `input`, as 40 lowercase hexadecimal digits.
pub fn ripemd160(input: &[u8]) -> (r: String)
    requires
        input@.len() <= usize::MAX - 256,
    ensures
        r@ == hex_of(ripemd160_of(input@)),
{
    let p: Vec<u8> = preprocess(input);
    let blocks: usize = p.len() / 64;
    assert(p@.len() == 64 * blocks);
    let mut h: State = (0x67452301u32, 0xEFCDAB89u32, 0x98BADCFEu32, 0x10325476u32, 0xC3D2E1F0u32);
    let mut k: usize = 0;
    while k < blocks
        invariant
            k <= blocks,
            p@.len() == 64 * blocks,
            64 * blocks <= usize::MAX,
            h == chain(initial_state(), p@, k as nat),
        decreases blocks - k,
    {
        assert(64 * k + 64 <= 64 * blocks) by (nonlinear_arith)
            requires
                k < blocks,
        ;
        h = compress(h, p.as_slice(), k);
        k = k + 1;
    }
    let words: Vec<u32> = vec![h.0, h.1, h.2, h.3, h.4];
    let bytes: Vec<u8> = write_words32(words.as_slice(), false);
    assert(words@ =~= seq![h.0, h.1, h.2, h.3, h.4]);
    to_hex(bytes.as_slice())
}

} // verus!

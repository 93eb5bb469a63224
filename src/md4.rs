//! MD4 (RFC 1320).
use vstd::prelude::*;
use crate::bits::rotl32;
use crate::encoding::{block_words32, hex_of, read_block32, serialize32, to_hex, write_words32};
use crate::md5::leftrotate;
use crate::padding::{pad_message, padded};

verus! {

/// The four chaining words A, B, C, D.
pub type State = (u32, u32, u32, u32);

pub open spec fn initial_state() -> State {
    (0x67452301u32, 0xefcdab89u32, 0x98badcfeu32, 0x10325476u32)
}

/// The message word that each of the 48 steps reads.
pub open spec fn message_order() -> Seq<usize> {
    seq![
        0usize, 1, 2, 3, 4, 5, 6, 7, 8, 9, 10, 11, 12, 13, 14, 15, 0, 4, 8, 12, 1, 5, 9, 13, 2, 6, 10,
        14, 3, 7, 11, 15, 0, 8, 4, 12, 2, 10, 6, 14, 1, 9, 5, 13, 3, 11, 7, 15,
    ]
}

/// The left rotation of each of the 48 steps.
pub open spec fn shift_amounts() -> Seq<usize> {
    seq![
        3usize, 7, 11, 19, 3, 7, 11, 19, 3, 7, 11, 19, 3, 7, 11, 19, 3, 5, 9, 13, 3, 5, 9, 13, 3, 5, 9,
        13, 3, 5, 9, 13, 3, 9, 11, 15, 3, 9, 11, 15, 3, 9, 11, 15, 3, 9, 11, 15,
    ]
}

/// The boolean function of step `i`: selection, majority, then parity.
pub open spec fn step_function(i: int, b: u32, c: u32, d: u32) -> u32 {
    if i <= 15 {
        (b & c) | (!b & d)
    } else if i <= 31 {
        (b & c) | (b & d) | (c & d)
    } else {
        b ^ c ^ d
    }
}

/// The additive constant of step `i`.
pub open spec fn step_constant(i: int) -> u32 {
    if i <= 15 {
        0u32
    } else if i <= 31 {
        0x5a827999u32
    } else {
        0x6ed9eba1u32
    }
}

/// One step: the new word replaces A, and the registers rotate so that
/// the next step updates D, then C, then B.
pub open spec fn step(s: State, m: Seq<u32>, i: int) -> State {
    let x = m[message_order()[i] as int].wrapping_add(step_constant(i));
    let t = rotl32(
        s.0.wrapping_add(step_function(i, s.1, s.2, s.3)).wrapping_add(x),
        shift_amounts()[i] as u32,
    );
    (s.3, t, s.1, s.2)
}

/// The registers after the first `n` steps.
pub open spec fn steps(s: State, m: Seq<u32>, n: nat) -> State
    decreases n,
{
    if n == 0 {
        s
    } else {
        step(steps(s, m, (n - 1) as nat), m, n - 1)
    }
}

/// The compression of one block of sixteen words, with feed-forward.
pub open spec fn compressed(h: State, m: Seq<u32>) -> State {
    let r = steps(h, m, 48);
    (h.0.wrapping_add(r.0), h.1.wrapping_add(r.1), h.2.wrapping_add(r.2), h.3.wrapping_add(r.3))
}

/// The state after the first `n` blocks of the padded message `p`.
pub open spec fn chain(h: State, p: Seq<u8>, n: nat) -> State
    decreases n,
{
    if n == 0 {
        h
    } else {
        compressed(chain(h, p, (n - 1) as nat), block_words32(p, 64 * (n - 1), false))
    }
}

/// The MD4 digest of `m`: sixteen bytes.
pub open spec fn md4_of(m: Seq<u8>) -> Seq<u8> {
    let p = padded(m, 64, 8, false);
    let h = chain(initial_state(), p, p.len() / 64);
    serialize32(seq![h.0, h.1, h.2, h.3], false)
}

/// Pads `message` to whole 64-byte blocks, ending with its bit length as
/// eight little-endian bytes.
pub fn preprocess(message: &[u8]) -> (r: Vec<u8>)
    requires
        message@.len() <= usize::MAX - 256,
    ensures
        r@ == padded(message@, 64, 8, false),
        r@.len() % 64 == 0,
        r@.len() >= message@.len() + 9,
{
    pad_message(message, 64, 8, false)
}

/// Compresses one block of sixteen words into the state.
pub fn compress(h: State, m: &[u32]) -> (r: State)
    requires
        m@.len() == 16,
    ensures
        r == compressed(h, m@),
{
    let order: [usize; 48] = [
        0, 1, 2, 3, 4, 5, 6, 7, 8, 9, 10, 11, 12, 13, 14, 15, 0, 4, 8, 12, 1, 5, 9, 13, 2, 6, 10,
        14, 3, 7, 11, 15, 0, 8, 4, 12, 2, 10, 6, 14, 1, 9, 5, 13, 3, 11, 7, 15,
    ];
    let shifts: [usize; 48] = [
        3, 7, 11, 19, 3, 7, 11, 19, 3, 7, 11, 19, 3, 7, 11, 19, 3, 5, 9, 13, 3, 5, 9, 13, 3, 5, 9,
        13, 3, 5, 9, 13, 3, 9, 11, 15, 3, 9, 11, 15, 3, 9, 11, 15, 3, 9, 11, 15,
    ];
    proof {
        assert(order@ =~= message_order());
        assert(shifts@ =~= shift_amounts());
        assert(forall|t: int| 0 <= t < 48 ==> order@[t] < 16 && shifts@[t] <= 32);
    }
    let mut a: u32 = h.0;
    let mut b: u32 = h.1;
    let mut c: u32 = h.2;
    let mut d: u32 = h.3;
    let mut i: usize = 0;
    while i < 48
        invariant
            i <= 48,
            m@.len() == 16,
            order@ == message_order(),
            shifts@ == shift_amounts(),
            forall|t: int| 0 <= t < 48 ==> order@[t] < 16 && shifts@[t] <= 32,
            (a, b, c, d) == steps(h, m@, i as nat),
        decreases 48 - i,
    {
        let f: u32;
        let k: u32;
        if i <= 15 {
            f = (b & c) | (!b & d);
            k = 0;
        } else if i <= 31 {
            f = (b & c) | (b & d) | (c & d);
            k = 0x5a827999;
        } else {
            f = b ^ c ^ d;
            k = 0x6ed9eba1;
        }
        let x: u32 = m[order[i]].wrapping_add(k);
        let t: u32 = leftrotate(a.wrapping_add(f).wrapping_add(x), shifts[i]);
        a = d;
        d = c;
        c = b;
        b = t;
        i = i + 1;
    }
    (h.0.wrapping_add(a), h.1.wrapping_add(b), h.2.wrapping_add(c), h.3.wrapping_add(d))
}

/// The MD4 digest of `input`, as 32 lowercase hexadecimal digits.
pub fn md4(input: &[u8]) -> (r: String)
    requires
        input@.len() <= usize::MAX - 256,
    ensures
        r@ == hex_of(md4_of(input@)),
{
    let p: Vec<u8> = preprocess(input);
    let blocks: usize = p.len() / 64;
    assert(p@.len() == 64 * blocks);
    let mut h: State = (0x67452301u32, 0xefcdab89u32, 0x98badcfeu32, 0x10325476u32);
    let mut k: usize = 0;
    while k < blocks
        invariant
            k <= blocks,
            p@.len() == 64 * blocks,
            64 * blocks <= usize::MAX,
            h == chain(initial_state(), p@, k as nat),
        decreases blocks - k,
    {
        assert(64 * k + 64 <= 64 * blocks) by (nonlinear_arith)
            requires
                k < blocks,
        ;
        let m: Vec<u32> = read_block32(p.as_slice(), 64 * k, false);
        h = compress(h, m.as_slice());
        k = k + 1;
    }
    let words: Vec<u32> = vec![h.0, h.1, h.2, h.3];
    let bytes: Vec<u8> = write_words32(words.as_slice(), false);
    assert(words@ =~= seq![h.0, h.1, h.2, h.3]);
    to_hex(bytes.as_slice())
}

} // verus!

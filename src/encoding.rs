//! Conversions between bytes and machine words, and lowercase hexadecimal.
use vstd::prelude::*;

verus! {

/// The 32-bit word held by the four bytes of `b` starting at `i`.
pub open spec fn word32(b: Seq<u8>, i: int, big_endian: bool) -> u32 {
    if big_endian {
        ((b[i] as u32) << 24u32) | ((b[i + 1] as u32) << 16u32) | ((b[i + 2] as u32) << 8u32)
            | (b[i + 3] as u32)
    } else {
        (b[i] as u32) | ((b[i + 1] as u32) << 8u32) | ((b[i + 2] as u32) << 16u32) | ((
        b[i + 3] as u32) << 24u32)
    }
}

/// The 64-bit word held by the eight bytes of `b` starting at `i`.
pub open spec fn word64(b: Seq<u8>, i: int, big_endian: bool) -> u64 {
    if big_endian {
        ((b[i] as u64) << 56u64) | ((b[i + 1] as u64) << 48u64) | ((b[i + 2] as u64) << 40u64)
            | ((b[i + 3] as u64) << 32u64) | ((b[i + 4] as u64) << 24u64) | ((b[i + 5] as u64)
            << 16u64) | ((b[i + 6] as u64) << 8u64) | (b[i + 7] as u64)
    } else {
        (b[i] as u64) | ((b[i + 1] as u64) << 8u64) | ((b[i + 2] as u64) << 16u64) | ((b[i
            + 3] as u64) << 24u64) | ((b[i + 4] as u64) << 32u64) | ((b[i + 5] as u64)
            << 40u64) | ((b[i + 6] as u64) << 48u64) | ((b[i + 7] as u64) << 56u64)
    }
}

/// The sixteen 32-bit words of the 64-byte block of `b` that starts at `start`.
pub open spec fn block_words32(b: Seq<u8>, start: int, big_endian: bool) -> Seq<u32> {
    Seq::new(16, |j: int| word32(b, start + 4 * j, big_endian))
}

/// The sixteen 64-bit words of the 128-byte block of `b` that starts at `start`.
pub open spec fn block_words64(b: Seq<u8>, start: int, big_endian: bool) -> Seq<u64> {
    Seq::new(16, |j: int| word64(b, start + 8 * j, big_endian))
}

/// The four bytes of `w` in the given order.
pub open spec fn bytes_of_word32(w: u32, big_endian: bool) -> Seq<u8> {
    if big_endian {
        seq![(w >> 24u32) as u8, (w >> 16u32) as u8, (w >> 8u32) as u8, w as u8]
    } else {
        seq![w as u8, (w >> 8u32) as u8, (w >> 16u32) as u8, (w >> 24u32) as u8]
    }
}

/// The eight bytes of `w` in the given order.
pub open spec fn bytes_of_word64(w: u64, big_endian: bool) -> Seq<u8> {
    if big_endian {
        seq![
            (w >> 56u64) as u8,
            (w >> 48u64) as u8,
            (w >> 40u64) as u8,
            (w >> 32u64) as u8,
            (w >> 24u64) as u8,
            (w >> 16u64) as u8,
            (w >> 8u64) as u8,
            w as u8,
        ]
    } else {
        seq![
            w as u8,
            (w >> 8u64) as u8,
            (w >> 16u64) as u8,
            (w >> 24u64) as u8,
            (w >> 32u64) as u8,
            (w >> 40u64) as u8,
            (w >> 48u64) as u8,
            (w >> 56u64) as u8,
        ]
    }
}

/// The words of `ws` serialised one after another.
pub open spec fn serialize32(ws: Seq<u32>, big_endian: bool) -> Seq<u8>
    decreases ws.len(),
{
    if ws.len() == 0 {
        Seq::empty()
    } else {
        serialize32(ws.drop_last(), big_endian) + bytes_of_word32(ws.last(), big_endian)
    }
}

/// The words of `ws` serialised one after another.
pub open spec fn serialize64(ws: Seq<u64>, big_endian: bool) -> Seq<u8>
    decreases ws.len(),
{
    if ws.len() == 0 {
        Seq::empty()
    } else {
        serialize64(ws.drop_last(), big_endian) + bytes_of_word64(ws.last(), big_endian)
    }
}

/// The lowercase hexadecimal digit of a value below 16.
pub open spec fn hex_digit(n: u8) -> char {
    if n < 10 {
        (n + 48) as char
    } else {
        (n + 87) as char
    }
}

/// Each byte of `b` as two lowercase hexadecimal digits, high nibble first.
pub open spec fn hex_of(b: Seq<u8>) -> Seq<char>
    decreases b.len(),
{
    if b.len() == 0 {
        Seq::empty()
    } else {
        hex_of(b.drop_last()) + seq![hex_digit(b.last() >> 4u8), hex_digit(b.last() & 15u8)]
    }
}

pub proof fn lemma_serialize32_len(ws: Seq<u32>, big_endian: bool)
    ensures
        serialize32(ws, big_endian).len() == 4 * ws.len(),
    decreases ws.len(),
{
    if ws.len() > 0 {
        lemma_serialize32_len(ws.drop_last(), big_endian);
    }
}

pub proof fn lemma_serialize64_len(ws: Seq<u64>, big_endian: bool)
    ensures
        serialize64(ws, big_endian).len() == 8 * ws.len(),
    decreases ws.len(),
{
    if ws.len() > 0 {
        lemma_serialize64_len(ws.drop_last(), big_endian);
    }
}

pub proof fn lemma_hex_len(b: Seq<u8>)
    ensures
        hex_of(b).len() == 2 * b.len(),
    decreases b.len(),
{
    if b.len() > 0 {
        lemma_hex_len(b.drop_last());
    }
}

/// Reads the 32-bit word of `b` at `i`.
pub fn read_word32(b: &[u8], i: usize, big_endian: bool) -> (r: u32)
    requires
        i + 4 <= b@.len(),
    ensures
        r == word32(b@, i as int, big_endian),
{
    if big_endian {
        ((b[i] as u32) << 24u32) | ((b[i + 1] as u32) << 16u32) | ((b[i + 2] as u32) << 8u32)
            | (b[i + 3] as u32)
    } else {
        (b[i] as u32) | ((b[i + 1] as u32) << 8u32) | ((b[i + 2] as u32) << 16u32) | ((
        b[i + 3] as u32) << 24u32)
    }
}

/// Reads the 64-bit word of `b` at `i`.
pub fn read_word64(b: &[u8], i: usize, big_endian: bool) -> (r: u64)
    requires
        i + 8 <= b@.len(),
    ensures
        r == word64(b@, i as int, big_endian),
{
    if big_endian {
        ((b[i] as u64) << 56u64) | ((b[i + 1] as u64) << 48u64) | ((b[i + 2] as u64) << 40u64)
            | ((b[i + 3] as u64) << 32u64) | ((b[i + 4] as u64) << 24u64) | ((b[i + 5] as u64)
            << 16u64) | ((b[i + 6] as u64) << 8u64) | (b[i + 7] as u64)
    } else {
        (b[i] as u64) | ((b[i + 1] as u64) << 8u64) | ((b[i + 2] as u64) << 16u64) | ((b[i
            + 3] as u64) << 24u64) | ((b[i + 4] as u64) << 32u64) | ((b[i + 5] as u64)
            << 40u64) | ((b[i + 6] as u64) << 48u64) | ((b[i + 7] as u64) << 56u64)
    }
}

/// Reads the sixteen 32-bit words of the block of `b` that starts at `start`.
pub fn read_block32(b: &[u8], start: usize, big_endian: bool) -> (r: Vec<u32>)
    requires
        start + 64 <= b@.len(),
    ensures
        r@ == block_words32(b@, start as int, big_endian),
{
    let len: usize = b.len();
    let mut r: Vec<u32> = Vec::new();
    let mut j: usize = 0;
    while j < 16
        invariant
            j <= 16,
            len == b@.len(),
            start + 64 <= b@.len(),
            r@.len() == j,
            forall|t: int| 0 <= t < j ==> r@[t] == word32(b@, start + 4 * t, big_endian),
        decreases 16 - j,
    {
        r.push(read_word32(b, start + 4 * j, big_endian));
        j = j + 1;
    }
    assert(r@ =~= block_words32(b@, start as int, big_endian));
    r
}

/// Reads the sixteen 64-bit words of the block of `b` that starts at `start`.
pub fn read_block64(b: &[u8], start: usize, big_endian: bool) -> (r: Vec<u64>)
    requires
        start + 128 <= b@.len(),
    ensures
        r@ == block_words64(b@, start as int, big_endian),
{
    let len: usize = b.len();
    let mut r: Vec<u64> = Vec::new();
    let mut j: usize = 0;
    while j < 16
        invariant
            j <= 16,
            len == b@.len(),
            start + 128 <= b@.len(),
            r@.len() == j,
            forall|t: int| 0 <= t < j ==> r@[t] == word64(b@, start + 8 * t, big_endian),
        decreases 16 - j,
    {
        r.push(read_word64(b, start + 8 * j, big_endian));
        j = j + 1;
    }
    assert(r@ =~= block_words64(b@, start as int, big_endian));
    r
}

/// Serialises 32-bit words, each in the given byte order.
pub fn write_words32(ws: &[u32], big_endian: bool) -> (r: Vec<u8>)
    ensures
        r@ == serialize32(ws@, big_endian),
        r@.len() == 4 * ws@.len(),
{
    let mut r: Vec<u8> = Vec::new();
    let mut i: usize = 0;
    while i < ws.len()
        invariant
            i <= ws@.len(),
            r@ == serialize32(ws@.take(i as int), big_endian),
        decreases ws@.len() - i,
    {
        let w: u32 = ws[i];
        if big_endian {
            r.push((w >> 24u32) as u8);
            r.push((w >> 16u32) as u8);
            r.push((w >> 8u32) as u8);
            r.push(w as u8);
        } else {
            r.push(w as u8);
            r.push((w >> 8u32) as u8);
            r.push((w >> 16u32) as u8);
            r.push((w >> 24u32) as u8);
        }
        assert(ws@.take(i + 1).drop_last() =~= ws@.take(i as int));
        i = i + 1;
        assert(r@ =~= serialize32(ws@.take(i as int), big_endian));
    }
    assert(ws@.take(i as int) =~= ws@);
    proof {
        lemma_serialize32_len(ws@, big_endian);
    }
    r
}

/// Serialises 64-bit words, each in the given byte order.
pub fn write_words64(ws: &[u64], big_endian: bool) -> (r: Vec<u8>)
    ensures
        r@ == serialize64(ws@, big_endian),
        r@.len() == 8 * ws@.len(),
{
    let mut r: Vec<u8> = Vec::new();
    let mut i: usize = 0;
    while i < ws.len()
        invariant
            i <= ws@.len(),
            r@ == serialize64(ws@.take(i as int), big_endian),
        decreases ws@.len() - i,
    {
        let w: u64 = ws[i];
        if big_endian {
            r.push((w >> 56u64) as u8);
            r.push((w >> 48u64) as u8);
            r.push((w >> 40u64) as u8);
            r.push((w >> 32u64) as u8);
            r.push((w >> 24u64) as u8);
            r.push((w >> 16u64) as u8);
            r.push((w >> 8u64) as u8);
            r.push(w as u8);
        } else {
            r.push(w as u8);
            r.push((w >> 8u64) as u8);
            r.push((w >> 16u64) as u8);
            r.push((w >> 24u64) as u8);
            r.push((w >> 32u64) as u8);
            r.push((w >> 40u64) as u8);
            r.push((w >> 48u64) as u8);
            r.push((w >> 56u64) as u8);
        }
        assert(ws@.take(i + 1).drop_last() =~= ws@.take(i as int));
        i = i + 1;
        assert(r@ =~= serialize64(ws@.take(i as int), big_endian));
    }
    assert(ws@.take(i as int) =~= ws@);
    proof {
        lemma_serialize64_len(ws@, big_endian);
    }
    r
}

/// Relies on `String::push`: the character is appended at the end.
#[verifier::external_body]
fn push_char(s: &mut String, c: char)
    ensures
        final(s)@ == old(s)@.push(c),
{
    s.push(c)
}

fn nibble_digit(n: u8) -> (r: char)
    requires
        n < 16,
    ensures
        r == hex_digit(n),
{
    if n < 10 {
        (n + 48) as char
    } else {
        (n + 87) as char
    }
}

/// Renders bytes as lowercase hexadecimal, two digits per byte.
pub fn to_hex(b: &[u8]) -> (r: String)
    ensures
        r@ == hex_of(b@),
        r@.len() == 2 * b@.len(),
{
    let mut r: String = String::new();
    let mut i: usize = 0;
    while i < b.len()
        invariant
            i <= b@.len(),
            r@ == hex_of(b@.take(i as int)),
        decreases b@.len() - i,
    {
        let x: u8 = b[i];
        assert(x >> 4u8 < 16u8) by (bit_vector);
        assert(x & 15u8 < 16u8) by (bit_vector);
        push_char(&mut r, nibble_digit(x >> 4u8));
        push_char(&mut r, nibble_digit(x & 15u8));
        assert(b@.take(i + 1).drop_last() =~= b@.take(i as int));
        i = i + 1;
        assert(r@ =~= hex_of(b@.take(i as int)));
    }
    assert(b@.take(i as int) =~= b@);
    proof {
        lemma_hex_len(b@);
    }
    r
}

} // verus!

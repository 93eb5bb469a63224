//! Merkle–Damgård message padding: a terminator byte, zero fill, and the
//! message's bit length.
use vstd::prelude::*;

verus! {

/// How many zero bytes follow the `0x80` terminator so that the padded
/// message, with its length field, fills whole blocks.
pub open spec fn zero_fill(len: nat, block: nat, field: nat) -> nat
    recommends
        block > 0,
{
    ((block - ((len + 1 + field) as int) % (block as int)) % (block as int)) as nat
}

/// The low `n` bytes of `v`, least significant first, or most significant
/// first when `big_endian`.
pub open spec fn length_field(v: u128, n: nat, big_endian: bool) -> Seq<u8> {
    Seq::new(
        n,
        |i: int|
            if big_endian {
                (v >> ((8 * (n - 1 - i)) as u128)) as u8
            } else {
                (v >> ((8 * i) as u128)) as u8
            },
    )
}

/// The message `m`, padded for blocks of `block` bytes with a length field
/// of `field` bytes holding the bit length of `m`.
pub open spec fn padded(m: Seq<u8>, block: nat, field: nat, big_endian: bool) -> Seq<u8> {
    m + seq![0x80u8] + Seq::new(zero_fill(m.len(), block, field), |i: int| 0u8) + length_field(
        (m.len() * 8) as u128,
        field,
        big_endian,
    )
}

pub proof fn lemma_padded_len(m: Seq<u8>, block: nat, field: nat, big_endian: bool)
    requires
        block > 0,
    ensures
        padded(m, block, field, big_endian).len() % block == 0,
        padded(m, block, field, big_endian).len() >= m.len() + 1 + field,
        padded(m, block, field, big_endian).len() < m.len() + 1 + field + block,
        padded(m, block, field, big_endian).subrange(0, m.len() as int) == m,
{
    let n: int = (m.len() + 1 + field) as int;
    let b: int = block as int;
    let q: int = n % b;
    let d: int = n / b;
    assert(n == b * d + q) by (nonlinear_arith)
        requires
            b > 0,
            q == n % b,
            d == n / b,
    ;
    assert(0 <= q < b);
    let z: int = zero_fill(m.len(), block, field) as int;
    if q == 0 {
        vstd::arithmetic::div_mod::lemma_mod_self_0(b);
        assert(z == 0);
        assert((b * d) % b == 0) by (nonlinear_arith)
            requires
                b > 0,
        ;
    } else {
        vstd::arithmetic::div_mod::lemma_small_mod((b - q) as nat, b as nat);
        assert(z == b - q);
        assert((b * (d + 1)) % b == 0) by (nonlinear_arith)
            requires
                b > 0,
        ;
        assert(n + z == b * (d + 1)) by (nonlinear_arith)
            requires
                n == b * d + q,
                z == b - q,
        ;
    }
    assert(padded(m, block, field, big_endian).subrange(0, m.len() as int) =~= m);
}

/// Pads `message` for blocks of `block` bytes with a length field of
/// `field` bytes; the field holds the message's bit length modulo
/// `2^(8 * field)`.
pub fn pad_message(message: &[u8], block: usize, field: usize, big_endian: bool) -> (r: Vec<u8>)
    requires
        block > 0,
        field <= 16,
        message@.len() + 1 + field + block <= usize::MAX,
    ensures
        r@ == padded(message@, block as nat, field as nat, big_endian),
        r@.len() % (block as nat) == 0,
        r@.len() >= message@.len() + 1 + field,
{
    let len: usize = message.len();
    let mut r: Vec<u8> = Vec::new();
    let mut i: usize = 0;
    while i < len
        invariant
            i <= len,
            len == message@.len(),
            r@ == message@.take(i as int),
        decreases len - i,
    {
        r.push(message[i]);
        i = i + 1;
        assert(r@ =~= message@.take(i as int));
    }
    assert(message@.take(len as int) =~= message@);
    r.push(0x80u8);
    let zeros: usize = (block - (len + 1 + field) % block) % block;
    let ghost head: Seq<u8> = r@;
    let mut k: usize = 0;
    while k < zeros
        invariant
            k <= zeros,
            r@ == head + Seq::new(k as nat, |t: int| 0u8),
        decreases zeros - k,
    {
        r.push(0u8);
        k = k + 1;
        assert(r@ =~= head + Seq::new(k as nat, |t: int| 0u8));
    }
    let bits: u128 = (len as u128) * 8;
    let ghost body: Seq<u8> = r@;
    let mut j: usize = 0;
    while j < field
        invariant
            j <= field,
            field <= 16,
            r@ == body + length_field(bits, field as nat, big_endian).take(j as int),
        decreases field - j,
    {
        let shift: u128 = if big_endian {
            (8 * (field - 1 - j)) as u128
        } else {
            (8 * j) as u128
        };
        r.push((bits >> shift) as u8);
        assert(length_field(bits, field as nat, big_endian).take(j + 1) =~= length_field(
            bits,
            field as nat,
            big_endian,
        ).take(j as int).push((bits >> shift) as u8));
        j = j + 1;
    }
    assert(length_field(bits, field as nat, big_endian).take(field as int) =~= length_field(
        bits,
        field as nat,
        big_endian,
    ));
    assert(r@ =~= padded(message@, block as nat, field as nat, big_endian));
    proof {
        lemma_padded_len(message@, block as nat, field as nat, big_endian);
    }
    r
}

} // verus!

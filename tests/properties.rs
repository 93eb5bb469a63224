use digests::blake2::{blake2, pad, rightrotate as rightrotate64};
use digests::encoding::to_hex;
use digests::md4::md4;
use digests::md5::{leftrotate, md5, preprocess as md5_preprocess};
use digests::ripemd160::{constant_k, constant_k_p, func, ripemd160, word_select};
use digests::sha1::{preprocess as sha1_preprocess, sha1};
use digests::sha256::{rightrotate, sha256};
use digests::sha512::{preprocess as sha512_preprocess, sha512};

#[test]
fn repeated_calls_agree() {
    let m = b"determinism";
    assert_eq!(md4(m), md4(m));
    assert_eq!(md5(m), md5(m));
    assert_eq!(sha1(m), sha1(m));
    assert_eq!(sha256(m), sha256(m));
    assert_eq!(sha512(m), sha512(m));
    assert_eq!(ripemd160(m), ripemd160(m));
    assert_eq!(blake2(m, None, 48), blake2(m, None, 48));
}

#[test]
fn digest_lengths_are_fixed() {
    for len in [0usize, 1, 55, 56, 63, 64, 65, 111, 112, 128, 300] {
        let m = vec![0x5au8; len];
        assert_eq!(md4(&m).len(), 32);
        assert_eq!(md5(&m).len(), 32);
        assert_eq!(sha1(&m).len(), 40);
        assert_eq!(ripemd160(&m).len(), 40);
        assert_eq!(sha256(&m).len(), 64);
        assert_eq!(sha512(&m).len(), 128);
        assert_eq!(blake2(&m, None, 20).unwrap().len(), 40);
    }
}

#[test]
fn padding_fills_whole_blocks() {
    for len in 0usize..300 {
        let m = vec![0xa5u8; len];
        let p = md5_preprocess(&m);
        assert_eq!(p.len() % 64, 0);
        assert!(p.len() >= len + 9);
        assert_eq!(&p[..len], &m[..]);
        assert_eq!(p[len], 0x80);
        let q = sha512_preprocess(&m);
        assert_eq!(q.len() % 128, 0);
        assert!(q.len() >= len + 17);
        assert_eq!(q[len], 0x80);
    }
}

#[test]
fn padding_boundaries() {
    assert_eq!(md5_preprocess(&[0u8; 55]).len(), 64);
    assert_eq!(md5_preprocess(&[0u8; 56]).len(), 128);
    assert_eq!(md5_preprocess(&[0u8; 64]).len(), 128);
    assert_eq!(md5_preprocess(b"").len(), 64);
    assert_eq!(sha512_preprocess(&[0u8; 111]).len(), 128);
    assert_eq!(sha512_preprocess(&[0u8; 112]).len(), 256);
}

#[test]
fn length_field_byte_order() {
    let le = md5_preprocess(b"abc");
    assert_eq!(&le[56..], &[24, 0, 0, 0, 0, 0, 0, 0]);
    let be = sha1_preprocess(b"abc");
    assert_eq!(&be[56..], &[0, 0, 0, 0, 0, 0, 0, 24]);
    let wide = sha512_preprocess(b"abc");
    assert_eq!(wide.len(), 128);
    assert_eq!(&wide[112..127], &[0u8; 15]);
    assert_eq!(wide[127], 24);
}

#[test]
fn blake2_pad_adds_a_block_when_aligned() {
    let mut v = vec![1u8; 128];
    pad(&mut v, 128);
    assert_eq!(v.len(), 256);
    let mut w = vec![1u8; 5];
    pad(&mut w, 128);
    assert_eq!(w.len(), 128);
    assert_eq!(w[4], 1);
    assert_eq!(w[5], 0);
}

#[test]
fn one_bit_flip_changes_every_digest() {
    let a = b"abc";
    let b = b"abb";
    assert_ne!(md4(a), md4(b));
    assert_ne!(md5(a), md5(b));
    assert_ne!(sha1(a), sha1(b));
    assert_ne!(sha256(a), sha256(b));
    assert_ne!(sha512(a), sha512(b));
    assert_ne!(ripemd160(a), ripemd160(b));
    assert_ne!(blake2(a, None, 64), blake2(b, None, 64));
}

#[test]
fn one_bit_flip_in_a_long_message() {
    let a = vec![0u8; 200];
    let mut b = a.clone();
    b[150] ^= 0x10;
    assert_ne!(md5(&a), md5(&b));
    assert_ne!(sha256(&a), sha256(&b));
    assert_ne!(ripemd160(&a), ripemd160(&b));
    assert_ne!(blake2(&a, None, 64), blake2(&b, None, 64));
}

#[test]
fn rotations() {
    assert_eq!(leftrotate(0x8000_0001, 1), 3);
    assert_eq!(leftrotate(0x1234_5678, 0), 0x1234_5678);
    assert_eq!(leftrotate(0x1234_5678, 32), 0x1234_5678);
    assert_eq!(rightrotate(1, 1), 0x8000_0000);
    assert_eq!(rightrotate(0x1234_5678, 8), 0x7812_3456);
    assert_eq!(rightrotate64(1, 63), 2);
    assert_eq!(rightrotate64(0x0123_4567_89ab_cdef, 32), 0x89ab_cdef_0123_4567);
}

#[test]
fn ripemd160_step_tables() {
    assert_eq!(func(0, 1, 2, 4), 7);
    assert_eq!(func(16, 0xffff_ffff, 5, 9), 5);
    assert_eq!(func(79, 0, 0, 0xffff_ffff), 0);
    assert_eq!(constant_k(0), 0);
    assert_eq!(constant_k(16), 0x5A82_7999);
    assert_eq!(constant_k(79), 0xA953_FD4E);
    assert_eq!(constant_k_p(15), 0x50A2_8BE6);
    assert_eq!(constant_k_p(79), 0);
}

#[test]
fn ripemd160_word_select_is_little_endian() {
    let mut msg = vec![0u8; 128];
    msg[64 + 8] = 0x01;
    msg[64 + 9] = 0x02;
    msg[64 + 10] = 0x03;
    msg[64 + 11] = 0x04;
    let offsets = [2usize, 0];
    assert_eq!(word_select(1, 0, &msg, &offsets), 0x0403_0201);
    assert_eq!(word_select(1, 1, &msg, &offsets), 0);
}

#[test]
fn hex_rendering() {
    assert_eq!(to_hex(&[0x00, 0xff, 0x1a, 0xb0]), "00ff1ab0");
    assert_eq!(to_hex(&[]), "");
}

use digests::md5::md5;
use digests::sha1::sha1;
use digests::sha256::sha256;
use digests::sha512::sha512;

const QUICK_FOX: &[u8] = b"The quick brown fox jumps over the lazy dog";
const TWO_BLOCKS: &[u8] = b"abcdbcdecdefdefgefghfghighijhijkijkljklmklmnlmnomnopnopq";

#[test]
fn md5_empty() {
    assert_eq!(md5(b""), "d41d8cd98f00b204e9800998ecf8427e");
}

#[test]
fn md5_abc() {
    assert_eq!(md5(b"abc"), "900150983cd24fb0d6963f7d28e17f72");
}

#[test]
fn md5_quick_fox() {
    assert_eq!(md5(QUICK_FOX), "9e107d9d372bb6826bd81d3542a419d6");
}

#[test]
fn md5_long_digits() {
    let msg = b"12345678901234567890123456789012345678901234567890123456789012345678901234567890";
    assert_eq!(md5(msg), "57edf4a22be3c955ac49da2e2107b67a");
}

#[test]
fn sha1_empty() {
    assert_eq!(sha1(b""), "da39a3ee5e6b4b0d3255bfef95601890afd80709");
}

#[test]
fn sha1_abc() {
    assert_eq!(sha1(b"abc"), "a9993e364706816aba3e25717850c26c9cd0d89d");
}

#[test]
fn sha1_two_blocks() {
    assert_eq!(sha1(TWO_BLOCKS), "84983e441c3bd26ebaae4aa1f95129e5e54670f1");
}

#[test]
fn sha256_empty() {
    assert_eq!(
        sha256(b""),
        "e3b0c44298fc1c149afbf4c8996fb92427ae41e4649b934ca495991b7852b855"
    );
}

#[test]
fn sha256_abc() {
    assert_eq!(
        sha256(b"abc"),
        "ba7816bf8f01cfea414140de5dae2223b00361a396177a9cb410ff61f20015ad"
    );
}

#[test]
fn sha256_two_blocks() {
    assert_eq!(
        sha256(TWO_BLOCKS),
        "248d6a61d20638b8e5c026930c3e6039a33ce45964ff2167f6ecedd419db06c1"
    );
}

#[test]
fn sha512_empty() {
    assert_eq!(
        sha512(b""),
        "cf83e1357eefb8bdf1542850d66d8007d620e4050b5715dc83f4a921d36ce9ce\
         47d0d13c5d85f2b0ff8318d2877eec2f63b931bd47417a81a538327af927da3e"
    );
}

#[test]
fn sha512_abc() {
    assert_eq!(
        sha512(b"abc"),
        "ddaf35a193617abacc417349ae20413112e6fa4e89a97ea20a9eeee64b55d39a\
         2192992a274fc1a836ba3c23a3feebbd454d4423643ce80e2a9ac94fa54ca49f"
    );
}

#[test]
fn md5_message_digest() {
    assert_eq!(md5(b"message digest"), "f96b697d7cb7938d525a2f31aaf161d0");
}

#[test]
fn sha1_million_a() {
    let m = vec![b'a'; 1_000_000];
    assert_eq!(sha1(&m), "34aa973cd4c4daa4f61eeb2bdbad27316534016f");
}

#[test]
fn sha256_million_a() {
    let m = vec![b'a'; 1_000_000];
    assert_eq!(
        sha256(&m),
        "cdc76e5c9914fb9281a1c7e284d73e67f1809a48a497200e046d39ccc7112cd0"
    );
}

#[test]
fn md5_million_a() {
    let m = vec![b'a'; 1_000_000];
    assert_eq!(md5(&m), "7707d6ae4e027c70eea2a935c2296f21");
}

use digests::blake2::{blake2, ConfigError};
use digests::md4::md4;
use digests::ripemd160::ripemd160;

#[test]
fn md4_empty() {
    assert_eq!(md4(b""), "31d6cfe0d16ae931b73c59d7e0c089c0");
}

#[test]
fn md4_abc() {
    assert_eq!(md4(b"abc"), "a448017aaf21d8525fc10ae87aa6729d");
}

#[test]
fn md4_message_digest() {
    assert_eq!(md4(b"message digest"), "d9130a8164549fe818874806e1c7014b");
}

#[test]
fn ripemd160_empty() {
    assert_eq!(ripemd160(b""), "9c1185a5c5e9fc54612808977ee8f548b2258d31");
}

#[test]
fn ripemd160_abc() {
    assert_eq!(ripemd160(b"abc"), "8eb208f7e05d987a9b044a8e98c6b087f15a0bfc");
}

#[test]
fn ripemd160_message_digest() {
    assert_eq!(
        ripemd160(b"message digest"),
        "5d0689ef49d2fae572b881b123a85ffa21595f36"
    );
}

#[test]
fn blake2b_empty_64() {
    assert_eq!(
        blake2(b"", None, 64).unwrap(),
        "786a02f742015903c6c6fd852552d272912f4740e15847618a86e217f71f5419\
         d25e1031afee585313896444934eb04b903a685b1448b755d56f701afe9be2ce"
    );
}

#[test]
fn blake2b_abc_64() {
    assert_eq!(
        blake2(b"abc", None, 64).unwrap(),
        "ba80a53f981c4d0d6a2797b69f12f6e94c212f14685ac4b74b12bb6fdbffa2d1\
         7d87c5392aab792dc252d5de4533cc9518d38aa8dbf1925ab92386edd4009923"
    );
}

#[test]
fn blake2b_empty_32() {
    assert_eq!(
        blake2(b"", None, 32).unwrap(),
        "0e5751c026e543b2e8ab2eb06099daa1d1e5df47778f7787faab45cdf12fe3a8"
    );
}

#[test]
fn blake2b_abc_32() {
    assert_eq!(
        blake2(b"abc", None, 32).unwrap(),
        "bddd813c634239723171ef3fee98579b94964e3bb1cb3e427262c8c068d52319"
    );
}

#[test]
fn blake2b_keyed_empty() {
    let key: Vec<u8> = (0u8..64).collect();
    assert_eq!(
        blake2(b"", Some(&key), 64).unwrap(),
        "10ebb67700b1868efb4417987acf4690ae9d972fb7a590c2f02871799aaa4786\
         b5e996e8f0f4eb981fc214b005f42d2ff4233499391653df7aefcbc13fc51568"
    );
}

#[test]
fn blake2b_output_length_is_requested_length() {
    for n in 1..=64usize {
        let r = blake2(b"abc", None, n).unwrap();
        assert_eq!(r.len(), 2 * n);
    }
}

#[test]
fn blake2b_digest_length_zero_is_refused() {
    assert_eq!(blake2(b"abc", None, 0), Err(ConfigError::InvalidDigestLength));
}

#[test]
fn blake2b_digest_length_65_is_refused() {
    assert_eq!(blake2(b"abc", None, 65), Err(ConfigError::InvalidDigestLength));
}

#[test]
fn blake2b_key_of_65_bytes_is_refused() {
    let key = vec![7u8; 65];
    assert_eq!(blake2(b"abc", Some(&key), 64), Err(ConfigError::KeyTooLong));
}

#[test]
fn blake2b_digest_length_checked_before_key() {
    let key = vec![7u8; 65];
    assert_eq!(blake2(b"abc", Some(&key), 0), Err(ConfigError::InvalidDigestLength));
}

#[test]
fn blake2b_key_of_64_bytes_is_accepted() {
    let key = vec![7u8; 64];
    assert!(blake2(b"abc", Some(&key), 64).is_ok());
}

#[test]
fn blake2b_empty_key_is_no_key() {
    assert_eq!(blake2(b"abc", Some(&[]), 64), blake2(b"abc", None, 64));
}

#[test]
fn blake2b_key_changes_digest() {
    let key = vec![1u8; 16];
    assert_ne!(blake2(b"abc", Some(&key), 64), blake2(b"abc", None, 64));
}

#[test]
fn blake2b_whole_block_and_one_more_byte_differ() {
    let a = vec![0x61u8; 128];
    let b = vec![0x61u8; 129];
    let ha = blake2(&a, None, 64).unwrap();
    let hb = blake2(&b, None, 64).unwrap();
    assert_ne!(ha, hb);
    assert_eq!(ha.len(), 128);
}

//! Bit-exact message digests: MD4, MD5, SHA-1, SHA-256, SHA-512, RIPEMD-160
//! and BLAKE2b. Each entry point is proved to return the hexadecimal form of
//! the digest that its module's specification functions define.
pub mod bits;
pub mod encoding;
pub mod padding;

pub mod blake2;
pub mod md4;
pub mod md5;
pub mod ripemd160;
pub mod sha1;
pub mod sha256;
pub mod sha512;

pub mod laws;

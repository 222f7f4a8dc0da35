//! Trusted wrappers around the cryptographic primitives the service relies
//! on: SHA-256, single-block AES-128-CBC, and the adaptive password hash.
//!
//! Each digest is named by an uninterpreted spec function: the value is a
//! function of the inputs alone, and nothing beyond what the crates document
//! is assumed of it.

use vstd::prelude::*;
use sha2::Digest;
use aes::cipher::{BlockModeDecrypt, BlockModeEncrypt, KeyIvInit};

verus! {

/// The SHA-256 digest of a byte sequence.
pub uninterp spec fn sha256_of(bytes: Seq<u8>) -> Seq<u8>;

/// Relies on sha2::Sha256 (Digest::digest): a 32-byte digest that is a
/// function of the input bytes alone.
#[verifier::external_body]
pub fn sha256(data: &[u8]) -> (r: Vec<u8>)
    ensures
        r@ == sha256_of(data@),
        r@.len() == 32,
{
    sha2::Sha256::digest(data).to_vec()
}

/// One block of AES-128 in CBC mode under the given key and initialization
/// vector. AES is a block-size-preserving permutation, so the result is a
/// fixed 16-byte block.
pub uninterp spec fn aes128_cbc_enc(key: Seq<u8>, iv: Seq<u8>, block: Seq<u8>) -> [u8; 16];

/// Relies on cbc::Encryptor<aes::Aes128> (KeyIvInit::new, then
/// BlockModeEncrypt::encrypt_block): encrypts exactly one 16-byte block, a
/// function of key, IV and block alone.
#[verifier::external_body]
pub fn aes128_cbc_encrypt_block(key: &[u8], iv: &[u8], block: &[u8]) -> (r: [u8; 16])
    requires
        key@.len() == 16,
        iv@.len() == 16,
        block@.len() == 16,
    ensures
        r == aes128_cbc_enc(key@, iv@, block@),
{
    let key: [u8; 16] = key.try_into().unwrap();
    let iv: [u8; 16] = iv.try_into().unwrap();
    let mut b: aes::Block = aes::Block::try_from(block).unwrap();
    let mut enc = cbc::Encryptor::<aes::Aes128>::new(&key.into(), &iv.into());
    enc.encrypt_block(&mut b);
    b.into()
}

/// Relies on cbc::Decryptor<aes::Aes128> (KeyIvInit::new, then
/// BlockModeDecrypt::decrypt_block): CBC decryption of one block inverts CBC
/// encryption under the same key and IV, and every 16-byte block is the
/// encryption of its decryption.
#[verifier::external_body]
pub fn aes128_cbc_decrypt_block(key: &[u8], iv: &[u8], block: &[u8]) -> (r: [u8; 16])
    requires
        key@.len() == 16,
        iv@.len() == 16,
        block@.len() == 16,
    ensures
        aes128_cbc_enc(key@, iv@, r@)@ == block@,
        forall|b: Seq<u8>| b.len() == 16 && block@ == aes128_cbc_enc(key@, iv@, b)@ ==> r@ == b,
{
    let key: [u8; 16] = key.try_into().unwrap();
    let iv: [u8; 16] = iv.try_into().unwrap();
    let mut b: aes::Block = aes::Block::try_from(block).unwrap();
    let mut dec = cbc::Decryptor::<aes::Aes128>::new(&key.into(), &iv.into());
    dec.decrypt_block(&mut b);
    b.into()
}

/// What bcrypt's verification returns for a candidate password against a
/// stored hash string: None where the stored hash is malformed, otherwise
/// whether the candidate matches. The hash string embeds salt and cost, so
/// the result is a function of the two strings alone.
pub uninterp spec fn bcrypt_verify_of(password: Seq<char>, hash: Seq<char>) -> Option<bool>;

/// Relies on bcrypt::verify: parses the stored hash, re-derives the key with
/// the embedded salt and cost, and compares in constant time.
#[verifier::external_body]
pub fn bcrypt_verify(password: &str, hash: &str) -> (r: Option<bool>)
    ensures
        r == bcrypt_verify_of(password@, hash@),
{
    bcrypt::verify(password, hash).ok()
}

/// Relies on bcrypt::hash: salts from the OS random source and hashes with
/// the given cost; bcrypt::verify accepts the produced hash string for the
/// same password.
#[verifier::external_body]
pub fn bcrypt_hash(password: &str, cost: u32) -> (r: Option<String>)
    requires
        4 <= cost <= 31,
    ensures
        r matches Some(h) ==> bcrypt_verify_of(password@, h@) == Some(true),
{
    bcrypt::hash(password, cost).ok()
}

} // verus!

//! The password hasher: the protocol-mandated legacy transform (SHA-256 over
//! pid, a fixed tag, and the cleartext, rendered as lower-case hex) and the
//! adaptive storage hash on top of it.
//!
//! The exact byte layout of the legacy transform is a compatibility contract
//! with external clients and must not change.

use vstd::prelude::*;
use vstd::bytes::{spec_u32_to_le_bytes, spec_u32_from_le_bytes, u32_to_le_bytes,
    lemma_auto_spec_u32_to_from_le_bytes};
use vstd::utf8::encode_utf8;
use vstd::string::StrSliceExecFns;
use crate::crypto::{sha256, sha256_of, bcrypt_verify, bcrypt_verify_of, bcrypt_hash};
use crate::encoding::{hex_of, hex_encode};

verus! {

/// The work factor of the adaptive storage hash.
pub const STORAGE_HASH_COST: u32 = 10;

/// The bytes the legacy transform digests: the pid as four little-endian
/// bytes, the fixed tag `02 65 43 46`, then the UTF-8 bytes of the cleartext.
pub open spec fn nintendo_message(pid: i32, cleartext: Seq<char>) -> Seq<u8> {
    spec_u32_to_le_bytes(pid as u32) + seq![0x02u8, 0x65u8, 0x43u8, 0x46u8] + encode_utf8(
        cleartext,
    )
}

/// The legacy hash as a string: lower-case hex of the SHA-256 digest of the
/// legacy message.
pub open spec fn nintendo_hash_chars(pid: i32, cleartext: Seq<char>) -> Seq<char> {
    hex_of(sha256_of(nintendo_message(pid, cleartext)))
}

/// What verifying a cleartext candidate against a stored adaptive hash
/// returns: the candidate is put through the legacy transform, then checked
/// by the adaptive scheme; None where the stored hash is malformed.
pub open spec fn spec_verify_cleartext(stored: Seq<char>, pid: i32, cleartext: Seq<char>)
    -> Option<bool> {
    bcrypt_verify_of(nintendo_hash_chars(pid, cleartext), stored)
}

/// The deterministic legacy transform of (pid, cleartext).
pub fn generate_nintendo_hash(pid: i32, text_password: &str) -> (r: String)
    ensures
        r@ == nintendo_hash_chars(pid, text_password@),
{
    let mut msg = u32_to_le_bytes(pid as u32);
    msg.push(0x02u8);
    msg.push(0x65u8);
    msg.push(0x43u8);
    msg.push(0x46u8);
    let mut pw_bytes = text_password.as_bytes_vec();
    msg.append(&mut pw_bytes);
    proof {
        assert(msg@ =~= nintendo_message(pid, text_password@));
    }
    let digest = sha256(msg.as_slice());
    hex_encode(digest.as_slice())
}

/// Derive the storable adaptive hash of a new password: legacy transform,
/// then the salted adaptive hash at the fixed cost. Every hash this returns
/// verifies against the same (pid, cleartext) pair.
pub fn generate_password(pid: i32, cleartext_password: &str) -> (r: Option<String>)
    ensures
        r matches Some(h) ==> bcrypt_verify_of(
            nintendo_hash_chars(pid, cleartext_password@),
            h@,
        ) == Some(true),
{
    let password = generate_nintendo_hash(pid, cleartext_password);
    bcrypt_hash(password.as_str(), STORAGE_HASH_COST)
}

/// Verify a cleartext candidate against a stored adaptive hash for the given
/// pid; a malformed stored hash is a verification failure (None), not a
/// crash.
pub fn verify_cleartext(stored: &str, pid: i32, cleartext: &str) -> (r: Option<bool>)
    ensures
        r == spec_verify_cleartext(stored@, pid, cleartext@),
{
    let candidate = generate_nintendo_hash(pid, cleartext);
    bcrypt_verify(candidate.as_str(), stored)
}

/// The legacy transform is a function of (pid, cleartext) alone: two hashes
/// of the same inputs are the same string.
pub proof fn lemma_nintendo_hash_deterministic(pid: i32, cleartext: Seq<char>, h1: Seq<char>,
    h2: Seq<char>)
    requires
        h1 == nintendo_hash_chars(pid, cleartext),
        h2 == nintendo_hash_chars(pid, cleartext),
    ensures
        h1 == h2,
{
}

/// Distinct pids digest distinct legacy messages for the same cleartext: the
/// pid is spliced into the hashed bytes, so hashes for different accounts are
/// not interchangeable below the digest.
pub proof fn lemma_nintendo_message_pid_sensitive(pid1: i32, pid2: i32, cleartext: Seq<char>)
    requires
        pid1 != pid2,
    ensures
        nintendo_message(pid1, cleartext) != nintendo_message(pid2, cleartext),
{
    lemma_auto_spec_u32_to_from_le_bytes();
    let m1 = nintendo_message(pid1, cleartext);
    let m2 = nintendo_message(pid2, cleartext);
    assert(((pid1 as u32) != (pid2 as u32))) by (bit_vector)
        requires
            pid1 != pid2,
    ;
    assert(m1.subrange(0, 4) =~= spec_u32_to_le_bytes(pid1 as u32));
    assert(m2.subrange(0, 4) =~= spec_u32_to_le_bytes(pid2 as u32));
    if m1 == m2 {
        assert(spec_u32_from_le_bytes(m1.subrange(0, 4)) == pid1 as u32);
        assert(spec_u32_from_le_bytes(m2.subrange(0, 4)) == pid2 as u32);
    }
}

/// Password correctness, storing side composed with verifying side: a stored
/// hash produced for (pid, cleartext) verifies as true for the same pair.
pub proof fn lemma_password_roundtrip(pid: i32, cleartext: Seq<char>, stored: Seq<char>)
    requires
        bcrypt_verify_of(nintendo_hash_chars(pid, cleartext), stored) == Some(true),
    ensures
        spec_verify_cleartext(stored, pid, cleartext) == Some(true),
{
}

} // verus!

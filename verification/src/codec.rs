//! The opaque-token codec: a fixed-layout 16-byte payload enciphered with one
//! AES-128-CBC block operation under a process-wide key and an all-zero IV
//! (kept for wire compatibility), then carried as standard base64.
//!
//! `decode` inverts `encode` for every payload, and accepts nothing but the
//! canonical encoding of some payload.

use vstd::prelude::*;
use vstd::bytes::*;
use vstd::slice::slice_subrange;
use crate::crypto::{aes128_cbc_enc, aes128_cbc_encrypt_block, aes128_cbc_decrypt_block};
use crate::encoding::{base64_of, base64_encode, base64_decode, hex_decode_spec, hex_decode};

verus! {

broadcast use vstd::array::group_array_axioms;

/// The plaintext of one cipher block: pid, nonce and session identifier, in
/// that order, little endian, 16 bytes with no padding.
#[derive(Clone, Copy, PartialEq, Eq, Structural, Debug)]
pub struct TokenData {
    pub pid: i32,
    pub random: i32,
    pub token_id: i64,
}

/// The exact 16-byte wire layout of a payload.
pub open spec fn payload_bytes(t: TokenData) -> Seq<u8> {
    spec_u32_to_le_bytes(t.pid as u32) + spec_u32_to_le_bytes(t.random as u32)
        + spec_u64_to_le_bytes(t.token_id as u64)
}

/// The payload a 16-byte block denotes.
pub open spec fn payload_of(b: Seq<u8>) -> TokenData
    recommends
        b.len() == 16,
{
    TokenData {
        pid: spec_u32_from_le_bytes(b.subrange(0, 4)) as i32,
        random: spec_u32_from_le_bytes(b.subrange(4, 8)) as i32,
        token_id: spec_u64_from_le_bytes(b.subrange(8, 16)) as i64,
    }
}

pub proof fn lemma_payload_bytes_len(t: TokenData)
    ensures
        payload_bytes(t).len() == 16,
{
    lemma_auto_spec_u32_to_from_le_bytes();
    lemma_auto_spec_u64_to_from_le_bytes();
}

/// Reading the wire layout back gives the payload it came from.
pub proof fn lemma_payload_roundtrip(t: TokenData)
    ensures
        payload_of(payload_bytes(t)) == t,
{
    lemma_auto_spec_u32_to_from_le_bytes();
    lemma_auto_spec_u64_to_from_le_bytes();
    let b = payload_bytes(t);
    assert(b.subrange(0, 4) =~= spec_u32_to_le_bytes(t.pid as u32));
    assert(b.subrange(4, 8) =~= spec_u32_to_le_bytes(t.random as u32));
    assert(b.subrange(8, 16) =~= spec_u64_to_le_bytes(t.token_id as u64));
    let p = t.pid;
    let rn = t.random;
    let tid = t.token_id;
    assert(((p as u32) as i32) == p) by (bit_vector);
    assert(((rn as u32) as i32) == rn) by (bit_vector);
    assert(((tid as u64) as i64) == tid) by (bit_vector);
}

/// Serializing the payload a 16-byte block denotes gives back the block.
pub proof fn lemma_bytes_roundtrip(b: Seq<u8>)
    requires
        b.len() == 16,
    ensures
        payload_bytes(payload_of(b)) == b,
{
    lemma_auto_spec_u32_to_from_le_bytes();
    lemma_auto_spec_u64_to_from_le_bytes();
    let x = spec_u32_from_le_bytes(b.subrange(0, 4));
    let y = spec_u32_from_le_bytes(b.subrange(4, 8));
    let z = spec_u64_from_le_bytes(b.subrange(8, 16));
    assert(((x as i32) as u32) == x) by (bit_vector);
    assert(((y as i32) as u32) == y) by (bit_vector);
    assert(((z as i64) as u64) == z) by (bit_vector);
    assert(payload_bytes(payload_of(b)) =~= b.subrange(0, 4) + b.subrange(4, 8) + b.subrange(
        8,
        16,
    ));
    assert(b.subrange(0, 4) + b.subrange(4, 8) + b.subrange(8, 16) =~= b);
}

/// Serialize a payload to its 16-byte wire layout.
pub fn payload_to_bytes(t: &TokenData) -> (r: Vec<u8>)
    ensures
        r@ == payload_bytes(*t),
        r@.len() == 16,
{
    proof {
        lemma_payload_bytes_len(*t);
    }
    let mut v = u32_to_le_bytes(t.pid as u32);
    let mut rnd = u32_to_le_bytes(t.random as u32);
    let mut tid = u64_to_le_bytes(t.token_id as u64);
    v.append(&mut rnd);
    v.append(&mut tid);
    v
}

/// Read a payload from its 16-byte wire layout.
pub fn bytes_to_payload(b: &[u8]) -> (r: TokenData)
    requires
        b@.len() == 16,
    ensures
        r == payload_of(b@),
{
    let pid_bytes = slice_subrange(b, 0, 4);
    let random_bytes = slice_subrange(b, 4, 8);
    let token_id_bytes = slice_subrange(b, 8, 16);
    TokenData {
        pid: u32_from_le_bytes(pid_bytes) as i32,
        random: u32_from_le_bytes(random_bytes) as i32,
        token_id: u64_from_le_bytes(token_id_bytes) as i64,
    }
}

/// The all-zero initialization vector every token is enciphered under.
pub open spec fn zero_iv() -> Seq<u8> {
    Seq::new(16, |i: int| 0u8)
}

fn zero_iv_vec() -> (r: Vec<u8>)
    ensures
        r@ == zero_iv(),
{
    let mut v: Vec<u8> = Vec::new();
    let mut i: usize = 0;
    while i < 16
        invariant
            i <= 16,
            v@.len() == i,
            forall|j: int| 0 <= j < i ==> v@[j] == 0u8,
        decreases 16 - i,
    {
        v.push(0u8);
        i = i + 1;
    }
    proof {
        assert(v@ =~= zero_iv());
    }
    v
}

/// The process-wide 128-bit token key, configured as 32 hex digits.
#[derive(Debug)]
pub struct AesKey {
    bytes: Vec<u8>,
}

impl View for AesKey {
    type V = Seq<u8>;

    closed spec fn view(&self) -> Seq<u8> {
        self.bytes@
    }
}

/// The key a hex configuration string denotes: defined exactly where the
/// string decodes to 16 bytes.
pub open spec fn key_of_hex(s: Seq<char>) -> Option<Seq<u8>> {
    match hex_decode_spec(s) {
        Some(b) => if b.len() == 16 {
            Some(b)
        } else {
            None
        },
        None => None,
    }
}

impl AesKey {
    pub open spec fn wf(&self) -> bool {
        self@.len() == 16
    }

    /// Parse the configured hex key; a missing or malformed key is fatal at
    /// startup, so the caller aborts on None.
    pub fn from_hex(s: &str) -> (r: Option<AesKey>)
        ensures
            r matches Some(k) ==> k.wf() && key_of_hex(s@) == Some(k@),
            r is Some <==> key_of_hex(s@) is Some,
    {
        match hex_decode(s) {
            Some(v) => {
                if v.len() == 16 {
                    Some(AesKey { bytes: v })
                } else {
                    None
                }
            },
            None => None,
        }
    }

    pub fn as_bytes(&self) -> (r: &[u8])
        ensures
            r@ == self@,
    {
        self.bytes.as_slice()
    }
}

/// The opaque string a payload encodes to under a key.
pub open spec fn spec_encode(key: Seq<u8>, t: TokenData) -> Seq<char> {
    base64_of(aes128_cbc_enc(key, zero_iv(), payload_bytes(t))@)
}

impl TokenData {
    /// Serialize, encipher the single block under the zero IV, base64-encode.
    pub fn encode(&self, key: &AesKey) -> (r: String)
        requires
            key.wf(),
        ensures
            r@ == spec_encode(key@, *self),
    {
        let bytes = payload_to_bytes(self);
        let iv = zero_iv_vec();
        let block = aes128_cbc_encrypt_block(key.as_bytes(), iv.as_slice(), bytes.as_slice());
        base64_encode(block.as_slice())
    }

    /// Base64-decode, reject anything but 16 bytes, decipher, reinterpret.
    /// Succeeds exactly on the canonical encoding of a payload, and then
    /// returns that payload: decoding inverts encoding.
    pub fn decode(token: &str, key: &AesKey) -> (r: Option<TokenData>)
        requires
            key.wf(),
        ensures
            r matches Some(t) ==> token@ == spec_encode(key@, t),
            forall|t: TokenData| token@ == spec_encode(key@, t) ==> r == Some(t),
    {
        let data = match base64_decode(token) {
            Some(v) => v,
            None => {
                return None;
            },
        };
        if data.len() != 16 {
            return None;
        }
        let iv = zero_iv_vec();
        let plain = aes128_cbc_decrypt_block(key.as_bytes(), iv.as_slice(), data.as_slice());
        let t = bytes_to_payload(plain.as_slice());
        proof {
            lemma_bytes_roundtrip(plain@);
            assert forall|q: TokenData| token@ == spec_encode(key@, q) implies Some(t) == Some(
                q,
            ) by {
                lemma_payload_bytes_len(q);
                lemma_payload_roundtrip(q);
            }
        }
        Some(t)
    }
}

} // verus!

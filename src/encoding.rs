//! Byte and text encodings, and the cryptographic primitives the library
//! relies on.
//!
//! Each primitive is a thin wrapper over an outside crate. Results that take
//! pages to specify (digests, signatures, checksummed text) are named by
//! uninterpreted spec functions; encodings that take a few lines to state are
//! stated.

use vstd::prelude::*;

use alloy_signer::SignerSync;
use base64::Engine;
use hmac::Mac;

verus! {

// ---------------------------------------------------------------------------
// Numbers as bytes and as text
// ---------------------------------------------------------------------------

/// Big-endian bytes of `n`, `len` of them (the value modulo `256^len`).
pub open spec fn be_bytes(n: nat, len: nat) -> Seq<u8>
    decreases len,
{
    if len == 0 {
        Seq::empty()
    } else {
        be_bytes(n / 256, (len - 1) as nat).push((n % 256) as u8)
    }
}

/// The number that big-endian bytes `b` stand for.
pub open spec fn be_value(b: Seq<u8>) -> nat
    decreases b.len(),
{
    if b.len() == 0 {
        0
    } else {
        be_value(b.drop_last()) * 256 + b.last() as nat
    }
}

pub open spec fn pow256(n: nat) -> nat
    decreases n,
{
    if n == 0 {
        1
    } else {
        256 * pow256((n - 1) as nat)
    }
}

/// `n` as `len` big-endian bytes.
pub fn be_bytes_of(n: u64, len: usize) -> (r: Vec<u8>)
    ensures
        r@ == be_bytes(n as nat, len as nat),
    decreases len,
{
    if len == 0 {
        Vec::new()
    } else {
        let mut v = be_bytes_of(n / 256, len - 1);
        v.push((n % 256) as u8);
        v
    }
}

pub open spec fn digit_char(d: nat) -> char {
    if d == 0 {
        '0'
    } else if d == 1 {
        '1'
    } else if d == 2 {
        '2'
    } else if d == 3 {
        '3'
    } else if d == 4 {
        '4'
    } else if d == 5 {
        '5'
    } else if d == 6 {
        '6'
    } else if d == 7 {
        '7'
    } else if d == 8 {
        '8'
    } else {
        '9'
    }
}

/// Decimal text of `n`: its digits, most significant first, no leading zero.
pub open spec fn decimal_text(n: nat) -> Seq<char>
    decreases n,
{
    if n < 10 {
        seq![digit_char(n)]
    } else {
        decimal_text(n / 10).push(digit_char(n % 10))
    }
}

pub open spec fn hex_char(d: nat) -> char {
    if d < 10 {
        digit_char(d)
    } else if d == 10 {
        'a'
    } else if d == 11 {
        'b'
    } else if d == 12 {
        'c'
    } else if d == 13 {
        'd'
    } else if d == 14 {
        'e'
    } else {
        'f'
    }
}

/// Lower-case hex text of `b`, two digits per byte.
pub open spec fn hex_text(b: Seq<u8>) -> Seq<char>
    decreases b.len(),
{
    if b.len() == 0 {
        Seq::empty()
    } else {
        hex_text(b.drop_last()) + seq![hex_char(b.last() as nat / 16), hex_char(b.last() as nat % 16)]
    }
}

/// `0x` followed by the lower-case hex text of `b`.
pub open spec fn prefixed_hex(b: Seq<u8>) -> Seq<char> {
    seq!['0', 'x'] + hex_text(b)
}

/// Text read as an unsigned decimal number: digits, with `_` allowed between them.
pub open spec fn decimal_digits_only(s: Seq<char>) -> bool {
    forall|i: int| 0 <= i < s.len() ==> ('0' <= #[trigger] s[i] <= '9' || s[i] == '_')
}

/// The number that decimal text stands for, `_` skipped.
pub open spec fn decimal_value(s: Seq<char>) -> nat
    decreases s.len(),
{
    if s.len() == 0 {
        0
    } else if s.last() == '_' {
        decimal_value(s.drop_last())
    } else {
        decimal_value(s.drop_last()) * 10 + ((s.last() as u32) - 48) as nat
    }
}

/// Relies on `u64`'s `Display` (through `to_string`): the decimal digits of the
/// number, no sign, no leading zero.
#[verifier::external_body]
pub fn u64_text(n: u64) -> (r: String)
    ensures
        r@ == decimal_text(n as nat),
{
    n.to_string()
}

/// Relies on `ruint::Uint::from_be_slice` and `Display`: the decimal digits of the
/// 256-bit number whose big-endian bytes are `b`.
#[verifier::external_body]
pub fn u256_text(b: &[u8]) -> (r: String)
    requires
        b@.len() == 32,
    ensures
        r@ == decimal_text(be_value(b@)),
{
    alloy_primitives::U256::from_be_slice(b).to_string()
}

/// Relies on `ruint::Uint::from_str_radix` with radix 10 and `to_be_bytes`: digits
/// with `_` skipped, accepted when the value fits 256 bits, as 32 big-endian bytes.
#[verifier::external_body]
pub fn parse_u256_decimal(s: &str) -> (r: Option<Vec<u8>>)
    ensures
        r is Some <==> (decimal_digits_only(s@) && decimal_value(s@) < pow256(32)),
        r is Some ==> r->Some_0@ == be_bytes(decimal_value(s@), 32),
{
    alloy_primitives::U256::from_str_radix(s, 10).ok().map(|v| v.to_be_bytes::<32>().to_vec())
}

/// Relies on `alloy_primitives::hex::encode_prefixed`: `0x` and two lower-case
/// hex digits per byte.
#[verifier::external_body]
pub fn encode_prefixed(b: &[u8]) -> (r: String)
    ensures
        r@ == prefixed_hex(b@),
{
    alloy_primitives::hex::encode_prefixed(b)
}

// ---------------------------------------------------------------------------
// Digests, checksums, signatures
// ---------------------------------------------------------------------------

/// The Keccak-256 digest of `data`.
pub uninterp spec fn keccak256_of(data: Seq<u8>) -> Seq<u8>;

/// Relies on `alloy_primitives::keccak256`: the 32-byte Keccak-256 digest.
#[verifier::external_body]
pub fn keccak256(data: &[u8]) -> (r: Vec<u8>)
    ensures
        r@ == keccak256_of(data@),
        r@.len() == 32,
{
    alloy_primitives::keccak256(data).to_vec()
}

/// The mixed-case checksummed text (`0x` and 40 hex digits) of a 20-byte address.
pub uninterp spec fn checksum_text_of(address: Seq<u8>) -> Seq<char>;

/// Relies on `alloy_primitives::Address`'s `Display`: the checksummed hex text.
#[verifier::external_body]
pub fn checksum_text(address: &[u8]) -> (r: String)
    requires
        address@.len() == 20,
    ensures
        r@ == checksum_text_of(address@),
{
    alloy_primitives::Address::from_slice(address).to_string()
}

/// The bytes that URL-safe base64 text without padding decodes to, if valid.
pub uninterp spec fn base64url_decoded_of(text: Seq<char>) -> Option<Seq<u8>>;

/// Relies on `base64`'s `URL_SAFE_NO_PAD` engine, `decode`.
#[verifier::external_body]
pub fn base64url_decode(text: &str) -> (r: Option<Vec<u8>>)
    ensures
        r is Some <==> base64url_decoded_of(text@) is Some,
        r is Some ==> r->Some_0@ == base64url_decoded_of(text@)->Some_0,
{
    base64::engine::general_purpose::URL_SAFE_NO_PAD.decode(text).ok()
}

/// URL-safe base64 text without padding of `data`.
pub uninterp spec fn base64url_text_of(data: Seq<u8>) -> Seq<char>;

/// Relies on `base64`'s `URL_SAFE_NO_PAD` engine, `encode`.
#[verifier::external_body]
pub fn base64url_encode(data: &[u8]) -> (r: String)
    ensures
        r@ == base64url_text_of(data@),
{
    base64::engine::general_purpose::URL_SAFE_NO_PAD.encode(data)
}

/// HMAC-SHA256 of `message` under `key`, if the key is accepted.
pub uninterp spec fn hmac_sha256_of(key: Seq<u8>, message: Seq<u8>) -> Option<Seq<u8>>;

/// Relies on `hmac::Hmac<sha2::Sha256>`: `new_from_slice`, `update`, `finalize`.
#[verifier::external_body]
pub fn hmac_sha256(key: &[u8], message: &[u8]) -> (r: Option<Vec<u8>>)
    ensures
        r is Some <==> hmac_sha256_of(key@, message@) is Some,
        r is Some ==> r->Some_0@ == hmac_sha256_of(key@, message@)->Some_0,
{
    let mut mac = <hmac::Hmac<sha2::Sha256> as Mac>::new_from_slice(key).ok()?;
    mac.update(message);
    Some(mac.finalize().into_bytes().to_vec())
}

/// The 20-byte address of a secp256k1 secret key, if the bytes are a valid key.
pub uninterp spec fn key_address_of(key: Seq<u8>) -> Option<Seq<u8>>;

/// Relies on `alloy_signer_local::PrivateKeySigner::from_slice` and `address`.
#[verifier::external_body]
pub fn key_address(key: &[u8]) -> (r: Option<Vec<u8>>)
    ensures
        r is Some <==> key_address_of(key@) is Some,
        r is Some ==> r->Some_0@ == key_address_of(key@)->Some_0 && r->Some_0@.len() == 20,
{
    let signer = alloy_signer_local::PrivateKeySigner::from_slice(key).ok()?;
    Some(signer.address().to_vec())
}

/// The 65-byte recoverable signature (r, s, v) of a 32-byte digest under a key,
/// if the bytes are a valid key; deterministic (RFC 6979).
pub uninterp spec fn signature_of(key: Seq<u8>, digest: Seq<u8>) -> Option<Seq<u8>>;

/// Relies on `alloy_signer_local::PrivateKeySigner::from_slice` and
/// `SignerSync::sign_hash_sync`, then `Signature::as_bytes`.
#[verifier::external_body]
pub fn sign_digest(key: &[u8], digest: &[u8]) -> (r: Option<Vec<u8>>)
    requires
        digest@.len() == 32,
    ensures
        r is Some <==> signature_of(key@, digest@) is Some,
        r is Some ==> r->Some_0@ == signature_of(key@, digest@)->Some_0,
{
    let signer = alloy_signer_local::PrivateKeySigner::from_slice(key).ok()?;
    let hash = alloy_primitives::B256::from_slice(digest);
    signer.sign_hash_sync(&hash).ok().map(|s| s.as_bytes().to_vec())
}

} // verus!

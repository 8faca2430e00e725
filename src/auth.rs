//! Request authentication: the one-time wallet-signature headers (L1) used to
//! obtain API credentials, and the per-request HMAC headers (L2).

use crate::eip712::{
    clob_auth_encoding, domain_separator, domain_separator_hash, hash_clob_auth,
    typed_data_digest, typed_data_hash,
};
use crate::encoding::{
    digit_char, base64url_decode, base64url_decoded_of, base64url_encode, base64url_text_of, be_value,
    decimal_text, encode_prefixed, hmac_sha256, hmac_sha256_of, keccak256_of, key_address,
    key_address_of, prefixed_hex, sign_digest, signature_of, u256_text, u64_text,
};
use crate::order::DOMAIN_VERSION;
use crate::types::{ClobError, Credentials};
use vstd::prelude::*;
use vstd::string::*;
use vstd::utf8::encode_utf8;

verus! {

/// Header carrying the wallet address.
pub const POLY_ADDR_HEADER: &'static str = "POLY_ADDRESS";

/// Header carrying the signature.
pub const POLY_SIG_HEADER: &'static str = "POLY_SIGNATURE";

/// Header carrying the request time in Unix seconds.
pub const POLY_TS_HEADER: &'static str = "POLY_TIMESTAMP";

/// Header carrying the attestation nonce.
pub const POLY_NONCE_HEADER: &'static str = "POLY_NONCE";

/// Header carrying the API key.
pub const POLY_API_KEY_HEADER: &'static str = "POLY_API_KEY";

/// Header carrying the API passphrase.
pub const POLY_PASS_HEADER: &'static str = "POLY_PASSPHRASE";

/// EIP-712 domain name of the credential attestation.
pub const CLOB_AUTH_DOMAIN_NAME: &'static str = "ClobAuthDomain";

/// The fixed attestation text that the wallet signs.
pub const CLOB_AUTH_MESSAGE: &'static str = "This message attests that I control the given wallet";

/// The digest that an attestation signature covers.
pub open spec fn clob_auth_digest(address: Seq<u8>, timestamp: Seq<char>, nonce: Seq<u8>, chain_id: nat) -> Seq<u8> {
    typed_data_digest(
        domain_separator(CLOB_AUTH_DOMAIN_NAME@, DOMAIN_VERSION@, chain_id, None),
        keccak256_of(clob_auth_encoding(address, timestamp, nonce, CLOB_AUTH_MESSAGE@)),
    )
}

/// Signs the attestation that the holder of `signer` controls its address, at
/// `timestamp` with `nonce` (32 big-endian bytes), for `chain_id`.
pub fn sign_clob_auth_message(signer: &[u8], timestamp: &str, nonce: &[u8], chain_id: u64) -> (r: Result<String, ClobError>)
    ensures
        match key_address_of(signer@) {
            None => r == Err::<String, ClobError>(ClobError::InvalidKey),
            Some(a) => match signature_of(
                signer@,
                clob_auth_digest(a, timestamp@, nonce@, chain_id as nat),
            ) {
                Some(sig) => r is Ok && r->Ok_0@ == prefixed_hex(sig),
                None => r == Err::<String, ClobError>(ClobError::SigningFailed),
            },
        },
{
    let address = match key_address(signer) {
        Some(a) => a,
        None => {
            return Err(ClobError::InvalidKey);
        },
    };
    let domain = domain_separator_hash(CLOB_AUTH_DOMAIN_NAME, DOMAIN_VERSION, chain_id, None);
    let s = hash_clob_auth(address.as_slice(), timestamp, nonce, CLOB_AUTH_MESSAGE);
    let hash = typed_data_hash(domain.as_slice(), s.as_slice());
    match sign_digest(signer, hash.as_slice()) {
        Some(sig) => Ok(encode_prefixed(sig.as_slice())),
        None => Err(ClobError::SigningFailed),
    }
}

/// Builds the four L1 headers: address, attestation signature, timestamp and
/// nonce (zero where none is given).
pub fn create_l1_headers(signer: &[u8], chain_id: u64, nonce: Option<Vec<u8>>, timestamp: u64) -> (r: Result<Vec<(&'static str, String)>, ClobError>)
    requires
        nonce matches Some(n) ==> n@.len() == 32,
    ensures
        ({
            let n = match nonce {
                Some(n) => n@,
                None => Seq::new(32, |i: int| 0u8),
            };
            match key_address_of(signer@) {
                None => r == Err::<Vec<(&'static str, String)>, ClobError>(ClobError::InvalidKey),
                Some(a) => match signature_of(
                    signer@,
                    clob_auth_digest(a, decimal_text(timestamp as nat), n, chain_id as nat),
                ) {
                    None => r == Err::<Vec<(&'static str, String)>, ClobError>(
                        ClobError::SigningFailed,
                    ),
                    Some(sig) => r is Ok && r->Ok_0@.len() == 4 && r->Ok_0@[0].0 == POLY_ADDR_HEADER
                        && r->Ok_0@[0].1@ == prefixed_hex(a) && r->Ok_0@[1].0 == POLY_SIG_HEADER
                        && r->Ok_0@[1].1@ == prefixed_hex(sig) && r->Ok_0@[2].0 == POLY_TS_HEADER
                        && r->Ok_0@[2].1@ == decimal_text(timestamp as nat) && r->Ok_0@[3].0
                        == POLY_NONCE_HEADER && r->Ok_0@[3].1@ == decimal_text(be_value(n)),
                },
            }
        }),
{
    let ts = u64_text(timestamp);
    let ghost n = match &nonce {
        Some(v) => v@,
        None => Seq::new(32, |i: int| 0u8),
    };
    let nonce_val: Vec<u8> = match nonce {
        Some(n) => n,
        None => vec![0u8; 32],
    };
    assert(nonce_val@ =~= n);
    let signature = match sign_clob_auth_message(signer, ts.as_str(), nonce_val.as_slice(), chain_id) {
        Ok(s) => s,
        Err(e) => {
            return Err(e);
        },
    };
    let address = match key_address(signer) {
        Some(a) => a,
        None => {
            return Err(ClobError::InvalidKey);
        },
    };
    let mut headers: Vec<(&'static str, String)> = Vec::new();
    headers.push((POLY_ADDR_HEADER, encode_prefixed(address.as_slice())));
    headers.push((POLY_SIG_HEADER, signature));
    headers.push((POLY_TS_HEADER, ts));
    headers.push((POLY_NONCE_HEADER, u256_text(nonce_val.as_slice())));
    Ok(headers)
}

/// The text that the L2 HMAC covers: timestamp, method, path, then the
/// compact JSON body where there is one.
pub open spec fn hmac_message(timestamp: u64, method: Seq<char>, path: Seq<char>, body: Seq<char>) -> Seq<char> {
    decimal_text(timestamp as nat) + method + path + body
}

/// The body text that a request contributes: empty where there is none.
pub open spec fn body_text(body: Option<&str>) -> Seq<char> {
    match body {
        Some(b) => b@,
        None => Seq::empty(),
    }
}

/// What the L2 signature is for given inputs.
pub open spec fn hmac_outcome(secret: Seq<char>, timestamp: u64, method: Seq<char>, path: Seq<char>, body: Seq<char>, r: Result<String, ClobError>) -> bool {
    match base64url_decoded_of(secret) {
        None => r == Err::<String, ClobError>(ClobError::InvalidSecret),
        Some(key) => match hmac_sha256_of(key, encode_utf8(hmac_message(timestamp, method, path, body))) {
            None => r == Err::<String, ClobError>(ClobError::HmacFailed),
            Some(mac) => r is Ok && r->Ok_0@ == base64url_text_of(mac),
        },
    }
}

/// Builds the L2 HMAC signature: HMAC-SHA256 keyed with the base64url-decoded
/// secret over `timestamp ‖ method ‖ path ‖ body`, base64url-encoded without
/// padding. `body` is the request's compact JSON text, if it has a body.
pub fn build_hmac_signature(secret: &str, timestamp: u64, method: &str, req_path: &str, body: Option<&str>) -> (r: Result<String, ClobError>)
    ensures
        hmac_outcome(secret@, timestamp, method@, req_path@, body_text(body), r),
{
    let key = match base64url_decode(secret) {
        Some(k) => k,
        None => {
            return Err(ClobError::InvalidSecret);
        },
    };
    let mut message = u64_text(timestamp);
    message.append(method);
    message.append(req_path);
    match body {
        Some(b) => {
            message.append(b);
        },
        None => {},
    }
    assert(message@ =~= hmac_message(timestamp, method@, req_path@, body_text(body)));
    let bytes = message.as_str().as_bytes();
    match hmac_sha256(key.as_slice(), bytes) {
        Some(mac) => Ok(base64url_encode(mac.as_slice())),
        None => Err(ClobError::HmacFailed),
    }
}

/// Builds the five L2 headers: address, HMAC signature, timestamp, API key and
/// passphrase.
pub fn create_l2_headers(signer: &[u8], api_creds: &Credentials, method: &str, req_path: &str, body: Option<&str>, timestamp: u64) -> (r: Result<Vec<(&'static str, String)>, ClobError>)
    ensures
        key_address_of(signer@) is None ==> r == Err::<Vec<(&'static str, String)>, ClobError>(
            ClobError::InvalidKey,
        ),
        key_address_of(signer@) is Some ==> {
            let a = key_address_of(signer@)->Some_0;
            match base64url_decoded_of(api_creds.secret@) {
                None => r == Err::<Vec<(&'static str, String)>, ClobError>(
                    ClobError::InvalidSecret,
                ),
                Some(key) => match hmac_sha256_of(
                    key,
                    encode_utf8(hmac_message(timestamp, method@, req_path@, body_text(body))),
                ) {
                    None => r == Err::<Vec<(&'static str, String)>, ClobError>(
                        ClobError::HmacFailed,
                    ),
                    Some(mac) => r is Ok && r->Ok_0@.len() == 5 && r->Ok_0@[0].0 == POLY_ADDR_HEADER
                        && r->Ok_0@[0].1@ == prefixed_hex(a) && r->Ok_0@[1].0 == POLY_SIG_HEADER
                        && r->Ok_0@[1].1@ == base64url_text_of(mac) && r->Ok_0@[2].0
                        == POLY_TS_HEADER && r->Ok_0@[2].1@ == decimal_text(timestamp as nat)
                        && r->Ok_0@[3].0 == POLY_API_KEY_HEADER && r->Ok_0@[3].1@
                        == api_creds.api_key@ && r->Ok_0@[4].0 == POLY_PASS_HEADER
                        && r->Ok_0@[4].1@ == api_creds.passphrase@,
                },
            }
        },
{
    let address = match key_address(signer) {
        Some(a) => a,
        None => {
            return Err(ClobError::InvalidKey);
        },
    };
    let signature = match build_hmac_signature(
        api_creds.secret.as_str(),
        timestamp,
        method,
        req_path,
        body,
    ) {
        Ok(s) => s,
        Err(e) => {
            return Err(e);
        },
    };
    let mut headers: Vec<(&'static str, String)> = Vec::new();
    headers.push((POLY_ADDR_HEADER, encode_prefixed(address.as_slice())));
    headers.push((POLY_SIG_HEADER, signature));
    headers.push((POLY_TS_HEADER, u64_text(timestamp)));
    headers.push((POLY_API_KEY_HEADER, api_creds.api_key.clone()));
    headers.push((POLY_PASS_HEADER, api_creds.passphrase.clone()));
    Ok(headers)
}

/// The L2 signature is deterministic: the same secret, timestamp, method,
/// path and body give the same outcome.
pub proof fn lemma_hmac_deterministic(
    secret: Seq<char>,
    timestamp: u64,
    method: Seq<char>,
    path: Seq<char>,
    body: Seq<char>,
    r1: Result<String, ClobError>,
    r2: Result<String, ClobError>,
)
    requires
        hmac_outcome(secret, timestamp, method, path, body, r1),
        hmac_outcome(secret, timestamp, method, path, body, r2),
    ensures
        r1 is Ok <==> r2 is Ok,
        r1 is Ok ==> r1->Ok_0@ == r2->Ok_0@,
        r1 is Err ==> r1 == r2,
{
}

proof fn lemma_digit_char_injective(x: nat, y: nat)
    requires
        x < 10,
        y < 10,
        digit_char(x) == digit_char(y),
    ensures
        x == y,
{
}

proof fn lemma_encode_injective(x: Seq<char>, y: Seq<char>)
    requires
        encode_utf8(x) == encode_utf8(y),
    ensures
        x == y,
{
    vstd::utf8::encode_utf8_decode_utf8(x);
    vstd::utf8::encode_utf8_decode_utf8(y);
}

proof fn lemma_decimal_text_len(n: nat)
    ensures
        decimal_text(n).len() >= 1,
        n >= 10 ==> decimal_text(n).len() >= 2,
    decreases n,
{
    if n >= 10 {
        lemma_decimal_text_len(n / 10);
    }
}

/// Different numbers have different decimal texts.
pub proof fn lemma_decimal_text_injective(a: nat, b: nat)
    requires
        decimal_text(a) == decimal_text(b),
    ensures
        a == b,
    decreases a,
{
    lemma_decimal_text_len(a);
    lemma_decimal_text_len(b);
    if a < 10 && b < 10 {
        assert(decimal_text(a) == seq![digit_char(a)]);
        assert(decimal_text(b) == seq![digit_char(b)]);
        assert(seq![digit_char(a)][0] == digit_char(a));
        assert(seq![digit_char(b)][0] == digit_char(b));
        lemma_digit_char_injective(a, b);
    } else if a >= 10 && b >= 10 {
        let ta = decimal_text(a);
        let tb = decimal_text(b);
        assert(ta.last() == tb.last());
        assert(ta.drop_last() =~= decimal_text(a / 10));
        assert(tb.drop_last() =~= decimal_text(b / 10));
        lemma_decimal_text_injective(a / 10, b / 10);
        lemma_digit_char_injective(a % 10, b % 10);
    } else {
        lemma_decimal_text_len(a / 10);
        lemma_decimal_text_len(b / 10);
    }
}

proof fn lemma_cancel_sides(a: Seq<char>, x: Seq<char>, y: Seq<char>, c: Seq<char>)
    requires
        a + x + c == a + y + c,
    ensures
        x == y,
{
    let l = a + x + c;
    assert((a + x + c).len() == a.len() + x.len() + c.len());
    assert((a + y + c).len() == a.len() + y.len() + c.len());
    assert(x.len() == y.len());
    assert(x =~= l.subrange(a.len() as int, (a.len() + x.len()) as int));
    assert(y =~= (a + y + c).subrange(a.len() as int, (a.len() + y.len()) as int));
}

/// Changing any one of timestamp, method, path or body, the others kept,
/// changes the bytes that the HMAC covers.
pub proof fn lemma_hmac_message_changes(
    t1: u64,
    t2: u64,
    m1: Seq<char>,
    m2: Seq<char>,
    p1: Seq<char>,
    p2: Seq<char>,
    b1: Seq<char>,
    b2: Seq<char>,
)
    ensures
        t1 != t2 ==> encode_utf8(hmac_message(t1, m1, p1, b1)) != encode_utf8(
            hmac_message(t2, m1, p1, b1),
        ),
        m1 != m2 ==> encode_utf8(hmac_message(t1, m1, p1, b1)) != encode_utf8(
            hmac_message(t1, m2, p1, b1),
        ),
        p1 != p2 ==> encode_utf8(hmac_message(t1, m1, p1, b1)) != encode_utf8(
            hmac_message(t1, m1, p2, b1),
        ),
        b1 != b2 ==> encode_utf8(hmac_message(t1, m1, p1, b1)) != encode_utf8(
            hmac_message(t1, m1, p1, b2),
        ),
{
    let d1 = decimal_text(t1 as nat);
    let d2 = decimal_text(t2 as nat);
    let e = Seq::<char>::empty();
    if t1 != t2 && encode_utf8(hmac_message(t1, m1, p1, b1)) == encode_utf8(hmac_message(t2, m1, p1, b1)) {
        lemma_encode_injective(hmac_message(t1, m1, p1, b1), hmac_message(t2, m1, p1, b1));
        let rest = m1 + p1 + b1;
        assert(hmac_message(t1, m1, p1, b1) =~= e + d1 + rest);
        assert(hmac_message(t2, m1, p1, b1) =~= e + d2 + rest);
        lemma_cancel_sides(e, d1, d2, rest);
        lemma_decimal_text_injective(t1 as nat, t2 as nat);
    }
    if m1 != m2 && encode_utf8(hmac_message(t1, m1, p1, b1)) == encode_utf8(hmac_message(t1, m2, p1, b1)) {
        lemma_encode_injective(hmac_message(t1, m1, p1, b1), hmac_message(t1, m2, p1, b1));
        assert(hmac_message(t1, m1, p1, b1) =~= d1 + m1 + (p1 + b1));
        assert(hmac_message(t1, m2, p1, b1) =~= d1 + m2 + (p1 + b1));
        lemma_cancel_sides(d1, m1, m2, p1 + b1);
    }
    if p1 != p2 && encode_utf8(hmac_message(t1, m1, p1, b1)) == encode_utf8(hmac_message(t1, m1, p2, b1)) {
        lemma_encode_injective(hmac_message(t1, m1, p1, b1), hmac_message(t1, m1, p2, b1));
        lemma_cancel_sides(d1 + m1, p1, p2, b1);
    }
    if b1 != b2 && encode_utf8(hmac_message(t1, m1, p1, b1)) == encode_utf8(hmac_message(t1, m1, p1, b2)) {
        lemma_encode_injective(hmac_message(t1, m1, p1, b1), hmac_message(t1, m1, p1, b2));
        assert(hmac_message(t1, m1, p1, b1) =~= d1 + m1 + p1 + b1 + e);
        assert(hmac_message(t1, m1, p1, b2) =~= d1 + m1 + p1 + b2 + e);
        lemma_cancel_sides(d1 + m1 + p1, b1, b2, e);
    }
}

} // verus!

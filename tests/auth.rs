use alloy_primitives::{Address, Signature, B256};
use clob::{
    build_hmac_signature, create_l1_headers, create_l2_headers, sign_clob_auth_message,
    ClobError, Credentials, POLY_ADDR_HEADER, POLY_API_KEY_HEADER, POLY_NONCE_HEADER,
    POLY_PASS_HEADER, POLY_SIG_HEADER, POLY_TS_HEADER,
};

fn key_one() -> Vec<u8> {
    let mut k = vec![0u8; 32];
    k[31] = 1;
    k
}

const KEY_ONE_ADDRESS: &str = "0x7e5f4552091a69125d5dfcb7b8c2659029395bdf";

#[test]
fn hmac_signature_golden_value() {
    let r = build_hmac_signature("c2VjcmV0", 1700000000, "POST", "/order", Some("{\"a\":1}"));
    assert_eq!(r, Ok("RG08Lr_BXWneCX42aD1tpDtvA9AAzyktUouVy2A61gk".to_string()));
}

#[test]
fn hmac_signature_without_body() {
    let r = build_hmac_signature("c2VjcmV0", 1700000000, "POST", "/order", None);
    assert_eq!(r, Ok("rBy3T9h1LIAP8e7RrKuC5F5CevNv_ztQ7akfyk-TdvE".to_string()));
}

#[test]
fn hmac_signature_is_deterministic() {
    let a = build_hmac_signature("c2VjcmV0", 1700000000, "POST", "/order", Some("{\"a\":1}"));
    let b = build_hmac_signature("c2VjcmV0", 1700000000, "POST", "/order", Some("{\"a\":1}"));
    assert_eq!(a, b);
}

#[test]
fn hmac_signature_changes_with_any_input() {
    let base = build_hmac_signature("c2VjcmV0", 1700000000, "POST", "/order", Some("{\"a\":1}"))
        .unwrap();
    let other_ts =
        build_hmac_signature("c2VjcmV0", 1700000001, "POST", "/order", Some("{\"a\":1}"));
    assert_eq!(other_ts, Ok("KiJ4AliXtR_Oik8GFn8Sbuypc6espHoKW7tyBFmxq-I".to_string()));
    let other_method =
        build_hmac_signature("c2VjcmV0", 1700000000, "GET", "/order", Some("{\"a\":1}"));
    assert_eq!(other_method, Ok("ok8gl0I518FTlebci98Ngaau-7SYQ6SD9dOVzTAbjlo".to_string()));
    let other_path =
        build_hmac_signature("c2VjcmV0", 1700000000, "POST", "/ordes", Some("{\"a\":1}"))
            .unwrap();
    assert_ne!(other_path, base);
    let other_body =
        build_hmac_signature("c2VjcmV0", 1700000000, "POST", "/order", Some("{\"a\":2}"))
            .unwrap();
    assert_ne!(other_body, base);
    let other_secret =
        build_hmac_signature("c2VjcmV1", 1700000000, "POST", "/order", Some("{\"a\":1}"))
            .unwrap();
    assert_ne!(other_secret, base);
}

#[test]
fn hmac_signature_rejects_malformed_secret() {
    let r = build_hmac_signature("not base64!", 1, "GET", "/", None);
    assert_eq!(r, Err(ClobError::InvalidSecret));
    // padding is refused
    let r = build_hmac_signature("c2VjcmV0cw==", 1, "GET", "/", None);
    assert_eq!(r, Err(ClobError::InvalidSecret));
}

#[test]
fn l2_headers_carry_credentials() {
    let creds = Credentials::new("my-key".to_string(), "c2VjcmV0".to_string(), "pp".to_string());
    let h = create_l2_headers(&key_one(), &creds, "POST", "/order", Some("{\"a\":1}"), 1700000000)
        .unwrap();
    assert_eq!(h.len(), 5);
    assert_eq!(h[0], (POLY_ADDR_HEADER, KEY_ONE_ADDRESS.to_string()));
    assert_eq!(
        h[1],
        (POLY_SIG_HEADER, "RG08Lr_BXWneCX42aD1tpDtvA9AAzyktUouVy2A61gk".to_string())
    );
    assert_eq!(h[2], (POLY_TS_HEADER, "1700000000".to_string()));
    assert_eq!(h[3], (POLY_API_KEY_HEADER, "my-key".to_string()));
    assert_eq!(h[4], (POLY_PASS_HEADER, "pp".to_string()));
}

#[test]
fn l2_headers_reject_invalid_key() {
    let creds = Credentials::new("k".to_string(), "c2VjcmV0".to_string(), "p".to_string());
    let r = create_l2_headers(&[0u8; 32], &creds, "GET", "/", None, 1);
    assert_eq!(r, Err(ClobError::InvalidKey));
}

#[test]
fn l1_headers_fields() {
    let h = create_l1_headers(&key_one(), 137, None, 1700000000).unwrap();
    assert_eq!(h.len(), 4);
    assert_eq!(h[0], (POLY_ADDR_HEADER, KEY_ONE_ADDRESS.to_string()));
    assert_eq!(h[1].0, POLY_SIG_HEADER);
    assert!(h[1].1.starts_with("0x"));
    assert_eq!(h[1].1.len(), 2 + 130);
    assert_eq!(h[2], (POLY_TS_HEADER, "1700000000".to_string()));
    assert_eq!(h[3], (POLY_NONCE_HEADER, "0".to_string()));
    let mut nonce = vec![0u8; 32];
    nonce[30] = 1;
    nonce[31] = 2;
    let h2 = create_l1_headers(&key_one(), 137, Some(nonce), 1700000000).unwrap();
    assert_eq!(h2[3], (POLY_NONCE_HEADER, "258".to_string()));
    assert_ne!(h2[1], h[1]);
}

#[test]
fn clob_auth_signature_is_deterministic_and_recoverable() {
    let nonce = vec![0u8; 32];
    let a = sign_clob_auth_message(&key_one(), "1700000000", &nonce, 137).unwrap();
    let b = sign_clob_auth_message(&key_one(), "1700000000", &nonce, 137).unwrap();
    assert_eq!(a, b);
    let c = sign_clob_auth_message(&key_one(), "1700000001", &nonce, 137).unwrap();
    assert_ne!(a, c);

    // recompute the digest with alloy's domain and check who signed
    let domain = alloy_sol_types::Eip712Domain::new(
        Some("ClobAuthDomain".into()),
        Some("1".into()),
        Some(alloy_primitives::U256::from(137u64)),
        None,
        None,
    );
    let type_hash = alloy_primitives::keccak256(
        "ClobAuth(address address,string timestamp,uint256 nonce,string message)",
    );
    let mut enc = type_hash.to_vec();
    enc.extend_from_slice(&[0u8; 12]);
    enc.extend_from_slice(Address::from_slice(&hex_bytes(&KEY_ONE_ADDRESS[2..])).as_slice());
    enc.extend_from_slice(alloy_primitives::keccak256("1700000000").as_slice());
    enc.extend_from_slice(&nonce);
    enc.extend_from_slice(
        alloy_primitives::keccak256("This message attests that I control the given wallet")
            .as_slice(),
    );
    let struct_hash = alloy_primitives::keccak256(&enc);
    let mut pre = vec![0x19u8, 0x01u8];
    pre.extend_from_slice(domain.separator().as_slice());
    pre.extend_from_slice(struct_hash.as_slice());
    let digest: B256 = alloy_primitives::keccak256(&pre);
    let sig = Signature::try_from(hex_bytes(&a[2..]).as_slice()).unwrap();
    let who = sig.recover_address_from_prehash(&digest).unwrap();
    assert_eq!(format!("{who:?}").to_lowercase(), KEY_ONE_ADDRESS);
}

#[test]
fn clob_auth_rejects_invalid_key() {
    let r = sign_clob_auth_message(&[0u8; 32], "1", &[0u8; 32], 137);
    assert_eq!(r, Err(ClobError::InvalidKey));
}

fn hex_bytes(s: &str) -> Vec<u8> {
    (0..s.len()).step_by(2).map(|i| u8::from_str_radix(&s[i..i + 2], 16).unwrap()).collect()
}

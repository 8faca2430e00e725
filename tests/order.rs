use alloy_signer::SignerSync;
use clob::eip712::{domain_separator_hash, hash_order};
use clob::encoding::{
    base64url_decode, base64url_encode, checksum_text, encode_prefixed, keccak256,
    parse_u256_decimal, u256_text, u64_text,
};
use clob::order::{exchange_contract_address, order_signing_hash, seed_from_random};
use clob::{
    create_order, create_order_with_salt, generate_seed, sign_order_message, ClobError, Decimal,
    Order, OrderKind, OrderParams, OrderSide, SignatureType, POLYGON_MAINNET_CHAIN_ID,
};

fn key_one() -> Vec<u8> {
    let mut k = vec![0u8; 32];
    k[31] = 1;
    k
}

fn key_one_address() -> Vec<u8> {
    hex_bytes("7e5f4552091a69125d5dfcb7b8c2659029395bdf")
}

fn hex_bytes(s: &str) -> Vec<u8> {
    (0..s.len()).step_by(2).map(|i| u8::from_str_radix(&s[i..i + 2], 16).unwrap()).collect()
}

fn params(token_id: &str, tick: &str, wallet: Vec<u8>) -> OrderParams {
    OrderParams {
        token_id: token_id.to_string(),
        price: Decimal::new(65, 2),
        side: OrderSide::Buy,
        nonce: None,
        fee_rate_bps: None,
        expiration: None,
        taker: None,
        funder: None,
        tick_size: tick.to_string(),
        kind: OrderKind::Limit { size: Decimal::new(500, 0) },
        sig_type: SignatureType::Eoa,
        neg_risk: false,
        wallet,
    }
}

fn sample_order() -> Order {
    let mut token = vec![0u8; 32];
    token[31] = 123;
    Order {
        salt: 42,
        maker: key_one_address(),
        signer: key_one_address(),
        taker: vec![0u8; 20],
        token_id: token,
        maker_amount: 325_000_000,
        taker_amount: 500_000_000,
        expiration: 0,
        nonce: vec![0u8; 32],
        fee_rate_bps: 0,
        side: 0,
        signature_type: 0,
    }
}

#[test]
fn domain_separator_matches_alloy() {
    let contract = exchange_contract_address(false);
    let ours = domain_separator_hash(
        "Polymarket CTF Exchange",
        "1",
        POLYGON_MAINNET_CHAIN_ID,
        Some(&contract),
    );
    let domain = alloy_sol_types::Eip712Domain::new(
        Some("Polymarket CTF Exchange".into()),
        Some("1".into()),
        Some(alloy_primitives::U256::from(137u64)),
        Some(alloy_primitives::Address::from_slice(&contract)),
        None,
    );
    assert_eq!(ours, domain.separator().to_vec());
    let no_contract = domain_separator_hash("ClobAuthDomain", "1", 137, None);
    let domain = alloy_sol_types::Eip712Domain::new(
        Some("ClobAuthDomain".into()),
        Some("1".into()),
        Some(alloy_primitives::U256::from(137u64)),
        None,
        None,
    );
    assert_eq!(no_contract, domain.separator().to_vec());
}

#[test]
fn exchange_contracts() {
    assert_eq!(
        checksum_text(&exchange_contract_address(false)),
        "0x4bFb41d5B3570DeFd03C39a9A4D8dE6Bd8B8982E"
    );
    assert_eq!(
        checksum_text(&exchange_contract_address(true)),
        "0xC5d563A36AE78145C45a50134d48A1215220f80a"
    );
}

#[test]
fn order_signature_round_trip() {
    let order = sample_order();
    let contract = exchange_contract_address(false);
    let a = sign_order_message(&key_one(), &order, &contract).unwrap();
    let b = sign_order_message(&key_one(), &sample_order(), &contract).unwrap();
    assert_eq!(a, b);

    // recompute the digest from the same field values with alloy's domain
    let domain = alloy_sol_types::Eip712Domain::new(
        Some("Polymarket CTF Exchange".into()),
        Some("1".into()),
        Some(alloy_primitives::U256::from(137u64)),
        Some(alloy_primitives::Address::from_slice(&contract)),
        None,
    );
    let mut pre = vec![0x19u8, 0x01u8];
    pre.extend_from_slice(domain.separator().as_slice());
    pre.extend_from_slice(&hash_order(&order));
    let digest = alloy_primitives::keccak256(&pre);
    assert_eq!(order_signing_hash(&order, &contract), digest.to_vec());

    let signer = alloy_signer_local::PrivateKeySigner::from_slice(&key_one()).unwrap();
    let direct = signer.sign_hash_sync(&digest).unwrap();
    assert_eq!(a, alloy_primitives::hex::encode_prefixed(direct.as_bytes()));
    let who = direct.recover_address_from_prehash(&digest).unwrap();
    assert_eq!(who.to_vec(), key_one_address());
}

#[test]
fn order_signature_depends_on_contract() {
    let order = sample_order();
    let a = sign_order_message(&key_one(), &order, &exchange_contract_address(false)).unwrap();
    let b = sign_order_message(&key_one(), &order, &exchange_contract_address(true)).unwrap();
    assert_ne!(a, b);
}

#[test]
fn order_signature_rejects_invalid_key() {
    let r = sign_order_message(&[0u8; 32], &sample_order(), &exchange_contract_address(false));
    assert_eq!(r, Err(ClobError::SigningFailed));
}

#[test]
fn create_order_fields() {
    let req = create_order_with_salt(params("123", "0.01", key_one()), 42).unwrap();
    assert_eq!(req.salt, 42);
    assert_eq!(req.maker, "0x7E5F4552091A69125d5DfCb7b8C2659029395Bdf");
    assert_eq!(req.signer, "0x7E5F4552091A69125d5DfCb7b8C2659029395Bdf");
    assert_eq!(req.taker, "0x0000000000000000000000000000000000000000");
    assert_eq!(req.token_id, "123");
    assert_eq!(req.maker_amount, "325000000");
    assert_eq!(req.taker_amount, "500000000");
    assert_eq!(req.expiration, "0");
    assert_eq!(req.nonce, "0");
    assert_eq!(req.fee_rate_bps, "0");
    assert_eq!(req.side, OrderSide::Buy);
    assert_eq!(req.signature_type, 0);
    let expected =
        sign_order_message(&key_one(), &sample_order(), &exchange_contract_address(false))
            .unwrap();
    assert_eq!(req.signature, expected);
}

#[test]
fn create_order_uses_given_fields() {
    let mut p = params("123", "0.01", key_one());
    let funder = vec![0x11u8; 20];
    let mut nonce = vec![0u8; 32];
    nonce[31] = 9;
    p.funder = Some(funder);
    p.taker = Some(vec![0x22u8; 20]);
    p.nonce = Some(nonce);
    p.fee_rate_bps = Some(15);
    p.expiration = Some(1_800_000_000);
    p.sig_type = SignatureType::PolyGnosisSafe;
    p.neg_risk = true;
    let req = create_order_with_salt(p, 5).unwrap();
    assert_eq!(req.maker, checksum_text(&[0x11u8; 20]));
    assert_eq!(req.signer, "0x7E5F4552091A69125d5DfCb7b8C2659029395Bdf");
    assert_eq!(req.taker, checksum_text(&[0x22u8; 20]));
    assert_eq!(req.nonce, "9");
    assert_eq!(req.fee_rate_bps, "15");
    assert_eq!(req.expiration, "1800000000");
    assert_eq!(req.signature_type, 2);
}

#[test]
fn create_order_errors() {
    let r = create_order_with_salt(params("123", "0.5", key_one()), 1);
    assert_eq!(r.unwrap_err(), ClobError::InvalidTickSize);
    let r = create_order_with_salt(params("12a", "0.01", key_one()), 1);
    assert_eq!(r.unwrap_err(), ClobError::InvalidTokenId);
    let too_big =
        "115792089237316195423570985008687907853269984665640564039457584007913129639936";
    let r = create_order_with_salt(params(too_big, "0.01", key_one()), 1);
    assert_eq!(r.unwrap_err(), ClobError::InvalidTokenId);
    let mut big = params("123", "0.01", key_one());
    big.kind = OrderKind::Limit { size: Decimal::new(5000, 0) };
    let r = create_order_with_salt(big, 1);
    assert_eq!(r.unwrap_err(), ClobError::AmountOutOfRange);
    let r = create_order_with_salt(params("123", "0.01", vec![0u8; 32]), 1);
    assert_eq!(r.unwrap_err(), ClobError::InvalidKey);
}

#[test]
fn create_order_salt_is_bounded_by_time() {
    let req = create_order(params("123", "0.01", key_one()), 1_700_000_000).unwrap();
    assert!(req.salt <= 1_700_000_000);
    assert_eq!(req.maker_amount, "325000000");
}

#[test]
fn seed_from_random_values() {
    assert_eq!(seed_from_random(1000, 0), 0);
    assert_eq!(seed_from_random(1000, 1 << 63), 500);
    assert_eq!(seed_from_random(1000, u64::MAX), 999);
    assert_eq!(seed_from_random(0, u64::MAX), 0);
    for _ in 0..20 {
        assert!(generate_seed(1_700_000_000) <= 1_700_000_000);
    }
}

#[test]
fn text_encodings() {
    assert_eq!(u64_text(0), "0");
    assert_eq!(u64_text(u64::MAX), "18446744073709551615");
    assert_eq!(encode_prefixed(&[0xde, 0xad, 0x01]), "0xdead01");
    let mut w = vec![0u8; 32];
    w[30] = 1;
    assert_eq!(u256_text(&w), "256");
    assert_eq!(u256_text(&[0xffu8; 32]), "115792089237316195423570985008687907853269984665640564039457584007913129639935");
}

#[test]
fn u256_parsing() {
    let mut w = vec![0u8; 32];
    w[30] = 0x03;
    w[31] = 0xe8;
    assert_eq!(parse_u256_decimal("1000"), Some(w.clone()));
    assert_eq!(parse_u256_decimal("1_000"), Some(w));
    assert_eq!(parse_u256_decimal("-1"), None);
    assert_eq!(parse_u256_decimal(" 1"), None);
    assert_eq!(parse_u256_decimal("12a"), None);
}

#[test]
fn digests_and_base64() {
    assert_eq!(
        encode_prefixed(&keccak256(&[])),
        "0xc5d2460186f7233c927e7db2dcc703c0e500b653ca82273b7bfad8045d85a470"
    );
    assert_eq!(base64url_encode(b"secret"), "c2VjcmV0");
    assert_eq!(base64url_decode("c2VjcmV0"), Some(b"secret".to_vec()));
    assert_eq!(base64url_encode(&[0xfb, 0xff]), "-_8");
    assert_eq!(base64url_decode("c2VjcmV0cw=="), None);
}

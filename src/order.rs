//! Building and signing orders.

use crate::amounts::{amounts_in_range, order_amounts, try_calculate_order_amounts};
use crate::decimal::Decimal;
use crate::eip712::{
    append_bytes, domain_separator, domain_separator_hash, hash_order, order_struct_hash,
    typed_data_digest, typed_data_hash, Order, OrderFields,
};
use crate::encoding::{
    be_bytes, be_value, checksum_text, checksum_text_of, decimal_digits_only, decimal_text,
    decimal_value, encode_prefixed, key_address, key_address_of, parse_u256_decimal, pow256,
    prefixed_hex, sign_digest, signature_of, u256_text, u64_text,
};
use crate::types::{
    tick_size_of, ClobError, OrderKind, OrderSide, SignatureType, SignedOrderRequest, TickSize,
};
use vstd::prelude::*;

verus! {

/// Chain id of Polygon mainnet.
pub const POLYGON_MAINNET_CHAIN_ID: u64 = 137;

/// EIP-712 domain name of the exchange contracts.
pub const EXCHANGE_DOMAIN_NAME: &'static str = "Polymarket CTF Exchange";

/// EIP-712 domain version used throughout.
pub const DOMAIN_VERSION: &'static str = "1";

/// The settlement contract that verifies orders: the neg-risk exchange for
/// neg-risk markets, the main exchange otherwise.
pub open spec fn exchange_contract(neg_risk: bool) -> Seq<u8> {
    if neg_risk {
        seq![
            0xc5u8, 0xd5u8, 0x63u8, 0xa3u8, 0x6au8, 0xe7u8, 0x81u8, 0x45u8, 0xc4u8, 0x5au8,
            0x50u8, 0x13u8, 0x4du8, 0x48u8, 0xa1u8, 0x21u8, 0x52u8, 0x20u8, 0xf8u8, 0x0au8,
        ]
    } else {
        seq![
            0x4bu8, 0xfbu8, 0x41u8, 0xd5u8, 0xb3u8, 0x57u8, 0x0du8, 0xefu8, 0xd0u8, 0x3cu8,
            0x39u8, 0xa9u8, 0xa4u8, 0xd8u8, 0xdeu8, 0x6bu8, 0xd8u8, 0xb8u8, 0x98u8, 0x2eu8,
        ]
    }
}

/// The address of the settlement contract for a market.
pub fn exchange_contract_address(neg_risk: bool) -> (r: Vec<u8>)
    ensures
        r@ == exchange_contract(neg_risk),
        r@.len() == 20,
{
    let r = if neg_risk {
        vec![
            0xc5u8, 0xd5u8, 0x63u8, 0xa3u8, 0x6au8, 0xe7u8, 0x81u8, 0x45u8, 0xc4u8, 0x5au8,
            0x50u8, 0x13u8, 0x4du8, 0x48u8, 0xa1u8, 0x21u8, 0x52u8, 0x20u8, 0xf8u8, 0x0au8,
        ]
    } else {
        vec![
            0x4bu8, 0xfbu8, 0x41u8, 0xd5u8, 0xb3u8, 0x57u8, 0x0du8, 0xefu8, 0xd0u8, 0x3cu8,
            0x39u8, 0xa9u8, 0xa4u8, 0xd8u8, 0xdeu8, 0x6bu8, 0xd8u8, 0xb8u8, 0x98u8, 0x2eu8,
        ]
    };
    assert(r@ =~= exchange_contract(neg_risk));
    r
}

/// The digest that an order's signature covers, under the exchange domain
/// with the given verifying contract.
pub open spec fn order_digest(o: OrderFields, contract: Seq<u8>) -> Seq<u8> {
    typed_data_digest(
        domain_separator(
            EXCHANGE_DOMAIN_NAME@,
            DOMAIN_VERSION@,
            POLYGON_MAINNET_CHAIN_ID as nat,
            Some(contract),
        ),
        order_struct_hash(o),
    )
}

/// Computes the digest that an order's signature covers.
pub fn order_signing_hash(order: &Order, verifying_contract: &[u8]) -> (r: Vec<u8>)
    ensures
        r@ == order_digest(order@, verifying_contract@),
        r@.len() == 32,
{
    let domain = domain_separator_hash(
        EXCHANGE_DOMAIN_NAME,
        DOMAIN_VERSION,
        POLYGON_MAINNET_CHAIN_ID,
        Some(verifying_contract),
    );
    let s = hash_order(order);
    typed_data_hash(domain.as_slice(), s.as_slice())
}

/// Signs an order for the given verifying contract; the signature is
/// `0x`-prefixed hex of its 65 bytes.
pub fn sign_order_message(signer: &[u8], order: &Order, verifying_contract: &[u8]) -> (r: Result<String, ClobError>)
    ensures
        match signature_of(signer@, order_digest(order@, verifying_contract@)) {
            Some(sig) => r is Ok && r->Ok_0@ == prefixed_hex(sig),
            None => r == Err::<String, ClobError>(ClobError::SigningFailed),
        },
{
    let hash = order_signing_hash(order, verifying_contract);
    match sign_digest(signer, hash.as_slice()) {
        Some(sig) => Ok(encode_prefixed(sig.as_slice())),
        None => Err(ClobError::SigningFailed),
    }
}

/// Denominator of a uniform draw in `[0, 1)` made from 53 random bits.
pub const UNIT_DENOMINATOR: u128 = 0x20_0000_0000_0000;

/// The salt `floor(timestamp * u)` where `u` is the uniform draw in `[0, 1)`
/// made from the top 53 of `random_bits`.
pub open spec fn seed_value(timestamp: u64, random_bits: u64) -> nat {
    (timestamp as nat * (random_bits as nat / 2048)) / (UNIT_DENOMINATOR as nat)
}

/// Computes the salt from a timestamp and 64 random bits.
pub fn seed_from_random(timestamp: u64, random_bits: u64) -> (r: u64)
    ensures
        r == seed_value(timestamp, random_bits),
        r <= timestamp,
{
    let u: u128 = (random_bits / 2048) as u128;
    let t: u128 = timestamp as u128;
    assert(u < UNIT_DENOMINATOR);
    assert(t * u <= t * UNIT_DENOMINATOR) by (nonlinear_arith)
        requires
            u < UNIT_DENOMINATOR,
    ;
    assert(t * UNIT_DENOMINATOR <= 0xffff_ffff_ffff_ffffu128 * UNIT_DENOMINATOR) by (nonlinear_arith)
        requires
            t <= 0xffff_ffff_ffff_ffffu128,
    ;
    let p = t * u;
    let s = p / UNIT_DENOMINATOR;
    assert(s <= t) by (nonlinear_arith)
        requires
            s == p / UNIT_DENOMINATOR,
            p <= t * UNIT_DENOMINATOR,
    ;
    s as u64
}

pub assume_specification<T>[ rand::random::<T> ]() -> T
    where
        rand::distr::StandardUniform: rand::distr::Distribution<T>,
;

/// Draws a salt: `floor(timestamp * u)` for a uniform `u` in `[0, 1)`.
pub fn generate_seed(timestamp: u64) -> (r: u64)
    ensures
        r <= timestamp,
{
    let bits: u64 = rand::random::<u64>();
    seed_from_random(timestamp, bits)
}

/// Everything needed to build and sign one order.
///
/// Addresses are 20 bytes; `nonce` is 32 big-endian bytes; `wallet` is the
/// 32-byte secp256k1 secret key of the signer.
pub struct OrderParams {
    pub token_id: String,
    pub price: Decimal,
    pub side: OrderSide,
    pub nonce: Option<Vec<u8>>,
    pub fee_rate_bps: Option<u32>,
    pub expiration: Option<u64>,
    pub taker: Option<Vec<u8>>,
    pub funder: Option<Vec<u8>>,
    pub tick_size: String,
    pub kind: OrderKind,
    pub sig_type: SignatureType,
    pub neg_risk: bool,
    pub wallet: Vec<u8>,
}

impl OrderParams {
    /// Addresses are 20 bytes and the nonce 32.
    pub open spec fn wf(&self) -> bool {
        &&& (self.nonce matches Some(n) ==> n@.len() == 32)
        &&& (self.taker matches Some(t) ==> t@.len() == 20)
        &&& (self.funder matches Some(f) ==> f@.len() == 20)
    }

    pub open spec fn nonce_bytes(&self) -> Seq<u8> {
        match self.nonce {
            Some(n) => n@,
            None => Seq::new(32, |i: int| 0u8),
        }
    }

    pub open spec fn taker_bytes(&self) -> Seq<u8> {
        match self.taker {
            Some(t) => t@,
            None => Seq::new(20, |i: int| 0u8),
        }
    }

    pub open spec fn funder_bytes(&self, signer: Seq<u8>) -> Seq<u8> {
        match self.funder {
            Some(f) => f@,
            None => signer,
        }
    }

    pub open spec fn fee_or_zero(&self) -> nat {
        match self.fee_rate_bps {
            Some(f) => f as nat,
            None => 0,
        }
    }

    pub open spec fn expiration_or_zero(&self) -> nat {
        match self.expiration {
            Some(e) => e as nat,
            None => 0,
        }
    }
}

/// The order record built from parameters, a salt, the signer's address, the
/// parsed tick size and the token id's 32 bytes.
pub open spec fn order_fields_of(p: OrderParams, salt: u64, signer: Seq<u8>, tick: TickSize, token: Seq<u8>) -> OrderFields {
    let amounts = order_amounts(p.price, p.side, p.kind, tick);
    OrderFields {
        salt: salt as nat,
        maker: p.funder_bytes(signer),
        signer,
        taker: p.taker_bytes(),
        token_id: token,
        maker_amount: amounts.0,
        taker_amount: amounts.1,
        expiration: p.expiration_or_zero(),
        nonce: p.nonce_bytes(),
        fee_rate_bps: p.fee_or_zero(),
        side: p.side.code() as nat,
        signature_type: p.sig_type.code() as nat,
    }
}

/// The wire request carries the record `o` as text, and the signature `sig`.
pub open spec fn request_matches(r: SignedOrderRequest, o: OrderFields, token_text: Seq<char>, side: OrderSide, sig: Seq<u8>) -> bool {
    &&& r.salt as nat == o.salt
    &&& r.maker@ == checksum_text_of(o.maker)
    &&& r.signer@ == checksum_text_of(o.signer)
    &&& r.taker@ == checksum_text_of(o.taker)
    &&& r.token_id@ == token_text
    &&& r.maker_amount@ == decimal_text(o.maker_amount)
    &&& r.taker_amount@ == decimal_text(o.taker_amount)
    &&& r.expiration@ == decimal_text(o.expiration)
    &&& r.nonce@ == decimal_text(be_value(o.nonce))
    &&& r.fee_rate_bps@ == decimal_text(o.fee_rate_bps)
    &&& r.side == side
    &&& r.signature_type as nat == o.signature_type
    &&& r.signature@ == prefixed_hex(sig)
}

/// The token id text is a decimal number that fits 256 bits.
pub open spec fn token_id_valid(s: Seq<char>) -> bool {
    decimal_digits_only(s) && decimal_value(s) < pow256(32)
}

/// What building an order with a given salt yields.
pub open spec fn order_outcome(p: OrderParams, salt: u64, r: Result<SignedOrderRequest, ClobError>) -> bool {
    match tick_size_of(p.tick_size@) {
        None => r == Err::<SignedOrderRequest, ClobError>(ClobError::InvalidTickSize),
        Some(tick) => {
            if !amounts_in_range(p.price, p.side, p.kind, tick) {
                r == Err::<SignedOrderRequest, ClobError>(ClobError::AmountOutOfRange)
            } else {
                match key_address_of(p.wallet@) {
                    None => r == Err::<SignedOrderRequest, ClobError>(ClobError::InvalidKey),
                    Some(signer) => {
                        if !token_id_valid(p.token_id@) {
                            r == Err::<SignedOrderRequest, ClobError>(ClobError::InvalidTokenId)
                        } else {
                            let o = order_fields_of(
                                p,
                                salt,
                                signer,
                                tick,
                                be_bytes(decimal_value(p.token_id@), 32),
                            );
                            let digest = order_digest(o, exchange_contract(p.neg_risk));
                            match signature_of(p.wallet@, digest) {
                                Some(sig) => r is Ok && request_matches(
                                    r->Ok_0,
                                    o,
                                    p.token_id@,
                                    p.side,
                                    sig,
                                ),
                                None => r == Err::<SignedOrderRequest, ClobError>(
                                    ClobError::SigningFailed,
                                ),
                            }
                        }
                    },
                }
            }
        },
    }
}

fn copy_bytes(b: &[u8]) -> (r: Vec<u8>)
    ensures
        r@ == b@,
{
    let mut r: Vec<u8> = Vec::new();
    append_bytes(&mut r, b);
    assert(r@ =~= b@);
    r
}

/// Builds and signs an order with the given salt.
pub fn create_order_with_salt(params: OrderParams, salt: u64) -> (r: Result<SignedOrderRequest, ClobError>)
    requires
        params.wf(),
    ensures
        order_outcome(params, salt, r),
{
    let ghost p = params;
    let OrderParams {
        token_id,
        price,
        side,
        nonce,
        fee_rate_bps,
        expiration,
        taker,
        funder,
        tick_size,
        kind,
        sig_type,
        neg_risk,
        wallet,
    } = params;
    let tick = match TickSize::parse(tick_size.as_str()) {
        Ok(t) => t,
        Err(_) => {
            return Err(ClobError::InvalidTickSize);
        },
    };
    let (maker_amount, taker_amount) = match try_calculate_order_amounts(price, side, kind, tick) {
        Some(a) => a,
        None => {
            return Err(ClobError::AmountOutOfRange);
        },
    };
    let signer = match key_address(wallet.as_slice()) {
        Some(a) => a,
        None => {
            return Err(ClobError::InvalidKey);
        },
    };
    let token = match parse_u256_decimal(token_id.as_str()) {
        Some(t) => t,
        None => {
            return Err(ClobError::InvalidTokenId);
        },
    };
    let nonce: Vec<u8> = match nonce {
        Some(n) => n,
        None => vec![0u8; 32],
    };
    let taker: Vec<u8> = match taker {
        Some(t) => t,
        None => vec![0u8; 20],
    };
    let maker: Vec<u8> = match funder {
        Some(f) => f,
        None => copy_bytes(signer.as_slice()),
    };
    let fee_rate_bps: u32 = match fee_rate_bps {
        Some(f) => f,
        None => 0,
    };
    let expiration: u64 = match expiration {
        Some(e) => e,
        None => 0,
    };
    let order = Order {
        salt,
        maker,
        signer,
        taker,
        token_id: token,
        maker_amount,
        taker_amount,
        expiration,
        nonce,
        fee_rate_bps,
        side: side.to_u8(),
        signature_type: sig_type.to_u8(),
    };
    let ghost o = order_fields_of(p, salt, order.signer@, tick, order.token_id@);
    assert(order@.nonce =~= o.nonce);
    assert(order@.taker =~= o.taker);
    assert(order@ == o);
    let contract = exchange_contract_address(neg_risk);
    let signature = match sign_order_message(wallet.as_slice(), &order, contract.as_slice()) {
        Ok(s) => s,
        Err(e) => {
            return Err(e);
        },
    };
    Ok(
        SignedOrderRequest {
            salt,
            maker: checksum_text(order.maker.as_slice()),
            signer: checksum_text(order.signer.as_slice()),
            taker: checksum_text(order.taker.as_slice()),
            token_id,
            maker_amount: u64_text(maker_amount as u64),
            taker_amount: u64_text(taker_amount as u64),
            expiration: u64_text(expiration),
            nonce: u256_text(order.nonce.as_slice()),
            fee_rate_bps: u64_text(fee_rate_bps as u64),
            side,
            signature_type: sig_type.to_u8(),
            signature,
        },
    )
}

/// Builds and signs an order, drawing its salt from `timestamp` and a random
/// source; apart from the salt the result is that of [`create_order_with_salt`].
pub fn create_order(params: OrderParams, timestamp: u64) -> (r: Result<SignedOrderRequest, ClobError>)
    requires
        params.wf(),
    ensures
        exists|salt: u64| salt <= timestamp && order_outcome(params, salt, r),
{
    let salt = generate_seed(timestamp);
    let r = create_order_with_salt(params, salt);
    assert(salt <= timestamp && order_outcome(params, salt, r));
    r
}

/// Signing is reproducible: an order signed under a fixed key, and the digest
/// recomputed independently from the same field values, agree, so the two
/// signatures are the same.
pub proof fn lemma_order_signature_reproducible(o1: Order, o2: Order, contract: Seq<u8>, key: Seq<u8>)
    requires
        o1@ == o2@,
    ensures
        order_digest(o1@, contract) == order_digest(o2@, contract),
        signature_of(key, order_digest(o1@, contract)) == signature_of(
            key,
            order_digest(o2@, contract),
        ),
{
}

} // verus!

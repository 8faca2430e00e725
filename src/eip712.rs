//! EIP-712 typed-data hashing of the two signed structs: the exchange's
//! `Order` and the `ClobAuth` attestation.
//!
//! Every field is one 32-byte word: unsigned integers big-endian, addresses
//! left-padded with zeros, strings replaced by the Keccak-256 of their UTF-8
//! bytes. A struct hashes to the Keccak-256 of its type hash followed by its
//! words; the digest that gets signed is `keccak256(0x19 0x01 ‖ domain ‖ struct)`.

use crate::encoding::{be_bytes, be_bytes_of, keccak256, keccak256_of};
use vstd::prelude::*;
use vstd::utf8::encode_utf8;

verus! {

pub const DOMAIN_TYPE: &'static str = "EIP712Domain(string name,string version,uint256 chainId)";

pub const DOMAIN_WITH_CONTRACT_TYPE: &'static str =
    "EIP712Domain(string name,string version,uint256 chainId,address verifyingContract)";

pub const ORDER_TYPE: &'static str = "Order(uint256 salt,address maker,address signer,address taker,uint256 tokenId,uint256 makerAmount,uint256 takerAmount,uint256 expiration,uint256 nonce,uint256 feeRateBps,uint8 side,uint8 signatureType)";

pub const CLOB_AUTH_TYPE: &'static str =
    "ClobAuth(address address,string timestamp,uint256 nonce,string message)";

/// The canonical order record that the settlement contract verifies.
///
/// Addresses are 20 bytes; `token_id` and `nonce` are 256-bit numbers held as
/// 32 big-endian bytes.
#[derive(Debug, Clone)]
pub struct Order {
    pub salt: u64,
    pub maker: Vec<u8>,
    pub signer: Vec<u8>,
    pub taker: Vec<u8>,
    pub token_id: Vec<u8>,
    pub maker_amount: u32,
    pub taker_amount: u32,
    pub expiration: u64,
    pub nonce: Vec<u8>,
    pub fee_rate_bps: u32,
    pub side: u8,
    pub signature_type: u8,
}

/// The field values of an order, as the hashing reads them.
pub struct OrderFields {
    pub salt: nat,
    pub maker: Seq<u8>,
    pub signer: Seq<u8>,
    pub taker: Seq<u8>,
    pub token_id: Seq<u8>,
    pub maker_amount: nat,
    pub taker_amount: nat,
    pub expiration: nat,
    pub nonce: Seq<u8>,
    pub fee_rate_bps: nat,
    pub side: nat,
    pub signature_type: nat,
}

impl View for Order {
    type V = OrderFields;

    open spec fn view(&self) -> OrderFields {
        OrderFields {
            salt: self.salt as nat,
            maker: self.maker@,
            signer: self.signer@,
            taker: self.taker@,
            token_id: self.token_id@,
            maker_amount: self.maker_amount as nat,
            taker_amount: self.taker_amount as nat,
            expiration: self.expiration as nat,
            nonce: self.nonce@,
            fee_rate_bps: self.fee_rate_bps as nat,
            side: self.side as nat,
            signature_type: self.signature_type as nat,
        }
    }
}

impl Order {
    pub open spec fn wf(&self) -> bool {
        &&& self.maker@.len() == 20
        &&& self.signer@.len() == 20
        &&& self.taker@.len() == 20
        &&& self.token_id@.len() == 32
        &&& self.nonce@.len() == 32
    }
}

/// Keccak-256 of the UTF-8 bytes of a text.
pub open spec fn text_hash(s: Seq<char>) -> Seq<u8> {
    keccak256_of(encode_utf8(s))
}

/// The word of an unsigned integer.
pub open spec fn uint_word(n: nat) -> Seq<u8> {
    be_bytes(n, 32)
}

/// The word of a 20-byte address: twelve zero bytes, then the address.
pub open spec fn address_word(a: Seq<u8>) -> Seq<u8> {
    Seq::new(12, |i: int| 0u8) + a
}

/// The domain separator of a domain with name, version, chain id and, where
/// given, a verifying contract.
pub open spec fn domain_separator(name: Seq<char>, version: Seq<char>, chain_id: nat, contract: Option<Seq<u8>>) -> Seq<u8> {
    match contract {
        None => keccak256_of(
            text_hash(DOMAIN_TYPE@) + text_hash(name) + text_hash(version) + uint_word(chain_id),
        ),
        Some(c) => keccak256_of(
            text_hash(DOMAIN_WITH_CONTRACT_TYPE@) + text_hash(name) + text_hash(version)
                + uint_word(chain_id) + address_word(c),
        ),
    }
}

/// The digest to sign for a struct hash under a domain separator.
pub open spec fn typed_data_digest(domain: Seq<u8>, struct_hash: Seq<u8>) -> Seq<u8> {
    keccak256_of(seq![0x19u8, 0x01u8] + domain + struct_hash)
}

/// The type hash and field words of an order.
pub open spec fn order_encoding(o: OrderFields) -> Seq<u8> {
    text_hash(ORDER_TYPE@) + uint_word(o.salt) + address_word(o.maker) + address_word(o.signer)
        + address_word(o.taker) + o.token_id + uint_word(o.maker_amount) + uint_word(
        o.taker_amount,
    ) + uint_word(o.expiration) + o.nonce + uint_word(o.fee_rate_bps) + uint_word(o.side)
        + uint_word(o.signature_type)
}

pub open spec fn order_struct_hash(o: OrderFields) -> Seq<u8> {
    keccak256_of(order_encoding(o))
}

/// The type hash and field words of a `ClobAuth` attestation.
pub open spec fn clob_auth_encoding(address: Seq<u8>, timestamp: Seq<char>, nonce: Seq<u8>, message: Seq<char>) -> Seq<u8> {
    text_hash(CLOB_AUTH_TYPE@) + address_word(address) + text_hash(timestamp) + nonce + text_hash(
        message,
    )
}

/// Appends `b` to `buf`.
pub fn append_bytes(buf: &mut Vec<u8>, b: &[u8])
    ensures
        final(buf)@ == old(buf)@ + b@,
{
    let ghost start = buf@;
    let mut i: usize = 0;
    while i < b.len()
        invariant
            0 <= i <= b@.len(),
            buf@ == start + b@.subrange(0, i as int),
        decreases b@.len() - i,
    {
        buf.push(b[i]);
        i = i + 1;
        assert(b@.subrange(0, i as int) =~= b@.subrange(0, (i - 1) as int).push(b@[i - 1]));
    }
    assert(b@.subrange(0, b@.len() as int) =~= b@);
}

/// Keccak-256 of the UTF-8 bytes of `s`.
pub fn hash_text(s: &str) -> (r: Vec<u8>)
    ensures
        r@ == text_hash(s@),
        r@.len() == 32,
{
    keccak256(s.as_bytes())
}

/// Appends the word of `n`.
fn append_uint_word(buf: &mut Vec<u8>, n: u64)
    ensures
        final(buf)@ == old(buf)@ + uint_word(n as nat),
{
    let w = be_bytes_of(n, 32);
    append_bytes(buf, w.as_slice());
}

/// Appends the word of an address.
fn append_address_word(buf: &mut Vec<u8>, a: &[u8])
    ensures
        final(buf)@ == old(buf)@ + address_word(a@),
{
    let zeros: Vec<u8> = vec![0u8; 12];
    assert(zeros@ =~= Seq::new(12, |i: int| 0u8));
    append_bytes(buf, zeros.as_slice());
    append_bytes(buf, a);
    assert(old(buf)@ + zeros@ + a@ =~= old(buf)@ + address_word(a@));
}

/// Computes the domain separator of a domain.
pub fn domain_separator_hash(name: &str, version: &str, chain_id: u64, contract: Option<&[u8]>) -> (r: Vec<u8>)
    ensures
        r@ == domain_separator(
            name@,
            version@,
            chain_id as nat,
            match contract {
                Some(c) => Some(c@),
                None => None,
            },
        ),
        r@.len() == 32,
{
    let mut buf: Vec<u8> = match contract {
        Some(_) => hash_text(DOMAIN_WITH_CONTRACT_TYPE),
        None => hash_text(DOMAIN_TYPE),
    };
    let n = hash_text(name);
    append_bytes(&mut buf, n.as_slice());
    let v = hash_text(version);
    append_bytes(&mut buf, v.as_slice());
    append_uint_word(&mut buf, chain_id);
    match contract {
        Some(c) => {
            append_address_word(&mut buf, c);
        },
        None => {},
    }
    keccak256(buf.as_slice())
}

/// Computes the digest to sign for a struct hash under a domain separator.
pub fn typed_data_hash(domain: &[u8], struct_hash: &[u8]) -> (r: Vec<u8>)
    ensures
        r@ == typed_data_digest(domain@, struct_hash@),
        r@.len() == 32,
{
    let mut buf: Vec<u8> = Vec::new();
    buf.push(0x19u8);
    buf.push(0x01u8);
    assert(buf@ =~= seq![0x19u8, 0x01u8]);
    append_bytes(&mut buf, domain);
    append_bytes(&mut buf, struct_hash);
    keccak256(buf.as_slice())
}

/// Computes the struct hash of an order.
pub fn hash_order(o: &Order) -> (r: Vec<u8>)
    ensures
        r@ == order_struct_hash(o@),
        r@.len() == 32,
{
    let mut buf = hash_text(ORDER_TYPE);
    append_uint_word(&mut buf, o.salt);
    append_address_word(&mut buf, o.maker.as_slice());
    append_address_word(&mut buf, o.signer.as_slice());
    append_address_word(&mut buf, o.taker.as_slice());
    append_bytes(&mut buf, o.token_id.as_slice());
    append_uint_word(&mut buf, o.maker_amount as u64);
    append_uint_word(&mut buf, o.taker_amount as u64);
    append_uint_word(&mut buf, o.expiration);
    append_bytes(&mut buf, o.nonce.as_slice());
    append_uint_word(&mut buf, o.fee_rate_bps as u64);
    append_uint_word(&mut buf, o.side as u64);
    append_uint_word(&mut buf, o.signature_type as u64);
    keccak256(buf.as_slice())
}

/// Computes the struct hash of a `ClobAuth` attestation.
pub fn hash_clob_auth(address: &[u8], timestamp: &str, nonce: &[u8], message: &str) -> (r: Vec<u8>)
    ensures
        r@ == keccak256_of(clob_auth_encoding(address@, timestamp@, nonce@, message@)),
        r@.len() == 32,
{
    let mut buf = hash_text(CLOB_AUTH_TYPE);
    append_address_word(&mut buf, address);
    let t = hash_text(timestamp);
    append_bytes(&mut buf, t.as_slice());
    append_bytes(&mut buf, nonce);
    let m = hash_text(message);
    append_bytes(&mut buf, m.as_slice());
    keccak256(buf.as_slice())
}

} // verus!

//! Order construction, amount conversion and request authentication for a
//! central-limit-order-book exchange that settles on an EVM chain.
//!
//! - [`amounts`]: price and size rounding under a market's tick size, and the
//!   integer maker and taker token amounts of an order.
//! - [`decimal`]: non-negative fixed-point decimals and their rounding rules.
//! - [`eip712`]: typed-data hashing of the signed structs.
//! - [`order`]: the canonical order record, its salt and its signature.
//! - [`auth`]: wallet-signature (L1) and HMAC (L2) request headers.
//! - [`encoding`]: byte and text encodings, and the outside primitives used.

pub mod amounts;
pub mod auth;
pub mod decimal;
pub mod eip712;
pub mod encoding;
pub mod order;
pub mod types;

pub use amounts::calculate_order_amounts;
pub use auth::{
    build_hmac_signature, create_l1_headers, create_l2_headers, sign_clob_auth_message,
    POLY_ADDR_HEADER, POLY_API_KEY_HEADER, POLY_NONCE_HEADER, POLY_PASS_HEADER, POLY_SIG_HEADER,
    POLY_TS_HEADER,
};
pub use decimal::Decimal;
pub use eip712::Order;
pub use order::{
    create_order, create_order_with_salt, generate_seed, sign_order_message, OrderParams,
    POLYGON_MAINNET_CHAIN_ID,
};
pub use types::{
    ClobError, Credentials, OrderKind, OrderSide, OrderType, PostOrder, RoundConfig,
    SignatureType, SignedOrderRequest, TickSize,
};

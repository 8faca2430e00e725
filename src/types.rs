//! Plain data types of the order model.

use crate::decimal::Decimal;
use vstd::prelude::*;
use vstd::string::*;

verus! {

/// Side of an order: which leg is given up and which is received.
#[derive(Debug, Clone, Copy, PartialEq, Eq, Structural)]
pub enum OrderSide {
    Buy,
    Sell,
}

impl OrderSide {
    /// Numeric code used in the signed record: 0 for Buy, 1 for Sell.
    pub open spec fn code(self) -> u8 {
        match self {
            OrderSide::Buy => 0,
            OrderSide::Sell => 1,
        }
    }

    pub fn to_u8(self) -> (r: u8)
        ensures
            r == self.code(),
    {
        match self {
            OrderSide::Buy => 0,
            OrderSide::Sell => 1,
        }
    }
}

/// Number of decimals kept for price, size and amount under a tick size.
#[derive(Debug, Clone, Copy, PartialEq, Eq, Structural)]
pub struct RoundConfig {
    pub price: u32,
    pub size: u32,
    pub amount: u32,
}

/// The minimum price increments that markets use.
#[derive(Debug, Clone, Copy, PartialEq, Eq, Structural, Hash)]
pub enum TickSize {
    /// 0.1
    Tenth,
    /// 0.01
    Hundredth,
    /// 0.001
    Thousandth,
    /// 0.0001
    TenThousandth,
}

impl TickSize {
    /// Number of zeros between the decimal point and the final `1` of the tick.
    pub open spec fn zeros(self) -> nat {
        match self {
            TickSize::Tenth => 0,
            TickSize::Hundredth => 1,
            TickSize::Thousandth => 2,
            TickSize::TenThousandth => 3,
        }
    }

    /// The rounding precisions of a tick size: the price keeps as many decimals
    /// as the tick, sizes keep two, amounts keep two more than the price.
    pub open spec fn config(self) -> RoundConfig {
        RoundConfig {
            price: (self.zeros() + 1) as u32,
            size: 2,
            amount: (self.zeros() + 3) as u32,
        }
    }

    pub fn round_config(self) -> (r: RoundConfig)
        ensures
            r == self.config(),
    {
        match self {
            TickSize::Tenth => RoundConfig { price: 1, size: 2, amount: 3 },
            TickSize::Hundredth => RoundConfig { price: 2, size: 2, amount: 4 },
            TickSize::Thousandth => RoundConfig { price: 3, size: 2, amount: 5 },
            TickSize::TenThousandth => RoundConfig { price: 4, size: 2, amount: 6 },
        }
    }

    /// Parses one of `"0.1"`, `"0.01"`, `"0.001"`, `"0.0001"`.
    pub fn parse(s: &str) -> (r: Result<TickSize, &'static str>)
        ensures
            match tick_size_of(s@) {
                Some(t) => r == Ok::<TickSize, &'static str>(t),
                None => r is Err,
            },
    {
        let n = s.unicode_len();
        if n < 3 || n > 6 {
            return Err("invalid tick size");
        }
        if s.get_char(0) != '0' || s.get_char(1) != '.' || s.get_char(n - 1) != '1' {
            return Err("invalid tick size");
        }
        let mut i: usize = 2;
        while i < n - 1
            invariant
                2 <= i <= n - 1,
                n == s@.len(),
                forall|j: int| 2 <= j < i ==> s@[j] == '0',
            decreases n - 1 - i,
        {
            if s.get_char(i) != '0' {
                assert(!tick_string_shape(s@));
                return Err("invalid tick size");
            }
            i = i + 1;
        }
        if n == 3 {
            Ok(TickSize::Tenth)
        } else if n == 4 {
            Ok(TickSize::Hundredth)
        } else if n == 5 {
            Ok(TickSize::Thousandth)
        } else {
            Ok(TickSize::TenThousandth)
        }
    }
}

/// The decimal text of a tick size: `0.` then its zeros, then `1`.
pub open spec fn tick_text(t: TickSize) -> Seq<char> {
    seq!['0', '.'] + Seq::new(t.zeros(), |i: int| '0') + seq!['1']
}

/// `s` is `0.` followed by zeros and a final `1`.
pub open spec fn tick_string_shape(s: Seq<char>) -> bool {
    &&& s.len() >= 3
    &&& s[0] == '0'
    &&& s[1] == '.'
    &&& s[s.len() - 1] == '1'
    &&& forall|j: int| 2 <= j < s.len() - 1 ==> s[j] == '0'
}

/// The tick size whose text is `s`, if any.
pub open spec fn tick_size_of(s: Seq<char>) -> Option<TickSize> {
    if tick_string_shape(s) && s.len() == 3 {
        Some(TickSize::Tenth)
    } else if tick_string_shape(s) && s.len() == 4 {
        Some(TickSize::Hundredth)
    } else if tick_string_shape(s) && s.len() == 5 {
        Some(TickSize::Thousandth)
    } else if tick_string_shape(s) && s.len() == 6 {
        Some(TickSize::TenThousandth)
    } else {
        None
    }
}

/// Parsing accepts exactly the texts of the four tick sizes.
pub proof fn lemma_tick_size_parse_exact(s: Seq<char>)
    ensures
        tick_size_of(s) is Some <==> exists|t: TickSize| s == tick_text(t),
        forall|t: TickSize| #[trigger] tick_size_of(tick_text(t)) == Some(t),
{
    assert forall|t: TickSize| #[trigger] tick_size_of(tick_text(t)) == Some(t) by {
        let x = tick_text(t);
        assert(x.len() == t.zeros() + 3);
        assert(tick_string_shape(x));
    }
    if tick_size_of(s) is Some {
        let t = tick_size_of(s).unwrap();
        assert(s =~= tick_text(t));
    }
}

impl std::str::FromStr for TickSize {
    type Err = &'static str;

    fn from_str(s: &str) -> Result<Self, Self::Err> {
        TickSize::parse(s)
    }
}

/// What an order asks for; each variant carries its quantity in its own unit.
#[derive(Debug, Clone, Copy, PartialEq, Eq, Structural)]
pub enum OrderKind {
    /// A limit order for `size` outcome shares (base units).
    Limit { size: Decimal },
    /// A market buy spending `quote_amount` of the quote currency.
    MarketBuy { quote_amount: Decimal },
    /// A market sell of `base_amount` outcome shares.
    MarketSell { base_amount: Decimal },
}

impl OrderKind {
    /// The quantity that the variant carries.
    pub open spec fn quantity(self) -> Decimal {
        match self {
            OrderKind::Limit { size } => size,
            OrderKind::MarketBuy { quote_amount } => quote_amount,
            OrderKind::MarketSell { base_amount } => base_amount,
        }
    }
}

/// Why building, signing or authenticating a request failed.
#[derive(Debug, Clone, Copy, PartialEq, Eq, Structural)]
pub enum ClobError {
    /// The tick size is not one of `0.1`, `0.01`, `0.001`, `0.0001`.
    InvalidTickSize,
    /// A decimal is out of range, a market buy's price rounds to zero, or an
    /// amount does not fit 32 bits.
    AmountOutOfRange,
    /// The token id is not a decimal number below `2^256`.
    InvalidTokenId,
    /// The private key is not a valid secp256k1 secret.
    InvalidKey,
    /// The signer could not produce a signature.
    SigningFailed,
    /// The API secret is not URL-safe base64.
    InvalidSecret,
    /// The HMAC could not be keyed with the secret.
    HmacFailed,
}

/// Wallet-custody model that produced an order signature.
#[derive(Debug, Clone, Copy, PartialEq, Eq, Structural)]
pub enum SignatureType {
    Eoa,
    PolyProxy,
    PolyGnosisSafe,
}

impl SignatureType {
    pub open spec fn code(self) -> u8 {
        match self {
            SignatureType::Eoa => 0,
            SignatureType::PolyProxy => 1,
            SignatureType::PolyGnosisSafe => 2,
        }
    }

    pub fn to_u8(self) -> (r: u8)
        ensures
            r == self.code(),
    {
        match self {
            SignatureType::Eoa => 0,
            SignatureType::PolyProxy => 1,
            SignatureType::PolyGnosisSafe => 2,
        }
    }

    pub fn from_u8(value: u8) -> (r: Option<SignatureType>)
        ensures
            value <= 2 ==> r is Some && r->Some_0.code() == value,
            value > 2 ==> r is None,
    {
        match value {
            0 => Some(SignatureType::Eoa),
            1 => Some(SignatureType::PolyProxy),
            2 => Some(SignatureType::PolyGnosisSafe),
            _ => None,
        }
    }
}

/// How long an order rests on the book.
#[derive(Debug, Clone, Copy, PartialEq, Eq, Structural)]
pub enum OrderType {
    /// Good until cancelled.
    Gtc,
    /// Filled at once and in full, or cancelled.
    Fok,
    /// Filled at once as far as possible; the rest is cancelled.
    Fak,
    /// Good until the expiration time.
    Gtd,
}

/// API credentials obtained through the wallet-signature flow.
#[derive(Debug, Clone)]
pub struct Credentials {
    pub api_key: String,
    /// URL-safe base64 text of the HMAC key.
    pub secret: String,
    pub passphrase: String,
}

impl Credentials {
    pub fn new(api_key: String, secret: String, passphrase: String) -> (r: Credentials)
        ensures
            r.api_key@ == api_key@,
            r.secret@ == secret@,
            r.passphrase@ == passphrase@,
    {
        Credentials { api_key, secret, passphrase }
    }
}

/// The wire form of a signed order: numbers as decimal text.
#[derive(Debug, Clone)]
pub struct SignedOrderRequest {
    pub salt: u64,
    pub maker: String,
    pub signer: String,
    pub taker: String,
    pub token_id: String,
    pub maker_amount: String,
    pub taker_amount: String,
    pub expiration: String,
    pub nonce: String,
    pub fee_rate_bps: String,
    pub side: OrderSide,
    pub signature_type: u8,
    pub signature: String,
}

/// The body posted to submit an order.
#[derive(Debug, Clone)]
pub struct PostOrder {
    pub order: SignedOrderRequest,
    pub owner: String,
    pub order_type: OrderType,
    pub defer_exec: bool,
}

impl PostOrder {
    pub fn new(order: SignedOrderRequest, owner: String, order_type: OrderType, defer_exec: bool) -> (r: PostOrder)
        ensures
            r.order == order,
            r.owner@ == owner@,
            r.order_type == order_type,
            r.defer_exec == defer_exec,
    {
        PostOrder { order, owner, order_type, defer_exec }
    }
}

} // verus!

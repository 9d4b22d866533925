//! Orders: identifiers, the order request and its builders, the settings an
//! order carries, and the queries and paths of the trade endpoints.

use vstd::prelude::*;

use crate::client::{form_urlencoded, urlencode_pairs};
use crate::decimal::{decimal_text, Decimal};
use crate::spot::market::{symbol_text, CurrencyCode, Symbol, SymbolView};
use crate::text::{bool_str, bool_text, compare_text, nat_text, text_order, u64_text};
use crate::time::Time;

pub use crate::spot::market::{Trade, TradeSide};

verus! {

/// The identifier the exchange gives an order.
#[derive(Debug)]
pub struct OrderId(String);

impl View for OrderId {
    type V = Seq<char>;

    closed spec fn view(&self) -> Seq<char> {
        self.0@
    }
}

impl Clone for OrderId {
    fn clone(&self) -> (o: OrderId)
        ensures
            o@ == self@,
    {
        OrderId(self.0.clone())
    }
}

impl OrderId {
    pub fn new(id: String) -> (o: OrderId)
        ensures
            o@ == id@,
    {
        OrderId(id)
    }

    pub fn as_str(&self) -> (s: &str)
        ensures
            s@ == self@,
    {
        self.0.as_str()
    }

    /// The identifier's text (`Display`).
    pub fn to_string(&self) -> (s: String)
        ensures
            s@ == self@,
    {
        self.0.clone()
    }

    /// Equality of identifiers.
    pub fn same_as(&self, other: &OrderId) -> (b: bool)
        ensures
            b == (self@ == other@),
    {
        self.0 == other.0
    }

    /// The order of `Ord for OrderId`: that of the texts.
    pub fn compare(&self, other: &OrderId) -> (r: i8)
        ensures
            r == text_order(self@, other@),
    {
        compare_text(self.0.as_str(), other.0.as_str())
    }
}

/// The kind of an order.
#[derive(Clone, Copy, Debug, PartialEq, Eq, Structural)]
pub enum OrderType {
    Limit,
    Market,
    StopLimit,
    StopMarket,
}

/// The name of an order kind, as the API writes it.
pub open spec fn order_type_name(t: OrderType) -> Seq<char> {
    match t {
        OrderType::Limit => "limit"@,
        OrderType::Market => "market"@,
        OrderType::StopLimit => "stop_limit"@,
        OrderType::StopMarket => "stop_market"@,
    }
}

impl OrderType {
    pub fn as_str(&self) -> (s: &'static str)
        ensures
            s@ == order_type_name(*self),
    {
        match self {
            OrderType::Limit => "limit",
            OrderType::Market => "market",
            OrderType::StopLimit => "stop_limit",
            OrderType::StopMarket => "stop_market",
        }
    }

    /// The name of the kind (`Display`).
    pub fn to_string(&self) -> (s: String)
        ensures
            s@ == order_type_name(*self),
    {
        String::from_str(self.as_str())
    }
}

impl Default for OrderType {
    fn default() -> (t: OrderType)
        ensures
            t == OrderType::Limit,
    {
        OrderType::Limit
    }
}

/// How much of an order the order book shows.
#[derive(Clone, Copy, Debug)]
pub enum OrderVisibility {
    Visible,
    Hidden { hidden: bool },
    Iceberg { iceberg: bool, visible_size: Decimal },
}

/// The rendering of a visibility setting.
pub open spec fn visibility_text(v: OrderVisibility) -> Seq<char> {
    match v {
        OrderVisibility::Visible => "visible"@,
        OrderVisibility::Hidden { hidden } => "hidden = "@ + bool_text(hidden),
        OrderVisibility::Iceberg { iceberg, visible_size } => "iceberg = "@ + bool_text(iceberg) + ", visible_size = "@
            + decimal_text(visible_size@),
    }
}

impl OrderVisibility {
    /// `visible`, `hidden = {hidden}` or
    /// `iceberg = {iceberg}, visible_size = {visible_size}` (`Display`).
    pub fn to_string(&self) -> (s: String)
        ensures
            s@ == visibility_text(*self),
    {
        match self {
            OrderVisibility::Visible => String::from_str("visible"),
            OrderVisibility::Hidden { hidden } => String::from_str("hidden = ").concat(bool_str(*hidden)),
            OrderVisibility::Iceberg { iceberg, visible_size } => {
                let size = visible_size.to_string();
                String::from_str("iceberg = ").concat(bool_str(*iceberg)).concat(", visible_size = ").concat(
                    size.as_str(),
                )
            },
        }
    }
}

impl Default for OrderVisibility {
    fn default() -> (v: OrderVisibility)
        ensures
            v is Visible,
    {
        OrderVisibility::Visible
    }
}

/// What the exchange does when an order would trade against another order
/// of the same user.
#[derive(Clone, Copy, Debug, PartialEq, Eq, Structural)]
pub enum SelfTradePrevention {
    DecreaseAndCancel,
    CancelOldest,
    CancelNewest,
    CancelBoth,
}

/// The code of a self-trade prevention rule.
pub open spec fn stp_code(s: SelfTradePrevention) -> Seq<char> {
    match s {
        SelfTradePrevention::DecreaseAndCancel => "DC"@,
        SelfTradePrevention::CancelOldest => "CO"@,
        SelfTradePrevention::CancelNewest => "CN"@,
        SelfTradePrevention::CancelBoth => "CB"@,
    }
}

impl SelfTradePrevention {
    /// `DC`, `CO`, `CN` or `CB` (`Display`).
    pub fn as_str(&self) -> (s: &'static str)
        ensures
            s@ == stp_code(*self),
    {
        match self {
            SelfTradePrevention::DecreaseAndCancel => "DC",
            SelfTradePrevention::CancelOldest => "CO",
            SelfTradePrevention::CancelNewest => "CN",
            SelfTradePrevention::CancelBoth => "CB",
        }
    }
}

impl Default for SelfTradePrevention {
    fn default() -> (s: SelfTradePrevention)
        ensures
            s == SelfTradePrevention::CancelNewest,
    {
        SelfTradePrevention::CancelNewest
    }
}

/// The stop condition of an order, as the exchange reports it.
#[derive(Clone, Copy, Debug)]
pub enum StopOrder {
    Entry { triggered: bool, price: Decimal },
    Loss { triggered: bool, price: Decimal },
    Unknown,
}

/// How long an order stays on the book.
#[derive(Clone, Copy, Debug, PartialEq, Eq, Structural)]
pub enum TimeInForce {
    GoodTilCanceled { post_only: bool },
    GoodTilTime { cancel_after: u64, post_only: bool },
    ImmediateOrCancel,
    FillOrKill,
}

/// The rendering of a time-in-force setting.
pub open spec fn time_in_force_text(t: TimeInForce) -> Seq<char> {
    match t {
        TimeInForce::GoodTilCanceled { .. } => "GTC"@,
        TimeInForce::GoodTilTime { cancel_after, .. } => "GTT("@ + nat_text(cancel_after as nat) + ")"@,
        TimeInForce::ImmediateOrCancel => "IOC"@,
        TimeInForce::FillOrKill => "FOK"@,
    }
}

impl TimeInForce {
    /// `GTC`, `GTT({cancel_after})`, `IOC` or `FOK` (`Display`).
    pub fn to_string(&self) -> (s: String)
        ensures
            s@ == time_in_force_text(*self),
    {
        match self {
            TimeInForce::GoodTilCanceled { .. } => String::from_str("GTC"),
            TimeInForce::GoodTilTime { cancel_after, .. } => {
                let n = u64_text(*cancel_after);
                String::from_str("GTT(").concat(n.as_str()).concat(")")
            },
            TimeInForce::ImmediateOrCancel => String::from_str("IOC"),
            TimeInForce::FillOrKill => String::from_str("FOK"),
        }
    }
}

impl Default for TimeInForce {
    fn default() -> (t: TimeInForce)
        ensures
            t == (TimeInForce::GoodTilCanceled { post_only: true }),
    {
        TimeInForce::GoodTilCanceled { post_only: true }
    }
}

/// The account an order trades from.
#[derive(Clone, Copy, Debug, PartialEq, Eq, Structural, Hash, PartialOrd, Ord)]
pub enum TradeType {
    Trade,
    Margin,
}

/// The name of a trade type, as the API writes it.
pub open spec fn trade_type_name(t: TradeType) -> Seq<char> {
    match t {
        TradeType::Trade => "TRADE"@,
        TradeType::Margin => "MARGIN_TRADE"@,
    }
}

impl TradeType {
    /// `TRADE` or `MARGIN_TRADE` (`Display`).
    pub fn as_str(&self) -> (s: &'static str)
        ensures
            s@ == trade_type_name(*self),
    {
        match self {
            TradeType::Trade => "TRADE",
            TradeType::Margin => "MARGIN_TRADE",
        }
    }
}

/// A market order's amount: in the base currency, or in funds of the quote
/// currency.
#[derive(Clone, Copy, Debug)]
pub enum OrderTypeMarket {
    Base(Decimal),
    Quote(Decimal),
}

/// The content of a limit order's settings.
pub struct OrderTypeLimitView {
    pub price: Decimal,
    pub size: Decimal,
    pub time_in_force: TimeInForce,
    pub visibility: OrderVisibility,
}

/// A limit order: price, size, time in force and visibility.
#[derive(Clone, Copy, Debug)]
pub struct OrderTypeLimit {
    price: Decimal,
    size: Decimal,
    time_in_force: TimeInForce,
    visibility: OrderVisibility,
}

impl View for OrderTypeLimit {
    type V = OrderTypeLimitView;

    closed spec fn view(&self) -> OrderTypeLimitView {
        OrderTypeLimitView {
            price: self.price,
            size: self.size,
            time_in_force: self.time_in_force,
            visibility: self.visibility,
        }
    }
}

impl OrderTypeLimit {
    /// A limit order of `size` at `price`, good until cancelled as a
    /// post-only order, and visible.
    pub fn new(price: Decimal, size: Decimal) -> (o: OrderTypeLimit)
        ensures
            o@ == (OrderTypeLimitView {
                price,
                size,
                time_in_force: TimeInForce::GoodTilCanceled { post_only: true },
                visibility: OrderVisibility::Visible,
            }),
    {
        OrderTypeLimit {
            price,
            size,
            time_in_force: TimeInForce::default(),
            visibility: OrderVisibility::default(),
        }
    }

    /// The same order with another time in force.
    pub fn time_in_force(self, time_in_force: TimeInForce) -> (o: OrderTypeLimit)
        ensures
            o@ == (OrderTypeLimitView { time_in_force, ..self@ }),
    {
        OrderTypeLimit { time_in_force, ..self }
    }

    /// The same order with another visibility.
    pub fn visibility(self, visibility: OrderVisibility) -> (o: OrderTypeLimit)
        ensures
            o@ == (OrderTypeLimitView { visibility, ..self@ }),
    {
        OrderTypeLimit { visibility, ..self }
    }

    /// Price, size, time in force and visibility.
    pub fn parts(&self) -> (p: (Decimal, Decimal, TimeInForce, OrderVisibility))
        ensures
            p == (self@.price, self@.size, self@.time_in_force, self@.visibility),
    {
        (self.price, self.size, self.time_in_force, self.visibility)
    }
}

/// The kind of order a request places.
#[derive(Clone, Copy, Debug)]
pub enum OrderTypeRequest {
    Limit(OrderTypeLimit),
    Market(OrderTypeMarket),
}

/// The content of an order request.
pub struct OrderRequestView {
    pub client_order_id: Seq<char>,
    pub side: TradeSide,
    pub symbol: SymbolView,
    pub order_type: OrderTypeRequest,
    pub remark: Option<Seq<char>>,
    pub stp: SelfTradePrevention,
}

/// A request to place an order.
#[derive(Debug)]
pub struct OrderRequest {
    client_order_id: String,
    side: TradeSide,
    symbol: Symbol,
    order_type: OrderTypeRequest,
    remark: Option<String>,
    stp: SelfTradePrevention,
}

impl View for OrderRequest {
    type V = OrderRequestView;

    closed spec fn view(&self) -> OrderRequestView {
        OrderRequestView {
            client_order_id: self.client_order_id@,
            side: self.side,
            symbol: self.symbol@,
            order_type: self.order_type,
            remark: match self.remark {
                Some(r) => Some(r@),
                None => None,
            },
            stp: self.stp,
        }
    }
}

impl Clone for OrderRequest {
    fn clone(&self) -> (r: OrderRequest)
        ensures
            r@ == self@,
    {
        OrderRequest {
            client_order_id: self.client_order_id.clone(),
            side: self.side,
            symbol: self.symbol.clone(),
            order_type: self.order_type,
            remark: match &self.remark {
                Some(r) => Some(r.clone()),
                None => None,
            },
            stp: self.stp,
        }
    }
}

/// The longest remark the exchange takes, in bytes.
pub const MAX_REMARK_BYTES: usize = 100;

/// The UTF-8 bytes of a remark, cut to at most 100 bytes.
pub open spec fn truncated_remark(bytes: Seq<u8>) -> Seq<u8> {
    if bytes.len() <= 100 {
        bytes
    } else {
        bytes.take(100)
    }
}

/// A remark can be cut to 100 bytes: it is no longer, or its 100th byte
/// ends a character (`String::truncate` panics otherwise).
pub open spec fn remark_fits(text: Seq<char>) -> bool {
    let bytes = vstd::utf8::encode_utf8(text);
    bytes.len() > 100 ==> vstd::utf8::is_char_boundary(bytes, 100)
}

impl OrderRequest {
    /// A request for an order of the given kind on `symbol`, with no
    /// remark and the default self-trade prevention (cancel newest).
    pub fn new(client_order_id: String, side: TradeSide, symbol: Symbol, order_type: OrderTypeRequest) -> (r:
        OrderRequest)
        ensures
            r@ == (OrderRequestView {
                client_order_id: client_order_id@,
                side,
                symbol: symbol@,
                order_type,
                remark: None,
                stp: SelfTradePrevention::CancelNewest,
            }),
    {
        OrderRequest {
            client_order_id,
            side,
            symbol,
            order_type,
            remark: None,
            stp: SelfTradePrevention::default(),
        }
    }

    /// The same request with a remark, cut to its first 100 bytes (the most
    /// the exchange takes).
    pub fn remark(self, remark: String) -> (r: OrderRequest)
        requires
            remark_fits(remark@),
        ensures
            r@.remark is Some,
            vstd::utf8::encode_utf8(r@.remark->0) == truncated_remark(vstd::utf8::encode_utf8(remark@)),
            vstd::utf8::encode_utf8(r@.remark->0).len() <= 100,
            r@ == (OrderRequestView { remark: r@.remark, ..self@ }),
    {
        proof {
            vstd::utf8::encode_utf8_valid_utf8(remark@);
        }
        let cut = if remark.as_str().is_char_boundary(MAX_REMARK_BYTES) {
            let (head, _tail) = remark.as_str().split_at(MAX_REMARK_BYTES);
            String::from_str(head)
        } else {
            remark
        };
        OrderRequest { remark: Some(cut), ..self }
    }

    /// The same request with another self-trade prevention rule.
    pub fn stp(self, stp: SelfTradePrevention) -> (r: OrderRequest)
        ensures
            r@ == (OrderRequestView { stp, ..self@ }),
    {
        OrderRequest { stp, ..self }
    }

    /// Client order id, side, symbol, kind, remark and self-trade
    /// prevention.
    pub fn parts(&self) -> (p: (&String, TradeSide, &Symbol, OrderTypeRequest, Option<&String>, SelfTradePrevention))
        ensures
            p.0@ == self@.client_order_id,
            p.1 == self@.side,
            p.2@ == self@.symbol,
            p.3 == self@.order_type,
            match p.4 {
                Some(r) => self@.remark == Some(r@),
                None => self@.remark is None,
            },
            p.5 == self@.stp,
    {
        let remark = match &self.remark {
            Some(r) => Some(r),
            None => None,
        };
        (&self.client_order_id, self.side, &self.symbol, self.order_type, remark, self.stp)
    }
}

/// An order as the exchange reports it.
#[derive(Clone, Debug)]
pub struct Order {
    pub id: OrderId,
    pub symbol: Symbol,
    pub order_type: OrderType,
    pub side: TradeSide,
    pub price: Decimal,
    pub size: Decimal,
    pub funds: Decimal,
    pub deal_funds: Decimal,
    pub deal_size: Decimal,
    pub fee: Decimal,
    pub fee_currency: CurrencyCode,
    pub stp: SelfTradePrevention,
    pub stop: StopOrder,
    pub time_in_force: TimeInForce,
    pub visibility: OrderVisibility,
    pub client_order_id: String,
    pub remark: Option<String>,
    pub is_active: bool,
    pub created_at: Time,
    pub trade_type: TradeType,
}

impl Order {
    /// A cancellation succeeded when the order, read back afterwards, is no
    /// longer active.
    pub fn is_cancelled(&self) -> (b: bool)
        ensures
            b == !self.is_active,
    {
        !self.is_active
    }
}

/// The name and value pairs of the query that cancels all orders of a
/// trade type, on one market or on all: `symbol` first when given, then
/// `tradeType` (in the order of their names).
pub open spec fn cancel_all_pairs(trade_type: TradeType, symbol: Option<SymbolView>) -> Seq<(Seq<char>, Seq<char>)> {
    match symbol {
        Some(s) => seq![("symbol"@, symbol_text(s)), ("tradeType"@, trade_type_name(trade_type))],
        None => seq![("tradeType"@, trade_type_name(trade_type))],
    }
}

/// The query of the request that cancels all orders of a trade type, on
/// one market or on all.
pub fn cancel_all_query(trade_type: TradeType, symbol: Option<&Symbol>) -> (q: String)
    ensures
        q@ == form_urlencoded(cancel_all_pairs(trade_type, match symbol {
            Some(s) => Some(s@),
            None => None,
        })),
{
    let mut pairs: Vec<(String, String)> = Vec::new();
    match symbol {
        Some(s) => {
            pairs.push((String::from_str("symbol"), s.to_string()));
        },
        None => {},
    }
    pairs.push((String::from_str("tradeType"), String::from_str(trade_type.as_str())));
    let q = urlencode_pairs(&pairs);
    assert(crate::client::header_views(pairs@) =~= cancel_all_pairs(trade_type, match symbol {
        Some(s) => Some(s@),
        None => None,
    }));
    q
}

/// The path of an order: `/api/v1/orders/{id}`.
pub fn order_path(id: &OrderId) -> (p: String)
    ensures
        p@ == "/api/v1/orders/"@ + id@,
{
    String::from_str("/api/v1/orders/").concat(id.as_str())
}

/// The path of an order given by the client's id:
/// `/api/v1/order/client-order/{client_id}`.
pub fn client_order_path(client_id: &str) -> (p: String)
    ensures
        p@ == "/api/v1/order/client-order/"@ + client_id@,
{
    String::from_str("/api/v1/order/client-order/").concat(client_id)
}

} // verus!

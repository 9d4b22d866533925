//! Market data: currencies, symbols, klines, tickers, trades and order books.

use vstd::prelude::*;

use crate::decimal::Decimal;
use crate::decimal_map::DecimalMap;
use crate::error::Error;
use crate::text::{compare_text, has_char, lemma_split_once_at, split_once, split_once_spec, str_eq, text_order};
use crate::decimal::decimal_text;
use crate::time::{time_text, Time};

verus! {

broadcast use vstd::std_specs::vec::group_vec_axioms;

/// A currency code such as `BTC`.
#[derive(Debug, PartialEq, Eq, Hash)]
pub struct CurrencyCode(String);

impl Clone for CurrencyCode {
    fn clone(&self) -> (c: CurrencyCode)
        ensures
            c@ == self@,
    {
        CurrencyCode(self.0.clone())
    }
}

impl Clone for Symbol {
    fn clone(&self) -> (s: Symbol)
        ensures
            s@ == self@,
    {
        Symbol { base: self.base.clone(), quote: self.quote.clone() }
    }
}

impl View for CurrencyCode {
    type V = Seq<char>;

    closed spec fn view(&self) -> Seq<char> {
        self.0@
    }
}

impl CurrencyCode {
    pub fn new(id: String) -> (c: CurrencyCode)
        ensures
            c@ == id@,
    {
        CurrencyCode(id)
    }

    pub fn as_str(&self) -> (s: &str)
        ensures
            s@ == self@,
    {
        self.0.as_str()
    }

    pub fn to_string(&self) -> (s: String)
        ensures
            s@ == self@,
    {
        self.0.clone()
    }

    /// Equality of the codes.
    pub fn same_as(&self, other: &CurrencyCode) -> (b: bool)
        ensures
            b == (self@ == other@),
    {
        self.0 == other.0
    }

    /// The order of `Ord for CurrencyCode`: that of the code texts.
    pub fn compare(&self, other: &CurrencyCode) -> (r: i8)
        ensures
            r == text_order(self@, other@),
    {
        compare_text(self.0.as_str(), other.0.as_str())
    }
}

/// The abstract content of a symbol.
pub struct SymbolView {
    pub base: Seq<char>,
    pub quote: Seq<char>,
}

/// A trading pair such as `BTC-USDT`: a base currency priced in a quote
/// currency.
#[derive(Debug, PartialEq, Eq, Hash)]
pub struct Symbol {
    base: CurrencyCode,
    quote: CurrencyCode,
}

impl View for Symbol {
    type V = SymbolView;

    closed spec fn view(&self) -> SymbolView {
        SymbolView { base: self.base@, quote: self.quote@ }
    }
}

/// The text of a symbol: `{base}-{quote}`.
pub open spec fn symbol_text(v: SymbolView) -> Seq<char> {
    v.base + seq!['-'] + v.quote
}

/// The symbol that a text denotes: what precedes its first `-` is the base,
/// what follows is the quote.
pub open spec fn symbol_parse(s: Seq<char>) -> Option<SymbolView> {
    match split_once_spec(s, '-') {
        Some((base, quote)) => Some(SymbolView { base, quote }),
        None => None,
    }
}

/// The message of the error a text that is no symbol gives.
pub open spec fn symbol_parse_error(s: Seq<char>) -> Seq<char> {
    "The symbol '"@ + s + "' could not be parsed."@
}

/// Reading back the text of a symbol whose base holds no `-` gives the
/// symbol.
pub proof fn lemma_symbol_text_parse(v: SymbolView)
    requires
        !has_char(v.base, '-'),
    ensures
        symbol_parse(symbol_text(v)) == Some(v),
{
    let s = symbol_text(v);
    let i = v.base.len() as int;
    assert(s[i] == '-');
    assert(s.take(i) =~= v.base);
    assert(s.skip(i + 1) =~= v.quote);
    lemma_split_once_at(s, '-', i);
}

/// Rendering a symbol read from a text gives back the text.
pub proof fn lemma_symbol_parse_text(s: Seq<char>)
    requires
        symbol_parse(s) is Some,
    ensures
        symbol_text(symbol_parse(s)->Some_0) == s,
{
    assert(has_char(s, '-'));
    crate::text::lemma_first_position(s, '-');
    let i = crate::text::first_position(s, '-');
    assert(symbol_text(symbol_parse(s)->Some_0) =~= s);
}

impl Symbol {
    pub fn new(base: CurrencyCode, quote: CurrencyCode) -> (s: Symbol)
        ensures
            s@ == (SymbolView { base: base@, quote: quote@ }),
    {
        Symbol { base, quote }
    }

    pub fn base(&self) -> (c: &CurrencyCode)
        ensures
            c@ == self@.base,
    {
        &self.base
    }

    pub fn quote(&self) -> (c: &CurrencyCode)
        ensures
            c@ == self@.quote,
    {
        &self.quote
    }

    /// `{base}-{quote}`.
    pub fn to_string(&self) -> (s: String)
        ensures
            s@ == symbol_text(self@),
    {
        let mut s = self.base.to_string();
        s.append("-");
        s.append(self.quote.as_str());
        proof {
            reveal_strlit("-");
        }
        assert(s@ =~= symbol_text(self@));
        s
    }

    /// Reads a symbol from text: the base is what precedes the first `-`,
    /// the quote what follows it.
    pub fn from_str(s: &str) -> (r: Result<Symbol, Error>)
        ensures
            match symbol_parse(s@) {
                Some(v) => r matches Ok(sym) && sym@ == v,
                None => r matches Err(Error::Parse { reason }) && reason@ == symbol_parse_error(s@),
            },
    {
        match split_once(s, '-') {
            Some((base, quote)) => Ok(Symbol::new(CurrencyCode::new(base), CurrencyCode::new(quote))),
            None => {
                let reason = String::from_str("The symbol '").concat(s).concat("' could not be parsed.");
                Err(Error::Parse { reason })
            },
        }
    }

    /// Equality of symbols.
    pub fn same_as(&self, other: &Symbol) -> (b: bool)
        ensures
            b == (self@ == other@),
    {
        self.base.same_as(&other.base) && self.quote.same_as(&other.quote)
    }

    /// The order of `Ord for Symbol`: by quote currency, then by base currency.
    pub fn compare(&self, other: &Symbol) -> (r: i8)
        ensures
            r == (if text_order(self@.quote, other@.quote) != 0 {
                text_order(self@.quote, other@.quote)
            } else {
                text_order(self@.base, other@.base)
            }),
    {
        let q = self.quote.compare(&other.quote);
        if q != 0 {
            q
        } else {
            self.base.compare(&other.base)
        }
    }
}


/// The period of one kline (candlestick).
#[derive(Clone, Copy, Debug, PartialEq, Eq, Structural, Hash, PartialOrd, Ord)]
pub enum KlineInterval {
    OneMinute,
    ThreeMinute,
    FiveMinute,
    FifteenMinute,
    ThirtyMinute,
    OneHour,
    TwoHour,
    FourHour,
    SixHour,
    EightHour,
    TwelveHour,
    OneDay,
    OneWeek,
}

/// The name the API gives an interval.
pub open spec fn interval_name(k: KlineInterval) -> Seq<char> {
    match k {
        KlineInterval::OneMinute => "1min"@,
        KlineInterval::ThreeMinute => "3min"@,
        KlineInterval::FiveMinute => "5min"@,
        KlineInterval::FifteenMinute => "15min"@,
        KlineInterval::ThirtyMinute => "30min"@,
        KlineInterval::OneHour => "1hour"@,
        KlineInterval::TwoHour => "2hour"@,
        KlineInterval::FourHour => "4hour"@,
        KlineInterval::SixHour => "6hour"@,
        KlineInterval::EightHour => "8hour"@,
        KlineInterval::TwelveHour => "12hour"@,
        KlineInterval::OneDay => "1day"@,
        KlineInterval::OneWeek => "1week"@,
    }
}

/// The interval a name denotes, if any.
pub open spec fn interval_parse(s: Seq<char>) -> Option<KlineInterval> {
    if s == "1min"@ { Some(KlineInterval::OneMinute) }
    else if s == "3min"@ { Some(KlineInterval::ThreeMinute) }
    else if s == "5min"@ { Some(KlineInterval::FiveMinute) }
    else if s == "15min"@ { Some(KlineInterval::FifteenMinute) }
    else if s == "30min"@ { Some(KlineInterval::ThirtyMinute) }
    else if s == "1hour"@ { Some(KlineInterval::OneHour) }
    else if s == "2hour"@ { Some(KlineInterval::TwoHour) }
    else if s == "4hour"@ { Some(KlineInterval::FourHour) }
    else if s == "6hour"@ { Some(KlineInterval::SixHour) }
    else if s == "8hour"@ { Some(KlineInterval::EightHour) }
    else if s == "12hour"@ { Some(KlineInterval::TwelveHour) }
    else if s == "1day"@ { Some(KlineInterval::OneDay) }
    else if s == "1week"@ { Some(KlineInterval::OneWeek) }
    else { None }
}

/// Each interval is named by its period as the API writes it.
pub proof fn lemma_interval_names()
    ensures
        interval_name(KlineInterval::OneMinute) == "1min"@,
        interval_name(KlineInterval::ThreeMinute) == "3min"@,
        interval_name(KlineInterval::FiveMinute) == "5min"@,
        interval_name(KlineInterval::FifteenMinute) == "15min"@,
        interval_name(KlineInterval::ThirtyMinute) == "30min"@,
        interval_name(KlineInterval::OneHour) == "1hour"@,
        interval_name(KlineInterval::TwoHour) == "2hour"@,
        interval_name(KlineInterval::FourHour) == "4hour"@,
        interval_name(KlineInterval::SixHour) == "6hour"@,
        interval_name(KlineInterval::EightHour) == "8hour"@,
        interval_name(KlineInterval::TwelveHour) == "12hour"@,
        interval_name(KlineInterval::OneDay) == "1day"@,
        interval_name(KlineInterval::OneWeek) == "1week"@,
        interval_parse("3min"@) == Some(KlineInterval::ThreeMinute),
        interval_parse("5min"@) == Some(KlineInterval::FiveMinute),
{
    lemma_interval_name_parse(KlineInterval::ThreeMinute, "3min"@);
    lemma_interval_name_parse(KlineInterval::FiveMinute, "5min"@);
}

/// The message of the error an unknown interval name gives.
pub open spec fn interval_parse_error(s: Seq<char>) -> Seq<char> {
    "The kline interval '"@ + s + "' is not recognized"@
}

/// Every interval is read back from its name, and a name read as an
/// interval is that interval's name.
pub proof fn lemma_interval_name_parse(k: KlineInterval, s: Seq<char>)
    ensures
        interval_parse(interval_name(k)) == Some(k),
        interval_parse(s) == Some(k) ==> interval_name(k) == s,
{
    reveal_strlit("1min");
    assert("1min"@.len() == 4 && "1min"@[0] == '1' && "1min"@[1] == 'm');
    reveal_strlit("3min");
    assert("3min"@.len() == 4 && "3min"@[0] == '3' && "3min"@[1] == 'm');
    reveal_strlit("5min");
    assert("5min"@.len() == 4 && "5min"@[0] == '5' && "5min"@[1] == 'm');
    reveal_strlit("15min");
    assert("15min"@.len() == 5 && "15min"@[0] == '1' && "15min"@[1] == '5');
    reveal_strlit("30min");
    assert("30min"@.len() == 5 && "30min"@[0] == '3' && "30min"@[1] == '0');
    reveal_strlit("1hour");
    assert("1hour"@.len() == 5 && "1hour"@[0] == '1' && "1hour"@[1] == 'h');
    reveal_strlit("2hour");
    assert("2hour"@.len() == 5 && "2hour"@[0] == '2' && "2hour"@[1] == 'h');
    reveal_strlit("4hour");
    assert("4hour"@.len() == 5 && "4hour"@[0] == '4' && "4hour"@[1] == 'h');
    reveal_strlit("6hour");
    assert("6hour"@.len() == 5 && "6hour"@[0] == '6' && "6hour"@[1] == 'h');
    reveal_strlit("8hour");
    assert("8hour"@.len() == 5 && "8hour"@[0] == '8' && "8hour"@[1] == 'h');
    reveal_strlit("12hour");
    assert("12hour"@.len() == 6 && "12hour"@[0] == '1' && "12hour"@[1] == '2');
    reveal_strlit("1day");
    assert("1day"@.len() == 4 && "1day"@[0] == '1' && "1day"@[1] == 'd');
    reveal_strlit("1week");
    assert("1week"@.len() == 5 && "1week"@[0] == '1' && "1week"@[1] == 'w');
}

impl KlineInterval {
    /// The name the API gives the interval (`Display`).
    pub fn as_str(&self) -> (s: &'static str)
        ensures
            s@ == interval_name(*self),
    {
        match self {
            KlineInterval::OneMinute => "1min",
            KlineInterval::ThreeMinute => "3min",
            KlineInterval::FiveMinute => "5min",
            KlineInterval::FifteenMinute => "15min",
            KlineInterval::ThirtyMinute => "30min",
            KlineInterval::OneHour => "1hour",
            KlineInterval::TwoHour => "2hour",
            KlineInterval::FourHour => "4hour",
            KlineInterval::SixHour => "6hour",
            KlineInterval::EightHour => "8hour",
            KlineInterval::TwelveHour => "12hour",
            KlineInterval::OneDay => "1day",
            KlineInterval::OneWeek => "1week",
        }
    }

    pub fn to_string(&self) -> (s: String)
        ensures
            s@ == interval_name(*self),
    {
        String::from_str(self.as_str())
    }

    /// Reads an interval from its name.
    pub fn from_str(s: &str) -> (r: Result<KlineInterval, Error>)
        ensures
            match interval_parse(s@) {
                Some(k) => r matches Ok(x) && x == k,
                None => r matches Err(Error::Parse { reason }) && reason@ == interval_parse_error(s@),
            },
    {
        if str_eq(s, "1min") { Ok(KlineInterval::OneMinute) }
        else if str_eq(s, "3min") { Ok(KlineInterval::ThreeMinute) }
        else if str_eq(s, "5min") { Ok(KlineInterval::FiveMinute) }
        else if str_eq(s, "15min") { Ok(KlineInterval::FifteenMinute) }
        else if str_eq(s, "30min") { Ok(KlineInterval::ThirtyMinute) }
        else if str_eq(s, "1hour") { Ok(KlineInterval::OneHour) }
        else if str_eq(s, "2hour") { Ok(KlineInterval::TwoHour) }
        else if str_eq(s, "4hour") { Ok(KlineInterval::FourHour) }
        else if str_eq(s, "6hour") { Ok(KlineInterval::SixHour) }
        else if str_eq(s, "8hour") { Ok(KlineInterval::EightHour) }
        else if str_eq(s, "12hour") { Ok(KlineInterval::TwelveHour) }
        else if str_eq(s, "1day") { Ok(KlineInterval::OneDay) }
        else if str_eq(s, "1week") { Ok(KlineInterval::OneWeek) }
        else {
            let reason = String::from_str("The kline interval '").concat(s).concat("' is not recognized");
            Err(Error::Parse { reason })
        }
    }
}

/// The side of a trade.
#[derive(Clone, Copy, Debug, PartialEq, Eq, Structural, Hash, PartialOrd, Ord)]
pub enum TradeSide {
    Buy,
    Sell,
}

/// `buy` or `sell`.
pub open spec fn trade_side_name(s: TradeSide) -> Seq<char> {
    match s {
        TradeSide::Buy => "buy"@,
        TradeSide::Sell => "sell"@,
    }
}

impl TradeSide {
    /// `buy` or `sell`.
    pub fn as_str(&self) -> (s: &'static str)
        ensures
            s@ == trade_side_name(*self),
    {
        match self {
            TradeSide::Buy => "buy",
            TradeSide::Sell => "sell",
        }
    }

    /// `buy` or `sell` (`Display`).
    pub fn to_string(&self) -> (s: String)
        ensures
            s@ == trade_side_name(*self),
    {
        String::from_str(self.as_str())
    }
}


/// `first` unless it is `0`, else `second`: the lexicographic combination of
/// two comparisons.
pub open spec fn then_order(first: i8, second: i8) -> i8 {
    if first != 0 { first } else { second }
}

/// The order of two instants.
pub open spec fn time_order(a: Time, b: Time) -> i8 {
    crate::decimal::sign_of_difference(a@, b@)
}

pub fn compare_time(a: &Time, b: &Time) -> (r: i8)
    ensures
        r == time_order(*a, *b),
{
    if a.is_before(b) {
        -1
    } else if b.is_before(a) {
        1
    } else {
        0
    }
}

/// The numeric order of two decimals.
pub open spec fn decimal_order(a: Decimal, b: Decimal) -> i8 {
    crate::decimal::sign_of_difference(a@.value(), b@.value())
}

/// A currency the exchange lists.
#[derive(Clone, Debug)]
pub struct Currency {
    pub code: CurrencyCode,
    pub name: String,
    pub full_name: String,
    pub precision: u32,
    pub confirms: usize,
    pub contract_address: String,
    pub withdrawal_min_size: Decimal,
    pub withdrawal_min_fee: Decimal,
    pub is_withdraw_enabled: bool,
    pub is_deposit_enabled: bool,
    pub is_margin_enabled: bool,
    pub is_debit_enabled: bool,
}

impl Currency {
    /// Currencies are identified by their code (`PartialEq`).
    pub fn same_as(&self, other: &Currency) -> (b: bool)
        ensures
            b == (self.code@ == other.code@),
    {
        self.code.same_as(&other.code)
    }

    /// The currency's code (`Display`).
    pub fn to_string(&self) -> (s: String)
        ensures
            s@ == self.code@,
    {
        self.code.to_string()
    }

    /// Currencies are ordered by their code (`Ord`).
    pub fn compare(&self, other: &Currency) -> (r: i8)
        ensures
            r == text_order(self.code@, other.code@),
    {
        self.code.compare(&other.code)
    }
}

/// One kline (candlestick) of a market.
#[derive(Clone, Copy, Debug)]
pub struct Kline {
    pub time: Time,
    pub open: Decimal,
    pub close: Decimal,
    pub high: Decimal,
    pub low: Decimal,
    pub volume: Decimal,
    pub turnover: Decimal,
}

/// The fields of a kline, in the order the API lists them.
#[derive(Clone, Copy, Debug, PartialEq, Eq, Structural)]
pub enum KlineField {
    Time,
    Open,
    Close,
    High,
    Low,
    Volume,
    Turnover,
}

impl KlineField {
    /// The name of the field in the keyed form of a kline.
    pub fn name(&self) -> (s: &'static str)
        ensures
            s@ == (match self {
                KlineField::Time => "time"@,
                KlineField::Open => "open"@,
                KlineField::Close => "close"@,
                KlineField::High => "high"@,
                KlineField::Low => "low"@,
                KlineField::Volume => "volume"@,
                KlineField::Turnover => "turnover"@,
            }),
    {
        match self {
            KlineField::Time => "time",
            KlineField::Open => "open",
            KlineField::Close => "close",
            KlineField::High => "high",
            KlineField::Low => "low",
            KlineField::Volume => "volume",
            KlineField::Turnover => "turnover",
        }
    }
}

/// Why a kline could not be assembled.
#[derive(Clone, Copy, Debug, PartialEq, Eq, Structural)]
pub enum KlineDecodeError {
    /// The listed form ended after this many elements.
    InvalidLength(usize),
    /// The keyed form lacks this field.
    MissingField(KlineField),
}

impl Kline {
    /// Assembles a kline from its listed form `[time, open, close, high,
    /// low, volume, turnover]`: `time` is the first element, if there was
    /// one, and `values` the decimals that followed it. Seven elements are
    /// needed; a shorter list is refused with its length.
    pub fn from_sequence(time: Option<Time>, values: &Vec<Decimal>) -> (r: Result<Kline, KlineDecodeError>)
        ensures
            time is None ==> r == Err::<Kline, KlineDecodeError>(KlineDecodeError::InvalidLength(0)),
            time is Some && values.len() < 6 ==> r == Err::<Kline, KlineDecodeError>(
                KlineDecodeError::InvalidLength((values.len() + 1) as usize),
            ),
            time is Some && values.len() >= 6 ==> r == Ok::<Kline, KlineDecodeError>(
                Kline {
                    time: time->0,
                    open: values[0],
                    close: values[1],
                    high: values[2],
                    low: values[3],
                    volume: values[4],
                    turnover: values[5],
                },
            ),
    {
        match time {
            None => Err(KlineDecodeError::InvalidLength(0)),
            Some(t) => {
                if values.len() < 6 {
                    Err(KlineDecodeError::InvalidLength(values.len() + 1))
                } else {
                    Ok(Kline {
                        time: t,
                        open: values[0],
                        close: values[1],
                        high: values[2],
                        low: values[3],
                        volume: values[4],
                        turnover: values[5],
                    })
                }
            },
        }
    }

    /// Assembles a kline from its keyed form: every field is required, and
    /// the first missing one (in the order time, open, close, high, low,
    /// volume, turnover) is reported.
    pub fn from_fields(
        time: Option<Time>,
        open: Option<Decimal>,
        close: Option<Decimal>,
        high: Option<Decimal>,
        low: Option<Decimal>,
        volume: Option<Decimal>,
        turnover: Option<Decimal>,
    ) -> (r: Result<Kline, KlineDecodeError>)
        ensures
            match (time, open, close, high, low, volume, turnover) {
                (Some(t), Some(o), Some(c), Some(h), Some(l), Some(v), Some(tv)) => r == Ok::<Kline, KlineDecodeError>(
                    Kline { time: t, open: o, close: c, high: h, low: l, volume: v, turnover: tv },
                ),
                _ => r == Err::<Kline, KlineDecodeError>(KlineDecodeError::MissingField(
                    if time is None { KlineField::Time }
                    else if open is None { KlineField::Open }
                    else if close is None { KlineField::Close }
                    else if high is None { KlineField::High }
                    else if low is None { KlineField::Low }
                    else if volume is None { KlineField::Volume }
                    else { KlineField::Turnover },
                )),
            },
    {
        let time = match time { Some(x) => x, None => return Err(KlineDecodeError::MissingField(KlineField::Time)) };
        let open = match open { Some(x) => x, None => return Err(KlineDecodeError::MissingField(KlineField::Open)) };
        let close = match close { Some(x) => x, None => return Err(KlineDecodeError::MissingField(KlineField::Close)) };
        let high = match high { Some(x) => x, None => return Err(KlineDecodeError::MissingField(KlineField::High)) };
        let low = match low { Some(x) => x, None => return Err(KlineDecodeError::MissingField(KlineField::Low)) };
        let volume = match volume { Some(x) => x, None => return Err(KlineDecodeError::MissingField(KlineField::Volume)) };
        let turnover = match turnover { Some(x) => x, None => return Err(KlineDecodeError::MissingField(KlineField::Turnover)) };
        Ok(Kline { time, open, close, high, low, volume, turnover })
    }

    /// Klines are ordered by their time (`Ord`).
    pub fn compare(&self, other: &Kline) -> (r: i8)
        ensures
            r == time_order(self.time, other.time),
    {
        compare_time(&self.time, &other.time)
    }

    /// `T: {time} O: {open} C: {close} H: {high} L: {low} V: {volume}`
    /// (`Display`).
    pub fn to_string(&self) -> (s: String)
        ensures
            s@ == "T: "@ + time_text(self.time) + " O: "@ + decimal_text(self.open@) + " C: "@ + decimal_text(
                self.close@,
            ) + " H: "@ + decimal_text(self.high@) + " L: "@ + decimal_text(self.low@) + " V: "@ + decimal_text(
                self.volume@,
            ),
    {
        let t = self.time.to_string();
        let o = self.open.to_string();
        let c = self.close.to_string();
        let h = self.high.to_string();
        let l = self.low.to_string();
        let v = self.volume.to_string();
        String::from_str("T: ").concat(t.as_str()).concat(" O: ").concat(o.as_str()).concat(" C: ").concat(
            c.as_str(),
        ).concat(" H: ").concat(h.as_str()).concat(" L: ").concat(l.as_str()).concat(" V: ").concat(v.as_str())
    }
}

/// A market (trading pair) the exchange lists.
#[derive(Clone, Debug)]
pub struct Market {
    pub symbol: Symbol,
    pub name: String,
    pub base_currency: CurrencyCode,
    pub quote_currency: CurrencyCode,
    pub market: String,
    pub base_min_size: Decimal,
    pub quote_min_size: Decimal,
    pub base_max_size: Decimal,
    pub quote_max_size: Decimal,
    pub base_increment: Decimal,
    pub quote_increment: Decimal,
    pub price_increment: Decimal,
    pub price_limit_rate: Decimal,
    pub fee_currency: CurrencyCode,
    pub enable_trading: bool,
    pub is_margin_enabled: bool,
}

impl Market {
    /// Markets are identified by their symbol (`PartialEq`).
    pub fn same_as(&self, other: &Market) -> (b: bool)
        ensures
            b == (self.symbol@ == other.symbol@),
    {
        self.symbol.same_as(&other.symbol)
    }

    /// `{symbol} ({market})` (`Display`).
    pub fn to_string(&self) -> (s: String)
        ensures
            s@ == symbol_text(self.symbol@) + " ("@ + self.market@ + ")"@,
    {
        let sym = self.symbol.to_string();
        sym.concat(" (").concat(self.market.as_str()).concat(")")
    }

    /// Markets are ordered by their symbol (`Ord`).
    pub fn compare(&self, other: &Market) -> (r: i8)
        ensures
            r == then_order(text_order(self.symbol@.quote, other.symbol@.quote), text_order(self.symbol@.base, other.symbol@.base)),
    {
        self.symbol.compare(&other.symbol)
    }
}

/// A snapshot of the resting orders of a market: price levels with their
/// total size, under a sequence number.
#[derive(Debug)]
pub struct OrderBook {
    pub sequence: Decimal,
    pub time: Time,
    pub asks: DecimalMap<Decimal>,
    pub bids: DecimalMap<Decimal>,
}

impl Clone for OrderBook {
    fn clone(&self) -> (b: OrderBook)
        ensures
            b.sequence == self.sequence,
            b.time == self.time,
            b.asks@ == self.asks@,
            b.bids@ == self.bids@,
    {
        OrderBook { sequence: self.sequence, time: self.time, asks: self.asks.clone(), bids: self.bids.clone() }
    }
}

impl OrderBook {
    /// An empty book with sequence 0 at the epoch (`Default`).
    pub fn empty() -> (b: OrderBook)
        ensures
            b.sequence@.value() == 0,
            b.time@ == 0,
            b.asks.as_map() == Map::<int, (Decimal, Decimal)>::empty(),
            b.bids.as_map() == Map::<int, (Decimal, Decimal)>::empty(),
    {
        let sequence = Decimal::zero();
        assert(sequence@.value() == 0) by {
            vstd::arithmetic::mul::lemma_mul_basics(crate::decimal::pow10(28));
        }
        OrderBook { sequence, time: Time::unix_epoch(), asks: DecimalMap::new(), bids: DecimalMap::new() }
    }

    /// The book with the given levels; of several levels at one price the
    /// last one listed stands (the deserialization of a book).
    pub fn from_levels(sequence: Decimal, time: Time, asks: Vec<(Decimal, Decimal)>, bids: Vec<(Decimal, Decimal)>) -> (b: OrderBook)
        ensures
            b.sequence == sequence,
            b.time == time,
            b.asks.as_map() == crate::decimal_map::collect_entries(asks@),
            b.bids.as_map() == crate::decimal_map::collect_entries(bids@),
    {
        OrderBook { sequence, time, asks: DecimalMap::from_entries(asks), bids: DecimalMap::from_entries(bids) }
    }

    /// Books are ordered by sequence, then by time (`Ord`).
    pub fn compare(&self, other: &OrderBook) -> (r: i8)
        ensures
            r == then_order(decimal_order(self.sequence, other.sequence), time_order(self.time, other.time)),
    {
        let s = self.sequence.compare(&other.sequence);
        if s != 0 { s } else { compare_time(&self.time, &other.time) }
    }
}

impl Default for OrderBook {
    fn default() -> (b: OrderBook)
        ensures
            b.sequence@.value() == 0,
            b.time@ == 0,
            b.asks.as_map() == Map::<int, (Decimal, Decimal)>::empty(),
            b.bids.as_map() == Map::<int, (Decimal, Decimal)>::empty(),
    {
        OrderBook::empty()
    }
}

/// How much of the order book to request.
#[derive(Clone, Copy, Debug, PartialEq, Eq, Structural)]
pub enum OrderBookDepth {
    Partial20,
    Partial100,
    Full,
}

/// The query of the current USD prices of currencies.
#[derive(Clone, Debug)]
pub struct PricesRequest {
    currencies: Option<String>,
}

impl PricesRequest {
    /// A query of all currencies.
    pub fn new() -> (r: PricesRequest)
        ensures
            r.currencies_param() is None,
    {
        PricesRequest { currencies: None }
    }

    pub closed spec fn currencies_param(self) -> Option<Seq<char>> {
        match self.currencies {
            Some(s) => Some(s@),
            None => None,
        }
    }

    /// Restricts the query to the given currencies, listed comma-separated.
    pub fn currencies(self, currencies: &Vec<CurrencyCode>) -> (r: PricesRequest)
        ensures
            r.currencies_param() == Some(crate::utils::comma_join(currencies@.map_values(|c: CurrencyCode| c@))),
    {
        let mut texts: Vec<String> = Vec::new();
        let mut i: usize = 0;
        while i < currencies.len()
            invariant
                i <= currencies@.len(),
                texts@.len() == i,
                forall|j: int| 0 <= j < i ==> #[trigger] texts@[j]@ == currencies@[j]@,
            decreases currencies@.len() - i,
        {
            texts.push(currencies[i].to_string());
            i = i + 1;
        }
        let csv = crate::utils::iter_to_csv(&texts);
        assert(texts@.map_values(|t: String| t@) =~= currencies@.map_values(|c: CurrencyCode| c@));
        PricesRequest { currencies: Some(csv) }
    }

    /// The value of the `currencies` query parameter, if any.
    pub fn currencies_text(&self) -> (s: Option<&String>)
        ensures
            match s {
                Some(t) => self.currencies_param() == Some(t@),
                None => self.currencies_param() is None,
            },
    {
        match &self.currencies {
            Some(t) => Some(t),
            None => None,
        }
    }
}

impl Default for PricesRequest {
    fn default() -> (r: PricesRequest)
        ensures
            r.currencies_param() is None,
    {
        PricesRequest::new()
    }
}

/// The query of the klines of a market over a period.
#[derive(Clone, Debug)]
pub struct KlinesRequest {
    pub symbol: Symbol,
    pub start_at: Time,
    pub end_at: Time,
    pub interval: KlineInterval,
}

impl KlinesRequest {
    pub fn new(symbol: Symbol, start_at: Time, end_at: Time, interval: KlineInterval) -> (r: KlinesRequest)
        ensures
            r.symbol@ == symbol@,
            r.start_at == start_at,
            r.end_at == end_at,
            r.interval == interval,
    {
        KlinesRequest { symbol, start_at, end_at, interval }
    }
}

/// 24-hour statistics of a market.
#[derive(Clone, Debug)]
pub struct Stats24hr {
    pub time: Time,
    pub symbol: Symbol,
    pub buy: Decimal,
    pub sell: Decimal,
    pub change_rate: Decimal,
    pub change_price: Decimal,
    pub high: Decimal,
    pub low: Decimal,
    pub vol_base: Decimal,
    pub vol_quote: Decimal,
    pub last: Decimal,
    pub average_price: Decimal,
    pub taker_fee_rate: Decimal,
    pub maker_fee_rate: Decimal,
    pub taker_coefficient: Decimal,
    pub maker_coefficient: Decimal,
}

impl Stats24hr {
    /// Statistics are ordered by time, then by symbol (`Ord`).
    pub fn compare(&self, other: &Stats24hr) -> (r: i8)
        ensures
            r == then_order(
                time_order(self.time, other.time),
                then_order(text_order(self.symbol@.quote, other.symbol@.quote), text_order(self.symbol@.base, other.symbol@.base)),
            ),
    {
        let t = compare_time(&self.time, &other.time);
        if t != 0 { t } else { self.symbol.compare(&other.symbol) }
    }
}

/// Which markets' 24-hour statistics to request.
#[derive(Clone, Debug)]
pub enum Stats24hrRequest {
    All,
    Symbol(Symbol),
}

/// The last trade and best prices of a market.
#[derive(Clone, Copy, Debug)]
pub struct Ticker {
    pub time: Time,
    pub sequence: Decimal,
    pub size: Decimal,
    pub price: Decimal,
    pub best_bid_size: Decimal,
    pub best_bid: Decimal,
    pub best_ask_size: Decimal,
    pub best_ask: Decimal,
}

impl Ticker {
    /// `{time}: {size} @ {price}` (`Display`).
    pub fn to_string(&self) -> (s: String)
        ensures
            s@ == time_text(self.time) + ": "@ + decimal_text(self.size@) + " @ "@ + decimal_text(self.price@),
    {
        let t = self.time.to_string();
        let size = self.size.to_string();
        let price = self.price.to_string();
        t.concat(": ").concat(size.as_str()).concat(" @ ").concat(price.as_str())
    }

    /// Tickers are ordered by sequence, then by time (`Ord`).
    pub fn compare(&self, other: &Ticker) -> (r: i8)
        ensures
            r == then_order(decimal_order(self.sequence, other.sequence), time_order(self.time, other.time)),
    {
        let s = self.sequence.compare(&other.sequence);
        if s != 0 { s } else { compare_time(&self.time, &other.time) }
    }
}

/// A trade that took place in a market.
#[derive(Clone, Copy, Debug)]
pub struct Trade {
    pub sequence: Decimal,
    pub time: Time,
    pub price: Decimal,
    pub size: Decimal,
    pub side: TradeSide,
}

impl Trade {
    /// `{time}: {side} {size} @ {price}` (`Display`).
    pub fn to_string(&self) -> (s: String)
        ensures
            s@ == time_text(self.time) + ": "@ + trade_side_name(self.side) + " "@ + decimal_text(self.size@) + " @ "@
                + decimal_text(self.price@),
    {
        let t = self.time.to_string();
        let size = self.size.to_string();
        let price = self.price.to_string();
        t.concat(": ").concat(self.side.as_str()).concat(" ").concat(size.as_str()).concat(" @ ").concat(
            price.as_str(),
        )
    }

    /// Trades are ordered by sequence, then by time (`Ord`).
    pub fn compare(&self, other: &Trade) -> (r: i8)
        ensures
            r == then_order(decimal_order(self.sequence, other.sequence), time_order(self.time, other.time)),
    {
        let s = self.sequence.compare(&other.sequence);
        if s != 0 { s } else { compare_time(&self.time, &other.time) }
    }
}


/// The path of one currency's details: `/api/v1/currencies/{code}`.
pub fn currency_path(code: &CurrencyCode) -> (p: String)
    ensures
        p@ == "/api/v1/currencies/"@ + code@,
{
    String::from_str("/api/v1/currencies/").concat(code.as_str())
}

/// The endpoint of an order book of the given depth.
pub open spec fn order_book_endpoint(depth: OrderBookDepth) -> Seq<char> {
    match depth {
        OrderBookDepth::Partial20 => "/api/v1/market/orderbook/level2_20"@,
        OrderBookDepth::Partial100 => "/api/v1/market/orderbook/level2_100"@,
        OrderBookDepth::Full => "/api/v3/market/orderbook/level2"@,
    }
}

/// The path of a market's order book: `{endpoint}?symbol={symbol}`.
pub fn order_book_path(symbol: &Symbol, depth: OrderBookDepth) -> (p: String)
    ensures
        p@ == order_book_endpoint(depth) + "?symbol="@ + symbol_text(symbol@),
{
    let url = match depth {
        OrderBookDepth::Partial20 => "/api/v1/market/orderbook/level2_20",
        OrderBookDepth::Partial100 => "/api/v1/market/orderbook/level2_100",
        OrderBookDepth::Full => "/api/v3/market/orderbook/level2",
    };
    let sym = symbol.to_string();
    String::from_str(url).concat("?symbol=").concat(sym.as_str())
}

/// The path of the 24-hour statistics: those of one market, or of all.
pub fn stats_24hr_path(req: &Stats24hrRequest) -> (p: String)
    ensures
        p@ == (match req {
            Stats24hrRequest::Symbol(sym) => "/api/v1/market/stats?symbol="@ + symbol_text(sym@),
            Stats24hrRequest::All => "/api/v1/market/allTickers"@,
        }),
{
    match req {
        Stats24hrRequest::Symbol(sym) => {
            let t = sym.to_string();
            String::from_str("/api/v1/market/stats?symbol=").concat(t.as_str())
        },
        Stats24hrRequest::All => String::from_str("/api/v1/market/allTickers"),
    }
}

/// The path of a market's ticker.
pub fn ticker_path(symbol: &Symbol) -> (p: String)
    ensures
        p@ == "/api/v1/market/orderbook/level1?symbol="@ + symbol_text(symbol@),
{
    let t = symbol.to_string();
    String::from_str("/api/v1/market/orderbook/level1?symbol=").concat(t.as_str())
}

/// The path of a market's trade history.
pub fn trades_path(symbol: &Symbol) -> (p: String)
    ensures
        p@ == "/api/v1/market/histories?symbol="@ + symbol_text(symbol@),
{
    let t = symbol.to_string();
    String::from_str("/api/v1/market/histories?symbol=").concat(t.as_str())
}

/// The all-markets statistics carry one time for all of them: each ticker
/// is given that time, and is otherwise left as it is.
pub fn stamp_stats_time(tickers: Vec<Stats24hr>, time: Time) -> (r: Vec<Stats24hr>)
    ensures
        r@.len() == tickers@.len(),
        forall|i: int| 0 <= i < r@.len() ==> #[trigger] r@[i] == (Stats24hr { time, ..tickers@[i] }),
{
    let mut rest = tickers;
    let ghost given = rest@;
    let mut reversed: Vec<Stats24hr> = Vec::new();
    while rest.len() > 0
        invariant
            rest@.len() + reversed@.len() == given.len(),
            rest@ == given.take(rest@.len() as int),
            forall|j: int| 0 <= j < reversed@.len() ==> #[trigger] reversed@[j] == given[given.len() - 1 - j],
        decreases rest@.len(),
    {
        let t = rest.pop().unwrap();
        reversed.push(t);
        assert(rest@ =~= given.take(rest@.len() as int));
    }
    let mut out: Vec<Stats24hr> = Vec::new();
    while reversed.len() > 0
        invariant
            reversed@.len() + out@.len() == given.len(),
            forall|j: int| 0 <= j < reversed@.len() ==> #[trigger] reversed@[j] == given[given.len() - 1 - j],
            forall|j: int| 0 <= j < out@.len() ==> #[trigger] out@[j] == (Stats24hr { time, ..given[j] }),
        decreases reversed@.len(),
    {
        let t = reversed.pop().unwrap();
        out.push(Stats24hr { time, ..t });
    }
    out
}

} // verus!

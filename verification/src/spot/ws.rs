//! The websocket API: topics, subscription requests, connection setup and
//! the bookkeeping of subscriptions.

use vstd::prelude::*;

use crate::assoc::{
    assoc_map, distinct, elements, has_assoc, keys_unique, lemma_assoc_at, lemma_assoc_push, lemma_assoc_remove,
    lemma_elements_push, lemma_elements_remove,
};
use crate::error::{Error, SystemCode, SystemError};
use crate::spot::market::{
    interval_name, interval_parse, interval_parse_error, symbol_parse, symbol_parse_error, symbol_text,
    KlineInterval, Symbol, SymbolView,
};
use crate::text::{has_char, split_once, split_once_spec, str_eq};

verus! {

/// A channel of the websocket feed.
#[derive(Debug)]
pub enum Topic {
    AccountBalance,
    AdvancedOrder,
    Klines { symbol: Symbol, interval: KlineInterval },
    Level2(Symbol),
    Level2Best5(Symbol),
    Level2Best50(Symbol),
    OrderChange,
    Snapshot(Symbol),
    Ticker(Symbol),
    Trade(Symbol),
}

/// The abstract content of a topic.
pub enum TopicView {
    AccountBalance,
    AdvancedOrder,
    Klines { symbol: SymbolView, interval: KlineInterval },
    Level2(SymbolView),
    Level2Best5(SymbolView),
    Level2Best50(SymbolView),
    OrderChange,
    Snapshot(SymbolView),
    Ticker(SymbolView),
    Trade(SymbolView),
}

impl View for Topic {
    type V = TopicView;

    open spec fn view(&self) -> TopicView {
        match self {
            Topic::AccountBalance => TopicView::AccountBalance,
            Topic::AdvancedOrder => TopicView::AdvancedOrder,
            Topic::Klines { symbol, interval } => TopicView::Klines { symbol: symbol@, interval: *interval },
            Topic::Level2(s) => TopicView::Level2(s@),
            Topic::Level2Best5(s) => TopicView::Level2Best5(s@),
            Topic::Level2Best50(s) => TopicView::Level2Best50(s@),
            Topic::OrderChange => TopicView::OrderChange,
            Topic::Snapshot(s) => TopicView::Snapshot(s@),
            Topic::Ticker(s) => TopicView::Ticker(s@),
            Topic::Trade(s) => TopicView::Trade(s@),
        }
    }
}

/// The text of a topic, by which the feed names it.
pub open spec fn topic_text(t: TopicView) -> Seq<char> {
    match t {
        TopicView::AccountBalance => "/account/balance"@,
        TopicView::AdvancedOrder => "/spotMarket/advancedOrders"@,
        TopicView::Klines { symbol, interval } => "/market/candles:"@ + symbol_text(symbol) + seq!['_'] + interval_name(interval),
        TopicView::Level2(s) => "/market/level2:"@ + symbol_text(s),
        TopicView::Level2Best5(s) => "/spotMarket/level2Depth5:"@ + symbol_text(s),
        TopicView::Level2Best50(s) => "/spotMarket/level2Depth50:"@ + symbol_text(s),
        TopicView::OrderChange => "/spotMarket/tradeOrders"@,
        TopicView::Snapshot(s) => "/market/snapshot:"@ + symbol_text(s),
        TopicView::Ticker(s) => "/market/ticker:"@ + symbol_text(s),
        TopicView::Trade(s) => "/market/match:"@ + symbol_text(s),
    }
}

/// A topic whose parameter is a symbol, read from the text of the symbol.
pub open spec fn symbol_topic(params: Seq<char>, make: spec_fn(SymbolView) -> TopicView) -> Result<TopicView, Seq<char>> {
    match symbol_parse(params) {
        Some(s) => Ok(make(s)),
        None => Err(symbol_parse_error(params)),
    }
}

/// The topic a text names, or the message of the error it gives: the text
/// is a topic name and its parameters, separated by the first `:`.
pub open spec fn topic_parse(s: Seq<char>) -> Result<TopicView, Seq<char>> {
    match split_once_spec(s, ':') {
        None => Err("The topic '"@ + s + "' is not colon-delimited"@),
        Some((name, params)) => {
            if name == "/account/balance"@ {
                Ok(TopicView::AccountBalance)
            } else if name == "/spotMarket/advancedOrders"@ {
                Ok(TopicView::AdvancedOrder)
            } else if name == "/market/candles"@ {
                match split_once_spec(params, '_') {
                    Some((sym, iv)) => match symbol_parse(sym) {
                        Some(symbol) => match interval_parse(iv) {
                            Some(interval) => Ok(TopicView::Klines { symbol, interval }),
                            None => Err(interval_parse_error(iv)),
                        },
                        None => Err(symbol_parse_error(sym)),
                    },
                    None => Err("The klines symbol_interval combination '"@ + params + "' is not underscore-delimited"@),
                }
            } else if name == "/market/level2"@ {
                symbol_topic(params, |x: SymbolView| TopicView::Level2(x))
            } else if name == "/spotMarket/level2Depth5"@ {
                symbol_topic(params, |x: SymbolView| TopicView::Level2Best5(x))
            } else if name == "/spotMarket/level2Depth50"@ {
                symbol_topic(params, |x: SymbolView| TopicView::Level2Best50(x))
            } else if name == "/spotMarket/tradeOrders"@ {
                Ok(TopicView::OrderChange)
            } else if name == "/market/snapshot"@ {
                symbol_topic(params, |x: SymbolView| TopicView::Snapshot(x))
            } else if name == "/market/ticker"@ {
                symbol_topic(params, |x: SymbolView| TopicView::Ticker(x))
            } else if name == "/market/match"@ {
                symbol_topic(params, |x: SymbolView| TopicView::Trade(x))
            } else {
                Err("The topic '"@ + name + "' is not recognized"@)
            }
        },
    }
}

/// Whether a topic is one of the private channels, which need credentials.
pub open spec fn topic_is_private(t: TopicView) -> bool {
    match t {
        TopicView::AccountBalance | TopicView::AdvancedOrder | TopicView::OrderChange => true,
        _ => false,
    }
}

fn parse_symbol_param(params: &str) -> (r: Result<Symbol, Error>)
    ensures
        match symbol_parse(params@) {
            Some(v) => r matches Ok(sym) && sym@ == v,
            None => r matches Err(Error::Parse { reason }) && reason@ == symbol_parse_error(params@),
        },
{
    Symbol::from_str(params)
}

impl Topic {
    /// Whether the topic is a private channel (account balance, advanced
    /// orders, order changes).
    pub fn is_private(&self) -> (b: bool)
        ensures
            b == topic_is_private(self@),
    {
        match self {
            Topic::AccountBalance | Topic::AdvancedOrder | Topic::OrderChange => true,
            Topic::Klines { .. }
            | Topic::Level2(_)
            | Topic::Level2Best5(_)
            | Topic::Level2Best50(_)
            | Topic::Snapshot(_)
            | Topic::Ticker(_)
            | Topic::Trade(_) => false,
        }
    }

    /// The text of the topic (`Display`).
    pub fn to_string(&self) -> (s: String)
        ensures
            s@ == topic_text(self@),
    {
        match self {
            Topic::AccountBalance => String::from_str("/account/balance"),
            Topic::AdvancedOrder => String::from_str("/spotMarket/advancedOrders"),
            Topic::Klines { symbol, interval } => {
                let sym = symbol.to_string();
                let s = String::from_str("/market/candles:").concat(sym.as_str()).concat("_").concat(interval.as_str());
                proof {
                    reveal_strlit("_");
                }
                assert(s@ =~= topic_text(self@));
                s
            },
            Topic::Level2(symbol) => {
                let sym = symbol.to_string();
                String::from_str("/market/level2:").concat(sym.as_str())
            },
            Topic::Level2Best5(symbol) => {
                let sym = symbol.to_string();
                String::from_str("/spotMarket/level2Depth5:").concat(sym.as_str())
            },
            Topic::Level2Best50(symbol) => {
                let sym = symbol.to_string();
                String::from_str("/spotMarket/level2Depth50:").concat(sym.as_str())
            },
            Topic::OrderChange => String::from_str("/spotMarket/tradeOrders"),
            Topic::Snapshot(symbol) => {
                let sym = symbol.to_string();
                String::from_str("/market/snapshot:").concat(sym.as_str())
            },
            Topic::Ticker(symbol) => {
                let sym = symbol.to_string();
                String::from_str("/market/ticker:").concat(sym.as_str())
            },
            Topic::Trade(symbol) => {
                let sym = symbol.to_string();
                String::from_str("/market/match:").concat(sym.as_str())
            },
        }
    }

    /// Reads a topic from its text.
    pub fn from_str(s: &str) -> (r: Result<Topic, Error>)
        ensures
            match topic_parse(s@) {
                Ok(v) => r matches Ok(t) && t@ == v,
                Err(msg) => r matches Err(Error::Parse { reason }) && reason@ == msg,
            },
    {
        match split_once(s, ':') {
            None => {
                let reason = String::from_str("The topic '").concat(s).concat("' is not colon-delimited");
                Err(Error::Parse { reason })
            },
            Some((name, params)) => {
                let n = name.as_str();
                let p = params.as_str();
                if str_eq(n, "/account/balance") {
                    Ok(Topic::AccountBalance)
                } else if str_eq(n, "/spotMarket/advancedOrders") {
                    Ok(Topic::AdvancedOrder)
                } else if str_eq(n, "/market/candles") {
                    match split_once(p, '_') {
                        Some((sym, iv)) => match parse_symbol_param(sym.as_str()) {
                            Ok(symbol) => match KlineInterval::from_str(iv.as_str()) {
                                Ok(interval) => Ok(Topic::Klines { symbol, interval }),
                                Err(e) => Err(e),
                            },
                            Err(e) => Err(e),
                        },
                        None => {
                            let reason = String::from_str("The klines symbol_interval combination '").concat(p).concat(
                                "' is not underscore-delimited",
                            );
                            Err(Error::Parse { reason })
                        },
                    }
                } else if str_eq(n, "/market/level2") {
                    match parse_symbol_param(p) {
                        Ok(symbol) => Ok(Topic::Level2(symbol)),
                        Err(e) => Err(e),
                    }
                } else if str_eq(n, "/spotMarket/level2Depth5") {
                    match parse_symbol_param(p) {
                        Ok(symbol) => Ok(Topic::Level2Best5(symbol)),
                        Err(e) => Err(e),
                    }
                } else if str_eq(n, "/spotMarket/level2Depth50") {
                    match parse_symbol_param(p) {
                        Ok(symbol) => Ok(Topic::Level2Best50(symbol)),
                        Err(e) => Err(e),
                    }
                } else if str_eq(n, "/spotMarket/tradeOrders") {
                    Ok(Topic::OrderChange)
                } else if str_eq(n, "/market/snapshot") {
                    match parse_symbol_param(p) {
                        Ok(symbol) => Ok(Topic::Snapshot(symbol)),
                        Err(e) => Err(e),
                    }
                } else if str_eq(n, "/market/ticker") {
                    match parse_symbol_param(p) {
                        Ok(symbol) => Ok(Topic::Ticker(symbol)),
                        Err(e) => Err(e),
                    }
                } else if str_eq(n, "/market/match") {
                    match parse_symbol_param(p) {
                        Ok(symbol) => Ok(Topic::Trade(symbol)),
                        Err(e) => Err(e),
                    }
                } else {
                    let reason = String::from_str("The topic '").concat(n).concat("' is not recognized");
                    Err(Error::Parse { reason })
                }
            },
        }
    }
}

/// The facts about the topic names that reading topics back relies on:
/// their lengths, that they hold no `:`, and where names of equal length
/// differ.
proof fn lemma_topic_names()
    ensures
        "/account/balance"@.len() == 16,
        !has_char("/account/balance"@, ':'),
        "/spotMarket/advancedOrders"@.len() == 26,
        !has_char("/spotMarket/advancedOrders"@, ':'),
        "/market/candles"@.len() == 15,
        !has_char("/market/candles"@, ':'),
        "/market/level2"@.len() == 14,
        !has_char("/market/level2"@, ':'),
        "/spotMarket/level2Depth5"@.len() == 24,
        !has_char("/spotMarket/level2Depth5"@, ':'),
        "/spotMarket/level2Depth50"@.len() == 25,
        !has_char("/spotMarket/level2Depth50"@, ':'),
        "/spotMarket/tradeOrders"@.len() == 23,
        !has_char("/spotMarket/tradeOrders"@, ':'),
        "/market/snapshot"@.len() == 16,
        !has_char("/market/snapshot"@, ':'),
        "/market/ticker"@.len() == 14,
        !has_char("/market/ticker"@, ':'),
        "/market/match"@.len() == 13,
        !has_char("/market/match"@, ':'),
        "/account/balance"@[1] != "/market/snapshot"@[1],
        "/market/level2"@[8] != "/market/ticker"@[8],
        "/market/candles:"@ =~= "/market/candles"@ + seq![':'],
        "/market/level2:"@ =~= "/market/level2"@ + seq![':'],
        "/spotMarket/level2Depth5:"@ =~= "/spotMarket/level2Depth5"@ + seq![':'],
        "/spotMarket/level2Depth50:"@ =~= "/spotMarket/level2Depth50"@ + seq![':'],
        "/market/snapshot:"@ =~= "/market/snapshot"@ + seq![':'],
        "/market/ticker:"@ =~= "/market/ticker"@ + seq![':'],
        "/market/match:"@ =~= "/market/match"@ + seq![':'],
{
    reveal_strlit("/account/balance");
    reveal_strlit("/spotMarket/advancedOrders");
    reveal_strlit("/market/candles");
    reveal_strlit("/market/level2");
    reveal_strlit("/spotMarket/level2Depth5");
    reveal_strlit("/spotMarket/level2Depth50");
    reveal_strlit("/spotMarket/tradeOrders");
    reveal_strlit("/market/snapshot");
    reveal_strlit("/market/ticker");
    reveal_strlit("/market/match");
    reveal_strlit("/market/candles:");
    reveal_strlit("/market/level2:");
    reveal_strlit("/spotMarket/level2Depth5:");
    reveal_strlit("/spotMarket/level2Depth50:");
    reveal_strlit("/market/snapshot:");
    reveal_strlit("/market/ticker:");
    reveal_strlit("/market/match:");
    assert forall|i: int| 0 <= i < 16 implies #[trigger] "/account/balance"@[i] != ':' by { if i == 0 {} else if i == 1 {} else if i == 2 {} else if i == 3 {} else if i == 4 {} else if i == 5 {} else if i == 6 {} else if i == 7 {} else if i == 8 {} else if i == 9 {} else if i == 10 {} else if i == 11 {} else if i == 12 {} else if i == 13 {} else if i == 14 {} else if i == 15 {} }
    assert(!has_char("/account/balance"@, ':'));
    assert forall|i: int| 0 <= i < 26 implies #[trigger] "/spotMarket/advancedOrders"@[i] != ':' by { if i == 0 {} else if i == 1 {} else if i == 2 {} else if i == 3 {} else if i == 4 {} else if i == 5 {} else if i == 6 {} else if i == 7 {} else if i == 8 {} else if i == 9 {} else if i == 10 {} else if i == 11 {} else if i == 12 {} else if i == 13 {} else if i == 14 {} else if i == 15 {} else if i == 16 {} else if i == 17 {} else if i == 18 {} else if i == 19 {} else if i == 20 {} else if i == 21 {} else if i == 22 {} else if i == 23 {} else if i == 24 {} else if i == 25 {} }
    assert(!has_char("/spotMarket/advancedOrders"@, ':'));
    assert forall|i: int| 0 <= i < 15 implies #[trigger] "/market/candles"@[i] != ':' by { if i == 0 {} else if i == 1 {} else if i == 2 {} else if i == 3 {} else if i == 4 {} else if i == 5 {} else if i == 6 {} else if i == 7 {} else if i == 8 {} else if i == 9 {} else if i == 10 {} else if i == 11 {} else if i == 12 {} else if i == 13 {} else if i == 14 {} }
    assert(!has_char("/market/candles"@, ':'));
    assert forall|i: int| 0 <= i < 14 implies #[trigger] "/market/level2"@[i] != ':' by { if i == 0 {} else if i == 1 {} else if i == 2 {} else if i == 3 {} else if i == 4 {} else if i == 5 {} else if i == 6 {} else if i == 7 {} else if i == 8 {} else if i == 9 {} else if i == 10 {} else if i == 11 {} else if i == 12 {} else if i == 13 {} }
    assert(!has_char("/market/level2"@, ':'));
    assert forall|i: int| 0 <= i < 24 implies #[trigger] "/spotMarket/level2Depth5"@[i] != ':' by { if i == 0 {} else if i == 1 {} else if i == 2 {} else if i == 3 {} else if i == 4 {} else if i == 5 {} else if i == 6 {} else if i == 7 {} else if i == 8 {} else if i == 9 {} else if i == 10 {} else if i == 11 {} else if i == 12 {} else if i == 13 {} else if i == 14 {} else if i == 15 {} else if i == 16 {} else if i == 17 {} else if i == 18 {} else if i == 19 {} else if i == 20 {} else if i == 21 {} else if i == 22 {} else if i == 23 {} }
    assert(!has_char("/spotMarket/level2Depth5"@, ':'));
    assert forall|i: int| 0 <= i < 25 implies #[trigger] "/spotMarket/level2Depth50"@[i] != ':' by { if i == 0 {} else if i == 1 {} else if i == 2 {} else if i == 3 {} else if i == 4 {} else if i == 5 {} else if i == 6 {} else if i == 7 {} else if i == 8 {} else if i == 9 {} else if i == 10 {} else if i == 11 {} else if i == 12 {} else if i == 13 {} else if i == 14 {} else if i == 15 {} else if i == 16 {} else if i == 17 {} else if i == 18 {} else if i == 19 {} else if i == 20 {} else if i == 21 {} else if i == 22 {} else if i == 23 {} else if i == 24 {} }
    assert(!has_char("/spotMarket/level2Depth50"@, ':'));
    assert forall|i: int| 0 <= i < 23 implies #[trigger] "/spotMarket/tradeOrders"@[i] != ':' by { if i == 0 {} else if i == 1 {} else if i == 2 {} else if i == 3 {} else if i == 4 {} else if i == 5 {} else if i == 6 {} else if i == 7 {} else if i == 8 {} else if i == 9 {} else if i == 10 {} else if i == 11 {} else if i == 12 {} else if i == 13 {} else if i == 14 {} else if i == 15 {} else if i == 16 {} else if i == 17 {} else if i == 18 {} else if i == 19 {} else if i == 20 {} else if i == 21 {} else if i == 22 {} }
    assert(!has_char("/spotMarket/tradeOrders"@, ':'));
    assert forall|i: int| 0 <= i < 16 implies #[trigger] "/market/snapshot"@[i] != ':' by { if i == 0 {} else if i == 1 {} else if i == 2 {} else if i == 3 {} else if i == 4 {} else if i == 5 {} else if i == 6 {} else if i == 7 {} else if i == 8 {} else if i == 9 {} else if i == 10 {} else if i == 11 {} else if i == 12 {} else if i == 13 {} else if i == 14 {} else if i == 15 {} }
    assert(!has_char("/market/snapshot"@, ':'));
    assert forall|i: int| 0 <= i < 14 implies #[trigger] "/market/ticker"@[i] != ':' by { if i == 0 {} else if i == 1 {} else if i == 2 {} else if i == 3 {} else if i == 4 {} else if i == 5 {} else if i == 6 {} else if i == 7 {} else if i == 8 {} else if i == 9 {} else if i == 10 {} else if i == 11 {} else if i == 12 {} else if i == 13 {} }
    assert(!has_char("/market/ticker"@, ':'));
    assert forall|i: int| 0 <= i < 13 implies #[trigger] "/market/match"@[i] != ':' by { if i == 0 {} else if i == 1 {} else if i == 2 {} else if i == 3 {} else if i == 4 {} else if i == 5 {} else if i == 6 {} else if i == 7 {} else if i == 8 {} else if i == 9 {} else if i == 10 {} else if i == 11 {} else if i == 12 {} }
    assert(!has_char("/market/match"@, ':'));
}

/// The symbol a topic is about, if any.
pub open spec fn topic_symbol(t: TopicView) -> Option<SymbolView> {
    match t {
        TopicView::Klines { symbol, .. } => Some(symbol),
        TopicView::Level2(s) => Some(s),
        TopicView::Level2Best5(s) => Some(s),
        TopicView::Level2Best50(s) => Some(s),
        TopicView::Snapshot(s) => Some(s),
        TopicView::Ticker(s) => Some(s),
        TopicView::Trade(s) => Some(s),
        _ => None,
    }
}

/// Reading back the text of a topic about a symbol gives the topic, when
/// the base currency of the symbol holds no `-` and, for klines, neither
/// currency holds `_`. (The texts of the topics without parameters hold no
/// `:` and are not read back.)
#[verifier::spinoff_prover]
#[verifier::rlimit(60)]
pub proof fn lemma_topic_text_parse(t: TopicView)
    requires
        topic_symbol(t) is Some,
        !has_char(topic_symbol(t)->Some_0.base, '-'),
        t is Klines ==> !has_char(topic_symbol(t)->Some_0.base, '_') && !has_char(topic_symbol(t)->Some_0.quote, '_'),
    ensures
        topic_parse(topic_text(t)) == Ok::<TopicView, Seq<char>>(t),
{
    lemma_topic_names();
    let sym = topic_symbol(t)->Some_0;
    crate::spot::market::lemma_symbol_text_parse(sym);
    let name: Seq<char> = match t {
        TopicView::Klines { .. } => "/market/candles"@,
        TopicView::Level2(_) => "/market/level2"@,
        TopicView::Level2Best5(_) => "/spotMarket/level2Depth5"@,
        TopicView::Level2Best50(_) => "/spotMarket/level2Depth50"@,
        TopicView::Snapshot(_) => "/market/snapshot"@,
        TopicView::Ticker(_) => "/market/ticker"@,
        _ => "/market/match"@,
    };
    let params: Seq<char> = match t {
        TopicView::Klines { symbol, interval } => symbol_text(symbol) + seq!['_'] + interval_name(interval),
        _ => symbol_text(sym),
    };
    let text = topic_text(t);
    assert(text =~= name + seq![':'] + params);
    let i = name.len() as int;
    assert(text.take(i) =~= name);
    assert(text.skip(i + 1) =~= params);
    assert(text[i] == ':');
    crate::text::lemma_split_once_at(text, ':', i);
    if let TopicView::Klines { symbol, interval } = t {
        let st = symbol_text(symbol);
        let j = st.len() as int;
        assert(!has_char(st, '_')) by {
            if has_char(st, '_') {
                let k = choose|k: int| 0 <= k < st.len() && st[k] == '_';
                if k < symbol.base.len() {
                    assert(symbol.base[k] == '_');
                } else if k > symbol.base.len() {
                    assert(symbol.quote[k - symbol.base.len() - 1] == '_');
                }
            }
        }
        assert(params.take(j) =~= st);
        assert(params.skip(j + 1) =~= interval_name(interval));
        assert(params[j] == '_');
        crate::text::lemma_split_once_at(params, '_', j);
        crate::spot::market::lemma_interval_name_parse(interval, interval_name(interval));
    }
}

/// Rendering a topic about a symbol read from a text gives back the text.
#[verifier::spinoff_prover]
#[verifier::rlimit(60)]
pub proof fn lemma_topic_parse_text(s: Seq<char>)
    requires
        topic_parse(s) is Ok,
        topic_symbol(topic_parse(s)->Ok_0) is Some,
    ensures
        topic_text(topic_parse(s)->Ok_0) == s,
{
    lemma_topic_names();
    let t = topic_parse(s)->Ok_0;
    let (name, params) = split_once_spec(s, ':')->Some_0;
    crate::text::lemma_split_once_joins(s, ':');
    if let TopicView::Klines { symbol, interval } = t {
        let (st, iv) = split_once_spec(params, '_')->Some_0;
        crate::text::lemma_split_once_joins(params, '_');
        crate::spot::market::lemma_symbol_parse_text(st);
        crate::spot::market::lemma_interval_name_parse(interval, iv);
        assert(topic_text(t) =~= s);
    } else {
        crate::spot::market::lemma_symbol_parse_text(params);
        assert(topic_text(t) =~= s);
    }
}

/// The texts of the channels without parameters are the feed's fixed
/// names: `/account/balance` for the account balance, the advanced (stop)
/// orders at `/spotMarket/advancedOrders`, the order changes at
/// `/spotMarket/tradeOrders`.
pub proof fn lemma_private_topic_names()
    ensures
        topic_text(TopicView::AccountBalance) == "/account/balance"@,
        topic_text(TopicView::AdvancedOrder) == "/spotMarket/advancedOrders"@,
        topic_text(TopicView::OrderChange) == "/spotMarket/tradeOrders"@,
        topic_text(TopicView::AdvancedOrder) != topic_text(TopicView::OrderChange),
{
    lemma_topic_names();
}

/// A channel without parameters is read back from its text followed by `:`
/// and any parameters (which it ignores).
#[verifier::spinoff_prover]
#[verifier::rlimit(60)]
pub proof fn lemma_private_topic_parse(t: TopicView, params: Seq<char>)
    requires
        topic_symbol(t) is None,
    ensures
        topic_parse(topic_text(t) + seq![':'] + params) == Ok::<TopicView, Seq<char>>(t),
{
    lemma_topic_names();
    let name = topic_text(t);
    let text = name + seq![':'] + params;
    let i = name.len() as int;
    assert(text.take(i) =~= name);
    assert(text.skip(i + 1) =~= params);
    assert(text[i] == ':');
    crate::text::lemma_split_once_at(text, ':', i);
}

impl Clone for Topic {
    fn clone(&self) -> (t: Topic)
        ensures
            t@ == self@,
    {
        match self {
            Topic::AccountBalance => Topic::AccountBalance,
            Topic::AdvancedOrder => Topic::AdvancedOrder,
            Topic::Klines { symbol, interval } => Topic::Klines { symbol: symbol.clone(), interval: *interval },
            Topic::Level2(s) => Topic::Level2(s.clone()),
            Topic::Level2Best5(s) => Topic::Level2Best5(s.clone()),
            Topic::Level2Best50(s) => Topic::Level2Best50(s.clone()),
            Topic::OrderChange => Topic::OrderChange,
            Topic::Snapshot(s) => Topic::Snapshot(s.clone()),
            Topic::Ticker(s) => Topic::Ticker(s.clone()),
            Topic::Trade(s) => Topic::Trade(s.clone()),
        }
    }
}

/// Whether two topics are the same.
pub fn topic_eq(a: &Topic, b: &Topic) -> (r: bool)
    ensures
        r == (a@ == b@),
{
    match (a, b) {
        (Topic::AccountBalance, Topic::AccountBalance) => true,
        (Topic::AdvancedOrder, Topic::AdvancedOrder) => true,
        (Topic::OrderChange, Topic::OrderChange) => true,
        (Topic::Klines { symbol: s1, interval: i1 }, Topic::Klines { symbol: s2, interval: i2 }) => s1.same_as(s2) && *i1 == *i2,
        (Topic::Level2(s1), Topic::Level2(s2)) => s1.same_as(s2),
        (Topic::Level2Best5(s1), Topic::Level2Best5(s2)) => s1.same_as(s2),
        (Topic::Level2Best50(s1), Topic::Level2Best50(s2)) => s1.same_as(s2),
        (Topic::Snapshot(s1), Topic::Snapshot(s2)) => s1.same_as(s2),
        (Topic::Ticker(s1), Topic::Ticker(s2)) => s1.same_as(s2),
        (Topic::Trade(s1), Topic::Trade(s2)) => s1.same_as(s2),
        _ => false,
    }
}

/// What an in-flight request asked for.
#[derive(Debug)]
pub enum Pending {
    Subscribe(Topic),
    Unsubscribe(Topic),
    Close,
}

pub enum PendingView {
    Subscribe(TopicView),
    Unsubscribe(TopicView),
    Close,
}

impl View for Pending {
    type V = PendingView;

    open spec fn view(&self) -> PendingView {
        match self {
            Pending::Subscribe(t) => PendingView::Subscribe(t@),
            Pending::Unsubscribe(t) => PendingView::Unsubscribe(t@),
            Pending::Close => PendingView::Close,
        }
    }
}

/// An event the feed sends. (The payload of a message is routed as it is.)
#[derive(Debug)]
pub enum Event {
    Ack { id: String },
    Error { id: String, code: SystemCode, data: String },
    Message { topic: Topic },
    Pong,
    Welcome,
}

pub enum EventView {
    Ack { id: Seq<char> },
    Error { id: Seq<char>, code: SystemCode, data: Seq<char> },
    Message { topic: TopicView },
    Pong,
    Welcome,
}

impl View for Event {
    type V = EventView;

    open spec fn view(&self) -> EventView {
        match self {
            Event::Ack { id } => EventView::Ack { id: id@ },
            Event::Error { id, code, data } => EventView::Error { id: id@, code: *code, data: data@ },
            Event::Message { topic } => EventView::Message { topic: topic@ },
            Event::Pong => EventView::Pong,
            Event::Welcome => EventView::Welcome,
        }
    }
}

/// What the connection is to do about an event.
#[derive(Debug)]
pub enum Action {
    /// Nothing.
    Nothing,
    /// Open a stream for the topic and hand it to the requester of `id`;
    /// once handed over, the topic counts as subscribed.
    OpenStream { id: String, topic: Topic },
    /// Close the topic's stream and tell the requester of `id` that the
    /// unsubscription is done.
    ConfirmUnsubscribe { id: String, topic: Topic },
    /// Tell the requester of `id` that the request failed with
    /// `Error::BadRequest { source }`.
    Reject { id: String, source: SystemError },
    /// Pass the message's payload to the topic's stream.
    Forward { topic: Topic },
}

pub enum ActionView {
    Nothing,
    OpenStream { id: Seq<char>, topic: TopicView },
    ConfirmUnsubscribe { id: Seq<char>, topic: TopicView },
    Reject { id: Seq<char>, code: SystemCode, msg: Seq<char> },
    Forward { topic: TopicView },
}

impl View for Action {
    type V = ActionView;

    open spec fn view(&self) -> ActionView {
        match self {
            Action::Nothing => ActionView::Nothing,
            Action::OpenStream { id, topic } => ActionView::OpenStream { id: id@, topic: topic@ },
            Action::ConfirmUnsubscribe { id, topic } => ActionView::ConfirmUnsubscribe { id: id@, topic: topic@ },
            Action::Reject { id, source } => ActionView::Reject { id: id@, code: source.code, msg: source.msg@ },
            Action::Forward { topic } => ActionView::Forward { topic: topic@ },
        }
    }
}

#[verifier::ext_equal]
/// The state of the subscription bookkeeping: the requests awaiting an
/// answer, by id, and the subscribed topics.
pub struct SubscriptionsView {
    pub inflight: Map<Seq<char>, PendingView>,
    pub subscribed: Set<TopicView>,
}

/// The effect of an event: an answer (acknowledgement or error) to an
/// in-flight request takes it out of flight and, for an acknowledged
/// unsubscription, ends the subscription; a message is forwarded when its
/// topic is subscribed. Anything else changes nothing.
pub open spec fn subscription_step(st: SubscriptionsView, ev: EventView) -> (SubscriptionsView, ActionView) {
    match ev {
        EventView::Ack { id } => {
            if st.inflight.contains_key(id) {
                let rest = st.inflight.remove(id);
                match st.inflight[id] {
                    PendingView::Subscribe(t) => (
                        SubscriptionsView { inflight: rest, subscribed: st.subscribed },
                        ActionView::OpenStream { id, topic: t },
                    ),
                    PendingView::Unsubscribe(t) => (
                        SubscriptionsView { inflight: rest, subscribed: st.subscribed.remove(t) },
                        ActionView::ConfirmUnsubscribe { id, topic: t },
                    ),
                    PendingView::Close => (SubscriptionsView { inflight: rest, subscribed: st.subscribed }, ActionView::Nothing),
                }
            } else {
                (st, ActionView::Nothing)
            }
        },
        EventView::Error { id, code, data } => {
            if st.inflight.contains_key(id) {
                let rest = st.inflight.remove(id);
                match st.inflight[id] {
                    PendingView::Close => (SubscriptionsView { inflight: rest, subscribed: st.subscribed }, ActionView::Nothing),
                    _ => (
                        SubscriptionsView { inflight: rest, subscribed: st.subscribed },
                        ActionView::Reject { id, code, msg: data },
                    ),
                }
            } else {
                (st, ActionView::Nothing)
            }
        },
        EventView::Message { topic } => (
            st,
            if st.subscribed.contains(topic) { ActionView::Forward { topic } } else { ActionView::Nothing },
        ),
        _ => (st, ActionView::Nothing),
    }
}

/// The subscription bookkeeping of a connection.
#[derive(Debug)]
pub struct Subscriptions {
    inflight: Vec<(String, Pending)>,
    topics: Vec<Topic>,
}

impl Subscriptions {
    closed spec fn inflight_seq(self) -> Seq<(Seq<char>, PendingView)> {
        self.inflight@.map_values(|e: (String, Pending)| (e.0@, e.1@))
    }

    closed spec fn topic_seq(self) -> Seq<TopicView> {
        self.topics@.map_values(|t: Topic| t@)
    }

    #[verifier::type_invariant]
    closed spec fn well_formed(self) -> bool {
        keys_unique(self.inflight_seq()) && distinct(self.topic_seq())
    }

    /// The abstract state.
    pub closed spec fn state(self) -> SubscriptionsView {
        SubscriptionsView { inflight: assoc_map(self.inflight_seq()), subscribed: elements(self.topic_seq()) }
    }

    /// No request in flight, no topic subscribed.
    pub fn new() -> (s: Subscriptions)
        ensures
            s.state().inflight == Map::<Seq<char>, PendingView>::empty(),
            s.state().subscribed == Set::<TopicView>::empty(),
    {
        let s = Subscriptions { inflight: Vec::new(), topics: Vec::new() };
        assert(s.inflight_seq() =~= Seq::empty());
        assert(s.topic_seq() =~= Seq::empty());
        assert(s.state().inflight =~= Map::<Seq<char>, PendingView>::empty());
        assert(s.state().subscribed =~= Set::<TopicView>::empty());
        s
    }

    fn find_inflight(&self, id: &String) -> (r: Option<usize>)
        ensures
            r is None <==> !has_assoc(self.inflight_seq(), id@),
            r matches Some(i) ==> i < self.inflight@.len() && self.inflight_seq()[i as int].0 == id@,
    {
        let mut i: usize = 0;
        while i < self.inflight.len()
            invariant
                i <= self.inflight@.len(),
                forall|j: int| 0 <= j < i ==> (#[trigger] self.inflight_seq()[j]).0 != id@,
            decreases self.inflight@.len() - i,
        {
            assert(self.inflight_seq()[i as int] == (self.inflight@[i as int].0@, self.inflight@[i as int].1@));
            if self.inflight[i].0 == *id {
                return Some(i);
            }
            i = i + 1;
        }
        None
    }

    fn find_topic(&self, topic: &Topic) -> (r: Option<usize>)
        ensures
            r is None <==> !elements(self.topic_seq()).contains(topic@),
            r matches Some(i) ==> i < self.topics@.len() && self.topic_seq()[i as int] == topic@,
    {
        let mut i: usize = 0;
        while i < self.topics.len()
            invariant
                i <= self.topics@.len(),
                forall|j: int| 0 <= j < i ==> #[trigger] self.topic_seq()[j] != topic@,
            decreases self.topics@.len() - i,
        {
            assert(self.topic_seq()[i as int] == self.topics@[i as int]@);
            if topic_eq(&self.topics[i], topic) {
                return Some(i);
            }
            i = i + 1;
        }
        proof {
            if elements(self.topic_seq()).contains(topic@) {
                let a = choose|a: int| 0 <= a < self.topic_seq().len() && self.topic_seq()[a] == topic@;
                assert(self.topic_seq()[a] != topic@);
            }
        }
        None
    }

    /// Whether the topic is subscribed.
    pub fn is_subscribed(&self, topic: &Topic) -> (b: bool)
        ensures
            b == self.state().subscribed.contains(topic@),
    {
        self.find_topic(topic).is_some()
    }

    /// Takes the request in flight under `id` out of flight.
    fn take_inflight(&mut self, id: &String) -> (r: Option<Pending>)
        ensures
            r is Some <==> old(self).state().inflight.contains_key(id@),
            r matches Some(p) ==> p@ == old(self).state().inflight[id@],
            final(self).state().inflight == old(self).state().inflight.remove(id@),
            final(self).state().subscribed == old(self).state().subscribed,
    {
        proof {
            use_type_invariant(&*self);
        }
        match self.find_inflight(id) {
            None => {
                assert(self.state().inflight =~= self.state().inflight.remove(id@));
                None
            },
            Some(i) => {
                let ghost s0 = self.inflight_seq();
                proof {
                    lemma_assoc_at(s0, i as int);
                    lemma_assoc_remove(s0, i as int);
                }
                let mut inflight = Vec::new();
                std::mem::swap(&mut inflight, &mut self.inflight);
                let (_, p) = inflight.remove(i);
                assert(inflight@.map_values(|e: (String, Pending)| (e.0@, e.1@)) =~= s0.remove(i as int));
                self.inflight = inflight;
                Some(p)
            },
        }
    }

    /// Records a request sent under `id`; a request in flight under the
    /// same id is forgotten.
    pub fn register(&mut self, id: String, pending: Pending)
        ensures
            final(self).state().inflight == old(self).state().inflight.insert(id@, pending@),
            final(self).state().subscribed == old(self).state().subscribed,
    {
        let _ = self.take_inflight(&id);
        proof {
            use_type_invariant(&*self);
            assert(!has_assoc(self.inflight_seq(), id@)) by {
                assert(!self.state().inflight.contains_key(id@));
            }
            lemma_assoc_push(self.inflight_seq(), (id@, pending@));
        }
        let ghost s0 = self.inflight_seq();
        let mut inflight = Vec::new();
        std::mem::swap(&mut inflight, &mut self.inflight);
        inflight.push((id, pending));
        assert(inflight@.map_values(|e: (String, Pending)| (e.0@, e.1@)) =~= s0.push((id@, pending@)));
        self.inflight = inflight;
        assert(self.state().inflight =~= old(self).state().inflight.insert(id@, pending@));
    }

    /// Records that the topic is subscribed.
    pub fn add_subscription(&mut self, topic: Topic)
        ensures
            final(self).state().subscribed == old(self).state().subscribed.insert(topic@),
            final(self).state().inflight == old(self).state().inflight,
    {
        proof {
            use_type_invariant(&*self);
        }
        if self.find_topic(&topic).is_some() {
            assert(self.state().subscribed =~= self.state().subscribed.insert(topic@));
            return;
        }
        let ghost s0 = self.topic_seq();
        proof {
            lemma_elements_push(s0, topic@);
        }
        let mut topics = Vec::new();
        std::mem::swap(&mut topics, &mut self.topics);
        topics.push(topic);
        assert(topics@.map_values(|t: Topic| t@) =~= s0.push(topic@));
        self.topics = topics;
    }

    /// Ends the subscription of the topic.
    pub fn remove_subscription(&mut self, topic: &Topic)
        ensures
            final(self).state().subscribed == old(self).state().subscribed.remove(topic@),
            final(self).state().inflight == old(self).state().inflight,
    {
        proof {
            use_type_invariant(&*self);
        }
        match self.find_topic(topic) {
            None => {
                assert(self.state().subscribed =~= self.state().subscribed.remove(topic@));
            },
            Some(i) => {
                let ghost s0 = self.topic_seq();
                proof {
                    lemma_elements_remove(s0, i as int);
                }
                let mut topics = Vec::new();
                std::mem::swap(&mut topics, &mut self.topics);
                topics.remove(i);
                assert(topics@.map_values(|t: Topic| t@) =~= s0.remove(i as int));
                self.topics = topics;
            },
        }
    }

    /// Takes the outcome of handing a topic's new stream to its requester:
    /// the topic counts as subscribed only when the requester took it.
    pub fn stream_handed_over(&mut self, topic: Topic, accepted: bool)
        ensures
            accepted ==> final(self).state().subscribed == old(self).state().subscribed.insert(topic@),
            !accepted ==> final(self).state().subscribed == old(self).state().subscribed,
            final(self).state().inflight == old(self).state().inflight,
    {
        if accepted {
            self.add_subscription(topic);
        }
    }

    /// Takes the outcome of passing a message to a topic's stream: a stream
    /// that no longer takes messages ends the subscription.
    pub fn message_delivered(&mut self, topic: &Topic, delivered: bool)
        ensures
            !delivered ==> final(self).state().subscribed == old(self).state().subscribed.remove(topic@),
            delivered ==> final(self).state().subscribed == old(self).state().subscribed,
            final(self).state().inflight == old(self).state().inflight,
    {
        if !delivered {
            self.remove_subscription(topic);
        }
    }

    /// Handles an event of the feed (see `subscription_step`).
    pub fn handle_event(&mut self, event: Event) -> (a: Action)
        ensures
            final(self).state() == subscription_step(old(self).state(), event@).0,
            a@ == subscription_step(old(self).state(), event@).1,
    {
        match event {
            Event::Ack { id } => match self.take_inflight(&id) {
                Some(Pending::Subscribe(topic)) => Action::OpenStream { id, topic },
                Some(Pending::Unsubscribe(topic)) => {
                    self.remove_subscription(&topic);
                    Action::ConfirmUnsubscribe { id, topic }
                },
                Some(Pending::Close) => Action::Nothing,
                None => Action::Nothing,
            },
            Event::Error { id, code, data } => match self.take_inflight(&id) {
                Some(Pending::Subscribe(_)) | Some(Pending::Unsubscribe(_)) => Action::Reject {
                    id,
                    source: SystemError { code, msg: data },
                },
                Some(Pending::Close) => Action::Nothing,
                None => Action::Nothing,
            },
            Event::Message { topic } => {
                if self.is_subscribed(&topic) {
                    Action::Forward { topic }
                } else {
                    Action::Nothing
                }
            },
            Event::Pong => Action::Nothing,
            Event::Welcome => Action::Nothing,
        }
    }
}


/// Each request is answered once: an acknowledgement or error takes the
/// request out of flight, and the same answer arriving again does nothing.
pub proof fn lemma_answered_once(st: SubscriptionsView, ev: EventView)
    requires
        ev is Ack || ev is Error,
    ensures
        ({
            let id = if ev is Ack { ev->Ack_id } else { ev->Error_id };
            let (st1, _) = subscription_step(st, ev);
            let (st2, a2) = subscription_step(st1, ev);
            &&& !st1.inflight.contains_key(id)
            &&& st2 == st1
            &&& a2 == ActionView::Nothing
        }),
{
}

/// Messages change no state, and events answering no request in flight
/// change nothing.
pub proof fn lemma_unrelated_events(st: SubscriptionsView, ev: EventView)
    ensures
        ev is Message ==> subscription_step(st, ev).0 == st,
        ev is Ack && !st.inflight.contains_key(ev->Ack_id) ==> subscription_step(st, ev) == (st, ActionView::Nothing),
        ev is Error && !st.inflight.contains_key(ev->Error_id) ==> subscription_step(st, ev) == (st, ActionView::Nothing),
{
}

/// The life of a subscription: once its request is acknowledged, a stream is
/// opened for its requester; once the stream is handed over, the topic's
/// messages are forwarded; once an unsubscription is acknowledged, they no
/// longer are.
pub proof fn lemma_subscription_lifecycle(st: SubscriptionsView, id: Seq<char>, id2: Seq<char>, t: TopicView)
    requires
        !st.inflight.contains_key(id),
        id != id2,
    ensures
        ({
            let sent = SubscriptionsView { inflight: st.inflight.insert(id, PendingView::Subscribe(t)), subscribed: st.subscribed };
            let (acked, a) = subscription_step(sent, EventView::Ack { id });
            let live = SubscriptionsView { inflight: acked.inflight, subscribed: acked.subscribed.insert(t) };
            let (_, fwd) = subscription_step(live, EventView::Message { topic: t });
            let unsent = SubscriptionsView { inflight: live.inflight.insert(id2, PendingView::Unsubscribe(t)), subscribed: live.subscribed };
            let (ended, confirm) = subscription_step(unsent, EventView::Ack { id: id2 });
            let (_, after) = subscription_step(ended, EventView::Message { topic: t });
            &&& a == ActionView::OpenStream { id, topic: t }
            &&& acked.inflight == st.inflight
            &&& fwd == ActionView::Forward { topic: t }
            &&& confirm == ActionView::ConfirmUnsubscribe { id: id2, topic: t }
            &&& !ended.subscribed.contains(t)
            &&& after == ActionView::Nothing
        }),
{
    let sent = SubscriptionsView { inflight: st.inflight.insert(id, PendingView::Subscribe(t)), subscribed: st.subscribed };
    assert(sent.inflight.remove(id) =~= st.inflight);
}


/// A subscription changes only through an acknowledged unsubscription, and
/// then only for the topic it names: after the acknowledgement of an
/// unsubscription of `t`, `t` is no longer subscribed and every other topic
/// is subscribed exactly as before; any other event leaves every
/// subscription as it is.
pub proof fn lemma_unsubscribe_frame(st: SubscriptionsView, ev: EventView, u: TopicView)
    ensures
        ({
            let after = subscription_step(st, ev).0.subscribed;
            let unsubscribes_u = ev is Ack && st.inflight.contains_key(ev->Ack_id)
                && st.inflight[ev->Ack_id] == PendingView::Unsubscribe(u);
            &&& unsubscribes_u ==> !after.contains(u)
            &&& !unsubscribes_u ==> (after.contains(u) == st.subscribed.contains(u))
        }),
{
}

/// The kind of a request to the feed.
#[derive(Debug)]
pub enum RequestType {
    Subscribe { topic: Topic },
    Unsubscribe { topic: Topic },
    Ping,
}

/// A request to the feed.
#[derive(Debug)]
pub struct Request {
    pub id: String,
    pub req_type: RequestType,
    /// Whether the channel is private (sent only when set).
    pub private_channel: bool,
    /// Whether an acknowledgement is wanted (sent only when set).
    pub response: bool,
}

/// Hands out request ids: the text of the counter, which then moves on by
/// one (wrapping around, as an atomic counter's `fetch_add` does).
pub fn next_req_id(counter: &mut u64) -> (id: String)
    ensures
        id@ == crate::text::nat_text(*old(counter) as nat),
        *final(counter) == (if *old(counter) == u64::MAX { 0 } else { (*old(counter) + 1) as u64 }),
{
    let id = crate::text::u64_text(*counter);
    if *counter == u64::MAX {
        *counter = 0;
    } else {
        *counter = *counter + 1;
    }
    id
}

/// Ids handed out in order by a counter that started at 1: the `i`-th is
/// `i + 1`.
pub open spec fn counted_from_one(issued: Seq<nat>) -> bool {
    forall|i: int| 0 <= i < issued.len() ==> issued[i] == i + 1
}

/// The counter that request ids come from, with the numbers it has handed
/// out and whether it has wrapped around.
pub struct RequestIds {
    next: u64,
    issued: Ghost<Seq<nat>>,
    wrapped: Ghost<bool>,
}

/// How one id moves the counter on: the id handed out is the counter's
/// number, which then moves on by one, wrapping around at the top.
pub open spec fn advanced(before: RequestIds, after: RequestIds) -> bool {
    &&& after.next_value() == (if before.next_value() == u64::MAX { 0 } else { (before.next_value() + 1) as u64 })
    &&& after.issued() == before.issued().push(before.next_value() as nat)
    &&& after.wrapped() == (before.wrapped() || before.next_value() == u64::MAX)
    &&& !after.wrapped() ==> counted_from_one(after.issued()) && after.next_value() == after.issued().len() + 1
}

impl RequestIds {
    #[verifier::type_invariant]
    closed spec fn counts_up(self) -> bool {
        !self.wrapped@ ==> self.next == self.issued@.len() + 1 && counted_from_one(self.issued@)
    }

    /// The number the next id will write.
    pub closed spec fn next_value(self) -> u64 {
        self.next
    }

    /// The numbers of the ids handed out so far, in order.
    pub closed spec fn issued(self) -> Seq<nat> {
        self.issued@
    }

    /// Whether the counter has wrapped around.
    pub closed spec fn wrapped(self) -> bool {
        self.wrapped@
    }

    /// A counter at 1 that has handed out nothing.
    pub fn new() -> (ids: RequestIds)
        ensures
            ids.next_value() == 1,
            ids.issued() == Seq::<nat>::empty(),
            !ids.wrapped(),
    {
        RequestIds { next: 1, issued: Ghost(Seq::empty()), wrapped: Ghost(false) }
    }

    /// Hands out the next id.
    pub fn next_id(&mut self) -> (id: String)
        ensures
            id@ == crate::text::nat_text(old(self).next_value() as nat),
            advanced(*old(self), *final(self)),
    {
        proof {
            use_type_invariant(&*self);
        }
        let mut n = self.next;
        let id = next_req_id(&mut n);
        let ghost issued = self.issued@.push(self.next as nat);
        let ghost wrapped = self.wrapped@ || self.next == u64::MAX;
        *self = RequestIds { next: n, issued: Ghost(issued), wrapped: Ghost(wrapped) };
        id
    }
}

/// Until the counter wraps, the ids handed out start at 1, and the numbers
/// they write strictly increase in the order they were handed out, so no two
/// are the same text.
pub proof fn lemma_issued_ids_distinct(issued: Seq<nat>)
    requires
        counted_from_one(issued),
    ensures
        issued.len() > 0 ==> issued[0] == 1,
        forall|i: int, j: int|
            0 <= i < j < issued.len() ==> {
                &&& #[trigger] issued[i] < #[trigger] issued[j]
                &&& crate::text::nat_text(issued[i]) != crate::text::nat_text(issued[j])
            },
{
    assert forall|i: int, j: int| 0 <= i < j < issued.len() implies {
        &&& #[trigger] issued[i] < #[trigger] issued[j]
        &&& crate::text::nat_text(issued[i]) != crate::text::nat_text(issued[j])
    } by {
        crate::text::lemma_nat_text_value(issued[i]);
        crate::text::lemma_nat_text_value(issued[j]);
    }
}

impl Request {
    /// A subscription to a topic, private when the topic is, acknowledged.
    pub fn subscribe(ids: &mut RequestIds, topic: Topic) -> (r: Request)
        ensures
            r.id@ == crate::text::nat_text(old(ids).next_value() as nat),
            advanced(*old(ids), *final(ids)),
            r.req_type matches RequestType::Subscribe { topic: t } && t@ == topic@,
            r.private_channel == topic_is_private(topic@),
            r.response,
    {
        let private_channel = topic.is_private();
        Request {
            id: ids.next_id(),
            req_type: RequestType::Subscribe { topic },
            private_channel,
            response: true,
        }
    }

    /// An unsubscription from a topic, acknowledged.
    pub fn unsubscribe(ids: &mut RequestIds, topic: Topic) -> (r: Request)
        ensures
            r.id@ == crate::text::nat_text(old(ids).next_value() as nat),
            advanced(*old(ids), *final(ids)),
            r.req_type matches RequestType::Unsubscribe { topic: t } && t@ == topic@,
            !r.private_channel,
            r.response,
    {
        Request {
            id: ids.next_id(),
            req_type: RequestType::Unsubscribe { topic },
            private_channel: false,
            response: true,
        }
    }

    /// A ping, not acknowledged.
    pub fn ping(ids: &mut RequestIds) -> (r: Request)
        ensures
            r.id@ == crate::text::nat_text(old(ids).next_value() as nat),
            advanced(*old(ids), *final(ids)),
            r.req_type is Ping,
            !r.private_channel,
            !r.response,
    {
        Request { id: ids.next_id(), req_type: RequestType::Ping, private_channel: false, response: false }
    }

    /// What the request, once sent, awaits an answer for.
    pub fn pending(&self) -> (p: Pending)
        ensures
            match self.req_type {
                RequestType::Subscribe { topic } => p@ == PendingView::Subscribe(topic@),
                RequestType::Unsubscribe { topic } => p@ == PendingView::Unsubscribe(topic@),
                RequestType::Ping => p@ == PendingView::Close,
            },
    {
        match &self.req_type {
            RequestType::Subscribe { topic } => Pending::Subscribe(topic.clone()),
            RequestType::Unsubscribe { topic } => Pending::Unsubscribe(topic.clone()),
            RequestType::Ping => Pending::Close,
        }
    }
}

/// Subscribing and unsubscribing need an open connection.
pub fn ensure_open(closed: bool) -> (r: Result<(), Error>)
    ensures
        closed ==> r matches Err(Error::WebsocketClosed),
        !closed ==> r is Ok,
{
    if closed {
        Err(Error::WebsocketClosed)
    } else {
        Ok(())
    }
}

/// The protocol a feed server speaks.
#[derive(Clone, Copy, Debug, PartialEq, Eq, Structural)]
pub enum ConnectProtocol {
    WebSocket,
    Unknown,
}

/// A feed server on offer.
#[derive(Debug)]
pub struct ConnectServer {
    pub endpoint: String,
    pub protocol: ConnectProtocol,
    pub encrypt: bool,
    pub ping_interval: u64,
}

/// The answer to a request for a feed connection.
#[derive(Debug)]
pub struct ConnectInfo {
    pub servers: Vec<ConnectServer>,
    pub token: String,
}

/// The path that hands out feed connections: the private one for a client
/// with credentials, the public one otherwise.
pub fn bullet_path(has_credentials: bool) -> (p: &'static str)
    ensures
        p@ == (if has_credentials { "/api/v1/bullet-private"@ } else { "/api/v1/bullet-public"@ }),
{
    if has_credentials {
        "/api/v1/bullet-private"
    } else {
        "/api/v1/bullet-public"
    }
}

/// A server the client can use: an encrypted websocket.
pub open spec fn usable_server(s: ConnectServer) -> bool {
    s.protocol == ConnectProtocol::WebSocket && s.encrypt
}

/// The first usable server on offer.
pub fn select_server(servers: &Vec<ConnectServer>) -> (r: Option<usize>)
    ensures
        r is None <==> forall|i: int| 0 <= i < servers@.len() ==> !usable_server(#[trigger] servers@[i]),
        r matches Some(i) ==> i < servers@.len() && usable_server(servers@[i as int])
            && forall|j: int| 0 <= j < i ==> !usable_server(#[trigger] servers@[j]),
{
    let mut i: usize = 0;
    while i < servers.len()
        invariant
            i <= servers@.len(),
            forall|j: int| 0 <= j < i ==> !usable_server(#[trigger] servers@[j]),
        decreases servers@.len() - i,
    {
        if servers[i].protocol == ConnectProtocol::WebSocket && servers[i].encrypt {
            return Some(i);
        }
        i = i + 1;
    }
    None
}

/// Where to connect: the first usable server's endpoint with the token as
/// query, and how often to ping it; or `WebsocketUnavailable` when no
/// server is usable.
pub fn connect_target(info: &ConnectInfo) -> (r: Result<(String, u64), Error>)
    ensures
        (forall|i: int| 0 <= i < info.servers@.len() ==> !usable_server(#[trigger] info.servers@[i]))
            ==> r matches Err(Error::WebsocketUnavailable),
        r matches Ok((url, ping)) ==> exists|i: int|
            0 <= i < info.servers@.len() && usable_server(#[trigger] info.servers@[i])
            && (forall|j: int| 0 <= j < i ==> !usable_server(#[trigger] info.servers@[j]))
            && url@ == info.servers@[i].endpoint@ + "?token="@ + info.token@
            && ping == info.servers@[i].ping_interval,
        !(forall|i: int| 0 <= i < info.servers@.len() ==> !usable_server(#[trigger] info.servers@[i])) ==> r is Ok,
{
    match select_server(&info.servers) {
        None => Err(Error::WebsocketUnavailable),
        Some(i) => {
            let server = &info.servers[i];
            let url = server.endpoint.clone().concat("?token=").concat(info.token.as_str());
            Ok((url, server.ping_interval))
        },
    }
}


/// The account balance channel.
#[derive(Debug)]
pub struct TopicAccountBalance(Topic);

impl TopicAccountBalance {
    pub fn new() -> (t: TopicAccountBalance)
        ensures
            t.topic()@ == TopicView::AccountBalance,
    {
        TopicAccountBalance(Topic::AccountBalance)
    }

    pub closed spec fn topic(self) -> Topic {
        self.0
    }
}

impl From<TopicAccountBalance> for Topic {
    fn from(t: TopicAccountBalance) -> (r: Topic) {
        t.0
    }
}

impl vstd::std_specs::convert::FromSpecImpl<TopicAccountBalance> for Topic {
    open spec fn obeys_from_spec() -> bool {
        true
    }

    open spec fn from_spec(t: TopicAccountBalance) -> Topic {
        t.topic()
    }
}

/// The advanced (stop) orders channel.
#[derive(Debug)]
pub struct TopicAdvancedOrder(Topic);

impl TopicAdvancedOrder {
    pub fn new() -> (t: TopicAdvancedOrder)
        ensures
            t.topic()@ == TopicView::AdvancedOrder,
    {
        TopicAdvancedOrder(Topic::AdvancedOrder)
    }

    pub closed spec fn topic(self) -> Topic {
        self.0
    }
}

impl From<TopicAdvancedOrder> for Topic {
    fn from(t: TopicAdvancedOrder) -> (r: Topic) {
        t.0
    }
}

impl vstd::std_specs::convert::FromSpecImpl<TopicAdvancedOrder> for Topic {
    open spec fn obeys_from_spec() -> bool {
        true
    }

    open spec fn from_spec(t: TopicAdvancedOrder) -> Topic {
        t.topic()
    }
}

/// The klines channel of a market.
#[derive(Debug)]
pub struct TopicKlines(Topic);

impl TopicKlines {
    pub fn new(symbol: Symbol, interval: KlineInterval) -> (t: TopicKlines)
        ensures
            t.topic()@ == (TopicView::Klines { symbol: symbol@, interval }),
    {
        TopicKlines(Topic::Klines { symbol, interval })
    }

    pub closed spec fn topic(self) -> Topic {
        self.0
    }
}

impl From<TopicKlines> for Topic {
    fn from(t: TopicKlines) -> (r: Topic) {
        t.0
    }
}

impl vstd::std_specs::convert::FromSpecImpl<TopicKlines> for Topic {
    open spec fn obeys_from_spec() -> bool {
        true
    }

    open spec fn from_spec(t: TopicKlines) -> Topic {
        t.topic()
    }
}

/// The best five price levels of a market.
#[derive(Debug)]
pub struct TopicLevel2Best5(Topic);

impl TopicLevel2Best5 {
    pub fn new(symbol: Symbol) -> (t: TopicLevel2Best5)
        ensures
            t.topic()@ == TopicView::Level2Best5(symbol@),
    {
        TopicLevel2Best5(Topic::Level2Best5(symbol))
    }

    pub closed spec fn topic(self) -> Topic {
        self.0
    }
}

impl From<TopicLevel2Best5> for Topic {
    fn from(t: TopicLevel2Best5) -> (r: Topic) {
        t.0
    }
}

impl vstd::std_specs::convert::FromSpecImpl<TopicLevel2Best5> for Topic {
    open spec fn obeys_from_spec() -> bool {
        true
    }

    open spec fn from_spec(t: TopicLevel2Best5) -> Topic {
        t.topic()
    }
}

/// The best fifty price levels of a market.
#[derive(Debug)]
pub struct TopicLevel2Best50(Topic);

impl TopicLevel2Best50 {
    pub fn new(symbol: Symbol) -> (t: TopicLevel2Best50)
        ensures
            t.topic()@ == TopicView::Level2Best50(symbol@),
    {
        TopicLevel2Best50(Topic::Level2Best50(symbol))
    }

    pub closed spec fn topic(self) -> Topic {
        self.0
    }
}

impl From<TopicLevel2Best50> for Topic {
    fn from(t: TopicLevel2Best50) -> (r: Topic) {
        t.0
    }
}

impl vstd::std_specs::convert::FromSpecImpl<TopicLevel2Best50> for Topic {
    open spec fn obeys_from_spec() -> bool {
        true
    }

    open spec fn from_spec(t: TopicLevel2Best50) -> Topic {
        t.topic()
    }
}

/// The order changes channel.
#[derive(Debug)]
pub struct TopicOrderChange(Topic);

impl TopicOrderChange {
    pub fn new() -> (t: TopicOrderChange)
        ensures
            t.topic()@ == TopicView::OrderChange,
    {
        TopicOrderChange(Topic::OrderChange)
    }

    pub closed spec fn topic(self) -> Topic {
        self.0
    }
}

impl From<TopicOrderChange> for Topic {
    fn from(t: TopicOrderChange) -> (r: Topic) {
        t.0
    }
}

impl vstd::std_specs::convert::FromSpecImpl<TopicOrderChange> for Topic {
    open spec fn obeys_from_spec() -> bool {
        true
    }

    open spec fn from_spec(t: TopicOrderChange) -> Topic {
        t.topic()
    }
}

/// The snapshot channel of a market.
#[derive(Debug)]
pub struct TopicSnapshot(Topic);

impl TopicSnapshot {
    pub fn new(symbol: Symbol) -> (t: TopicSnapshot)
        ensures
            t.topic()@ == TopicView::Snapshot(symbol@),
    {
        TopicSnapshot(Topic::Snapshot(symbol))
    }

    pub closed spec fn topic(self) -> Topic {
        self.0
    }
}

impl From<TopicSnapshot> for Topic {
    fn from(t: TopicSnapshot) -> (r: Topic) {
        t.0
    }
}

impl vstd::std_specs::convert::FromSpecImpl<TopicSnapshot> for Topic {
    open spec fn obeys_from_spec() -> bool {
        true
    }

    open spec fn from_spec(t: TopicSnapshot) -> Topic {
        t.topic()
    }
}

/// The ticker channel of a market.
#[derive(Debug)]
pub struct TopicTicker(Topic);

impl TopicTicker {
    pub fn new(symbol: Symbol) -> (t: TopicTicker)
        ensures
            t.topic()@ == TopicView::Ticker(symbol@),
    {
        TopicTicker(Topic::Ticker(symbol))
    }

    pub closed spec fn topic(self) -> Topic {
        self.0
    }
}

impl From<TopicTicker> for Topic {
    fn from(t: TopicTicker) -> (r: Topic) {
        t.0
    }
}

impl vstd::std_specs::convert::FromSpecImpl<TopicTicker> for Topic {
    open spec fn obeys_from_spec() -> bool {
        true
    }

    open spec fn from_spec(t: TopicTicker) -> Topic {
        t.topic()
    }
}

/// The trades channel of a market.
#[derive(Debug)]
pub struct TopicTrade(Topic);

impl TopicTrade {
    pub fn new(symbol: Symbol) -> (t: TopicTrade)
        ensures
            t.topic()@ == TopicView::Trade(symbol@),
    {
        TopicTrade(Topic::Trade(symbol))
    }

    pub closed spec fn topic(self) -> Topic {
        self.0
    }
}

impl From<TopicTrade> for Topic {
    fn from(t: TopicTrade) -> (r: Topic) {
        t.0
    }
}

impl vstd::std_specs::convert::FromSpecImpl<TopicTrade> for Topic {
    open spec fn obeys_from_spec() -> bool {
        true
    }

    open spec fn from_spec(t: TopicTrade) -> Topic {
        t.topic()
    }
}

/// The Level 2 feed of a market, which keeps a live order book current.
#[derive(Debug)]
pub struct TopicLevel2(Topic);

impl TopicLevel2 {
    pub fn new(symbol: Symbol) -> (t: TopicLevel2)
        ensures
            t.topic()@ == TopicView::Level2(symbol@),
    {
        TopicLevel2(Topic::Level2(symbol))
    }

    pub closed spec fn topic(self) -> Topic {
        self.0
    }
}

impl From<TopicLevel2> for Topic {
    fn from(t: TopicLevel2) -> (r: Topic) {
        t.0
    }
}

impl vstd::std_specs::convert::FromSpecImpl<TopicLevel2> for Topic {
    open spec fn obeys_from_spec() -> bool {
        true
    }

    open spec fn from_spec(t: TopicLevel2) -> Topic {
        t.topic()
    }
}

/// A trade of the trades channel.
#[derive(Clone, Debug)]
pub struct Level3Trade {
    pub time: crate::time::Time,
    pub sequence: crate::decimal::Decimal,
    pub symbol: Symbol,
    pub side: crate::spot::market::TradeSide,
    pub price: crate::decimal::Decimal,
    pub size: crate::decimal::Decimal,
    pub trade_id: String,
    pub taker_order_id: String,
    pub maker_order_id: String,
}

/// A market snapshot of the snapshot channel.
#[derive(Clone, Debug)]
pub struct SymbolSnapshot {
    pub time: crate::time::Time,
    pub trading: bool,
    pub symbol: Symbol,
    pub buy: crate::decimal::Decimal,
    pub sell: crate::decimal::Decimal,
    pub change_price: crate::decimal::Decimal,
    pub change_rate: crate::decimal::Decimal,
    pub sort: crate::decimal::Decimal,
    pub high: crate::decimal::Decimal,
    pub low: crate::decimal::Decimal,
    pub vol_base: crate::decimal::Decimal,
    pub vol_quote: crate::decimal::Decimal,
    pub last_traded_price: crate::decimal::Decimal,
    pub board: crate::decimal::Decimal,
    pub mark: crate::decimal::Decimal,
}

/// A message of the klines channel, which wraps the kline.
#[derive(Clone, Copy, Debug)]
pub struct WsKline {
    pub candles: crate::spot::market::Kline,
}

impl WsKline {
    /// The kline the message carries (`From<WsKline> for Kline`).
    pub fn into_kline(self) -> (k: crate::spot::market::Kline)
        ensures
            k == self.candles,
    {
        self.candles
    }
}

/// A message of the snapshot channel, which wraps the snapshot.
#[derive(Clone, Debug)]
pub struct WsSymbolSnapshot {
    pub data: SymbolSnapshot,
}

impl WsSymbolSnapshot {
    /// The snapshot the message carries (`From<WsSymbolSnapshot> for
    /// SymbolSnapshot`).
    pub fn into_snapshot(self) -> (s: SymbolSnapshot)
        ensures
            s == self.data,
    {
        self.data
    }
}

} // verus!

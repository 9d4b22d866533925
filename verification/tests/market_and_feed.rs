use kucoin::decimal::Decimal;
use kucoin::decimal_map::DecimalMap;
use kucoin::error::{Error, SystemCode};
use kucoin::spot::level2::{Level2Change, Level2Changes, Level2Update, LiveBookSync};
use kucoin::spot::market::{
    currency_path, order_book_path, stamp_stats_time, stats_24hr_path, ticker_path, trades_path, CurrencyCode, Kline,
    KlineDecodeError, KlineField, KlineInterval, OrderBook, OrderBookDepth, PricesRequest, Stats24hrRequest, Symbol,
    Ticker, Trade, TradeSide,
};
use kucoin::spot::ws::{
    bullet_path, connect_target, ensure_open, next_req_id, Action, ConnectInfo, ConnectProtocol, ConnectServer,
    Event, Pending, Request, RequestIds, RequestType, Subscriptions, Topic, TopicAccountBalance, TopicKlines, TopicLevel2,
    TopicOrderChange, TopicTicker,
};
use kucoin::time::Time;

fn d(m: i64, s: u32) -> Decimal {
    Decimal::new(m, s)
}

fn sym(s: &str) -> Symbol {
    Symbol::from_str(s).unwrap()
}

#[test]
fn symbols_read_and_render() {
    let s = sym("BTC-USDT");
    assert_eq!(s.base().as_str(), "BTC");
    assert_eq!(s.quote().as_str(), "USDT");
    assert_eq!(s.to_string(), "BTC-USDT");
    let odd = sym("A-B-C");
    assert_eq!(odd.base().as_str(), "A");
    assert_eq!(odd.quote().as_str(), "B-C");
    assert_eq!(odd.to_string(), "A-B-C");
    match Symbol::from_str("BTCUSDT") {
        Err(Error::Parse { reason }) => assert_eq!(reason, "The symbol 'BTCUSDT' could not be parsed."),
        other => panic!("unexpected {:?}", other),
    }
    assert!(sym("ETH-BTC").same_as(&Symbol::new(CurrencyCode::new("ETH".to_string()), CurrencyCode::new("BTC".to_string()))));
    // Ordered by quote currency first.
    assert_eq!(sym("ZZZ-BTC").compare(&sym("AAA-USDT")), -1);
    assert_eq!(sym("AAA-USDT").compare(&sym("BBB-USDT")), -1);
}

#[test]
fn kline_intervals_read_and_render() {
    let all = [
        KlineInterval::OneMinute,
        KlineInterval::ThreeMinute,
        KlineInterval::FiveMinute,
        KlineInterval::FifteenMinute,
        KlineInterval::ThirtyMinute,
        KlineInterval::OneHour,
        KlineInterval::TwoHour,
        KlineInterval::FourHour,
        KlineInterval::SixHour,
        KlineInterval::EightHour,
        KlineInterval::TwelveHour,
        KlineInterval::OneDay,
        KlineInterval::OneWeek,
    ];
    for k in all {
        assert_eq!(KlineInterval::from_str(k.as_str()).unwrap(), k);
    }
    assert_eq!(KlineInterval::TwelveHour.to_string(), "12hour");
    match KlineInterval::from_str("2min") {
        Err(Error::Parse { reason }) => assert_eq!(reason, "The kline interval '2min' is not recognized"),
        other => panic!("unexpected {:?}", other),
    }
}

#[test]
fn klines_from_lists_and_fields() {
    let t = Time::from_unix_seconds(60);
    let vals = vec![d(1, 0), d(2, 0), d(3, 0), d(4, 0), d(5, 0), d(6, 0)];
    let k = Kline::from_sequence(Some(t), &vals).unwrap();
    assert_eq!(k.close.mantissa(), 2);
    assert_eq!(k.turnover.mantissa(), 6);
    assert_eq!(k.to_string(), "T: 60000 O: 1 C: 2 H: 3 L: 4 V: 5");
    assert_eq!(Kline::from_sequence(None, &vec![]).unwrap_err(), KlineDecodeError::InvalidLength(0));
    assert_eq!(Kline::from_sequence(Some(t), &vals[..3].to_vec()).unwrap_err(), KlineDecodeError::InvalidLength(4));
    let r = Kline::from_fields(Some(t), Some(d(1, 0)), Some(d(1, 0)), None, None, Some(d(1, 0)), None);
    assert_eq!(r.unwrap_err(), KlineDecodeError::MissingField(KlineField::High));
    assert_eq!(KlineField::Turnover.name(), "turnover");
}

#[test]
fn market_paths() {
    let s = sym("BTC-USDT");
    assert_eq!(currency_path(&CurrencyCode::new("BTC".to_string())), "/api/v1/currencies/BTC");
    assert_eq!(order_book_path(&s, OrderBookDepth::Partial20), "/api/v1/market/orderbook/level2_20?symbol=BTC-USDT");
    assert_eq!(order_book_path(&s, OrderBookDepth::Full), "/api/v3/market/orderbook/level2?symbol=BTC-USDT");
    assert_eq!(stats_24hr_path(&Stats24hrRequest::All), "/api/v1/market/allTickers");
    assert_eq!(stats_24hr_path(&Stats24hrRequest::Symbol(s.clone())), "/api/v1/market/stats?symbol=BTC-USDT");
    assert_eq!(ticker_path(&s), "/api/v1/market/orderbook/level1?symbol=BTC-USDT");
    assert_eq!(trades_path(&s), "/api/v1/market/histories?symbol=BTC-USDT");
    let p = PricesRequest::new().currencies(&vec![CurrencyCode::new("BTC".to_string()), CurrencyCode::new("ETH".to_string())]);
    assert_eq!(p.currencies_text().map(|s| s.as_str()), Some("BTC,ETH"));
    assert!(PricesRequest::new().currencies_text().is_none());
}

#[test]
fn tickers_and_trades_render() {
    let t = Time::from_unix_millis(5);
    let ticker = Ticker {
        time: t,
        sequence: d(1, 0),
        size: d(15, 1),
        price: d(100, 2),
        best_bid_size: d(0, 0),
        best_bid: d(0, 0),
        best_ask_size: d(0, 0),
        best_ask: d(0, 0),
    };
    assert_eq!(ticker.to_string(), "5: 1.5 @ 1.00");
    let trade = Trade { sequence: d(2, 0), time: t, price: d(3, 0), size: d(4, 0), side: TradeSide::Sell };
    assert_eq!(trade.to_string(), "5: sell 4 @ 3");
    let later = Trade { sequence: d(2, 0), time: Time::from_unix_millis(6), ..trade };
    assert_eq!(trade.compare(&later), -1);
    assert_eq!(TradeSide::Buy.to_string(), "buy");
}

#[test]
fn all_tickers_share_the_time() {
    let t = Time::from_unix_millis(9);
    let stats = vec![];
    assert!(stamp_stats_time(stats, t).is_empty());
}

fn book(seq: i64, asks: Vec<(Decimal, Decimal)>, bids: Vec<(Decimal, Decimal)>) -> OrderBook {
    OrderBook::from_levels(d(seq, 0), Time::from_unix_millis(1), asks, bids)
}

fn levels(m: &DecimalMap<Decimal>) -> Vec<(i128, i128)> {
    m.entries().iter().map(|(p, s)| (p.mantissa(), s.mantissa())).collect()
}

fn updates(entries: Vec<(i64, Level2Change)>) -> DecimalMap<Level2Change> {
    let mut m = DecimalMap::new();
    for (seq, c) in entries {
        m.insert(d(seq, 0), c);
    }
    m
}

#[test]
fn level2_changes_follow_the_sequencing_rules() {
    let mut b = book(10, vec![(d(105, 0), d(1, 0))], vec![(d(100, 0), d(2, 0)), (d(99, 0), d(3, 0))]);
    let u = updates(vec![
        // Stale: at or below the book's sequence.
        (9, (true, d(100, 0), d(7, 0))),
        (10, (true, d(100, 0), d(7, 0))),
        // Size zero removes the level.
        (11, (true, d(99, 0), d(0, 0))),
        // A new size replaces the level.
        (12, (true, d(100, 0), d(5, 0))),
        // Price zero only moves the sequence.
        (13, (false, d(0, 0), d(9, 0))),
        // A level may move to the other side.
        (14, (false, d(100, 0), d(4, 0))),
    ]);
    b.apply_level2(&u);
    assert_eq!(b.sequence.mantissa(), 14);
    assert_eq!(levels(&b.bids), vec![]);
    assert_eq!(levels(&b.asks), vec![(100, 4), (105, 1)]);
    // Applying the same message again changes nothing.
    b.apply_level2(&u);
    assert_eq!(b.sequence.mantissa(), 14);
    assert_eq!(levels(&b.asks), vec![(100, 4), (105, 1)]);
}

#[test]
fn level2_messages_are_keyed_by_sequence() {
    let msg = Level2Update {
        changes: Level2Changes {
            asks: vec![(d(10, 0), d(1, 0), d(3, 0))],
            bids: vec![(d(9, 0), d(2, 0), d(2, 0)), (d(8, 0), d(1, 0), d(3, 0))],
        },
    };
    let m = msg.into_sequenced();
    assert_eq!(m.len(), 2);
    let e = m.entries();
    assert_eq!(e[0].0.mantissa(), 2);
    assert!(e[0].1 .0);
    // The bid listed later under sequence 3 replaces the ask.
    assert_eq!(e[1].0.mantissa(), 3);
    assert!(e[1].1 .0);
    assert_eq!(e[1].1 .1.mantissa(), 8);
}

#[test]
fn live_book_publishes_only_newer_books() {
    let mut sync = LiveBookSync::new(book(5, vec![], vec![]));
    assert!(sync.on_tick().is_none());
    sync.on_updates(&updates(vec![(6, (true, d(1, 0), d(1, 0)))]));
    let published = sync.on_tick().unwrap();
    assert_eq!(published.sequence.mantissa(), 6);
    assert_eq!(levels(&published.bids), vec![(1, 1)]);
    assert!(sync.on_tick().is_none());
    assert_eq!(sync.current().sequence.mantissa(), 6);
}

#[test]
fn topics_read_and_render() {
    let texts = [
        "/market/candles:BTC-USDT_1hour",
        "/market/level2:BTC-USDT",
        "/spotMarket/level2Depth5:BTC-USDT",
        "/spotMarket/level2Depth50:BTC-USDT",
        "/market/snapshot:BTC-USDT",
        "/market/ticker:BTC-USDT",
        "/market/match:BTC-USDT",
    ];
    for t in texts {
        assert_eq!(Topic::from_str(t).unwrap().to_string(), t);
    }
    assert_eq!(Topic::from_str("/account/balance:x").unwrap().to_string(), "/account/balance");
    // A topic without parameters is not read back from its own text.
    match Topic::from_str("/account/balance") {
        Err(Error::Parse { reason }) => assert_eq!(reason, "The topic '/account/balance' is not colon-delimited"),
        other => panic!("unexpected {:?}", other),
    }
    match Topic::from_str("/nope:BTC-USDT") {
        Err(Error::Parse { reason }) => assert_eq!(reason, "The topic '/nope' is not recognized"),
        other => panic!("unexpected {:?}", other),
    }
    match Topic::from_str("/market/candles:BTC-USDT") {
        Err(Error::Parse { reason }) => {
            assert_eq!(reason, "The klines symbol_interval combination 'BTC-USDT' is not underscore-delimited")
        },
        other => panic!("unexpected {:?}", other),
    }
    assert!(Topic::from(TopicAccountBalance::new()).is_private());
    assert!(Topic::from(TopicOrderChange::new()).is_private());
    assert!(!Topic::from(TopicTicker::new(sym("BTC-USDT"))).is_private());
    assert_eq!(Topic::from(TopicKlines::new(sym("A-B"), KlineInterval::OneDay)).to_string(), "/market/candles:A-B_1day");
    assert_eq!(Topic::from(TopicLevel2::new(sym("A-B"))).to_string(), "/market/level2:A-B");
}

#[test]
fn request_ids_count_up() {
    let mut counter = 1u64;
    assert_eq!(next_req_id(&mut counter), "1");
    assert_eq!(counter, 2);
    let mut ids = RequestIds::new();
    assert_eq!(ids.next_id(), "1");
    let r = Request::subscribe(&mut ids, Topic::from(TopicAccountBalance::new()));
    assert_eq!(r.id, "2");
    assert!(r.private_channel);
    assert!(r.response);
    assert!(matches!(r.req_type, RequestType::Subscribe { .. }));
    let u = Request::unsubscribe(&mut ids, Topic::from(TopicTicker::new(sym("A-B"))));
    assert_eq!(u.id, "3");
    assert!(!u.private_channel);
    let p = Request::ping(&mut ids);
    assert_eq!(p.id, "4");
    assert!(!p.response);
    let mut last = u64::MAX;
    assert_eq!(next_req_id(&mut last), u64::MAX.to_string());
    assert_eq!(last, 0);
}

#[test]
fn subscription_lifecycle() {
    let mut subs = Subscriptions::new();
    let mut ids = RequestIds::new();
    let topic = Topic::from(TopicTicker::new(sym("BTC-USDT")));
    let req = Request::subscribe(&mut ids, topic.clone());
    subs.register(req.id.clone(), req.pending());
    // A message of a topic not yet subscribed is dropped.
    assert!(matches!(subs.handle_event(Event::Message { topic: topic.clone() }), Action::Nothing));
    match subs.handle_event(Event::Ack { id: req.id.clone() }) {
        Action::OpenStream { id, topic: t } => {
            assert_eq!(id, "1");
            assert_eq!(t.to_string(), "/market/ticker:BTC-USDT");
            subs.add_subscription(t);
        },
        other => panic!("unexpected {:?}", other),
    }
    // The same acknowledgement again does nothing.
    assert!(matches!(subs.handle_event(Event::Ack { id: req.id.clone() }), Action::Nothing));
    assert!(subs.is_subscribed(&topic));
    assert!(matches!(subs.handle_event(Event::Message { topic: topic.clone() }), Action::Forward { .. }));
    let un = Request::unsubscribe(&mut ids, topic.clone());
    subs.register(un.id.clone(), un.pending());
    assert!(matches!(subs.handle_event(Event::Ack { id: un.id.clone() }), Action::ConfirmUnsubscribe { .. }));
    assert!(!subs.is_subscribed(&topic));
    assert!(matches!(subs.handle_event(Event::Message { topic: topic.clone() }), Action::Nothing));
    assert!(matches!(subs.handle_event(Event::Pong), Action::Nothing));
}

#[test]
fn refused_requests_are_rejected_once() {
    let mut subs = Subscriptions::new();
    subs.register("7".to_string(), Pending::Subscribe(Topic::from(TopicAccountBalance::new())));
    match subs.handle_event(Event::Error { id: "7".to_string(), code: SystemCode(401), data: "no".to_string() }) {
        Action::Reject { id, source } => {
            assert_eq!(id, "7");
            assert_eq!(source.code, SystemCode(401));
            assert_eq!(source.msg, "no");
        },
        other => panic!("unexpected {:?}", other),
    }
    assert!(matches!(
        subs.handle_event(Event::Error { id: "7".to_string(), code: SystemCode(401), data: "no".to_string() }),
        Action::Nothing
    ));
}

#[test]
fn connection_setup() {
    assert_eq!(bullet_path(true), "/api/v1/bullet-private");
    assert_eq!(bullet_path(false), "/api/v1/bullet-public");
    assert!(ensure_open(false).is_ok());
    assert!(matches!(ensure_open(true), Err(Error::WebsocketClosed)));
    let server = |endpoint: &str, protocol, encrypt, ping_interval| ConnectServer {
        endpoint: endpoint.to_string(),
        protocol,
        encrypt,
        ping_interval,
    };
    let info = ConnectInfo {
        servers: vec![
            server("ws://plain", ConnectProtocol::WebSocket, false, 1),
            server("wss://other", ConnectProtocol::Unknown, true, 2),
            server("wss://one", ConnectProtocol::WebSocket, true, 3),
            server("wss://two", ConnectProtocol::WebSocket, true, 4),
        ],
        token: "tok".to_string(),
    };
    assert_eq!(connect_target(&info).unwrap(), ("wss://one?token=tok".to_string(), 3));
    let none = ConnectInfo { servers: vec![server("ws://plain", ConnectProtocol::WebSocket, false, 1)], token: "t".to_string() };
    assert!(matches!(connect_target(&none), Err(Error::WebsocketUnavailable)));
}

#[test]
fn successive_ids_are_distinct_and_increasing() {
    let mut counter = RequestIds::new();
    let ids: Vec<String> = (0..5).map(|_| counter.next_id()).collect();
    assert_eq!(ids, vec!["1", "2", "3", "4", "5"]);
    let numbers: Vec<u64> = ids.iter().map(|i| i.parse().unwrap()).collect();
    assert!(numbers.windows(2).all(|w| w[0] < w[1]));
}

#[test]
fn stream_hand_over_decides_the_subscription() {
    let mut subs = Subscriptions::new();
    let topic = Topic::from(TopicTicker::new(sym("BTC-USDT")));
    subs.stream_handed_over(topic.clone(), false);
    assert!(!subs.is_subscribed(&topic));
    subs.stream_handed_over(topic.clone(), true);
    assert!(subs.is_subscribed(&topic));
    subs.message_delivered(&topic, true);
    assert!(subs.is_subscribed(&topic));
    subs.message_delivered(&topic, false);
    assert!(!subs.is_subscribed(&topic));
}

use kucoin::decimal::Decimal;
use kucoin::pagination::{PageCursor, PagedRequest, PagedResponse};
use kucoin::spot::market::{Currency, CurrencyCode, Symbol};
use kucoin::spot::service::Status;
use kucoin::spot::trade::{
    cancel_all_query, client_order_path, order_path, OrderId, OrderRequest, OrderType, OrderTypeLimit,
    OrderTypeMarket, OrderTypeRequest, OrderVisibility, SelfTradePrevention, TimeInForce, TradeSide, TradeType,
};
use kucoin::spot::user::{
    balances_query, create_account_body, fees_by_symbol, trade_fees_path, Account, AccountBalances, AccountId,
    AccountType, AccountsRequest, Fee, TransferRequest,
};

fn d(m: i64, s: u32) -> Decimal {
    Decimal::new(m, s)
}

fn sym(s: &str) -> Symbol {
    Symbol::from_str(s).unwrap()
}

fn code(s: &str) -> CurrencyCode {
    CurrencyCode::new(s.to_string())
}

fn limit_request() -> OrderRequest {
    OrderRequest::new(
        "client-1".to_string(),
        TradeSide::Buy,
        sym("BTC-USDT"),
        OrderTypeRequest::Limit(OrderTypeLimit::new(d(100, 0), d(1, 0))),
    )
}

#[test]
fn order_request_defaults() {
    let r = limit_request();
    let (client_id, side, symbol, order_type, remark, stp) = r.parts();
    assert_eq!(client_id, "client-1");
    assert_eq!(side, TradeSide::Buy);
    assert_eq!(symbol.to_string(), "BTC-USDT");
    assert!(remark.is_none());
    assert_eq!(stp, SelfTradePrevention::CancelNewest);
    match order_type {
        OrderTypeRequest::Limit(l) => {
            let (price, size, tif, vis) = l.parts();
            assert_eq!(price.mantissa(), 100);
            assert_eq!(size.mantissa(), 1);
            assert_eq!(tif, TimeInForce::GoodTilCanceled { post_only: true });
            assert!(matches!(vis, OrderVisibility::Visible));
        },
        OrderTypeRequest::Market(_) => panic!("expected a limit order"),
    }
    let r = r.stp(SelfTradePrevention::CancelBoth);
    assert_eq!(r.parts().5, SelfTradePrevention::CancelBoth);
}

#[test]
fn remarks_are_cut_to_100_bytes() {
    let short = limit_request().remark("hello".to_string());
    assert_eq!(short.parts().4.map(|s| s.as_str()), Some("hello"));
    let long = limit_request().remark("x".repeat(150));
    assert_eq!(long.parts().4.map(|s| s.len()), Some(100));
    let exact = limit_request().remark("y".repeat(100));
    assert_eq!(exact.parts().4.map(|s| s.len()), Some(100));
    // 99 ASCII bytes and then a two-byte character ending at byte 101 would
    // split the character; a three-byte one ending at byte 100 does not.
    let text = format!("{}{}", "z".repeat(97), "€€");
    let cut = limit_request().remark(text);
    assert_eq!(cut.parts().4.map(|s| s.as_str().to_string()), Some(format!("{}€", "z".repeat(97))));
}

#[test]
fn limit_order_builders() {
    let l = OrderTypeLimit::new(d(1, 0), d(2, 0))
        .time_in_force(TimeInForce::FillOrKill)
        .visibility(OrderVisibility::Hidden { hidden: true });
    let (_, _, tif, vis) = l.parts();
    assert_eq!(tif, TimeInForce::FillOrKill);
    assert_eq!(vis.to_string(), "hidden = true");
    let m = OrderTypeMarket::Quote(d(5, 0));
    assert!(matches!(m, OrderTypeMarket::Quote(_)));
}

#[test]
fn order_settings_render() {
    assert_eq!(OrderType::default(), OrderType::Limit);
    assert_eq!(OrderType::StopMarket.to_string(), "stop_market");
    assert_eq!(OrderVisibility::Visible.to_string(), "visible");
    assert_eq!(
        OrderVisibility::Iceberg { iceberg: true, visible_size: d(25, 1) }.to_string(),
        "iceberg = true, visible_size = 2.5"
    );
    assert_eq!(SelfTradePrevention::DecreaseAndCancel.as_str(), "DC");
    assert_eq!(SelfTradePrevention::default(), SelfTradePrevention::CancelNewest);
    assert_eq!(TimeInForce::GoodTilTime { cancel_after: 30, post_only: false }.to_string(), "GTT(30)");
    assert_eq!(TimeInForce::default().to_string(), "GTC");
    assert_eq!(TimeInForce::ImmediateOrCancel.to_string(), "IOC");
    assert_eq!(TradeType::Margin.as_str(), "MARGIN_TRADE");
    assert_eq!(Status::CancelOnly.to_string(), "CANCEL ONLY");
    assert_eq!(Status::Open.to_string(), "OPEN");
}

#[test]
fn order_ids_and_paths() {
    let id = OrderId::new("5c35c02703aa673ceec2a168".to_string());
    assert_eq!(id.to_string(), "5c35c02703aa673ceec2a168");
    assert_eq!(order_path(&id), "/api/v1/orders/5c35c02703aa673ceec2a168");
    assert_eq!(client_order_path("abc"), "/api/v1/order/client-order/abc");
    assert_eq!(OrderId::new("a".to_string()).compare(&OrderId::new("b".to_string())), -1);
    assert!(id.same_as(&id.clone()));
}

#[test]
fn cancel_all_queries() {
    assert_eq!(cancel_all_query(TradeType::Trade, None), "tradeType=TRADE");
    assert_eq!(cancel_all_query(TradeType::Margin, Some(&sym("ETH-BTC"))), "symbol=ETH-BTC&tradeType=MARGIN_TRADE");
}

#[test]
fn accounts_requests() {
    let r = AccountsRequest::new();
    assert!(!r.refreshes_all());
    assert_eq!(r.query(), "");
    let r = r.currency(code("BTC")).account_type(AccountType::Trade).refresh_all();
    assert!(r.refreshes_all());
    assert_eq!(r.query(), "currency=BTC&type=trade");
    assert_eq!(AccountsRequest::new().account_type(AccountType::Pool).query(), "type=pool");
    // Names and values are form-encoded.
    assert_eq!(AccountsRequest::new().currency(code("A B&é")).query(), "currency=A+B%26%C3%A9");
}

fn account(id: &str, c: &str, t: AccountType) -> Account {
    Account {
        id: AccountId::new(id.to_string()),
        currency: code(c),
        account_type: t,
        balance: d(0, 0),
        available: d(0, 0),
        holds: d(0, 0),
        transferable: d(0, 0),
    }
}

#[test]
fn accounts_compare_and_render() {
    let a = account("1", "BTC", AccountType::Main);
    let b = account("2", "AAA", AccountType::Trade);
    let c = account("3", "ETH", AccountType::Main);
    assert_eq!(a.compare(&b), -1);
    assert_eq!(a.compare(&c), -1);
    assert!(a.same_as(&account("1", "X", AccountType::Pool)));
    assert_eq!(a.to_string(), "1 (BTC MAIN)");
    assert_eq!(AccountType::from_u64(2), Some(AccountType::Margin));
    assert_eq!(AccountType::from_u64(4), None);
    assert_eq!(AccountType::Margin.compare(&AccountType::Trade), 1);
}

#[test]
fn refreshing_an_account() {
    let mut a = account("1", "BTC", AccountType::Main);
    assert_eq!(balances_query(&a), "currency=BTC&type=MAIN");
    a.apply_balances(AccountBalances { balance: d(10, 0), available: d(7, 0), holds: d(3, 0), transferable: d(6, 0) });
    assert_eq!(a.balance.mantissa(), 10);
    assert_eq!(a.available.mantissa(), 7);
    assert_eq!(a.holds.mantissa(), 3);
    assert_eq!(a.transferable.mantissa(), 6);
    assert_eq!(a.id.as_str(), "1");
}

#[test]
fn create_account_bodies() {
    assert_eq!(create_account_body(AccountType::Main, &code("BTC")), "{\"currency\":\"BTC\",\"type\":\"main\"}");
    assert_eq!(
        create_account_body(AccountType::Margin, &code("a\"b\\c\n")),
        "{\"currency\":\"a\\\"b\\\\c\\n\",\"type\":\"margin\"}"
    );
    assert_eq!(create_account_body(AccountType::Pool, &code("\u{1}")), "{\"currency\":\"\\u0001\",\"type\":\"pool\"}");
}

#[test]
fn trade_fees() {
    assert_eq!(trade_fees_path(&vec![sym("BTC-USDT"), sym("ETH-BTC")]), "/api/v1/trade-fees?symbols=BTC-USDT,ETH-BTC");
    let fee = |t: i64| Fee { taker_fee_rate: d(t, 3), maker_fee_rate: d(1, 3) };
    let rows = vec![(sym("A-B"), fee(1)), (sym("C-D"), fee(2)), (sym("A-B"), fee(3))];
    let fees = fees_by_symbol(rows);
    assert_eq!(fees.len(), 2);
    let ab = fees.iter().find(|(s, _)| s.to_string() == "A-B").unwrap();
    assert_eq!(ab.1.taker_fee_rate.mantissa(), 3);
    let cd = fees.iter().find(|(s, _)| s.to_string() == "C-D").unwrap();
    assert_eq!(cd.1.taker_fee_rate.mantissa(), 2);
}

fn currency(precision: u32) -> Currency {
    Currency {
        code: code("BTC"),
        name: "BTC".to_string(),
        full_name: "Bitcoin".to_string(),
        precision,
        confirms: 1,
        contract_address: String::new(),
        withdrawal_min_size: d(0, 0),
        withdrawal_min_fee: d(0, 0),
        is_withdraw_enabled: true,
        is_deposit_enabled: true,
        is_margin_enabled: false,
        is_debit_enabled: false,
    }
}

#[test]
fn transfers_round_to_the_currency_precision() {
    let r = TransferRequest::new("t1".to_string(), &currency(2), AccountType::Main, AccountType::Trade, d(12345, 3)).unwrap();
    let (id, c, from, to, amount) = r.parts();
    assert_eq!(id, "t1");
    assert_eq!(c.as_str(), "BTC");
    assert_eq!(from, AccountType::Main);
    assert_eq!(to, AccountType::Trade);
    assert_eq!((amount.mantissa(), amount.scale()), (1234, 2));
    let r = TransferRequest::new("t2".to_string(), &currency(8), AccountType::Main, AccountType::Pool, d(5, 1)).unwrap();
    assert_eq!((r.parts().4.mantissa(), r.parts().4.scale()), (5, 1));
}

#[test]
fn paged_requests() {
    let r = PagedRequest::new("req");
    assert_eq!(r.page(), 1);
    assert_eq!(r.page_size(), 500);
    let r = r.current_page(3);
    assert_eq!(r.page(), 3);
    assert_eq!(*r.request(), "req");
}

fn page(n: usize, total: usize) -> PagedResponse<usize> {
    PagedResponse { current_page: n, page_size: 500, total_num: 0, total_page: total, items: vec![n] }
}

#[test]
fn the_cursor_walks_every_page_once() {
    let mut c = PageCursor::start();
    let mut seen = vec![];
    while let Some(p) = c.next_page() {
        seen.extend(c.advance(page(p, 3)));
    }
    assert_eq!(seen, vec![1, 2, 3]);
    // A listing with no pages still fetches the first one.
    let mut c = PageCursor::start();
    assert_eq!(c.next_page(), Some(1));
    assert_eq!(c.advance(page(1, 0)), vec![1]);
    assert_eq!(c.next_page(), None);
}

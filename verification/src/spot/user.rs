//! Accounts: identifiers and types, the account listing request, balances,
//! fees, transfers, and the queries and bodies of the user endpoints.

use vstd::prelude::*;

use crate::assoc::{assoc_map, has_assoc, keys_unique, lemma_assoc_empty, lemma_assoc_push, lemma_assoc_remove};
use crate::client::{form_urlencoded, json_quote, json_string, urlencode_pairs};
use crate::decimal::{round_dp_spec, Decimal};
use crate::spot::market::{symbol_text, Currency, CurrencyCode, Symbol, SymbolView};
use crate::text::text_order;
use crate::utils::{comma_join, iter_to_csv};

verus! {

broadcast use vstd::std_specs::vec::group_vec_axioms;

/// The identifier the exchange gives an account.
#[derive(Debug)]
pub struct AccountId(String);

impl View for AccountId {
    type V = Seq<char>;

    closed spec fn view(&self) -> Seq<char> {
        self.0@
    }
}

impl Clone for AccountId {
    fn clone(&self) -> (a: AccountId)
        ensures
            a@ == self@,
    {
        AccountId(self.0.clone())
    }
}

impl AccountId {
    pub fn new(id: String) -> (a: AccountId)
        ensures
            a@ == id@,
    {
        AccountId(id)
    }

    pub fn as_str(&self) -> (s: &str)
        ensures
            s@ == self@,
    {
        self.0.as_str()
    }

    /// The identifier's text (`Display`).
    pub fn to_string(&self) -> (s: String)
        ensures
            s@ == self@,
    {
        self.0.clone()
    }

    /// Equality of identifiers.
    pub fn same_as(&self, other: &AccountId) -> (b: bool)
        ensures
            b == (self@ == other@),
    {
        self.0 == other.0
    }
}

/// The kind of an account.
#[derive(Clone, Copy, Debug, PartialEq, Eq, Structural, PartialOrd, Ord)]
pub enum AccountType {
    Main,
    Trade,
    Margin,
    Pool,
}

/// The position of an account type in the order of the variants (also the
/// number the type is read from).
pub open spec fn account_type_index(t: AccountType) -> int {
    match t {
        AccountType::Main => 0,
        AccountType::Trade => 1,
        AccountType::Margin => 2,
        AccountType::Pool => 3,
    }
}

/// The upper-case name of an account type (its `Display`).
pub open spec fn account_type_name(t: AccountType) -> Seq<char> {
    match t {
        AccountType::Main => "MAIN"@,
        AccountType::Trade => "TRADE"@,
        AccountType::Margin => "MARGIN"@,
        AccountType::Pool => "POOL"@,
    }
}

/// The lower-case tag of an account type, as request bodies carry it.
pub open spec fn account_type_tag(t: AccountType) -> Seq<char> {
    match t {
        AccountType::Main => "main"@,
        AccountType::Trade => "trade"@,
        AccountType::Margin => "margin"@,
        AccountType::Pool => "pool"@,
    }
}

impl AccountType {
    /// `MAIN`, `TRADE`, `MARGIN` or `POOL` (`Display`).
    pub fn as_str(&self) -> (s: &'static str)
        ensures
            s@ == account_type_name(*self),
    {
        match self {
            AccountType::Main => "MAIN",
            AccountType::Trade => "TRADE",
            AccountType::Margin => "MARGIN",
            AccountType::Pool => "POOL",
        }
    }

    /// `main`, `trade`, `margin` or `pool`.
    pub fn tag(&self) -> (s: &'static str)
        ensures
            s@ == account_type_tag(*self),
    {
        match self {
            AccountType::Main => "main",
            AccountType::Trade => "trade",
            AccountType::Margin => "margin",
            AccountType::Pool => "pool",
        }
    }

    /// The account type of the given position (`FromPrimitive`).
    pub fn from_u64(n: u64) -> (t: Option<AccountType>)
        ensures
            match t {
                Some(k) => account_type_index(k) == n,
                None => n > 3,
            },
    {
        match n {
            0 => Some(AccountType::Main),
            1 => Some(AccountType::Trade),
            2 => Some(AccountType::Margin),
            3 => Some(AccountType::Pool),
            _ => None,
        }
    }

    /// The order of the variants (`Ord`): `-1`, `0` or `1`.
    pub fn compare(&self, other: &AccountType) -> (r: i8)
        ensures
            r == crate::decimal::sign_of_difference(account_type_index(*self), account_type_index(*other)),
    {
        let a: u8 = match self {
            AccountType::Main => 0,
            AccountType::Trade => 1,
            AccountType::Margin => 2,
            AccountType::Pool => 3,
        };
        let b: u8 = match other {
            AccountType::Main => 0,
            AccountType::Trade => 1,
            AccountType::Margin => 2,
            AccountType::Pool => 3,
        };
        if a < b {
            -1
        } else if a == b {
            0
        } else {
            1
        }
    }
}

/// An account: its identity and balances.
#[derive(Clone, Debug)]
pub struct Account {
    pub id: AccountId,
    pub currency: CurrencyCode,
    pub account_type: AccountType,
    pub balance: Decimal,
    pub available: Decimal,
    pub holds: Decimal,
    pub transferable: Decimal,
}

/// The balances of an account as the exchange reports them.
#[derive(Clone, Copy, Debug)]
pub struct AccountBalances {
    pub balance: Decimal,
    pub available: Decimal,
    pub holds: Decimal,
    pub transferable: Decimal,
}

/// The rendering of an account: `{id} ({currency} {type})`.
pub open spec fn account_text(a: Account) -> Seq<char> {
    a.id@ + " ("@ + a.currency@ + " "@ + account_type_name(a.account_type) + ")"@
}

impl Account {
    /// Accounts are identified by their id (`PartialEq`).
    pub fn same_as(&self, other: &Account) -> (b: bool)
        ensures
            b == (self.id@ == other.id@),
    {
        self.id.same_as(&other.id)
    }

    /// Accounts are ordered by type, then by currency (`Ord`).
    pub fn compare(&self, other: &Account) -> (r: i8)
        ensures
            r == (if account_type_index(self.account_type) != account_type_index(other.account_type) {
                crate::decimal::sign_of_difference(
                    account_type_index(self.account_type),
                    account_type_index(other.account_type),
                )
            } else {
                text_order(self.currency@, other.currency@)
            }),
    {
        let t = self.account_type.compare(&other.account_type);
        if t != 0 {
            t
        } else {
            self.currency.compare(&other.currency)
        }
    }

    /// `{id} ({currency} {type})` (`Display`).
    pub fn to_string(&self) -> (s: String)
        ensures
            s@ == account_text(*self),
    {
        String::from_str(self.id.as_str()).concat(" (").concat(self.currency.as_str()).concat(" ").concat(
            self.account_type.as_str(),
        ).concat(")")
    }

    /// Takes the balances the exchange reported for this account; its
    /// identity is left as it is.
    pub fn apply_balances(&mut self, b: AccountBalances)
        ensures
            final(self).id == old(self).id,
            final(self).currency == old(self).currency,
            final(self).account_type == old(self).account_type,
            final(self).balance == b.balance,
            final(self).available == b.available,
            final(self).holds == b.holds,
            final(self).transferable == b.transferable,
    {
        self.balance = b.balance;
        self.available = b.available;
        self.holds = b.holds;
        self.transferable = b.transferable;
    }
}

/// The name and value pairs of the query that reads an account's balances:
/// its currency and its type (upper-case), in the order of their names.
pub open spec fn balances_pairs(currency: Seq<char>, account_type: AccountType) -> Seq<(Seq<char>, Seq<char>)> {
    seq![("currency"@, currency), ("type"@, account_type_name(account_type))]
}

/// The query of the request that reads an account's balances.
pub fn balances_query(account: &Account) -> (q: String)
    ensures
        q@ == form_urlencoded(balances_pairs(account.currency@, account.account_type)),
{
    let mut pairs: Vec<(String, String)> = Vec::new();
    pairs.push((String::from_str("currency"), account.currency.to_string()));
    pairs.push((String::from_str("type"), String::from_str(account.account_type.as_str())));
    let q = urlencode_pairs(&pairs);
    assert(crate::client::header_views(pairs@) =~= balances_pairs(account.currency@, account.account_type));
    q
}

/// The JSON body of the request that creates an account:
/// `{"currency":…,"type":…}` with the type's lower-case tag.
pub open spec fn create_account_body_text(account_type: AccountType, currency: Seq<char>) -> Seq<char> {
    "{\"currency\":"@ + json_string(currency) + ",\"type\":"@ + json_string(account_type_tag(account_type)) + "}"@
}

/// The body of the request that creates an account of a type in a
/// currency.
pub fn create_account_body(account_type: AccountType, currency: &CurrencyCode) -> (b: String)
    ensures
        b@ == create_account_body_text(account_type, currency@),
{
    let c = json_quote(currency.as_str());
    let t = json_quote(account_type.tag());
    String::from_str("{\"currency\":").concat(c.as_str()).concat(",\"type\":").concat(t.as_str()).concat("}")
}

/// The content of an account listing request.
pub struct AccountsRequestView {
    pub refresh_all: bool,
    pub currency: Option<Seq<char>>,
    pub account_type: Option<AccountType>,
}

/// A request for the list of accounts, optionally of one currency or one
/// type, and optionally with every account's balances read afresh.
#[derive(Debug)]
pub struct AccountsRequest {
    refresh_all: bool,
    currency: Option<CurrencyCode>,
    account_type: Option<AccountType>,
}

impl View for AccountsRequest {
    type V = AccountsRequestView;

    closed spec fn view(&self) -> AccountsRequestView {
        AccountsRequestView {
            refresh_all: self.refresh_all,
            currency: match self.currency {
                Some(c) => Some(c@),
                None => None,
            },
            account_type: self.account_type,
        }
    }
}

impl Clone for AccountsRequest {
    fn clone(&self) -> (r: AccountsRequest)
        ensures
            r@ == self@,
    {
        AccountsRequest {
            refresh_all: self.refresh_all,
            currency: match &self.currency {
                Some(c) => Some(c.clone()),
                None => None,
            },
            account_type: self.account_type,
        }
    }
}

impl Default for AccountsRequest {
    fn default() -> (r: AccountsRequest)
        ensures
            r@ == (AccountsRequestView { refresh_all: false, currency: None, account_type: None }),
    {
        AccountsRequest { refresh_all: false, currency: None, account_type: None }
    }
}

impl AccountsRequest {
    /// All accounts, balances as listed.
    pub fn new() -> (r: AccountsRequest)
        ensures
            r@ == (AccountsRequestView { refresh_all: false, currency: None, account_type: None }),
    {
        AccountsRequest::default()
    }

    /// The same request, with every account's balances read afresh.
    pub fn refresh_all(self) -> (r: AccountsRequest)
        ensures
            r@ == (AccountsRequestView { refresh_all: true, ..self@ }),
    {
        AccountsRequest { refresh_all: true, ..self }
    }

    /// The same request, for one currency.
    pub fn currency(self, currency: CurrencyCode) -> (r: AccountsRequest)
        ensures
            r@ == (AccountsRequestView { currency: Some(currency@), ..self@ }),
    {
        AccountsRequest { currency: Some(currency), ..self }
    }

    /// The same request, for one account type.
    pub fn account_type(self, account_type: AccountType) -> (r: AccountsRequest)
        ensures
            r@ == (AccountsRequestView { account_type: Some(account_type), ..self@ }),
    {
        AccountsRequest { account_type: Some(account_type), ..self }
    }

    /// Whether every account's balances are to be read afresh.
    pub fn refreshes_all(&self) -> (b: bool)
        ensures
            b == self@.refresh_all,
    {
        self.refresh_all
    }

    /// The name and value pairs of the listing query: the currency and the
    /// type (its lower-case tag), each when given.
    pub open spec fn query_pairs(self) -> Seq<(Seq<char>, Seq<char>)> {
        let v = self@;
        let c: Seq<(Seq<char>, Seq<char>)> = match v.currency {
            Some(code) => seq![("currency"@, code)],
            None => seq![],
        };
        match v.account_type {
            Some(t) => c.push(("type"@, account_type_tag(t))),
            None => c,
        }
    }

    /// The query of the listing request.
    pub fn query(&self) -> (q: String)
        ensures
            q@ == form_urlencoded(self.query_pairs()),
    {
        let mut pairs: Vec<(String, String)> = Vec::new();
        match &self.currency {
            Some(c) => {
                pairs.push((String::from_str("currency"), c.to_string()));
            },
            None => {},
        }
        match self.account_type {
            Some(t) => {
                pairs.push((String::from_str("type"), String::from_str(t.tag())));
            },
            None => {},
        }
        let q = urlencode_pairs(&pairs);
        assert(crate::client::header_views(pairs@) =~= self.query_pairs());
        q
    }
}

/// The fee rates of a market.
#[derive(Clone, Copy, Debug)]
pub struct Fee {
    pub taker_fee_rate: Decimal,
    pub maker_fee_rate: Decimal,
}

/// The path of the fee rates of the given markets:
/// `/api/v1/trade-fees?symbols={s1},{s2},…`.
pub fn trade_fees_path(symbols: &Vec<Symbol>) -> (p: String)
    ensures
        p@ == "/api/v1/trade-fees?symbols="@ + comma_join(symbols@.map_values(|s: Symbol| symbol_text(s@))),
{
    let mut texts: Vec<String> = Vec::new();
    let mut i: usize = 0;
    while i < symbols.len()
        invariant
            i <= symbols@.len(),
            texts@.len() == i,
            forall|j: int| 0 <= j < i ==> #[trigger] texts@[j]@ == symbol_text(symbols@[j]@),
        decreases symbols@.len() - i,
    {
        texts.push(symbols[i].to_string());
        i = i + 1;
    }
    let csv = iter_to_csv(&texts);
    assert(texts@.map_values(|t: String| t@) =~= symbols@.map_values(|s: Symbol| symbol_text(s@)));
    String::from_str("/api/v1/trade-fees?symbols=").concat(csv.as_str())
}

/// The fee rates that a list of (market, rates) rows gives each market:
/// a later row of a market replaces an earlier one.
pub open spec fn fees_map(rows: Seq<(SymbolView, Fee)>) -> Map<SymbolView, Fee>
    decreases rows.len(),
{
    if rows.len() == 0 {
        Map::empty()
    } else {
        fees_map(rows.drop_last()).insert(rows.last().0, rows.last().1)
    }
}

/// The views of a list of (market, rates) rows.
pub open spec fn fee_rows(rows: Seq<(Symbol, Fee)>) -> Seq<(SymbolView, Fee)> {
    rows.map_values(|r: (Symbol, Fee)| (r.0@, r.1))
}

/// The fee rates of each market the rows name, once each: a later row of a
/// market replaces an earlier one.
pub fn fees_by_symbol(rows: Vec<(Symbol, Fee)>) -> (r: Vec<(Symbol, Fee)>)
    ensures
        keys_unique(fee_rows(r@)),
        assoc_map(fee_rows(r@)) == fees_map(fee_rows(rows@)),
{
    let ghost all = fee_rows(rows@);
    let mut out: Vec<(Symbol, Fee)> = Vec::new();
    let mut rest = rows;
    let mut reversed: Vec<(Symbol, Fee)> = Vec::new();
    while rest.len() > 0
        invariant
            fee_rows(rest@) + fee_rows(reversed@).reverse() == all,
        decreases rest@.len(),
    {
        let ghost before_rest = rest@;
        let ghost before_rev = reversed@;
        let row = rest.pop().unwrap();
        reversed.push(row);
        proof {
            assert(fee_rows(rest@) =~= fee_rows(before_rest).drop_last());
            assert(fee_rows(reversed@).reverse() =~= seq![fee_rows(before_rest).last()] + fee_rows(before_rev).reverse());
            assert(fee_rows(before_rest) =~= fee_rows(rest@).push(fee_rows(before_rest).last()));
            assert(fee_rows(rest@) + fee_rows(reversed@).reverse() =~= fee_rows(before_rest) + fee_rows(before_rev).reverse());
        }
    }
    assert(fee_rows(rest@) =~= Seq::<(SymbolView, Fee)>::empty());
    assert(fee_rows(reversed@).reverse() =~= all);
    proof {
        lemma_assoc_empty::<SymbolView, Fee>();
        assert(fee_rows(out@) =~= Seq::<(SymbolView, Fee)>::empty());
        assert(all.take(0) =~= Seq::<(SymbolView, Fee)>::empty());
    }
    let ghost n = all.len();
    while reversed.len() > 0
        invariant
            fee_rows(reversed@).reverse() == all.skip(n - reversed@.len()),
            reversed@.len() <= n,
            n == all.len(),
            keys_unique(fee_rows(out@)),
            assoc_map(fee_rows(out@)) == fees_map(all.take(n - reversed@.len())),
        decreases reversed@.len(),
    {
        let ghost k = n - reversed@.len();
        let ghost before_rev = reversed@;
        let row = reversed.pop().unwrap();
        proof {
            assert(fee_rows(before_rev).reverse()[0] == fee_rows(before_rev).last());
            assert(all.skip(k)[0] == all[k]);
            assert((row.0@, row.1) == all[k]);
            assert(fee_rows(reversed@) =~= fee_rows(before_rev).drop_last());
            assert(fee_rows(reversed@).reverse() =~= fee_rows(before_rev).reverse().skip(1));
            assert(all.skip(k).skip(1) =~= all.skip(k + 1));
            assert(all.take(k + 1).drop_last() =~= all.take(k));
            assert(all.take(k + 1).last() == all[k]);
        }
        let mut j: usize = 0;
        let mut found: Option<usize> = None;
        while j < out.len()
            invariant
                j <= out@.len(),
                match found {
                    Some(f) => f < out@.len() && out@[f as int].0@ == row.0@,
                    None => forall|m: int| 0 <= m < j ==> (#[trigger] out@[m]).0@ != row.0@,
                },
            decreases out@.len() - j,
        {
            if found.is_none() && out[j].0.same_as(&row.0) {
                found = Some(j);
            }
            j = j + 1;
        }
        let ghost before_out = out@;
        match found {
            Some(f) => {
                out.remove(f);
                proof {
                    assert(fee_rows(before_out)[f as int].0 == row.0@);
                    lemma_assoc_remove(fee_rows(before_out), f as int);
                    assert(fee_rows(out@) =~= fee_rows(before_out).remove(f as int));
                }
            },
            None => {
                proof {
                    assert(fee_rows(out@) =~= fee_rows(before_out));
                }
            },
        }
        proof {
            assert(!has_assoc(fee_rows(out@), row.0@)) by {
                if has_assoc(fee_rows(out@), row.0@) {
                    let w = choose|w: int| 0 <= w < fee_rows(out@).len() && (#[trigger] fee_rows(out@)[w]).0 == row.0@;
                    match found {
                        Some(f) => {
                            assert(keys_unique(fee_rows(before_out)));
                            if w < f {
                                assert(fee_rows(before_out)[w].0 == row.0@);
                            } else {
                                assert(fee_rows(before_out)[w + 1].0 == row.0@);
                            }
                        },
                        None => {
                            assert(fee_rows(before_out)[w].0 == row.0@);
                            assert(out@[w].0@ == row.0@);
                        },
                    }
                }
            }
        }
        let ghost mid = out@;
        out.push(row);
        proof {
            lemma_assoc_push(fee_rows(mid), (row.0@, row.1));
            assert(fee_rows(out@) =~= fee_rows(mid).push((row.0@, row.1)));
            assert(assoc_map(fee_rows(mid)) =~= fees_map(all.take(k)).remove(row.0@));
            assert(fees_map(all.take(k + 1)) == fees_map(all.take(k)).insert(all[k].0, all[k].1));
            assert(assoc_map(fee_rows(out@)) =~= fees_map(all.take(k + 1)));
        }
    }
    assert(all.take(n as int) =~= all);
    out
}

/// A request to move funds between two accounts of the same currency.
#[derive(Clone, Debug)]
pub struct TransferRequest {
    client_order_id: String,
    currency: CurrencyCode,
    from: AccountType,
    to: AccountType,
    amount: Decimal,
}

/// The content of a transfer request.
pub struct TransferRequestView {
    pub client_order_id: Seq<char>,
    pub currency: Seq<char>,
    pub from: AccountType,
    pub to: AccountType,
    pub amount: Decimal,
}

impl View for TransferRequest {
    type V = TransferRequestView;

    closed spec fn view(&self) -> TransferRequestView {
        TransferRequestView {
            client_order_id: self.client_order_id@,
            currency: self.currency@,
            from: self.from,
            to: self.to,
            amount: self.amount,
        }
    }
}

impl TransferRequest {
    /// A transfer of `amount` of `currency` from one account type to
    /// another; the amount is rounded to the currency's precision (halves to
    /// the even neighbour).
    pub fn new(
        client_order_id: String,
        currency: &Currency,
        from: AccountType,
        to: AccountType,
        amount: Decimal,
    ) -> (r: Result<TransferRequest, crate::error::Error>)
        ensures
            r is Ok,
            r->Ok_0@.client_order_id == client_order_id@,
            r->Ok_0@.currency == currency.code@,
            r->Ok_0@.from == from,
            r->Ok_0@.to == to,
            (r->Ok_0@.amount@.mantissa, r->Ok_0@.amount@.scale) == round_dp_spec(
                amount@.mantissa,
                amount@.scale,
                currency.precision as nat,
            ),
    {
        let amount = amount.round_dp(currency.precision);
        Ok(TransferRequest { client_order_id, currency: currency.code.clone(), from, to, amount })
    }

    /// Client order id, currency, source and destination types, amount.
    pub fn parts(&self) -> (p: (&String, &CurrencyCode, AccountType, AccountType, Decimal))
        ensures
            p.0@ == self@.client_order_id,
            p.1@ == self@.currency,
            p.2 == self@.from,
            p.3 == self@.to,
            p.4 == self@.amount,
    {
        (&self.client_order_id, &self.currency, self.from, self.to, self.amount)
    }
}

} // verus!

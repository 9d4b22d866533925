//! A strongly-typed client library for the KuCoin exchange API.
//!
//! The crate holds the data model of the API, the request building and
//! response interpretation rules, the websocket topic grammar, the
//! subscription bookkeeping and the Level 2 order book maintenance, each with
//! a contract proved by Verus.

pub mod assoc;
pub mod client;
pub mod decimal;
pub mod decimal_map;
pub mod error;
pub mod pagination;
pub mod spot;
pub mod text;
pub mod time;
pub mod utils;

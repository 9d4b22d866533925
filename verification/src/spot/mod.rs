//! The spot market API: its data model, request paths and the rules the
//! client applies to what the service answers.

pub mod level2;
pub mod market;
pub mod service;
pub mod trade;
pub mod user;
pub mod ws;

//! Verified core of a cross-stablecoin BTC arbitrage bot.
pub mod text;
pub mod market;
pub mod stream;
pub mod proxy;
pub mod signing;
pub mod models;
pub mod book;
pub mod ledger;
pub mod engine;

//! An atomic, authority-gated engine that routes a trader's funds through a chain of
//! exchange venues, enforces profit and slippage limits around the route, and keeps the
//! per-authority trading record.

pub mod model;
pub mod engine;
pub mod admin;
pub mod history;

//! A price-aggregation pipeline: samples of an exchange rate are polled at a
//! pace that honours the endpoint's rate limit, folded into minute candles,
//! handed to storage and shown on a terminal.

pub mod async_http_collector;
pub mod atomic_swap;
pub mod channel;
pub mod decimal;
pub mod ohlc;
pub mod ohlc_calc;
pub mod price_info;
pub mod rate_limit;
pub mod shared_state;
pub mod terminal_output;

//! Request planning, argument parsing and decision logic for a poller of the
//! Financial Modeling Prep market-data API.

pub mod text;
pub mod options;
pub mod json;
pub mod auth_config;
pub mod request;
pub mod utils;
pub mod stock;
pub mod financial;
pub mod market;
pub mod economic_data;
pub mod technical_indicators;
pub mod forex;
pub mod commodity;
pub mod search;
pub mod crypto;
pub mod etf;
pub mod crypto_batch;
pub mod logging;
pub mod polling;
pub mod websocket;

//! Ingestion of best-bid / best-ask quotes from exchange websocket feeds
//! into labelled time series.
pub mod decimal;
pub mod json;
pub mod exchange;
pub mod normalize;
pub mod sink;
pub mod codec;
pub mod supervisor;
pub mod clock;
pub mod bootstrap;

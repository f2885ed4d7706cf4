//! A single-slot shared display: the most recent upload is shown to every
//! viewer at most once, purged when it goes stale, and announced to the
//! connected viewers through a bounded broadcast hub.

pub mod connection;
pub mod eviction;
pub mod hub;
pub mod hub_laws;
pub mod json;
pub mod ledger;
pub mod media;
pub mod state;
pub mod store_laws;
pub mod text;
pub mod time;
pub mod upload;
pub mod utils;
pub mod video_processing;
pub mod websocket;

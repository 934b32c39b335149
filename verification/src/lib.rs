//! A mock coordination server for demand-response clients: it keeps synthetic
//! events, webhook subscriptions, and decides what is delivered to whom.

pub mod models;
pub mod text;
pub mod errors;
pub mod clock;
pub mod synthesizer;
pub mod event_store;
pub mod registry;
pub mod authorizer;
pub mod storage;
pub mod dispatch;
pub mod grant;
pub mod handlers;

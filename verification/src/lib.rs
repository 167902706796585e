//! Session management and long-poll protocol engine for a web-based
//! instant-messaging service: credentials, sync cursor, request payloads,
//! response scraping and the decisions of the login handshake and the sync
//! loop.

pub mod decimal;
pub mod text;
pub mod cursor;
pub mod error;
pub mod scrape;
pub mod store;
pub mod json;
pub mod sync;
pub mod dispatch;
pub mod login;
pub mod handshake;

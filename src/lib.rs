//! A browsing tool server: session-scoped `search`, `open` and `find` tools
//! behind a JSON-RPC 2.0 dispatcher, with every decision stated and proved.
//!
//! Network access, HTML scraping and the HTTP transport stay outside; they
//! hand this library plain values and receive plain values back.
pub mod text;
pub mod keyed;
pub mod args;
pub mod error;
pub mod session;
pub mod registry;
pub mod open;
pub mod find;
pub mod search;
pub mod fetch;
pub mod transport;
pub mod server;

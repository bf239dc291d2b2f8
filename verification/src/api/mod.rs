//! Client side of the Netease Cloud Music WEAPI: request encryption,
//! session handling and decoding of the JSON responses.
pub mod crypto;
pub mod parse;
pub mod types;
pub mod error;
pub mod auth;
pub mod client;
pub mod requests;
pub mod response_laws;

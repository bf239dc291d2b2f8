//! Decoder for Netease Cloud Music `.ncm` containers and helpers for the
//! Netease WEAPI, with their behaviour stated and proved in Verus.
pub mod api;
pub mod browser;
mod codec;
pub mod dump;
pub mod json;
pub mod ncm;
mod text;

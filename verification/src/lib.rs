//! Verified core of a bridge that answers Tavily-shaped `/search` and
//! `/extract` requests with results from Kagi.

pub mod adapter;
pub mod http;
pub mod kagi;
pub mod laws;
pub mod models;

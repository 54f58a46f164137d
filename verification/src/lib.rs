//! Client core for the Last.fm scrobble API 2.0: credentials, request
//! signing, request building and response decoding. The library performs no
//! input or output: every operation is split into the request to send and the
//! reading of the service's answer.

pub mod auth;
pub mod client;
pub mod http;
pub mod json;
pub mod order;
pub mod params;
pub mod responses;
pub mod signature;

//! Client side of the bunq authentication handshake: key pairs and request
//! signatures, the response envelope, the credential bundle and its store,
//! and the decisions of the request pipeline.

pub mod api_context;
pub mod common;
pub mod domains;
pub mod http;
pub mod json;
pub mod signing;
pub mod store;

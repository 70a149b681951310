//! Client library for a brokerage's REST API: login protocol, paginated
//! resource listings and order submission, as verified state machines and
//! request builders. The transport that carries the requests lives outside
//! the verified core.

pub mod auth;
pub mod client;
pub mod endpoints;
pub mod error;
pub mod order;
pub mod pagination;
pub mod records;
pub mod request;
pub mod text;

//! Authentication in front of a forwarding RPC service.
//!
//! A replica relays write requests to the primary of its cluster. Before a
//! request leaves the replica the proxy finds the tenant it is meant for,
//! settles which verification strategy applies to that tenant, has the caller
//! verified, and stamps the verified identity on the request. Only a stamped
//! request is handed to the primary.
//!
//! The proxy decides; it does not wait. Looking up a tenant's key and calling
//! the primary are left to the caller, which reports back what happened.

pub mod auth;
pub mod gate;
pub mod laws;
pub mod lookup;
pub mod namespace;
pub mod relay;
pub mod request;
pub mod service;
pub mod status;

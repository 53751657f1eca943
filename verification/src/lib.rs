//! A bridge between HTTP and the git smart transport: service resolution,
//! Basic authentication, pkt-line framing of the ref advertisement, and the
//! decisions that drive one backend process per request.

pub mod auth;
pub mod bridge;
pub mod endpoint;
pub mod pktline;
pub mod service;
pub mod text;

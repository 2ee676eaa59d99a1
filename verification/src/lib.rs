//! A stateless session broker in front of a cookie-session school portal.
//!
//! The library holds the rules of the broker: the signed bearer credentials
//! that stand in for server-side sessions, the three-phase login handshake,
//! the reading of the `Authorization` header, the detection of a session
//! that the portal has dropped, and the errors they share. Network and file
//! access are left to the program around it.

pub mod apis;
pub mod claims;
pub mod credential;
pub mod error;
pub mod handshake;
pub mod html;
pub mod http;
pub mod page;
pub mod relay;
pub mod request_handler;
pub mod responder;
pub mod routes;
pub mod secure;
pub mod text;
pub mod types;
pub mod utils;

//! Typed building blocks for a client of a resource-oriented HTTP API:
//! resource identities, scopes, request and URL building, response
//! decoding, line framing of streamed bodies, watch events and paging.

pub mod text;
pub mod number;
pub mod group;
pub mod options;
pub mod scope;
pub mod json;
pub mod status;
pub mod meta;
pub mod request;
pub mod response;
pub mod resplit;
pub mod watch;
pub mod intstr;
pub mod typemeta;
pub mod client;

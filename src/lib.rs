//! A client library for Subsonic-style media servers: request queries and URLs,
//! response-envelope decoding, and typed decoding of the server's entities.
use vstd::prelude::*;

pub mod album;
pub mod artist;
pub mod envelope;
pub mod client;
pub mod error;
pub mod json;
pub mod query;
pub mod song;
pub mod text;

verus! {

} // verus!

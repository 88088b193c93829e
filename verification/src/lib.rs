//! A typed client library for a movie-database web API.
//!
//! Each command module describes one endpoint: the request parameters it
//! takes, the URL path and query string it builds, and the shape of the
//! response it expects. The path and query construction is verified: every
//! command states exactly which characters it produces for a given request.

pub mod common;
pub mod company;
pub mod movie;
pub mod util;

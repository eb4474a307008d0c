//! Core logic of a multi-tenant static-content proxy.
//!
//! The library turns a request's host header and URL path into a storage
//! key, a serve-or-redirect decision, and an optional pageview event.
//! Everything here is verified; the surrounding HTTP server, object store
//! and database clients live outside the library and only exchange plain
//! values with it.

pub mod handler;
pub mod laws;
pub mod paths;
pub mod policy;
pub mod text;

use vstd::prelude::*;

verus! {

} // verus!

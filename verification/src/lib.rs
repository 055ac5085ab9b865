//! Rotation engine for a desktop background changer: a paginated remote
//! collection cursor, a bounded local wallpaper store with oldest-first
//! eviction, and the per-tick scheduler that drives both.

pub mod text;
pub mod store;
pub mod fetch;
pub mod wallpaper;
pub mod bliss;
pub mod config;

use vstd::prelude::*;

verus! {

/// Credentials for the remote photo API: an opaque client token sent as a
/// query parameter on every collection request.
pub struct ApiKeys {
    pub unsplash_client_id: String,
}

} // verus!

//! A credential-scoped cache of Cloudflare zones and DNS records, and the
//! staged refresh that fills it from the Cloudflare API.
use vstd::prelude::*;

pub mod api;
pub mod cache;
pub mod cloudflare;
pub mod dns_table;
pub mod laws;
pub mod models;
pub mod refresh;

verus! {

} // verus!

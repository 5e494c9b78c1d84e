//! Federation protocol core: domain trust validation, actor endpoint
//! derivation, wire-object conversion with tombstones, outbound dispatch
//! planning, webfinger resolution and the activity audit log.

pub mod activity;
pub mod actor;
pub mod config;
pub mod convert;
pub mod dispatch;
pub mod error;
pub mod ident;
pub mod trust;
pub mod webfinger;

use vstd::prelude::*;

verus! {

/// Media type every federation request and response carries.
pub fn apub_json_content_type() -> (r: &'static str)
    ensures
        r@ == "application/activity+json"@,
{
    "application/activity+json"
}

/// The HTTP status a fetched object is served with: OK while it lives,
/// Gone once it is deleted — the body is then its tombstone.
pub fn apub_response_status(deleted: bool) -> (r: u16)
    ensures
        r == if deleted {
            410u16
        } else {
            200u16
        },
{
    if deleted {
        410
    } else {
        200
    }
}

} // verus!

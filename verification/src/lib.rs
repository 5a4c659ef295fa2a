//! Verified core of a webhook-driven bridge between two chat platforms:
//! typed endpoint descriptions with exactly specified JSON bodies, response
//! envelope classification, token lifecycle, rate-limit spacing, webhook
//! dispatch and the background sticker-conversion job.

pub mod config;
pub mod job;
pub mod retry;
pub mod seatalk_api;
pub mod telegram;
pub mod text;
pub mod webhook;

use vstd::prelude::*;

verus! {

/// True exactly when an HTTP status code lies in the success class.
pub open spec fn spec_status_success(status: u16) -> bool {
    200 <= status < 300
}

/// Success classification of an HTTP status code.
pub fn status_is_success(status: u16) -> (r: bool)
    ensures
        r == spec_status_success(status),
{
    200 <= status && status < 300
}

} // verus!

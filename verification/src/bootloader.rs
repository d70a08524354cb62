//! The requests that a bootloader takes and the responses that it gives.

use vstd::prelude::*;

pub mod request;
pub mod response;

verus! {

/// The most bytes that are sent to a stream at once.
pub const MAX_PACKET_SIZE: u32 = 1024 * 400;

/// The most bytes that are sent to a stream at once.
pub const XLINK_MAX_PACKET_SIZE: usize = 1024 * 400;

} // verus!

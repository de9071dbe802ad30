//! A screen-sharing agent: a negotiation state machine for one transport peer,
//! and a paced capture pipeline that feeds a bounded, latest-wins frame buffer.
use vstd::prelude::*;

pub mod consumer;
pub mod control;
pub mod frame_buffer;
pub mod message;
pub mod producer;
pub mod session;

verus! {

/// Tag carried by every signaling message of this agent.
pub const CLIENT_SDP_OFFER: &'static str = "client_sdp_offer";

/// Sum of two counters.
pub fn add(left: u64, right: u64) -> (r: u64)
    requires
        left + right <= u64::MAX,
    ensures
        r == left + right,
{
    left + right
}

} // verus!

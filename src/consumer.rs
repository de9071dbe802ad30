//! The decisions of the sender that moves frames from the buffer to the
//! transport track.
use vstd::prelude::*;

use crate::control::ControlFlag;
use crate::frame_buffer::{latest_unseen, FrameBuffer, Subscriber};

verus! {

/// What the sender is to do next.
pub enum ConsumerAction {
    /// Write this frame to the track; a failed write is logged and the loop goes on.
    Send(Vec<u8>),
    /// Nothing new: wait for the next publish.
    Wait,
    /// The control flag is cleared: the sender ends.
    Stop,
}

/// One decision of the sender: stop once the control flag is cleared, else hand out
/// the newest frame it has not sent, or wait.
pub fn consumer_step(flag: &ControlFlag, buffer: &FrameBuffer, sub: &mut Subscriber) -> (r: ConsumerAction)
    requires
        buffer.wf(),
    ensures
        !flag@ ==> r is Stop && final(sub)@ == old(sub)@,
        flag@ ==> match r {
            ConsumerAction::Send(f) => latest_unseen(buffer.history(), old(sub)@) == Some(f@)
                && final(sub)@ == buffer.history().len(),
            ConsumerAction::Wait => latest_unseen(buffer.history(), old(sub)@) is None && final(sub)@
                == old(sub)@,
            ConsumerAction::Stop => false,
        },
{
    if !crate::control::get_client_boradcast_enable(flag) {
        return ConsumerAction::Stop;
    }
    match buffer.next(sub) {
        Some(f) => ConsumerAction::Send(f),
        None => ConsumerAction::Wait,
    }
}

} // verus!

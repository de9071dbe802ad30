//! The flag that starts and stops the capture pipeline.
use vstd::prelude::*;

verus! {

/// Whether capture and broadcast are active.
///
/// The flag is a plain value; a caller that shares it between threads guards it
/// with a lock, and every read or write goes through the two functions below.
pub struct ControlFlag {
    enabled: bool,
}

impl View for ControlFlag {
    type V = bool;

    closed spec fn view(&self) -> bool {
        self.enabled
    }
}

impl ControlFlag {
    /// A flag that starts cleared: nothing runs until it is raised.
    pub fn new() -> (r: ControlFlag)
        ensures
            r@ == false,
    {
        ControlFlag { enabled: false }
    }
}

/// Raises or clears the control flag.
pub fn set_client_boradcast_enable(flag: &mut ControlFlag, enable: bool)
    ensures
        final(flag)@ == enable,
{
    flag.enabled = enable;
}

/// Reads the control flag.
pub fn get_client_boradcast_enable(flag: &ControlFlag) -> (r: bool)
    ensures
        r == flag@,
{
    flag.enabled
}

} // verus!

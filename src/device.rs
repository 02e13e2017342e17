//! State of the device window.
use vstd::prelude::*;

verus! {

/// State behind the device window: the device's status and the properties of
/// the connection made to it.
pub struct DeviceDisplay {
    /// The account whose device is shown; empty until one is known.
    pub account_id: String,
}

impl DeviceDisplay {
    /// No account known yet.
    pub fn new() -> (r: DeviceDisplay)
        ensures
            r.account_id@ == Seq::<char>::empty(),
    {
        DeviceDisplay { account_id: String::new() }
    }
}

} // verus!

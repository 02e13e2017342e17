//! State of the account window.
use vstd::prelude::*;

verus! {

/// State behind the account window: account details, credential changes and
/// appearance settings.
pub struct AccountDisplay {
    /// The account shown; empty until one is known.
    pub account_id: String,
}

impl AccountDisplay {
    /// No account known yet.
    pub fn new() -> (r: AccountDisplay)
        ensures
            r.account_id@ == Seq::<char>::empty(),
    {
        AccountDisplay { account_id: String::new() }
    }
}

} // verus!

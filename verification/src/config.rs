//! The settings that the handlers are given, in place of anything global.

use vstd::prelude::*;

verus! {

/// What the backend is set up with. The value is built once, at start, and handed to
/// whoever needs it.
#[derive(Clone, Debug, PartialEq, Eq)]
pub struct Settings {
    /// The secret that signs the session tokens.
    pub secret: String,
    /// Whether a confirmation is refused once the registration has waited for longer than
    /// it was meant to. The end of the waiting time is stored with every registration; by
    /// default nothing looks at it.
    pub enforce_pending_expiry: bool,
}

impl Settings {
    /// The settings with the given secret and every switch at its default.
    pub fn new(secret: String) -> (settings: Settings)
        ensures
            settings.secret == secret,
            !settings.enforce_pending_expiry,
    {
        Settings { secret, enforce_pending_expiry: false }
    }

    /// The same settings with the end of the waiting time enforced, or not.
    pub fn with_pending_expiry(self, enforce: bool) -> (settings: Settings)
        ensures
            settings.secret == self.secret,
            settings.enforce_pending_expiry == enforce,
    {
        Settings { secret: self.secret, enforce_pending_expiry: enforce }
    }
}

} // verus!

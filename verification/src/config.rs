//! The credential record: the one persisted entity, loaded as a unit at
//! startup and passed by parameter to whatever needs it — no ambient state.

use vstd::prelude::*;

verus! {

/// An email/identifier and a secret, with no validation and no derived state.
pub struct Settings {
    pub email: String,
    pub password: String,
}

impl Settings {
    /// Builds the record from its two fields.
    pub fn new(email: String, password: String) -> (s: Settings)
        ensures
            s.email == email,
            s.password == password,
    {
        Settings { email, password }
    }
}

impl Default for Settings {
    /// Both fields default to empty.
    fn default() -> (s: Settings)
        ensures
            s.email@ == Seq::<char>::empty(),
            s.password@ == Seq::<char>::empty(),
    {
        Settings { email: String::new(), password: String::new() }
    }
}

} // verus!

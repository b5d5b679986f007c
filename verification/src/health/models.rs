//! The answer to a health check.

use vstd::prelude::*;

verus! {

/// The status that a service reports while it serves requests.
pub const STATUS_OK: &'static str = "ok";

/// The answer to a health check.
#[derive(Debug, PartialEq, Eq)]
pub struct Health {
    pub status: String,
}

impl View for Health {
    type V = Seq<char>;

    open spec fn view(&self) -> Seq<char> {
        self.status@
    }
}

impl Clone for Health {
    fn clone(&self) -> (copy: Self)
        ensures
            copy@ == self@,
    {
        Health { status: self.status.clone() }
    }
}

impl Health {
    /// The answer of a service that serves requests.
    pub fn ok() -> (health: Health)
        ensures
            health@ == STATUS_OK@,
    {
        Health { status: STATUS_OK.to_string() }
    }
}

} // verus!

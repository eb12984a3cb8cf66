//! The names of the database tables that the store uses.
use vstd::prelude::*;

use crate::error::SqliteStorageError;

verus! {

/// The table names of the store; there is one, that of the identity table.
#[derive(Debug, Clone, PartialEq, Eq)]
pub struct Tables {
    identity: &'static str,
}

impl View for Tables {
    type V = Seq<char>;

    /// The name of the identity table.
    closed spec fn view(&self) -> Seq<char> {
        self.identity@
    }
}

impl Default for Tables {
    /// The identity table is named `identity`.
    fn default() -> (r: Self)
        ensures
            r@ == "identity"@,
    {
        Tables { identity: "identity" }
    }
}

impl Tables {
    /// The name of the identity table.
    pub fn identity(&self) -> (r: &'static str)
        ensures
            r@ == self@,
    {
        self.identity
    }

    /// Checks the table names. No name is refused: an empty name and a
    /// repeated name are accepted alike.
    pub fn check(&self) -> (r: Result<(), SqliteStorageError>)
        ensures
            r is Ok,
    {
        Ok(())
    }
}

} // verus!

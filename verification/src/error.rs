//! The errors that the library's own decisions produce.

use vstd::prelude::*;

verus! {

/// A request that the explorer refuses.
#[derive(Debug, Clone, PartialEq, Eq)]
pub enum DbViewError {
    /// The named table is not in the database.
    TableNotFound(String),
}

/// The message shown for an error.
pub open spec fn error_message(e: DbViewError) -> Seq<char> {
    match e {
        DbViewError::TableNotFound(name) => "Table '"@ + name@ + "' does not exist"@,
    }
}

impl DbViewError {
    /// The message shown for this error.
    pub fn message(&self) -> (r: String)
        ensures
            r@ == error_message(*self),
    {
        match self {
            DbViewError::TableNotFound(name) => {
                let mut out = String::from_str("Table '");
                out.append(name.as_str());
                out.append("' does not exist");
                out
            },
        }
    }
}

} // verus!

//! The permission scopes that an access token can be requested for.

use vstd::prelude::*;
use vstd::string::*;

verus! {

/// A permission that an access token grants.
#[derive(Debug, Clone, Copy, PartialEq, Eq, Structural)]
pub enum Scope {
    /// Read-only access to spreadsheets.
    SpreadsheetsReadOnly,
}

/// The canonical URI of a scope.
pub open spec fn scope_uri(scope: Scope) -> Seq<char> {
    match scope {
        Scope::SpreadsheetsReadOnly => "https://www.googleapis.com/auth/spreadsheets.readonly"@,
    }
}

impl Scope {
    /// Renders the scope as its canonical URI.
    pub fn to_string(&self) -> (r: String)
        ensures
            r@ == scope_uri(*self),
    {
        match self {
            Scope::SpreadsheetsReadOnly => String::from_str(
                "https://www.googleapis.com/auth/spreadsheets.readonly",
            ),
        }
    }
}

} // verus!

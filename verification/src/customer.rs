//! The customer-facing address shape and its validation rules. Customer
//! records themselves are managed outside the core.

use vstd::prelude::*;

use crate::errors::DefiantError;

verus! {

/// A postal address attached to a customer, every part optional.
#[derive(Debug)]
pub struct Address {
    pub line1: Option<String>,
    pub line2: Option<String>,
    pub city: Option<String>,
    pub state: Option<String>,
    pub postal_code: Option<String>,
    pub country: Option<String>,
}

/// An acceptable address: each given part within its length bounds, the
/// country a two-letter code.
pub open spec fn address_valid(a: &Address) -> bool {
    &&& (a.line1 matches Some(s) ==> 1 <= s@.len() <= 200)
    &&& (a.line2 matches Some(s) ==> s@.len() <= 200)
    &&& (a.city matches Some(s) ==> 1 <= s@.len() <= 100)
    &&& (a.state matches Some(s) ==> s@.len() <= 100)
    &&& (a.postal_code matches Some(s) ==> 3 <= s@.len() <= 10)
    &&& (a.country matches Some(s) ==> s@.len() == 2)
}

impl Address {
    /// Checks the address, reporting `ValidationError` exactly on the
    /// inputs `address_valid` rejects.
    pub fn validate(&self) -> (r: Result<(), DefiantError>)
        ensures
            r is Ok <==> address_valid(self),
            r matches Err(e) ==> e is ValidationError,
    {
        if let Some(s) = &self.line1 {
            let n = s.as_str().unicode_len();
            if n < 1 || n > 200 {
                return Err(DefiantError::ValidationError(String::from_str(
                    "line1 out of bounds",
                )));
            }
        }
        if let Some(s) = &self.line2 {
            if s.as_str().unicode_len() > 200 {
                return Err(DefiantError::ValidationError(String::from_str(
                    "line2 out of bounds",
                )));
            }
        }
        if let Some(s) = &self.city {
            let n = s.as_str().unicode_len();
            if n < 1 || n > 100 {
                return Err(DefiantError::ValidationError(String::from_str(
                    "city out of bounds",
                )));
            }
        }
        if let Some(s) = &self.state {
            if s.as_str().unicode_len() > 100 {
                return Err(DefiantError::ValidationError(String::from_str(
                    "state out of bounds",
                )));
            }
        }
        if let Some(s) = &self.postal_code {
            let n = s.as_str().unicode_len();
            if n < 3 || n > 10 {
                return Err(DefiantError::ValidationError(String::from_str(
                    "postal code out of bounds",
                )));
            }
        }
        if let Some(s) = &self.country {
            if s.as_str().unicode_len() != 2 {
                return Err(DefiantError::ValidationError(String::from_str(
                    "country must be a 2-letter code",
                )));
            }
        }
        Ok(())
    }
}

} // verus!

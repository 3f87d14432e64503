use vstd::prelude::*;

verus! {

/// Error raised when a catalog input fails validation or an operation fails.
#[derive(Clone, Debug, PartialEq, Eq)]
pub enum CatalogError {
    /// The input is malformed.
    ValidationError(String),
    /// Any other failure.
    Other(String),
}

impl CatalogError {
    /// Whether this error reports malformed input.
    pub open spec fn is_validation(&self) -> bool {
        self is ValidationError
    }

    /// The human-readable text carried by the error.
    pub fn message(&self) -> (r: &str)
        ensures
            r@ == match self {
                CatalogError::ValidationError(m) => m@,
                CatalogError::Other(m) => m@,
            },
    {
        match self {
            CatalogError::ValidationError(m) => m.as_str(),
            CatalogError::Other(m) => m.as_str(),
        }
    }
}

} // verus!

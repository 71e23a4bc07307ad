use vstd::prelude::*;

verus! {

/// Failure to build an address from an integer that does not fit.
#[derive(Debug, Clone, Copy, PartialEq, Eq, Structural)]
pub enum AddressError {
    TryFromIntError,
}

impl From<core::num::TryFromIntError> for AddressError {
    fn from(_e: core::num::TryFromIntError) -> (r: AddressError)
        ensures
            r == AddressError::TryFromIntError,
    {
        AddressError::TryFromIntError
    }
}

impl vstd::std_specs::convert::FromSpecImpl<core::num::TryFromIntError> for AddressError {
    open spec fn obeys_from_spec() -> bool {
        true
    }

    open spec fn from_spec(v: core::num::TryFromIntError) -> AddressError {
        AddressError::TryFromIntError
    }
}

impl AddressError {
    /// A human-readable description of the error.
    pub fn message(&self) -> (r: &'static str)
        ensures
            r@ == "out of range integral type conversion attempted"@,
    {
        "out of range integral type conversion attempted"
    }
}

} // verus!

use vstd::prelude::*;

use super::TestFlags;

verus! {

/// An I/O failure while reading a cartridge image.
#[verifier::external_type_specification]
#[verifier::external_body]
pub struct ExIoError(std::io::Error);

/// Why a cartridge could not be loaded.
#[derive(Debug)]
pub enum CartridgeError {
    Io(std::io::Error),
    NotProbableCartridge(NotProbableCartridgeError),
}

impl From<std::io::Error> for CartridgeError {
    fn from(e: std::io::Error) -> (r: CartridgeError)
        ensures
            r is Io,
    {
        CartridgeError::Io(e)
    }
}

impl vstd::std_specs::convert::FromSpecImpl<std::io::Error> for CartridgeError {
    open spec fn obeys_from_spec() -> bool {
        false
    }

    open spec fn from_spec(v: std::io::Error) -> CartridgeError {
        CartridgeError::Io(v)
    }
}

/// Indicates the loaded ROM is probably not a cartridge image: the tests it passed are
/// not among those that were required.
#[derive(Debug, Clone, Copy, PartialEq, Eq, Structural)]
pub struct NotProbableCartridgeError {
    pub passed: TestFlags,
    pub required: TestFlags,
}

impl NotProbableCartridgeError {
    pub fn new(passed: TestFlags, required: TestFlags) -> (r: NotProbableCartridgeError)
        ensures
            r.passed == passed,
            r.required == required,
    {
        NotProbableCartridgeError { passed, required }
    }

    /// A human-readable description of the error.
    pub fn message(&self) -> (r: &'static str)
        ensures
            r@ == "The cartridge is probably invalid"@,
    {
        "The cartridge is probably invalid"
    }
}

impl From<NotProbableCartridgeError> for CartridgeError {
    fn from(e: NotProbableCartridgeError) -> (r: CartridgeError)
        ensures
            r == CartridgeError::NotProbableCartridge(e),
    {
        CartridgeError::NotProbableCartridge(e)
    }
}

impl vstd::std_specs::convert::FromSpecImpl<NotProbableCartridgeError> for CartridgeError {
    open spec fn obeys_from_spec() -> bool {
        true
    }

    open spec fn from_spec(v: NotProbableCartridgeError) -> CartridgeError {
        CartridgeError::NotProbableCartridge(v)
    }
}

} // verus!

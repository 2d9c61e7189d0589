//! FFI errors

use vstd::prelude::*;
use vstd::std_specs::convert::FromSpecImpl;

verus! {

/// What an entry point of the bridge reports to its native caller.
///
/// `Success` is the only value that is no error. `Panic` stands for a failure
/// inside an entry point whose cause is not known at the boundary.
#[derive(Debug, Clone, Copy, PartialEq, Eq, Hash, PartialOrd, Ord, Structural)]
pub enum CErr {
    Panic,
    Success,
    InvalidFile,
    /// Unexpected null pointer
    NullPointer,
    /// Internal SSL error
    SslError,
    /// I/O error
    IO,
}

impl CErr {
    /// The number that the native caller sees.
    pub open spec fn spec_code(self) -> i32 {
        match self {
            CErr::Panic => -1i32,
            CErr::Success => 0i32,
            CErr::InvalidFile => 1i32,
            CErr::NullPointer => 2i32,
            CErr::SslError => 3i32,
            CErr::IO => 4i32,
        }
    }

    /// The number that the native caller sees.
    #[verifier::when_used_as_spec(spec_code)]
    pub fn code(self) -> (code: i32)
        ensures
            code == self.spec_code(),
    {
        match self {
            CErr::Panic => -1,
            CErr::Success => 0,
            CErr::InvalidFile => 1,
            CErr::NullPointer => 2,
            CErr::SslError => 3,
            CErr::IO => 4,
        }
    }

    pub fn is_error(&self) -> (b: bool)
        ensures
            b == (*self != CErr::Success),
            b == (self.spec_code() != 0),
    {
        *self != Self::Success
    }

    pub fn is_success(&self) -> (b: bool)
        ensures
            b == (*self == CErr::Success),
            b == (self.spec_code() == 0),
    {
        *self == Self::Success
    }
}

impl Default for CErr {
    fn default() -> (e: CErr)
        ensures
            e == CErr::Success,
    {
        Self::Success
    }
}

impl From<CErr> for i32 {
    fn from(from: CErr) -> (code: i32) {
        from.code()
    }
}

impl FromSpecImpl<CErr> for i32 {
    open spec fn obeys_from_spec() -> bool {
        true
    }

    open spec fn from_spec(from: CErr) -> i32 {
        from.spec_code()
    }
}

} // verus!

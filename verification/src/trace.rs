//! Error and status codes for the host's debug tracing channel.

use vstd::prelude::*;

verus! {

/// Error and status codes reported through the host's trace call.
#[derive(Copy, Clone, PartialEq, Eq, Structural)]
pub enum Code {
    BadKeyIndex,
    BadModkeyDownR,
}

impl Code {
    /// The numeric value the host's trace channel expects.
    pub open spec fn spec_code(self) -> i32 {
        match self {
            Code::BadKeyIndex => -1i32,
            Code::BadModkeyDownR => -2i32,
        }
    }

    /// The numeric value the host's trace channel expects.
    pub fn code(self) -> (n: i32)
        ensures
            n == self.spec_code(),
    {
        match self {
            Code::BadKeyIndex => -1,
            Code::BadModkeyDownR => -2,
        }
    }
}

} // verus!

//! Borrowed addresses of structures that the media library owns.

use vstd::prelude::*;

verus! {

/// The address of a structure, or of a byte string, that the media library
/// owns.
///
/// A handle is borrowed: it is never followed, freed or changed here, and it
/// is good only as long as the structure it was read from. Address zero is
/// the null handle, which stands for "nothing there".
#[derive(Clone, Copy, Debug, PartialEq, Eq, Hash, Structural)]
pub struct Handle {
    pub addr: usize,
}

impl Handle {
    /// Whether this is the null handle.
    pub open spec fn spec_is_null(&self) -> bool {
        self.addr == 0
    }

    /// The null handle.
    pub fn null() -> (h: Handle)
        ensures
            h.addr == 0,
            h.is_null(),
    {
        Handle { addr: 0 }
    }

    /// Whether this is the null handle.
    #[verifier::when_used_as_spec(spec_is_null)]
    pub fn is_null(&self) -> (b: bool)
        ensures
            b == (self.addr == 0),
    {
        self.addr == 0
    }
}

} // verus!

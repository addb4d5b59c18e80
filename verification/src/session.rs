use vstd::prelude::*;

verus! {

/// A correlation/session identifier attached to a [`crate::Status`].
///
/// The identifier is the 128-bit value of the UUID that names the session;
/// producing a fresh random identifier is the caller's business, the library
/// only carries the value.
#[derive(Debug, Clone, Copy, PartialEq, Eq, Hash, Structural)]
pub struct SessionId(pub u128);

impl SessionId {
    /// Wraps a 128-bit identifier value.
    pub fn new(value: u128) -> (r: SessionId)
        ensures
            r.0 == value,
    {
        SessionId(value)
    }

    /// The 128-bit identifier value.
    pub fn value(&self) -> (r: u128)
        ensures
            r == self.0,
    {
        self.0
    }
}

} // verus!

//! Addresses of native objects.
use vstd::prelude::*;

verus! {

/// The address of a reference-counted native object, as the host holds it.
///
/// A handle is never inspected here, only carried: it says which object a
/// call is about. Address zero is the null handle, which stands for "no
/// object" wherever a call may answer that way.
#[derive(Clone, Copy, Debug, PartialEq, Eq, Structural)]
pub struct Handle {
    pub addr: usize,
}

impl Handle {
    pub open spec fn spec_is_null(&self) -> bool {
        self.addr == 0
    }

    /// The handle that names no object.
    pub fn null() -> (handle: Handle)
        ensures
            handle.addr == 0,
    {
        Handle { addr: 0 }
    }

    /// Takes an address as it came back from a call. Nothing is checked: that
    /// the object has the interface it is then used with is the caller's word.
    pub fn from_raw(addr: usize) -> (handle: Handle)
        ensures
            handle.addr == addr,
    {
        Handle { addr }
    }

    /// The address, for a call that takes the object as an argument.
    pub fn as_raw(&self) -> (addr: usize)
        ensures
            addr == self.addr,
    {
        self.addr
    }

    #[verifier::when_used_as_spec(spec_is_null)]
    pub fn is_null(&self) -> (null: bool)
        ensures
            null == self.spec_is_null(),
    {
        self.addr == 0
    }
}

} // verus!

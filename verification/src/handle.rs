use std::rc::Rc;

use vstd::prelude::*;
use vstd::std_specs::convert::FromSpecImpl;

verus! {

/// A Windows object handle, held as the address value it carries
/// (`0` is the null handle).
pub struct Handle {
    raw: isize,
}

impl Handle {
    pub closed spec fn spec_raw(&self) -> isize {
        self.raw
    }

    /// The null handle.
    pub fn new() -> (h: Handle)
        ensures
            h.spec_raw() == 0,
    {
        Handle { raw: 0 }
    }

    /// The handle with the address value `raw`.
    pub fn from_raw(raw: isize) -> (h: Handle)
        ensures
            h.spec_raw() == raw,
    {
        Handle { raw }
    }

    pub fn raw(&self) -> (r: isize)
        ensures
            r == self.spec_raw(),
    {
        self.raw
    }

    pub fn is_null(&self) -> (b: bool)
        ensures
            b == (self.spec_raw() == 0),
    {
        self.raw == 0
    }

    /// Whether the handle must be closed when its owner lets it go: every
    /// handle but the null one.
    pub fn needs_closing(&self) -> (b: bool)
        ensures
            b == (self.spec_raw() != 0),
    {
        self.raw != 0
    }
}

impl From<isize> for Handle {
    fn from(raw: isize) -> (h: Handle)
        ensures
            h.spec_raw() == raw,
    {
        Handle { raw }
    }
}

impl FromSpecImpl<isize> for Handle {
    open spec fn obeys_from_spec() -> bool {
        true
    }

    closed spec fn from_spec(raw: isize) -> Handle {
        Handle { raw }
    }
}

/// A handle shared by several owners.
pub struct SmartHandle(Rc<Handle>);

/// Another pointer to the handle that `rc` points to.
///
/// Calls `Rc::clone`, which (as its documentation says) makes another
/// pointer to the same allocation and only increases the reference count;
/// the contract claims that the new pointer gives the same handle.
#[verifier::external_body]
fn share(rc: &Rc<Handle>) -> (r: Rc<Handle>)
    ensures
        r == *rc,
{
    Rc::clone(rc)
}

impl Clone for SmartHandle {
    /// Another owner of the same handle.
    fn clone(&self) -> (s: SmartHandle)
        ensures
            s.spec_raw() == self.spec_raw(),
    {
        SmartHandle(share(&self.0))
    }
}

impl SmartHandle {
    pub closed spec fn spec_raw(&self) -> isize {
        self.0.spec_raw()
    }

    /// A shared null handle.
    pub fn new() -> (h: SmartHandle)
        ensures
            h.spec_raw() == 0,
    {
        SmartHandle(Rc::new(Handle::new()))
    }

    /// The address value of the shared handle.
    pub fn get_raw(&self) -> (r: isize)
        ensures
            r == self.spec_raw(),
    {
        self.0.raw()
    }
}

impl From<Handle> for SmartHandle {
    fn from(h: Handle) -> (s: SmartHandle)
        ensures
            s.spec_raw() == h.spec_raw(),
    {
        SmartHandle(Rc::new(h))
    }
}

impl FromSpecImpl<Handle> for SmartHandle {
    open spec fn obeys_from_spec() -> bool {
        true
    }

    closed spec fn from_spec(h: Handle) -> SmartHandle {
        SmartHandle(Rc::new(h))
    }
}

impl From<isize> for SmartHandle {
    fn from(raw: isize) -> (s: SmartHandle)
        ensures
            s.spec_raw() == raw,
    {
        SmartHandle(Rc::new(Handle { raw }))
    }
}

impl FromSpecImpl<isize> for SmartHandle {
    open spec fn obeys_from_spec() -> bool {
        true
    }

    closed spec fn from_spec(raw: isize) -> SmartHandle {
        SmartHandle(Rc::new(Handle { raw }))
    }
}

} // verus!

//! The handle model: every wrapper type of the catalog holds exactly one
//! opaque foreign-object reference, scoped by the lifetime of the execution
//! context that produced it.
//!
//! A handle owns nothing on the native side except the reference value; the
//! referenced foreign object's lifetime is managed entirely by the foreign
//! runtime. Construction wraps a raw reference without validating its runtime
//! class: trust is established by construction call-site discipline.

use vstd::prelude::*;
use jni::objects::JObject;

verus! {

/// A lifetime-scoped wrapper around one opaque foreign-object reference.
///
/// Law: the captured reference is exactly the one the handle was constructed
/// from, and `as_obj` hands exactly that reference back, so a reference
/// round-trips unchanged through any handle (each wrapper type's raw
/// constructor ensures `captured` is its argument, and `as_obj` ensures its
/// result is `captured`).
pub trait Handle<'a>: Sized {
    /// The one foreign-object reference this handle captures.
    spec fn captured(&self) -> JObject<'a>;

    /// Read-only access to the captured reference, for passing it as an
    /// argument to further foreign calls.
    fn as_obj(&self) -> (r: &JObject<'a>)
        ensures
            *r == self.captured(),
    ;
}

/// A borrowed handle is a handle over the same captured reference, so the
/// capability traits work uniformly on owned and borrowed wrappers.
impl<'a, T: Handle<'a>> Handle<'a> for &T {
    open spec fn captured(&self) -> JObject<'a> {
        (**self).captured()
    }

    fn as_obj(&self) -> (r: &JObject<'a>) {
        (**self).as_obj()
    }
}

} // verus!

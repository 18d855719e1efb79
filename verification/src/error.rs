use vstd::prelude::*;

verus! {

/// Any fault raised by the foreign-runtime dispatcher: a missing class, a
/// missing or signature-mismatched method or field, an exception thrown
/// during a foreign constructor or method, or a failure while marshaling an
/// argument. The core never recovers from such a fault locally, and never
/// swallows or downgrades one: it is propagated unchanged to the host, and
/// every operation whose only failure source is the dispatcher says so in
/// its contract — its error is always the `Runtime` kind.
#[derive(Debug)]
pub enum ForeignCallError {
    /// The foreign runtime binding reported a fault.
    Runtime(jni::errors::Error),
    /// A numeric text crossing the boundary was not in a readable decimal
    /// form, or did not fit the native decimal range.
    NumberFormat,
    /// A foreign call that was to produce an object returned the null
    /// reference instead; no handle is wrapped around it.
    NullObject,
}

impl ForeignCallError {
    /// Wraps a fault reported by the foreign runtime binding.
    pub fn from_runtime(err: jni::errors::Error) -> (r: ForeignCallError)
        ensures
            r == ForeignCallError::Runtime(err),
    {
        let ghost given = err;
        let r = ForeignCallError::Runtime(err);
        proof {
            assert(r == ForeignCallError::Runtime(given));
        }
        r
    }
}

impl From<jni::errors::Error> for ForeignCallError {
    fn from(err: jni::errors::Error) -> (r: ForeignCallError) {
        let ghost given = err;
        let r = ForeignCallError::Runtime(err);
        proof {
            assert(r == ForeignCallError::Runtime(given));
        }
        r
    }
}

impl vstd::std_specs::convert::FromSpecImpl<jni::errors::Error> for ForeignCallError {
    open spec fn obeys_from_spec() -> bool {
        true
    }

    #[verifier::inline]
    open spec fn from_spec(err: jni::errors::Error) -> ForeignCallError {
        ForeignCallError::Runtime(err)
    }
}

} // verus!

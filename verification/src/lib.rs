//! Native bindings to a foreign document-authoring runtime.
//!
//! Opaque references into the foreign runtime are wrapped as typed,
//! lifetime-scoped handles; shared method sets (positioning, borders,
//! alignment, sizing) are composed across the wrapper types as capability
//! traits; and native values are marshaled to and from the foreign call
//! surface under verified conventions.

pub mod barcode;
pub mod dec;
pub mod dispatch;
pub mod error;
pub mod handle;
pub mod io;
pub mod java;
pub mod javax;
pub mod kernel;
pub mod layout;
pub mod marshal;

use vstd::prelude::*;

verus! {

/// A buffer length that can cross the foreign boundary must fit in the
/// boundary's signed 32-bit array-length type.
pub open spec fn fits_foreign_len(n: nat) -> bool {
    n <= 0x7fff_ffff
}

} // verus!

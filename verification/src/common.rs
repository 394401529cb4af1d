//! Names shared by every module.

use vstd::prelude::*;

verus! {

/// An opaque name for a slot in the host's value table. It has no meaning on
/// the guest side beyond identity.
pub type Handle = u32;

/// The revision of the host protocol that this guest speaks.
pub fn emlite_target() -> (r: i32)
    ensures
        r == 1040,
{
    1040
}

} // verus!

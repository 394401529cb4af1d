//! The conversion protocol: how native values become host values and how host
//! values are read back.

use vstd::prelude::*;
use crate::common::Handle;
use crate::env::Env;
use crate::host::{Host, HostCall};
use crate::val::Val;

verus! {

/// A native value that can be handed to the host. The conversion always
/// succeeds and asks the host nothing about its state.
pub trait IntoVal: Sized {
    /// The calls that turn `self` into the host value behind `r`.
    spec fn conversion(self, r: Handle) -> Seq<HostCall>;

    /// Whether `r` can be the handle that `self` turns into.
    spec fn yields(self, r: Handle) -> bool;

    /// Hands `self` to the host and owns the reference that comes back.
    fn into_val<H: Host>(self, env: &mut Env<H>) -> (r: Val)
        ensures
            final(env).trace() == old(env).trace() + self.conversion(r@),
            self.yields(r@),
    ;
}

/// A native value that can be read out of a host value.
pub trait FromVal: Sized {
    /// What `from_val` does: the trace goes from `pre` to `post` while `r` is
    /// read out of the value behind `h`.
    spec fn from_val_spec(pre: Seq<HostCall>, post: Seq<HostCall>, h: Handle, r: Self) -> bool;

    /// What `take_ownership` does: the trace goes from `pre` to `post` while
    /// `r` is read out of the value behind `h`, whose reference is given up.
    spec fn take_ownership_spec(pre: Seq<HostCall>, post: Seq<HostCall>, h: Handle, r: Self) -> bool;

    /// The handle that stands for `self`.
    spec fn handle_of(&self) -> Handle;

    /// Reads a native value out of `v`, which stays with the caller.
    fn from_val<H: Host>(env: &mut Env<H>, v: &Val) -> (r: Self)
        ensures
            Self::from_val_spec(old(env).trace(), final(env).trace(), v@, r),
    ;

    /// Reads a native value out of the value behind `v`, taking over the
    /// caller's reference to it.
    fn take_ownership<H: Host>(env: &mut Env<H>, v: Handle) -> (r: Self)
        ensures
            Self::take_ownership_spec(old(env).trace(), final(env).trace(), v, r),
    ;

    /// The handle that stands for `self`.
    fn as_handle(&self) -> (h: Handle)
        ensures
            h == self.handle_of(),
    ;
}

/// A native error type that can be built from a host error value.
pub trait FromJsError: Sized {
    /// Builds the native error from `val`, on which the host's error test
    /// holds. Whatever is asked of the host on the way is added to the record
    /// of the calls; what was recorded before stays.
    fn from_js_error<H: Host>(env: &mut Env<H>, val: &Val) -> (r: Self)
        ensures
            old(env).trace().is_prefix_of(final(env).trace()),
    ;
}

} // verus!

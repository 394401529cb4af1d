//! Ordering of host values. The host's comparison is not total: two values may
//! be neither equal, nor greater, nor less.

use std::cmp::Ordering;
use vstd::prelude::*;
use crate::convert::FromVal;
use crate::env::{Env, emlite_val_gt, emlite_val_lt, emlite_val_strictly_equals};
use crate::host::{Host, HostCall, answered, call_at};
use crate::val::Val;

verus! {

/// The order that the host's three answers amount to: strict equality is
/// looked at first, then "greater", then "less"; with none of them the values
/// are unordered.
pub open spec fn order_of(equal: bool, greater: bool, less: bool) -> Option<Ordering> {
    if equal {
        Some(Ordering::Equal)
    } else if greater {
        Some(Ordering::Greater)
    } else if less {
        Some(Ordering::Less)
    } else {
        None
    }
}

/// The calls that compare `a` with `b`, given the host's answers. A question
/// is asked only while the ones before it were answered with no.
pub open spec fn comparison(a: u32, b: u32, equal: bool, greater: bool, less: bool) -> Seq<HostCall> {
    if equal {
        seq![HostCall::StrictlyEquals { a, b, ret: true }]
    } else if greater {
        seq![HostCall::StrictlyEquals { a, b, ret: false }, HostCall::Gt { a, b, ret: true }]
    } else {
        seq![
            HostCall::StrictlyEquals { a, b, ret: false },
            HostCall::Gt { a, b, ret: false },
            HostCall::Lt { a, b, ret: less },
        ]
    }
}

/// The order that the host's answers since `pre` amount to.
pub open spec fn order_since(pre: Seq<HostCall>, post: Seq<HostCall>) -> Option<Ordering> {
    order_of(
        answered(call_at(pre, post, 0)),
        answered(call_at(pre, post, 1)),
        answered(call_at(pre, post, 2)),
    )
}

/// Whether the calls since `pre` are one comparison of `a` with `b`.
pub open spec fn compared(pre: Seq<HostCall>, post: Seq<HostCall>, a: u32, b: u32) -> bool {
    post =~= pre + comparison(
        a,
        b,
        answered(call_at(pre, post, 0)),
        answered(call_at(pre, post, 1)),
        answered(call_at(pre, post, 2)),
    )
}

impl Val {
    /// Whether this value is less than `other`; false where they are
    /// unordered.
    pub fn lt<H: Host>(&self, env: &mut Env<H>, other: &Val) -> (r: bool)
        ensures
            compared(old(env).trace(), final(env).trace(), self@, other@),
            r == (order_since(old(env).trace(), final(env).trace()) == Some(Ordering::Less)),
    {
        match self.partial_cmp(env, other) {
            Some(Ordering::Less) => true,
            _ => false,
        }
    }

    /// Whether this value is less than or equal to `other`; false where they
    /// are unordered.
    pub fn le<H: Host>(&self, env: &mut Env<H>, other: &Val) -> (r: bool)
        ensures
            compared(old(env).trace(), final(env).trace(), self@, other@),
            r == (order_since(old(env).trace(), final(env).trace()) == Some(Ordering::Less)
                || order_since(old(env).trace(), final(env).trace()) == Some(Ordering::Equal)),
    {
        match self.partial_cmp(env, other) {
            Some(Ordering::Less) => true,
            Some(Ordering::Equal) => true,
            _ => false,
        }
    }

    /// Whether this value is greater than `other`; false where they are
    /// unordered.
    pub fn gt<H: Host>(&self, env: &mut Env<H>, other: &Val) -> (r: bool)
        ensures
            compared(old(env).trace(), final(env).trace(), self@, other@),
            r == (order_since(old(env).trace(), final(env).trace()) == Some(Ordering::Greater)),
    {
        match self.partial_cmp(env, other) {
            Some(Ordering::Greater) => true,
            _ => false,
        }
    }

    /// Whether this value is greater than or equal to `other`; false where
    /// they are unordered.
    pub fn ge<H: Host>(&self, env: &mut Env<H>, other: &Val) -> (r: bool)
        ensures
            compared(old(env).trace(), final(env).trace(), self@, other@),
            r == (order_since(old(env).trace(), final(env).trace()) == Some(Ordering::Greater)
                || order_since(old(env).trace(), final(env).trace()) == Some(Ordering::Equal)),
    {
        match self.partial_cmp(env, other) {
            Some(Ordering::Greater) => true,
            Some(Ordering::Equal) => true,
            _ => false,
        }
    }

    /// Compares this value with `other` as the host does: the values are
    /// equal where the host says they are strictly equal, else greater or less
    /// where the host says so, and unordered where it says neither.
    pub fn partial_cmp<H: Host>(&self, env: &mut Env<H>, other: &Val) -> (r: Option<Ordering>)
        ensures
            compared(old(env).trace(), final(env).trace(), self@, other@),
            r == order_since(old(env).trace(), final(env).trace()),
    {
        if emlite_val_strictly_equals(env, self.as_handle(), other.as_handle()) {
            Some(Ordering::Equal)
        } else if emlite_val_gt(env, self.as_handle(), other.as_handle()) {
            Some(Ordering::Greater)
        } else if emlite_val_lt(env, self.as_handle(), other.as_handle()) {
            Some(Ordering::Less)
        } else {
            None
        }
    }
}

} // verus!

//! Reference accounting: how many references the guest holds on a handle,
//! read off the record of its calls.

use vstd::prelude::*;
use crate::common::Handle;
use crate::host::HostCall;
use crate::predef::{global_this_handle, is_predefined};
use crate::val::{error_construction, global_lookup, instance_test};

verus! {

/// Whether the host hands out a reference to a value in answer to `c`.
pub open spec fn hands_out(c: HostCall) -> bool {
    match c {
        HostCall::NewArray { .. } => true,
        HostCall::NewObject { .. } => true,
        HostCall::MakeBool { .. } => true,
        HostCall::MakeInt { .. } => true,
        HostCall::MakeUint { .. } => true,
        HostCall::MakeBigint { .. } => true,
        HostCall::MakeBiguint { .. } => true,
        HostCall::MakeStr { .. } => true,
        HostCall::MakeStrUtf16 { .. } => true,
        HostCall::GetProp { .. } => true,
        HostCall::ObjCall { .. } => true,
        HostCall::ConstructNew { .. } => true,
        HostCall::FuncCall { .. } => true,
        HostCall::MakeCallback { .. } => true,
        _ => false,
    }
}

/// By how much the call `c` changes the number of references that the guest
/// holds on `h`. The predefined handles are not counted.
pub open spec fn delta(c: HostCall, h: Handle) -> int {
    if is_predefined(h) {
        0
    } else if hands_out(c) && crate::host::returned(c) == h {
        1
    } else if c == (HostCall::IncRef { h }) {
        1
    } else if c == (HostCall::DecRef { h }) {
        -1
    } else {
        0
    }
}

/// The number of references that the guest holds on `h` after the calls of
/// `trace`: one for each time the host handed `h` out and for each increment,
/// less one for each decrement.
pub open spec fn held(trace: Seq<HostCall>, h: Handle) -> int
    decreases trace.len(),
{
    if trace.len() == 0 {
        0
    } else {
        held(trace.drop_last(), h) + delta(trace.last(), h)
    }
}

/// One more call changes the count by the call's own share.
pub proof fn lemma_held_push(trace: Seq<HostCall>, c: HostCall, h: Handle)
    ensures
        held(trace.push(c), h) == held(trace, h) + delta(c, h),
{
    assert(trace.push(c).drop_last() =~= trace);
}

/// A clone of the value behind `v` followed by the end of that clone leaves
/// the count of every handle where it was: the first owner is not touched.
pub proof fn lemma_clone_then_drop(trace: Seq<HostCall>, v: Handle, h: Handle)
    ensures
        held(trace.push(HostCall::IncRef { h: v }).push(HostCall::DecRef { h: v }), h) == held(
            trace,
            h,
        ),
        held(trace.push(HostCall::IncRef { h: v }), v) == held(trace, v) + if is_predefined(v) {
            0int
        } else {
            1int
        },
{
    lemma_held_push(trace, HostCall::IncRef { h: v }, h);
    lemma_held_push(trace.push(HostCall::IncRef { h: v }), HostCall::DecRef { h: v }, h);
    lemma_held_push(trace, HostCall::IncRef { h: v }, v);
}

/// The count after two runs of calls is the sum of the counts of each.
pub proof fn lemma_held_concat(a: Seq<HostCall>, b: Seq<HostCall>, h: Handle)
    ensures
        held(a + b, h) == held(a, h) + held(b, h),
    decreases b.len(),
{
    if b.len() == 0 {
        assert(a + b =~= a);
    } else {
        lemma_held_concat(a, b.drop_last(), h);
        assert((a + b).drop_last() =~= a + b.drop_last());
    }
}

/// The one reference that the guest is left with.
pub open spec fn one_on(kept: Handle, h: Handle) -> int {
    if h == kept && !is_predefined(h) {
        1
    } else {
        0
    }
}

/// Looking a global up leaves the guest with the reference to what was found
/// and with nothing else: the name is given up again.
pub proof fn lemma_global_lookup_held(
    pre: Seq<HostCall>,
    name: Seq<char>,
    key: Handle,
    found: Handle,
    h: Handle,
)
    ensures
        held(global_lookup(name, key, found), h) == one_on(found, h),
        held(pre + global_lookup(name, key, found), h) == held(pre, h) + one_on(found, h),
{
    lemma_held_concat(pre, global_lookup(name, key, found), h);
    let t0 = Seq::<HostCall>::empty();
    let c1 = HostCall::MakeStr { value: name, ret: key };
    let c2 = HostCall::GetProp { obj: global_this_handle(), key, ret: found };
    let c3 = HostCall::DecRef { h: key };
    let c4 = HostCall::DecRef { h: global_this_handle() };
    lemma_held_push(t0, c1, h);
    lemma_held_push(t0.push(c1), c2, h);
    lemma_held_push(t0.push(c1).push(c2), c3, h);
    lemma_held_push(t0.push(c1).push(c2).push(c3), c4, h);
    assert(t0.push(c1).push(c2).push(c3).push(c4) =~= global_lookup(name, key, found));
}

/// Testing a value against a global constructor leaves the guest with no
/// reference that it did not have before.
pub proof fn lemma_instance_test_held(
    pre: Seq<HostCall>,
    v: Handle,
    name: Seq<char>,
    key: Handle,
    ctor: Handle,
    answer: bool,
    h: Handle,
)
    ensures
        held(pre + instance_test(v, name, key, ctor, answer), h) == held(pre, h),
{
    lemma_held_concat(pre, instance_test(v, name, key, ctor, answer), h);
    let lookup = global_lookup(name, key, ctor);
    let c1 = HostCall::Instanceof { a: v, b: ctor, ret: answer };
    let c2 = HostCall::DecRef { h: ctor };
    lemma_global_lookup_held(pre, name, key, ctor, h);
    lemma_held_push(lookup, c1, h);
    lemma_held_push(lookup.push(c1), c2, h);
    assert(lookup.push(c1).push(c2) =~= instance_test(v, name, key, ctor, answer));
}

/// Building a host error leaves the guest with the reference to the error and
/// with nothing else: constructor, message and argument array are given up.
pub proof fn lemma_error_construction_held(
    pre: Seq<HostCall>,
    message: Seq<char>,
    key: Handle,
    ctor: Handle,
    text: Handle,
    argv: Handle,
    made: Handle,
    h: Handle,
)
    ensures
        held(pre + error_construction(message, key, ctor, text, argv, made), h) == held(pre, h)
            + one_on(made, h),
{
    lemma_held_concat(pre, error_construction(message, key, ctor, text, argv, made), h);
    let lookup = global_lookup("Error"@, key, ctor);
    let c1 = HostCall::MakeStr { value: message, ret: text };
    let c2 = HostCall::NewArray { ret: argv };
    let c3 = HostCall::Push { arr: argv, v: text };
    let c4 = HostCall::ConstructNew { ctor, argv, ret: made };
    let c5 = HostCall::DecRef { h: argv };
    let c6 = HostCall::DecRef { h: text };
    let c7 = HostCall::DecRef { h: ctor };
    lemma_global_lookup_held(pre, "Error"@, key, ctor, h);
    lemma_held_push(lookup, c1, h);
    lemma_held_push(lookup.push(c1), c2, h);
    lemma_held_push(lookup.push(c1).push(c2), c3, h);
    lemma_held_push(lookup.push(c1).push(c2).push(c3), c4, h);
    lemma_held_push(lookup.push(c1).push(c2).push(c3).push(c4), c5, h);
    lemma_held_push(lookup.push(c1).push(c2).push(c3).push(c4).push(c5), c6, h);
    lemma_held_push(lookup.push(c1).push(c2).push(c3).push(c4).push(c5).push(c6), c7, h);
    assert(lookup.push(c1).push(c2).push(c3).push(c4).push(c5).push(c6).push(c7)
        =~= error_construction(message, key, ctor, text, argv, made));
}

} // verus!

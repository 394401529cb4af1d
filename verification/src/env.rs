//! The guest's side of the host boundary. Every call into the host goes through
//! an [`Env`], which keeps a ghost record of the exchange, so that the contracts
//! of the library can say exactly what was asked of the host and in which order.

use vstd::prelude::*;
use vstd::string::StringExecFns;
use crate::common::Handle;
use crate::host::{Host, HostCall, text_of, units_of};

verus! {

/// A host together with the ghost record of every call made to it.
pub struct Env<H: Host> {
    host: H,
    trace: Ghost<Seq<HostCall>>,
}

impl<H: Host> Env<H> {
    /// The calls made so far, oldest first.
    pub closed spec fn trace(&self) -> Seq<HostCall> {
        self.trace@
    }

    /// The host as it stands. A call into the host may change it in any way.
    pub closed spec fn host_state(&self) -> H {
        self.host
    }

    /// Wraps a host; nothing has been said to it yet.
    pub fn new(host: H) -> (env: Self)
        ensures
            env.trace() == Seq::<HostCall>::empty(),
            env.host_state() == host,
    {
        Env { host, trace: Ghost(Seq::empty()) }
    }

    /// The host, for reading what it holds.
    pub fn host(&self) -> (h: &H)
        ensures
            *h == self.host_state(),
    {
        &self.host
    }

    /// Gives the host back.
    pub fn into_host(self) -> (h: H)
        ensures
            h == self.host_state(),
    {
        self.host
    }
}

/// Resets the host value table to the predefined handles.
pub fn emlite_init_handle_table<H: Host>(env: &mut Env<H>)
    ensures
        final(env).trace() == old(env).trace().push(HostCall::InitHandleTable),
{
    env.host.init_handle_table();
    proof {
        env.trace@ = env.trace@.push(HostCall::InitHandleTable);
    }
}

/// Creates an empty host array.
pub fn emlite_val_new_array<H: Host>(env: &mut Env<H>) -> (r: Handle)
    ensures
        final(env).trace() == old(env).trace().push(HostCall::NewArray { ret: r }),
{
    let r = env.host.val_new_array();
    proof {
        env.trace@ = env.trace@.push(HostCall::NewArray { ret: r });
    }
    r
}

/// Creates an empty host object.
pub fn emlite_val_new_object<H: Host>(env: &mut Env<H>) -> (r: Handle)
    ensures
        final(env).trace() == old(env).trace().push(HostCall::NewObject { ret: r }),
{
    let r = env.host.val_new_object();
    proof {
        env.trace@ = env.trace@.push(HostCall::NewObject { ret: r });
    }
    r
}

/// Creates a host boolean.
pub fn emlite_val_make_bool<H: Host>(env: &mut Env<H>, value: bool) -> (r: Handle)
    ensures
        final(env).trace() == old(env).trace().push(HostCall::MakeBool { value, ret: r }),
{
    let r = env.host.val_make_bool(value);
    proof {
        env.trace@ = env.trace@.push(HostCall::MakeBool { value, ret: r });
    }
    r
}

/// Creates a host number from a signed 32-bit integer.
pub fn emlite_val_make_int<H: Host>(env: &mut Env<H>, value: i32) -> (r: Handle)
    ensures
        final(env).trace() == old(env).trace().push(HostCall::MakeInt { value, ret: r }),
{
    let r = env.host.val_make_int(value);
    proof {
        env.trace@ = env.trace@.push(HostCall::MakeInt { value, ret: r });
    }
    r
}

/// Creates a host number from an unsigned 32-bit integer.
pub fn emlite_val_make_uint<H: Host>(env: &mut Env<H>, value: u32) -> (r: Handle)
    ensures
        final(env).trace() == old(env).trace().push(HostCall::MakeUint { value, ret: r }),
{
    let r = env.host.val_make_uint(value);
    proof {
        env.trace@ = env.trace@.push(HostCall::MakeUint { value, ret: r });
    }
    r
}

/// Creates a host big integer from a signed 64-bit integer.
pub fn emlite_val_make_bigint<H: Host>(env: &mut Env<H>, value: i64) -> (r: Handle)
    ensures
        final(env).trace() == old(env).trace().push(HostCall::MakeBigint { value, ret: r }),
{
    let r = env.host.val_make_bigint(value);
    proof {
        env.trace@ = env.trace@.push(HostCall::MakeBigint { value, ret: r });
    }
    r
}

/// Creates a host big integer from an unsigned 64-bit integer.
pub fn emlite_val_make_biguint<H: Host>(env: &mut Env<H>, value: u64) -> (r: Handle)
    ensures
        final(env).trace() == old(env).trace().push(HostCall::MakeBiguint { value, ret: r }),
{
    let r = env.host.val_make_biguint(value);
    proof {
        env.trace@ = env.trace@.push(HostCall::MakeBiguint { value, ret: r });
    }
    r
}

/// Creates a host string from text.
pub fn emlite_val_make_str<H: Host>(env: &mut Env<H>, value: &str) -> (r: Handle)
    ensures
        final(env).trace() == old(env).trace().push(HostCall::MakeStr { value: value@, ret: r }),
{
    let r = env.host.val_make_str(value);
    proof {
        env.trace@ = env.trace@.push(HostCall::MakeStr { value: value@, ret: r });
    }
    r
}

/// Creates a host string from UTF-16 code units.
pub fn emlite_val_make_str_utf16<H: Host>(env: &mut Env<H>, value: &[u16]) -> (r: Handle)
    ensures
        final(env).trace() == old(env).trace().push(HostCall::MakeStrUtf16 { value: value@, ret: r }),
{
    let r = env.host.val_make_str_utf16(value);
    proof {
        env.trace@ = env.trace@.push(HostCall::MakeStrUtf16 { value: value@, ret: r });
    }
    r
}

/// Reads a host value as a boolean.
pub fn emlite_val_get_value_bool<H: Host>(env: &mut Env<H>, h: Handle) -> (r: bool)
    ensures
        final(env).trace() == old(env).trace().push(HostCall::GetValueBool { h, ret: r }),
{
    let r = env.host.val_get_value_bool(h);
    proof {
        env.trace@ = env.trace@.push(HostCall::GetValueBool { h, ret: r });
    }
    r
}

/// Reads a host value as a signed 32-bit integer.
pub fn emlite_val_get_value_int<H: Host>(env: &mut Env<H>, h: Handle) -> (r: i32)
    ensures
        final(env).trace() == old(env).trace().push(HostCall::GetValueInt { h, ret: r }),
{
    let r = env.host.val_get_value_int(h);
    proof {
        env.trace@ = env.trace@.push(HostCall::GetValueInt { h, ret: r });
    }
    r
}

/// Reads a host value as an unsigned 32-bit integer.
pub fn emlite_val_get_value_uint<H: Host>(env: &mut Env<H>, h: Handle) -> (r: u32)
    ensures
        final(env).trace() == old(env).trace().push(HostCall::GetValueUint { h, ret: r }),
{
    let r = env.host.val_get_value_uint(h);
    proof {
        env.trace@ = env.trace@.push(HostCall::GetValueUint { h, ret: r });
    }
    r
}

/// Reads a host value as a signed 64-bit integer.
pub fn emlite_val_get_value_bigint<H: Host>(env: &mut Env<H>, h: Handle) -> (r: i64)
    ensures
        final(env).trace() == old(env).trace().push(HostCall::GetValueBigint { h, ret: r }),
{
    let r = env.host.val_get_value_bigint(h);
    proof {
        env.trace@ = env.trace@.push(HostCall::GetValueBigint { h, ret: r });
    }
    r
}

/// Reads a host value as an unsigned 64-bit integer.
pub fn emlite_val_get_value_biguint<H: Host>(env: &mut Env<H>, h: Handle) -> (r: u64)
    ensures
        final(env).trace() == old(env).trace().push(HostCall::GetValueBiguint { h, ret: r }),
{
    let r = env.host.val_get_value_biguint(h);
    proof {
        env.trace@ = env.trace@.push(HostCall::GetValueBiguint { h, ret: r });
    }
    r
}

/// Reads a host value as text; `None` stands for a null string pointer.
pub fn emlite_val_get_value_string<H: Host>(env: &mut Env<H>, h: Handle) -> (r: Option<String>)
    ensures
        final(env).trace() == old(env).trace().push(HostCall::GetValueString { h, ret: text_of(&r) }),
{
    let r = env.host.val_get_value_string(h);
    proof {
        env.trace@ = env.trace@.push(HostCall::GetValueString { h, ret: text_of(&r) });
    }
    r
}

/// Reads a host value as UTF-16 code units; `None` stands for a null string pointer.
pub fn emlite_val_get_value_string_utf16<H: Host>(env: &mut Env<H>, h: Handle) -> (r: Option<Vec<u16>>)
    ensures
        final(env).trace() == old(env).trace().push(HostCall::GetValueStringUtf16 { h, ret: units_of(&r) }),
{
    let r = env.host.val_get_value_string_utf16(h);
    proof {
        env.trace@ = env.trace@.push(HostCall::GetValueStringUtf16 { h, ret: units_of(&r) });
    }
    r
}

/// Names the host type of a value; `None` stands for a null string pointer.
pub fn emlite_val_typeof<H: Host>(env: &mut Env<H>, h: Handle) -> (r: Option<String>)
    ensures
        final(env).trace() == old(env).trace().push(HostCall::Typeof { h, ret: text_of(&r) }),
{
    let r = env.host.val_typeof(h);
    proof {
        env.trace@ = env.trace@.push(HostCall::Typeof { h, ret: text_of(&r) });
    }
    r
}

/// Appends a value to a host array.
pub fn emlite_val_push<H: Host>(env: &mut Env<H>, arr: Handle, v: Handle)
    ensures
        final(env).trace() == old(env).trace().push(HostCall::Push { arr, v }),
{
    env.host.val_push(arr, v);
    proof {
        env.trace@ = env.trace@.push(HostCall::Push { arr, v });
    }
}

/// Reads a property or an element.
pub fn emlite_val_get<H: Host>(env: &mut Env<H>, obj: Handle, key: Handle) -> (r: Handle)
    ensures
        final(env).trace() == old(env).trace().push(HostCall::GetProp { obj, key, ret: r }),
{
    let r = env.host.val_get(obj, key);
    proof {
        env.trace@ = env.trace@.push(HostCall::GetProp { obj, key, ret: r });
    }
    r
}

/// Writes a property or an element.
pub fn emlite_val_set<H: Host>(env: &mut Env<H>, obj: Handle, key: Handle, v: Handle)
    ensures
        final(env).trace() == old(env).trace().push(HostCall::SetProp { obj, key, v }),
{
    env.host.val_set(obj, key, v);
    proof {
        env.trace@ = env.trace@.push(HostCall::SetProp { obj, key, v });
    }
}

/// Tests whether a property exists.
pub fn emlite_val_has<H: Host>(env: &mut Env<H>, obj: Handle, key: Handle) -> (r: bool)
    ensures
        final(env).trace() == old(env).trace().push(HostCall::HasProp { obj, key, ret: r }),
{
    let r = env.host.val_has(obj, key);
    proof {
        env.trace@ = env.trace@.push(HostCall::HasProp { obj, key, ret: r });
    }
    r
}

/// Applies the host logical negation.
pub fn emlite_val_not<H: Host>(env: &mut Env<H>, h: Handle) -> (r: bool)
    ensures
        final(env).trace() == old(env).trace().push(HostCall::Not { h, ret: r }),
{
    let r = env.host.val_not(h);
    proof {
        env.trace@ = env.trace@.push(HostCall::Not { h, ret: r });
    }
    r
}

/// Tests whether a value is a host string.
pub fn emlite_val_is_string<H: Host>(env: &mut Env<H>, h: Handle) -> (r: bool)
    ensures
        final(env).trace() == old(env).trace().push(HostCall::IsString { h, ret: r }),
{
    let r = env.host.val_is_string(h);
    proof {
        env.trace@ = env.trace@.push(HostCall::IsString { h, ret: r });
    }
    r
}

/// Tests whether a value is a host number.
pub fn emlite_val_is_number<H: Host>(env: &mut Env<H>, h: Handle) -> (r: bool)
    ensures
        final(env).trace() == old(env).trace().push(HostCall::IsNumber { h, ret: r }),
{
    let r = env.host.val_is_number(h);
    proof {
        env.trace@ = env.trace@.push(HostCall::IsNumber { h, ret: r });
    }
    r
}

/// Tests whether a value is a host boolean.
pub fn emlite_val_is_bool<H: Host>(env: &mut Env<H>, h: Handle) -> (r: bool)
    ensures
        final(env).trace() == old(env).trace().push(HostCall::IsBool { h, ret: r }),
{
    let r = env.host.val_is_bool(h);
    proof {
        env.trace@ = env.trace@.push(HostCall::IsBool { h, ret: r });
    }
    r
}

/// Host comparison `a > b`.
pub fn emlite_val_gt<H: Host>(env: &mut Env<H>, a: Handle, b: Handle) -> (r: bool)
    ensures
        final(env).trace() == old(env).trace().push(HostCall::Gt { a, b, ret: r }),
{
    let r = env.host.val_gt(a, b);
    proof {
        env.trace@ = env.trace@.push(HostCall::Gt { a, b, ret: r });
    }
    r
}

/// Host comparison `a >= b`.
pub fn emlite_val_gte<H: Host>(env: &mut Env<H>, a: Handle, b: Handle) -> (r: bool)
    ensures
        final(env).trace() == old(env).trace().push(HostCall::Gte { a, b, ret: r }),
{
    let r = env.host.val_gte(a, b);
    proof {
        env.trace@ = env.trace@.push(HostCall::Gte { a, b, ret: r });
    }
    r
}

/// Host comparison `a < b`.
pub fn emlite_val_lt<H: Host>(env: &mut Env<H>, a: Handle, b: Handle) -> (r: bool)
    ensures
        final(env).trace() == old(env).trace().push(HostCall::Lt { a, b, ret: r }),
{
    let r = env.host.val_lt(a, b);
    proof {
        env.trace@ = env.trace@.push(HostCall::Lt { a, b, ret: r });
    }
    r
}

/// Host comparison `a <= b`.
pub fn emlite_val_lte<H: Host>(env: &mut Env<H>, a: Handle, b: Handle) -> (r: bool)
    ensures
        final(env).trace() == old(env).trace().push(HostCall::Lte { a, b, ret: r }),
{
    let r = env.host.val_lte(a, b);
    proof {
        env.trace@ = env.trace@.push(HostCall::Lte { a, b, ret: r });
    }
    r
}

/// Host loose equality.
pub fn emlite_val_equals<H: Host>(env: &mut Env<H>, a: Handle, b: Handle) -> (r: bool)
    ensures
        final(env).trace() == old(env).trace().push(HostCall::Equals { a, b, ret: r }),
{
    let r = env.host.val_equals(a, b);
    proof {
        env.trace@ = env.trace@.push(HostCall::Equals { a, b, ret: r });
    }
    r
}

/// Host strict equality.
pub fn emlite_val_strictly_equals<H: Host>(env: &mut Env<H>, a: Handle, b: Handle) -> (r: bool)
    ensures
        final(env).trace() == old(env).trace().push(HostCall::StrictlyEquals { a, b, ret: r }),
{
    let r = env.host.val_strictly_equals(a, b);
    proof {
        env.trace@ = env.trace@.push(HostCall::StrictlyEquals { a, b, ret: r });
    }
    r
}

/// Tests whether `a` is an instance of the constructor `b`.
pub fn emlite_val_instanceof<H: Host>(env: &mut Env<H>, a: Handle, b: Handle) -> (r: bool)
    ensures
        final(env).trace() == old(env).trace().push(HostCall::Instanceof { a, b, ret: r }),
{
    let r = env.host.val_instanceof(a, b);
    proof {
        env.trace@ = env.trace@.push(HostCall::Instanceof { a, b, ret: r });
    }
    r
}

/// Calls a method of an object with an argument array.
pub fn emlite_val_obj_call<H: Host>(env: &mut Env<H>, obj: Handle, method: &str, argv: Handle) -> (r: Handle)
    ensures
        final(env).trace() == old(env).trace().push(HostCall::ObjCall { obj, method: method@, argv, ret: r }),
{
    let r = env.host.val_obj_call(obj, method, argv);
    proof {
        env.trace@ = env.trace@.push(HostCall::ObjCall { obj, method: method@, argv, ret: r });
    }
    r
}

/// Tests whether an object has a property of its own.
pub fn emlite_val_obj_has_own_prop<H: Host>(env: &mut Env<H>, obj: Handle, prop: &str) -> (r: bool)
    ensures
        final(env).trace() == old(env).trace().push(HostCall::ObjHasOwnProp { obj, prop: prop@, ret: r }),
{
    let r = env.host.val_obj_has_own_prop(obj, prop);
    proof {
        env.trace@ = env.trace@.push(HostCall::ObjHasOwnProp { obj, prop: prop@, ret: r });
    }
    r
}

/// Calls a constructor with an argument array.
pub fn emlite_val_construct_new<H: Host>(env: &mut Env<H>, ctor: Handle, argv: Handle) -> (r: Handle)
    ensures
        final(env).trace() == old(env).trace().push(HostCall::ConstructNew { ctor, argv, ret: r }),
{
    let r = env.host.val_construct_new(ctor, argv);
    proof {
        env.trace@ = env.trace@.push(HostCall::ConstructNew { ctor, argv, ret: r });
    }
    r
}

/// Calls a function value with an argument array.
pub fn emlite_val_func_call<H: Host>(env: &mut Env<H>, func: Handle, argv: Handle) -> (r: Handle)
    ensures
        final(env).trace() == old(env).trace().push(HostCall::FuncCall { func, argv, ret: r }),
{
    let r = env.host.val_func_call(func, argv);
    proof {
        env.trace@ = env.trace@.push(HostCall::FuncCall { func, argv, ret: r });
    }
    r
}

/// Adds one reference to a handle.
pub fn emlite_val_inc_ref<H: Host>(env: &mut Env<H>, h: Handle)
    ensures
        final(env).trace() == old(env).trace().push(HostCall::IncRef { h }),
{
    env.host.val_inc_ref(h);
    proof {
        env.trace@ = env.trace@.push(HostCall::IncRef { h });
    }
}

/// Drops one reference from a handle.
pub fn emlite_val_dec_ref<H: Host>(env: &mut Env<H>, h: Handle)
    ensures
        final(env).trace() == old(env).trace().push(HostCall::DecRef { h }),
{
    env.host.val_dec_ref(h);
    proof {
        env.trace@ = env.trace@.push(HostCall::DecRef { h });
    }
}

/// Raises a value as a host exception.
pub fn emlite_val_throw<H: Host>(env: &mut Env<H>, h: Handle)
    ensures
        final(env).trace() == old(env).trace().push(HostCall::Throw { h }),
{
    env.host.val_throw(h);
    proof {
        env.trace@ = env.trace@.push(HostCall::Throw { h });
    }
}

/// Prints the host value table.
pub fn emlite_print_object_map<H: Host>(env: &mut Env<H>)
    ensures
        final(env).trace() == old(env).trace().push(HostCall::PrintObjectMap),
{
    env.host.print_object_map();
    proof {
        env.trace@ = env.trace@.push(HostCall::PrintObjectMap);
    }
}

/// Clears the host value table.
pub fn emlite_reset_object_map<H: Host>(env: &mut Env<H>)
    ensures
        final(env).trace() == old(env).trace().push(HostCall::ResetObjectMap),
{
    env.host.reset_object_map();
    proof {
        env.trace@ = env.trace@.push(HostCall::ResetObjectMap);
    }
}

/// Creates a host function that calls back into the guest.
pub fn emlite_val_make_callback<H: Host>(env: &mut Env<H>, fidx: Handle, data: Handle) -> (r: Handle)
    ensures
        final(env).trace() == old(env).trace().push(HostCall::MakeCallback { fidx, data, ret: r }),
{
    let r = env.host.val_make_callback(fidx, data);
    proof {
        env.trace@ = env.trace@.push(HostCall::MakeCallback { fidx, data, ret: r });
    }
    r
}

/// Sets up the host value table. To be called once, before anything else.
pub fn init<H: Host>(env: &mut Env<H>)
    ensures
        final(env).trace() == old(env).trace().push(HostCall::InitHandleTable),
{
    emlite_init_handle_table(env);
}

/// Creates a host string from text.
pub fn emlite_val_make_str_unified<H: Host>(env: &mut Env<H>, s: &str) -> (r: Handle)
    ensures
        final(env).trace() == old(env).trace().push(HostCall::MakeStr { value: s@, ret: r }),
{
    emlite_val_make_str(env, s)
}

/// Creates a host string from UTF-16 code units.
pub fn emlite_val_make_str_utf16_unified<H: Host>(env: &mut Env<H>, s: &[u16]) -> (r: Handle)
    ensures
        final(env).trace() == old(env).trace().push(HostCall::MakeStrUtf16 { value: s@, ret: r }),
{
    emlite_val_make_str_utf16(env, s)
}

/// Calls a method of an object with an argument array.
pub fn emlite_val_obj_call_unified<H: Host>(env: &mut Env<H>, obj: Handle, method: &str, argv: Handle) -> (r: Handle)
    ensures
        final(env).trace() == old(env).trace().push(
            HostCall::ObjCall { obj, method: method@, argv, ret: r },
        ),
{
    emlite_val_obj_call(env, obj, method, argv)
}

/// Tests whether an object has a property of its own.
pub fn emlite_val_obj_has_own_prop_unified<H: Host>(env: &mut Env<H>, obj: Handle, prop: &str) -> (r: bool)
    ensures
        final(env).trace() == old(env).trace().push(
            HostCall::ObjHasOwnProp { obj, prop: prop@, ret: r },
        ),
{
    emlite_val_obj_has_own_prop(env, obj, prop)
}

/// The text that names the host type of a value when the host has no name for
/// it.
pub open spec fn typeof_or_undefined(name: Option<Seq<char>>) -> Seq<char> {
    match name {
        Some(t) => t,
        None => "undefined"@,
    }
}

/// Names the host type of a value; a null name reads as `"undefined"`.
pub fn emlite_val_typeof_unified<H: Host>(env: &mut Env<H>, h: Handle) -> (r: String)
    ensures
        final(env).trace().len() == old(env).trace().len() + 1,
        final(env).trace().drop_last() == old(env).trace(),
        final(env).trace().last() matches HostCall::Typeof { h: asked, ret }
            && asked == h && r@ == typeof_or_undefined(ret),
{
    match emlite_val_typeof(env, h) {
        Some(name) => name,
        None => String::from_str("undefined"),
    }
}

/// Reads a host value as text; a null string pointer reads as `None`.
pub fn emlite_val_get_value_string_unified<H: Host>(env: &mut Env<H>, h: Handle) -> (r: Option<String>)
    ensures
        final(env).trace() == old(env).trace().push(
            HostCall::GetValueString { h, ret: text_of(&r) },
        ),
{
    emlite_val_get_value_string(env, h)
}

/// Reads a host value as UTF-16 code units; a null string pointer reads as
/// `None`.
pub fn emlite_val_get_value_string_utf16_unified<H: Host>(env: &mut Env<H>, h: Handle) -> (r: Option<Vec<u16>>)
    ensures
        final(env).trace() == old(env).trace().push(
            HostCall::GetValueStringUtf16 { h, ret: units_of(&r) },
        ),
{
    emlite_val_get_value_string_utf16(env, h)
}

/// Applies the host logical negation.
pub fn emlite_val_not_unified<H: Host>(env: &mut Env<H>, h: Handle) -> (r: bool)
    ensures
        final(env).trace() == old(env).trace().push(HostCall::Not { h, ret: r }),
{
    emlite_val_not(env, h)
}

} // verus!

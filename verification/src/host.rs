//! The host boundary: the entry points that the host offers, and the record of
//! what the guest has said to it.

use vstd::prelude::*;
use crate::common::Handle;

verus! {

/// One exchange with the host: the entry point, the arguments that the guest
/// passed, and what the host answered.
#[allow(inconsistent_fields)]
pub enum HostCall {
    InitHandleTable,
    NewArray { ret: Handle },
    NewObject { ret: Handle },
    MakeBool { value: bool, ret: Handle },
    MakeInt { value: i32, ret: Handle },
    MakeUint { value: u32, ret: Handle },
    MakeBigint { value: i64, ret: Handle },
    MakeBiguint { value: u64, ret: Handle },
    MakeStr { value: Seq<char>, ret: Handle },
    MakeStrUtf16 { value: Seq<u16>, ret: Handle },
    GetValueBool { h: Handle, ret: bool },
    GetValueInt { h: Handle, ret: i32 },
    GetValueUint { h: Handle, ret: u32 },
    GetValueBigint { h: Handle, ret: i64 },
    GetValueBiguint { h: Handle, ret: u64 },
    GetValueString { h: Handle, ret: Option<Seq<char>> },
    GetValueStringUtf16 { h: Handle, ret: Option<Seq<u16>> },
    Typeof { h: Handle, ret: Option<Seq<char>> },
    Push { arr: Handle, v: Handle },
    GetProp { obj: Handle, key: Handle, ret: Handle },
    SetProp { obj: Handle, key: Handle, v: Handle },
    HasProp { obj: Handle, key: Handle, ret: bool },
    Not { h: Handle, ret: bool },
    IsString { h: Handle, ret: bool },
    IsNumber { h: Handle, ret: bool },
    IsBool { h: Handle, ret: bool },
    Gt { a: Handle, b: Handle, ret: bool },
    Gte { a: Handle, b: Handle, ret: bool },
    Lt { a: Handle, b: Handle, ret: bool },
    Lte { a: Handle, b: Handle, ret: bool },
    Equals { a: Handle, b: Handle, ret: bool },
    StrictlyEquals { a: Handle, b: Handle, ret: bool },
    Instanceof { a: Handle, b: Handle, ret: bool },
    ObjCall { obj: Handle, method: Seq<char>, argv: Handle, ret: Handle },
    ObjHasOwnProp { obj: Handle, prop: Seq<char>, ret: bool },
    ConstructNew { ctor: Handle, argv: Handle, ret: Handle },
    FuncCall { func: Handle, argv: Handle, ret: Handle },
    IncRef { h: Handle },
    DecRef { h: Handle },
    Throw { h: Handle },
    PrintObjectMap,
    ResetObjectMap,
    MakeCallback { fidx: Handle, data: Handle, ret: Handle },
}

/// The handle that the host handed back in `c`, for the entry points that
/// answer with a handle.
pub open spec fn returned(c: HostCall) -> Handle {
    match c {
        HostCall::NewArray { ret, .. } => ret,
        HostCall::NewObject { ret, .. } => ret,
        HostCall::MakeBool { ret, .. } => ret,
        HostCall::MakeInt { ret, .. } => ret,
        HostCall::MakeUint { ret, .. } => ret,
        HostCall::MakeBigint { ret, .. } => ret,
        HostCall::MakeBiguint { ret, .. } => ret,
        HostCall::MakeStr { ret, .. } => ret,
        HostCall::MakeStrUtf16 { ret, .. } => ret,
        HostCall::GetProp { ret, .. } => ret,
        HostCall::ObjCall { ret, .. } => ret,
        HostCall::ConstructNew { ret, .. } => ret,
        HostCall::FuncCall { ret, .. } => ret,
        HostCall::MakeCallback { ret, .. } => ret,
        _ => 0,
    }
}

/// The truth value that the host answered in `c`, for the entry points that
/// answer with one.
pub open spec fn answered(c: HostCall) -> bool {
    match c {
        HostCall::GetValueBool { ret, .. } => ret,
        HostCall::HasProp { ret, .. } => ret,
        HostCall::Not { ret, .. } => ret,
        HostCall::IsString { ret, .. } => ret,
        HostCall::IsNumber { ret, .. } => ret,
        HostCall::IsBool { ret, .. } => ret,
        HostCall::Gt { ret, .. } => ret,
        HostCall::Gte { ret, .. } => ret,
        HostCall::Lt { ret, .. } => ret,
        HostCall::Lte { ret, .. } => ret,
        HostCall::Equals { ret, .. } => ret,
        HostCall::StrictlyEquals { ret, .. } => ret,
        HostCall::Instanceof { ret, .. } => ret,
        HostCall::ObjHasOwnProp { ret, .. } => ret,
        _ => false,
    }
}

/// The handle that `c` gives up a reference to, where `c` is such a call.
pub open spec fn released(c: HostCall) -> Handle {
    match c {
        HostCall::DecRef { h } => h,
        _ => 0,
    }
}

/// The number that the guest handed over in `c`, where `c` makes a host number.
pub open spec fn number_made(c: HostCall) -> int {
    match c {
        HostCall::MakeInt { value, .. } => value as int,
        HostCall::MakeUint { value, .. } => value as int,
        HostCall::MakeBigint { value, .. } => value as int,
        HostCall::MakeBiguint { value, .. } => value as int,
        _ => 0,
    }
}

/// The number that the host answered in `c`, where `c` reads a host number.
pub open spec fn number_read(c: HostCall) -> int {
    match c {
        HostCall::GetValueInt { ret, .. } => ret as int,
        HostCall::GetValueUint { ret, .. } => ret as int,
        HostCall::GetValueBigint { ret, .. } => ret as int,
        HostCall::GetValueBiguint { ret, .. } => ret as int,
        _ => 0,
    }
}

/// Whether `post` is `pre` with exactly one more call.
pub open spec fn extended_by_one(pre: Seq<HostCall>, post: Seq<HostCall>) -> bool {
    post.len() > 0 && post =~= pre.push(post.last())
}

/// The call that stands `k` places after the end of `pre` in `post`.
pub open spec fn call_at(pre: Seq<HostCall>, post: Seq<HostCall>, k: int) -> HostCall {
    post[pre.len() + k]
}

/// The text inside an optional string.
pub open spec fn text_of(s: &Option<String>) -> Option<Seq<char>> {
    match s {
        Some(t) => Some(t@),
        None => None,
    }
}

/// The code units inside an optional UTF-16 buffer.
pub open spec fn units_of(s: &Option<Vec<u16>>) -> Option<Seq<u16>> {
    match s {
        Some(t) => Some(t@),
        None => None,
    }
}

/// The entry points of the host value store. The guest never looks inside a
/// handle; it only passes handles back through these calls. Nothing is assumed
/// of what an implementation answers.
pub trait Host {
    /// Resets the host value table to the predefined handles.
    fn init_handle_table(&mut self);

    /// Creates an empty host array.
    fn val_new_array(&mut self) -> Handle;

    /// Creates an empty host object.
    fn val_new_object(&mut self) -> Handle;

    /// Creates a host boolean.
    fn val_make_bool(&mut self, value: bool) -> Handle;

    /// Creates a host number from a signed 32-bit integer.
    fn val_make_int(&mut self, value: i32) -> Handle;

    /// Creates a host number from an unsigned 32-bit integer.
    fn val_make_uint(&mut self, value: u32) -> Handle;

    /// Creates a host big integer from a signed 64-bit integer.
    fn val_make_bigint(&mut self, value: i64) -> Handle;

    /// Creates a host big integer from an unsigned 64-bit integer.
    fn val_make_biguint(&mut self, value: u64) -> Handle;

    /// Creates a host string from text.
    fn val_make_str(&mut self, value: &str) -> Handle;

    /// Creates a host string from UTF-16 code units.
    fn val_make_str_utf16(&mut self, value: &[u16]) -> Handle;

    /// Reads a host value as a boolean.
    fn val_get_value_bool(&mut self, h: Handle) -> bool;

    /// Reads a host value as a signed 32-bit integer.
    fn val_get_value_int(&mut self, h: Handle) -> i32;

    /// Reads a host value as an unsigned 32-bit integer.
    fn val_get_value_uint(&mut self, h: Handle) -> u32;

    /// Reads a host value as a signed 64-bit integer.
    fn val_get_value_bigint(&mut self, h: Handle) -> i64;

    /// Reads a host value as an unsigned 64-bit integer.
    fn val_get_value_biguint(&mut self, h: Handle) -> u64;

    /// Reads a host value as text; `None` stands for a null string pointer.
    fn val_get_value_string(&mut self, h: Handle) -> Option<String>;

    /// Reads a host value as UTF-16 code units; `None` stands for a null string pointer.
    fn val_get_value_string_utf16(&mut self, h: Handle) -> Option<Vec<u16>>;

    /// Names the host type of a value; `None` stands for a null string pointer.
    fn val_typeof(&mut self, h: Handle) -> Option<String>;

    /// Appends a value to a host array.
    fn val_push(&mut self, arr: Handle, v: Handle);

    /// Reads a property or an element.
    fn val_get(&mut self, obj: Handle, key: Handle) -> Handle;

    /// Writes a property or an element.
    fn val_set(&mut self, obj: Handle, key: Handle, v: Handle);

    /// Tests whether a property exists.
    fn val_has(&mut self, obj: Handle, key: Handle) -> bool;

    /// Applies the host logical negation.
    fn val_not(&mut self, h: Handle) -> bool;

    /// Tests whether a value is a host string.
    fn val_is_string(&mut self, h: Handle) -> bool;

    /// Tests whether a value is a host number.
    fn val_is_number(&mut self, h: Handle) -> bool;

    /// Tests whether a value is a host boolean.
    fn val_is_bool(&mut self, h: Handle) -> bool;

    /// Host comparison `a > b`.
    fn val_gt(&mut self, a: Handle, b: Handle) -> bool;

    /// Host comparison `a >= b`.
    fn val_gte(&mut self, a: Handle, b: Handle) -> bool;

    /// Host comparison `a < b`.
    fn val_lt(&mut self, a: Handle, b: Handle) -> bool;

    /// Host comparison `a <= b`.
    fn val_lte(&mut self, a: Handle, b: Handle) -> bool;

    /// Host loose equality.
    fn val_equals(&mut self, a: Handle, b: Handle) -> bool;

    /// Host strict equality.
    fn val_strictly_equals(&mut self, a: Handle, b: Handle) -> bool;

    /// Tests whether `a` is an instance of the constructor `b`.
    fn val_instanceof(&mut self, a: Handle, b: Handle) -> bool;

    /// Calls a method of an object with an argument array.
    fn val_obj_call(&mut self, obj: Handle, method: &str, argv: Handle) -> Handle;

    /// Tests whether an object has a property of its own.
    fn val_obj_has_own_prop(&mut self, obj: Handle, prop: &str) -> bool;

    /// Calls a constructor with an argument array.
    fn val_construct_new(&mut self, ctor: Handle, argv: Handle) -> Handle;

    /// Calls a function value with an argument array.
    fn val_func_call(&mut self, func: Handle, argv: Handle) -> Handle;

    /// Adds one reference to a handle.
    fn val_inc_ref(&mut self, h: Handle);

    /// Drops one reference from a handle.
    fn val_dec_ref(&mut self, h: Handle);

    /// Raises a value as a host exception.
    fn val_throw(&mut self, h: Handle);

    /// Prints the host value table.
    fn print_object_map(&mut self);

    /// Clears the host value table.
    fn reset_object_map(&mut self);

    /// Creates a host function that calls back into the guest.
    fn val_make_callback(&mut self, fidx: Handle, data: Handle) -> Handle;
}

} // verus!

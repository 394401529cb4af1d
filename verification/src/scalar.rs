//! Fixed-width integers: each is read through the host getter of its width and
//! signedness, and narrowed to its own range.

use vstd::prelude::*;
use crate::common::Handle;
use crate::convert::{FromVal, IntoVal};
use crate::env::{
    Env, emlite_val_get_value_bigint, emlite_val_get_value_biguint, emlite_val_get_value_int,
    emlite_val_get_value_uint,
};
use crate::host::{
    Host, HostCall, answered, call_at, extended_by_one, number_made, number_read, returned,
};
use crate::predef::is_absent;
use crate::val::{Val, instance_test};

verus! {

/// An integer type that crosses the boundary as a host number.
pub trait Scalar: IntoVal {
    /// Whether `c` is the getter call on `h` from whose answer `r` is read.
    spec fn read_by(h: Handle, r: Self, c: HostCall) -> bool;

    /// Reads the value behind `h` as this type. A value outside the range
    /// wraps; nothing fails.
    fn read<H: Host>(env: &mut Env<H>, h: Handle) -> (r: Self)
        ensures
            extended_by_one(old(env).trace(), final(env).trace()),
            Self::read_by(h, r, final(env).trace().last()),
    ;

    /// Reading back from a host that answers with the number it was given
    /// yields the value that was handed over.
    proof fn round_trip(self, made: Handle, h: Handle, c: HostCall, r: Self)
        requires
            Self::read_by(h, r, c),
            number_read(c) == number_made(self.conversion(made)[0]),
        ensures
            r == self,
    ;
}

impl Scalar for i8 {
    open spec fn read_by(h: Handle, r: Self, c: HostCall) -> bool {
        c matches HostCall::GetValueInt { h: asked, ret } && asked == h && r == ret as i8
    }

    fn read<H: Host>(env: &mut Env<H>, h: Handle) -> (r: Self) {
        let w = emlite_val_get_value_int(env, h);
        #[verifier::truncate]
        (w as i8)
    }

    proof fn round_trip(self, made: Handle, h: Handle, c: HostCall, r: Self) {
    }
}

impl Scalar for i16 {
    open spec fn read_by(h: Handle, r: Self, c: HostCall) -> bool {
        c matches HostCall::GetValueInt { h: asked, ret } && asked == h && r == ret as i16
    }

    fn read<H: Host>(env: &mut Env<H>, h: Handle) -> (r: Self) {
        let w = emlite_val_get_value_int(env, h);
        #[verifier::truncate]
        (w as i16)
    }

    proof fn round_trip(self, made: Handle, h: Handle, c: HostCall, r: Self) {
    }
}

impl Scalar for i32 {
    open spec fn read_by(h: Handle, r: Self, c: HostCall) -> bool {
        c matches HostCall::GetValueInt { h: asked, ret } && asked == h && r == ret
    }

    fn read<H: Host>(env: &mut Env<H>, h: Handle) -> (r: Self) {
        emlite_val_get_value_int(env, h)
    }

    proof fn round_trip(self, made: Handle, h: Handle, c: HostCall, r: Self) {
    }
}

impl Scalar for u8 {
    open spec fn read_by(h: Handle, r: Self, c: HostCall) -> bool {
        c matches HostCall::GetValueUint { h: asked, ret } && asked == h && r == ret as u8
    }

    fn read<H: Host>(env: &mut Env<H>, h: Handle) -> (r: Self) {
        let w = emlite_val_get_value_uint(env, h);
        #[verifier::truncate]
        (w as u8)
    }

    proof fn round_trip(self, made: Handle, h: Handle, c: HostCall, r: Self) {
    }
}

impl Scalar for u16 {
    open spec fn read_by(h: Handle, r: Self, c: HostCall) -> bool {
        c matches HostCall::GetValueUint { h: asked, ret } && asked == h && r == ret as u16
    }

    fn read<H: Host>(env: &mut Env<H>, h: Handle) -> (r: Self) {
        let w = emlite_val_get_value_uint(env, h);
        #[verifier::truncate]
        (w as u16)
    }

    proof fn round_trip(self, made: Handle, h: Handle, c: HostCall, r: Self) {
    }
}

impl Scalar for u32 {
    open spec fn read_by(h: Handle, r: Self, c: HostCall) -> bool {
        c matches HostCall::GetValueUint { h: asked, ret } && asked == h && r == ret
    }

    fn read<H: Host>(env: &mut Env<H>, h: Handle) -> (r: Self) {
        emlite_val_get_value_uint(env, h)
    }

    proof fn round_trip(self, made: Handle, h: Handle, c: HostCall, r: Self) {
    }
}

impl Scalar for i64 {
    open spec fn read_by(h: Handle, r: Self, c: HostCall) -> bool {
        c matches HostCall::GetValueBigint { h: asked, ret } && asked == h && r == ret
    }

    fn read<H: Host>(env: &mut Env<H>, h: Handle) -> (r: Self) {
        emlite_val_get_value_bigint(env, h)
    }

    proof fn round_trip(self, made: Handle, h: Handle, c: HostCall, r: Self) {
    }
}

impl Scalar for isize {
    open spec fn read_by(h: Handle, r: Self, c: HostCall) -> bool {
        c matches HostCall::GetValueBigint { h: asked, ret } && asked == h && r == ret as isize
    }

    fn read<H: Host>(env: &mut Env<H>, h: Handle) -> (r: Self) {
        let w = emlite_val_get_value_bigint(env, h);
        #[verifier::truncate]
        (w as isize)
    }

    proof fn round_trip(self, made: Handle, h: Handle, c: HostCall, r: Self) {
    }
}

impl Scalar for u64 {
    open spec fn read_by(h: Handle, r: Self, c: HostCall) -> bool {
        c matches HostCall::GetValueBiguint { h: asked, ret } && asked == h && r == ret
    }

    fn read<H: Host>(env: &mut Env<H>, h: Handle) -> (r: Self) {
        emlite_val_get_value_biguint(env, h)
    }

    proof fn round_trip(self, made: Handle, h: Handle, c: HostCall, r: Self) {
    }
}

impl Scalar for usize {
    open spec fn read_by(h: Handle, r: Self, c: HostCall) -> bool {
        c matches HostCall::GetValueBiguint { h: asked, ret } && asked == h && r == ret as usize
    }

    fn read<H: Host>(env: &mut Env<H>, h: Handle) -> (r: Self) {
        let w = emlite_val_get_value_biguint(env, h);
        #[verifier::truncate]
        (w as usize)
    }

    proof fn round_trip(self, made: Handle, h: Handle, c: HostCall, r: Self) {
    }
}

impl<T: Scalar> FromVal for T {
    open spec fn from_val_spec(pre: Seq<HostCall>, post: Seq<HostCall>, h: Handle, r: Self) -> bool {
        &&& extended_by_one(pre, post)
        &&& T::read_by(h, r, post.last())
    }

    open spec fn take_ownership_spec(pre: Seq<HostCall>, post: Seq<HostCall>, h: Handle, r: Self) -> bool {
        let read = post[pre.len() as int];
        &&& post == pre.push(read).push(HostCall::DecRef { h })
        &&& T::read_by(h, r, read)
    }

    open spec fn handle_of(&self) -> Handle {
        0
    }

    fn from_val<H: Host>(env: &mut Env<H>, v: &Val) -> (r: Self) {
        T::read(env, v.as_handle())
    }

    fn take_ownership<H: Host>(env: &mut Env<H>, v: Handle) -> (r: Self) {
        let temp = Val::take_ownership(env, v);
        let r = T::read(env, v);
        temp.drop(env);
        r
    }

    fn as_handle(&self) -> (h: Handle) {
        0
    }
}

impl<T: Scalar> FromVal for Option<T> {
    open spec fn from_val_spec(pre: Seq<HostCall>, post: Seq<HostCall>, h: Handle, r: Self) -> bool {
        if is_absent(h) {
            r is None && post == pre
        } else {
            match r {
                None => post == pre.push(HostCall::IsNumber { h, ret: false }),
                Some(x) => {
                    &&& post == pre.push(HostCall::IsNumber { h, ret: true }).push(post.last())
                    &&& T::read_by(h, x, post.last())
                },
            }
        }
    }

    open spec fn take_ownership_spec(pre: Seq<HostCall>, post: Seq<HostCall>, h: Handle, r: Self) -> bool {
        if is_absent(h) {
            r is None && post == pre.push(HostCall::DecRef { h })
        } else {
            match r {
                None => post == pre.push(HostCall::IsNumber { h, ret: false }).push(
                    HostCall::DecRef { h },
                ),
                Some(x) => {
                    let read = post[pre.len() as int + 1];
                    &&& post == pre.push(HostCall::IsNumber { h, ret: true }).push(read).push(
                        HostCall::DecRef { h },
                    )
                    &&& T::read_by(h, x, read)
                },
            }
        }
    }

    open spec fn handle_of(&self) -> Handle {
        0
    }

    fn from_val<H: Host>(env: &mut Env<H>, v: &Val) -> (r: Self) {
        if v.is_null() || v.is_undefined() {
            None
        } else if !v.is_number(env) {
            None
        } else {
            Some(T::read(env, v.as_handle()))
        }
    }

    fn take_ownership<H: Host>(env: &mut Env<H>, v: Handle) -> (r: Self) {
        let temp = Val::take_ownership(env, v);
        let r = if temp.is_null() || temp.is_undefined() {
            None
        } else if !temp.is_number(env) {
            None
        } else {
            Some(T::read(env, v))
        };
        temp.drop(env);
        r
    }

    fn as_handle(&self) -> (h: Handle) {
        0
    }
}

impl<T: Scalar> FromVal for Result<T, Val> {
    open spec fn from_val_spec(pre: Seq<HostCall>, post: Seq<HostCall>, h: Handle, r: Self) -> bool {
        let n = pre.len() as int;
        let test = instance_test(h, "Error"@, returned(post[n]), returned(post[n + 1]), r is Err);
        match r {
            Err(e) => e@ == h && post == (pre + test).push(HostCall::IncRef { h }),
            Ok(x) => post == (pre + test).push(post.last()) && T::read_by(h, x, post.last()),
        }
    }

    open spec fn take_ownership_spec(pre: Seq<HostCall>, post: Seq<HostCall>, h: Handle, r: Self) -> bool {
        let n = pre.len() as int;
        let test = instance_test(h, "Error"@, returned(post[n]), returned(post[n + 1]), r is Err);
        match r {
            Err(e) => e@ == h && post == pre + test,
            Ok(x) => {
                let read = post[n + 6];
                &&& post == (pre + test).push(read).push(HostCall::DecRef { h })
                &&& T::read_by(h, x, read)
            },
        }
    }

    open spec fn handle_of(&self) -> Handle {
        0
    }

    fn from_val<H: Host>(env: &mut Env<H>, v: &Val) -> (r: Self) {
        if v.is_error(env) {
            Err(v.clone(env))
        } else {
            Ok(T::read(env, v.as_handle()))
        }
    }

    fn take_ownership<H: Host>(env: &mut Env<H>, v: Handle) -> (r: Self) {
        let temp = Val::take_ownership(env, v);
        if temp.is_error(env) {
            Err(temp)
        } else {
            let x = T::read(env, v);
            temp.drop(env);
            Ok(x)
        }
    }

    fn as_handle(&self) -> (h: Handle) {
        0
    }
}

/// Read as an `Option`, `null` and `undefined` are absent whatever the integer
/// type, and whatever the host would have answered.
pub proof fn lemma_absent_is_none<T: Scalar>(
    pre: Seq<HostCall>,
    post: Seq<HostCall>,
    h: Handle,
    r: Option<T>,
)
    requires
        is_absent(h),
        Option::<T>::from_val_spec(pre, post, h, r) || Option::<T>::take_ownership_spec(
            pre,
            post,
            h,
            r,
        ),
    ensures
        r is None,
{
}

/// Read through the error channel, a value on which the host's error test
/// holds comes out as the error arm, and only such a value does: the integer
/// getter is not even asked.
pub proof fn lemma_error_is_err<T: Scalar>(
    pre: Seq<HostCall>,
    post: Seq<HostCall>,
    h: Handle,
    r: Result<T, Val>,
)
    requires
        Result::<T, Val>::from_val_spec(pre, post, h, r) || Result::<T, Val>::take_ownership_spec(
            pre,
            post,
            h,
            r,
        ),
    ensures
        r is Err <==> answered(call_at(pre, post, 4)),
        r matches Err(e) ==> e@ == h,
{
    let n = pre.len() as int;
    let test = instance_test(h, "Error"@, returned(post[n]), returned(post[n + 1]), r is Err);
    assert((pre + test)[n + 4] == test[4]);
}

} // verus!

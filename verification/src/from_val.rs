//! How booleans, the unit value, strings and whole values are read back from
//! the host, plain, as an `Option` and through the error channel.

use vstd::prelude::*;
use crate::common::Handle;
use crate::convert::{FromJsError, FromVal};
use crate::env::{
    Env, emlite_val_get_value_string_unified, emlite_val_get_value_string_utf16_unified,
    emlite_val_not_unified,
};
use crate::host::{Host, HostCall, answered, call_at};
use crate::predef::{EmlitePredefHandles, is_absent, undefined_handle};
use crate::val::{Val, error_construction_at, error_test_at, instance_test, new_error};

verus! {

/// The handle of the host boolean `b`.
pub open spec fn bool_handle(b: bool) -> Handle {
    if b {
        EmlitePredefHandles::True.index()
    } else {
        EmlitePredefHandles::False.index()
    }
}

/// The handle of the host boolean `b`.
fn handle_of_bool(b: bool) -> (h: Handle)
    ensures
        h == bool_handle(b),
{
    if b {
        EmlitePredefHandles::True.handle()
    } else {
        EmlitePredefHandles::False.handle()
    }
}

/// The calls `tail`, or nothing where `present` is false.
pub open spec fn calls_if(present: bool, tail: Seq<HostCall>) -> Seq<HostCall> {
    if present {
        tail
    } else {
        Seq::empty()
    }
}

impl FromVal for Result<Val, Val> {
    open spec fn from_val_spec(pre: Seq<HostCall>, post: Seq<HostCall>, h: Handle, r: Self) -> bool {
        &&& post == (pre + error_test_at(h, post, pre.len() as int, r is Err)).push(
            HostCall::IncRef { h },
        )
        &&& r.handle_of() == h
    }

    open spec fn take_ownership_spec(pre: Seq<HostCall>, post: Seq<HostCall>, h: Handle, r: Self) -> bool {
        &&& post == pre + error_test_at(h, post, pre.len() as int, r is Err)
        &&& r.handle_of() == h
    }

    open spec fn handle_of(&self) -> Handle {
        match self {
            Ok(ok) => ok@,
            Err(e) => e@,
        }
    }

    fn from_val<H: Host>(env: &mut Env<H>, v: &Val) -> (r: Self) {
        if v.is_error(env) {
            Err(v.clone(env))
        } else {
            Ok(v.clone(env))
        }
    }

    fn take_ownership<H: Host>(env: &mut Env<H>, v: Handle) -> (r: Self) {
        let temp = Val::take_ownership(env, v);
        if temp.is_error(env) {
            Err(temp)
        } else {
            Ok(temp)
        }
    }

    fn as_handle(&self) -> (h: Handle) {
        match self {
            Ok(ok) => ok.as_handle(),
            Err(e) => e.as_handle(),
        }
    }
}

impl FromVal for bool {
    open spec fn from_val_spec(pre: Seq<HostCall>, post: Seq<HostCall>, h: Handle, r: Self) -> bool {
        post == pre.push(HostCall::Not { h, ret: !r })
    }

    open spec fn take_ownership_spec(pre: Seq<HostCall>, post: Seq<HostCall>, h: Handle, r: Self) -> bool {
        post == pre.push(HostCall::Not { h, ret: !r }).push(HostCall::DecRef { h })
    }

    open spec fn handle_of(&self) -> Handle {
        bool_handle(*self)
    }

    fn from_val<H: Host>(env: &mut Env<H>, v: &Val) -> (r: Self) {
        !emlite_val_not_unified(env, v.as_handle())
    }

    fn take_ownership<H: Host>(env: &mut Env<H>, v: Handle) -> (r: Self) {
        let temp = Val::take_ownership(env, v);
        let r = bool::from_val(env, &temp);
        temp.drop(env);
        r
    }

    fn as_handle(&self) -> (h: Handle) {
        handle_of_bool(*self)
    }
}

impl FromVal for Option<bool> {
    open spec fn from_val_spec(pre: Seq<HostCall>, post: Seq<HostCall>, h: Handle, r: Self) -> bool {
        let n = pre.len() as int;
        let is_error = answered(post[n + 4]);
        let test = pre + error_test_at(h, post, n, is_error);
        match r {
            None => (is_error || is_absent(h)) && post == test,
            Some(b) => !is_error && !is_absent(h) && post == test.push(HostCall::Not { h, ret: !b }),
        }
    }

    open spec fn take_ownership_spec(pre: Seq<HostCall>, post: Seq<HostCall>, h: Handle, r: Self) -> bool {
        let n = pre.len() as int;
        let is_error = answered(post[n + 4]);
        let test = pre + error_test_at(h, post, n, is_error);
        match r {
            None => (is_error || is_absent(h)) && post == test.push(HostCall::DecRef { h }),
            Some(b) => {
                &&& !is_error
                &&& !is_absent(h)
                &&& post == test.push(HostCall::Not { h, ret: !b }).push(HostCall::DecRef { h })
            },
        }
    }

    open spec fn handle_of(&self) -> Handle {
        match self {
            Some(b) => bool_handle(*b),
            None => undefined_handle(),
        }
    }

    fn from_val<H: Host>(env: &mut Env<H>, v: &Val) -> (r: Self) {
        if v.is_error(env) || v.is_null() || v.is_undefined() {
            None
        } else {
            Some(!emlite_val_not_unified(env, v.as_handle()))
        }
    }

    fn take_ownership<H: Host>(env: &mut Env<H>, v: Handle) -> (r: Self) {
        let temp = Val::take_ownership(env, v);
        let r = if temp.is_error(env) || temp.is_null() || temp.is_undefined() {
            None
        } else {
            Some(!emlite_val_not_unified(env, v))
        };
        temp.drop(env);
        r
    }

    fn as_handle(&self) -> (h: Handle) {
        match self {
            Some(b) => handle_of_bool(*b),
            None => EmlitePredefHandles::Undefined.handle(),
        }
    }
}

impl FromVal for Result<bool, Val> {
    open spec fn from_val_spec(pre: Seq<HostCall>, post: Seq<HostCall>, h: Handle, r: Self) -> bool {
        let test = pre + error_test_at(h, post, pre.len() as int, r is Err);
        match r {
            Err(e) => e@ == h && post == test.push(HostCall::IncRef { h }),
            Ok(b) => post == test.push(HostCall::Not { h, ret: !b }),
        }
    }

    open spec fn take_ownership_spec(pre: Seq<HostCall>, post: Seq<HostCall>, h: Handle, r: Self) -> bool {
        let test = pre + error_test_at(h, post, pre.len() as int, r is Err);
        match r {
            Err(e) => e@ == h && post == test,
            Ok(b) => post == test.push(HostCall::Not { h, ret: !b }).push(HostCall::DecRef { h }),
        }
    }

    open spec fn handle_of(&self) -> Handle {
        match self {
            Ok(b) => bool_handle(*b),
            Err(e) => e@,
        }
    }

    fn from_val<H: Host>(env: &mut Env<H>, v: &Val) -> (r: Self) {
        if v.is_error(env) {
            Err(v.clone(env))
        } else {
            Ok(!emlite_val_not_unified(env, v.as_handle()))
        }
    }

    fn take_ownership<H: Host>(env: &mut Env<H>, v: Handle) -> (r: Self) {
        let temp = Val::take_ownership(env, v);
        if temp.is_error(env) {
            Err(temp)
        } else {
            let b = !emlite_val_not_unified(env, v);
            temp.drop(env);
            Ok(b)
        }
    }

    fn as_handle(&self) -> (h: Handle) {
        match self {
            Ok(b) => handle_of_bool(*b),
            Err(e) => e.as_handle(),
        }
    }
}

impl FromVal for () {
    open spec fn from_val_spec(pre: Seq<HostCall>, post: Seq<HostCall>, h: Handle, r: Self) -> bool {
        post == pre
    }

    open spec fn take_ownership_spec(pre: Seq<HostCall>, post: Seq<HostCall>, h: Handle, r: Self) -> bool {
        post == pre.push(HostCall::DecRef { h })
    }

    open spec fn handle_of(&self) -> Handle {
        undefined_handle()
    }

    fn from_val<H: Host>(env: &mut Env<H>, v: &Val) -> (r: Self) {
        ()
    }

    fn take_ownership<H: Host>(env: &mut Env<H>, v: Handle) -> (r: Self) {
        let temp = Val::take_ownership(env, v);
        temp.drop(env);
    }

    fn as_handle(&self) -> (h: Handle) {
        EmlitePredefHandles::Undefined.handle()
    }
}

/// What reading text out of `h` does: nothing is asked about `null` and
/// `undefined`; otherwise the host is asked whether the value is a string, and
/// only then for its text. `owned` says whether the caller's reference is
/// taken over: then every outcome ends by giving the reference up.
pub open spec fn text_read(
    pre: Seq<HostCall>,
    post: Seq<HostCall>,
    h: Handle,
    r: Option<String>,
    owned: bool,
) -> bool {
    let release = calls_if(owned, seq![HostCall::DecRef { h }]);
    if is_absent(h) {
        r is None && post =~= pre + release
    } else if answered(post[pre.len() as int]) {
        post =~= pre.push(HostCall::IsString { h, ret: true }).push(
            HostCall::GetValueString {
                h,
                ret: match r {
                    Some(s) => Some(s@),
                    None => None,
                },
            },
        ) + release
    } else {
        r is None && post =~= pre.push(HostCall::IsString { h, ret: false }) + release
    }
}

impl FromVal for Option<String> {
    open spec fn from_val_spec(pre: Seq<HostCall>, post: Seq<HostCall>, h: Handle, r: Self) -> bool {
        text_read(pre, post, h, r, false)
    }

    open spec fn take_ownership_spec(pre: Seq<HostCall>, post: Seq<HostCall>, h: Handle, r: Self) -> bool {
        text_read(pre, post, h, r, true)
    }

    open spec fn handle_of(&self) -> Handle {
        0
    }

    fn from_val<H: Host>(env: &mut Env<H>, v: &Val) -> (r: Self) {
        if v.is_null() || v.is_undefined() {
            None
        } else if !v.is_string(env) {
            None
        } else {
            emlite_val_get_value_string_unified(env, v.as_handle())
        }
    }

    fn take_ownership<H: Host>(env: &mut Env<H>, v: Handle) -> (r: Self) {
        let temp = Val::take_ownership(env, v);
        let r = Self::from_val(env, &temp);
        temp.drop(env);
        r
    }

    fn as_handle(&self) -> (h: Handle) {
        0
    }
}

/// What reading text through the error channel does. `owned` says whether the
/// caller's reference is taken over: then an error value is handed on as it
/// is, and every other outcome ends by giving the reference up.
pub open spec fn text_result(
    pre: Seq<HostCall>,
    post: Seq<HostCall>,
    h: Handle,
    r: Result<String, Val>,
    owned: bool,
) -> bool {
    let n = pre.len() as int;
    let is_error = answered(post[n + 4]);
    let test = pre + error_test_at(h, post, n, is_error);
    let release = calls_if(owned, seq![HostCall::DecRef { h }]);
    if is_error {
        r matches Err(e) && e@ == h && post =~= test + calls_if(!owned, seq![HostCall::IncRef { h }])
    } else if !answered(post[n + 6]) {
        r matches Err(e) && post =~= test.push(HostCall::IsString { h, ret: false })
            + error_construction_at("Expected string"@, post, n + 7, e@) + release
    } else {
        let asked = test.push(HostCall::IsString { h, ret: true });
        match r {
            Ok(s) => post =~= asked.push(HostCall::GetValueString { h, ret: Some(s@) }) + release,
            Err(e) => post =~= asked.push(HostCall::GetValueString { h, ret: None })
                + error_construction_at("Null string"@, post, n + 8, e@) + release,
        }
    }
}

impl FromVal for Result<String, Val> {
    open spec fn from_val_spec(pre: Seq<HostCall>, post: Seq<HostCall>, h: Handle, r: Self) -> bool {
        text_result(pre, post, h, r, false)
    }

    open spec fn take_ownership_spec(pre: Seq<HostCall>, post: Seq<HostCall>, h: Handle, r: Self) -> bool {
        text_result(pre, post, h, r, true)
    }

    open spec fn handle_of(&self) -> Handle {
        0
    }

    fn from_val<H: Host>(env: &mut Env<H>, v: &Val) -> (r: Self) {
        let h = v.as_handle();
        if v.is_error(env) {
            Err(v.clone(env))
        } else if !v.is_string(env) {
            Err(new_error(env, "Expected string"))
        } else {
            match emlite_val_get_value_string_unified(env, h) {
                Some(s) => Ok(s),
                None => Err(new_error(env, "Null string")),
            }
        }
    }

    fn take_ownership<H: Host>(env: &mut Env<H>, v: Handle) -> (r: Self) {
        let temp = Val::take_ownership(env, v);
        if temp.is_error(env) {
            Err(temp)
        } else if !temp.is_string(env) {
            let e = new_error(env, "Expected string");
            temp.drop(env);
            Err(e)
        } else {
            let r = match emlite_val_get_value_string_unified(env, v) {
                Some(s) => Ok(s),
                None => Err(new_error(env, "Null string")),
            };
            temp.drop(env);
            r
        }
    }

    fn as_handle(&self) -> (h: Handle) {
        0
    }
}

/// What reading UTF-16 code units out of `h` does: nothing is asked about
/// `null` and `undefined`; otherwise the host is asked for the units. `owned`
/// as in [`text_read`].
pub open spec fn units_read(
    pre: Seq<HostCall>,
    post: Seq<HostCall>,
    h: Handle,
    r: Option<Vec<u16>>,
    owned: bool,
) -> bool {
    let release = calls_if(owned, seq![HostCall::DecRef { h }]);
    if is_absent(h) {
        r is None && post =~= pre + release
    } else {
        post =~= pre.push(
            HostCall::GetValueStringUtf16 {
                h,
                ret: match r {
                    Some(s) => Some(s@),
                    None => None,
                },
            },
        ) + release
    }
}

impl FromVal for Option<Vec<u16>> {
    open spec fn from_val_spec(pre: Seq<HostCall>, post: Seq<HostCall>, h: Handle, r: Self) -> bool {
        units_read(pre, post, h, r, false)
    }

    open spec fn take_ownership_spec(pre: Seq<HostCall>, post: Seq<HostCall>, h: Handle, r: Self) -> bool {
        units_read(pre, post, h, r, true)
    }

    open spec fn handle_of(&self) -> Handle {
        0
    }

    fn from_val<H: Host>(env: &mut Env<H>, v: &Val) -> (r: Self) {
        if v.is_null() || v.is_undefined() {
            None
        } else {
            emlite_val_get_value_string_utf16_unified(env, v.as_handle())
        }
    }

    fn take_ownership<H: Host>(env: &mut Env<H>, v: Handle) -> (r: Self) {
        let temp = Val::take_ownership(env, v);
        let r = Self::from_val(env, &temp);
        temp.drop(env);
        r
    }

    fn as_handle(&self) -> (h: Handle) {
        0
    }
}

/// What reading UTF-16 code units through the error channel does; `owned` as
/// in [`text_result`].
pub open spec fn units_result(
    pre: Seq<HostCall>,
    post: Seq<HostCall>,
    h: Handle,
    r: Result<Vec<u16>, Val>,
    owned: bool,
) -> bool {
    let n = pre.len() as int;
    let is_error = answered(post[n + 4]);
    let test = pre + error_test_at(h, post, n, is_error);
    let release = calls_if(owned, seq![HostCall::DecRef { h }]);
    if is_error {
        r matches Err(e) && e@ == h && post =~= test + calls_if(!owned, seq![HostCall::IncRef { h }])
    } else {
        match r {
            Ok(s) => post =~= test.push(HostCall::GetValueStringUtf16 { h, ret: Some(s@) }) + release,
            Err(e) => post =~= test.push(HostCall::GetValueStringUtf16 { h, ret: None })
                + error_construction_at("Null UTF-16 string"@, post, n + 7, e@) + release,
        }
    }
}

impl FromVal for Result<Vec<u16>, Val> {
    open spec fn from_val_spec(pre: Seq<HostCall>, post: Seq<HostCall>, h: Handle, r: Self) -> bool {
        units_result(pre, post, h, r, false)
    }

    open spec fn take_ownership_spec(pre: Seq<HostCall>, post: Seq<HostCall>, h: Handle, r: Self) -> bool {
        units_result(pre, post, h, r, true)
    }

    open spec fn handle_of(&self) -> Handle {
        0
    }

    fn from_val<H: Host>(env: &mut Env<H>, v: &Val) -> (r: Self) {
        let h = v.as_handle();
        if v.is_error(env) {
            Err(v.clone(env))
        } else {
            match emlite_val_get_value_string_utf16_unified(env, h) {
                Some(units) => Ok(units),
                None => Err(new_error(env, "Null UTF-16 string")),
            }
        }
    }

    fn take_ownership<H: Host>(env: &mut Env<H>, v: Handle) -> (r: Self) {
        let temp = Val::take_ownership(env, v);
        if temp.is_error(env) {
            Err(temp)
        } else {
            let r = match emlite_val_get_value_string_utf16_unified(env, v) {
                Some(units) => Ok(units),
                None => Err(new_error(env, "Null UTF-16 string")),
            };
            temp.drop(env);
            r
        }
    }

    fn as_handle(&self) -> (h: Handle) {
        0
    }
}

/// The rest of a conversion through the error channel, once the host has said
/// whether its error test holds on `v`: an error value goes to `E`, any other
/// value is read as `T`.
pub fn result_from_error_test<H: Host, T: FromVal, E: FromJsError>(
    env: &mut Env<H>,
    v: &Val,
    is_error: bool,
) -> (r: Result<T, E>)
    ensures
        r is Err <==> is_error,
        r matches Ok(x) ==> T::from_val_spec(old(env).trace(), final(env).trace(), v@, x),
        r is Err ==> old(env).trace().is_prefix_of(final(env).trace()),
{
    if is_error {
        Err(E::from_js_error(env, v))
    } else {
        Ok(T::from_val(env, v))
    }
}

/// The rest of a conversion through the error channel that takes over the
/// reference to the value behind `temp`, once the host has said whether its
/// error test holds on it. An error value is shown to `E` and then given up;
/// any other value goes to `T`, which takes the reference over.
pub fn owned_result_from_error_test<H: Host, T: FromVal, E: FromJsError>(
    env: &mut Env<H>,
    temp: Val,
    is_error: bool,
) -> (r: Result<T, E>)
    ensures
        r is Err <==> is_error,
        r matches Ok(x) ==> T::take_ownership_spec(old(env).trace(), final(env).trace(), temp@, x),
        r is Err ==> {
            &&& final(env).trace().len() > 0
            &&& final(env).trace().last() == HostCall::DecRef { h: temp@ }
            &&& old(env).trace().is_prefix_of(final(env).trace().drop_last())
        },
{
    if is_error {
        let e = E::from_js_error(env, &temp);
        proof {
            assert(env.trace().push(HostCall::DecRef { h: temp@ }).drop_last() =~= env.trace());
        }
        temp.drop(env);
        Err(e)
    } else {
        Ok(T::take_ownership(env, temp.as_handle()))
    }
}

impl<T: FromVal, E: FromJsError> FromVal for Result<T, E> {
    open spec fn from_val_spec(pre: Seq<HostCall>, post: Seq<HostCall>, h: Handle, r: Self) -> bool {
        match r {
            Ok(x) => exists|key: Handle, ctor: Handle|
                T::from_val_spec(
                    #[trigger] (pre + instance_test(h, "Error"@, key, ctor, false)),
                    post,
                    h,
                    x,
                ),
            Err(_) => exists|key: Handle, ctor: Handle|
                (#[trigger] (pre + instance_test(h, "Error"@, key, ctor, true))).is_prefix_of(post),
        }
    }

    open spec fn take_ownership_spec(pre: Seq<HostCall>, post: Seq<HostCall>, h: Handle, r: Self) -> bool {
        match r {
            Ok(x) => exists|key: Handle, ctor: Handle|
                T::take_ownership_spec(
                    #[trigger] (pre + instance_test(h, "Error"@, key, ctor, false)),
                    post,
                    h,
                    x,
                ),
            Err(_) => {
                &&& post.len() > 0
                &&& post.last() == HostCall::DecRef { h }
                &&& exists|key: Handle, ctor: Handle|
                    (#[trigger] (pre + instance_test(h, "Error"@, key, ctor, true))).is_prefix_of(
                        post.drop_last(),
                    )
            },
        }
    }

    open spec fn handle_of(&self) -> Handle {
        match self {
            Ok(ok) => ok.handle_of(),
            Err(_) => 0,
        }
    }

    fn from_val<H: Host>(env: &mut Env<H>, v: &Val) -> (r: Self) {
        let is_error = v.is_error(env);
        result_from_error_test(env, v, is_error)
    }

    fn take_ownership<H: Host>(env: &mut Env<H>, v: Handle) -> (r: Self) {
        let temp = Val::take_ownership(env, v);
        let is_error = temp.is_error(env);
        owned_result_from_error_test(env, temp, is_error)
    }

    fn as_handle(&self) -> (h: Handle) {
        match self {
            Ok(ok) => ok.as_handle(),
            Err(_) => 0,
        }
    }
}

/// Read as an `Option`, `null` and `undefined` are no boolean, whatever the
/// host answers.
pub proof fn lemma_absent_bool_is_none(
    pre: Seq<HostCall>,
    post: Seq<HostCall>,
    h: Handle,
    r: Option<bool>,
)
    requires
        is_absent(h),
        Option::<bool>::from_val_spec(pre, post, h, r) || Option::<bool>::take_ownership_spec(
            pre,
            post,
            h,
            r,
        ),
    ensures
        r is None,
{
}

/// Read as an `Option`, `null` and `undefined` are no text, whatever the host
/// would have answered.
pub proof fn lemma_absent_text_is_none(
    pre: Seq<HostCall>,
    post: Seq<HostCall>,
    h: Handle,
    r: Option<String>,
)
    requires
        is_absent(h),
        text_read(pre, post, h, r, false) || text_read(pre, post, h, r, true),
    ensures
        r is None,
{
}

/// Read as an `Option`, `null` and `undefined` have no UTF-16 code units,
/// whatever the host would have answered.
pub proof fn lemma_absent_units_is_none(
    pre: Seq<HostCall>,
    post: Seq<HostCall>,
    h: Handle,
    r: Option<Vec<u16>>,
)
    requires
        is_absent(h),
        units_read(pre, post, h, r, false) || units_read(pre, post, h, r, true),
    ensures
        r is None,
{
}

/// Read through the error channel as a boolean, a value comes out as the
/// error arm exactly where the host's error test holds on it.
pub proof fn lemma_error_bool_is_err(
    pre: Seq<HostCall>,
    post: Seq<HostCall>,
    h: Handle,
    r: Result<bool, Val>,
)
    requires
        Result::<bool, Val>::from_val_spec(pre, post, h, r) || Result::<
            bool,
            Val,
        >::take_ownership_spec(pre, post, h, r),
    ensures
        r is Err <==> answered(call_at(pre, post, 4)),
        r matches Err(e) ==> e@ == h,
{
    let n = pre.len() as int;
    let test = error_test_at(h, post, n, r is Err);
    assert((pre + test)[n + 4] == test[4]);
}

/// Read through the error channel as a whole value, a value comes out as the
/// error arm exactly where the host's error test holds on it; either arm
/// carries the value itself.
pub proof fn lemma_error_val_is_err(
    pre: Seq<HostCall>,
    post: Seq<HostCall>,
    h: Handle,
    r: Result<Val, Val>,
)
    requires
        Result::<Val, Val>::from_val_spec(pre, post, h, r) || Result::<Val, Val>::take_ownership_spec(
            pre,
            post,
            h,
            r,
        ),
    ensures
        r is Err <==> answered(call_at(pre, post, 4)),
        r.handle_of() == h,
{
    let n = pre.len() as int;
    let test = error_test_at(h, post, n, r is Err);
    assert((pre + test)[n + 4] == test[4]);
}

/// Read through the error channel into a native error type, a value comes out
/// as the error arm only where the host's error test was made on it and held:
/// the test stands in the record right after what was recorded before.
pub proof fn lemma_native_error_was_tested<T: FromVal, E: FromJsError>(
    pre: Seq<HostCall>,
    post: Seq<HostCall>,
    h: Handle,
    r: Result<T, E>,
)
    requires
        r is Err,
        Result::<T, E>::from_val_spec(pre, post, h, r) || Result::<T, E>::take_ownership_spec(
            pre,
            post,
            h,
            r,
        ),
    ensures
        pre.len() + 6 <= post.len(),
        pre.is_prefix_of(post),
        call_at(pre, post, 4) matches HostCall::Instanceof { a, ret, .. } && a == h && ret,
{
    let n = pre.len() as int;
    if Result::<T, E>::from_val_spec(pre, post, h, r) {
        let (key, ctor) = choose|key: Handle, ctor: Handle|
            (#[trigger] (pre + instance_test(h, "Error"@, key, ctor, true))).is_prefix_of(post);
        let tested = pre + instance_test(h, "Error"@, key, ctor, true);
        assert(tested.len() == n + 6);
        assert(post[n + 4] == tested[n + 4]);
        assert forall|i: int| 0 <= i < n implies pre[i] == post[i] by {
            assert(tested[i] == pre[i]);
        }
    } else {
        let (key, ctor) = choose|key: Handle, ctor: Handle|
            (#[trigger] (pre + instance_test(h, "Error"@, key, ctor, true))).is_prefix_of(
                post.drop_last(),
            );
        let tested = pre + instance_test(h, "Error"@, key, ctor, true);
        assert(tested.len() == n + 6);
        assert(post.drop_last()[n + 4] == tested[n + 4]);
        assert forall|i: int| 0 <= i < n implies pre[i] == post[i] by {
            assert(tested[i] == pre[i]);
            assert(post.drop_last()[i] == post[i]);
        }
    }
}

/// Read through the error channel as text, a value on which the host's error
/// test holds comes out as the error arm and carries the value itself, even
/// where the value is a string.
pub proof fn lemma_error_text_is_err(
    pre: Seq<HostCall>,
    post: Seq<HostCall>,
    h: Handle,
    r: Result<String, Val>,
    owned: bool,
)
    requires
        text_result(pre, post, h, r, owned),
        answered(call_at(pre, post, 4)),
    ensures
        r matches Err(e) && e@ == h,
{
}

/// Read through the error channel as UTF-16 code units, a value on which the
/// host's error test holds comes out as the error arm and carries the value
/// itself.
pub proof fn lemma_error_units_is_err(
    pre: Seq<HostCall>,
    post: Seq<HostCall>,
    h: Handle,
    r: Result<Vec<u16>, Val>,
    owned: bool,
)
    requires
        units_result(pre, post, h, r, owned),
        answered(call_at(pre, post, 4)),
    ensures
        r matches Err(e) && e@ == h,
{
}

/// A boolean comes back as it was handed over, from a host whose negation of
/// the value is the negation of that boolean.
pub proof fn lemma_bool_round_trip(b: bool, pre: Seq<HostCall>, post: Seq<HostCall>, h: Handle, r: bool)
    requires
        bool::from_val_spec(pre, post, h, r),
        post.last() == (HostCall::Not { h, ret: !b }),
    ensures
        r == b,
{
    assert(pre.push(HostCall::Not { h, ret: !r }).last() == HostCall::Not { h, ret: !r });
}

/// A text comes back as it was handed over, from a host that answers with the
/// text it was given.
pub proof fn lemma_text_round_trip(
    s: Seq<char>,
    pre: Seq<HostCall>,
    post: Seq<HostCall>,
    h: Handle,
    r: Option<String>,
)
    requires
        !is_absent(h),
        text_read(pre, post, h, r, false),
        post.len() == pre.len() + 2,
        post.last() == (HostCall::GetValueString { h, ret: Some(s) }),
    ensures
        r matches Some(x) && x@ == s,
{
    let answer = match r {
        Some(x) => Some(x@),
        None => None,
    };
    let asked = pre.push(HostCall::IsString { h, ret: true });
    assert(asked.push(HostCall::GetValueString { h, ret: answer }).last() == HostCall::GetValueString {
        h,
        ret: answer,
    });
}

/// A sequence of UTF-16 code units comes back as it was handed over, from a
/// host that answers with the units it was given.
pub proof fn lemma_units_round_trip(
    s: Seq<u16>,
    pre: Seq<HostCall>,
    post: Seq<HostCall>,
    h: Handle,
    r: Option<Vec<u16>>,
)
    requires
        !is_absent(h),
        units_read(pre, post, h, r, false),
        post.last() == (HostCall::GetValueStringUtf16 { h, ret: Some(s) }),
    ensures
        r matches Some(x) && x@ == s,
{
    let answer = match r {
        Some(x) => Some(x@),
        None => None,
    };
    assert(pre.push(HostCall::GetValueStringUtf16 { h, ret: answer }).last()
        == HostCall::GetValueStringUtf16 { h, ret: answer });
}

} // verus!

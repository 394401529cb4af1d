//! The reference-counted value cell.

use vstd::prelude::*;
use crate::common::Handle;
use crate::convert::{FromVal, IntoVal};
use crate::env::{
    Env, emlite_val_construct_new, emlite_val_dec_ref, emlite_val_func_call, emlite_val_get,
    emlite_val_has, emlite_val_inc_ref, emlite_val_instanceof, emlite_val_is_bool,
    emlite_val_is_number, emlite_val_is_string, emlite_val_new_array, emlite_val_new_object,
    emlite_val_obj_call_unified, emlite_val_obj_has_own_prop_unified, emlite_val_push,
    emlite_val_make_str_utf16_unified, emlite_val_not_unified, emlite_val_set,
    emlite_val_strictly_equals, emlite_val_throw, emlite_val_typeof_unified, typeof_or_undefined,
};
use crate::from_val::{units_read, units_result};
use crate::host::{Host, HostCall, released, returned};
use crate::predef::{EmlitePredefHandles, global_this_handle, null_handle, undefined_handle};

verus! {

/// An owner of one reference to a host value.
#[derive(Debug)]
pub struct Val {
    inner: Handle,
}

impl View for Val {
    type V = Handle;

    closed spec fn view(&self) -> Handle {
        self.inner
    }
}

/// The handles behind a sequence of values.
pub open spec fn handles(vals: Seq<Val>) -> Seq<Handle> {
    vals.map_values(|v: Val| v@)
}

/// The calls that append `items`, in order, to the host array `arr`.
pub open spec fn pushes(arr: Handle, items: Seq<Handle>) -> Seq<HostCall> {
    items.map_values(|v: Handle| HostCall::Push { arr, v })
}

/// The calls that build a fresh host array `arr` holding `items`.
pub open spec fn packed(arr: Handle, items: Seq<Handle>) -> Seq<HostCall> {
    seq![HostCall::NewArray { ret: arr }] + pushes(arr, items)
}

/// The calls that look up the global `name`: `key` is the handle of the name as
/// a host string, `found` the handle of what the global object holds under it.
pub open spec fn global_lookup(name: Seq<char>, key: Handle, found: Handle) -> Seq<HostCall> {
    seq![
        HostCall::MakeStr { value: name, ret: key },
        HostCall::GetProp { obj: global_this_handle(), key, ret: found },
        HostCall::DecRef { h: key },
        HostCall::DecRef { h: global_this_handle() },
    ]
}

/// The calls that test whether the value behind `h` is an instance of the
/// global constructor `name`: `key` is the handle of the name as a host string,
/// `ctor` the handle of the constructor, `answer` what the host says.
pub open spec fn instance_test(
    h: Handle,
    name: Seq<char>,
    key: Handle,
    ctor: Handle,
    answer: bool,
) -> Seq<HostCall> {
    global_lookup(name, key, ctor) + seq![
        HostCall::Instanceof { a: h, b: ctor, ret: answer },
        HostCall::DecRef { h: ctor },
    ]
}

/// The calls that build a host `Error` carrying `message`: `key` and `ctor` are
/// the handles from looking up the constructor, `text` the handle of the
/// message, `argv` the handle of the argument array, `made` the new error.
pub open spec fn error_construction(
    message: Seq<char>,
    key: Handle,
    ctor: Handle,
    text: Handle,
    argv: Handle,
    made: Handle,
) -> Seq<HostCall> {
    global_lookup("Error"@, key, ctor) + seq![HostCall::MakeStr { value: message, ret: text }]
        + packed(argv, seq![text]) + seq![
        HostCall::ConstructNew { ctor, argv, ret: made },
        HostCall::DecRef { h: argv },
        HostCall::DecRef { h: text },
        HostCall::DecRef { h: ctor },
    ]
}

/// The calls of [`error_construction`] as they stand in `post` from index `n`
/// on, where they made the error `made`.
pub open spec fn error_construction_at(
    message: Seq<char>,
    post: Seq<HostCall>,
    n: int,
    made: Handle,
) -> Seq<HostCall> {
    error_construction(
        message,
        returned(post[n]),
        returned(post[n + 1]),
        returned(post[n + 4]),
        returned(post[n + 5]),
        made,
    )
}

/// The calls of [`instance_test`] against the constructor `Error` as they
/// stand in `post` from index `n` on, with the host's answer `answer`.
pub open spec fn error_test_at(h: Handle, post: Seq<HostCall>, n: int, answer: bool) -> Seq<HostCall> {
    instance_test(h, "Error"@, returned(post[n]), returned(post[n + 1]), answer)
}

/// The calls that read the length of the host array `arr`: `key` is the handle
/// of the property name, `len` the handle of the length, `n` what the host
/// reads it as.
pub open spec fn length_read(arr: Handle, key: Handle, len: Handle, n: u64) -> Seq<HostCall> {
    seq![
        HostCall::MakeStr { value: "length"@, ret: key },
        HostCall::GetProp { obj: arr, key, ret: len },
        HostCall::DecRef { h: key },
        HostCall::GetValueBiguint { h: len, ret: n },
        HostCall::DecRef { h: len },
    ]
}

/// The calls that fetch element `i` of the host array `arr`: `key` is the
/// handle of the index as a host number, `elem` the handle of the element.
pub open spec fn element_lookup(arr: Handle, i: i32, key: Handle, elem: Handle) -> Seq<HostCall> {
    seq![
        HostCall::MakeInt { value: i, ret: key },
        HostCall::GetProp { obj: arr, key, ret: elem },
        HostCall::DecRef { h: key },
    ]
}

/// Whether the trace goes from `pre` to `post` by fetching element `i` of
/// `arr`, reading `x` out of it, and giving the element up.
pub open spec fn element_read<V: FromVal>(
    arr: Handle,
    i: int,
    pre: Seq<HostCall>,
    post: Seq<HostCall>,
    x: V,
) -> bool {
    let elem = released(post.last());
    &&& post.len() > 0
    &&& post.last() == HostCall::DecRef { h: elem }
    &&& exists|key: Handle|
        V::from_val_spec(
            #[trigger] (pre + element_lookup(arr, i as i32, key, elem)),
            post.drop_last(),
            elem,
            x,
        )
}

/// Whether `traces` are the states of the trace while the elements of `arr`
/// are read one after the other, from index 0 on, into `out`: `traces[i]` is
/// the trace before element `i` is fetched, the last one the trace at the end.
pub open spec fn elements_read<V: FromVal>(
    arr: Handle,
    traces: Seq<Seq<HostCall>>,
    out: Seq<V>,
) -> bool {
    &&& traces.len() == out.len() + 1
    &&& forall|i: int|
        #![trigger out[i]]
        0 <= i < out.len() ==> element_read(arr, i, traces[i], traces[i + 1], out[i])
}

/// Whether the trace goes from `pre` to `post` by reading the host array `arr`
/// into `out`: the host is asked for the length once, and then for each
/// element in turn.
pub open spec fn array_read<V: FromVal>(
    pre: Seq<HostCall>,
    post: Seq<HostCall>,
    arr: Handle,
    out: Seq<V>,
) -> bool {
    exists|key: Handle, len: Handle, n: u64, traces: Seq<Seq<HostCall>>|
        #![trigger elements_read(arr, traces, out), length_read(arr, key, len, n)]
        {
            &&& out.len() == n as usize
            &&& elements_read(arr, traces, out)
            &&& traces[0] == pre + length_read(arr, key, len, n)
            &&& traces.last() == post
        }
}

/// The calls that append one converted item to `arr` through its `push`
/// method: `item` is the handle of the converted item, `argv` the handle of
/// the argument array, `ret` the handle of what `push` returned.
pub open spec fn item_push(arr: Handle, item: Handle, argv: Handle, ret: Handle) -> Seq<HostCall> {
    packed(argv, seq![item]) + seq![
        HostCall::ObjCall { obj: arr, method: "push"@, argv, ret },
        HostCall::DecRef { h: argv },
        HostCall::DecRef { h: ret },
        HostCall::DecRef { h: item },
    ]
}

/// Whether `calls` convert the items of `items` one after the other and append
/// each to `arr`.
pub open spec fn items_pushed<T: IntoVal>(arr: Handle, items: Seq<T>, calls: Seq<HostCall>) -> bool
    decreases items.len(),
{
    if items.len() == 0 {
        calls.len() == 0
    } else {
        let n = calls.len() as int;
        let item = released(calls[n - 1]);
        let ret = released(calls[n - 2]);
        let argv = released(calls[n - 3]);
        let last = items.last().conversion(item) + item_push(arr, item, argv, ret);
        &&& last.len() <= n
        &&& items.last().yields(item)
        &&& calls.skip(n - last.len()) =~= last
        &&& items_pushed(arr, items.drop_last(), calls.take(n - last.len()))
    }
}

/// Builds a host array that holds `args`.
fn pack_args<H: Host>(env: &mut Env<H>, args: &[Val]) -> (arr: Val)
    ensures
        final(env).trace() == old(env).trace() + packed(arr@, handles(args@)),
{
    let arr = Val::array(env);
    let ghost pre = old(env).trace();
    let mut i: usize = 0;
    while i < args.len()
        invariant
            i <= args.len(),
            env.trace() == pre + packed(arr@, handles(args@.take(i as int))),
        decreases args.len() - i,
    {
        emlite_val_push(env, arr.inner, args[i].inner);
        proof {
            assert(handles(args@.take(i + 1)) =~= handles(args@.take(i as int)).push(args@[i as int]@));
            assert(env.trace() =~= pre + packed(arr@, handles(args@.take(i + 1))));
        }
        i = i + 1;
    }
    proof {
        assert(args@.take(args.len() as int) =~= args@);
    }
    arr
}

impl Val {
    /// The owner of the reference behind `h`.
    pub(crate) fn wrap(h: Handle) -> (r: Val)
        ensures
            r@ == h,
    {
        Val { inner: h }
    }

    /// Hands a native value to the host and owns the reference that comes
    /// back.
    pub fn from<H: Host, T: IntoVal>(env: &mut Env<H>, value: T) -> (r: Val)
        ensures
            final(env).trace() == old(env).trace() + value.conversion(r@),
            value.yields(r@),
    {
        value.into_val(env)
    }

    /// The global object.
    pub fn global_this() -> (r: Val)
        ensures
            r@ == global_this_handle(),
    {
        Val { inner: EmlitePredefHandles::GlobalThis.handle() }
    }

    /// The host's `null`.
    pub fn null() -> (r: Val)
        ensures
            r@ == null_handle(),
    {
        Val { inner: EmlitePredefHandles::Null.handle() }
    }

    /// The host's `undefined`.
    pub fn undefined() -> (r: Val)
        ensures
            r@ == undefined_handle(),
    {
        Val { inner: EmlitePredefHandles::Undefined.handle() }
    }

    /// A new, empty host object.
    pub fn object<H: Host>(env: &mut Env<H>) -> (r: Val)
        ensures
            final(env).trace() == old(env).trace().push(HostCall::NewObject { ret: r@ }),
    {
        Val { inner: emlite_val_new_object(env) }
    }

    /// A new, empty host array.
    pub fn array<H: Host>(env: &mut Env<H>) -> (r: Val)
        ensures
            final(env).trace() == old(env).trace().push(HostCall::NewArray { ret: r@ }),
    {
        Val { inner: emlite_val_new_array(env) }
    }

    /// A second owner of the same host value: the host counts one reference
    /// more.
    pub fn clone<H: Host>(&self, env: &mut Env<H>) -> (r: Val)
        ensures
            r@ == self@,
            final(env).trace() == old(env).trace().push(HostCall::IncRef { h: self@ }),
    {
        emlite_val_inc_ref(env, self.inner);
        Val { inner: self.inner }
    }

    /// Ends this owner: the host counts one reference less. This is issued for
    /// every handle, the predefined ones included.
    pub fn drop<H: Host>(self, env: &mut Env<H>)
        ensures
            final(env).trace() == old(env).trace().push(HostCall::DecRef { h: self@ }),
    {
        emlite_val_dec_ref(env, self.inner);
    }

    /// Reads the property `prop`.
    pub fn get<H: Host, T: IntoVal>(&self, env: &mut Env<H>, prop: T) -> (r: Val)
        ensures
            ({
                let key = released(final(env).trace().last());
                &&& prop.yields(key)
                &&& final(env).trace() == old(env).trace() + prop.conversion(key) + seq![
                    HostCall::GetProp { obj: self@, key, ret: r@ },
                    HostCall::DecRef { h: key },
                ]
            }),
    {
        let key = prop.into_val(env);
        let h = emlite_val_get(env, self.inner, key.inner);
        key.drop(env);
        Val { inner: h }
    }

    /// The global named `name`.
    pub fn global<H: Host>(env: &mut Env<H>, name: &str) -> (r: Val)
        ensures
            final(env).trace() == old(env).trace() + global_lookup(
                name@,
                returned(final(env).trace()[old(env).trace().len() as int]),
                r@,
            ),
    {
        let this = Val::global_this();
        let r = this.get(env, name);
        this.drop(env);
        r
    }

    /// Calls the method `f` of this object with `args`.
    pub fn call<H: Host>(&self, env: &mut Env<H>, f: &str, args: &[Val]) -> (r: Val)
        ensures
            ({
                let argv = released(final(env).trace().last());
                final(env).trace() == old(env).trace() + packed(argv, handles(args@)) + seq![
                    HostCall::ObjCall { obj: self@, method: f@, argv, ret: r@ },
                    HostCall::DecRef { h: argv },
                ]
            }),
    {
        let arr = pack_args(env, args);
        let h = emlite_val_obj_call_unified(env, self.inner, f, arr.inner);
        arr.drop(env);
        Val { inner: h }
    }

    /// Calls this constructor with `args`.
    pub fn new<H: Host>(&self, env: &mut Env<H>, args: &[Val]) -> (r: Val)
        ensures
            ({
                let argv = released(final(env).trace().last());
                final(env).trace() == old(env).trace() + packed(argv, handles(args@)) + seq![
                    HostCall::ConstructNew { ctor: self@, argv, ret: r@ },
                    HostCall::DecRef { h: argv },
                ]
            }),
    {
        let arr = pack_args(env, args);
        let h = emlite_val_construct_new(env, self.inner, arr.inner);
        arr.drop(env);
        Val { inner: h }
    }

    /// Calls this function value with `args`.
    pub fn invoke<H: Host>(&self, env: &mut Env<H>, args: &[Val]) -> (r: Val)
        ensures
            ({
                let argv = released(final(env).trace().last());
                final(env).trace() == old(env).trace() + packed(argv, handles(args@)) + seq![
                    HostCall::FuncCall { func: self@, argv, ret: r@ },
                    HostCall::DecRef { h: argv },
                ]
            }),
    {
        let arr = pack_args(env, args);
        let h = emlite_val_func_call(env, self.inner, arr.inner);
        arr.drop(env);
        Val { inner: h }
    }

    /// Whether this value is an instance of the constructor `v`, whose
    /// reference is given up.
    pub fn instanceof<H: Host>(&self, env: &mut Env<H>, v: Val) -> (r: bool)
        ensures
            final(env).trace() == old(env).trace() + seq![
                HostCall::Instanceof { a: self@, b: v@, ret: r },
                HostCall::DecRef { h: v@ },
            ],
    {
        let r = emlite_val_instanceof(env, self.inner, v.inner);
        v.drop(env);
        r
    }

    /// Whether this value is a host number.
    pub fn is_number<H: Host>(&self, env: &mut Env<H>) -> (r: bool)
        ensures
            final(env).trace() == old(env).trace().push(HostCall::IsNumber { h: self@, ret: r }),
    {
        emlite_val_is_number(env, self.inner)
    }

    /// Whether this value is a host boolean.
    pub fn is_bool<H: Host>(&self, env: &mut Env<H>) -> (r: bool)
        ensures
            final(env).trace() == old(env).trace().push(HostCall::IsBool { h: self@, ret: r }),
    {
        emlite_val_is_bool(env, self.inner)
    }

    /// Whether this value is a host string.
    pub fn is_string<H: Host>(&self, env: &mut Env<H>) -> (r: bool)
        ensures
            final(env).trace() == old(env).trace().push(HostCall::IsString { h: self@, ret: r }),
    {
        emlite_val_is_string(env, self.inner)
    }

    /// Whether this value is the host's `null`.
    pub fn is_null(&self) -> (r: bool)
        ensures
            r == (self@ == null_handle()),
    {
        self.inner == EmlitePredefHandles::Null.handle()
    }

    /// Whether this value is the host's `undefined`.
    pub fn is_undefined(&self) -> (r: bool)
        ensures
            r == (self@ == undefined_handle()),
    {
        self.inner == EmlitePredefHandles::Undefined.handle()
    }

    /// Whether the host's error test holds on this value.
    pub fn is_error<H: Host>(&self, env: &mut Env<H>) -> (r: bool)
        ensures
            ({
                let n = old(env).trace().len() as int;
                let post = final(env).trace();
                post == old(env).trace() + instance_test(
                    self@,
                    "Error"@,
                    returned(post[n]),
                    returned(post[n + 1]),
                    r,
                )
            }),
    {
        let ctor = Val::global(env, "Error");
        self.instanceof(env, ctor)
    }

    /// Whether this value is a host function.
    pub fn is_function<H: Host>(&self, env: &mut Env<H>) -> (r: bool)
        ensures
            ({
                let n = old(env).trace().len() as int;
                let post = final(env).trace();
                post == old(env).trace() + instance_test(
                    self@,
                    "Function"@,
                    returned(post[n]),
                    returned(post[n + 1]),
                    r,
                )
            }),
    {
        let ctor = Val::global(env, "Function");
        self.instanceof(env, ctor)
    }

    /// Ends the owner `v`: the host counts one reference less, the one that
    /// `v` owned.
    pub fn delete<H: Host>(v: Val, env: &mut Env<H>)
        ensures
            final(env).trace() == old(env).trace().push(HostCall::DecRef { h: v@ }),
    {
        v.drop(env);
    }

    /// Raises `v` as a host exception. The host does not come back from this
    /// call; `v` is not given up.
    pub fn throw<H: Host>(v: Val, env: &mut Env<H>)
        ensures
            final(env).trace() == old(env).trace().push(HostCall::Throw { h: v@ }),
    {
        emlite_val_throw(env, v.inner);
    }

    /// Writes `val` to the property `prop`.
    pub fn set<H: Host, K: IntoVal, V: IntoVal>(&self, env: &mut Env<H>, prop: K, val: V)
        ensures
            ({
                let post = final(env).trace();
                let key = released(post.last());
                let value = released(post[post.len() - 2]);
                &&& prop.yields(key)
                &&& val.yields(value)
                &&& post == old(env).trace() + prop.conversion(key) + val.conversion(value) + seq![
                    HostCall::SetProp { obj: self@, key, v: value },
                    HostCall::DecRef { h: value },
                    HostCall::DecRef { h: key },
                ]
            }),
    {
        let key = prop.into_val(env);
        let value = val.into_val(env);
        emlite_val_set(env, self.inner, key.inner, value.inner);
        value.drop(env);
        key.drop(env);
    }

    /// Whether the property `prop` exists.
    pub fn has<H: Host, T: IntoVal>(&self, env: &mut Env<H>, prop: T) -> (r: bool)
        ensures
            ({
                let key = released(final(env).trace().last());
                &&& prop.yields(key)
                &&& final(env).trace() == old(env).trace() + prop.conversion(key) + seq![
                    HostCall::HasProp { obj: self@, key, ret: r },
                    HostCall::DecRef { h: key },
                ]
            }),
    {
        let key = prop.into_val(env);
        let r = emlite_val_has(env, self.inner, key.inner);
        key.drop(env);
        r
    }

    /// Whether this object has a property `prop` of its own.
    pub fn has_own_property<H: Host>(&self, env: &mut Env<H>, prop: &str) -> (r: bool)
        ensures
            final(env).trace() == old(env).trace().push(
                HostCall::ObjHasOwnProp { obj: self@, prop: prop@, ret: r },
            ),
    {
        emlite_val_obj_has_own_prop_unified(env, self.inner, prop)
    }

    /// The name of the host type of this value; `"undefined"` where the host
    /// has no name for it.
    pub fn type_of<H: Host>(&self, env: &mut Env<H>) -> (r: String)
        ensures
            final(env).trace().len() == old(env).trace().len() + 1,
            final(env).trace().drop_last() == old(env).trace(),
            final(env).trace().last() matches HostCall::Typeof { h: asked, ret }
                && asked == self@ && r@ == typeof_or_undefined(ret),
    {
        emlite_val_typeof_unified(env, self.inner)
    }

    /// The element at index `idx`.
    pub fn at<H: Host, T: IntoVal>(&self, env: &mut Env<H>, idx: T) -> (r: Val)
        ensures
            ({
                let key = released(final(env).trace().last());
                &&& idx.yields(key)
                &&& final(env).trace() == old(env).trace() + idx.conversion(key) + seq![
                    HostCall::GetProp { obj: self@, key, ret: r@ },
                    HostCall::DecRef { h: key },
                ]
            }),
    {
        self.get(env, idx)
    }

    /// Reads this value as `T`.
    pub fn as_<H: Host, T: FromVal>(&self, env: &mut Env<H>) -> (r: T)
        ensures
            T::from_val_spec(old(env).trace(), final(env).trace(), self@, r),
    {
        T::from_val(env, self)
    }

    /// The elements of this host array, each read as `V`. The host is asked
    /// for the length once, and then for each element in turn.
    pub fn to_vec<H: Host, V: FromVal>(&self, env: &mut Env<H>) -> (r: Vec<V>)
        ensures
            array_read(old(env).trace(), final(env).trace(), self@, r@),
    {
        let ghost pre = env.trace();
        let length = self.get(env, "length");
        let ghost key = returned(env.trace()[pre.len() as int]);
        let len: usize = length.as_(env);
        let ghost n: u64 = match env.trace().last() {
            HostCall::GetValueBiguint { ret, .. } => ret,
            _ => 0,
        };
        length.drop(env);
        let ghost mut traces: Seq<Seq<HostCall>> = seq![env.trace()];
        proof {
            assert(env.trace() =~= pre + length_read(self@, key, length@, n));
        }
        let mut out: Vec<V> = Vec::new();
        let mut i: usize = 0;
        while i < len
            invariant
                i <= len,
                out.len() == i,
                elements_read(self@, traces, out@),
                traces[0] == pre + length_read(self@, key, length@, n),
                traces.last() == env.trace(),
            decreases len - i,
        {
            let ghost mid = env.trace();
            let ghost before = out@;
            let ghost states = traces;
            let index =
            #[verifier::truncate]
            (i as i32);
            let elem = self.at(env, index);
            let ghost fetched = env.trace();
            let x: V = elem.as_(env);
            let ghost read = env.trace();
            elem.drop(env);
            out.push(x);
            proof {
                traces = traces.push(env.trace());
                let k = released(fetched.last());
                assert(fetched =~= mid + element_lookup(self@, index, k, elem@));
                assert(env.trace().drop_last() =~= read);
                assert(element_read(self@, i as int, mid, env.trace(), x));
                assert forall|j: int| 0 <= j < out@.len() implies element_read(
                    self@,
                    j,
                    traces[j],
                    traces[j + 1],
                    #[trigger] out@[j],
                ) by {
                    if j < i {
                        assert(element_read(self@, j, states[j], states[j + 1], before[j]));
                    }
                }
            }
            i = i + 1;
        }
        out
    }

    /// A new host array that holds the items of `slice`, each converted and
    /// appended through the array's `push` method.
    pub fn from_slice<H: Host, T: IntoVal + Copy>(env: &mut Env<H>, slice: &[T]) -> (r: Val)
        ensures
            ({
                let n = old(env).trace().len() as int;
                &&& final(env).trace().len() > n
                &&& final(env).trace().take(n + 1) == old(env).trace().push(
                    HostCall::NewArray { ret: r@ },
                )
                &&& items_pushed(r@, slice@, final(env).trace().skip(n + 1))
            }),
    {
        let ghost n = env.trace().len() as int;
        let arr = Val::array(env);
        let ghost start = env.trace();
        proof {
            assert(start.take(n + 1) =~= start);
            assert(slice@.take(0).len() == 0);
        }
        let mut i: usize = 0;
        while i < slice.len()
            invariant
                i <= slice.len(),
                start.len() == n + 1,
                env.trace().len() > n,
                env.trace().take(n + 1) == start,
                items_pushed(arr@, slice@.take(i as int), env.trace().skip(n + 1)),
            decreases slice.len() - i,
        {
            let ghost mid = env.trace();
            let item = slice[i].into_val(env);
            let mut args: Vec<Val> = Vec::new();
            let ghost item_handle = item@;
            args.push(item);
            proof {
                assert(handles(args@) =~= seq![item_handle]);
            }
            let ret = arr.call(env, "push", args.as_slice());
            let ghost ret_handle = ret@;
            ret.drop(env);
            match args.pop() {
                Some(item) => {
                    item.drop(env);
                },
                None => {},
            }
            proof {
                let post = env.trace();
                let calls = post.skip(n + 1);
                let m = calls.len() as int;
                let argv = released(post[post.len() - 3]);
                let last = slice@[i as int].conversion(item_handle) + item_push(
                    arr@,
                    item_handle,
                    argv,
                    ret_handle,
                );
                assert(post =~= mid + last);
                assert(calls =~= mid.skip(n + 1) + last);
                assert(calls.skip(m - last.len()) =~= last);
                assert(calls.take(m - last.len()) =~= mid.skip(n + 1));
                assert(slice@.take(i + 1).drop_last() =~= slice@.take(i as int));
                assert(slice@.take(i + 1).last() == slice@[i as int]);
                assert(post.take(n + 1) =~= mid.take(n + 1));
            }
            i = i + 1;
        }
        proof {
            assert(slice@.take(slice.len() as int) =~= slice@);
        }
        arr
    }

    /// A host string made from UTF-16 code units.
    pub fn from_utf16<H: Host>(env: &mut Env<H>, utf16: &[u16]) -> (r: Val)
        ensures
            final(env).trace() == old(env).trace().push(
                HostCall::MakeStrUtf16 { value: utf16@, ret: r@ },
            ),
    {
        Val { inner: emlite_val_make_str_utf16_unified(env, utf16) }
    }

    /// The UTF-16 code units of this host string; `None` for `null`,
    /// `undefined` and a null string pointer.
    pub fn to_utf16<H: Host>(&self, env: &mut Env<H>) -> (r: Option<Vec<u16>>)
        ensures
            units_read(old(env).trace(), final(env).trace(), self@, r, false),
    {
        self.as_(env)
    }

    /// The UTF-16 code units of this host string through the error channel.
    pub fn to_utf16_result<H: Host>(&self, env: &mut Env<H>) -> (r: Result<Vec<u16>, Val>)
        ensures
            units_result(old(env).trace(), final(env).trace(), self@, r, false),
    {
        self.as_(env)
    }

    /// Host strict equality of the two values.
    pub fn eq<H: Host>(&self, env: &mut Env<H>, other: &Val) -> (r: bool)
        ensures
            final(env).trace() == old(env).trace().push(
                HostCall::StrictlyEquals { a: self@, b: other@, ret: r },
            ),
    {
        emlite_val_strictly_equals(env, self.inner, other.inner)
    }

    /// Host logical negation of this value.
    pub fn not<H: Host>(&self, env: &mut Env<H>) -> (r: bool)
        ensures
            final(env).trace() == old(env).trace().push(HostCall::Not { h: self@, ret: r }),
    {
        emlite_val_not_unified(env, self.inner)
    }
}

/// A new host `Error` that carries `message`.
pub fn new_error<H: Host>(env: &mut Env<H>, message: &str) -> (r: Val)
    ensures
        final(env).trace() == old(env).trace() + error_construction_at(
            message@,
            final(env).trace(),
            old(env).trace().len() as int,
            r@,
        ),
{
    let ctor = Val::global(env, "Error");
    let text = message.into_val(env);
    let ghost text_handle = text@;
    let mut args: Vec<Val> = Vec::new();
    args.push(text);
    proof {
        assert(handles(args@) =~= seq![text_handle]);
    }
    let r = ctor.new(env, args.as_slice());
    match args.pop() {
        Some(text) => {
            text.drop(env);
        },
        None => {},
    }
    ctor.drop(env);
    r
}

impl FromVal for Val {
    open spec fn from_val_spec(pre: Seq<HostCall>, post: Seq<HostCall>, h: Handle, r: Self) -> bool {
        &&& r@ == h
        &&& post == pre.push(HostCall::IncRef { h })
    }

    open spec fn take_ownership_spec(pre: Seq<HostCall>, post: Seq<HostCall>, h: Handle, r: Self) -> bool {
        &&& r@ == h
        &&& post == pre
    }

    open spec fn handle_of(&self) -> Handle {
        self@
    }

    fn from_val<H: Host>(env: &mut Env<H>, v: &Val) -> (r: Self) {
        emlite_val_inc_ref(env, v.inner);
        Val { inner: v.inner }
    }

    fn take_ownership<H: Host>(env: &mut Env<H>, v: Handle) -> (r: Self) {
        Val { inner: v }
    }

    fn as_handle(&self) -> (h: Handle) {
        self.inner
    }
}

} // verus!

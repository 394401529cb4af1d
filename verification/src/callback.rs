//! The callback bridge: guest closures that the host can call, the table that
//! gives each of them a small integer index, and the one entry point through
//! which the host reaches them.

use vstd::prelude::*;
use crate::common::Handle;
use crate::convert::{FromVal, IntoVal};
use crate::env::{
    Env, emlite_val_dec_ref, emlite_val_inc_ref, emlite_val_make_biguint, emlite_val_make_callback,
};
use crate::host::{Host, HostCall, returned};
use crate::predef::{EmlitePredefHandles, is_predefined, null_handle, undefined_handle};
use crate::refcount::{held, lemma_held_push};
use crate::val::{Val, array_read, handles};

verus! {

/// One call that a trampoline has answered: the argument array and the data
/// handle that it was called with, and the handle that it answered with.
pub struct Invocation {
    pub argv: Handle,
    pub data: Handle,
    pub result: Handle,
}

/// The calls that a trampoline has answered, oldest first.
pub type TrampolineLog = Seq<Invocation>;

/// The calls that a closure has answered, oldest first: for each, the handles
/// of the values that it was called with and the handle of the value that it
/// answered with.
pub type CallbackLog = Seq<(Seq<Handle>, Handle)>;

/// A fixed-signature entry that the host reaches through the callback table:
/// it gets the handle of the argument array and the opaque data handle that
/// it was registered with, and answers with the handle of its result.
pub trait Trampoline<H: Host> {
    /// The calls that this trampoline has answered so far. An implementation
    /// outside verified code writes the function down with a body that is
    /// never run.
    spec fn log(&self) -> TrampolineLog;

    /// Answers one call from the host. An argument array of zero never
    /// arrives here: it is the host's signal to tear the slot down.
    fn invoke(&mut self, env: &mut Env<H>, argv: Handle, data: Handle) -> (r: Handle)
        ensures
            final(self).log() == old(self).log().push(Invocation { argv, data, result: r }),
    ;
}

/// A guest closure that the host can call with a sequence of values.
pub trait Callback<H: Host> {
    /// The calls that this closure has answered so far. An implementation
    /// outside verified code writes the function down with a body that is
    /// never run.
    spec fn log(&self) -> CallbackLog;

    /// Answers one call with the values that the host passed. The arguments
    /// stay with the caller; the result is handed to the host. Whatever is
    /// asked of the host on the way is added to the record of the calls; what
    /// was recorded before stays.
    fn call(&mut self, env: &mut Env<H>, args: &[Val]) -> (r: Val)
        ensures
            old(env).trace().is_prefix_of(final(env).trace()),
            final(self).log() == old(self).log().push((handles(args@), r@)),
    ;
}

/// What a slot of the callback table holds: what the slot calls, and the
/// opaque data handle, on which the guest keeps one reference for as long as
/// the slot is taken. A slot calls either a trampoline, which stands first,
/// or a closure, which is called through [`shim`]. A slot that holds neither
/// is taken but answers every call with `undefined`.
pub type CallbackPack<H> = (Option<Box<dyn Trampoline<H>>>, Option<Box<dyn Callback<H>>>, Handle);

/// The calls that end one invocation of a closure: the result, the arguments
/// in order, and the argument array are given up.
pub open spec fn call_release(result: Handle, args: Seq<Handle>, argv: Handle) -> Seq<HostCall> {
    seq![HostCall::DecRef { h: result }] + args.map_values(|h: Handle| HostCall::DecRef { h })
        + seq![HostCall::DecRef { h: argv }]
}

/// Whether the calls of `tail` are the last ones of `trace`.
pub open spec fn ends_with(trace: Seq<HostCall>, tail: Seq<HostCall>) -> bool {
    tail.len() <= trace.len() && trace.skip(trace.len() - tail.len()) =~= tail
}

/// Whether one invocation through [`shim`] took the log of the closure from
/// `before` to `after` and the trace from `pre` to `post`, and answered with
/// `r`: the argument array `argv` was turned into values, the closure was
/// called once with exactly those values, `r` is the handle of what it
/// returned, and the trace ends with the release of that result, of the
/// values, and of `argv`.
pub open spec fn closure_called(
    pre: Seq<HostCall>,
    post: Seq<HostCall>,
    argv: Handle,
    before: Seq<(Seq<Handle>, Handle)>,
    after: Seq<(Seq<Handle>, Handle)>,
    r: Handle,
) -> bool {
    let args = after.last().0;
    let release = call_release(r, args, argv);
    &&& after == before.push((args, r))
    &&& ends_with(post, release)
    &&& exists|vals: Seq<Val>, mid: Seq<HostCall>|
        #![trigger array_read(pre, mid, argv, vals)]
        {
            &&& array_read(pre, mid, argv, vals)
            &&& handles(vals) == args
            &&& mid.is_prefix_of(post.take(post.len() - release.len()))
        }
}

/// Turns the host array behind `argv` into the values that a closure is
/// called with. Each element is fetched, given a reference of its own, and
/// the fetched reference is given up.
pub fn decode_args<H: Host>(env: &mut Env<H>, argv: &Val) -> (args: Vec<Val>)
    ensures
        array_read(old(env).trace(), final(env).trace(), argv@, args@),
{
    argv.to_vec(env)
}

/// Ends one invocation of a closure: gives up the result, the arguments in
/// order, and the argument array, and answers with the handle of the result.
pub fn finish_call<H: Host>(env: &mut Env<H>, result: Val, args: Vec<Val>, argv: Val) -> (r: Handle)
    ensures
        r == result@,
        final(env).trace() == old(env).trace() + call_release(result@, handles(args@), argv@),
{
    let ghost pre = env.trace();
    let r = result.as_handle();
    result.drop(env);
    let mut i: usize = 0;
    while i < args.len()
        invariant
            i <= args.len(),
            env.trace() == pre.push(HostCall::DecRef { h: r }) + handles(args@.take(i as int)).map_values(
                |h: Handle| HostCall::DecRef { h },
            ),
        decreases args.len() - i,
    {
        emlite_val_dec_ref(env, args[i].as_handle());
        proof {
            assert(handles(args@.take(i + 1)) =~= handles(args@.take(i as int)).push(args@[i as int]@));
            assert(env.trace() =~= pre.push(HostCall::DecRef { h: r }) + handles(
                args@.take(i + 1),
            ).map_values(|h: Handle| HostCall::DecRef { h }));
        }
        i = i + 1;
    }
    argv.drop(env);
    proof {
        assert(args@.take(args.len() as int) =~= args@);
        assert(env.trace() =~= pre + call_release(r, handles(args@), argv@));
    }
    r
}

/// The shim in front of a guest closure: one call from the host becomes one
/// call of the closure. The argument array is turned into values, the closure
/// is called with them, and the handle of its result is answered, after the
/// result, the values and the argument array have been given up.
pub fn shim<H: Host>(closure: &mut Box<dyn Callback<H>>, env: &mut Env<H>, argv: Handle) -> (r: Handle)
    ensures
        closure_called(
            old(env).trace(),
            final(env).trace(),
            argv,
            old(closure).log(),
            final(closure).log(),
            r,
        ),
{
    let ghost pre = env.trace();
    let v = Val::take_ownership(env, argv);
    let vals: Vec<Val> = decode_args(env, &v);
    let ghost mid = env.trace();
    let ghost decoded = vals@;
    let result = closure.call(env, vals.as_slice());
    let ghost called = env.trace();
    let r = finish_call(env, result, vals, v);
    proof {
        let args = handles(decoded);
        let release = call_release(r, args, argv);
        let post = env.trace();
        assert(closure.log().last().0 == args);
        assert(post.skip(post.len() - release.len()) =~= release);
        assert(post.take(post.len() - release.len()) =~= called);
        assert(array_read(pre, mid, argv, decoded));
    }
    r
}

/// The index-addressed callback table. A slot is free when it holds nothing;
/// a registration takes the first free slot, or a new one at the end.
#[verifier::reject_recursive_types(H)]
pub struct CallbackRegistry<H: Host> {
    slots: Vec<Option<CallbackPack<H>>>,
}

/// Whether `i` is the index that the next registration takes: every slot below
/// it is taken, and it is free or one past the end.
pub open spec fn is_first_free<T>(slots: Seq<Option<T>>, i: int) -> bool {
    &&& 0 <= i <= slots.len()
    &&& forall|j: int| 0 <= j < i ==> (#[trigger] slots[j]) is Some
    &&& i < slots.len() ==> slots[i] is None
}

/// The index that the next registration takes, searching from `from` on.
pub open spec fn first_free_from<T>(slots: Seq<Option<T>>, from: int) -> int
    decreases slots.len() - from,
{
    if from >= slots.len() {
        slots.len() as int
    } else if slots[from] is None {
        from
    } else {
        first_free_from(slots, from + 1)
    }
}

/// The index that the next registration takes.
pub open spec fn first_free<T>(slots: Seq<Option<T>>) -> int {
    first_free_from(slots, 0)
}

/// `first_free` is the one index for which `is_first_free` holds.
pub proof fn lemma_first_free<T>(slots: Seq<Option<T>>)
    ensures
        is_first_free(slots, first_free(slots)),
        forall|i: int| is_first_free(slots, i) ==> i == first_free(slots),
{
    lemma_first_free_from(slots, 0);
    assert forall|i: int| is_first_free(slots, i) implies i == first_free(slots) by {
        let f = first_free(slots);
        if i < f {
            assert(slots[i] is Some);
        } else if f < i {
            assert(slots[f] is Some);
        }
    }
}

proof fn lemma_first_free_from<T>(slots: Seq<Option<T>>, from: int)
    requires
        0 <= from <= slots.len(),
        forall|j: int| 0 <= j < from ==> (#[trigger] slots[j]) is Some,
    ensures
        is_first_free(slots, first_free_from(slots, from)),
    decreases slots.len() - from,
{
    if from < slots.len() && slots[from] is Some {
        lemma_first_free_from(slots, from + 1);
    }
}

/// The table after `pack` has taken the slot `idx`.
pub open spec fn claimed<T>(slots: Seq<Option<T>>, idx: int, pack: T) -> Seq<Option<T>> {
    if idx < slots.len() {
        slots.update(idx, Some(pack))
    } else {
        slots.push(Some(pack))
    }
}

/// Whether `after` is `before` with the slot `idx` newly taken: the slot holds
/// something, the table has grown by at most that slot, and every other slot
/// is as it was.
pub open spec fn took_slot<T>(before: Seq<Option<T>>, after: Seq<Option<T>>, idx: int) -> bool {
    &&& 0 <= idx <= before.len()
    &&& after.len() == if idx < before.len() {
        before.len()
    } else {
        before.len() + 1
    }
    &&& after[idx] is Some
    &&& forall|j: int| 0 <= j < before.len() && j != idx ==> after[j] == before[j]
}

/// Whether the slot `idx` of the table is taken.
pub open spec fn is_taken<T>(slots: Seq<Option<T>>, idx: int) -> bool {
    0 <= idx < slots.len() && slots[idx] is Some
}

/// What the entry point does with a call from the host.
pub enum Dispatch {
    /// Nothing is registered under the index: the call is answered with
    /// `undefined` and nothing else happens.
    Missing,
    /// The host will never call this slot again: it is torn down.
    Finalize,
    /// The call is handed on to what the slot calls.
    Invoke,
}

/// What the entry point does with a call for the slot `fidx` with the argument
/// array `argv`. An argument array of zero is the host's signal that the
/// function value was collected.
pub open spec fn dispatch<T>(slots: Seq<Option<T>>, fidx: Handle, argv: Handle) -> Dispatch {
    if !is_taken(slots, fidx as int) {
        Dispatch::Missing
    } else if argv == 0 {
        Dispatch::Finalize
    } else {
        Dispatch::Invoke
    }
}

impl<H: Host> View for CallbackRegistry<H> {
    type V = Seq<Option<CallbackPack<H>>>;

    closed spec fn view(&self) -> Seq<Option<CallbackPack<H>>> {
        self.slots@
    }
}

impl<H: Host> CallbackRegistry<H> {
    /// A table without slots.
    pub fn new() -> (r: Self)
        ensures
            r@ == Seq::<Option<CallbackPack<H>>>::empty(),
    {
        CallbackRegistry { slots: Vec::new() }
    }

    /// The number of slots, free ones included.
    pub fn len(&self) -> (n: usize)
        ensures
            n == self@.len(),
    {
        self.slots.len()
    }

    /// Whether the slot `idx` is taken.
    pub fn is_registered(&self, idx: Handle) -> (r: bool)
        ensures
            r == is_taken(self@, idx as int),
    {
        let i = idx as usize;
        i < self.slots.len() && self.slots[i].is_some()
    }

    /// The index that the next registration takes: the first free slot, found
    /// by a scan from the start, or one past the end.
    pub fn first_free(&self) -> (i: usize)
        ensures
            i == first_free(self@),
    {
        let mut i: usize = 0;
        while i < self.slots.len() && self.slots[i].is_some()
            invariant
                i <= self.slots.len(),
                first_free_from(self@, i as int) == first_free(self@),
            decreases self.slots.len() - i,
        {
            i = i + 1;
        }
        i
    }

    /// Registers `pack` in the first free slot and answers with its index.
    /// Where that index does not fit a handle, nothing is registered.
    pub fn register(&mut self, pack: CallbackPack<H>) -> (r: Option<Handle>)
        ensures
            match r {
                Some(idx) => {
                    &&& idx == first_free(old(self)@)
                    &&& final(self)@ == claimed(old(self)@, idx as int, pack)
                    &&& took_slot(old(self)@, final(self)@, idx as int)
                    &&& final(self)@[idx as int] == Some(pack)
                },
                None => first_free(old(self)@) > u32::MAX && final(self)@ == old(self)@,
            },
    {
        proof {
            lemma_first_free(old(self)@);
        }
        let i = self.first_free();
        if i > u32::MAX as usize {
            return None;
        }
        if i < self.slots.len() {
            self.slots[i] = Some(pack);
        } else {
            self.slots.push(Some(pack));
        }
        Some(i as u32)
    }

    /// Takes what the slot `idx` calls out of the table for the time of one
    /// call. The slot stays taken and keeps its data handle, but calls
    /// nothing until [`checkin`](Self::checkin) brings back what was taken:
    /// the table is free for calls and registrations that are made from
    /// within the call.
    pub fn checkout(&mut self, idx: Handle) -> (r: Option<CallbackPack<H>>)
        ensures
            is_taken(old(self)@, idx as int) ==> r == old(self)@[idx as int] && final(self)@ == old(
                self,
            )@.update(idx as int, Some(vacated(old(self)@[idx as int]->0))),
            !is_taken(old(self)@, idx as int) ==> r is None && final(self)@ == old(self)@,
    {
        let i = idx as usize;
        if i >= self.slots.len() {
            return None;
        }
        match self.slots[i].take() {
            None => {
                proof {
                    assert(self.slots@ =~= old(self)@);
                }
                None
            },
            Some(pack) => {
                let trampoline: Option<Box<dyn Trampoline<H>>> = None;
                let closure: Option<Box<dyn Callback<H>>> = None;
                let data = pack.2;
                let vacant = (trampoline, closure, data);
                self.slots[i] = Some(vacant);
                proof {
                    assert(self.slots@ =~= old(self)@.update(idx as int, Some(vacant)));
                }
                Some(pack)
            },
        }
    }

    /// Brings back what [`checkout`](Self::checkout) took out of the slot
    /// `idx`. Where the slot was torn down or taken anew in the meantime,
    /// what comes back is freed instead.
    pub fn checkin(&mut self, idx: Handle, pack: CallbackPack<H>)
        ensures
            final(self)@ == checked_in(old(self)@, idx as int, pack),
    {
        let i = idx as usize;
        if i >= self.slots.len() {
            return ;
        }
        let fits = match &self.slots[i] {
            None => false,
            Some(slot) => slot.0.is_none() && slot.1.is_none() && slot.2 == pack.2,
        };
        if fits {
            self.slots[i] = Some(pack);
        }
    }

    /// Frees the slot `idx` and hands back what it held. The index may be
    /// taken again by a later registration. No reference is given up here:
    /// the pin on the data handle goes with the pack to the caller.
    pub fn unregister(&mut self, idx: Handle) -> (r: Option<CallbackPack<H>>)
        ensures
            is_taken(old(self)@, idx as int) ==> r == old(self)@[idx as int] && final(self)@ == old(
                self,
            )@.update(idx as int, None),
            !is_taken(old(self)@, idx as int) ==> r is None && final(self)@ == old(self)@,
    {
        let i = idx as usize;
        if i < self.slots.len() {
            let r = self.slots[i].take();
            proof {
                assert(self.slots@ =~= old(self)@.update(idx as int, None));
                if !is_taken(old(self)@, idx as int) {
                    assert(self.slots@ =~= old(self)@);
                }
            }
            r
        } else {
            None
        }
    }
}

/// Registers `pack` in the first free slot of the callback table and answers
/// with the index of the slot. Where that index does not fit a handle, nothing
/// is registered.
pub fn emlite_register_callback_unified<H: Host>(
    registry: &mut CallbackRegistry<H>,
    pack: CallbackPack<H>,
) -> (r: Option<Handle>)
    ensures
        match r {
            Some(idx) => {
                &&& idx == first_free(old(registry)@)
                &&& took_slot(old(registry)@, final(registry)@, idx as int)
                &&& final(registry)@[idx as int] == Some(pack)
            },
            None => first_free(old(registry)@) > u32::MAX && final(registry)@ == old(registry)@,
        },
{
    registry.register(pack)
}

/// Registers a trampoline that needs no data handle: it is called with the
/// handle of `undefined` as its data. With no trampoline the slot is taken
/// all the same, and answers every call with `undefined`.
pub fn emlite_register_callback<H: Host>(
    registry: &mut CallbackRegistry<H>,
    callback: Option<Box<dyn Trampoline<H>>>,
) -> (r: Option<Handle>)
    ensures
        match r {
            Some(idx) => {
                &&& idx == first_free(old(registry)@)
                &&& took_slot(old(registry)@, final(registry)@, idx as int)
                &&& final(registry)@[idx as int] == Some(
                    (callback, None::<Box<dyn Callback<H>>>, undefined_handle()),
                )
            },
            None => first_free(old(registry)@) > u32::MAX && final(registry)@ == old(registry)@,
        },
{
    let closure: Option<Box<dyn Callback<H>>> = None;
    let data = EmlitePredefHandles::Undefined.handle();
    let pack = (callback, closure, data);
    registry.register(pack)
}

/// Whether one call with a non-zero argument array took the pack of a slot
/// from `before` to `after` and the trace from `pre` to `post`, and was
/// answered with `r`. The data handle stays. A trampoline is invoked once with
/// the argument array and the data handle of the slot, and `r` is its answer.
/// A closure is called once through [`shim`]. A slot that holds neither is
/// answered with `undefined`, and nothing happens.
pub open spec fn invoked<H: Host>(
    pre: Seq<HostCall>,
    post: Seq<HostCall>,
    argv: Handle,
    before: CallbackPack<H>,
    after: CallbackPack<H>,
    r: Handle,
) -> bool {
    &&& after.2 == before.2
    &&& match before.0 {
        Some(t) => {
            &&& after.0 is Some
            &&& after.0->0.log() == t.log().push(Invocation { argv, data: before.2, result: r })
            &&& after.1 == before.1
        },
        None => {
            &&& after.0 is None
            &&& match before.1 {
                Some(c) => after.1 is Some && closure_called(
                    pre,
                    post,
                    argv,
                    c.log(),
                    after.1->0.log(),
                    r,
                ),
                None => after.1 is None && r == undefined_handle() && post == pre,
            }
        },
    }
}

/// Hands one call with the argument array `argv` on to what `pack` calls, and
/// answers with its answer.
pub fn invoke_pack<H: Host>(pack: &mut CallbackPack<H>, env: &mut Env<H>, argv: Handle) -> (r: Handle)
    ensures
        invoked(old(env).trace(), final(env).trace(), argv, *old(pack), *final(pack), r),
{
    let user_data = pack.2;
    match &mut pack.0 {
        Some(trampoline) => trampoline.invoke(env, argv, user_data),
        None => match &mut pack.1 {
            Some(closure) => shim(closure, env, argv),
            None => EmlitePredefHandles::Undefined.handle(),
        },
    }
}

/// The pack that stands in a slot while what the slot calls is out of the
/// table: it calls nothing, and keeps the data handle.
pub open spec fn vacated<H: Host>(pack: CallbackPack<H>) -> CallbackPack<H> {
    (None, None, pack.2)
}

/// Whether `pack` calls nothing.
pub open spec fn is_vacant<H: Host>(pack: CallbackPack<H>) -> bool {
    pack.0 is None && pack.1 is None
}

/// What `checkin` leaves in the table: what came back is put into the slot
/// again where the slot is still taken, still calls nothing, and still has
/// the data handle of what came back; any other slot is left as it is.
pub open spec fn checked_in<H: Host>(
    slots: Seq<Option<CallbackPack<H>>>,
    idx: int,
    pack: CallbackPack<H>,
) -> Seq<Option<CallbackPack<H>>> {
    if is_taken(slots, idx) && is_vacant(slots[idx]->0) && (slots[idx]->0).2 == pack.2 {
        slots.update(idx, Some(pack))
    } else {
        slots
    }
}

/// The guest's one entry point for calls from the host.
///
/// A call for a slot that holds nothing is answered with `undefined`. A call
/// with an argument array of zero tears the slot down, in this order: the
/// reference to the data handle is given up, the slot is freed together with
/// what it calls, and the reference to `data`, the handle through which the
/// host named the callback, is given up. Any other call is handed on, exactly
/// once, to what the slot calls, and answered with its answer; the slot stays
/// registered.
pub fn emlite_env_dyncall_apply<H: Host>(
    registry: &mut CallbackRegistry<H>,
    env: &mut Env<H>,
    fidx: Handle,
    argv: Handle,
    data: Handle,
) -> (r: Handle)
    ensures
        match dispatch(old(registry)@, fidx, argv) {
            Dispatch::Missing => {
                &&& r == undefined_handle()
                &&& final(registry)@ == old(registry)@
                &&& final(env).trace() == old(env).trace()
            },
            Dispatch::Finalize => {
                &&& r == null_handle()
                &&& final(registry)@ == old(registry)@.update(fidx as int, None)
                &&& final(env).trace() == old(env).trace().push(
                    HostCall::DecRef { h: (old(registry)@[fidx as int]->0).2 },
                ).push(HostCall::DecRef { h: data })
            },
            Dispatch::Invoke => {
                &&& final(registry)@.len() == old(registry)@.len()
                &&& is_taken(final(registry)@, fidx as int)
                &&& invoked(
                    old(env).trace(),
                    final(env).trace(),
                    argv,
                    old(registry)@[fidx as int]->0,
                    final(registry)@[fidx as int]->0,
                    r,
                )
                &&& forall|j: int|
                    0 <= j < old(registry)@.len() && j != fidx ==> final(registry)@[j] == old(
                        registry,
                    )@[j]
            },
        },
{
    let i = fidx as usize;
    if i >= registry.slots.len() {
        return EmlitePredefHandles::Undefined.handle();
    }
    if argv == 0 {
        match registry.slots[i].take() {
            None => {
                proof {
                    assert(registry.slots@ =~= old(registry)@);
                }
                EmlitePredefHandles::Undefined.handle()
            },
            Some(pack) => {
                proof {
                    assert(registry.slots@ =~= old(registry)@.update(fidx as int, None));
                }
                release_pack(env, pack);
                emlite_val_dec_ref(env, data);
                EmlitePredefHandles::Null.handle()
            },
        }
    } else {
        match &mut registry.slots[i] {
            None => EmlitePredefHandles::Undefined.handle(),
            Some(pack) => invoke_pack(pack, env, argv),
        }
    }
}

/// Gives up the reference to the data handle of `pack`, then frees the pack
/// and what it calls.
fn release_pack<H: Host>(env: &mut Env<H>, pack: CallbackPack<H>)
    ensures
        final(env).trace() == old(env).trace().push(HostCall::DecRef { h: pack.2 }),
{
    emlite_val_dec_ref(env, pack.2);
}

/// Once a slot has been torn down, every later call for it is answered as for
/// a slot that never held anything, whatever the argument array.
pub proof fn lemma_finalized_slot_is_missing<T>(slots: Seq<Option<T>>, fidx: Handle, argv: Handle)
    requires
        dispatch(slots, fidx, 0) is Finalize,
    ensures
        dispatch(slots.update(fidx as int, None), fidx, argv) is Missing,
{
}

/// A slot that is taken answers every call with a non-zero argument array by
/// invoking its closure, and does so again after any number of such calls,
/// since an invocation leaves the slot taken.
pub proof fn lemma_taken_slot_is_invoked<T>(slots: Seq<Option<T>>, fidx: Handle, argv: Handle)
    requires
        is_taken(slots, fidx as int),
        argv != 0,
    ensures
        dispatch(slots, fidx, argv) is Invoke,
{
}

/// A slot that was registered and then freed is the one that the next
/// registration takes, unless a slot below it is free; and after that
/// registration the slot holds the new pack, not the old one.
pub proof fn lemma_slot_reuse<T>(slots: Seq<Option<T>>, idx: int, a: T, b: T)
    requires
        is_first_free(slots, idx),
    ensures
        ({
            let registered = claimed(slots, idx, a);
            let freed = registered.update(idx, None);
            &&& registered[idx] == Some(a)
            &&& first_free(freed) == idx
            &&& claimed(freed, idx, b)[idx] == Some(b)
            &&& claimed(freed, idx, b).len() == registered.len()
        }),
{
    let registered = claimed(slots, idx, a);
    let freed = registered.update(idx, None);
    assert(is_first_free(freed, idx)) by {
        assert forall|j: int| 0 <= j < idx implies (#[trigger] freed[j]) is Some by {
            assert(slots[j] is Some);
        }
    }
    lemma_first_free(freed);
}

/// What was taken out of a slot comes back into it: after `checkout` of the
/// taken slot `idx`, a `checkin` of a pack with the slot's data handle leaves
/// the table as it was, but for that pack in the slot. So a call that goes
/// through `checkout`, [`invoke_pack`] and `checkin` leaves the table as the
/// same call through the entry point does.
pub proof fn lemma_checkout_then_checkin<H: Host>(
    slots: Seq<Option<CallbackPack<H>>>,
    idx: int,
    back: CallbackPack<H>,
)
    requires
        is_taken(slots, idx),
        back.2 == (slots[idx]->0).2,
    ensures
        checked_in(slots.update(idx, Some(vacated(slots[idx]->0))), idx, back) == slots.update(
            idx,
            Some(back),
        ),
        is_taken(slots.update(idx, Some(vacated(slots[idx]->0))), idx),
{
    let out = slots.update(idx, Some(vacated(slots[idx]->0)));
    assert(out.update(idx, Some(back)) =~= slots.update(idx, Some(back)));
}

/// The life of an exposed closure leaves no reference behind but the one to
/// the function value: what `make_fn` says to the host for the slot `idx`,
/// followed by what the teardown of that slot says once the host passes the
/// token back, holds nothing on the data handle and nothing on the token.
pub proof fn lemma_exposed_closure_is_released(
    idx: u32,
    data: Handle,
    token: Handle,
    made: Handle,
    h: Handle,
)
    ensures
        held(
            seq![HostCall::MakeUint { value: idx, ret: data }] + exposure(data, idx, token, made)
                + seq![
                HostCall::DecRef { h: data },
                HostCall::DecRef { h: data },
                HostCall::DecRef { h: token },
            ],
            h,
        ) == if h == made && !is_predefined(h) {
            1int
        } else {
            0int
        },
{
    let t0 = Seq::<HostCall>::empty();
    let t1 = t0.push(HostCall::MakeUint { value: idx, ret: data });
    let t2 = t1.push(HostCall::IncRef { h: data });
    let t3 = t2.push(HostCall::MakeBiguint { value: idx as u64, ret: token });
    let t4 = t3.push(HostCall::MakeCallback { fidx: idx, data: token, ret: made });
    let t5 = t4.push(HostCall::DecRef { h: data });
    let t6 = t5.push(HostCall::DecRef { h: data });
    let t7 = t6.push(HostCall::DecRef { h: token });
    lemma_held_push(t0, HostCall::MakeUint { value: idx, ret: data }, h);
    lemma_held_push(t1, HostCall::IncRef { h: data }, h);
    lemma_held_push(t2, HostCall::MakeBiguint { value: idx as u64, ret: token }, h);
    lemma_held_push(t3, HostCall::MakeCallback { fidx: idx, data: token, ret: made }, h);
    lemma_held_push(t4, HostCall::DecRef { h: data }, h);
    lemma_held_push(t5, HostCall::DecRef { h: data }, h);
    lemma_held_push(t6, HostCall::DecRef { h: token }, h);
    assert(t7 =~= seq![HostCall::MakeUint { value: idx, ret: data }] + exposure(
        data,
        idx,
        token,
        made,
    ) + seq![
        HostCall::DecRef { h: data },
        HostCall::DecRef { h: data },
        HostCall::DecRef { h: token },
    ]);
}

/// The calls that expose a registered trampoline to the host: the data handle
/// is pinned, the slot index is made into a host big integer `token`, and the
/// host makes the function value `made` from the index and the token.
pub open spec fn exposure(data: Handle, idx: Handle, token: Handle, made: Handle) -> Seq<HostCall> {
    seq![
        HostCall::IncRef { h: data },
        HostCall::MakeBiguint { value: idx as u64, ret: token },
        HostCall::MakeCallback { fidx: idx, data: token, ret: made },
    ]
}

/// Registers `pack` and exposes its slot to the host as a function value.
/// The data handle is pinned only once the slot is claimed. Where the table
/// has no slot left, nothing is said to the host and the result is
/// `undefined`.
fn expose<H: Host>(registry: &mut CallbackRegistry<H>, env: &mut Env<H>, pack: CallbackPack<H>) -> (r: Val)
    ensures
        ({
            let idx = first_free(old(registry)@);
            let n = old(env).trace().len() as int;
            if idx <= u32::MAX {
                &&& took_slot(old(registry)@, final(registry)@, idx)
                &&& final(registry)@[idx] == Some(pack)
                &&& final(env).trace() == old(env).trace() + exposure(
                    pack.2,
                    idx as u32,
                    returned(final(env).trace()[n + 1]),
                    r@,
                )
            } else {
                &&& final(registry)@ == old(registry)@
                &&& final(env).trace() == old(env).trace()
                &&& r@ == undefined_handle()
            }
        }),
{
    let data = pack.2;
    match registry.register(pack) {
        None => Val::undefined(),
        Some(idx) => {
            emlite_val_inc_ref(env, data);
            let token = emlite_val_make_biguint(env, idx as u64);
            let made = emlite_val_make_callback(env, idx, token);
            Val::take_ownership(env, made)
        },
    }
}

impl Val {
    /// Exposes what `pack` calls to the host as a function value. The data
    /// handle of the pack is the opaque handle that a trampoline is called
    /// with; the guest pins it, once the slot is claimed, until the host
    /// signals that the function value was collected. Where the callback
    /// table has no slot left, nothing is pinned, nothing is said to the
    /// host, and the result is `undefined`.
    pub fn make_fn_raw<H: Host>(
        registry: &mut CallbackRegistry<H>,
        env: &mut Env<H>,
        pack: CallbackPack<H>,
    ) -> (r: Val)
        ensures
            ({
                let idx = first_free(old(registry)@);
                let n = old(env).trace().len() as int;
                if idx <= u32::MAX {
                    &&& took_slot(old(registry)@, final(registry)@, idx)
                    &&& final(registry)@[idx] == Some(pack)
                    &&& final(env).trace() == old(env).trace() + exposure(
                        pack.2,
                        idx as u32,
                        returned(final(env).trace()[n + 1]),
                        r@,
                    )
                } else {
                    &&& final(registry)@ == old(registry)@
                    &&& final(env).trace() == old(env).trace()
                    &&& r@ == undefined_handle()
                }
            }),
    {
        expose(registry, env, pack)
    }

    /// Exposes `closure` to the host as a function value: the slot holds the
    /// closure itself, which the entry point calls through [`shim`]. The
    /// closure is named towards the host by the index of the slot that it
    /// takes: that index, made into a host number, is the data handle of the
    /// slot. Where the callback table has no slot left, that number is given
    /// up again and the result is `undefined`. With no closure the function
    /// value is made all the same, and every call of it is answered with
    /// `undefined`.
    pub fn make_fn<H: Host>(
        registry: &mut CallbackRegistry<H>,
        env: &mut Env<H>,
        closure: Option<Box<dyn Callback<H>>>,
    ) -> (r: Val)
        ensures
            ({
                let idx = first_free(old(registry)@);
                let n = old(env).trace().len() as int;
                let post = final(env).trace();
                let data = returned(post[n]);
                let made = old(env).trace().push(HostCall::MakeUint { value: idx as u32, ret: data });
                if idx <= u32::MAX {
                    &&& took_slot(old(registry)@, final(registry)@, idx)
                    &&& final(registry)@[idx] == Some((None::<Box<dyn Trampoline<H>>>, closure, data))
                    &&& post == (made + exposure(data, idx as u32, returned(post[n + 2]), r@)).push(
                        HostCall::DecRef { h: data },
                    )
                } else {
                    &&& final(registry)@ == old(registry)@
                    &&& post == made.push(HostCall::DecRef { h: data })
                    &&& r@ == undefined_handle()
                }
            }),
    {
        let idx = registry.first_free();
        let token =
        #[verifier::truncate]
        (idx as u32);
        let data = token.into_val(env);
        let trampoline: Option<Box<dyn Trampoline<H>>> = None;
        let handle = data.as_handle();
        let pack = (trampoline, closure, handle);
        let r = expose(registry, env, pack);
        data.drop(env);
        r
    }
}

} // verus!

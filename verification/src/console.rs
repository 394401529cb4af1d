//! The host's console.

use vstd::prelude::*;
use crate::common::Handle;
use crate::convert::{FromVal, IntoVal};
use crate::env::Env;
use crate::host::{Host, HostCall, released};
use crate::predef::EmlitePredefHandles;
use crate::val::{Val, handles, packed};

verus! {

/// The console-like object of the host, which lives at a fixed handle.
#[derive(Debug)]
pub struct Console {
    val: Val,
}

impl View for Console {
    type V = Handle;

    closed spec fn view(&self) -> Handle {
        self.val@
    }
}

/// The calls that call the method `method` of the object behind `obj` with the
/// values behind `args` and give the result up at once. The handles of the
/// argument array and of the result are those that stand at the end of `post`.
pub open spec fn method_call_discarded(
    obj: Handle,
    method: Seq<char>,
    args: Seq<Handle>,
    post: Seq<HostCall>,
) -> Seq<HostCall> {
    let ret = released(post.last());
    let argv = released(post[post.len() - 2]);
    packed(argv, args) + seq![
        HostCall::ObjCall { obj, method, argv, ret },
        HostCall::DecRef { h: argv },
        HostCall::DecRef { h: ret },
    ]
}

impl Console {
    /// The console.
    pub fn get() -> (r: Console)
        ensures
            r@ == EmlitePredefHandles::Console.index(),
    {
        Console { val: Val::wrap(EmlitePredefHandles::Console.handle()) }
    }

    /// Calls the console's `log` with `args`.
    pub fn log<H: Host>(&self, env: &mut Env<H>, args: &[Val])
        ensures
            final(env).trace() == old(env).trace() + method_call_discarded(
                self@,
                "log"@,
                handles(args@),
                final(env).trace(),
            ),
    {
        let r = self.val.call(env, "log", args);
        r.drop(env);
    }

    /// Calls the console's `warn` with `args`.
    pub fn warn<H: Host>(&self, env: &mut Env<H>, args: &[Val])
        ensures
            final(env).trace() == old(env).trace() + method_call_discarded(
                self@,
                "warn"@,
                handles(args@),
                final(env).trace(),
            ),
    {
        let r = self.val.call(env, "warn", args);
        r.drop(env);
    }

    /// Calls the console's `info` with `args`.
    pub fn info<H: Host>(&self, env: &mut Env<H>, args: &[Val])
        ensures
            final(env).trace() == old(env).trace() + method_call_discarded(
                self@,
                "info"@,
                handles(args@),
                final(env).trace(),
            ),
    {
        let r = self.val.call(env, "info", args);
        r.drop(env);
    }

    /// The handle of the console.
    pub fn as_handle(&self) -> (h: Handle)
        ensures
            h == self@,
    {
        self.val.as_handle()
    }

    /// A second owner of the console: the host is asked to count one reference
    /// more.
    pub fn clone<H: Host>(&self, env: &mut Env<H>) -> (r: Console)
        ensures
            r@ == self@,
            final(env).trace() == old(env).trace().push(HostCall::IncRef { h: self@ }),
    {
        Console { val: self.val.clone(env) }
    }
}

impl core::ops::Deref for Console {
    type Target = Val;

    /// The console as a value.
    fn deref(&self) -> (v: &Val)
        ensures
            v@ == self@,
    {
        &self.val
    }
}

impl IntoVal for Console {
    open spec fn conversion(self, r: Handle) -> Seq<HostCall> {
        Seq::empty()
    }

    open spec fn yields(self, r: Handle) -> bool {
        r == self@
    }

    /// The console as a plain value: the reference that the console owned
    /// goes over to the value, and the host is told nothing.
    fn into_val<H: Host>(self, env: &mut Env<H>) -> (r: Val) {
        self.val
    }
}

} // verus!

//! Waiting for a host promise: the value is handed to the host's `eval` inside
//! a small asynchronous function that names it by the decimal digits of its
//! handle.

use vstd::prelude::*;
use vstd::string::StringExecFns;
use crate::common::Handle;
use crate::convert::{FromVal, IntoVal};
use crate::env::Env;
use crate::host::{Host, HostCall, returned};
use crate::val::{Val, global_lookup, handles, packed};

verus! {

/// The source text before the handle.
pub const AWAIT_HEAD: &'static str =
    "\n            (async () => {\n                let obj = EMLITE_VALMAP.toValue(";

/// The source text after the handle.
pub const AWAIT_TAIL: &'static str =
    ");\n                let ret = await obj;\n                return EMLITE_VALMAP.toHandle(ret);\n            })()\n        ";

/// The character of the decimal digit `d`.
pub open spec fn digit_char(d: int) -> char {
    if d == 0 {
        '0'
    } else if d == 1 {
        '1'
    } else if d == 2 {
        '2'
    } else if d == 3 {
        '3'
    } else if d == 4 {
        '4'
    } else if d == 5 {
        '5'
    } else if d == 6 {
        '6'
    } else if d == 7 {
        '7'
    } else if d == 8 {
        '8'
    } else {
        '9'
    }
}

/// The decimal digits of `n`, most significant first, without leading zeros.
pub open spec fn decimal(n: nat) -> Seq<char>
    decreases n,
{
    if n < 10 {
        seq![digit_char(n as int)]
    } else {
        decimal(n / 10).push(digit_char((n % 10) as int))
    }
}

/// The source text that waits for the value behind `h`.
pub open spec fn await_script(h: Handle) -> Seq<char> {
    AWAIT_HEAD@ + decimal(h as nat) + AWAIT_TAIL@
}

/// The text of the decimal digit `d`.
fn digit_str(d: u32) -> (s: &'static str)
    requires
        d < 10,
    ensures
        s@ == seq![digit_char(d as int)],
{
    proof {
        reveal_strlit("0");
        reveal_strlit("1");
        reveal_strlit("2");
        reveal_strlit("3");
        reveal_strlit("4");
        reveal_strlit("5");
        reveal_strlit("6");
        reveal_strlit("7");
        reveal_strlit("8");
        reveal_strlit("9");
    }
    let s = if d == 0 {
        "0"
    } else if d == 1 {
        "1"
    } else if d == 2 {
        "2"
    } else if d == 3 {
        "3"
    } else if d == 4 {
        "4"
    } else if d == 5 {
        "5"
    } else if d == 6 {
        "6"
    } else if d == 7 {
        "7"
    } else if d == 8 {
        "8"
    } else {
        "9"
    };
    proof {
        assert(s@ =~= seq![digit_char(d as int)]);
    }
    s
}

/// The decimal digits of `n` as text.
pub fn u32_to_decimal(n: u32) -> (s: String)
    ensures
        s@ == decimal(n as nat),
    decreases n,
{
    if n < 10 {
        String::from_str(digit_str(n))
    } else {
        let mut s = u32_to_decimal(n / 10);
        s.append(digit_str(n % 10));
        proof {
            assert(s@ =~= decimal((n / 10) as nat).push(digit_char((n % 10) as int)));
        }
        s
    }
}

impl Val {
    /// Hands this value to the host's `eval` inside an asynchronous function
    /// that waits for it, and answers with what `eval` returns: a promise of
    /// the handle of the awaited value.
    pub fn await_<H: Host>(&self, env: &mut Env<H>) -> (r: Val)
        ensures
            ({
                let n = old(env).trace().len() as int;
                let post = final(env).trace();
                let eval = returned(post[n + 1]);
                let source = returned(post[n + 4]);
                let argv = returned(post[n + 5]);
                post == old(env).trace() + global_lookup("eval"@, returned(post[n]), eval) + seq![
                    HostCall::MakeStr { value: await_script(self@), ret: source },
                ] + packed(argv, seq![source]) + seq![
                    HostCall::FuncCall { func: eval, argv, ret: r@ },
                    HostCall::DecRef { h: argv },
                    HostCall::DecRef { h: source },
                    HostCall::DecRef { h: eval },
                ]
            }),
    {
        let eval = Val::global(env, "eval");
        let mut text = String::from_str(AWAIT_HEAD);
        let digits = u32_to_decimal(self.as_handle());
        text.append(digits.as_str());
        text.append(AWAIT_TAIL);
        let source = text.into_val(env);
        let ghost source_handle = source@;
        let mut args: Vec<Val> = Vec::new();
        args.push(source);
        proof {
            assert(handles(args@) =~= seq![source_handle]);
        }
        let r = eval.invoke(env, args.as_slice());
        match args.pop() {
            Some(source) => {
                source.drop(env);
            },
            None => {},
        }
        eval.drop(env);
        r
    }
}

} // verus!

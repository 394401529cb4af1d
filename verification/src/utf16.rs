//! UTF-16: the code units of a text, and the text of a sequence of code units.

use std::string::FromUtf16Error;
use vstd::prelude::*;
use crate::env::Env;
use crate::host::{Host, HostCall};
use crate::val::Val;

verus! {

/// The error of `String::from_utf16`. Nothing is read out of it.
#[verifier::external_type_specification]
#[verifier::external_body]
pub struct ExFromUtf16Error(FromUtf16Error);

/// `String::from_utf16` decodes UTF-16: it answers with the one text whose
/// code units are `v`, and with an error exactly where `v` is the code units
/// of no text, that is where a surrogate stands unpaired.
pub assume_specification[ String::from_utf16 ](v: &[u16]) -> (r: Result<String, FromUtf16Error>)
    ensures
        match r {
            Ok(s) => encode_utf16(s@) == v@,
            Err(_) => forall|t: Seq<char>| #[trigger] encode_utf16(t) != v@,
        },
;

/// The UTF-16 code units of one character: one unit below `0x10000`, else a
/// high and a low surrogate.
pub open spec fn encode_char(c: char) -> Seq<u16> {
    let v = c as u32;
    if v < 0x10000 {
        seq![v as u16]
    } else {
        seq![(0xD800 + (v - 0x10000) / 0x400) as u16, (0xDC00 + (v - 0x10000) % 0x400) as u16]
    }
}

/// The UTF-16 code units of a text.
pub open spec fn encode_utf16(s: Seq<char>) -> Seq<u16>
    decreases s.len(),
{
    if s.len() == 0 {
        Seq::empty()
    } else {
        encode_utf16(s.drop_last()) + encode_char(s.last())
    }
}

/// The code units of one character are one unit outside the surrogate range,
/// or a high surrogate followed by a low one.
pub proof fn lemma_encode_char_shape(c: char)
    ensures
        ({
            let e = encode_char(c);
            ||| e.len() == 1 && !(0xD800 <= e[0] <= 0xDFFF)
            ||| e.len() == 2 && 0xD800 <= e[0] <= 0xDBFF && 0xDC00 <= e[1] <= 0xDFFF
        }),
{
    vstd::utf8::char_is_scalar(c);
}

/// Two characters with the same code units are the same character.
pub proof fn lemma_encode_char_injective(c: char, d: char)
    requires
        encode_char(c) == encode_char(d),
    ensures
        c == d,
{
    vstd::utf8::char_is_scalar(c);
    vstd::utf8::char_is_scalar(d);
    lemma_encode_char_shape(c);
    lemma_encode_char_shape(d);
    let v = c as u32;
    let w = d as u32;
    if v < 0x10000 {
        assert(encode_char(c)[0] == v as u16);
        assert(encode_char(d)[0] == w as u16);
        assert(v == w);
    } else {
        let hi = (0xD800 + (v - 0x10000) / 0x400) as u16;
        let lo = (0xDC00 + (v - 0x10000) % 0x400) as u16;
        assert(encode_char(c)[0] == hi);
        assert(encode_char(c)[1] == lo);
        assert(encode_char(d)[0] == (0xD800 + (w - 0x10000) / 0x400) as u16);
        assert(encode_char(d)[1] == (0xDC00 + (w - 0x10000) % 0x400) as u16);
        assert(v == w);
    }
    vstd::utf8::char_u32_cast(c, v);
    vstd::utf8::char_u32_cast(d, w);
}

/// Two texts with the same UTF-16 code units are the same text: encoding
/// loses nothing, so decoding what was encoded gives the text back.
pub proof fn lemma_encode_utf16_injective(a: Seq<char>, b: Seq<char>)
    requires
        encode_utf16(a) == encode_utf16(b),
    ensures
        a == b,
    decreases a.len(),
{
    if a.len() == 0 {
        if b.len() > 0 {
            lemma_encode_char_shape(b.last());
        }
        assert(a =~= b);
    } else if b.len() == 0 {
        lemma_encode_char_shape(a.last());
    } else {
        let ea = encode_utf16(a.drop_last());
        let eb = encode_utf16(b.drop_last());
        let ca = encode_char(a.last());
        let cb = encode_char(b.last());
        lemma_encode_char_shape(a.last());
        lemma_encode_char_shape(b.last());
        let whole = encode_utf16(a);
        assert(whole == ea + ca);
        assert(whole == eb + cb);
        assert(whole.last() == ca.last());
        assert(whole.last() == cb.last());
        assert(ca.len() == cb.len());
        assert(ca =~= whole.skip(whole.len() - ca.len()));
        assert(cb =~= whole.skip(whole.len() - cb.len()));
        assert(ea =~= whole.take(whole.len() - ca.len()));
        assert(eb =~= whole.take(whole.len() - cb.len()));
        lemma_encode_char_injective(a.last(), b.last());
        lemma_encode_utf16_injective(a.drop_last(), b.drop_last());
        assert(a =~= a.drop_last().push(a.last()));
        assert(b =~= b.drop_last().push(b.last()));
    }
}

/// The UTF-16 code units of `s`.
pub fn str_to_utf16(s: &str) -> (units: Vec<u16>)
    ensures
        units@ == encode_utf16(s@),
{
    broadcast use vstd::string::group_string_axioms;

    let mut units: Vec<u16> = Vec::new();
    for c in it: s.chars()
        invariant
            it.seq() == s@,
            units@ == encode_utf16(s@.take(it.index() as int)),
    {
        let ghost i = it.index() as int;
        let ghost before = units@;
        proof {
            assert(s@.take(i + 1).drop_last() =~= s@.take(i));
            assert(s@.take(i + 1).last() == c);
        }
        let v: u32 = c as u32;
        if v < 0x10000 {
            units.push(v as u16);
            proof {
                assert(encode_char(c) =~= seq![v as u16]);
                assert(units@ =~= before + encode_char(c));
            }
        } else {
            proof {
                vstd::utf8::char_is_scalar(c);
            }
            let w: u32 = v - 0x10000;
            let high: u32 = 0xD800 + w / 0x400;
            let low: u32 = 0xDC00 + w % 0x400;
            units.push(high as u16);
            units.push(low as u16);
            proof {
                assert(encode_char(c) =~= seq![high as u16, low as u16]);
                assert(units@ =~= before + encode_char(c));
            }
        }
    }
    proof {
        assert(s@.take(s@.len() as int) =~= s@);
    }
    units
}

impl Val {
    /// The text whose UTF-16 code units are `utf16`; an error where they are
    /// the code units of no text. The code units of a text always decode, and
    /// to that text.
    pub fn utf16_to_string(utf16: &[u16]) -> (r: Result<String, ()>)
        ensures
            match r {
                Ok(s) => encode_utf16(s@) == utf16@,
                Err(_) => forall|t: Seq<char>| #[trigger] encode_utf16(t) != utf16@,
            },
            forall|t: Seq<char>| #[trigger] encode_utf16(t) == utf16@ ==> (r matches Ok(s) && s@ == t),
    {
        proof {
            assert forall|t: Seq<char>, u: Seq<char>|
                encode_utf16(t) == utf16@ && encode_utf16(u) == utf16@ implies t == u by {
                lemma_encode_utf16_injective(t, u);
            }
        }
        match String::from_utf16(utf16) {
            Ok(s) => Ok(s),
            Err(_) => Err(()),
        }
    }

    /// A host string made from the UTF-16 code units of `s`.
    pub fn from_string_via_utf16<H: Host>(env: &mut Env<H>, s: &str) -> (r: Val)
        ensures
            final(env).trace() == old(env).trace().push(
                HostCall::MakeStrUtf16 { value: encode_utf16(s@), ret: r@ },
            ),
    {
        let utf16 = str_to_utf16(s);
        Val::from_utf16(env, utf16.as_slice())
    }
}

} // verus!

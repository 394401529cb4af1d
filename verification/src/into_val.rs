//! How each native type is handed to the host.

use vstd::prelude::*;
use crate::common::Handle;
use crate::convert::{FromVal, IntoVal};
use crate::env::{
    Env, emlite_val_make_bigint, emlite_val_make_biguint, emlite_val_make_bool,
    emlite_val_make_int, emlite_val_make_str_unified, emlite_val_make_str_utf16_unified,
    emlite_val_make_uint,
};
use crate::host::{Host, HostCall};
use crate::predef::undefined_handle;
use crate::val::Val;

verus! {

impl IntoVal for bool {
    open spec fn conversion(self, r: Handle) -> Seq<HostCall> {
        seq![HostCall::MakeBool { value: self, ret: r }]
    }

    open spec fn yields(self, r: Handle) -> bool {
        true
    }

    fn into_val<H: Host>(self, env: &mut Env<H>) -> (r: Val) {
        let h = emlite_val_make_bool(env, self);
        Val::take_ownership(env, h)
    }
}

impl IntoVal for i8 {
    open spec fn conversion(self, r: Handle) -> Seq<HostCall> {
        seq![HostCall::MakeInt { value: self as i32, ret: r }]
    }

    open spec fn yields(self, r: Handle) -> bool {
        true
    }

    fn into_val<H: Host>(self, env: &mut Env<H>) -> (r: Val) {
        let h = emlite_val_make_int(env, self as i32);
        Val::take_ownership(env, h)
    }
}

impl IntoVal for u8 {
    open spec fn conversion(self, r: Handle) -> Seq<HostCall> {
        seq![HostCall::MakeInt { value: self as i32, ret: r }]
    }

    open spec fn yields(self, r: Handle) -> bool {
        true
    }

    fn into_val<H: Host>(self, env: &mut Env<H>) -> (r: Val) {
        let h = emlite_val_make_int(env, self as i32);
        Val::take_ownership(env, h)
    }
}

impl IntoVal for i16 {
    open spec fn conversion(self, r: Handle) -> Seq<HostCall> {
        seq![HostCall::MakeInt { value: self as i32, ret: r }]
    }

    open spec fn yields(self, r: Handle) -> bool {
        true
    }

    fn into_val<H: Host>(self, env: &mut Env<H>) -> (r: Val) {
        let h = emlite_val_make_int(env, self as i32);
        Val::take_ownership(env, h)
    }
}

impl IntoVal for u16 {
    open spec fn conversion(self, r: Handle) -> Seq<HostCall> {
        seq![HostCall::MakeInt { value: self as i32, ret: r }]
    }

    open spec fn yields(self, r: Handle) -> bool {
        true
    }

    fn into_val<H: Host>(self, env: &mut Env<H>) -> (r: Val) {
        let h = emlite_val_make_int(env, self as i32);
        Val::take_ownership(env, h)
    }
}

impl IntoVal for i32 {
    open spec fn conversion(self, r: Handle) -> Seq<HostCall> {
        seq![HostCall::MakeInt { value: self, ret: r }]
    }

    open spec fn yields(self, r: Handle) -> bool {
        true
    }

    fn into_val<H: Host>(self, env: &mut Env<H>) -> (r: Val) {
        let h = emlite_val_make_int(env, self);
        Val::take_ownership(env, h)
    }
}

impl IntoVal for u32 {
    open spec fn conversion(self, r: Handle) -> Seq<HostCall> {
        seq![HostCall::MakeUint { value: self, ret: r }]
    }

    open spec fn yields(self, r: Handle) -> bool {
        true
    }

    fn into_val<H: Host>(self, env: &mut Env<H>) -> (r: Val) {
        let h = emlite_val_make_uint(env, self);
        Val::take_ownership(env, h)
    }
}

impl IntoVal for i64 {
    open spec fn conversion(self, r: Handle) -> Seq<HostCall> {
        seq![HostCall::MakeBigint { value: self, ret: r }]
    }

    open spec fn yields(self, r: Handle) -> bool {
        true
    }

    fn into_val<H: Host>(self, env: &mut Env<H>) -> (r: Val) {
        let h = emlite_val_make_bigint(env, self);
        Val::take_ownership(env, h)
    }
}

impl IntoVal for isize {
    open spec fn conversion(self, r: Handle) -> Seq<HostCall> {
        seq![HostCall::MakeBigint { value: self as i64, ret: r }]
    }

    open spec fn yields(self, r: Handle) -> bool {
        true
    }

    fn into_val<H: Host>(self, env: &mut Env<H>) -> (r: Val) {
        let h = emlite_val_make_bigint(env, self as i64);
        Val::take_ownership(env, h)
    }
}

impl IntoVal for u64 {
    open spec fn conversion(self, r: Handle) -> Seq<HostCall> {
        seq![HostCall::MakeBiguint { value: self, ret: r }]
    }

    open spec fn yields(self, r: Handle) -> bool {
        true
    }

    fn into_val<H: Host>(self, env: &mut Env<H>) -> (r: Val) {
        let h = emlite_val_make_biguint(env, self);
        Val::take_ownership(env, h)
    }
}

impl IntoVal for usize {
    open spec fn conversion(self, r: Handle) -> Seq<HostCall> {
        seq![HostCall::MakeBiguint { value: self as u64, ret: r }]
    }

    open spec fn yields(self, r: Handle) -> bool {
        true
    }

    fn into_val<H: Host>(self, env: &mut Env<H>) -> (r: Val) {
        let h = emlite_val_make_biguint(env, self as u64);
        Val::take_ownership(env, h)
    }
}

impl IntoVal for () {
    open spec fn conversion(self, r: Handle) -> Seq<HostCall> {
        Seq::empty()
    }

    open spec fn yields(self, r: Handle) -> bool {
        r == undefined_handle()
    }

    fn into_val<H: Host>(self, env: &mut Env<H>) -> (r: Val) {
        Val::undefined()
    }
}

impl<'a> IntoVal for &'a str {
    open spec fn conversion(self, r: Handle) -> Seq<HostCall> {
        seq![HostCall::MakeStr { value: self@, ret: r }]
    }

    open spec fn yields(self, r: Handle) -> bool {
        true
    }

    fn into_val<H: Host>(self, env: &mut Env<H>) -> (r: Val) {
        let h = emlite_val_make_str_unified(env, self);
        Val::take_ownership(env, h)
    }
}

impl IntoVal for String {
    open spec fn conversion(self, r: Handle) -> Seq<HostCall> {
        seq![HostCall::MakeStr { value: self@, ret: r }]
    }

    open spec fn yields(self, r: Handle) -> bool {
        true
    }

    fn into_val<H: Host>(self, env: &mut Env<H>) -> (r: Val) {
        let h = emlite_val_make_str_unified(env, self.as_str());
        Val::take_ownership(env, h)
    }
}

impl<'a> IntoVal for &'a String {
    open spec fn conversion(self, r: Handle) -> Seq<HostCall> {
        seq![HostCall::MakeStr { value: self@, ret: r }]
    }

    open spec fn yields(self, r: Handle) -> bool {
        true
    }

    fn into_val<H: Host>(self, env: &mut Env<H>) -> (r: Val) {
        let h = emlite_val_make_str_unified(env, self.as_str());
        Val::take_ownership(env, h)
    }
}

impl<'a> IntoVal for &'a [u16] {
    open spec fn conversion(self, r: Handle) -> Seq<HostCall> {
        seq![HostCall::MakeStrUtf16 { value: self@, ret: r }]
    }

    open spec fn yields(self, r: Handle) -> bool {
        true
    }

    fn into_val<H: Host>(self, env: &mut Env<H>) -> (r: Val) {
        let h = emlite_val_make_str_utf16_unified(env, self);
        Val::take_ownership(env, h)
    }
}

impl IntoVal for Vec<u16> {
    open spec fn conversion(self, r: Handle) -> Seq<HostCall> {
        seq![HostCall::MakeStrUtf16 { value: self@, ret: r }]
    }

    open spec fn yields(self, r: Handle) -> bool {
        true
    }

    fn into_val<H: Host>(self, env: &mut Env<H>) -> (r: Val) {
        let h = emlite_val_make_str_utf16_unified(env, self.as_slice());
        Val::take_ownership(env, h)
    }
}

impl<'a> IntoVal for &'a Vec<u16> {
    open spec fn conversion(self, r: Handle) -> Seq<HostCall> {
        seq![HostCall::MakeStrUtf16 { value: self@, ret: r }]
    }

    open spec fn yields(self, r: Handle) -> bool {
        true
    }

    fn into_val<H: Host>(self, env: &mut Env<H>) -> (r: Val) {
        let h = emlite_val_make_str_utf16_unified(env, self.as_slice());
        Val::take_ownership(env, h)
    }
}

impl<'a> IntoVal for &'a Val {
    open spec fn conversion(self, r: Handle) -> Seq<HostCall> {
        seq![HostCall::IncRef { h: self@ }]
    }

    open spec fn yields(self, r: Handle) -> bool {
        r == self@
    }

    fn into_val<H: Host>(self, env: &mut Env<H>) -> (r: Val) {
        self.clone(env)
    }
}

impl IntoVal for Val {
    open spec fn conversion(self, r: Handle) -> Seq<HostCall> {
        Seq::empty()
    }

    open spec fn yields(self, r: Handle) -> bool {
        r == self@
    }

    fn into_val<H: Host>(self, env: &mut Env<H>) -> (r: Val) {
        self
    }
}

} // verus!

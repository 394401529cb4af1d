//! Guest-side bindings to a host object space that is reached only through
//! integer handles: reference-counted values, conversions between native types
//! and handles, and the callback bridge.
//!
//! Every call into the host goes through an [`Env`], which wraps an
//! implementation of [`Host`] and keeps a ghost record of the exchange. The
//! contracts of the library are stated over that record: they say which calls
//! a function makes, with which arguments and in which order, and how its
//! result follows from what the host answered.

pub mod callback;
pub mod common;
pub mod compare;
pub mod console;
pub mod convert;
pub mod env;
pub mod from_val;
pub mod host;
pub mod into_val;
pub mod predef;
pub mod refcount;
pub mod scalar;
pub mod script;
pub mod utf16;
pub mod val;

pub use crate::callback::{
    Callback, CallbackLog, CallbackPack, CallbackRegistry, Dispatch, Invocation, Trampoline,
    TrampolineLog,
    emlite_env_dyncall_apply, emlite_register_callback, emlite_register_callback_unified,
    invoke_pack, shim,
};
pub use crate::common::{Handle, emlite_target};
pub use crate::console::Console;
pub use crate::convert::{FromJsError, FromVal, IntoVal};
pub use crate::env::{Env, init};
pub use crate::host::{Host, HostCall};
pub use crate::predef::EmlitePredefHandles;
pub use crate::scalar::Scalar;
pub use crate::val::Val;

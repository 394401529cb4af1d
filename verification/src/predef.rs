//! The handles that guest and host agree on before any call is made.

use vstd::prelude::*;
use crate::common::Handle;

verus! {

/// The host singletons that live at fixed handles. The host never counts
/// references on them. `Reserved` is the first handle that the host is free to
/// hand out.
#[derive(Clone, Copy, Debug, PartialEq, Eq, Structural)]
pub enum EmlitePredefHandles {
    Null,
    Undefined,
    False,
    True,
    GlobalThis,
    Console,
    Reserved,
}

impl EmlitePredefHandles {
    /// The handle at which this singleton lives.
    pub open spec fn index(self) -> Handle {
        match self {
            EmlitePredefHandles::Null => 0,
            EmlitePredefHandles::Undefined => 1,
            EmlitePredefHandles::False => 2,
            EmlitePredefHandles::True => 3,
            EmlitePredefHandles::GlobalThis => 4,
            EmlitePredefHandles::Console => 5,
            EmlitePredefHandles::Reserved => 6,
        }
    }

    /// The handle at which this singleton lives.
    pub fn handle(self) -> (h: Handle)
        ensures
            h == self.index(),
    {
        match self {
            EmlitePredefHandles::Null => 0,
            EmlitePredefHandles::Undefined => 1,
            EmlitePredefHandles::False => 2,
            EmlitePredefHandles::True => 3,
            EmlitePredefHandles::GlobalThis => 4,
            EmlitePredefHandles::Console => 5,
            EmlitePredefHandles::Reserved => 6,
        }
    }
}

/// The handle of the host's `null`.
pub open spec fn null_handle() -> Handle {
    EmlitePredefHandles::Null.index()
}

/// The handle of the host's `undefined`.
pub open spec fn undefined_handle() -> Handle {
    EmlitePredefHandles::Undefined.index()
}

/// The handle of the host's global object.
pub open spec fn global_this_handle() -> Handle {
    EmlitePredefHandles::GlobalThis.index()
}

/// Whether `h` names a host singleton, on which references are not counted.
pub open spec fn is_predefined(h: Handle) -> bool {
    h < EmlitePredefHandles::Reserved.index()
}

/// Whether `h` names the host's `null` or `undefined`.
pub open spec fn is_absent(h: Handle) -> bool {
    h == null_handle() || h == undefined_handle()
}

} // verus!

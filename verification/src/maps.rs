//! Error type for the configuration-map wrapper that surrounds this library:
//! the wrapper refuses mutation through a read-only borrow with this value.

use vstd::prelude::*;

verus! {

/// Error raised when a mutable operation is attempted on a map view that
/// only grants read access.
pub struct JMapErr {
    fs: i32,
}

impl JMapErr {
    /// True of every value this type's constructors produce.
    pub closed spec fn wf(&self) -> bool {
        self.fs == 1
    }

    /// The "not mutable" error value.
    pub fn nomut() -> (r: Self)
        ensures
            r.wf(),
    {
        Self { fs: 1 }
    }

    /// The "not mutable" error, wrapped as the `Err` of any result type.
    pub fn nomuts<T>() -> (r: Result<T, Self>)
        ensures
            r is Err,
            r->Err_0.wf(),
    {
        Err(Self { fs: 1 })
    }
}

} // verus!

use vstd::prelude::*;

verus! {

/// A token that only this crate can make: a struct with a field of this type
/// can be built only through the crate's constructors.
#[derive(Debug, Clone, Copy, PartialEq, Eq)]
pub struct Sealed {
    _private: (),
}

pub(crate) fn seal() -> Sealed {
    Sealed { _private: () }
}

} // verus!

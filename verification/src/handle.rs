use vstd::prelude::*;

verus! {

/// Signed size type in which reference counts are kept.
#[allow(non_camel_case_types)]
pub type pyt_ssize_t = isize;

/// Opaque handle to an object of the heap.
///
/// Two handles are the same exactly when their values are equal. The value 0
/// is the null handle: it refers to no object and is never a key of the heap.
#[derive(Clone, Copy, PartialEq, Eq, Structural, Debug)]
pub struct PytObjectPointer {
    pub _private: usize,
}

impl PytObjectPointer {
    /// The null handle.
    pub open spec fn null() -> PytObjectPointer {
        PytObjectPointer { _private: 0 }
    }

    /// Whether this is the null handle.
    pub open spec fn spec_is_null(&self) -> bool {
        self._private == 0
    }

    /// Whether this is the null handle.
    #[verifier::when_used_as_spec(spec_is_null)]
    pub fn is_null(&self) -> (r: bool)
        ensures
            r == (self._private == 0),
            r == (*self == PytObjectPointer::null()),
    {
        self._private == 0
    }
}

} // verus!

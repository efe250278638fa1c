use vstd::prelude::*;
use crate::handle::PytObjectPointer;
use crate::handle::pyt_ssize_t;

verus! {

/// What an object of the heap is: its kind, with the payload of that kind.
#[derive(Clone, Copy, PartialEq, Eq, Structural, Debug)]
pub enum GpyObjectData {
    PyNone,
    PyLong(libc::c_long),
    PyBool(bool),
    PyDict,
    PyNotImplemented,
}

impl GpyObjectData {
    /// Whether this is one of the two booleans.
    pub open spec fn spec_is_bool(&self) -> bool {
        *self is PyBool
    }

    /// Whether this is one of the two booleans.
    #[verifier::when_used_as_spec(spec_is_bool)]
    pub fn is_bool(&self) -> (r: bool)
        ensures
            r == (*self is PyBool),
    {
        matches!(self, GpyObjectData::PyBool(_))
    }

    /// Whether this is a kind of which the heap holds exactly one object,
    /// made when the heap is set up.
    pub open spec fn is_singleton_kind(&self) -> bool {
        !(*self is PyLong) && !(*self is PyDict)
    }
}

/// The record that the heap keeps for one live object.
#[derive(Clone, Copy, PartialEq, Eq, Structural, Debug)]
pub struct GpyObjectRecord {
    /// Number of owning references held on the object; at least 1 while the
    /// object is live.
    pub ref_count: pyt_ssize_t,
    /// Kind and payload.
    pub data: GpyObjectData,
    /// Handle of the object's type object, or the null handle where it has none.
    pub typ: PytObjectPointer,
}

/// The handles of the four objects that exist from set-up to tear-down.
#[derive(Clone, Copy, PartialEq, Eq, Structural, Debug)]
pub struct GpyConstantObjects {
    pub py_none: PytObjectPointer,
    pub py_false: PytObjectPointer,
    pub py_true: PytObjectPointer,
    pub py_not_implemented: PytObjectPointer,
}

impl GpyConstantObjects {
    /// Whether `h` is one of the four constants.
    pub open spec fn spec_contains(&self, h: PytObjectPointer) -> bool {
        h == self.py_none || h == self.py_false || h == self.py_true || h
            == self.py_not_implemented
    }

    /// Whether `h` is one of the four constants.
    #[verifier::when_used_as_spec(spec_contains)]
    pub fn contains(&self, h: PytObjectPointer) -> (r: bool)
        ensures
            r == self.spec_contains(h),
    {
        h == self.py_none || h == self.py_false || h == self.py_true || h
            == self.py_not_implemented
    }

    /// Whether the four constants are four different handles.
    pub open spec fn pairwise_distinct(&self) -> bool {
        &&& self.py_none != self.py_false
        &&& self.py_none != self.py_true
        &&& self.py_none != self.py_not_implemented
        &&& self.py_false != self.py_true
        &&& self.py_false != self.py_not_implemented
        &&& self.py_true != self.py_not_implemented
    }
}

} // verus!

use vstd::prelude::*;
use crate::handle::PytObjectPointer;
use crate::object::GpyConstantObjects;
use crate::object::GpyObjectData;
use crate::object::GpyObjectRecord;

verus! {

/// The mathematical value of a heap state: which handles are live and with
/// which record, the error flag, the constants, and how far the allocator has
/// come.
#[verifier::ext_equal]
pub ghost struct GpyStateView {
    /// The record of every live handle.
    pub heap: Map<PytObjectPointer, GpyObjectRecord>,
    /// Set when an allocation has failed and not been cleared since.
    pub error: bool,
    /// The handles of the four constants.
    pub constants: GpyConstantObjects,
    /// How many handles have been issued. They are the handles with the
    /// values 1 to `issued`, in that order.
    pub issued: nat,
    /// How many handles the allocator can issue over the state's lifetime.
    pub limit: nat,
}

impl GpyStateView {
    /// Whether `h` refers to an object that has not been reclaimed.
    pub open spec fn live(self, h: PytObjectPointer) -> bool {
        self.heap.contains_key(h)
    }

    /// Number of owning references on `h`: that of its record while `h` is
    /// live, and 0 otherwise.
    pub open spec fn ref_count(self, h: PytObjectPointer) -> int {
        if self.live(h) {
            self.heap[h].ref_count as int
        } else {
            0
        }
    }

    /// Whether the four constants are live and each holds the one object of
    /// its kind.
    pub open spec fn constants_seeded(self) -> bool {
        &&& self.live(self.constants.py_none)
        &&& self.live(self.constants.py_false)
        &&& self.live(self.constants.py_true)
        &&& self.live(self.constants.py_not_implemented)
        &&& self.heap[self.constants.py_none].data == GpyObjectData::PyNone
        &&& self.heap[self.constants.py_false].data == GpyObjectData::PyBool(false)
        &&& self.heap[self.constants.py_true].data == GpyObjectData::PyBool(true)
        &&& self.heap[self.constants.py_not_implemented].data == GpyObjectData::PyNotImplemented
    }

    /// The invariant of a heap state.
    ///
    /// Every live handle has a reference count of at least 1 and is one of
    /// the handles issued so far, so the null handle is never live. The four
    /// constants are live, pairwise distinct and of their kinds, and no other
    /// live object is a none, a boolean or a not-implemented object. The
    /// allocator has not issued more handles than its limit, which fits the
    /// handle type.
    pub open spec fn wf(self) -> bool {
        &&& forall|h: PytObjectPointer| #[trigger]
            self.heap.contains_key(h) ==> self.heap[h].ref_count >= 1
        &&& forall|h: PytObjectPointer| #[trigger]
            self.heap.contains_key(h) ==> 1 <= h._private <= self.issued
        &&& forall|h: PytObjectPointer| #[trigger]
            self.heap.contains_key(h) && self.heap[h].data.is_singleton_kind()
                ==> self.constants.contains(h)
        &&& self.constants.pairwise_distinct()
        &&& self.constants_seeded()
        &&& self.issued <= self.limit <= usize::MAX
    }

    /// The state that set-up leaves: the four constants under the handles 1
    /// to 4, each with one reference, no error, and room for `spare` further
    /// handles as far as the handle type has them.
    pub open spec fn initial(spare: nat) -> GpyStateView {
        let py_none = PytObjectPointer { _private: 1 };
        let py_false = PytObjectPointer { _private: 2 };
        let py_true = PytObjectPointer { _private: 3 };
        let py_not_implemented = PytObjectPointer { _private: 4 };
        GpyStateView {
            heap: Map::empty().insert(py_none, Self::fresh_record(GpyObjectData::PyNone)).insert(
                py_false,
                Self::fresh_record(GpyObjectData::PyBool(false)),
            ).insert(py_true, Self::fresh_record(GpyObjectData::PyBool(true))).insert(
                py_not_implemented,
                Self::fresh_record(GpyObjectData::PyNotImplemented),
            ),
            error: false,
            constants: GpyConstantObjects { py_none, py_false, py_true, py_not_implemented },
            issued: 4,
            limit: if 4 + spare <= usize::MAX {
                4 + spare
            } else {
                usize::MAX as nat
            },
        }
    }

    /// The record of an object that has just been made: one reference, no
    /// type object.
    pub open spec fn fresh_record(data: GpyObjectData) -> GpyObjectRecord {
        GpyObjectRecord { ref_count: 1, data, typ: PytObjectPointer::null() }
    }

    /// Whether `h` may take one more reference: it is live and its count is
    /// below the largest that the count's type holds.
    pub open spec fn can_incref(self, h: PytObjectPointer) -> bool {
        self.live(h) && self.heap[h].ref_count < isize::MAX
    }

    /// Whether a reference on `h` may be released: `h` is live, and where it
    /// is a constant the reference is not its last one, which belongs to the
    /// state itself.
    pub open spec fn can_decref(self, h: PytObjectPointer) -> bool {
        self.live(h) && (self.constants.contains(h) ==> self.heap[h].ref_count > 1)
    }

    /// The state after one more reference is taken on `h`.
    pub open spec fn incref(self, h: PytObjectPointer) -> GpyStateView {
        GpyStateView {
            heap: self.heap.insert(
                h,
                GpyObjectRecord {
                    ref_count: (self.heap[h].ref_count + 1) as isize,
                    ..self.heap[h]
                },
            ),
            ..self
        }
    }

    /// The state after one reference on `h` is released: the count goes down
    /// by one, and with the last reference the object is reclaimed.
    pub open spec fn decref(self, h: PytObjectPointer) -> GpyStateView {
        if self.heap[h].ref_count > 1 {
            GpyStateView {
                heap: self.heap.insert(
                    h,
                    GpyObjectRecord {
                        ref_count: (self.heap[h].ref_count - 1) as isize,
                        ..self.heap[h]
                    },
                ),
                ..self
            }
        } else {
            GpyStateView { heap: self.heap.remove(h), ..self }
        }
    }

    /// Whether the allocator still has a handle to issue.
    pub open spec fn can_allocate(self) -> bool {
        self.issued < self.limit
    }

    /// The handle that the next successful allocation returns.
    pub open spec fn next_handle(self) -> PytObjectPointer {
        PytObjectPointer { _private: (self.issued + 1) as usize }
    }

    /// The state after an object with `data` is asked for: where the
    /// allocator has a handle left, the object is live under the next handle
    /// with one reference; otherwise only the error flag is set.
    pub open spec fn allocate(self, data: GpyObjectData) -> GpyStateView {
        if self.can_allocate() {
            GpyStateView {
                heap: self.heap.insert(self.next_handle(), Self::fresh_record(data)),
                issued: self.issued + 1,
                ..self
            }
        } else {
            GpyStateView { error: true, ..self }
        }
    }

    /// What asking for an object returns: the next handle, or the null
    /// handle where the allocator has none left.
    pub open spec fn allocated_handle(self) -> PytObjectPointer {
        if self.can_allocate() {
            self.next_handle()
        } else {
            PytObjectPointer::null()
        }
    }

    /// The state after the error flag is set to `error`.
    pub open spec fn with_error(self, error: bool) -> GpyStateView {
        GpyStateView { error, ..self }
    }
}

/// One operation that changes a heap state.
pub ghost enum GpyOperation {
    /// Take a reference on a handle.
    Incref(PytObjectPointer),
    /// Release a reference on a handle.
    Decref(PytObjectPointer),
    /// Read the number that a handle holds.
    AsLong(PytObjectPointer),
    /// Make an integer object.
    FromLong(libc::c_long),
    /// Make a dictionary object.
    DictNew,
    /// Take a reference on the none object.
    AcquireNone,
    /// Take a reference on the true object.
    AcquireTrue,
    /// Take a reference on the false object.
    AcquireFalse,
    /// Clear the error flag.
    ClearError,
}

impl GpyStateView {
    /// Whether `op` may be performed in this state.
    pub open spec fn enabled(self, op: GpyOperation) -> bool {
        match op {
            GpyOperation::Incref(h) => self.can_incref(h),
            GpyOperation::Decref(h) => self.can_decref(h),
            GpyOperation::AsLong(h) => self.live(h),
            GpyOperation::FromLong(_) => true,
            GpyOperation::DictNew => true,
            GpyOperation::AcquireNone => self.can_incref(self.constants.py_none),
            GpyOperation::AcquireTrue => self.can_incref(self.constants.py_true),
            GpyOperation::AcquireFalse => self.can_incref(self.constants.py_false),
            GpyOperation::ClearError => true,
        }
    }

    /// The state after `op`.
    pub open spec fn apply(self, op: GpyOperation) -> GpyStateView {
        match op {
            GpyOperation::Incref(h) => self.incref(h),
            GpyOperation::Decref(h) => self.decref(h),
            GpyOperation::AsLong(h) => if self.heap[h].data is PyLong {
                self
            } else {
                self.with_error(true)
            },
            GpyOperation::FromLong(v) => self.allocate(GpyObjectData::PyLong(v)),
            GpyOperation::DictNew => self.allocate(GpyObjectData::PyDict),
            GpyOperation::AcquireNone => self.incref(self.constants.py_none),
            GpyOperation::AcquireTrue => self.incref(self.constants.py_true),
            GpyOperation::AcquireFalse => self.incref(self.constants.py_false),
            GpyOperation::ClearError => self.with_error(false),
        }
    }

    /// The one handle whose record `op` may change, make or reclaim in this
    /// state; the null handle where `op` changes no record.
    pub open spec fn touched(self, op: GpyOperation) -> PytObjectPointer {
        match op {
            GpyOperation::Incref(h) => h,
            GpyOperation::Decref(h) => h,
            GpyOperation::AsLong(_) => PytObjectPointer::null(),
            GpyOperation::FromLong(_) => self.allocated_handle(),
            GpyOperation::DictNew => self.allocated_handle(),
            GpyOperation::AcquireNone => self.constants.py_none,
            GpyOperation::AcquireTrue => self.constants.py_true,
            GpyOperation::AcquireFalse => self.constants.py_false,
            GpyOperation::ClearError => PytObjectPointer::null(),
        }
    }

    /// Whether each operation of `ops` may be performed in the state that
    /// the operations before it leave, starting from this state.
    pub open spec fn enabled_all(self, ops: Seq<GpyOperation>) -> bool
        decreases ops.len(),
    {
        ops.len() > 0 ==> self.enabled(ops[0]) && self.apply(ops[0]).enabled_all(
            ops.subrange(1, ops.len() as int),
        )
    }

    /// The state after the operations of `ops`, performed in order.
    pub open spec fn apply_all(self, ops: Seq<GpyOperation>) -> GpyStateView
        decreases ops.len(),
    {
        if ops.len() == 0 {
            self
        } else {
            self.apply(ops[0]).apply_all(ops.subrange(1, ops.len() as int))
        }
    }
}

/// Whether every handle but `changed` is live in `s` exactly when it is live
/// in `s0`, and then with the same record.
pub open spec fn all_other_preserved(
    changed: PytObjectPointer,
    s0: GpyStateView,
    s: GpyStateView,
) -> bool {
    forall|q: PytObjectPointer|
        q != changed ==> (#[trigger] s.heap.contains_key(q) <==> s0.heap.contains_key(q)) && (
        s0.heap.contains_key(q) ==> s.heap[q] == s0.heap[q])
}

/// Whether the two states have the same live handles with the same records.
pub open spec fn all_objects_preserved(s0: GpyStateView, s: GpyStateView) -> bool {
    s.heap == s0.heap
}

/// Whether the two states have the same error flag.
pub open spec fn errors_preserved(s0: GpyStateView, s: GpyStateView) -> bool {
    s0.error == s.error
}

/// Whether the two states have the same four constants.
pub open spec fn constants_preserved(s0: GpyStateView, s: GpyStateView) -> bool {
    s0.constants == s.constants
}

} // verus!

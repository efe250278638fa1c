use vstd::prelude::*;
use crate::handle::PytObjectPointer;
use crate::model::GpyOperation;
use crate::model::GpyStateView;
use crate::object::GpyConstantObjects;
use crate::object::GpyObjectData;
use crate::object::GpyObjectRecord;

verus! {

/// The state of one object heap.
///
/// The heap is an arena of slots. The object with the handle `h` sits in the
/// slot `h - 1`; a slot is emptied when its object is reclaimed and is never
/// filled again, so no handle ever comes to refer to a second object.
pub struct GpyGlobalState {
    slots: Vec<Option<GpyObjectRecord>>,
    limit: usize,
    error: bool,
    constants: GpyConstantObjects,
}

impl View for GpyGlobalState {
    type V = GpyStateView;

    closed spec fn view(&self) -> GpyStateView {
        GpyStateView {
            heap: Map::new(
                |h: PytObjectPointer|
                    1 <= h._private <= self.slots@.len() && self.slots@[h._private - 1] is Some,
                |h: PytObjectPointer| self.slots@[h._private - 1]->0,
            ),
            error: self.error,
            constants: self.constants,
            issued: self.slots@.len(),
            limit: self.limit as nat,
        }
    }
}

impl GpyGlobalState {
    /// Whether `obj` refers to an object that has not been reclaimed.
    pub fn is_live(&self, obj: PytObjectPointer) -> (r: bool)
        ensures
            r == self@.live(obj),
    {
        obj._private >= 1 && obj._private <= self.slots.len() && self.slots[obj._private
            - 1].is_some()
    }

    /// Whether one more reference may be taken on `obj`: it is live and its
    /// count is below the largest that the count's type holds.
    pub fn can_incref(&self, obj: PytObjectPointer) -> (r: bool)
        ensures
            r == self@.can_incref(obj),
    {
        self.is_live(obj) && obj.gpy_get(self).ref_count < isize::MAX
    }

    /// Whether a reference on `obj` may be released: it is live, and where
    /// it is a constant the reference is not its last one.
    pub fn can_decref(&self, obj: PytObjectPointer) -> (r: bool)
        ensures
            r == self@.can_decref(obj),
    {
        self.is_live(obj) && (!self.constants.contains(obj) || obj.gpy_get(self).ref_count > 1)
    }

    /// Puts `rec` in the place of the record of the live handle `obj`.
    pub(crate) fn store(&mut self, obj: PytObjectPointer, rec: GpyObjectRecord)
        requires
            old(self)@.live(obj),
        ensures
            final(self)@ == (GpyStateView { heap: old(self)@.heap.insert(obj, rec), ..old(self)@ }),
    {
        self.slots.set(obj._private - 1, Some(rec));
        assert(self@.heap =~= old(self)@.heap.insert(obj, rec));
    }

    /// Reclaims the object of the live handle `obj`.
    pub(crate) fn reclaim(&mut self, obj: PytObjectPointer)
        requires
            old(self)@.live(obj),
        ensures
            final(self)@ == (GpyStateView { heap: old(self)@.heap.remove(obj), ..old(self)@ }),
    {
        self.slots.set(obj._private - 1, None);
        assert(self@.heap =~= old(self)@.heap.remove(obj));
    }

    /// Asks the allocator for an object with `data`. Returns its handle, or
    /// the null handle, with the error flag set, where none is left.
    pub(crate) fn allocate(&mut self, data: GpyObjectData) -> (r: PytObjectPointer)
        requires
            old(self)@.issued <= old(self)@.limit,
        ensures
            final(self)@ == old(self)@.allocate(data),
            r == old(self)@.allocated_handle(),
    {
        if self.slots.len() < self.limit {
            let r = PytObjectPointer { _private: self.slots.len() + 1 };
            self.slots.push(
                Some(
                    GpyObjectRecord {
                        ref_count: 1,
                        data,
                        typ: PytObjectPointer { _private: 0 },
                    },
                ),
            );
            assert(self@.heap =~= old(self)@.heap.insert(r, GpyStateView::fresh_record(data)));
            r
        } else {
            self.error = true;
            PytObjectPointer { _private: 0 }
        }
    }

    /// Whether an allocation has failed since the flag was last cleared.
    pub fn error_occurred(&self) -> (r: bool)
        ensures
            r == self@.error,
    {
        self.error
    }

    /// Clears the error flag and leaves everything else as it is.
    pub fn clear_error(&mut self)
        ensures
            final(self)@ == old(self)@.with_error(false),
            final(self)@ == old(self)@.apply(GpyOperation::ClearError),
    {
        self.error = false;
    }

    /// The handles of the four constants.
    pub fn constants(&self) -> (r: GpyConstantObjects)
        ensures
            r == self@.constants,
    {
        self.constants
    }

    /// Sets the error flag and leaves everything else as it is.
    pub(crate) fn raise_error(&mut self)
        ensures
            final(self)@ == old(self)@.with_error(true),
    {
        self.error = true;
    }
}

/// Makes a heap state: the four constants under the handles 1 to 4, each
/// with one reference, no error, and an allocator that can issue `spare`
/// further handles (fewer where the handle type runs out first).
pub fn gpy_create_state(spare: usize) -> (s: GpyGlobalState)
    ensures
        s@ == GpyStateView::initial(spare as nat),
        s@.wf(),
        !s@.error,
{
    let mut slots: Vec<Option<GpyObjectRecord>> = Vec::new();
    let null = PytObjectPointer { _private: 0 };
    slots.push(Some(GpyObjectRecord { ref_count: 1, data: GpyObjectData::PyNone, typ: null }));
    slots.push(
        Some(GpyObjectRecord { ref_count: 1, data: GpyObjectData::PyBool(false), typ: null }),
    );
    slots.push(
        Some(GpyObjectRecord { ref_count: 1, data: GpyObjectData::PyBool(true), typ: null }),
    );
    slots.push(
        Some(GpyObjectRecord { ref_count: 1, data: GpyObjectData::PyNotImplemented, typ: null }),
    );
    let limit: usize = if spare <= usize::MAX - 4 {
        4 + spare
    } else {
        usize::MAX
    };
    let s = GpyGlobalState {
        slots,
        limit,
        error: false,
        constants: GpyConstantObjects {
            py_none: PytObjectPointer { _private: 1 },
            py_false: PytObjectPointer { _private: 2 },
            py_true: PytObjectPointer { _private: 3 },
            py_not_implemented: PytObjectPointer { _private: 4 },
        },
    };
    assert(s@.heap =~= GpyStateView::initial(spare as nat).heap);
    s
}

impl PytObjectPointer {
    /// The record that `s` keeps for this handle; meaningful while the
    /// handle is live in `s`.
    pub open spec fn spec_gpy_get(&self, s: &GpyGlobalState) -> GpyObjectRecord {
        s@.heap[*self]
    }

    /// The record that `s` keeps for this live handle.
    #[verifier::when_used_as_spec(spec_gpy_get)]
    pub fn gpy_get(&self, s: &GpyGlobalState) -> (r: GpyObjectRecord)
        requires
            s@.live(*self),
        ensures
            r == s@.heap[*self],
    {
        s.slots[self._private - 1].unwrap()
    }
}

} // verus!

use vstd::prelude::*;
use crate::handle::PytObjectPointer;
use crate::model::GpyOperation;
use crate::model::GpyStateView;
use crate::model::all_other_preserved;
use crate::object::GpyObjectData;

verus! {

/// Releasing a reference right after taking it gives back the state from
/// before: the count of the handle is what it was, and so is everything else.
pub proof fn lemma_incref_decref_round_trip(s: GpyStateView, h: PytObjectPointer)
    requires
        s.wf(),
        s.can_incref(h),
    ensures
        s.incref(h).can_decref(h),
        s.incref(h).decref(h) == s,
        s.incref(h).decref(h).ref_count(h) == s.ref_count(h),
{
    let mid = s.incref(h);
    assert(mid.decref(h).heap =~= s.heap);
}

/// Every operation keeps the invariant of the heap state.
pub proof fn lemma_operation_preserves_wf(s: GpyStateView, op: GpyOperation)
    requires
        s.wf(),
        s.enabled(op),
    ensures
        s.apply(op).wf(),
{
}

/// Every operation leaves alone each live handle but the one it is about:
/// such a handle stays live, with the same count, kind and type handle.
pub proof fn lemma_operation_frame(s: GpyStateView, op: GpyOperation, q: PytObjectPointer)
    requires
        s.wf(),
        s.enabled(op),
        s.live(q),
        q != s.touched(op),
    ensures
        s.apply(op).live(q),
        s.apply(op).heap[q] == s.heap[q],
        all_other_preserved(s.touched(op), s, s.apply(op)),
{
}

/// Every operation keeps the four constants: the same handles, still live,
/// and of the same kinds.
pub proof fn lemma_operation_preserves_constants(s: GpyStateView, op: GpyOperation)
    requires
        s.wf(),
        s.enabled(op),
    ensures
        s.apply(op).constants == s.constants,
        s.apply(op).constants_seeded(),
{
}

/// However many operations are performed on a state, its invariant holds
/// afterwards and its constants are the handles they were at the start.
pub proof fn lemma_constants_stable(s: GpyStateView, ops: Seq<GpyOperation>)
    requires
        s.wf(),
        s.enabled_all(ops),
    ensures
        s.apply_all(ops).wf(),
        s.apply_all(ops).constants == s.constants,
    decreases ops.len(),
{
    if ops.len() > 0 {
        lemma_operation_preserves_wf(s, ops[0]);
        lemma_operation_preserves_constants(s, ops[0]);
        lemma_constants_stable(s.apply(ops[0]), ops.subrange(1, ops.len() as int));
    }
}

/// The state that set-up leaves meets the invariant, whatever room the
/// allocator is given.
pub proof fn lemma_initial_wf(spare: nat)
    ensures
        GpyStateView::initial(spare).wf(),
        !GpyStateView::initial(spare).error,
{
}

/// A successful allocation returns a handle that is not null, was not live
/// before and was never issued before; afterwards it is live with one
/// reference and the kind asked for.
pub proof fn lemma_allocation_is_fresh(s: GpyStateView, data: GpyObjectData)
    requires
        s.wf(),
        s.can_allocate(),
    ensures
        !s.allocated_handle().is_null(),
        !s.live(s.allocated_handle()),
        s.allocated_handle()._private > s.issued,
        forall|q: PytObjectPointer| s.live(q) ==> q != s.allocated_handle(),
        s.allocate(data).live(s.allocated_handle()),
        s.allocate(data).ref_count(s.allocated_handle()) == 1,
        s.allocate(data).heap[s.allocated_handle()].data == data,
        s.allocate(data).error == s.error,
{
}

/// A failed allocation returns the null handle, sets the error flag and
/// changes no record.
pub proof fn lemma_allocation_failure(s: GpyStateView, data: GpyObjectData)
    requires
        s.wf(),
        !s.can_allocate(),
    ensures
        s.allocated_handle().is_null(),
        s.allocate(data).error,
        s.allocate(data).heap == s.heap,
        s.allocate(data).constants == s.constants,
{
}

/// Taking a reference on a handle raises its count by exactly one and keeps
/// its kind and its type handle.
pub proof fn lemma_incref_effect(s: GpyStateView, h: PytObjectPointer)
    requires
        s.wf(),
        s.can_incref(h),
    ensures
        s.incref(h).ref_count(h) == s.ref_count(h) + 1,
        s.incref(h).heap[h].data == s.heap[h].data,
        s.incref(h).heap[h].typ == s.heap[h].typ,
        all_other_preserved(h, s, s.incref(h)),
{
}

/// Taking two references on a handle raises its count by exactly two.
pub proof fn lemma_incref_twice(s: GpyStateView, h: PytObjectPointer)
    requires
        s.wf(),
        s.can_incref(h),
        s.incref(h).can_incref(h),
    ensures
        s.incref(h).incref(h).ref_count(h) == s.ref_count(h) + 2,
        all_other_preserved(h, s, s.incref(h).incref(h)),
{
}

/// A live handle is a boolean object exactly when it is the true object or
/// the false object.
pub proof fn lemma_bool_iff_true_or_false(s: GpyStateView, h: PytObjectPointer)
    requires
        s.wf(),
        s.live(h),
    ensures
        s.heap[h].data.is_bool() <==> (h == s.constants.py_true || h == s.constants.py_false),
        s.heap[h].data == GpyObjectData::PyBool(true) <==> h == s.constants.py_true,
        s.heap[h].data == GpyObjectData::PyBool(false) <==> h == s.constants.py_false,
{
}

/// A live handle is a none object exactly when it is the none constant.
pub proof fn lemma_none_iff_constant(s: GpyStateView, h: PytObjectPointer)
    requires
        s.wf(),
        s.live(h),
    ensures
        s.heap[h].data == GpyObjectData::PyNone <==> h == s.constants.py_none,
{
}

/// Two integer objects made one after the other for the same number sit
/// under different handles: being the same object is not a matter of value.
pub proof fn lemma_equal_values_differ_in_handle(s: GpyStateView, v: libc::c_long)
    requires
        s.wf(),
        s.can_allocate(),
        s.allocate(GpyObjectData::PyLong(v)).can_allocate(),
    ensures
        ({
            let first = s.allocated_handle();
            let mid = s.allocate(GpyObjectData::PyLong(v));
            let second = mid.allocated_handle();
            let last = mid.allocate(GpyObjectData::PyLong(v));
            &&& first != second
            &&& last.live(first)
            &&& last.live(second)
            &&& last.heap[first].data == last.heap[second].data
        }),
{
}

} // verus!

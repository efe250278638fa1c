use vstd::prelude::*;
use crate::handle::PytObjectPointer;
use crate::handle::pyt_ssize_t;
use crate::model::GpyOperation;
use crate::model::GpyStateView;
use crate::model::all_objects_preserved;
use crate::model::all_other_preserved;
use crate::model::constants_preserved;
use crate::model::errors_preserved;
use crate::object::GpyObjectData;
use crate::object::GpyObjectRecord;
use crate::state::GpyGlobalState;
use crate::state::gpy_create_state;

verus! {

/// Sets up the heap for use: the four constants under the handles 1 to 4,
/// each with one reference, no error, and an allocator that can issue every
/// further handle that the handle type has.
pub fn pyt_initialize() -> (s: GpyGlobalState)
    ensures
        s@ == GpyStateView::initial((usize::MAX - 4) as nat),
        s@.wf(),
        !s@.error,
{
    gpy_create_state(usize::MAX - 4)
}

/// Tears the heap down. The state is taken by value, so that no operation
/// can follow on it.
pub fn pyt_finalize(s: GpyGlobalState)
    requires
        s@.wf(),
{
    let _ = s;
}

/// Takes one more reference on the live handle `obj`: its count goes up by
/// exactly one, and nothing else changes.
pub fn pyt_incref(obj: PytObjectPointer, s: &mut GpyGlobalState)
    requires
        old(s)@.wf(),
        old(s)@.can_incref(obj),
    ensures
        final(s)@ == old(s)@.incref(obj),
        final(s)@ == old(s)@.apply(GpyOperation::Incref(obj)),
        final(s)@.wf(),
        final(s)@.ref_count(obj) == old(s)@.ref_count(obj) + 1,
        final(s)@.heap[obj].data == old(s)@.heap[obj].data,
        final(s)@.heap[obj].typ == old(s)@.heap[obj].typ,
        all_other_preserved(obj, old(s)@, final(s)@),
        errors_preserved(old(s)@, final(s)@),
        constants_preserved(old(s)@, final(s)@),
{
    let rec = obj.gpy_get(s);
    s.store(obj, GpyObjectRecord { ref_count: rec.ref_count + 1, data: rec.data, typ: rec.typ });
}

/// Releases one reference on the live handle `obj`: its count goes down by
/// exactly one, and nothing else changes. With the last reference the object
/// is reclaimed and `obj` is live no more.
pub fn pyt_decref(obj: PytObjectPointer, s: &mut GpyGlobalState)
    requires
        old(s)@.wf(),
        old(s)@.can_decref(obj),
    ensures
        final(s)@ == old(s)@.decref(obj),
        final(s)@ == old(s)@.apply(GpyOperation::Decref(obj)),
        final(s)@.wf(),
        final(s)@.ref_count(obj) == old(s)@.ref_count(obj) - 1,
        final(s)@.live(obj) <==> old(s)@.ref_count(obj) > 1,
        final(s)@.live(obj) ==> final(s)@.heap[obj].data == old(s)@.heap[obj].data
            && final(s)@.heap[obj].typ == old(s)@.heap[obj].typ,
        all_other_preserved(obj, old(s)@, final(s)@),
        errors_preserved(old(s)@, final(s)@),
        constants_preserved(old(s)@, final(s)@),
{
    let rec = obj.gpy_get(s);
    if rec.ref_count > 1 {
        s.store(obj, GpyObjectRecord { ref_count: rec.ref_count - 1, data: rec.data, typ: rec.typ });
    } else {
        s.reclaim(obj);
    }
}

/// The number of references held on the live handle `obj`.
pub fn pyt_refcnt(obj: PytObjectPointer, s: &GpyGlobalState) -> (r: pyt_ssize_t)
    requires
        s@.wf(),
        s@.live(obj),
    ensures
        r == s@.heap[obj].ref_count,
        r == s@.ref_count(obj),
        r >= 1,
{
    obj.gpy_get(s).ref_count
}

/// The number that the live handle `obj` holds. Where `obj` is an integer
/// object, that number is returned and nothing changes; otherwise -1 is
/// returned and the error flag is set. No record changes either way.
pub fn pytlong_aslong(obj: PytObjectPointer, s: &mut GpyGlobalState) -> (r: libc::c_long)
    requires
        old(s)@.wf(),
        old(s)@.live(obj),
    ensures
        old(s)@.heap[obj].data matches GpyObjectData::PyLong(v) ==> r == v
            && final(s)@ == old(s)@,
        !(old(s)@.heap[obj].data is PyLong) ==> r == -1 && final(s)@ == old(s)@.with_error(true),
        final(s)@ == old(s)@.apply(GpyOperation::AsLong(obj)),
        final(s)@.wf(),
        all_objects_preserved(old(s)@, final(s)@),
        constants_preserved(old(s)@, final(s)@),
{
    match obj.gpy_get(s).data {
        GpyObjectData::PyLong(v) => v,
        _ => {
            s.raise_error();
            -1
        },
    }
}

/// Makes an integer object that holds `v`.
///
/// Where the allocator has a handle left, the result is that handle: it is
/// not null, was not live before and has never been issued before, and is
/// now live with one reference; no other record changes and the error flag
/// stays. Otherwise the result is the null handle, the error flag is set and
/// no record changes.
pub fn pytlong_fromlong(v: libc::c_long, s: &mut GpyGlobalState) -> (r: PytObjectPointer)
    requires
        old(s)@.wf(),
    ensures
        final(s)@ == old(s)@.allocate(GpyObjectData::PyLong(v)),
        final(s)@ == old(s)@.apply(GpyOperation::FromLong(v)),
        r == old(s)@.allocated_handle(),
        final(s)@.wf(),
        r.is_null() <==> !old(s)@.can_allocate(),
        !r.is_null() ==> !old(s)@.live(r),
        !r.is_null() ==> r._private == old(s)@.issued + 1,
        !r.is_null() ==> final(s)@.heap[r] == GpyStateView::fresh_record(GpyObjectData::PyLong(v)),
        !r.is_null() ==> final(s)@.ref_count(r) == 1,
        !r.is_null() ==> all_other_preserved(r, old(s)@, final(s)@),
        !r.is_null() ==> errors_preserved(old(s)@, final(s)@),
        r.is_null() ==> all_objects_preserved(old(s)@, final(s)@),
        r.is_null() ==> final(s)@.error,
        constants_preserved(old(s)@, final(s)@),
{
    s.allocate(GpyObjectData::PyLong(v))
}

/// Whether the live handle `obj` is an integer object.
pub fn pylong_checkexact(obj: PytObjectPointer, s: &GpyGlobalState) -> (r: bool)
    requires
        s@.wf(),
        s@.live(obj),
    ensures
        r <==> s@.heap[obj].data is PyLong,
{
    matches!(obj.gpy_get(s).data, GpyObjectData::PyLong(_))
}

/// Makes an empty dictionary object.
///
/// Where the allocator has a handle left, the result is that handle: it is
/// not null, was not live before and has never been issued before, and is
/// now live with one reference; no other record changes and the error flag
/// stays. Otherwise the result is the null handle, the error flag is set and
/// no record changes.
pub fn pytdict_new(s: &mut GpyGlobalState) -> (r: PytObjectPointer)
    requires
        old(s)@.wf(),
    ensures
        final(s)@ == old(s)@.allocate(GpyObjectData::PyDict),
        final(s)@ == old(s)@.apply(GpyOperation::DictNew),
        r == old(s)@.allocated_handle(),
        final(s)@.wf(),
        r.is_null() <==> !old(s)@.can_allocate(),
        !r.is_null() ==> !old(s)@.live(r),
        !r.is_null() ==> r._private == old(s)@.issued + 1,
        !r.is_null() ==> final(s)@.heap[r] == GpyStateView::fresh_record(GpyObjectData::PyDict),
        !r.is_null() ==> final(s)@.ref_count(r) == 1,
        !r.is_null() ==> all_other_preserved(r, old(s)@, final(s)@),
        !r.is_null() ==> errors_preserved(old(s)@, final(s)@),
        r.is_null() ==> all_objects_preserved(old(s)@, final(s)@),
        r.is_null() ==> final(s)@.error,
        constants_preserved(old(s)@, final(s)@),
{
    s.allocate(GpyObjectData::PyDict)
}

/// Whether the live handle `obj` is a dictionary object.
pub fn pytdict_checkexact(obj: PytObjectPointer, s: &GpyGlobalState) -> (r: bool)
    requires
        s@.wf(),
        s@.live(obj),
    ensures
        r <==> s@.heap[obj].data == GpyObjectData::PyDict,
{
    matches!(obj.gpy_get(s).data, GpyObjectData::PyDict)
}

/// The handle of the none object, without a reference taken on it.
pub fn pytnone_getnoincref(s: &GpyGlobalState) -> (r: PytObjectPointer)
    ensures
        r == s@.constants.py_none,
{
    s.constants().py_none
}

/// The handle of the none object, with one more reference taken on it.
pub fn pytnone_get(s: &mut GpyGlobalState) -> (r: PytObjectPointer)
    requires
        old(s)@.wf(),
        old(s)@.can_incref(old(s)@.constants.py_none),
    ensures
        r == old(s)@.constants.py_none,
        final(s)@ == old(s)@.incref(r),
        final(s)@ == old(s)@.apply(GpyOperation::AcquireNone),
        final(s)@.wf(),
        final(s)@.ref_count(r) == old(s)@.ref_count(r) + 1,
        final(s)@.heap[r].data == old(s)@.heap[r].data,
        all_other_preserved(r, old(s)@, final(s)@),
        errors_preserved(old(s)@, final(s)@),
        constants_preserved(old(s)@, final(s)@),
{
    let obj = pytnone_getnoincref(s);
    pyt_incref(obj, s);
    obj
}

/// The handle of the true object, without a reference taken on it.
pub fn pytbool_gettruenoincref(s: &GpyGlobalState) -> (r: PytObjectPointer)
    ensures
        r == s@.constants.py_true,
{
    s.constants().py_true
}

/// The handle of the true object, with one more reference taken on it.
pub fn pytbool_gettrue(s: &mut GpyGlobalState) -> (r: PytObjectPointer)
    requires
        old(s)@.wf(),
        old(s)@.can_incref(old(s)@.constants.py_true),
    ensures
        r == old(s)@.constants.py_true,
        final(s)@ == old(s)@.incref(r),
        final(s)@ == old(s)@.apply(GpyOperation::AcquireTrue),
        final(s)@.wf(),
        final(s)@.ref_count(r) == old(s)@.ref_count(r) + 1,
        final(s)@.heap[r].data == old(s)@.heap[r].data,
        all_other_preserved(r, old(s)@, final(s)@),
        errors_preserved(old(s)@, final(s)@),
        constants_preserved(old(s)@, final(s)@),
{
    let obj = pytbool_gettruenoincref(s);
    pyt_incref(obj, s);
    obj
}

/// The handle of the false object, without a reference taken on it.
pub fn pytbool_getfalsenoincref(s: &GpyGlobalState) -> (r: PytObjectPointer)
    ensures
        r == s@.constants.py_false,
{
    s.constants().py_false
}

/// The handle of the false object, with one more reference taken on it.
pub fn pytbool_getfalse(s: &mut GpyGlobalState) -> (r: PytObjectPointer)
    requires
        old(s)@.wf(),
        old(s)@.can_incref(old(s)@.constants.py_false),
    ensures
        r == old(s)@.constants.py_false,
        final(s)@ == old(s)@.incref(r),
        final(s)@ == old(s)@.apply(GpyOperation::AcquireFalse),
        final(s)@.wf(),
        final(s)@.ref_count(r) == old(s)@.ref_count(r) + 1,
        final(s)@.heap[r].data == old(s)@.heap[r].data,
        all_other_preserved(r, old(s)@, final(s)@),
        errors_preserved(old(s)@, final(s)@),
        constants_preserved(old(s)@, final(s)@),
{
    let obj = pytbool_getfalsenoincref(s);
    pyt_incref(obj, s);
    obj
}

/// Whether the live handle `obj` is a boolean object, which it is exactly
/// when it is the true object or the false object.
pub fn pytbool_check(obj: PytObjectPointer, s: &GpyGlobalState) -> (r: bool)
    requires
        s@.wf(),
        s@.live(obj),
    ensures
        r == s@.heap[obj].data.is_bool(),
        r <==> obj == s@.constants.py_true || obj == s@.constants.py_false,
{
    obj.gpy_get(s).data.is_bool()
}

/// Whether `obj` is the none object.
pub fn pyt_isnone(obj: PytObjectPointer, s: &GpyGlobalState) -> (r: bool)
    ensures
        r <==> obj == s@.constants.py_none,
{
    obj == pytnone_getnoincref(s)
}

/// Whether `obj` is the true object.
pub fn pyt_istrue(obj: PytObjectPointer, s: &GpyGlobalState) -> (r: bool)
    ensures
        r <==> obj == s@.constants.py_true,
{
    obj == pytbool_gettruenoincref(s)
}

/// Whether `obj` is the false object.
pub fn pyt_isfalse(obj: PytObjectPointer, s: &GpyGlobalState) -> (r: bool)
    ensures
        r <==> obj == s@.constants.py_false,
{
    obj == pytbool_getfalsenoincref(s)
}

/// Whether the two handles are the same handle. Two objects that hold equal
/// values under different handles are not the same.
pub fn pyt_is(obj0: PytObjectPointer, obj1: PytObjectPointer) -> (r: bool)
    ensures
        r <==> obj0 == obj1,
{
    obj0 == obj1
}

} // verus!

use gpy_heap::handle::PytObjectPointer;
use gpy_heap::interface::{
    pyt_decref, pyt_finalize, pyt_incref, pyt_initialize, pyt_refcnt, pytdict_new, pytlong_aslong,
    pytlong_fromlong,
};
use gpy_heap::object::{GpyObjectData, GpyObjectRecord};
use gpy_heap::state::gpy_create_state;

fn null() -> PytObjectPointer {
    PytObjectPointer { _private: 0 }
}

#[test]
fn balanced_lifecycle() {
    let mut s = pyt_initialize();
    let h = pytlong_fromlong(33, &mut s);
    assert!(!h.is_null());
    assert_eq!(pyt_refcnt(h, &s), 1);
    pyt_incref(h, &mut s);
    pyt_incref(h, &mut s);
    assert_eq!(pyt_refcnt(h, &s), 3);
    pyt_decref(h, &mut s);
    pyt_decref(h, &mut s);
    assert_eq!(pyt_refcnt(h, &s), 1);
    assert_eq!(pytlong_aslong(h, &mut s), 33);
    pyt_decref(h, &mut s);
    assert!(!s.is_live(h));
    assert!(!s.error_occurred());
    pyt_finalize(s);
}

#[test]
fn initial_state_holds_the_four_constants() {
    let s = pyt_initialize();
    let c = s.constants();
    assert_eq!(c.py_none, PytObjectPointer { _private: 1 });
    assert_eq!(c.py_false, PytObjectPointer { _private: 2 });
    assert_eq!(c.py_true, PytObjectPointer { _private: 3 });
    assert_eq!(c.py_not_implemented, PytObjectPointer { _private: 4 });
    assert!(!s.error_occurred());
    let expect = |data| GpyObjectRecord { ref_count: 1, data, typ: null() };
    assert_eq!(c.py_none.gpy_get(&s), expect(GpyObjectData::PyNone));
    assert_eq!(c.py_false.gpy_get(&s), expect(GpyObjectData::PyBool(false)));
    assert_eq!(c.py_true.gpy_get(&s), expect(GpyObjectData::PyBool(true)));
    assert_eq!(c.py_not_implemented.gpy_get(&s), expect(GpyObjectData::PyNotImplemented));
    assert!(!s.is_live(PytObjectPointer { _private: 5 }));
    assert!(!s.is_live(null()));
}

#[test]
fn create_state_and_initialize_agree() {
    let a = gpy_create_state(7);
    let b = pyt_initialize();
    assert_eq!(a.constants(), b.constants());
    for v in 1..=4usize {
        let h = PytObjectPointer { _private: v };
        assert_eq!(h.gpy_get(&a), h.gpy_get(&b));
    }
}

#[test]
fn first_created_object_gets_handle_five() {
    let mut s = pyt_initialize();
    let h = pytlong_fromlong(-9, &mut s);
    assert_eq!(h, PytObjectPointer { _private: 5 });
    assert_eq!(
        h.gpy_get(&s),
        GpyObjectRecord { ref_count: 1, data: GpyObjectData::PyLong(-9), typ: null() }
    );
    let d = pytdict_new(&mut s);
    assert_eq!(d, PytObjectPointer { _private: 6 });
    assert_eq!(
        d.gpy_get(&s),
        GpyObjectRecord { ref_count: 1, data: GpyObjectData::PyDict, typ: null() }
    );
}

#[test]
fn incref_then_decref_restores_every_record() {
    let mut s = pyt_initialize();
    let a = pytlong_fromlong(1, &mut s);
    let b = pytdict_new(&mut s);
    pyt_incref(b, &mut s);
    let handles: Vec<PytObjectPointer> =
        (1..=6usize).map(|v| PytObjectPointer { _private: v }).collect();
    let before: Vec<GpyObjectRecord> = handles.iter().map(|h| h.gpy_get(&s)).collect();
    for h in &handles {
        pyt_incref(*h, &mut s);
        pyt_decref(*h, &mut s);
        let after: Vec<GpyObjectRecord> = handles.iter().map(|q| q.gpy_get(&s)).collect();
        assert_eq!(before, after);
    }
    assert!(s.is_live(a));
    assert!(!s.error_occurred());
}

#[test]
fn incref_changes_one_count_by_one_and_nothing_else() {
    let mut s = pyt_initialize();
    let a = pytlong_fromlong(10, &mut s);
    let b = pytlong_fromlong(20, &mut s);
    let handles: Vec<PytObjectPointer> =
        (1..=6usize).map(|v| PytObjectPointer { _private: v }).collect();
    let before: Vec<GpyObjectRecord> = handles.iter().map(|h| h.gpy_get(&s)).collect();
    let constants = s.constants();
    pyt_incref(a, &mut s);
    for (h, old) in handles.iter().zip(before.iter()) {
        let new = h.gpy_get(&s);
        if *h == a {
            assert_eq!(new.ref_count, old.ref_count + 1);
            assert_eq!(new.data, old.data);
            assert_eq!(new.typ, old.typ);
        } else {
            assert_eq!(new, *old);
        }
    }
    assert_eq!(s.constants(), constants);
    assert!(!s.error_occurred());
    assert_eq!(pyt_refcnt(b, &s), 1);
}

#[test]
fn decref_changes_one_count_by_one_and_nothing_else() {
    let mut s = pyt_initialize();
    let a = pytdict_new(&mut s);
    let b = pytlong_fromlong(20, &mut s);
    pyt_incref(a, &mut s);
    pyt_incref(a, &mut s);
    let handles: Vec<PytObjectPointer> =
        (1..=6usize).map(|v| PytObjectPointer { _private: v }).collect();
    let before: Vec<GpyObjectRecord> = handles.iter().map(|h| h.gpy_get(&s)).collect();
    pyt_decref(a, &mut s);
    for (h, old) in handles.iter().zip(before.iter()) {
        let new = h.gpy_get(&s);
        if *h == a {
            assert_eq!(new.ref_count, 2);
            assert_eq!(new.data, GpyObjectData::PyDict);
        } else {
            assert_eq!(new, *old);
        }
    }
    assert_eq!(pyt_refcnt(b, &s), 1);
}

#[test]
fn last_decref_reclaims_only_that_object() {
    let mut s = pyt_initialize();
    let a = pytlong_fromlong(1, &mut s);
    let b = pytlong_fromlong(2, &mut s);
    let kept: Vec<PytObjectPointer> =
        [1usize, 2, 3, 4, 6].iter().map(|v| PytObjectPointer { _private: *v }).collect();
    let before: Vec<GpyObjectRecord> = kept.iter().map(|h| h.gpy_get(&s)).collect();
    pyt_decref(a, &mut s);
    assert!(!s.is_live(a));
    assert!(s.is_live(b));
    let after: Vec<GpyObjectRecord> = kept.iter().map(|h| h.gpy_get(&s)).collect();
    assert_eq!(before, after);
    assert!(!s.error_occurred());
}

#[test]
fn a_reclaimed_handle_is_never_issued_again() {
    let mut s = pyt_initialize();
    let a = pytlong_fromlong(1, &mut s);
    pyt_decref(a, &mut s);
    let b = pytlong_fromlong(1, &mut s);
    assert_ne!(a, b);
    assert_eq!(b, PytObjectPointer { _private: 6 });
    assert!(!s.is_live(a));
    assert!(s.is_live(b));
    assert_eq!(pyt_refcnt(b, &s), 1);
}

#[test]
fn created_handles_differ_from_every_live_handle() {
    let mut s = pyt_initialize();
    let mut seen: Vec<PytObjectPointer> =
        (1..=4usize).map(|v| PytObjectPointer { _private: v }).collect();
    for i in 0..20 {
        let h = if i % 2 == 0 { pytlong_fromlong(7, &mut s) } else { pytdict_new(&mut s) };
        assert!(!h.is_null());
        assert!(!seen.contains(&h));
        assert_eq!(pyt_refcnt(h, &s), 1);
        seen.push(h);
    }
}

#[test]
fn allocation_failure_sets_error_and_keeps_records() {
    let mut s = gpy_create_state(0);
    let handles: Vec<PytObjectPointer> =
        (1..=4usize).map(|v| PytObjectPointer { _private: v }).collect();
    let before: Vec<GpyObjectRecord> = handles.iter().map(|h| h.gpy_get(&s)).collect();
    let constants = s.constants();
    assert!(!s.error_occurred());
    let d = pytdict_new(&mut s);
    assert!(d.is_null());
    assert_eq!(d, null());
    assert!(s.error_occurred());
    let after: Vec<GpyObjectRecord> = handles.iter().map(|h| h.gpy_get(&s)).collect();
    assert_eq!(before, after);
    assert_eq!(s.constants(), constants);
    assert!(!s.is_live(PytObjectPointer { _private: 5 }));
}

#[test]
fn long_allocation_failure_sets_error_and_keeps_records() {
    let mut s = gpy_create_state(0);
    let before = PytObjectPointer { _private: 3 }.gpy_get(&s);
    let h = pytlong_fromlong(33, &mut s);
    assert!(h.is_null());
    assert!(s.error_occurred());
    assert_eq!(PytObjectPointer { _private: 3 }.gpy_get(&s), before);
}

#[test]
fn allocator_issues_exactly_the_spare_handles() {
    let mut s = gpy_create_state(2);
    let a = pytlong_fromlong(1, &mut s);
    let b = pytdict_new(&mut s);
    assert_eq!(a, PytObjectPointer { _private: 5 });
    assert_eq!(b, PytObjectPointer { _private: 6 });
    assert!(!s.error_occurred());
    let c = pytlong_fromlong(3, &mut s);
    assert!(c.is_null());
    assert!(s.error_occurred());
    pyt_decref(a, &mut s);
    s.clear_error();
    let d = pytdict_new(&mut s);
    assert!(d.is_null());
    assert!(s.error_occurred());
    assert_eq!(pyt_refcnt(b, &s), 1);
}

#[test]
fn successful_allocation_keeps_the_error_flag() {
    let mut s = gpy_create_state(1);
    let a = pytlong_fromlong(1, &mut s);
    assert!(!a.is_null());
    assert!(!s.error_occurred());
    let b = pytlong_fromlong(2, &mut s);
    assert!(b.is_null());
    assert!(s.error_occurred());
    let mut t = gpy_create_state(3);
    let x = pytdict_new(&mut t);
    let bad = pytlong_aslong(x, &mut t);
    assert_eq!(bad, -1);
    assert!(t.error_occurred());
    let y = pytdict_new(&mut t);
    assert!(!y.is_null());
    assert!(t.error_occurred());
}

#[test]
fn clear_error_resets_only_the_flag() {
    let mut s = gpy_create_state(0);
    let _ = pytdict_new(&mut s);
    assert!(s.error_occurred());
    let before = PytObjectPointer { _private: 1 }.gpy_get(&s);
    let constants = s.constants();
    s.clear_error();
    assert!(!s.error_occurred());
    assert_eq!(PytObjectPointer { _private: 1 }.gpy_get(&s), before);
    assert_eq!(s.constants(), constants);
}

#[test]
fn largest_spare_still_allocates() {
    let mut s = gpy_create_state(usize::MAX);
    let h = pytdict_new(&mut s);
    assert_eq!(h, PytObjectPointer { _private: 5 });
    assert!(!s.error_occurred());
}

#[test]
fn aslong_reads_the_number_and_changes_nothing() {
    let mut s = pyt_initialize();
    let a = pytlong_fromlong(i64::MIN as libc::c_long, &mut s);
    let b = pytlong_fromlong(i64::MAX as libc::c_long, &mut s);
    let z = pytlong_fromlong(0, &mut s);
    let before = a.gpy_get(&s);
    assert_eq!(pytlong_aslong(a, &mut s), i64::MIN as libc::c_long);
    assert_eq!(pytlong_aslong(b, &mut s), i64::MAX as libc::c_long);
    assert_eq!(pytlong_aslong(z, &mut s), 0);
    assert_eq!(a.gpy_get(&s), before);
    assert!(!s.error_occurred());
}

#[test]
fn aslong_of_another_kind_returns_minus_one_and_sets_error() {
    let mut s = pyt_initialize();
    let d = pytdict_new(&mut s);
    let before = d.gpy_get(&s);
    assert_eq!(pytlong_aslong(d, &mut s), -1);
    assert!(s.error_occurred());
    assert_eq!(d.gpy_get(&s), before);
    s.clear_error();
    let t = s.constants().py_true;
    assert_eq!(pytlong_aslong(t, &mut s), -1);
    assert!(s.error_occurred());
    s.clear_error();
    let m = pytlong_fromlong(-1, &mut s);
    assert_eq!(pytlong_aslong(m, &mut s), -1);
    assert!(!s.error_occurred());
}

#[test]
fn is_live_tells_live_from_dead_and_forged_handles() {
    let mut s = pyt_initialize();
    assert!(!s.is_live(null()));
    assert!(s.is_live(PytObjectPointer { _private: 4 }));
    assert!(!s.is_live(PytObjectPointer { _private: 5 }));
    assert!(!s.is_live(PytObjectPointer { _private: usize::MAX }));
    let h = pytdict_new(&mut s);
    assert!(s.is_live(h));
    pyt_decref(h, &mut s);
    assert!(!s.is_live(h));
}

#[test]
fn is_null_holds_of_zero_only() {
    assert!(PytObjectPointer { _private: 0 }.is_null());
    assert!(!PytObjectPointer { _private: 1 }.is_null());
    assert!(!PytObjectPointer { _private: usize::MAX }.is_null());
}

#[test]
fn two_states_do_not_share_objects() {
    let mut a = pyt_initialize();
    let mut b = pyt_initialize();
    let h = pytlong_fromlong(5, &mut a);
    assert!(a.is_live(h));
    assert!(!b.is_live(h));
    let k = pytdict_new(&mut b);
    assert_eq!(h, k);
    assert_eq!(h.gpy_get(&a).data, GpyObjectData::PyLong(5));
    assert_eq!(k.gpy_get(&b).data, GpyObjectData::PyDict);
    pyt_finalize(a);
    pyt_finalize(b);
}

#[test]
fn can_incref_holds_of_live_handles_below_the_largest_count() {
    let mut s = pyt_initialize();
    let h = pytlong_fromlong(5, &mut s);
    assert!(s.can_incref(h));
    assert!(s.can_incref(PytObjectPointer { _private: 1 }));
    assert!(!s.can_incref(null()));
    assert!(!s.can_incref(PytObjectPointer { _private: 99 }));
    pyt_decref(h, &mut s);
    assert!(!s.can_incref(h));
}

#[test]
fn can_decref_spares_the_last_reference_of_a_constant() {
    let mut s = pyt_initialize();
    let c = s.constants();
    for h in [c.py_none, c.py_false, c.py_true, c.py_not_implemented] {
        assert!(c.contains(h));
        assert!(!s.can_decref(h));
        pyt_incref(h, &mut s);
        assert!(s.can_decref(h));
        pyt_decref(h, &mut s);
        assert!(!s.can_decref(h));
        assert_eq!(pyt_refcnt(h, &s), 1);
    }
    let h = pytdict_new(&mut s);
    assert!(!c.contains(h));
    assert!(!c.contains(null()));
    assert!(s.can_decref(h));
    pyt_decref(h, &mut s);
    assert!(!s.can_decref(h));
    assert!(!s.can_decref(null()));
}

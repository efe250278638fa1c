use vstd::prelude::*;

verus! {

/// The behaviour that a type gives to the objects that carry it.
pub trait GpyType {
    /// Whether the type's action is defined on an object that holds `data`.
    spec fn act_defined(&self, data: isize) -> bool;

    /// What an object that holds `data` holds after the type's action.
    spec fn act_data(&self, data: isize) -> isize;

    /// Performs the type's action on what an object holds and returns what
    /// the object holds afterwards.
    fn act(&self, data: isize) -> (r: isize)
        requires
            self.act_defined(data),
        ensures
            r == self.act_data(data),
    ;
}

/// An object together with the type that acts on it.
pub struct GpyObject<'a, T: GpyType> {
    pub data: isize,
    pub typ: &'a T,
}

/// The type whose action doubles what the object holds.
pub struct DoublingType;

impl GpyType for DoublingType {
    /// Doubling is defined where the double fits the object.
    open spec fn act_defined(&self, data: isize) -> bool {
        isize::MIN <= 2 * data <= isize::MAX
    }

    open spec fn act_data(&self, data: isize) -> isize {
        (2 * data) as isize
    }

    fn act(&self, data: isize) -> (r: isize) {
        data * 2
    }
}

/// Makes an object that holds `data` and carries the type `typ`.
pub fn pyt_new_object<'a, T: GpyType>(data: isize, typ: &'a T) -> (r: GpyObject<'a, T>)
    ensures
        r.data == data,
        r.typ == typ,
{
    GpyObject { data, typ }
}

/// Lets the object's type act on it: afterwards the object holds what the
/// type's action gives for what it held before, and carries the same type.
pub fn pyt_apply_action<T: GpyType>(obj: &mut GpyObject<T>)
    requires
        old(obj).typ.act_defined(old(obj).data),
    ensures
        final(obj).data == old(obj).typ.act_data(old(obj).data),
        final(obj).typ == old(obj).typ,
{
    obj.data = obj.typ.act(obj.data);
}

} // verus!

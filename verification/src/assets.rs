//! Handle-indexed storage for shared, immutable values.
//!
//! The host keeps scenes, canvas images, materials and meshes in stores that
//! hand out stable handles.  A handle is a `u64`; the value 0 is the default
//! handle, which is always valid to hold and never resolves to anything.  A
//! fresh handle is issued by [`Assets::store`] and keeps resolving to the
//! stored slot for the life of the store; only [`Assets::set`] changes what a
//! slot holds.

use vstd::prelude::*;

verus! {

/// A store of values addressed by stable handles.
pub struct Assets<T> {
    items: Vec<T>,
}

impl<T> View for Assets<T> {
    type V = Seq<T>;

    closed spec fn view(&self) -> Seq<T> {
        self.items@
    }
}

impl<T> Assets<T> {
    /// Whether a handle resolves to a stored value.  The default handle 0
    /// resolves to nothing.
    pub open spec fn resolves(&self, h: u64) -> bool {
        1 <= h <= self@.len()
    }

    /// The value a resolving handle refers to.
    pub open spec fn value_of(&self, h: u64) -> T
        recommends
            self.resolves(h),
    {
        self@[h as int - 1]
    }

    /// An empty store.
    pub fn new() -> (r: Assets<T>)
        ensures
            r@ == Seq::<T>::empty(),
    {
        Assets { items: Vec::new() }
    }

    /// Stores a value and returns the fresh handle that resolves to it.
    /// Existing handles keep resolving to their old slots.
    pub fn store(&mut self, v: T) -> (h: u64)
        requires
            old(self)@.len() < 0xffffffffffffffff,
        ensures
            final(self)@ == old(self)@.push(v),
            h == old(self)@.len() + 1,
            final(self).resolves(h),
            !old(self).resolves(h),
            final(self).value_of(h) == v,
    {
        let n = self.items.len();
        self.items.push(v);
        (n as u64) + 1
    }

    /// Looks a handle up.
    pub fn get(&self, h: u64) -> (r: Option<&T>)
        ensures
            match r {
                Some(v) => self.resolves(h) && *v == self.value_of(h),
                None => !self.resolves(h),
            },
    {
        if h >= 1 && h <= self.items.len() as u64 {
            Some(&self.items[(h - 1) as usize])
        } else {
            None
        }
    }

    /// Whether a handle resolves to a stored value.
    pub fn contains(&self, h: u64) -> (r: bool)
        ensures
            r == self.resolves(h),
    {
        h >= 1 && h <= self.items.len() as u64
    }

    /// Replaces the value a handle resolves to, reporting whether the handle
    /// resolved; an unresolved handle leaves the store unchanged.
    pub fn set(&mut self, h: u64, v: T) -> (ok: bool)
        ensures
            ok == old(self).resolves(h),
            ok ==> final(self)@ == old(self)@.update(h as int - 1, v),
            !ok ==> final(self)@ == old(self)@,
    {
        if h >= 1 && h <= self.items.len() as u64 {
            self.items[(h - 1) as usize] = v;
            true
        } else {
            false
        }
    }

    /// The number of values ever stored.
    pub fn len(&self) -> (r: usize)
        ensures
            r == self@.len(),
    {
        self.items.len()
    }
}

} // verus!

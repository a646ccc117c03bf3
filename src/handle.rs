//! `Handle<T>`: a wrapper that holds a `T` by value and adds nothing to it.
use crate::ptr::{ConstPtr, MutPtr};
use std::marker::PhantomData;
use std::rc::Rc;
use vstd::std_specs::cmp::PartialEqSpec;
use vstd::prelude::*;

verus! {

/// Owns one `T`, embedded directly.
///
/// The second field holds no data. Its type is neither `Send` nor `Sync`, so a
/// handle never inherits thread-safety from `T`.
pub struct Handle<T>(T, PhantomData<Rc<()>>);

impl<T> View for Handle<T> {
    type V = T;

    /// The wrapped instance.
    closed spec fn view(&self) -> T {
        self.0
    }
}

impl<T> Handle<T> {
    /// Wraps an instance into a handle.
    pub fn from_instance(t: T) -> (r: Self)
        ensures
            r@ == t,
    {
        Handle(t, PhantomData)
    }

    /// Relabels a pointer to an instance as a pointer to its handle.
    pub fn from_ptr(tp: ConstPtr<T>) -> (r: ConstPtr<Self>)
        ensures
            r@ == tp@,
    {
        tp.cast()
    }

    /// Relabels a mutable pointer to an instance as a mutable pointer to its handle.
    pub fn from_ptr_mut(tp: MutPtr<T>) -> (r: MutPtr<Self>)
        ensures
            r@ == tp@,
    {
        tp.cast()
    }

    /// Puts the instance of this handle into `t`, and returns the instance
    /// that `t` held, wrapped in a handle. Neither instance is dropped.
    pub fn replace(self, t: &mut T) -> (r: Self)
        ensures
            r@ == *old(t),
            *final(t) == self@,
    {
        let mut h = self;
        std::mem::swap(&mut h.0, t);
        h
    }

    /// Consumes the handle and returns the wrapped instance.
    pub fn into_instance(self) -> (r: T)
        ensures
            r == self@,
    {
        self.0
    }

    /// Returns a reference to the wrapped instance.
    pub fn instance(&self) -> (r: &T)
        ensures
            *r == self@,
    {
        &self.0
    }

    /// Returns a mutable reference to the wrapped instance.
    pub fn instance_mut(&mut self) -> (r: &mut T)
        ensures
            *r == old(self)@,
            final(self)@ == *final(r),
    {
        &mut self.0
    }
}

impl<T> AsRef<Handle<T>> for Handle<T> {
    fn as_ref(&self) -> (r: &Self)
        ensures
            r == self,
    {
        self
    }
}

impl<T> From<T> for Handle<T> {
    fn from(t: T) -> (r: Self)
        ensures
            r@ == t,
    {
        Self::from_instance(t)
    }
}

impl<T> vstd::std_specs::convert::FromSpecImpl<T> for Handle<T> {
    open spec fn obeys_from_spec() -> bool {
        true
    }

    closed spec fn from_spec(t: T) -> Self {
        Handle(t, PhantomData)
    }
}

impl<T: Clone> Clone for Handle<T> {
    fn clone(&self) -> (r: Self)
        ensures
            cloned(self@, r@),
    {
        Self::from_instance(self.0.clone())
    }
}

impl<T: PartialEq> PartialEq for Handle<T> {
    fn eq(&self, other: &Self) -> (r: bool) {
        self.instance().eq(other.instance())
    }
}

impl<T: PartialEq> vstd::std_specs::cmp::PartialEqSpecImpl for Handle<T> {
    open spec fn obeys_eq_spec() -> bool {
        T::obeys_eq_spec()
    }

    open spec fn eq_spec(&self, other: &Self) -> bool {
        self@.eq_spec(&other@)
    }
}

impl<T> std::ops::Deref for Handle<T> {
    type Target = T;

    fn deref(&self) -> (r: &T)
        ensures
            *r == self@,
    {
        self.instance()
    }
}

impl<T> std::ops::DerefMut for Handle<T> {
    fn deref_mut(&mut self) -> (r: &mut T)
        ensures
            *r == old(self)@,
            final(self)@ == *final(r),
    {
        self.instance_mut()
    }
}

/// Wrapping a value and unwrapping the handle again gives back that value.
pub proof fn lemma_round_trip<T>(v: T, h: Handle<T>, back: T)
    requires
        call_ensures(Handle::<T>::from_instance, (v,), h),
        call_ensures(Handle::<T>::into_instance, (h,), back),
    ensures
        back == v,
{
}

/// Handles wrapped around instances that are equal by `T`'s equality are
/// equal by the handle's equality. `==` on the handles returns this whenever
/// `T`'s own `==` is described by its `eq_spec` (`T::obeys_eq_spec()`).
pub proof fn lemma_equal_instances_equal_handles<T: PartialEq>(a: T, b: T, ha: Handle<T>, hb: Handle<T>)
    requires
        call_ensures(Handle::<T>::from_instance, (a,), ha),
        call_ensures(Handle::<T>::from_instance, (b,), hb),
        a.eq_spec(&b),
    ensures
        ha.eq_spec(&hb),
{
}

} // verus!

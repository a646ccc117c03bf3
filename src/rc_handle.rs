//! `RCHandle<T>`: a wrapper around a non-null pointer to a `T` that lives in
//! memory owned outside the wrapper.
use crate::memory::Memory;
use crate::ptr::{MutPtr, NonNullPtr};
use std::marker::PhantomData;
use std::rc::Rc;
use vstd::prelude::*;
use vstd::std_specs::cmp::PartialEqSpec;

verus! {

/// A reference counted handle: a pointer, never null, to a `T` whose storage
/// and count are kept outside it. Two handles may lead to the same instance.
///
/// The second field holds no data. Its type is neither `Send` nor `Sync`, so a
/// handle never inherits thread-safety from `T`: the instance it leads to may
/// belong to a runtime that only one thread may touch.
pub struct RCHandle<T>(NonNullPtr<T>, PhantomData<Rc<()>>);

impl<T> View for RCHandle<T> {
    type V = usize;

    /// The address the handle leads to.
    closed spec fn view(&self) -> usize {
        self.0@
    }
}

impl<T> RCHandle<T> {
    /// Takes ownership of what `ptr` leads to, without touching its count.
    /// Returns `None` if `ptr` is null.
    pub fn from_ptr(ptr: MutPtr<T>) -> (r: Option<Self>)
        ensures
            ptr@ == 0 <==> r is None,
            r matches Some(h) ==> h@ == ptr@,
    {
        match NonNullPtr::new(ptr) {
            Some(p) => Some(RCHandle(p, PhantomData)),
            None => None,
        }
    }

    /// Shares ownership of what `ptr` leads to, which is read once to see
    /// that it lives. Returns `None` if `ptr` is null.
    pub fn from_unshared_ptr(ptr: MutPtr<T>, mem: &Memory<T>) -> (r: Option<Self>)
        requires
            ptr@ == 0 || mem.contains(ptr@),
        ensures
            ptr@ == 0 <==> r is None,
            r matches Some(h) ==> h@ == ptr@,
    {
        match NonNullPtr::new(ptr) {
            Some(p) => {
                let _ = mem.get(ptr);
                Some(RCHandle(p, PhantomData))
            },
            None => None,
        }
    }

    /// Reads a slot that holds a possibly null pointer as a slot that holds
    /// an optional handle: `None` where the pointer is null.
    pub fn from_unshared_ptr_ref(t: &MutPtr<T>) -> (r: Option<Self>)
        ensures
            t@ == 0 <==> r is None,
            r matches Some(h) ==> h@ == t@,
    {
        Self::from_ptr(*t)
    }

    /// Takes ownership of the instance that `t` refers to; `t` cannot be null.
    pub fn from_ref(t: NonNullPtr<T>) -> (r: Self)
        ensures
            r@ == t@,
    {
        RCHandle(t, PhantomData)
    }

    /// The pointer the handle holds.
    pub fn as_ptr(&self) -> (r: &NonNullPtr<T>)
        ensures
            r@ == self@,
    {
        &self.0
    }

    /// A reference to the instance the handle leads to.
    pub fn as_ref<'a>(&self, mem: &'a Memory<T>) -> (r: &'a T)
        requires
            mem.contains(self@),
        ensures
            *r == mem.pointee(self@),
    {
        mem.get(self.0.as_ptr())
    }

    /// A mutable reference to the instance the handle leads to. What is
    /// written through it is what any other access to that address reads.
    pub fn as_mut<'a>(&self, mem: &'a mut Memory<T>) -> (r: &'a mut T)
        requires
            old(mem).contains(self@),
        ensures
            *r == old(mem).pointee(self@),
            final(mem)@ == old(mem)@.update(self@ - 1, *final(r)),
    {
        mem.get_mut(self.0.as_ptr())
    }

    /// Consumes the handle and returns its pointer; nothing is released.
    pub fn into_ptr(self) -> (r: MutPtr<T>)
        ensures
            r@ == self@,
            r@ != 0,
    {
        let p = self.0.addr();
        MutPtr::from_addr(p)
    }

    /// Whether the instances that the two handles lead to are equal, by the
    /// equality of `T`.
    pub fn eq_in(&self, other: &Self, mem: &Memory<T>) -> (r: bool)
        where
            T: PartialEq,
        requires
            mem.contains(self@),
            mem.contains(other@),
        ensures
            T::obeys_eq_spec() ==> r == mem.pointee(self@).eq_spec(&mem.pointee(other@)),
    {
        self.as_ref(mem).eq(other.as_ref(mem))
    }
}

impl<T> Clone for RCHandle<T> {
    /// A second handle to the same instance.
    fn clone(&self) -> (r: Self)
        ensures
            r == *self,
    {
        RCHandle(self.0, PhantomData)
    }
}

impl<T> AsRef<RCHandle<T>> for RCHandle<T> {
    // No `ensures` here: inside a contract Verus resolves `as_ref` to the
    // inherent method of the same name, which takes the memory as well.
    fn as_ref(&self) -> (r: &RCHandle<T>) {
        self
    }
}

impl<T> From<&RCHandle<T>> for RCHandle<T> {
    fn from(rch: &RCHandle<T>) -> (r: Self)
        ensures
            r == *rch,
    {
        rch.clone()
    }
}

impl<T> vstd::std_specs::convert::FromSpecImpl<&RCHandle<T>> for RCHandle<T> {
    open spec fn obeys_from_spec() -> bool {
        true
    }

    open spec fn from_spec(rch: &RCHandle<T>) -> Self {
        *rch
    }
}

/// Cloning a handle and consuming one of the two copies into a pointer leaves
/// the other copy leading to the same address, where the instance still lives.
pub proof fn lemma_clone_then_into_ptr<T>(
    h: RCHandle<T>,
    copy: RCHandle<T>,
    released: MutPtr<T>,
    mem: Memory<T>,
)
    requires
        call_ensures(RCHandle::<T>::clone, (&h,), copy),
        call_ensures(RCHandle::<T>::into_ptr, (h,), released),
        mem.contains(h@),
    ensures
        copy@ == h@,
        released@ == copy@,
        mem.contains(copy@),
{
}

} // verus!

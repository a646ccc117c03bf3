//! Pointers into storage that lives outside the wrappers, modelled by their
//! addresses. Address 0 is the null pointer.
use std::marker::PhantomData;
use vstd::prelude::*;

verus! {

/// A possibly null pointer to a `T` that may only be read through.
pub struct ConstPtr<T> {
    addr: usize,
    pointee: PhantomData<T>,
}

/// A possibly null pointer to a `T` that may be written through.
pub struct MutPtr<T> {
    addr: usize,
    pointee: PhantomData<T>,
}

/// A pointer to a `T` that is never null.
pub struct NonNullPtr<T> {
    addr: usize,
    pointee: PhantomData<T>,
}

impl<T> View for ConstPtr<T> {
    type V = usize;

    closed spec fn view(&self) -> usize {
        self.addr
    }
}

impl<T> View for MutPtr<T> {
    type V = usize;

    closed spec fn view(&self) -> usize {
        self.addr
    }
}

impl<T> View for NonNullPtr<T> {
    type V = usize;

    closed spec fn view(&self) -> usize {
        self.addr
    }
}

impl<T> ConstPtr<T> {
    /// The null pointer.
    pub fn null() -> (r: Self)
        ensures
            r@ == 0,
    {
        ConstPtr { addr: 0, pointee: PhantomData }
    }

    /// The pointer to `addr`.
    pub fn from_addr(addr: usize) -> (r: Self)
        ensures
            r@ == addr,
    {
        ConstPtr { addr, pointee: PhantomData }
    }

    /// The address held.
    pub fn addr(&self) -> (r: usize)
        ensures
            r == self@,
    {
        self.addr
    }

    /// Whether this is the null pointer.
    pub fn is_null(&self) -> (r: bool)
        ensures
            r == (self@ == 0),
    {
        self.addr == 0
    }

    /// The same address, seen as a pointer to another type.
    pub fn cast<U>(self) -> (r: ConstPtr<U>)
        ensures
            r@ == self@,
    {
        ConstPtr { addr: self.addr, pointee: PhantomData }
    }
}

impl<T> MutPtr<T> {
    /// The null pointer.
    pub fn null() -> (r: Self)
        ensures
            r@ == 0,
    {
        MutPtr { addr: 0, pointee: PhantomData }
    }

    /// The pointer to `addr`.
    pub fn from_addr(addr: usize) -> (r: Self)
        ensures
            r@ == addr,
    {
        MutPtr { addr, pointee: PhantomData }
    }

    /// The address held.
    pub fn addr(&self) -> (r: usize)
        ensures
            r == self@,
    {
        self.addr
    }

    /// Whether this is the null pointer.
    pub fn is_null(&self) -> (r: bool)
        ensures
            r == (self@ == 0),
    {
        self.addr == 0
    }

    /// The same address, seen as a pointer to another type.
    pub fn cast<U>(self) -> (r: MutPtr<U>)
        ensures
            r@ == self@,
    {
        MutPtr { addr: self.addr, pointee: PhantomData }
    }
}

impl<T> NonNullPtr<T> {
    #[verifier::type_invariant]
    spec fn not_null(self) -> bool {
        self.addr != 0
    }

    /// `Some` pointer to the same address if `ptr` is not null, `None` if it is.
    pub fn new(ptr: MutPtr<T>) -> (r: Option<Self>)
        ensures
            ptr@ == 0 <==> r is None,
            r matches Some(p) ==> p@ == ptr@,
    {
        if ptr.addr == 0 {
            None
        } else {
            Some(NonNullPtr { addr: ptr.addr, pointee: PhantomData })
        }
    }

    /// The address held, which is never 0.
    pub fn addr(&self) -> (r: usize)
        ensures
            r == self@,
            r != 0,
    {
        proof {
            use_type_invariant(self);
        }
        self.addr
    }

    /// The same address as a possibly null pointer.
    pub fn as_ptr(&self) -> (r: MutPtr<T>)
        ensures
            r@ == self@,
    {
        MutPtr { addr: self.addr, pointee: PhantomData }
    }
}

impl<T> Clone for ConstPtr<T> {
    fn clone(&self) -> (r: Self)
        ensures
            r == *self,
    {
        ConstPtr { addr: self.addr, pointee: PhantomData }
    }
}

impl<T> Copy for ConstPtr<T> {}

impl<T> Clone for MutPtr<T> {
    fn clone(&self) -> (r: Self)
        ensures
            r == *self,
    {
        MutPtr { addr: self.addr, pointee: PhantomData }
    }
}

impl<T> Copy for MutPtr<T> {}

impl<T> Clone for NonNullPtr<T> {
    fn clone(&self) -> (r: Self)
        ensures
            r == *self,
    {
        proof {
            use_type_invariant(self);
        }
        NonNullPtr { addr: self.addr, pointee: PhantomData }
    }
}

impl<T> Copy for NonNullPtr<T> {}

} // verus!

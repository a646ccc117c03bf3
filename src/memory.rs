//! `Memory<T>`: storage that an outside allocator owns, where pointers lead.
use crate::ptr::MutPtr;
use vstd::prelude::*;

verus! {

/// Instances of `T` placed by an outside allocator. The `i`-th instance placed
/// lives at address `i + 1`; address 0 holds nothing.
pub struct Memory<T> {
    cells: Vec<T>,
}

impl<T> View for Memory<T> {
    type V = Seq<T>;

    /// The instances, in the order they were placed.
    closed spec fn view(&self) -> Seq<T> {
        self.cells@
    }
}

impl<T> Memory<T> {
    /// Whether an instance lives at `addr`.
    pub open spec fn contains(&self, addr: usize) -> bool {
        1 <= addr <= self@.len()
    }

    /// The instance that lives at `addr`.
    pub open spec fn pointee(&self, addr: usize) -> T {
        self@[addr - 1]
    }

    /// Storage that holds nothing yet.
    pub fn new() -> (r: Self)
        ensures
            r@ == Seq::<T>::empty(),
    {
        Memory { cells: Vec::new() }
    }

    /// Places `v` at a new address and returns a pointer to it.
    pub fn allocate(&mut self, v: T) -> (p: MutPtr<T>)
        requires
            old(self)@.len() < usize::MAX,
        ensures
            p@ == old(self)@.len() + 1,
            final(self)@ == old(self)@.push(v),
    {
        self.cells.push(v);
        MutPtr::from_addr(self.cells.len())
    }

    /// Whether an instance lives at `addr`.
    pub fn is_live(&self, addr: usize) -> (r: bool)
        ensures
            r == self.contains(addr),
    {
        1 <= addr && addr <= self.cells.len()
    }

    /// A reference to the instance that `p` leads to.
    pub fn get(&self, p: MutPtr<T>) -> (r: &T)
        requires
            self.contains(p@),
        ensures
            *r == self.pointee(p@),
    {
        &self.cells[p.addr() - 1]
    }

    /// A mutable reference to the instance that `p` leads to. What is written
    /// through it stays at that address; no other instance changes.
    pub fn get_mut(&mut self, p: MutPtr<T>) -> (r: &mut T)
        requires
            old(self).contains(p@),
        ensures
            *r == old(self).pointee(p@),
            final(self)@ == old(self)@.update(p@ - 1, *final(r)),
    {
        &mut self.cells[p.addr() - 1]
    }
}

/// Writing `v` at a live address of `before` makes every read there give `v`,
/// while every other address keeps what it held.
pub proof fn lemma_write_is_seen<T>(before: Memory<T>, after: Memory<T>, addr: usize, v: T)
    requires
        before.contains(addr),
        after@ == before@.update(addr - 1, v),
    ensures
        after.contains(addr),
        after.pointee(addr) == v,
        forall|a: usize| a != addr && before.contains(a) ==> after.contains(a) && after.pointee(a) == before.pointee(a),
{
}

} // verus!

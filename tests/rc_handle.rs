use handles::memory::Memory;
use handles::ptr::{MutPtr, NonNullPtr};
use handles::rc_handle::RCHandle;

#[derive(Clone, Debug, PartialEq)]
struct Thing {
    number: i32,
}

#[test]
fn test_rchandle() {
    for num in 0..128 {
        let mut mem = Memory::new();
        let thing = mem.allocate(Thing { number: num });
        let rch = RCHandle::from_ptr(thing).unwrap();
        assert!(
            rch.as_ref(&mem).number == num
                && mem.get(thing).number == num
                && rch.as_mut(&mut mem).number == num
        );
        let new_num = num * 6;
        rch.as_mut(&mut mem).number = new_num;
        assert!(rch.as_ref(&mem).number == new_num);

        let rch = RCHandle::from_ref(NonNullPtr::new(thing).unwrap());
        rch.as_mut(&mut mem).number = 11;
        assert!(rch.as_ref(&mem).number == 11);
    }
}

#[test]
fn null_pointer_gives_no_handle() {
    let mem: Memory<Thing> = Memory::new();
    assert!(RCHandle::<Thing>::from_ptr(MutPtr::null()).is_none());
    assert!(RCHandle::from_unshared_ptr(MutPtr::null(), &mem).is_none());
    assert!(RCHandle::<Thing>::from_unshared_ptr_ref(&MutPtr::null()).is_none());
}

#[test]
fn non_null_pointer_gives_a_handle_to_it() {
    let mut mem = Memory::new();
    mem.allocate(Thing { number: 1 });
    let p = mem.allocate(Thing { number: 2 });
    assert_eq!(p.addr(), 2);
    let h = RCHandle::from_ptr(p).unwrap();
    assert_eq!(h.as_ptr().addr(), 2);
    let h = RCHandle::from_unshared_ptr(p, &mem).unwrap();
    assert_eq!(h.as_ptr().addr(), 2);
    assert_eq!(h.as_ref(&mem).number, 2);
    let h = RCHandle::from_unshared_ptr_ref(&p).unwrap();
    assert_eq!(h.as_ptr().addr(), 2);
    let far: MutPtr<Thing> = MutPtr::from_addr(usize::MAX);
    assert_eq!(RCHandle::from_ptr(far).unwrap().as_ptr().addr(), usize::MAX);
}

#[test]
fn clone_then_into_ptr_leaves_the_copy() {
    let mut mem = Memory::new();
    let p = mem.allocate(Thing { number: 4 });
    let a = RCHandle::from_ptr(p).unwrap();
    let b = a.clone();
    let released = a.into_ptr();
    assert_eq!(released.addr(), p.addr());
    assert_eq!(b.as_ptr().addr(), p.addr());
    assert_eq!(b.as_ref(&mem).number, 4);
    let c = RCHandle::from(&b);
    assert_eq!(c.into_ptr().addr(), p.addr());
}

#[test]
fn write_through_handle_is_seen_by_the_owner() {
    let mut mem = Memory::new();
    let other = mem.allocate(Thing { number: 100 });
    let record = mem.allocate(Thing { number: 0 });
    let rch = RCHandle::from_ref(NonNullPtr::new(record).unwrap());
    rch.as_mut(&mut mem).number = 11;
    assert_eq!(mem.get(record).number, 11);
    assert_eq!(mem.get(other).number, 100);
    mem.get_mut(record).number = 12;
    assert_eq!(rch.as_ref(&mem).number, 12);
}

#[test]
fn eq_in_compares_the_pointees() {
    let mut mem = Memory::new();
    let a = RCHandle::from_ptr(mem.allocate(Thing { number: 8 })).unwrap();
    let b = RCHandle::from_ptr(mem.allocate(Thing { number: 8 })).unwrap();
    let c = RCHandle::from_ptr(mem.allocate(Thing { number: 9 })).unwrap();
    assert!(a.eq_in(&b, &mem));
    assert!(!a.eq_in(&c, &mem));
}

#[test]
fn memory_tracks_live_addresses() {
    let mut mem = Memory::new();
    assert!(!mem.is_live(0));
    assert!(!mem.is_live(1));
    let p = mem.allocate(5u64);
    assert!(mem.is_live(p.addr()));
    assert!(!mem.is_live(0));
    assert!(!mem.is_live(2));
}

#[test]
fn non_null_rejects_address_zero() {
    assert!(NonNullPtr::<u8>::new(MutPtr::null()).is_none());
    let p = NonNullPtr::<u8>::new(MutPtr::from_addr(7)).unwrap();
    assert_eq!(p.addr(), 7);
    assert_eq!(p.as_ptr().addr(), 7);
    assert!(!p.as_ptr().is_null());
}

#[test]
fn as_ref_as_handle_is_the_handle_itself() {
    let h: RCHandle<Thing> = RCHandle::from_ptr(MutPtr::from_addr(24)).unwrap();
    let same: &RCHandle<Thing> = AsRef::<RCHandle<Thing>>::as_ref(&h);
    assert_eq!(same.as_ptr().addr(), 24);
}

use std::cell::Cell;
use std::rc::Rc;

use fnhandle::handle::{FnHandle, FnMutHandle, FnOnceHandle, GenericFnHandle};
use fnhandle::host::{HostError, HostRuntime};
use fnhandle::value::Reference;

/// Increments the shared counter when dropped: stands in for the cleanup a
/// native closure runs when its registration is dropped.
struct IncrOnDrop(Rc<Cell<i32>>);

impl Drop for IncrOnDrop {
    fn drop(&mut self) {
        self.0.set(self.0.get() + 1);
    }
}

#[test]
fn test_fn_handle() {
    let rc = Rc::new(Cell::new(0));

    let incr_on_drop = IncrOnDrop(rc.clone());

    let rc2 = rc.clone();

    // this closure adds x to the value in rc
    let f = move |x: i32| {
        rc2.set(rc2.get() + x);
        let _ = &incr_on_drop; // make sure incr_on_drop is moved into the closure
    };

    {
        let mut host: HostRuntime<Box<dyn Fn(i32)>> = HostRuntime::new();
        let handle: FnHandle<(i64,), ()> = FnHandle::register(&mut host, Box::new(f));
        (host.call_shared(handle.reference()).unwrap())(2);
        (host.call_shared(handle.reference()).unwrap())(3);
        assert_eq!(rc.get(), 5);

        // when the handle is released, the incr_on_drop inside it should be
        // dropped too, and the count should be incremented from 5 to 6.
        assert!(handle.release(&mut host).is_ok());
    }

    assert_eq!(rc.get(), 6);
}

#[test]
fn release_runs_at_most_once() {
    let drops = Rc::new(Cell::new(0));
    let mut host: HostRuntime<IncrOnDrop> = HostRuntime::new();
    let handle: FnHandle<(), ()> = FnHandle::register(&mut host, IncrOnDrop(drops.clone()));
    let r = handle.reference();

    // The release itself hands the payload back exactly once...
    assert!(handle.release(&mut host).is_ok());
    assert_eq!(drops.get(), 1);

    // ...and every further attempt through any path fails without effect.
    assert_eq!(host.release(r).err(), Some(HostError::NotRegistered));
    assert_eq!(GenericFnHandle::new(r).release(&mut host).err(), Some(HostError::NotRegistered));
    assert_eq!(drops.get(), 1);
}

#[test]
fn leak_suppresses_auto_release() {
    let drops = Rc::new(Cell::new(0));
    let mut host: HostRuntime<IncrOnDrop> = HostRuntime::new();
    let leaked;
    {
        let handle: FnMutHandle<(i64,), ()> =
            FnMutHandle::register(&mut host, IncrOnDrop(drops.clone()));
        leaked = handle.leak();
        // The handle is gone, this scope is over...
    }
    // ...yet nothing was released: the registration is still live.
    assert!(host.is_registered(leaked));
    assert_eq!(drops.get(), 0);

    // Only an explicit host-side release invalidates it.
    assert!(host.release(leaked).is_ok());
    assert!(!host.is_registered(leaked));
    assert_eq!(drops.get(), 1);
}

#[test]
fn post_release_invocation_fails_once_class() {
    let mut host: HostRuntime<Box<dyn FnOnce() -> i64>> = HostRuntime::new();
    let handle: FnOnceHandle<(), i64> = FnOnceHandle::register(&mut host, Box::new(|| 1));
    let r = handle.reference();
    assert!(handle.release(&mut host).is_ok());
    assert_eq!(host.take_once(r).err(), Some(HostError::NotRegistered));
}

#[test]
fn post_release_invocation_fails_mut_class() {
    let mut host: HostRuntime<Box<dyn FnMut() -> i64>> = HostRuntime::new();
    let handle: FnMutHandle<(), i64> = FnMutHandle::register(&mut host, Box::new(|| 1));
    let r = handle.reference();
    assert!(handle.release(&mut host).is_ok());
    assert!(matches!(host.begin_mut(r), Err(HostError::NotRegistered)));
}

#[test]
fn post_release_invocation_fails_shared_class() {
    let mut host: HostRuntime<Box<dyn Fn() -> i64>> = HostRuntime::new();
    let handle: FnHandle<(), i64> = FnHandle::register(&mut host, Box::new(|| 1));
    let r = handle.reference();
    assert!(handle.release(&mut host).is_ok());
    assert!(matches!(host.call_shared(r), Err(HostError::NotRegistered)));
}

#[test]
fn once_class_single_use() {
    let drops = Rc::new(Cell::new(0));
    let guard = IncrOnDrop(drops.clone());
    let f = move || {
        let _ = &guard;
        42i64
    };

    let mut host: HostRuntime<Box<dyn FnOnce() -> i64>> = HostRuntime::new();
    let handle: FnOnceHandle<(), i64> = FnOnceHandle::register(&mut host, Box::new(f));
    let r = handle.reference();

    // The first invocation consumes the closure and returns its result; the
    // closure's cleanup runs exactly then.
    let callback = host.take_once(r).ok().unwrap();
    assert_eq!(drops.get(), 0);
    assert_eq!(callback(), 42);
    assert_eq!(drops.get(), 1);

    // A second invocation attempt raises the documented error and does not
    // re-run any closure effect.
    assert!(matches!(host.take_once(r), Err(HostError::NotRegistered)));
    assert_eq!(drops.get(), 1);

    // The registration was removed with the first call, so the scope-exit
    // release finds nothing; across the whole lifecycle the cleanup ran once.
    assert!(handle.release(&mut host).is_err());
    assert_eq!(drops.get(), 1);
}

#[test]
fn mut_class_sequential_calls_accumulate_state() {
    let total = Rc::new(Cell::new(0i64));
    let drops = Rc::new(Cell::new(0));
    let guard = IncrOnDrop(drops.clone());
    let total2 = total.clone();
    let f = move |x: i64| {
        let _ = &guard;
        total2.set(total2.get() + x);
        total2.get()
    };

    let mut host: HostRuntime<Box<dyn FnMut(i64) -> i64>> = HostRuntime::new();
    let handle: FnMutHandle<(i64,), i64> = FnMutHandle::register(&mut host, Box::new(f));
    let r = handle.reference();

    let mut callback = host.begin_mut(r).ok().unwrap();
    assert_eq!(callback(2), 2);
    // While the call is on the stack, a reentrant invocation is rejected.
    assert!(matches!(host.begin_mut(r), Err(HostError::ReentrantCall)));
    assert!(host.end_mut(r, callback).is_ok());

    let mut callback = host.begin_mut(r).ok().unwrap();
    assert_eq!(callback(3), 5);
    assert!(host.end_mut(r, callback).is_ok());

    // The running total accumulated across the two calls...
    assert_eq!(total.get(), 5);
    assert_eq!(drops.get(), 0);

    // ...and the closure's cleanup runs once, at release, not once per call.
    assert!(handle.release(&mut host).is_ok());
    assert_eq!(drops.get(), 1);
}

#[test]
fn type_erasure_preserves_identity() {
    let mut host: HostRuntime<u64> = HostRuntime::new();

    let once: FnOnceHandle<(i64,), ()> = FnOnceHandle::register(&mut host, 1);
    let r = once.reference();
    assert_eq!(GenericFnHandle::from(once).leak(), r);

    let mutable: FnMutHandle<(i64, bool), i64> = FnMutHandle::register(&mut host, 2);
    let r = mutable.reference();
    assert_eq!(GenericFnHandle::from(mutable).leak(), r);

    let shared: FnHandle<(), bool> = FnHandle::register(&mut host, 3);
    let r = shared.reference();
    assert_eq!(GenericFnHandle::from(shared).leak(), r);

    // Leaking a handle directly yields the same reference as erasing first.
    let direct: FnHandle<(), bool> = FnHandle::register(&mut host, 4);
    let r = direct.reference();
    assert_eq!(direct.leak(), r);
}

#[test]
fn generic_handle_wraps_and_releases() {
    let drops = Rc::new(Cell::new(0));
    let mut host: HostRuntime<IncrOnDrop> = HostRuntime::new();
    let handle: FnOnceHandle<(), ()> =
        FnOnceHandle::register(&mut host, IncrOnDrop(drops.clone()));

    // A leaked reference can be re-wrapped: the release duty moves into the
    // generic handle, and releasing it takes the registration down.
    let leaked = handle.leak();
    let generic = GenericFnHandle::new(leaked);

    // Generic handles denote the same registration iff their references are
    // equal.
    assert_eq!(generic, GenericFnHandle::new(leaked));
    assert_ne!(generic, GenericFnHandle::new(Reference { id: 77 }));

    assert!(host.is_registered(generic.reference()));
    assert!(generic.release(&mut host).is_ok());
    assert_eq!(drops.get(), 1);
}

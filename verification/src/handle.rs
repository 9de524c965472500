use vstd::prelude::*;

use core::marker::PhantomData;

use crate::codec::{Arguments, Codec};
use crate::host::{spec_release, HostError, HostRuntime, Slot};
use crate::value::Reference;

verus! {

/// A handle owning the registration of a Once-class closure: the host may
/// invoke it at most once (the invocation consumes it).
///
/// The two type parameters record, at the type level only, the argument
/// shape and the return type the closure was registered under; they carry no
/// runtime state.  The handle owns exactly one [`Reference`] and is the
/// scoped-release holder for it: it must be spent exactly once, either on
/// [`FnOnceHandle::release`] — which invalidates the registration host-side —
/// or on [`FnOnceHandle::leak`] — which hands the raw reference, and with it
/// the release decision, to the caller.  Both consume the handle, so no path
/// can trigger the release action a second time.
#[derive(Debug)]
#[must_use]
pub struct FnOnceHandle<Args, Output> {
    reference: Reference,
    phantom_args: PhantomData<Args>,
    phantom_output: PhantomData<Output>,
}

/// A handle owning the registration of a Mut-class closure: the host may
/// invoke it repeatedly, but never while a previous invocation is still
/// running.  Release and leak behave as on [`FnOnceHandle`].
#[derive(Debug)]
#[must_use]
pub struct FnMutHandle<Args, Output> {
    reference: Reference,
    phantom_args: PhantomData<Args>,
    phantom_output: PhantomData<Output>,
}

/// A handle owning the registration of a Shared-class closure: the host may
/// invoke it freely, shared access suffices.  Release and leak behave as on
/// [`FnOnceHandle`].
#[derive(Debug)]
#[must_use]
pub struct FnHandle<Args, Output> {
    reference: Reference,
    phantom_args: PhantomData<Args>,
    phantom_output: PhantomData<Output>,
}

/// A type-erased callback handle.
///
/// It has the same release/leak behaviour as the typed handles but drops the
/// argument/return shape, so handles of any variant and any shape can be
/// kept in one collection.  It is obtained by consuming a typed handle via
/// `From`; the conversion carries the underlying reference over unchanged,
/// and the consumed typed handle is gone, so the registration still has
/// exactly one owner.  Two generic handles denote the same registration iff
/// their references are equal.
#[derive(Debug, PartialEq, Eq, Structural)]
#[must_use]
pub struct GenericFnHandle {
    /// The reference whose release this handle owns.  It is open: a generic
    /// handle adds no state of its own, wrapping a reference (as
    /// [`GenericFnHandle::new`] does) is all there is to it.
    pub reference: Reference,
}

impl<Args, Output> View for FnOnceHandle<Args, Output> {
    type V = Reference;

    /// The reference this handle owns.
    closed spec fn view(&self) -> Reference {
        self.reference
    }
}

impl<Args, Output> View for FnMutHandle<Args, Output> {
    type V = Reference;

    /// The reference this handle owns.
    closed spec fn view(&self) -> Reference {
        self.reference
    }
}

impl<Args, Output> View for FnHandle<Args, Output> {
    type V = Reference;

    /// The reference this handle owns.
    closed spec fn view(&self) -> Reference {
        self.reference
    }
}

impl View for GenericFnHandle {
    type V = Reference;

    /// The reference this handle owns.
    closed spec fn view(&self) -> Reference {
        self.reference
    }
}

impl<Args, Output> FnOnceHandle<Args, Output> {
    /// Register a Once-class closure with the host and wrap the fresh
    /// reference in a handle.  The bounds state the boundary contract: every
    /// argument and the result must cross the boundary as [`crate::value::Value`]s.
    pub fn register<C>(host: &mut HostRuntime<C>, closure: C) -> (handle: Self) where
        Args: Arguments,
        Output: Codec,

        ensures
            final(host)@ == old(host)@.push(Slot::Once(closure)),
            handle@.id == old(host)@.len(),
    {
        let reference = host.register_once(closure);
        FnOnceHandle { reference, phantom_args: PhantomData, phantom_output: PhantomData }
    }

    /// The reference this handle owns, for use at a boundary call site; the
    /// handle keeps the registration and the release duty.
    pub fn reference(&self) -> (r: Reference)
        ensures
            r == self@,
    {
        self.reference
    }

    /// Leak the handle: give up the automatic release and hand the raw
    /// reference out.  No release action runs — the registration stays live
    /// until whoever holds the reference has the host release it.
    pub fn leak(self) -> (r: Reference)
        ensures
            r == self@,
    {
        self.reference
    }

    /// Release the registration host-side.  Consumes the handle, so this is
    /// the one release this handle can ever trigger; the returned closure
    /// lets the native side run its cleanup.
    pub fn release<C>(self, host: &mut HostRuntime<C>) -> (result: Result<C, HostError>)
        ensures
            final(host)@ == spec_release(old(host)@, self@.id as int).0,
            result == spec_release(old(host)@, self@.id as int).1,
    {
        host.release(self.reference)
    }
}

impl<Args, Output> FnMutHandle<Args, Output> {
    /// Register a Mut-class closure with the host and wrap the fresh
    /// reference in a handle.  The bounds state the boundary contract: every
    /// argument and the result must cross the boundary as [`crate::value::Value`]s.
    pub fn register<C>(host: &mut HostRuntime<C>, closure: C) -> (handle: Self) where
        Args: Arguments,
        Output: Codec,

        ensures
            final(host)@ == old(host)@.push(Slot::MutIdle(closure)),
            handle@.id == old(host)@.len(),
    {
        let reference = host.register_mut(closure);
        FnMutHandle { reference, phantom_args: PhantomData, phantom_output: PhantomData }
    }

    /// The reference this handle owns, for use at a boundary call site; the
    /// handle keeps the registration and the release duty.
    pub fn reference(&self) -> (r: Reference)
        ensures
            r == self@,
    {
        self.reference
    }

    /// Leak the handle: give up the automatic release and hand the raw
    /// reference out.  No release action runs — the registration stays live
    /// until whoever holds the reference has the host release it.
    pub fn leak(self) -> (r: Reference)
        ensures
            r == self@,
    {
        self.reference
    }

    /// Release the registration host-side.  Consumes the handle, so this is
    /// the one release this handle can ever trigger; the returned closure
    /// lets the native side run its cleanup.
    pub fn release<C>(self, host: &mut HostRuntime<C>) -> (result: Result<C, HostError>)
        ensures
            final(host)@ == spec_release(old(host)@, self@.id as int).0,
            result == spec_release(old(host)@, self@.id as int).1,
    {
        host.release(self.reference)
    }
}

impl<Args, Output> FnHandle<Args, Output> {
    /// Register a Shared-class closure with the host and wrap the fresh
    /// reference in a handle.  The bounds state the boundary contract: every
    /// argument and the result must cross the boundary as [`crate::value::Value`]s.
    pub fn register<C>(host: &mut HostRuntime<C>, closure: C) -> (handle: Self) where
        Args: Arguments,
        Output: Codec,

        ensures
            final(host)@ == old(host)@.push(Slot::Shared(closure)),
            handle@.id == old(host)@.len(),
    {
        let reference = host.register_shared(closure);
        FnHandle { reference, phantom_args: PhantomData, phantom_output: PhantomData }
    }

    /// The reference this handle owns, for use at a boundary call site; the
    /// handle keeps the registration and the release duty.
    pub fn reference(&self) -> (r: Reference)
        ensures
            r == self@,
    {
        self.reference
    }

    /// Leak the handle: give up the automatic release and hand the raw
    /// reference out.  No release action runs — the registration stays live
    /// until whoever holds the reference has the host release it.
    pub fn leak(self) -> (r: Reference)
        ensures
            r == self@,
    {
        self.reference
    }

    /// Release the registration host-side.  Consumes the handle, so this is
    /// the one release this handle can ever trigger; the returned closure
    /// lets the native side run its cleanup.
    pub fn release<C>(self, host: &mut HostRuntime<C>) -> (result: Result<C, HostError>)
        ensures
            final(host)@ == spec_release(old(host)@, self@.id as int).0,
            result == spec_release(old(host)@, self@.id as int).1,
    {
        host.release(self.reference)
    }
}

impl GenericFnHandle {
    /// Take over the release duty for a raw reference.
    pub fn new(reference: Reference) -> (handle: GenericFnHandle)
        ensures
            handle@ == reference,
    {
        GenericFnHandle { reference }
    }

    /// The reference this handle owns, for use at a boundary call site; the
    /// handle keeps the registration and the release duty.
    pub fn reference(&self) -> (r: Reference)
        ensures
            r == self@,
    {
        self.reference
    }

    /// Leak the handle: give up the automatic release and hand the raw
    /// reference out.  No release action runs — the registration stays live
    /// until whoever holds the reference has the host release it.
    pub fn leak(self) -> (r: Reference)
        ensures
            r == self@,
    {
        self.reference
    }

    /// Release the registration host-side.  Consumes the handle, so this is
    /// the one release this handle can ever trigger; the returned closure
    /// lets the native side run its cleanup.
    pub fn release<C>(self, host: &mut HostRuntime<C>) -> (result: Result<C, HostError>)
        ensures
            final(host)@ == spec_release(old(host)@, self@.id as int).0,
            result == spec_release(old(host)@, self@.id as int).1,
    {
        host.release(self.reference)
    }
}

impl<Args, Output> From<FnOnceHandle<Args, Output>> for GenericFnHandle {
    /// Erase the shape of a Once-class handle; the reference and the release
    /// duty carry over unchanged.
    fn from(value: FnOnceHandle<Args, Output>) -> GenericFnHandle {
        GenericFnHandle { reference: value.reference }
    }
}

impl<Args, Output> vstd::std_specs::convert::FromSpecImpl<FnOnceHandle<Args, Output>> for GenericFnHandle {
    open spec fn obeys_from_spec() -> bool {
        true
    }

    open spec fn from_spec(value: FnOnceHandle<Args, Output>) -> GenericFnHandle {
        GenericFnHandle { reference: value@ }
    }
}

impl<Args, Output> From<FnMutHandle<Args, Output>> for GenericFnHandle {
    /// Erase the shape of a Mut-class handle; the reference and the release
    /// duty carry over unchanged.
    fn from(value: FnMutHandle<Args, Output>) -> GenericFnHandle {
        GenericFnHandle { reference: value.reference }
    }
}

impl<Args, Output> vstd::std_specs::convert::FromSpecImpl<FnMutHandle<Args, Output>> for GenericFnHandle {
    open spec fn obeys_from_spec() -> bool {
        true
    }

    open spec fn from_spec(value: FnMutHandle<Args, Output>) -> GenericFnHandle {
        GenericFnHandle { reference: value@ }
    }
}

impl<Args, Output> From<FnHandle<Args, Output>> for GenericFnHandle {
    /// Erase the shape of a Shared-class handle; the reference and the
    /// release duty carry over unchanged.
    fn from(value: FnHandle<Args, Output>) -> GenericFnHandle {
        GenericFnHandle { reference: value.reference }
    }
}

impl<Args, Output> vstd::std_specs::convert::FromSpecImpl<FnHandle<Args, Output>> for GenericFnHandle {
    open spec fn obeys_from_spec() -> bool {
        true
    }

    open spec fn from_spec(value: FnHandle<Args, Output>) -> GenericFnHandle {
        GenericFnHandle { reference: value@ }
    }
}

/// Type erasure preserves identity: converting a handle of any variant into
/// a [`GenericFnHandle`] and leaking that yields exactly the reference that
/// leaking the original handle directly would have yielded.
pub proof fn lemma_erasure_preserves_identity<OA, OO, MA, MO, SA, SO>(
    once: FnOnceHandle<OA, OO>,
    mutable: FnMutHandle<MA, MO>,
    shared: FnHandle<SA, SO>,
)
    ensures
        (<GenericFnHandle as vstd::std_specs::convert::FromSpec<FnOnceHandle<OA, OO>>>::from_spec(
            once,
        ))@ == once@,
        (<GenericFnHandle as vstd::std_specs::convert::FromSpec<FnMutHandle<MA, MO>>>::from_spec(
            mutable,
        ))@ == mutable@,
        (<GenericFnHandle as vstd::std_specs::convert::FromSpec<FnHandle<SA, SO>>>::from_spec(
            shared,
        ))@ == shared@,
{
}

} // verus!

use vstd::prelude::*;

use vstd::pervasive::VecAdditionalExecFns;

use crate::value::Reference;

verus! {

/// The error the host raises, observably at the call site, when a call-site
/// contract of the callback protocol is violated.
#[derive(Clone, Copy, PartialEq, Eq, Structural, Debug)]
pub enum HostError {
    /// The reference does not denote a live registration: it was never
    /// issued, it was released, or it was a Once-class registration whose
    /// single permitted invocation already happened.
    NotRegistered,
    /// A Mut-class registration was invoked, or released, while a previous
    /// invocation of it is still on the call stack.
    ReentrantCall,
    /// The reference denotes a live registration of a different call-arity
    /// class than the call path that was used.
    ClassMismatch,
    /// A Mut-class invocation was reported finished while none was running.
    NoCallInProgress,
}

/// One slot of the host's registration table.
///
/// The payload type `C` is whatever the native side registered under the
/// reference; the host never looks inside it, it only hands it out and takes
/// it back according to the slot's call-arity class.
pub enum Slot<C> {
    /// No live registration: never issued, released, or consumed.
    Vacant,
    /// A Once-class registration whose single invocation has not happened.
    Once(C),
    /// A Mut-class registration with no invocation in progress.
    MutIdle(C),
    /// A Mut-class registration whose payload is out on a running call.
    MutBusy,
    /// A Shared-class registration; invocations need only shared access.
    Shared(C),
}

/// The slot a table holds under an id; ids that were never issued are vacant.
pub open spec fn slot_at<C>(table: Seq<Slot<C>>, id: int) -> Slot<C> {
    if 0 <= id < table.len() {
        table[id]
    } else {
        Slot::Vacant
    }
}

/// Whether an id denotes a live registration in a table.
pub open spec fn spec_is_registered<C>(table: Seq<Slot<C>>, id: int) -> bool {
    !(slot_at(table, id) is Vacant)
}

/// What a Once-class invocation attempt does to a table: the new table and
/// the outcome.  On success the registration is removed, not merely marked,
/// so a second attempt fails exactly like a released reference.
pub open spec fn spec_take_once<C>(table: Seq<Slot<C>>, id: int) -> (Seq<Slot<C>>, Result<
    C,
    HostError,
>) {
    match slot_at(table, id) {
        Slot::Once(c) => (table.update(id, Slot::Vacant), Ok(c)),
        Slot::Vacant => (table, Err(HostError::NotRegistered)),
        _ => (table, Err(HostError::ClassMismatch)),
    }
}

/// What starting a Mut-class invocation does to a table: on success the
/// payload leaves the slot, which is marked busy until the call returns, so
/// an overlapping (reentrant) attempt is rejected rather than aliasing the
/// payload.
pub open spec fn spec_begin_mut<C>(table: Seq<Slot<C>>, id: int) -> (Seq<Slot<C>>, Result<
    C,
    HostError,
>) {
    match slot_at(table, id) {
        Slot::MutIdle(c) => (table.update(id, Slot::MutBusy), Ok(c)),
        Slot::MutBusy => (table, Err(HostError::ReentrantCall)),
        Slot::Vacant => (table, Err(HostError::NotRegistered)),
        _ => (table, Err(HostError::ClassMismatch)),
    }
}

/// What finishing a Mut-class invocation does to a table: the payload comes
/// back into the busy slot, which becomes idle again.  On failure the payload
/// is handed back to the caller together with the error.
pub open spec fn spec_end_mut<C>(table: Seq<Slot<C>>, id: int, closure: C) -> (Seq<Slot<C>>,
Result<(), (HostError, C)>) {
    match slot_at(table, id) {
        Slot::MutBusy => (table.update(id, Slot::MutIdle(closure)), Ok(())),
        Slot::MutIdle(_) => (table, Err((HostError::NoCallInProgress, closure))),
        Slot::Vacant => (table, Err((HostError::NotRegistered, closure))),
        _ => (table, Err((HostError::ClassMismatch, closure))),
    }
}

/// The outcome of a Shared-class invocation attempt; it never changes the
/// table, shared access suffices.
pub open spec fn spec_call_shared<C>(table: Seq<Slot<C>>, id: int) -> Result<C, HostError> {
    match slot_at(table, id) {
        Slot::Shared(c) => Ok(c),
        Slot::Vacant => Err(HostError::NotRegistered),
        _ => Err(HostError::ClassMismatch),
    }
}

/// What releasing a reference does to a table: the slot is vacated and its
/// payload handed back (so the native side can run its cleanup exactly once).
/// A reference that is not live any more cannot be released again, and a
/// Mut-class registration cannot be released out from under a running call.
pub open spec fn spec_release<C>(table: Seq<Slot<C>>, id: int) -> (Seq<Slot<C>>, Result<
    C,
    HostError,
>) {
    match slot_at(table, id) {
        Slot::Once(c) => (table.update(id, Slot::Vacant), Ok(c)),
        Slot::MutIdle(c) => (table.update(id, Slot::Vacant), Ok(c)),
        Slot::Shared(c) => (table.update(id, Slot::Vacant), Ok(c)),
        Slot::MutBusy => (table, Err(HostError::ReentrantCall)),
        Slot::Vacant => (table, Err(HostError::NotRegistered)),
    }
}

/// The host runtime's registration table.
///
/// The host is single-threaded and cooperative: every operation below is one
/// synchronous step of the protocol.  Registration issues a fresh reference;
/// the three invocation paths enforce, dynamically, the discipline of the
/// slot's call-arity class; release vacates the slot.  A vacated slot is
/// never reused, so a released reference stays invalid forever.
pub struct HostRuntime<C> {
    slots: Vec<Slot<C>>,
}

impl<C> View for HostRuntime<C> {
    type V = Seq<Slot<C>>;

    closed spec fn view(&self) -> Seq<Slot<C>> {
        self.slots@
    }
}

impl<C> HostRuntime<C> {
    /// A host with no registrations.
    pub fn new() -> (host: HostRuntime<C>)
        ensures
            host@ == Seq::<Slot<C>>::empty(),
    {
        HostRuntime { slots: Vec::new() }
    }

    /// Register a Once-class closure: the host may invoke it at most once.
    /// Returns the fresh reference that identifies the registration.
    pub fn register_once(&mut self, closure: C) -> (r: Reference)
        ensures
            final(self)@ == old(self)@.push(Slot::Once(closure)),
            r.id == old(self)@.len(),
            !spec_is_registered(old(self)@, r.id as int),
    {
        let id = self.slots.len();
        self.slots.push(Slot::Once(closure));
        Reference { id }
    }

    /// Register a Mut-class closure: the host may invoke it repeatedly, but
    /// never while a previous invocation is still running.
    pub fn register_mut(&mut self, closure: C) -> (r: Reference)
        ensures
            final(self)@ == old(self)@.push(Slot::MutIdle(closure)),
            r.id == old(self)@.len(),
            !spec_is_registered(old(self)@, r.id as int),
    {
        let id = self.slots.len();
        self.slots.push(Slot::MutIdle(closure));
        Reference { id }
    }

    /// Register a Shared-class closure: the host may invoke it freely.
    pub fn register_shared(&mut self, closure: C) -> (r: Reference)
        ensures
            final(self)@ == old(self)@.push(Slot::Shared(closure)),
            r.id == old(self)@.len(),
            !spec_is_registered(old(self)@, r.id as int),
    {
        let id = self.slots.len();
        self.slots.push(Slot::Shared(closure));
        Reference { id }
    }

    /// Whether a reference currently denotes a live registration.
    pub fn is_registered(&self, r: Reference) -> (b: bool)
        ensures
            b == spec_is_registered(self@, r.id as int),
    {
        if r.id >= self.slots.len() {
            return false;
        }
        match &self.slots[r.id] {
            Slot::Vacant => false,
            _ => true,
        }
    }

    /// The Once-class invocation path: on success the registered closure is
    /// handed out and the registration is removed, so it can never be handed
    /// out again.
    pub fn take_once(&mut self, r: Reference) -> (result: Result<C, HostError>)
        ensures
            final(self)@ == spec_take_once(old(self)@, r.id as int).0,
            result == spec_take_once(old(self)@, r.id as int).1,
    {
        if r.id >= self.slots.len() {
            return Err(HostError::NotRegistered);
        }
        match &self.slots[r.id] {
            Slot::Once(_) => {},
            Slot::Vacant => {
                return Err(HostError::NotRegistered);
            },
            _ => {
                return Err(HostError::ClassMismatch);
            },
        }
        let mut taken = Slot::Vacant;
        self.slots.set_and_swap(r.id, &mut taken);
        match taken {
            Slot::Once(c) => Ok(c),
            _ => Err(HostError::NotRegistered),
        }
    }

    /// The first half of the Mut-class invocation path: the payload leaves
    /// the slot for the duration of the call and the slot is marked busy, so
    /// a reentrant invocation attempt fails rather than aliasing the payload.
    pub fn begin_mut(&mut self, r: Reference) -> (result: Result<C, HostError>)
        ensures
            final(self)@ == spec_begin_mut(old(self)@, r.id as int).0,
            result == spec_begin_mut(old(self)@, r.id as int).1,
    {
        if r.id >= self.slots.len() {
            return Err(HostError::NotRegistered);
        }
        match &self.slots[r.id] {
            Slot::MutIdle(_) => {},
            Slot::MutBusy => {
                return Err(HostError::ReentrantCall);
            },
            Slot::Vacant => {
                return Err(HostError::NotRegistered);
            },
            _ => {
                return Err(HostError::ClassMismatch);
            },
        }
        let mut taken = Slot::MutBusy;
        self.slots.set_and_swap(r.id, &mut taken);
        match taken {
            Slot::MutIdle(c) => Ok(c),
            _ => Err(HostError::NotRegistered),
        }
    }

    /// The second half of the Mut-class invocation path: the call returned,
    /// the payload comes back, and the slot is idle again.  On failure the
    /// payload is handed back together with the error.
    pub fn end_mut(&mut self, r: Reference, closure: C) -> (result: Result<
        (),
        (HostError, C),
    >)
        ensures
            final(self)@ == spec_end_mut(old(self)@, r.id as int, closure).0,
            result == spec_end_mut(old(self)@, r.id as int, closure).1,
    {
        if r.id >= self.slots.len() {
            return Err((HostError::NotRegistered, closure));
        }
        match &self.slots[r.id] {
            Slot::MutBusy => {},
            Slot::MutIdle(_) => {
                return Err((HostError::NoCallInProgress, closure));
            },
            Slot::Vacant => {
                return Err((HostError::NotRegistered, closure));
            },
            _ => {
                return Err((HostError::ClassMismatch, closure));
            },
        }
        self.slots.set(r.id, Slot::MutIdle(closure));
        Ok(())
    }

    /// The Shared-class invocation path: shared access to the payload, with
    /// no restriction on overlap or repetition.
    pub fn call_shared(&self, r: Reference) -> (result: Result<&C, HostError>)
        ensures
            match result {
                Ok(c) => spec_call_shared(self@, r.id as int) == Ok::<C, HostError>(*c),
                Err(e) => spec_call_shared(self@, r.id as int) == Err::<C, HostError>(e),
            },
    {
        if r.id >= self.slots.len() {
            return Err(HostError::NotRegistered);
        }
        match &self.slots[r.id] {
            Slot::Shared(c) => Ok(c),
            Slot::Vacant => Err(HostError::NotRegistered),
            _ => Err(HostError::ClassMismatch),
        }
    }

    /// Release a registration: the slot is vacated and the payload handed
    /// back, so the native side can run its cleanup — once, because a second
    /// release of the same reference finds the slot vacant and fails.
    pub fn release(&mut self, r: Reference) -> (result: Result<C, HostError>)
        ensures
            final(self)@ == spec_release(old(self)@, r.id as int).0,
            result == spec_release(old(self)@, r.id as int).1,
    {
        if r.id >= self.slots.len() {
            return Err(HostError::NotRegistered);
        }
        match &self.slots[r.id] {
            Slot::Vacant => {
                return Err(HostError::NotRegistered);
            },
            Slot::MutBusy => {
                return Err(HostError::ReentrantCall);
            },
            _ => {},
        }
        let mut taken = Slot::Vacant;
        self.slots.set_and_swap(r.id, &mut taken);
        match taken {
            Slot::Once(c) => Ok(c),
            Slot::MutIdle(c) => Ok(c),
            Slot::Shared(c) => Ok(c),
            _ => Err(HostError::NotRegistered),
        }
    }
}

} // verus!

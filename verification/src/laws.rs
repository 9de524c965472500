use vstd::prelude::*;

use crate::host::{
    slot_at, spec_begin_mut, spec_call_shared, spec_end_mut, spec_is_registered, spec_release,
    spec_take_once, HostError, Slot,
};

verus! {

/// At-most-one release: however many code paths could ask for it, the
/// release action of a reference runs at most once.  Once a release has
/// succeeded, every further release of the same reference fails observably
/// and leaves the host exactly as it was — no payload is handed out a second
/// time.
pub proof fn lemma_release_at_most_once<C>(table: Seq<Slot<C>>, id: int)
    requires
        spec_release(table, id).1 is Ok,
    ensures
        spec_release(spec_release(table, id).0, id).0 == spec_release(table, id).0,
        spec_release(spec_release(table, id).0, id).1 == Err::<C, HostError>(
            HostError::NotRegistered,
        ),
{
}

/// Leak suppresses the automatic release: leaking a handle performs no host
/// operation at all, and no host operation short of a release of the
/// reference itself — or the one permitted invocation of a Once-class
/// registration — invalidates it.  Registering more closures, the whole
/// Mut-class call protocol on the registration itself, and any operation on
/// a different reference all keep a live registration live; only an explicit
/// release takes it down.
pub proof fn lemma_leak_keeps_registration<C>(table: Seq<Slot<C>>, id: int, other: int, c: C)
    requires
        spec_is_registered(table, id),
        other != id,
    ensures
        spec_is_registered(table.push(Slot::Once(c)), id),
        spec_is_registered(table.push(Slot::MutIdle(c)), id),
        spec_is_registered(table.push(Slot::Shared(c)), id),
        spec_is_registered(spec_begin_mut(table, id).0, id),
        spec_is_registered(spec_end_mut(table, id, c).0, id),
        spec_is_registered(spec_take_once(table, other).0, id),
        spec_is_registered(spec_begin_mut(table, other).0, id),
        spec_is_registered(spec_end_mut(table, other, c).0, id),
        spec_is_registered(spec_release(table, other).0, id),
{
}

/// Post-release invocation fails observably: once a reference has been
/// released, every invocation path — Once, Mut and Shared alike — raises the
/// lookup error rather than running anything, and the host stays unchanged.
pub proof fn lemma_post_release_invocation_fails<C>(table: Seq<Slot<C>>, id: int, c: C)
    requires
        spec_release(table, id).1 is Ok,
    ensures
        spec_take_once(spec_release(table, id).0, id).0 == spec_release(table, id).0,
        spec_take_once(spec_release(table, id).0, id).1 == Err::<C, HostError>(
            HostError::NotRegistered,
        ),
        spec_begin_mut(spec_release(table, id).0, id).0 == spec_release(table, id).0,
        spec_begin_mut(spec_release(table, id).0, id).1 == Err::<C, HostError>(
            HostError::NotRegistered,
        ),
        spec_end_mut(spec_release(table, id).0, id, c).0 == spec_release(table, id).0,
        spec_end_mut(spec_release(table, id).0, id, c).1 == Err::<(), (HostError, C)>(
            (HostError::NotRegistered, c),
        ),
        spec_call_shared(spec_release(table, id).0, id) == Err::<C, HostError>(
            HostError::NotRegistered,
        ),
{
}

/// Once-class single use: the first invocation of a Once-class registration
/// is handed exactly the registered closure; a second invocation attempt
/// fails observably with the lookup error — the registration was removed,
/// not merely marked — and changes nothing, so the closure's effects cannot
/// run again.
pub proof fn lemma_once_single_use<C>(table: Seq<Slot<C>>, id: int, c: C)
    requires
        slot_at(table, id) == Slot::Once(c),
    ensures
        spec_take_once(table, id).1 == Ok::<C, HostError>(c),
        !spec_is_registered(spec_take_once(table, id).0, id),
        spec_take_once(spec_take_once(table, id).0, id).0 == spec_take_once(table, id).0,
        spec_take_once(spec_take_once(table, id).0, id).1 == Err::<C, HostError>(
            HostError::NotRegistered,
        ),
{
}

/// Mut-class calls are sequential and accumulate state: a call is handed the
/// payload the previous call left behind (`c0`), and whatever it hands back
/// (`c1`) is what the next call receives — so state threads through
/// sequential invocations.  While the call is running, a reentrant
/// invocation and a release both fail observably and change nothing.
pub proof fn lemma_mut_sequential_calls<C>(table: Seq<Slot<C>>, id: int, c0: C, c1: C)
    requires
        slot_at(table, id) == Slot::MutIdle(c0),
    ensures
        spec_begin_mut(table, id).1 == Ok::<C, HostError>(c0),
        spec_begin_mut(spec_begin_mut(table, id).0, id).0 == spec_begin_mut(table, id).0,
        spec_begin_mut(spec_begin_mut(table, id).0, id).1 == Err::<C, HostError>(
            HostError::ReentrantCall,
        ),
        spec_release(spec_begin_mut(table, id).0, id).0 == spec_begin_mut(table, id).0,
        spec_release(spec_begin_mut(table, id).0, id).1 == Err::<C, HostError>(
            HostError::ReentrantCall,
        ),
        spec_end_mut(spec_begin_mut(table, id).0, id, c1).1 == Ok::<(), (HostError, C)>(()),
        slot_at(spec_end_mut(spec_begin_mut(table, id).0, id, c1).0, id) == Slot::MutIdle(c1),
        spec_begin_mut(spec_end_mut(spec_begin_mut(table, id).0, id, c1).0, id).1 == Ok::<
            C,
            HostError,
        >(c1),
{
}

/// Arity generality, host side: registration never fails, and the fresh
/// reference it issues is immediately invocable under the class it was
/// registered with, whatever the host already holds.  (The value side of the
/// property — arguments and results of every supported arity round-tripping
/// losslessly through the boundary representation — is the round-trip
/// obligation every [`crate::codec::Codec`] and [`crate::codec::Arguments`]
/// implementation proves.)
pub proof fn lemma_fresh_registration_invocable<C>(table: Seq<Slot<C>>, c: C)
    ensures
        spec_take_once(table.push(Slot::Once(c)), table.len() as int).1 == Ok::<C, HostError>(c),
        spec_begin_mut(table.push(Slot::MutIdle(c)), table.len() as int).1 == Ok::<C, HostError>(
            c,
        ),
        spec_call_shared(table.push(Slot::Shared(c)), table.len() as int) == Ok::<C, HostError>(
            c,
        ),
{
}

} // verus!

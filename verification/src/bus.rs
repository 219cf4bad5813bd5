//! The event bus: an ordered, type-and-owner-filtered listener registry
//! with a planned fan-out, and a bounded best-effort delivery queue.
//!
//! Callbacks themselves are the platform's values — boxed asynchronous
//! consumers the platform holds in an arena of its own — so the registry
//! stores each listener under a caller-chosen numeric handle.
//! [`EventBus::dispatch`] returns the handles of the matching listeners
//! in registration order; the caller invokes each callback and awaits
//! its completion before moving to the next, which makes delivery for
//! one firing sequential and ordered.

use vstd::prelude::*;

use crate::ec11::RotateState;
use crate::event::EventType;

verus! {

/// Listener slots a registry is built with unless a caller asks otherwise.
pub const DEFAULT_LISTENER_CAPACITY: usize = 20;

/// Entries the bounded delivery queue is built with unless a caller asks
/// otherwise.
pub const DEFAULT_CHANNEL_CAPACITY: usize = 64;

/// The immutable payload handed to each matching listener of a firing.
#[derive(Debug, Copy, Clone)]
pub struct EventInfo {
    /// Which physical control instance produced the event, when known.
    pub owner_id: Option<u8>,
    /// A snapshot of the rotation tally, for wheel events.
    pub rotate_state: Option<RotateState>,
}

/// Why the bus refused an operation.
#[derive(PartialEq, Eq, Structural, Debug, Copy, Clone)]
pub enum BusError {
    /// The registry already holds as many listeners as it has room for.
    RegistryFull,
}

/// One registered listener: its event-type filter, its optional owner
/// filter, whether it is meant to survive bulk removal, and the handle
/// under which the platform holds its callback.
#[derive(Debug, Copy, Clone)]
pub struct Listener {
    /// The event type the listener wants.
    pub event_type: EventType,
    /// When set, only firings carrying this owner reach the listener.
    pub owner_filter: Option<u8>,
    /// Marked to survive [`EventBus::clear_ephemeral`].
    pub persistent: bool,
    /// The platform's handle for the callback.
    pub handle: u32,
}

/// Whether a firing of `event_type` carrying `owner_id` reaches `l`: the
/// event type must match, and a listener with an owner filter takes only
/// firings that carry exactly that owner.
pub open spec fn listener_matches(l: Listener, event_type: EventType, owner_id: Option<u8>) -> bool {
    l.event_type == event_type && (match l.owner_filter {
        Option::None => true,
        Option::Some(o) => owner_id == Some(o),
    })
}

/// The handles a firing of `event_type` carrying `owner_id` must invoke,
/// in registration order.
pub open spec fn matching_handles(
    ls: Seq<Listener>,
    event_type: EventType,
    owner_id: Option<u8>,
) -> Seq<u32>
    decreases ls.len(),
{
    if ls.len() == 0 {
        Seq::empty()
    } else {
        let rest = matching_handles(ls.drop_last(), event_type, owner_id);
        if listener_matches(ls.last(), event_type, owner_id) {
            rest.push(ls.last().handle)
        } else {
            rest
        }
    }
}

/// The index of the first listener registered for `event_type`,
/// whatever its owner filter, or -1 when none is.
pub open spec fn first_index_of_type(ls: Seq<Listener>, event_type: EventType) -> int
    decreases ls.len(),
{
    if ls.len() == 0 {
        -1
    } else if ls[0].event_type == event_type {
        0
    } else {
        let r = first_index_of_type(ls.drop_first(), event_type);
        if r == -1 {
            -1
        } else {
            r + 1
        }
    }
}

proof fn lemma_first_index_of_type_at(ls: Seq<Listener>, event_type: EventType, i: int)
    requires
        0 <= i < ls.len(),
        ls[i].event_type == event_type,
        forall|j: int| 0 <= j < i ==> (#[trigger] ls[j]).event_type != event_type,
    ensures
        first_index_of_type(ls, event_type) == i,
    decreases i,
{
    if i > 0 {
        assert(forall|j: int| 0 <= j < ls.drop_first().len() ==> #[trigger] ls.drop_first()[j]
            == ls[j + 1]);
        lemma_first_index_of_type_at(ls.drop_first(), event_type, i - 1);
    }
}

proof fn lemma_first_index_of_type_none(ls: Seq<Listener>, event_type: EventType)
    requires
        forall|j: int| 0 <= j < ls.len() ==> (#[trigger] ls[j]).event_type != event_type,
    ensures
        first_index_of_type(ls, event_type) == -1,
    decreases ls.len(),
{
    if ls.len() > 0 {
        assert(forall|j: int| 0 <= j < ls.drop_first().len() ==> #[trigger] ls.drop_first()[j]
            == ls[j + 1]);
        lemma_first_index_of_type_none(ls.drop_first(), event_type);
    }
}

/// The index of the first listener registered for `event_type` under
/// exactly the owner filter `owner_filter`, or -1 when none is.
pub open spec fn first_index_registered(
    ls: Seq<Listener>,
    event_type: EventType,
    owner_filter: Option<u8>,
) -> int
    decreases ls.len(),
{
    if ls.len() == 0 {
        -1
    } else if ls[0].event_type == event_type && ls[0].owner_filter == owner_filter {
        0
    } else {
        let r = first_index_registered(ls.drop_first(), event_type, owner_filter);
        if r == -1 {
            -1
        } else {
            r + 1
        }
    }
}

proof fn lemma_first_index_registered_at(
    ls: Seq<Listener>,
    event_type: EventType,
    owner_filter: Option<u8>,
    i: int,
)
    requires
        0 <= i < ls.len(),
        ls[i].event_type == event_type && ls[i].owner_filter == owner_filter,
        forall|j: int|
            0 <= j < i ==> !((#[trigger] ls[j]).event_type == event_type && ls[j].owner_filter
                == owner_filter),
    ensures
        first_index_registered(ls, event_type, owner_filter) == i,
    decreases i,
{
    if i > 0 {
        assert(forall|j: int| 0 <= j < ls.drop_first().len() ==> #[trigger] ls.drop_first()[j]
            == ls[j + 1]);
        lemma_first_index_registered_at(ls.drop_first(), event_type, owner_filter, i - 1);
    }
}

proof fn lemma_first_index_registered_none(
    ls: Seq<Listener>,
    event_type: EventType,
    owner_filter: Option<u8>,
)
    requires
        forall|j: int|
            0 <= j < ls.len() ==> !((#[trigger] ls[j]).event_type == event_type && ls[j].owner_filter
                == owner_filter),
    ensures
        first_index_registered(ls, event_type, owner_filter) == -1,
    decreases ls.len(),
{
    if ls.len() > 0 {
        assert(forall|j: int| 0 <= j < ls.drop_first().len() ==> #[trigger] ls.drop_first()[j]
            == ls[j + 1]);
        lemma_first_index_registered_none(ls.drop_first(), event_type, owner_filter);
    }
}

/// The ordered, bounded listener registry, together with the
/// process-wide switch for double-click detection.
pub struct EventBus {
    entries: Vec<Listener>,
    cap: usize,
    double_click: bool,
}

impl EventBus {
    /// The registered listeners, in registration order.
    pub closed spec fn registry(self) -> Seq<Listener> {
        self.entries@
    }

    /// How many listeners the registry has room for.
    pub closed spec fn capacity(self) -> usize {
        self.cap
    }

    /// Whether the button classifier should look for double clicks.
    pub closed spec fn double_click_on(self) -> bool {
        self.double_click
    }

    /// The registry never outgrows its capacity.
    pub open spec fn wf(self) -> bool {
        self.registry().len() <= self.capacity()
    }

    /// An empty registry with room for `capacity` listeners and
    /// double-click detection off.
    pub fn new(capacity: usize) -> (b: EventBus)
        ensures
            b.registry() == Seq::<Listener>::empty(),
            b.capacity() == capacity,
            !b.double_click_on(),
            b.wf(),
    {
        EventBus { entries: Vec::new(), cap: capacity, double_click: false }
    }

    /// Turns double-click detection on or off for every classifier that
    /// consults this bus.
    pub fn set_double_click(&mut self, enabled: bool)
        ensures
            final(self).double_click_on() == enabled,
            final(self).registry() == old(self).registry(),
            final(self).capacity() == old(self).capacity(),
    {
        self.double_click = enabled;
    }

    /// Reads the double-click detection switch.
    pub fn double_click_enabled(&self) -> (r: bool)
        ensures
            r == self.double_click_on(),
    {
        self.double_click
    }

    /// Appends a listener for `event_type` under the platform handle
    /// `handle`, with an optional owner filter; refused only when the
    /// registry is full.
    pub fn register(
        &mut self,
        event_type: EventType,
        handle: u32,
        owner_filter: Option<u8>,
        persistent: bool,
    ) -> (r: Result<(), BusError>)
        requires
            old(self).wf(),
        ensures
            old(self).registry().len() < old(self).capacity() ==> {
                &&& r == Ok::<(), BusError>(())
                &&& final(self).registry() == old(self).registry().push(
                    Listener { event_type, owner_filter, persistent, handle },
                )
            },
            old(self).registry().len() >= old(self).capacity() ==> {
                &&& r == Err::<(), BusError>(BusError::RegistryFull)
                &&& final(self).registry() == old(self).registry()
            },
            final(self).capacity() == old(self).capacity(),
            final(self).double_click_on() == old(self).double_click_on(),
            final(self).wf(),
    {
        if self.entries.len() < self.cap {
            self.entries.push(Listener { event_type, owner_filter, persistent, handle });
            Ok(())
        } else {
            Err(BusError::RegistryFull)
        }
    }

    /// Removes the first listener registered for `event_type`, whatever
    /// its owner filter; reports whether one was there.
    pub fn unregister(&mut self, event_type: EventType) -> (removed: bool)
        ensures
            ({
                let r = first_index_of_type(old(self).registry(), event_type);
                &&& removed <==> r != -1
                &&& (removed ==> final(self).registry() == old(self).registry().remove(r))
                &&& (!removed ==> final(self).registry() == old(self).registry())
            }),
            final(self).capacity() == old(self).capacity(),
            final(self).double_click_on() == old(self).double_click_on(),
            old(self).wf() ==> final(self).wf(),
    {
        let mut i: usize = 0;
        while i < self.entries.len()
            invariant
                0 <= i <= self.entries@.len(),
                *self == *old(self),
                forall|j: int|
                    0 <= j < i ==> (#[trigger] self.entries@[j]).event_type != event_type,
            decreases self.entries@.len() - i,
        {
            if self.entries[i].event_type == event_type {
                proof {
                    lemma_first_index_of_type_at(self.entries@, event_type, i as int);
                }
                self.entries.remove(i);
                return true;
            }
            i = i + 1;
        }
        proof {
            lemma_first_index_of_type_none(self.entries@, event_type);
        }
        false
    }

    /// Removes the first listener registered for `event_type` under
    /// exactly the owner filter `owner_filter`; reports whether one was
    /// there.
    pub fn unregister_owned(&mut self, event_type: EventType, owner_filter: Option<u8>) -> (removed:
        bool)
        ensures
            ({
                let r = first_index_registered(old(self).registry(), event_type, owner_filter);
                &&& removed <==> r != -1
                &&& (removed ==> final(self).registry() == old(self).registry().remove(r))
                &&& (!removed ==> final(self).registry() == old(self).registry())
            }),
            final(self).capacity() == old(self).capacity(),
            final(self).double_click_on() == old(self).double_click_on(),
            old(self).wf() ==> final(self).wf(),
    {
        let mut i: usize = 0;
        while i < self.entries.len()
            invariant
                0 <= i <= self.entries@.len(),
                *self == *old(self),
                forall|j: int|
                    0 <= j < i ==> !((#[trigger] self.entries@[j]).event_type == event_type
                        && self.entries@[j].owner_filter == owner_filter),
            decreases self.entries@.len() - i,
        {
            let l = self.entries[i];
            let owner_same = match (l.owner_filter, owner_filter) {
                (Option::None, Option::None) => true,
                (Option::Some(a), Option::Some(b)) => a == b,
                _ => false,
            };
            if l.event_type == event_type && owner_same {
                proof {
                    lemma_first_index_registered_at(
                        self.entries@,
                        event_type,
                        owner_filter,
                        i as int,
                    );
                }
                self.entries.remove(i);
                return true;
            }
            i = i + 1;
        }
        proof {
            lemma_first_index_registered_none(self.entries@, event_type, owner_filter);
        }
        false
    }

    /// Removes every listener unconditionally, the persistent ones
    /// included.
    pub fn clear(&mut self)
        ensures
            final(self).registry() == Seq::<Listener>::empty(),
            final(self).capacity() == old(self).capacity(),
            final(self).double_click_on() == old(self).double_click_on(),
            final(self).wf(),
    {
        self.entries.clear();
    }

    /// Removes every listener not marked persistent, keeping the
    /// persistent ones in their registration order.
    pub fn clear_ephemeral(&mut self)
        ensures
            final(self).registry() == old(self).registry().filter(|l: Listener| l.persistent),
            final(self).capacity() == old(self).capacity(),
            final(self).double_click_on() == old(self).double_click_on(),
            old(self).wf() ==> final(self).wf(),
    {
        let ghost all = self.entries@;
        let mut kept: Vec<Listener> = Vec::new();
        let mut i: usize = 0;
        while i < self.entries.len()
            invariant
                0 <= i <= self.entries@.len(),
                *self == *old(self),
                self.entries@ == all,
                kept@ == all.take(i as int).filter(|l: Listener| l.persistent),
            decreases self.entries@.len() - i,
        {
            proof {
                assert(all.take(i + 1).drop_last() =~= all.take(i as int));
                assert(all.take(i + 1).last() == all[i as int]);
                reveal_with_fuel(Seq::filter, 2);
            }
            if self.entries[i].persistent {
                kept.push(self.entries[i]);
            }
            i = i + 1;
        }
        proof {
            assert(all.take(all.len() as int) =~= all);
        }
        self.entries = kept;
    }

    /// Plans the fan-out of one firing: the handles of every listener
    /// the firing reaches, in registration order. The caller invokes
    /// each callback in this order, awaiting one before the next.
    pub fn dispatch(&self, event_type: EventType, info: &EventInfo) -> (plan: Vec<u32>)
        ensures
            plan@ == matching_handles(self.registry(), event_type, info.owner_id),
    {
        let mut plan: Vec<u32> = Vec::new();
        let mut i: usize = 0;
        while i < self.entries.len()
            invariant
                0 <= i <= self.entries@.len(),
                plan@ == matching_handles(self.entries@.take(i as int), event_type, info.owner_id),
            decreases self.entries@.len() - i,
        {
            proof {
                assert(self.entries@.take(i + 1).drop_last() =~= self.entries@.take(i as int));
                assert(self.entries@.take(i + 1).last() == self.entries@[i as int]);
            }
            let l = self.entries[i];
            let owner_ok = match l.owner_filter {
                Option::None => true,
                Option::Some(o) => match info.owner_id {
                    Option::Some(p) => o == p,
                    Option::None => false,
                },
            };
            if l.event_type == event_type && owner_ok {
                plan.push(l.handle);
            }
            i = i + 1;
        }
        proof {
            assert(self.entries@.take(self.entries@.len() as int) =~= self.entries@);
        }
        plan
    }
}

/// Whether `h` is the handle of some listener of `ls` that a firing of
/// `event_type` carrying `owner_id` reaches.
pub open spec fn is_matching_handle(
    ls: Seq<Listener>,
    event_type: EventType,
    owner_id: Option<u8>,
    h: u32,
) -> bool {
    exists|i: int|
        0 <= i < ls.len() && listener_matches(#[trigger] ls[i], event_type, owner_id)
            && ls[i].handle == h
}

/// Law: a firing invokes a listener if and only if the listener's
/// filters accept it. Every listener the firing reaches contributes its
/// handle to the plan, and every handle of the plan comes from a
/// listener the firing reaches — so a listener is never invoked for
/// another event type or another owner.
pub proof fn lemma_dispatch_exact(ls: Seq<Listener>, event_type: EventType, owner_id: Option<u8>)
    ensures
        forall|i: int|
            0 <= i < ls.len() && listener_matches(#[trigger] ls[i], event_type, owner_id)
                ==> matching_handles(ls, event_type, owner_id).contains(ls[i].handle),
        forall|k: int|
            0 <= k < matching_handles(ls, event_type, owner_id).len() ==> is_matching_handle(
                ls,
                event_type,
                owner_id,
                #[trigger] matching_handles(ls, event_type, owner_id)[k],
            ),
    decreases ls.len(),
{
    if ls.len() > 0 {
        lemma_dispatch_exact(ls.drop_last(), event_type, owner_id);
        let rest = matching_handles(ls.drop_last(), event_type, owner_id);
        let whole = matching_handles(ls, event_type, owner_id);
        assert(forall|i: int| 0 <= i < ls.len() - 1 ==> #[trigger] ls[i] == ls.drop_last()[i]);
        assert forall|i: int|
            0 <= i < ls.len() && listener_matches(#[trigger] ls[i], event_type, owner_id)
                implies whole.contains(ls[i].handle) by {
            if i < ls.len() - 1 {
                assert(rest.contains(ls[i].handle));
                let w = choose|w: int| 0 <= w < rest.len() && rest[w] == ls[i].handle;
                assert(whole[w] == ls[i].handle);
            } else {
                assert(whole.last() == ls[i].handle);
            }
        }
        assert forall|k: int| 0 <= k < matching_handles(ls, event_type, owner_id).len()
            implies is_matching_handle(
            ls,
            event_type,
            owner_id,
            #[trigger] matching_handles(ls, event_type, owner_id)[k],
        ) by {
            assert(whole[k] == matching_handles(ls, event_type, owner_id)[k]);
            if k < rest.len() {
                assert(whole[k] == rest[k]);
                assert(is_matching_handle(ls.drop_last(), event_type, owner_id, rest[k]));
                let i = choose|i: int|
                    0 <= i < ls.drop_last().len() && listener_matches(
                        #[trigger] ls.drop_last()[i],
                        event_type,
                        owner_id,
                    ) && ls.drop_last()[i].handle == rest[k];
                assert(ls[i] == ls.drop_last()[i]);
                assert(0 <= i < ls.len() && listener_matches(ls[i], event_type, owner_id)
                    && ls[i].handle == whole[k]);
            } else {
                assert(listener_matches(ls.last(), event_type, owner_id));
                assert(whole == rest.push(ls.last().handle));
                assert(whole[k] == ls.last().handle);
                let i = ls.len() - 1;
                assert(ls[i] == ls.last());
                assert(0 <= i < ls.len() && listener_matches(ls[i], event_type, owner_id)
                    && ls[i].handle == whole[k]);
            }
        }
    }
}

/// Law: once the registry is empty — as it is after [`EventBus::clear`]
/// — a firing of any event type, with any owner, invokes no listener.
pub proof fn lemma_cleared_registry_is_silent(event_type: EventType, owner_id: Option<u8>)
    ensures
        matching_handles(Seq::<Listener>::empty(), event_type, owner_id) == Seq::<u32>::empty(),
{
}

/// The bounded best-effort delivery queue: `(owner id, event)` pairs,
/// first in first out, a full queue dropping new pairs silently so the
/// producer never blocks.
pub struct EventChannel {
    queue: Vec<(u8, EventType)>,
    cap: usize,
}

impl EventChannel {
    /// The pairs waiting to be received, oldest first.
    pub closed spec fn pending(self) -> Seq<(u8, EventType)> {
        self.queue@
    }

    /// How many pairs the queue has room for.
    pub closed spec fn capacity(self) -> usize {
        self.cap
    }

    /// The queue never outgrows its capacity.
    pub open spec fn wf(self) -> bool {
        self.pending().len() <= self.capacity()
    }

    /// An empty queue with room for `capacity` pairs.
    pub fn new(capacity: usize) -> (c: EventChannel)
        ensures
            c.pending() == Seq::<(u8, EventType)>::empty(),
            c.capacity() == capacity,
            c.wf(),
    {
        EventChannel { queue: Vec::new(), cap: capacity }
    }

    /// Offers a pair to the queue without blocking: accepted and
    /// appended when there is room, silently dropped when the queue is
    /// full. The result says which happened.
    pub fn try_send(&mut self, owner_id: u8, event_type: EventType) -> (accepted: bool)
        requires
            old(self).wf(),
        ensures
            accepted <==> old(self).pending().len() < old(self).capacity(),
            accepted ==> final(self).pending() == old(self).pending().push((owner_id, event_type)),
            !accepted ==> final(self).pending() == old(self).pending(),
            final(self).capacity() == old(self).capacity(),
            final(self).wf(),
    {
        if self.queue.len() < self.cap {
            self.queue.push((owner_id, event_type));
            true
        } else {
            false
        }
    }

    /// Takes the oldest pair off the queue, or nothing when it is empty.
    pub fn receive(&mut self) -> (r: Option<(u8, EventType)>)
        ensures
            old(self).pending().len() == 0 ==> {
                &&& r == None::<(u8, EventType)>
                &&& final(self).pending() == old(self).pending()
            },
            old(self).pending().len() > 0 ==> {
                &&& r == Some(old(self).pending()[0])
                &&& final(self).pending() == old(self).pending().drop_first()
            },
            final(self).capacity() == old(self).capacity(),
            old(self).wf() ==> final(self).wf(),
    {
        if self.queue.len() == 0 {
            None
        } else {
            let pair = self.queue.remove(0);
            proof {
                assert(old(self).pending().remove(0) =~= old(self).pending().drop_first());
            }
            Some(pair)
        }
    }

    /// How many pairs are waiting.
    pub fn len(&self) -> (n: usize)
        ensures
            n == self.pending().len(),
    {
        self.queue.len()
    }
}

} // verus!

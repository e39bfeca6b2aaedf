//! Runs of allocations and consumptions, and what the registry holds after
//! them.

use crate::handle::Handle;
use crate::handle::Heap;
use vstd::prelude::*;

verus! {

/// One step in the life of a heap, with what it took and gave.
pub enum Event<T> {
    /// A value was stored and a handle made for it.
    Allocate { value: T, handle: Handle<T> },
    /// A registered handle was consumed and gave its object.
    Consume { handle: Handle<T>, payload: Option<T> },
}

impl<T> Event<T> {
    /// Whether the event leads from `pre` to `post`.
    pub open spec fn leads(self, pre: Heap<T>, post: Heap<T>) -> bool {
        match self {
            Event::Allocate { value, handle } => Heap::allocated(pre, value, post, handle),
            Event::Consume { handle, payload } => {
                &&& !handle.is_null()
                &&& pre.registered(handle)
                &&& Heap::consumed(pre, handle, post, payload)
            },
        }
    }

    /// How many of `events` are allocations.
    pub open spec fn allocations(events: Seq<Self>) -> nat
        decreases events.len(),
    {
        if events.len() == 0 {
            0
        } else if events.last() is Allocate {
            Self::allocations(events.drop_last()) + 1
        } else {
            Self::allocations(events.drop_last())
        }
    }

    /// How many of `events` are consumptions.
    pub open spec fn consumptions(events: Seq<Self>) -> nat
        decreases events.len(),
    {
        if events.len() == 0 {
            0
        } else if events.last() is Consume {
            Self::consumptions(events.drop_last()) + 1
        } else {
            Self::consumptions(events.drop_last())
        }
    }

    /// Whether `states` is what a heap went through under `events`, one
    /// after the other, from a well-formed heap.
    pub open spec fn history(states: Seq<Heap<T>>, events: Seq<Self>) -> bool {
        &&& states.len() == events.len() + 1
        &&& states[0].wf()
        &&& forall|i: int|
            0 <= i < events.len() ==> (#[trigger] events[i]).leads(states[i], states[i + 1])
    }

    /// After any run of allocations and consumptions the heap is well formed,
    /// and its registry has gained one entry for every allocation and lost
    /// one for every consumption.
    pub proof fn lemma_registry_counts_live(states: Seq<Heap<T>>, events: Seq<Self>)
        requires
            Self::history(states, events),
        ensures
            states.last().wf(),
            states.last().registry().len() + Self::consumptions(events)
                == states[0].registry().len() + Self::allocations(events),
        decreases events.len(),
    {
        if events.len() > 0 {
            let before = states.drop_last();
            let earlier = events.drop_last();
            assert(Self::history(before, earlier)) by {
                assert forall|i: int| 0 <= i < earlier.len() implies (#[trigger] earlier[i]).leads(
                    before[i],
                    before[i + 1],
                ) by {
                    assert(events[i].leads(states[i], states[i + 1]));
                }
            }
            Self::lemma_registry_counts_live(before, earlier);
            let last = events.len() - 1;
            assert(events[last].leads(states[last], states[last + 1]));
            assert(before.last() == states[last]);
        }
    }

    /// While no report is made, the registry enters exactly the addresses of
    /// the objects in store, if it did so at the start.
    pub proof fn lemma_registry_is_exact(states: Seq<Heap<T>>, events: Seq<Self>)
        requires
            Self::history(states, events),
            states[0].registry().dom() == states[0].objects().dom(),
        ensures
            states.last().registry().dom() == states.last().objects().dom(),
        decreases events.len(),
    {
        if events.len() > 0 {
            let before = states.drop_last();
            let earlier = events.drop_last();
            assert(Self::history(before, earlier)) by {
                assert forall|i: int| 0 <= i < earlier.len() implies (#[trigger] earlier[i]).leads(
                    before[i],
                    before[i + 1],
                ) by {
                    assert(events[i].leads(states[i], states[i + 1]));
                }
            }
            Self::lemma_registry_is_exact(before, earlier);
            let last = events.len() - 1;
            assert(events[last].leads(states[last], states[last + 1]));
            assert(before.last() == states[last]);
            assert(states.last().registry().dom() =~= states.last().objects().dom());
        }
    }

    /// A report made after `N` allocations and `M` consumptions, on a heap
    /// whose registry was empty before them, lists exactly `N - M` entries.
    pub proof fn lemma_report_counts_leaks(
        states: Seq<Heap<T>>,
        events: Seq<Self>,
        after: Heap<T>,
        leaks: Seq<(usize, &'static str)>,
    )
        requires
            Self::history(states, events),
            states[0].registry() == Map::<usize, &'static str>::empty(),
            Heap::reported(states.last(), after, leaks),
        ensures
            Self::consumptions(events) <= Self::allocations(events),
            leaks.len() == Self::allocations(events) - Self::consumptions(events),
    {
        Self::lemma_registry_counts_live(states, events);
    }
}

} // verus!

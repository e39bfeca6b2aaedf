//! Plain handles, and the heap that holds what they name.

use crate::arena::Arena;
use crate::boxed::fill;
use crate::boxed::reserve;
use crate::registry::Registry;
use crate::render::render;
use crate::render::rendering;
use copyless::BoxAllocation;
use core::marker::PhantomData;
use vstd::prelude::*;
use vstd::std_specs::cmp::PartialEqSpec;

verus! {

/// The address that names no object.
pub const VK_NULL_HANDLE: usize = 0;

/// Names an object of type `T` in a `Heap<T>`, or no object. A handle is one
/// address and nothing else: copies of it name the same object, and two
/// handles are equal exactly when their addresses are.
#[derive(Debug)]
pub struct Handle<T> {
    addr: usize,
    marker: PhantomData<T>,
}

/// Storage that was reserved for an object and does not hold it yet.
#[verifier::reject_recursive_types(T)]
pub struct HandleAllocation<T>(BoxAllocation<T>);

/// Owns the objects that plain handles name, and keeps the registry of the
/// addresses in use. Every entry of the registry carries the label that the
/// heap was made with, which describes `T` for a reader.
pub struct Heap<T> {
    objects: Arena<T>,
    registry: Registry,
    label: &'static str,
}

impl<T> Heap<T> {
    /// The objects in store, by address.
    pub closed spec fn objects(&self) -> Map<usize, T> {
        self.objects@
    }

    /// The registry: the label of each address in use.
    pub closed spec fn registry(&self) -> Map<usize, &'static str> {
        self.registry@
    }

    /// How many addresses were given out so far.
    pub closed spec fn issued(&self) -> nat {
        self.objects.issued()
    }

    /// The label under which the heap enters its objects in the registry.
    pub closed spec fn label(&self) -> &'static str {
        self.label
    }

    /// The registry is finite and enters only addresses of stored objects,
    /// each under the heap's label, and every stored object is at an address
    /// that was given out.
    pub open spec fn wf(&self) -> bool {
        &&& self.registry().dom().finite()
        &&& self.registry().dom().subset_of(self.objects().dom())
        &&& forall|addr: usize| #[trigger]
            self.registry().contains_key(addr) ==> self.registry()[addr] == self.label()
        &&& forall|addr: usize| #[trigger]
            self.objects().contains_key(addr) ==> 1 <= addr <= self.issued()
        &&& self.issued() <= usize::MAX
    }

    /// The object that `handle` names, if it is in store.
    pub open spec fn payload(&self, handle: Handle<T>) -> Option<T> {
        self.objects().get(handle.address())
    }

    /// Whether the registry enters the address of `handle`.
    pub open spec fn registered(&self, handle: Handle<T>) -> bool {
        self.registry().contains_key(handle.address())
    }

    /// Whether `handle` may be consumed: it is null or registered.
    pub open spec fn consumable(&self, handle: Handle<T>) -> bool {
        handle.is_null() || self.registered(handle)
    }

    /// `post` is `pre` after `value` was stored at the next address, the
    /// address was entered in the registry and `handle` was made for it.
    pub open spec fn allocated(pre: Self, value: T, post: Self, handle: Handle<T>) -> bool {
        &&& handle.address() == pre.issued() + 1
        &&& post.issued() == pre.issued() + 1
        &&& post.label() == pre.label()
        &&& post.objects() == pre.objects().insert(handle.address(), value)
        &&& post.registry() == pre.registry().insert(handle.address(), pre.label())
    }

    /// `post` is `pre` after `handle` was consumed and gave `payload`: the
    /// null handle gives nothing and changes nothing, any other gives its
    /// object, which leaves the store, as its address leaves the registry.
    pub open spec fn consumed(pre: Self, handle: Handle<T>, post: Self, payload: Option<T>) -> bool {
        if handle.is_null() {
            payload is None && Self::unchanged(pre, post)
        } else {
            &&& payload == Some(pre.objects()[handle.address()])
            &&& post.objects() == pre.objects().remove(handle.address())
            &&& post.registry() == pre.registry().remove(handle.address())
            &&& post.issued() == pre.issued()
            &&& post.label() == pre.label()
        }
    }

    /// `post` holds and enters what `pre` does.
    pub open spec fn unchanged(pre: Self, post: Self) -> bool {
        &&& post.objects() == pre.objects()
        &&& post.registry() == pre.registry()
        &&& post.issued() == pre.issued()
        &&& post.label() == pre.label()
    }

    /// `post` is `pre` after the object that `handle` names was overwritten
    /// with `value`: nothing else differs.
    pub open spec fn rewritten(pre: Self, handle: Handle<T>, value: T, post: Self) -> bool {
        &&& post.objects() == pre.objects().insert(handle.address(), value)
        &&& post.registry() == pre.registry()
        &&& post.issued() == pre.issued()
        &&& post.label() == pre.label()
    }

    /// `post` is `pre` after the registry was emptied into `leaks`: every
    /// entry is listed once, and the objects stay in store.
    pub open spec fn reported(pre: Self, post: Self, leaks: Seq<(usize, &'static str)>) -> bool {
        &&& leaks.no_duplicates()
        &&& leaks.to_set() == pre.registry().kv_pairs()
        &&& leaks.len() == pre.registry().len()
        &&& post.registry() == Map::<usize, &'static str>::empty()
        &&& post.objects() == pre.objects()
        &&& post.issued() == pre.issued()
        &&& post.label() == pre.label()
    }

    /// The heap that holds nothing and will enter its objects under `label`.
    pub fn new(label: &'static str) -> (heap: Self)
        ensures
            heap.wf(),
            heap.objects() == Map::<usize, T>::empty(),
            heap.registry() == Map::<usize, &'static str>::empty(),
            heap.issued() == 0,
            heap.label() == label,
    {
        let heap = Heap { objects: Arena::new(), registry: Registry::new(), label };
        proof {
            heap.objects.lemma_addresses_were_issued();
        }
        heap
    }
}

impl<T> HandleAllocation<T> {
    /// Writes `value` into the reserved storage, stores it in `heap` at the
    /// next address, enters that address in the registry under the heap's
    /// label, and returns the handle that names the object.
    pub fn init(self, value: T, heap: &mut Heap<T>) -> (handle: Handle<T>)
        requires
            old(heap).wf(),
        ensures
            final(heap).wf(),
            Heap::allocated(*old(heap), value, *final(heap), handle),
    {
        let object = fill(self.0, value);
        let addr = heap.objects.insert(object);
        heap.registry.insert(addr, heap.label);
        proof {
            heap.objects.lemma_addresses_were_issued();
        }
        Handle { addr, marker: PhantomData }
    }
}

impl<T> Handle<T> {
    /// The address that this handle is.
    pub closed spec fn address(&self) -> usize {
        self.addr
    }

    /// Whether this is the handle that names no object.
    pub open spec fn is_null(&self) -> bool {
        self.address() == VK_NULL_HANDLE
    }

    /// The address that this handle is, as a number: what crosses the API
    /// boundary in place of the handle.
    pub fn to_address(&self) -> (addr: usize)
        ensures
            addr == self.address(),
    {
        self.addr
    }

    /// The handle that is the address `addr`: what comes back over the API
    /// boundary. Whether it names anything is for the heap to say.
    pub fn from_address(addr: usize) -> (handle: Self)
        ensures
            handle.address() == addr,
    {
        Handle { addr, marker: PhantomData }
    }

    /// The handle written out for a reader, as in `Handle(0x1f)`.
    pub fn describe(&self) -> (text: String)
        ensures
            text@ == rendering("Handle"@, self.address()),
    {
        render("Handle", self.addr)
    }

    /// Reserves storage for an object, to be filled by `init`.
    pub fn allocate() -> HandleAllocation<T> {
        HandleAllocation(reserve())
    }

    /// Stores `value` in `heap` and returns the handle that names it.
    pub fn new(value: T, heap: &mut Heap<T>) -> (handle: Self)
        requires
            old(heap).wf(),
        ensures
            final(heap).wf(),
            Heap::allocated(*old(heap), value, *final(heap), handle),
    {
        Self::allocate().init(value, heap)
    }

    /// The handle that names no object.
    pub fn null() -> (handle: Self)
        ensures
            handle.is_null(),
    {
        Handle { addr: VK_NULL_HANDLE, marker: PhantomData }
    }

    /// Consumes the handle. The null handle gives `None`. Any other handle
    /// must be registered: its object leaves the heap and is returned, and its
    /// address leaves the registry.
    pub fn unbox(self, heap: &mut Heap<T>) -> (payload: Option<T>)
        requires
            old(heap).wf(),
            old(heap).consumable(self),
        ensures
            final(heap).wf(),
            Heap::consumed(*old(heap), self, *final(heap), payload),
    {
        if self.addr == VK_NULL_HANDLE {
            None
        } else {
            heap.registry.remove(self.addr).unwrap();
            let object = heap.objects.take(self.addr).unwrap();
            Some(*object)
        }
    }

    /// The object that the handle names, if it is in store. The null handle
    /// names none. The registry is not asked.
    pub fn as_ref<'a>(&self, heap: &'a Heap<T>) -> (found: Option<&'a T>)
        requires
            heap.wf(),
        ensures
            self.is_null() ==> found is None,
            match found {
                Some(object) => heap.payload(*self) == Some(*object),
                None => heap.payload(*self) is None,
            },
    {
        heap.objects.get(self.addr)
    }

    /// The object that the handle names, if it is in store, for writing. What
    /// the caller leaves in it is what every copy of the handle then names.
    /// The null handle names none. The registry is not asked.
    pub fn as_mut<'a>(&self, heap: &'a mut Heap<T>) -> (found: Option<&'a mut T>)
        requires
            old(heap).wf(),
        ensures
            final(heap).wf(),
            self.is_null() ==> found is None,
            match found {
                Some(object) => {
                    &&& old(heap).payload(*self) == Some(*object)
                    &&& Heap::rewritten(*old(heap), *self, *final(object), *final(heap))
                },
                None => old(heap).payload(*self) is None && Heap::unchanged(*old(heap), *final(heap)),
            },
    {
        heap.objects.get_mut(self.addr)
    }

    /// Whether the registry enters the handle's address: the test that comes
    /// before every use of what the handle names.
    pub fn check(&self, heap: &Heap<T>) -> (valid: bool)
        ensures
            valid == heap.registered(*self),
    {
        heap.registry.contains(self.addr)
    }

    /// The object that a registered handle names.
    pub fn deref<'a>(&self, heap: &'a Heap<T>) -> (object: &'a T)
        requires
            heap.wf(),
            heap.registered(*self),
        ensures
            heap.payload(*self) == Some(*object),
    {
        heap.objects.get(self.addr).unwrap()
    }

    /// The object that a registered handle names, for writing. What the
    /// caller leaves in it is what every copy of the handle then names.
    pub fn deref_mut<'a>(&self, heap: &'a mut Heap<T>) -> (object: &'a mut T)
        requires
            old(heap).wf(),
            old(heap).registered(*self),
        ensures
            final(heap).wf(),
            old(heap).payload(*self) == Some(*object),
            Heap::rewritten(*old(heap), *self, *final(object), *final(heap)),
    {
        heap.objects.get_mut(self.addr).unwrap()
    }

    /// The object that a registered handle names, as `deref` gives it.
    pub fn borrow<'a>(&self, heap: &'a Heap<T>) -> (object: &'a T)
        requires
            heap.wf(),
            heap.registered(*self),
        ensures
            heap.payload(*self) == Some(*object),
    {
        self.deref(heap)
    }

    /// Empties the registry of `heap` and returns what it held: the address
    /// and label of every object that was stored and never consumed, each
    /// once, in no particular order. The objects stay in store, but their
    /// handles are no longer registered.
    pub fn report_leaks(heap: &mut Heap<T>) -> (leaks: Vec<(usize, &'static str)>)
        requires
            old(heap).wf(),
        ensures
            final(heap).wf(),
            Heap::reported(*old(heap), *final(heap), leaks@),
    {
        heap.registry.drain()
    }
}

impl<T> Clone for Handle<T> {
    /// A copy of the handle: the same address.
    fn clone(&self) -> (copy: Self)
        ensures
            copy == *self,
    {
        *self
    }
}

impl<T> Copy for Handle<T> {
}

impl<T> PartialEq for Handle<T> {
    /// Whether the two handles are the same address.
    fn eq(&self, other: &Self) -> (equal: bool) {
        self.addr == other.addr
    }
}

impl<T> vstd::std_specs::cmp::PartialEqSpecImpl for Handle<T> {
    open spec fn obeys_eq_spec() -> bool {
        true
    }

    open spec fn eq_spec(&self, other: &Self) -> bool {
        self.address() == other.address()
    }
}

impl<T> Eq for Handle<T> {
}

impl<T> Handle<T> {
    /// Equality of handles is equality of addresses, and with it reflexive,
    /// symmetric and transitive. What two handles name plays no part in it.
    pub proof fn lemma_equality_is_identity(a: Self, b: Self, c: Self)
        ensures
            a.eq_spec(&b) <==> a.address() == b.address(),
            a.eq_spec(&b) <==> a == b,
            a.eq_spec(&a),
            a.eq_spec(&b) <==> b.eq_spec(&a),
            a.eq_spec(&b) && b.eq_spec(&c) ==> a.eq_spec(&c),
    {
    }
}

impl<T> Heap<T> {
    /// The null handle is never registered and names nothing.
    pub proof fn lemma_null_names_nothing(heap: Self, handle: Handle<T>)
        requires
            heap.wf(),
            handle.is_null(),
        ensures
            !heap.registered(handle),
            heap.payload(handle) is None,
    {
    }

    /// A handle that was just made is not null, is registered under the
    /// heap's label and names the value it was made for. The address is new:
    /// nothing was stored or entered there before. The heap stays well formed.
    pub proof fn lemma_new_handle_names_value(pre: Self, value: T, post: Self, handle: Handle<T>)
        requires
            pre.wf(),
            Self::allocated(pre, value, post, handle),
        ensures
            post.wf(),
            !handle.is_null(),
            !pre.registered(handle),
            pre.payload(handle) is None,
            post.registered(handle),
            post.registry()[handle.address()] == pre.label(),
            post.payload(handle) == Some(value),
    {
    }

    /// What was stored comes back: consuming a handle right after it was made
    /// gives the value it was made for, and leaves in store and in the
    /// registry what was there before.
    pub proof fn lemma_unbox_returns_stored(
        pre: Self,
        value: T,
        mid: Self,
        handle: Handle<T>,
        post: Self,
        payload: Option<T>,
    )
        requires
            pre.wf(),
            Self::allocated(pre, value, mid, handle),
            Self::consumed(mid, handle, post, payload),
        ensures
            payload == Some(value),
            post.objects() == pre.objects(),
            post.registry() == pre.registry(),
    {
        assert(post.objects() =~= pre.objects());
        assert(post.registry() =~= pre.registry());
    }

    /// A handle that was consumed is spent: it is no longer registered, so it
    /// may not be consumed or followed again, and it names nothing. The heap
    /// stays well formed.
    pub proof fn lemma_consumed_is_spent(pre: Self, handle: Handle<T>, post: Self, payload: Option<T>)
        requires
            pre.wf(),
            !handle.is_null(),
            pre.registered(handle),
            Self::consumed(pre, handle, post, payload),
        ensures
            post.wf(),
            !post.registered(handle),
            !post.consumable(handle),
            post.payload(handle) is None,
            post.registry().len() + 1 == pre.registry().len(),
    {
    }

    /// A handle that is not registered, at an address that was given out
    /// already, is not registered after a later allocation either: addresses
    /// are not given out twice.
    pub proof fn lemma_spent_stays_spent(
        pre: Self,
        spent: Handle<T>,
        value: T,
        post: Self,
        handle: Handle<T>,
    )
        requires
            pre.wf(),
            spent.address() <= pre.issued(),
            !pre.registered(spent),
            Self::allocated(pre, value, post, handle),
        ensures
            !spent.eq_spec(&handle),
            !post.registered(spent),
            post.payload(spent) == pre.payload(spent),
            post.consumable(spent) == pre.consumable(spent),
    {
    }

    /// Two allocations give two handles that differ, whatever the values
    /// are: the later address is the greater.
    pub proof fn lemma_allocations_differ(
        first_pre: Self,
        first_value: T,
        first_post: Self,
        first: Handle<T>,
        second_pre: Self,
        second_value: T,
        second_post: Self,
        second: Handle<T>,
    )
        requires
            Self::allocated(first_pre, first_value, first_post, first),
            Self::allocated(second_pre, second_value, second_post, second),
            first_post.issued() <= second_pre.issued(),
        ensures
            first.address() < second.address(),
            !first.eq_spec(&second),
    {
    }

    /// What is written through one handle is what every equal handle names
    /// afterwards.
    pub proof fn lemma_copies_see_writes(pre: Self, writer: Handle<T>, value: T, post: Self, reader: Handle<T>)
        requires
            writer.eq_spec(&reader),
            Self::rewritten(pre, writer, value, post),
        ensures
            post.payload(reader) == Some(value),
    {
    }

    /// A report lists as many entries as the registry held, and a second
    /// report right after it lists none.
    pub proof fn lemma_second_report_is_empty(
        pre: Self,
        mid: Self,
        first: Seq<(usize, &'static str)>,
        post: Self,
        second: Seq<(usize, &'static str)>,
    )
        requires
            Self::reported(pre, mid, first),
            Self::reported(mid, post, second),
        ensures
            first.len() == pre.registry().len(),
            second.len() == 0,
    {
    }
}

} // verus!

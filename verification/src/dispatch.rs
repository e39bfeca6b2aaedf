//! Dispatchable handles: what they name carries the loader's magic tag.

use crate::arena::Arena;
use crate::boxed::fill;
use crate::boxed::reserve;
use crate::handle::VK_NULL_HANDLE;
use crate::render::render;
use crate::render::rendering;
use copyless::BoxAllocation;
use core::marker::PhantomData;
use vstd::prelude::*;
use vstd::std_specs::cmp::PartialEqSpec;

verus! {

/// The tag by which a dispatch loader knows a dispatchable object.
pub const ICD_LOADER_MAGIC: u64 = 0x01CDC0DE;

/// The payloads of the objects in `stored`, at the same addresses.
spec fn payloads<T>(stored: Map<usize, (u64, T)>) -> Map<usize, T> {
    Map::new(|addr: usize| stored.contains_key(addr), |addr: usize| stored[addr].1)
}

/// An object that enters the store brings its payload, and no more, to the
/// payloads.
proof fn lemma_payloads_insert<T>(stored: Map<usize, (u64, T)>, addr: usize, object: (u64, T))
    ensures
        payloads(stored.insert(addr, object)) == payloads(stored).insert(addr, object.1),
{
    assert(payloads(stored.insert(addr, object)) =~= payloads(stored).insert(addr, object.1));
}

/// An object that leaves the store takes its payload, and no more, from the
/// payloads.
proof fn lemma_payloads_remove<T>(stored: Map<usize, (u64, T)>, addr: usize)
    ensures
        payloads(stored.remove(addr)) == payloads(stored).remove(addr),
{
    assert(payloads(stored.remove(addr)) =~= payloads(stored).remove(addr));
}

/// Names a dispatchable object with a payload of type `T` in a
/// `DispatchHeap<T>`, or no object. Like a plain handle it is one address,
/// and equal to another exactly when the addresses are.
#[derive(Debug)]
pub struct DispatchHandle<T> {
    addr: usize,
    marker: PhantomData<T>,
}

/// Storage that was reserved for a dispatchable object and does not hold it
/// yet.
#[verifier::reject_recursive_types(T)]
pub struct DisplatchHandleAllocation<T>(BoxAllocation<(u64, T)>);

/// Owns the objects that dispatchable handles name. It keeps no registry, and
/// what it stores is not written again: a dispatchable object is shared with
/// the loader for as long as it lives.
pub struct DispatchHeap<T> {
    objects: Arena<(u64, T)>,
}

impl<T> DispatchHeap<T> {
    /// The payloads in store, by address.
    pub closed spec fn objects(&self) -> Map<usize, T> {
        payloads(self.objects@)
    }

    /// The tag in front of the object stored at `addr`.
    pub closed spec fn tag(&self, addr: usize) -> u64 {
        self.objects@[addr].0
    }

    /// How many addresses were given out so far.
    pub closed spec fn issued(&self) -> nat {
        self.objects.issued()
    }

    /// Every object in store carries the loader's tag, from the moment it is
    /// stored until it leaves, and is at an address that was given out.
    pub open spec fn wf(&self) -> bool {
        &&& forall|addr: usize| #[trigger]
            self.objects().contains_key(addr) ==> self.tag(addr) == ICD_LOADER_MAGIC
        &&& forall|addr: usize| #[trigger]
            self.objects().contains_key(addr) ==> 1 <= addr <= self.issued()
        &&& self.issued() <= usize::MAX
    }

    /// The payload of the object that `handle` names, if it is in store.
    pub open spec fn payload(&self, handle: DispatchHandle<T>) -> Option<T> {
        self.objects().get(handle.address())
    }

    /// `post` is `pre` after an object with the loader's tag and payload
    /// `value` was stored at the next address and `handle` was made for it.
    pub open spec fn allocated(pre: Self, value: T, post: Self, handle: DispatchHandle<T>) -> bool {
        &&& handle.address() == pre.issued() + 1
        &&& post.issued() == pre.issued() + 1
        &&& post.objects() == pre.objects().insert(handle.address(), value)
        &&& post.tag(handle.address()) == ICD_LOADER_MAGIC
    }

    /// `post` is `pre` after `handle` was consumed and gave `payload`: the
    /// payload of the object it names, if that is in store. The object leaves
    /// the store.
    pub open spec fn consumed(pre: Self, handle: DispatchHandle<T>, post: Self, payload: Option<T>) -> bool {
        &&& payload == pre.payload(handle)
        &&& post.objects() == pre.objects().remove(handle.address())
        &&& post.issued() == pre.issued()
    }

    /// The heap that holds nothing.
    pub fn new() -> (heap: Self)
        ensures
            heap.wf(),
            heap.objects() == Map::<usize, T>::empty(),
            heap.issued() == 0,
    {
        let heap = DispatchHeap { objects: Arena::new() };
        assert(heap.objects() =~= Map::<usize, T>::empty());
        heap
    }

    /// What a loader asks of an address before it trusts it: whether a
    /// dispatchable object is stored there, tag in front.
    pub fn is_dispatchable(&self, addr: usize) -> (genuine: bool)
        requires
            self.wf(),
        ensures
            genuine == self.objects().contains_key(addr),
    {
        match self.objects.get(addr) {
            Some(object) => object.0 == ICD_LOADER_MAGIC,
            None => false,
        }
    }
}

impl<T> DisplatchHandleAllocation<T> {
    /// Writes the loader's tag and `value` into the reserved storage, stores
    /// the object in `heap` at the next address, and returns the handle that
    /// names it.
    pub fn init(self, value: T, heap: &mut DispatchHeap<T>) -> (handle: DispatchHandle<T>)
        requires
            old(heap).wf(),
        ensures
            final(heap).wf(),
            DispatchHeap::allocated(*old(heap), value, *final(heap), handle),
    {
        let object = fill(self.0, (ICD_LOADER_MAGIC, value));
        let addr = heap.objects.insert(object);
        proof {
            heap.objects.lemma_addresses_were_issued();
            lemma_payloads_insert(old(heap).objects@, addr, *object);
        }
        DispatchHandle { addr, marker: PhantomData }
    }
}

impl<T> DispatchHandle<T> {
    /// The address that this handle is.
    pub closed spec fn address(&self) -> usize {
        self.addr
    }

    /// Whether this is the handle that names no object.
    pub open spec fn is_null(&self) -> bool {
        self.address() == VK_NULL_HANDLE
    }

    /// The address that this handle is, as a number: what crosses the API
    /// boundary in place of the handle.
    pub fn to_address(&self) -> (addr: usize)
        ensures
            addr == self.address(),
    {
        self.addr
    }

    /// The handle that is the address `addr`: what comes back over the API
    /// boundary. Whether it names anything is for the heap to say.
    pub fn from_address(addr: usize) -> (handle: Self)
        ensures
            handle.address() == addr,
    {
        DispatchHandle { addr, marker: PhantomData }
    }

    /// The handle written out for a reader, as in `DispatchHandle(0x1f)`.
    pub fn describe(&self) -> (text: String)
        ensures
            text@ == rendering("DispatchHandle"@, self.address()),
    {
        render("DispatchHandle", self.addr)
    }

    /// Reserves storage for a dispatchable object, to be filled by `init`.
    pub fn allocate() -> DisplatchHandleAllocation<T> {
        DisplatchHandleAllocation(reserve())
    }

    /// Stores an object with payload `value` in `heap` and returns the handle
    /// that names it.
    pub fn new(value: T, heap: &mut DispatchHeap<T>) -> (handle: Self)
        requires
            old(heap).wf(),
        ensures
            final(heap).wf(),
            DispatchHeap::allocated(*old(heap), value, *final(heap), handle),
    {
        Self::allocate().init(value, heap)
    }

    /// The handle that names no object.
    pub fn null() -> (handle: Self)
        ensures
            handle.is_null(),
    {
        DispatchHandle { addr: VK_NULL_HANDLE, marker: PhantomData }
    }

    /// Consumes the handle. The object that it names leaves the heap and its
    /// payload is returned, without the tag. The null handle names none and
    /// gives `None`, and so does a handle whose object is not in store.
    pub fn unbox(self, heap: &mut DispatchHeap<T>) -> (payload: Option<T>)
        requires
            old(heap).wf(),
        ensures
            final(heap).wf(),
            self.is_null() ==> payload is None,
            DispatchHeap::consumed(*old(heap), self, *final(heap), payload),
    {
        if self.addr == VK_NULL_HANDLE {
            proof {
                assert(heap.objects() =~= old(heap).objects().remove(self.addr));
            }
            None
        } else {
            let taken = heap.objects.take(self.addr);
            proof {
                lemma_payloads_remove(old(heap).objects@, self.addr);
                assert(heap.objects() == old(heap).objects().remove(self.addr));
            }
            match taken {
                Some(object) => Some((*object).1),
                None => None,
            }
        }
    }

    /// The payload of the object that the handle names, if it is in store.
    /// The null handle names none.
    pub fn as_ref<'a>(&self, heap: &'a DispatchHeap<T>) -> (found: Option<&'a T>)
        requires
            heap.wf(),
        ensures
            self.is_null() ==> found is None,
            match found {
                Some(payload) => heap.payload(*self) == Some(*payload),
                None => heap.payload(*self) is None,
            },
    {
        if self.addr == VK_NULL_HANDLE {
            None
        } else {
            match heap.objects.get(self.addr) {
                Some(object) => Some(&object.1),
                None => None,
            }
        }
    }

    /// The payload of the object that the handle names, which must be in
    /// store.
    pub fn deref<'a>(&self, heap: &'a DispatchHeap<T>) -> (payload: &'a T)
        requires
            heap.wf(),
            heap.payload(*self) is Some,
        ensures
            heap.payload(*self) == Some(*payload),
    {
        &heap.objects.get(self.addr).unwrap().1
    }

    /// The payload of the object that the handle names, as `deref` gives it.
    pub fn borrow<'a>(&self, heap: &'a DispatchHeap<T>) -> (payload: &'a T)
        requires
            heap.wf(),
            heap.payload(*self) is Some,
        ensures
            heap.payload(*self) == Some(*payload),
    {
        self.deref(heap)
    }
}

impl<T> Clone for DispatchHandle<T> {
    /// A copy of the handle: the same address.
    fn clone(&self) -> (copy: Self)
        ensures
            copy == *self,
    {
        *self
    }
}

impl<T> Copy for DispatchHandle<T> {
}

impl<T> PartialEq for DispatchHandle<T> {
    /// Whether the two handles are the same address.
    fn eq(&self, other: &Self) -> (equal: bool) {
        self.addr == other.addr
    }
}

impl<T> vstd::std_specs::cmp::PartialEqSpecImpl for DispatchHandle<T> {
    open spec fn obeys_eq_spec() -> bool {
        true
    }

    open spec fn eq_spec(&self, other: &Self) -> bool {
        self.address() == other.address()
    }
}

impl<T> Eq for DispatchHandle<T> {
}

impl<T> DispatchHandle<T> {
    /// Equality of handles is equality of addresses, and with it reflexive,
    /// symmetric and transitive. What two handles name plays no part in it.
    pub proof fn lemma_equality_is_identity(a: Self, b: Self, c: Self)
        ensures
            a.eq_spec(&b) <==> a.address() == b.address(),
            a.eq_spec(&b) <==> a == b,
            a.eq_spec(&a),
            a.eq_spec(&b) <==> b.eq_spec(&a),
            a.eq_spec(&b) && b.eq_spec(&c) ==> a.eq_spec(&c),
    {
    }
}

impl<T> DispatchHeap<T> {
    /// The null handle names nothing.
    pub proof fn lemma_null_names_nothing(heap: Self, handle: DispatchHandle<T>)
        requires
            heap.wf(),
            handle.is_null(),
        ensures
            heap.payload(handle) is None,
    {
    }

    /// A handle that was just made is not null and names the payload it was
    /// made for. The address is new: nothing was stored there before.
    pub proof fn lemma_new_handle_names_value(
        pre: Self,
        value: T,
        post: Self,
        handle: DispatchHandle<T>,
    )
        requires
            pre.wf(),
            Self::allocated(pre, value, post, handle),
        ensures
            !handle.is_null(),
            pre.payload(handle) is None,
            post.payload(handle) == Some(value),
    {
    }

    /// What was stored comes back, and only that: consuming a handle right
    /// after it was made gives the payload it was made for, and leaves in
    /// store what was there before.
    pub proof fn lemma_unbox_returns_stored(
        pre: Self,
        value: T,
        mid: Self,
        handle: DispatchHandle<T>,
        post: Self,
        payload: Option<T>,
    )
        requires
            pre.wf(),
            Self::allocated(pre, value, mid, handle),
            Self::consumed(mid, handle, post, payload),
        ensures
            payload == Some(value),
            post.objects() == pre.objects(),
    {
        assert(post.objects() =~= pre.objects());
    }

    /// A handle that was consumed names nothing, and consuming it again
    /// gives nothing and changes nothing.
    pub proof fn lemma_consumed_is_spent(
        pre: Self,
        handle: DispatchHandle<T>,
        mid: Self,
        payload: Option<T>,
        post: Self,
        again: Option<T>,
    )
        requires
            Self::consumed(pre, handle, mid, payload),
            Self::consumed(mid, handle, post, again),
        ensures
            mid.payload(handle) is None,
            again is None,
            post.objects() == mid.objects(),
    {
        assert(post.objects() =~= mid.objects());
    }

    /// Two allocations give two handles that differ, whatever the payloads
    /// are: the later address is the greater.
    pub proof fn lemma_allocations_differ(
        first_pre: Self,
        first_value: T,
        first_post: Self,
        first: DispatchHandle<T>,
        second_pre: Self,
        second_value: T,
        second_post: Self,
        second: DispatchHandle<T>,
    )
        requires
            Self::allocated(first_pre, first_value, first_post, first),
            Self::allocated(second_pre, second_value, second_post, second),
            first_post.issued() <= second_pre.issued(),
        ensures
            first.address() < second.address(),
            !first.eq_spec(&second),
    {
    }
}

} // verus!

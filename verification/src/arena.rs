//! The store behind the handles: objects in boxes, found by address.

use vstd::prelude::*;

verus! {

/// Owns objects and gives each an address. The first address is 1, every
/// further one is the one before plus 1, and none is given out twice: the slot
/// of an object that was taken out stays empty for good.
pub struct Arena<U> {
    slots: Vec<Option<Box<U>>>,
}

impl<U> View for Arena<U> {
    type V = Map<usize, U>;

    /// The objects in store, by address.
    closed spec fn view(&self) -> Map<usize, U> {
        Map::new(
            |addr: usize| 1 <= addr <= self.slots@.len() && self.slots@[addr - 1] is Some,
            |addr: usize| *self.slots@[addr - 1]->0,
        )
    }
}

impl<U> Arena<U> {
    /// How many addresses were given out so far.
    pub closed spec fn issued(&self) -> nat {
        self.slots@.len()
    }

    /// The arena that holds nothing and has given out no address.
    pub fn new() -> (arena: Self)
        ensures
            arena@ == Map::<usize, U>::empty(),
            arena.issued() == 0,
    {
        let arena = Arena { slots: Vec::new() };
        assert(arena@ =~= Map::<usize, U>::empty());
        arena
    }

    /// Every address in store was given out, and address 0 never is.
    pub proof fn lemma_addresses_were_issued(&self)
        ensures
            forall|addr: usize| #[trigger] self@.contains_key(addr) ==> 1 <= addr <= self.issued(),
            self.issued() <= usize::MAX,
    {
        assert(self.slots.len() == self.slots@.len());
    }

    /// Stores `object` and returns the address it got: the next one.
    pub fn insert(&mut self, object: Box<U>) -> (addr: usize)
        ensures
            addr == old(self).issued() + 1,
            final(self).issued() == old(self).issued() + 1,
            final(self)@ == old(self)@.insert(addr, *object),
    {
        self.slots.push(Some(object));
        let addr = self.slots.len();
        assert(self@ =~= old(self)@.insert(addr, *object));
        addr
    }

    /// Whether an object is stored at `addr`.
    pub fn contains(&self, addr: usize) -> (found: bool)
        ensures
            found == self@.contains_key(addr),
    {
        addr != 0 && addr <= self.slots.len() && self.slots[addr - 1].is_some()
    }

    /// The object stored at `addr`, if there is one.
    pub fn get(&self, addr: usize) -> (found: Option<&U>)
        ensures
            match found {
                Some(object) => self@.contains_key(addr) && *object == self@[addr],
                None => !self@.contains_key(addr),
            },
    {
        if addr == 0 || addr > self.slots.len() {
            None
        } else {
            match &self.slots[addr - 1] {
                Some(object) => Some(&**object),
                None => None,
            }
        }
    }

    /// The object stored at `addr`, if there is one, for writing. What the
    /// caller leaves in it is what the arena then holds at `addr`.
    pub fn get_mut(&mut self, addr: usize) -> (found: Option<&mut U>)
        ensures
            match found {
                Some(object) => {
                    &&& old(self)@.contains_key(addr)
                    &&& *object == old(self)@[addr]
                    &&& final(self)@ == old(self)@.insert(addr, *final(object))
                },
                None => !old(self)@.contains_key(addr) && final(self)@ == old(self)@,
            },
            final(self).issued() == old(self).issued(),
    {
        if addr == 0 || addr > self.slots.len() {
            None
        } else {
            match &mut self.slots[addr - 1] {
                Some(object) => Some(&mut **object),
                None => None,
            }
        }
    }

    /// Takes the object stored at `addr` out of the arena, if there is one.
    /// The address is not given out again.
    pub fn take(&mut self, addr: usize) -> (taken: Option<Box<U>>)
        ensures
            match taken {
                Some(object) => old(self)@.contains_key(addr) && *object == old(self)@[addr],
                None => !old(self)@.contains_key(addr),
            },
            final(self)@ == old(self)@.remove(addr),
            final(self).issued() == old(self).issued(),
    {
        if addr == 0 || addr > self.slots.len() {
            assert(self@ =~= old(self)@.remove(addr));
            None
        } else {
            let taken = self.slots[addr - 1].take();
            assert(self@ =~= old(self)@.remove(addr));
            taken
        }
    }
}

} // verus!

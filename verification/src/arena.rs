//! A generational arena: a dense store whose handles go stale when their slot
//! is freed and later reused.

use std::marker::PhantomData;
use vstd::prelude::*;

verus! {

/// One slot of the arena.
#[derive(Debug, Clone)]
pub struct ArenaItem<T> {
    pub inner: T,
    pub alive: bool,
    pub generation: usize,
}

/// A handle to a value stored in an [`ArenaAlloc`]: the slot's index and the
/// generation the slot had when the value was stored.
#[derive(Debug)]
pub struct ArenaHandle<T> {
    pub index: usize,
    pub generation: usize,
    pub _marker: PhantomData<T>,
}

/// A store of values addressed by [`ArenaHandle`]s.
#[derive(Debug, Clone)]
pub struct ArenaAlloc<T> {
    items: Vec<ArenaItem<T>>,
}

impl<T> Copy for ArenaHandle<T> {}

impl<T> Clone for ArenaHandle<T> {
    fn clone(&self) -> (r: Self)
        ensures
            r == *self,
    {
        *self
    }
}

impl<T> ArenaHandle<T> {
    /// A handle to slot `index` at generation `generation`.
    pub fn new(index: usize, generation: usize) -> (h: Self)
        ensures
            h.index == index,
            h.generation == generation,
    {
        Self { index, generation, _marker: PhantomData }
    }
}

impl<T> ArenaItem<T> {
    /// A live slot of generation zero holding `item`.
    pub fn new(item: T) -> (slot: Self)
        ensures
            slot == (ArenaItem { inner: item, alive: true, generation: 0 }),
    {
        Self { inner: item, alive: true, generation: 0 }
    }
}

/// The slot that the next insertion fills: the first dead slot, or one past
/// the last slot when every slot is alive.
pub open spec fn is_insert_slot<T>(slots: Seq<ArenaItem<T>>, i: int) -> bool {
    &&& 0 <= i <= slots.len()
    &&& forall|j: int| 0 <= j < i ==> (#[trigger] slots[j]).alive
    &&& i < slots.len() ==> !slots[i].alive
}

/// The index of the slot that the next insertion fills.
pub open spec fn insert_slot<T>(slots: Seq<ArenaItem<T>>) -> int {
    choose|i: int| is_insert_slot(slots, i)
}

/// What a handle of the given index and generation refers to.
pub open spec fn lookup<T>(slots: Seq<ArenaItem<T>>, index: int, generation: int) -> Option<T> {
    if 0 <= index < slots.len() && slots[index].generation == generation && slots[index].alive {
        Some(slots[index].inner)
    } else {
        None
    }
}

/// The slots after `item` has been stored in slot `i`.
pub open spec fn stored_at<T>(slots: Seq<ArenaItem<T>>, i: int, item: T) -> Seq<ArenaItem<T>> {
    if i < slots.len() {
        slots.update(
            i,
            ArenaItem { inner: item, alive: true, generation: (slots[i].generation + 1) as usize },
        )
    } else {
        slots.push(ArenaItem { inner: item, alive: true, generation: 0 })
    }
}

/// The generation that a handle gets when slot `i` is filled.
pub open spec fn generation_at<T>(slots: Seq<ArenaItem<T>>, i: int) -> int {
    if i < slots.len() {
        slots[i].generation + 1
    } else {
        0
    }
}

/// The slots after slot `i` has been freed.
pub open spec fn freed_at<T>(slots: Seq<ArenaItem<T>>, i: int) -> Seq<ArenaItem<T>> {
    slots.update(
        i,
        ArenaItem { inner: slots[i].inner, alive: false, generation: slots[i].generation },
    )
}

/// Whether the slot that the next insertion fills has a generation left.
pub open spec fn has_fresh_generation<T>(slots: Seq<ArenaItem<T>>) -> bool {
    insert_slot(slots) < slots.len() ==> slots[insert_slot(slots)].generation < usize::MAX
}

/// The slots after the values of `items` have been stored one after another.
pub open spec fn stored_all<T>(slots: Seq<ArenaItem<T>>, items: Seq<T>) -> Seq<ArenaItem<T>>
    decreases items.len(),
{
    if items.len() == 0 {
        slots
    } else {
        let before = stored_all(slots, items.drop_last());
        stored_at(before, insert_slot(before), items.last())
    }
}

/// Every arena has exactly one slot that the next insertion fills.
pub proof fn lemma_insert_slot_unique<T>(slots: Seq<ArenaItem<T>>, i: int, j: int)
    requires
        is_insert_slot(slots, i),
    ensures
        is_insert_slot(slots, insert_slot(slots)),
        is_insert_slot(slots, j) ==> j == i,
        insert_slot(slots) == i,
{
    if is_insert_slot(slots, j) && j != i {
        if j < i {
            assert(slots[j].alive);
        } else {
            assert(slots[i].alive);
        }
    }
    let k = insert_slot(slots);
    if k != i {
        if k < i {
            assert(slots[k].alive);
        } else {
            assert(slots[i].alive);
        }
    }
}

/// The first dead slot exists whenever some slot is dead, and the end of the
/// arena takes its place otherwise.
pub proof fn lemma_insert_slot_exists<T>(slots: Seq<ArenaItem<T>>)
    ensures
        is_insert_slot(slots, insert_slot(slots)),
{
    lemma_insert_slot_from(slots, 0);
}

proof fn lemma_insert_slot_from<T>(slots: Seq<ArenaItem<T>>, k: int)
    requires
        0 <= k <= slots.len(),
        forall|j: int| 0 <= j < k ==> (#[trigger] slots[j]).alive,
    ensures
        is_insert_slot(slots, insert_slot(slots)),
    decreases slots.len() - k,
{
    if k < slots.len() && slots[k].alive {
        lemma_insert_slot_from(slots, k + 1);
    } else {
        assert(is_insert_slot(slots, k));
    }
}

/// Insertion goes to the first dead slot: when slot `i` is dead and every
/// slot before it is alive, the next insertion fills slot `i` and no other.
pub proof fn lemma_insert_fills_first_dead<T>(slots: Seq<ArenaItem<T>>, i: int, item: T)
    requires
        0 <= i < slots.len(),
        !slots[i].alive,
        forall|j: int| 0 <= j < i ==> (#[trigger] slots[j]).alive,
    ensures
        insert_slot(slots) == i,
        stored_at(slots, insert_slot(slots), item).len() == slots.len(),
        stored_at(slots, insert_slot(slots), item)[i].alive,
        stored_at(slots, insert_slot(slots), item)[i].inner == item,
        forall|j: int|
            0 <= j < slots.len() && j != i ==> stored_at(slots, insert_slot(slots), item)[j]
                == slots[j],
{
    assert(is_insert_slot(slots, i));
    lemma_insert_slot_unique(slots, i, i);
}

/// An insertion changes nothing that a live handle refers to.
pub proof fn lemma_insert_keeps_live_values<T>(
    slots: Seq<ArenaItem<T>>,
    item: T,
    index: int,
    generation: int,
)
    requires
        lookup(slots, index, generation).is_some(),
    ensures
        lookup(stored_at(slots, insert_slot(slots), item), index, generation) == lookup(
            slots,
            index,
            generation,
        ),
{
    lemma_insert_slot_exists(slots);
}

/// The handle that an insertion returns refers to the inserted value.
pub proof fn lemma_insert_then_get<T>(slots: Seq<ArenaItem<T>>, item: T)
    requires
        has_fresh_generation(slots),
    ensures
        lookup(
            stored_at(slots, insert_slot(slots), item),
            insert_slot(slots),
            generation_at(slots, insert_slot(slots)),
        ) == Some(item),
{
    lemma_insert_slot_exists(slots);
}

/// Without removals every issued handle keeps its value: after the values
/// of `items` have been inserted one after another, the handle that the
/// insertion of `items[k]` returned still refers to `items[k]`.
pub proof fn lemma_inserts_without_removes<T>(slots: Seq<ArenaItem<T>>, items: Seq<T>, k: int)
    requires
        0 <= k < items.len(),
        forall|n: int|
            0 <= n < items.len() ==> has_fresh_generation(
                #[trigger] stored_all(slots, items.take(n)),
            ),
    ensures
        ({
            let before = stored_all(slots, items.take(k));
            lookup(
                stored_all(slots, items),
                insert_slot(before),
                generation_at(before, insert_slot(before)),
            ) == Some(items[k])
        }),
    decreases items.len(),
{
    let front = items.drop_last();
    let before_last = stored_all(slots, front);
    assert(front =~= items.take(items.len() - 1));
    if k == items.len() - 1 {
        lemma_insert_then_get(before_last, items.last());
    } else {
        assert(front.take(k) =~= items.take(k));
        assert forall|n: int| 0 <= n < front.len() implies has_fresh_generation(
            #[trigger] stored_all(slots, front.take(n)),
        ) by {
            assert(front.take(n) =~= items.take(n));
        }
        lemma_inserts_without_removes(slots, front, k);
        let before = stored_all(slots, items.take(k));
        lemma_insert_keeps_live_values(
            before_last,
            items.last(),
            insert_slot(before),
            generation_at(before, insert_slot(before)),
        );
    }
}

/// A handle whose value is removed right after its insertion refers to
/// nothing.
pub proof fn lemma_insert_then_remove<T>(slots: Seq<ArenaItem<T>>, item: T)
    ensures
        ({
            let i = insert_slot(slots);
            lookup(freed_at(stored_at(slots, i, item), i), i, generation_at(slots, i)).is_none()
        }),
{
    lemma_insert_slot_exists(slots);
}

/// A freed slot that the next insertion reuses moves to a new generation:
/// the handle of the removed value refers to nothing, and the new handle
/// refers to the new value.
pub proof fn lemma_reuse_invalidates_stale_handle<T>(
    slots: Seq<ArenaItem<T>>,
    index: int,
    generation: int,
    item: T,
)
    requires
        lookup(slots, index, generation).is_some(),
        insert_slot(freed_at(slots, index)) == index,
        has_fresh_generation(freed_at(slots, index)),
    ensures
        ({
            let freed = freed_at(slots, index);
            let reused = stored_at(freed, index, item);
            &&& lookup(freed, index, generation).is_none()
            &&& lookup(reused, index, generation).is_none()
            &&& lookup(reused, index, generation_at(freed, index)) == Some(item)
        }),
{
}

impl<T> Default for ArenaAlloc<T> {
    fn default() -> (arena: Self)
        ensures
            arena@ == Seq::<ArenaItem<T>>::empty(),
    {
        Self::new()
    }
}

impl<T> ArenaAlloc<T> {
    /// The slots, in index order.
    pub closed spec fn view(&self) -> Seq<ArenaItem<T>> {
        self.items@
    }

    /// Whether the next insertion can stamp its slot with a fresh generation.
    pub open spec fn spec_can_insert(&self) -> bool {
        has_fresh_generation(self@)
    }

    /// Whether the next insertion can stamp its slot with a fresh generation:
    /// false only when the first dead slot has used up every generation.
    #[verifier::when_used_as_spec(spec_can_insert)]
    pub fn can_insert(&self) -> (b: bool)
        ensures
            b == self.spec_can_insert(),
    {
        let index = self.first_free();
        index == self.items.len() || self.items[index].generation < usize::MAX
    }

    /// Finds the slot that the next insertion fills.
    fn first_free(&self) -> (index: usize)
        ensures
            index == insert_slot(self@),
            is_insert_slot(self@, index as int),
    {
        let mut index: usize = 0;
        while index < self.items.len() && self.items[index].alive
            invariant
                index <= self.items.len(),
                forall|j: int| 0 <= j < index ==> (#[trigger] self.items@[j]).alive,
            decreases self.items.len() - index,
        {
            index += 1;
        }
        proof {
            lemma_insert_slot_unique(self@, index as int, insert_slot(self@));
        }
        index
    }

    /// An arena without slots.
    pub fn new() -> (arena: Self)
        ensures
            arena@ == Seq::<ArenaItem<T>>::empty(),
    {
        Self { items: Vec::new() }
    }

    /// The number of slots, dead ones included.
    pub fn len(&self) -> (n: usize)
        ensures
            n == self@.len(),
    {
        self.items.len()
    }

    /// Stores `item` in the first dead slot, or in a new slot at the end when
    /// every slot is alive. A reused slot moves to its next generation.
    pub fn insert(&mut self, item: T) -> (handle: ArenaHandle<T>)
        requires
            old(self).spec_can_insert(),
        ensures
            handle.index == insert_slot(old(self)@),
            handle.generation == generation_at(old(self)@, insert_slot(old(self)@)),
            final(self)@ == stored_at(old(self)@, insert_slot(old(self)@), item),
    {
        let index = self.first_free();
        if index == self.items.len() {
            self.items.push(ArenaItem::new(item));
            ArenaHandle::new(index, 0)
        } else {
            let generation = self.items[index].generation + 1;
            self.items[index] = ArenaItem { inner: item, alive: true, generation };
            ArenaHandle::new(index, generation)
        }
    }

    /// The value that `handle` refers to, unless the handle is stale.
    pub fn get(&self, handle: &ArenaHandle<T>) -> (r: Option<&T>)
        ensures
            match r {
                Some(v) => lookup(self@, handle.index as int, handle.generation as int) == Some(*v),
                None => lookup(self@, handle.index as int, handle.generation as int).is_none(),
            },
    {
        if handle.index < self.items.len() {
            let item = &self.items[handle.index];
            if item.generation == handle.generation && item.alive {
                return Some(&item.inner);
            }
        }
        None
    }

    /// Exclusive access to the value that `handle` refers to, unless the
    /// handle is stale. Only that value can change through the borrow.
    pub fn get_mut(&mut self, handle: &ArenaHandle<T>) -> (r: Option<&mut T>)
        ensures
            match r {
                Some(v) => {
                    &&& lookup(old(self)@, handle.index as int, handle.generation as int)
                        == Some(*v)
                    &&& final(self)@ == old(self)@.update(
                        handle.index as int,
                        ArenaItem {
                            inner: *final(v),
                            alive: true,
                            generation: handle.generation,
                        },
                    )
                },
                None => {
                    &&& lookup(old(self)@, handle.index as int, handle.generation as int).is_none()
                    &&& final(self)@ == old(self)@
                },
            },
    {
        if handle.index < self.items.len() {
            let item = &mut self.items[handle.index];
            if item.generation == handle.generation && item.alive {
                return Some(&mut item.inner);
            }
        }
        None
    }

    /// Marks the slot of `handle` dead. Its generation stays as it is until
    /// the slot is filled again.
    pub fn remove(&mut self, handle: ArenaHandle<T>)
        requires
            handle.index < old(self)@.len(),
        ensures
            final(self)@ == freed_at(old(self)@, handle.index as int),
    {
        self.items[handle.index].alive = false;
    }
}

} // verus!

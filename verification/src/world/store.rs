//! The resource store: at most one value of each resource type.

use crate::world::handle::cell_idle;
use crate::world::handle::cell_into_inner;
use crate::world::handle::cell_new;
use crate::world::handle::cell_try_borrow;
use crate::world::handle::cell_try_borrow_mut;
use crate::world::handle::BorrowConflict;
use crate::world::handle::Fetch;
use crate::world::handle::made_from;
use crate::world::handle::FetchMut;
use crate::world::handle::IdleCell;
use crate::world::resource::erased;
use crate::world::resource::held;
use crate::world::resource::key_of;
use crate::world::resource::type_id_of;
use crate::world::resource::type_key;
use crate::world::resource::Resource;
use atomic_refcell::AtomicRefCell;
use rustc_hash::FxBuildHasher;
use rustc_hash::FxHashMap;
use std::any::TypeId;
use vstd::prelude::*;

verus! {

/// A filled slot: the cell of one resource, erased.
pub struct Slot {
    item: Box<dyn Resource>,
}

impl Slot {
    /// Whether the slot holds `cell`.
    pub closed spec fn is_cell<R: Resource>(&self, cell: AtomicRefCell<R>) -> bool {
        self.item == erased(cell)
    }

    /// Whether the cell in the slot is the one that was made from `value`.
    pub closed spec fn made_of<R: Resource>(&self, value: R) -> bool {
        made_from(&*self.item) == held(value)
    }
}

/// `rustc_hash::FxBuildHasher`: the hasher that the store's map is built on.
#[verifier::external_type_specification]
#[verifier::external_body]
pub struct ExFxBuildHasher(FxBuildHasher);

/// `FxHashMap::default`: a map that holds nothing.
#[verifier::external_body]
fn slots_new() -> (slots: FxHashMap<TypeId, Slot>)
    ensures
        forall|key: TypeId| !slots@.contains_key(key),
{
    FxHashMap::default()
}

/// `HashMap::insert`: `key` leads to `slot` afterwards, every other key where
/// it led before; what `key` led to before is handed back. It does not
/// unwind: a `TypeId` is hashed and compared without a panic.
#[verifier::external_body]
fn slots_insert(
    slots: &mut FxHashMap<TypeId, Slot>,
    key: TypeId,
    slot: Slot,
) -> (prior: Option<Slot>)
    ensures
        final(slots)@ == old(slots)@.insert(key, slot),
        prior is Some <==> old(slots)@.contains_key(key),
        prior matches Some(before) ==> before == old(slots)@[key],
    no_unwind
{
    slots.insert(key, slot)
}

/// `HashMap::remove`: `key` leads nowhere afterwards, every other key where
/// it led before; what `key` led to is handed back. It does not unwind: a
/// `TypeId` is hashed and compared without a panic.
#[verifier::external_body]
fn slots_remove(slots: &mut FxHashMap<TypeId, Slot>, key: &TypeId) -> (prior: Option<Slot>)
    ensures
        final(slots)@ == old(slots)@.remove(*key),
        prior is Some <==> old(slots)@.contains_key(*key),
        prior matches Some(before) ==> before == old(slots)@[*key],
    no_unwind
{
    slots.remove(key)
}

/// `HashMap::get`: what `key` leads to, if anything.
#[verifier::external_body]
fn slots_get<'a>(slots: &'a FxHashMap<TypeId, Slot>, key: &TypeId) -> (found: Option<&'a Slot>)
    ensures
        found is Some <==> slots@.contains_key(*key),
        found matches Some(slot) ==> *slot == slots@[*key],
{
    slots.get(key)
}

/// `HashMap::contains_key`: whether `key` leads anywhere.
#[verifier::external_body]
fn slots_contains(slots: &FxHashMap<TypeId, Slot>, key: &TypeId) -> (found: bool)
    ensures
        found == slots@.contains_key(*key),
{
    slots.contains_key(key)
}

/// The store. Each resource lives in a cell of its own, in the slot that
/// the identity of the cell's type names. What a cell holds changes through
/// the handles on it, behind the store's back: the store's value says which
/// slots are filled, and what the cell in each was made from, not what it
/// holds now.
pub struct ResourceMap {
    res: FxHashMap<TypeId, Slot>,
}

/// The identity under which the store keeps the resource of type `R`: that
/// of the cell that holds it.
pub open spec fn slot_key<R: Resource>() -> TypeId {
    key_of::<AtomicRefCell<R>>()
}

impl ResourceMap {
    /// Every slot holds the cell whose type its key names.
    #[verifier::type_invariant]
    spec fn well_formed(&self) -> bool {
        forall|key: TypeId| #[trigger]
            self.res@.contains_key(key) ==> type_key(&*self.res@[key].item) == key
    }

    /// The slots that are filled, each under its identity.
    pub closed spec fn slots(&self) -> Map<TypeId, Slot> {
        self.res@
    }

    /// The identities of the slots that are filled.
    pub open spec fn keys(&self) -> Set<TypeId> {
        self.slots().dom()
    }

    /// Whether a resource of type `R` is stored.
    pub open spec fn has<R: Resource>(&self) -> bool {
        self.keys().contains(slot_key::<R>())
    }

    /// Whether a resource of type `R` is stored, in the cell that was made
    /// from `value`. What the cell holds now is `value` until an exclusive
    /// handle writes to it.
    pub open spec fn made_of<R: Resource>(&self, value: R) -> bool {
        self.has::<R>() && self.slots()[slot_key::<R>()].made_of(value)
    }

    /// The slot of the type `R`: the identity under which the store keeps
    /// the resource of that type.
    pub fn key<R: Resource>() -> (id: TypeId)
        ensures
            id == slot_key::<R>(),
    {
        type_id_of::<AtomicRefCell<R>>()
    }

    /// Stores `resource` as the one value of its type, in a cell of its
    /// own; a cell of that type stored before is dropped with what it holds.
    /// Every other slot stays as it is.
    pub fn insert<R: Resource>(&mut self, resource: R)
        ensures
            final(self).made_of(resource),
            final(self).keys() == old(self).keys().insert(slot_key::<R>()),
            final(self).slots().remove(slot_key::<R>()) == old(self).slots().remove(
                slot_key::<R>(),
            ),
    {
        let key = type_id_of::<AtomicRefCell<R>>();
        let cell = cell_new(resource);
        let item: Box<dyn Resource> = Box::new(cell);
        let slot = Slot { item };
        proof {
            use_type_invariant(&*self);
            assert(slot.item == erased(cell));
        }
        slots_insert(&mut self.res, key, slot);
    }

    /// Whether a resource of type `R` is stored.
    pub fn has_value<R: Resource>(&self) -> (b: bool)
        ensures
            b == self.has::<R>(),
    {
        let key = type_id_of::<AtomicRefCell<R>>();
        slots_contains(&self.res, &key)
    }

    /// A shared handle on the resource of type `R`: a borrow of the cell in
    /// its slot. Nothing comes back where none is stored, a conflict where
    /// an exclusive handle on it is out.
    pub fn fetch<R: Resource>(&self) -> (r: Result<Option<Fetch<'_, R>>, BorrowConflict>)
        ensures
            r matches Ok(None) <==> !self.has::<R>(),
            r matches Ok(Some(handle)) ==> self.slots()[slot_key::<R>()].is_cell(handle.cell()),
            r matches Err(conflict) ==> conflict == BorrowConflict::Shared,
    {
        proof {
            use_type_invariant(self);
        }
        let key = type_id_of::<AtomicRefCell<R>>();
        match slots_get(&self.res, &key) {
            Some(slot) => {
                let cell = slot.item.downcast_ref::<AtomicRefCell<R>>().unwrap();
                match Fetch::granted(cell_try_borrow(cell)) {
                    Ok(handle) => Ok(Some(handle)),
                    Err(conflict) => Err(conflict),
                }
            },
            None => Ok(None),
        }
    }

    /// An exclusive handle on the resource of type `R`: a borrow of the cell
    /// in its slot. Nothing comes back where none is stored, a conflict
    /// where any handle on it is out.
    pub fn fetch_mut<R: Resource>(&self) -> (r: Result<Option<FetchMut<'_, R>>, BorrowConflict>)
        ensures
            r matches Ok(None) <==> !self.has::<R>(),
            r matches Ok(Some(handle)) ==> self.slots()[slot_key::<R>()].is_cell(handle.cell()),
            r matches Err(conflict) ==> conflict == BorrowConflict::Exclusive,
    {
        proof {
            use_type_invariant(self);
        }
        let key = type_id_of::<AtomicRefCell<R>>();
        match slots_get(&self.res, &key) {
            Some(slot) => {
                let cell = slot.item.downcast_ref::<AtomicRefCell<R>>().unwrap();
                match FetchMut::granted(cell_try_borrow_mut(cell)) {
                    Ok(handle) => Ok(Some(handle)),
                    Err(conflict) => Err(conflict),
                }
            },
            None => Ok(None),
        }
    }

    /// What a removal comes to once the slot of `R` is emptied, given what
    /// its cell answered. An idle cell gives up what it holds, and the store
    /// stays as it is, without the slot. A cell that still counts a borrow
    /// goes back into its slot, and the removal is refused.
    pub fn taken<R: Resource>(&mut self, idled: Result<IdleCell<R>, AtomicRefCell<R>>) -> (r:
        Result<Option<R>, BorrowConflict>)
        requires
            !old(self).has::<R>(),
        ensures
            idled is Ok ==> (r matches Ok(Some(_))) && final(self).slots() == old(self).slots(),
            idled matches Err(busy) ==> r == Err::<Option<R>, BorrowConflict>(
                BorrowConflict::Exclusive,
            ) && final(self).has::<R>() && final(self).slots().remove(slot_key::<R>()) == old(
                self,
            ).slots() && final(self).slots()[slot_key::<R>()].is_cell(busy),
    {
        match idled {
            Ok(idle) => Ok(Some(cell_into_inner(idle))),
            Err(busy) => {
                let key = type_id_of::<AtomicRefCell<R>>();
                let item: Box<dyn Resource> = Box::new(busy);
                let back = Slot { item };
                proof {
                    use_type_invariant(&*self);
                    assert(back.item == erased(busy));
                }
                slots_insert(&mut self.res, key, back);
                Err(BorrowConflict::Exclusive)
            },
        }
    }

    /// Takes the resource of type `R` out of the store, if one is stored,
    /// and every other slot stays as it is. The store refuses, and stays as
    /// it is, where a handle on the resource was leaked: the cell then still
    /// counts a borrow.
    pub fn remove<R: Resource>(&mut self) -> (r: Result<Option<R>, BorrowConflict>)
        ensures
            r matches Ok(None) <==> !old(self).has::<R>(),
            r matches Ok(Some(_)) ==> final(self).slots() == old(self).slots().remove(
                slot_key::<R>(),
            ),
            !(r matches Ok(Some(_))) ==> final(self).slots() == old(self).slots(),
            r matches Err(conflict) ==> conflict == BorrowConflict::Exclusive,
    {
        proof {
            use_type_invariant(&*self);
        }
        let key = type_id_of::<AtomicRefCell<R>>();
        match slots_remove(&mut self.res, &key) {
            Some(slot) => match slot.item.downcast::<AtomicRefCell<R>>() {
                Ok(cell) => {
                    let r = self.taken(cell_idle(*cell));
                    proof {
                        if r is Err {
                            // The slot that went back is the one that came out.
                            assert(self.res@[key] == slot);
                            assert(self.res@ =~= old(self).res@.remove(key).insert(key, slot));
                        }
                    }
                    r
                },
                Err(_) => Ok(None),
            },
            None => Ok(None),
        }
    }
}

/// Storing a resource of type `A` leaves every other type `B` as it was:
/// stored if it was stored, missing if it was missing.
pub proof fn lemma_insert_leaves_other_types<A: Resource, B: Resource>(
    before: ResourceMap,
    after: ResourceMap,
)
    requires
        after.keys() == before.keys().insert(slot_key::<A>()),
        slot_key::<B>() != slot_key::<A>(),
    ensures
        after.has::<B>() == before.has::<B>(),
{
}

/// Storing a resource of type `A` leaves the cell of every other type `B`
/// in its place: what was stored for `B` is stored for it still.
pub proof fn lemma_insert_leaves_other_cells<A: Resource, B: Resource>(
    before: ResourceMap,
    after: ResourceMap,
    value: B,
)
    requires
        after.keys() == before.keys().insert(slot_key::<A>()),
        after.slots().remove(slot_key::<A>()) == before.slots().remove(slot_key::<A>()),
        slot_key::<B>() != slot_key::<A>(),
    ensures
        after.made_of(value) == before.made_of(value),
{
    let others = before.slots().remove(slot_key::<A>());
    assert(before.has::<B>() ==> others[slot_key::<B>()] == before.slots()[slot_key::<B>()]);
    assert(after.has::<B>() ==> others[slot_key::<B>()] == after.slots()[slot_key::<B>()]);
}

/// A type has one cell at most: whatever the stored cell of `R` is said to
/// be made from is one and the same value.
pub proof fn lemma_one_cell_for_a_type<R: Resource>(store: ResourceMap, first: R, second: R)
    requires
        store.made_of(first),
        store.made_of(second),
    ensures
        held(first) == held(second),
{
}

/// A type is stored at most once: storing a resource of a type that is
/// stored already leaves the set of stored types as it was.
pub proof fn lemma_insert_again_adds_no_type<R: Resource>(before: ResourceMap, after: ResourceMap)
    requires
        before.has::<R>(),
        after.keys() == before.keys().insert(slot_key::<R>()),
    ensures
        after.keys() == before.keys(),
{
    assert(after.keys() =~= before.keys());
}

/// Once a resource is taken out its type is no longer stored, and every
/// other type `B` is as it was.
pub proof fn lemma_remove_takes_one_type<R: Resource, B: Resource>(
    before: ResourceMap,
    after: ResourceMap,
)
    requires
        after.keys() == before.keys().remove(slot_key::<R>()),
    ensures
        !after.has::<R>(),
        slot_key::<B>() != slot_key::<R>() ==> after.has::<B>() == before.has::<B>(),
{
}

/// Taking out a type that is not stored changes nothing.
pub proof fn lemma_remove_of_missing_type<R: Resource>(before: ResourceMap, after: ResourceMap)
    requires
        !before.has::<R>(),
        after.keys() == before.keys().remove(slot_key::<R>()),
    ensures
        after.keys() == before.keys(),
{
    assert(after.keys() =~= before.keys());
}

impl Default for ResourceMap {
    /// A store that holds nothing.
    fn default() -> (store: Self)
        ensures
            store.keys() == Set::<TypeId>::empty(),
    {
        ResourceMap { res: slots_new() }
    }
}

} // verus!

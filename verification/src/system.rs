//! Systems and the resources they ask for.
//!
//! A system names, as a type, the handles it works on: one handle, or a tuple
//! of such shapes. Fetching that shape from a world takes each handle in
//! turn and gives all of them or none.

use crate::world::resource::BorrowConflict;
use crate::world::resource::Fetch;
use crate::world::resource::FetchMut;
use crate::world::resource::Resource;
use crate::world::resource::ResourceMap;
use crate::world::store::slot_key;
use crate::world::World;
use std::any::TypeId;
use vstd::prelude::*;

mod impl_data;

verus! {

/// Why a shape could not be fetched though all of it is stored: a resource
/// is borrowed in a way that the request cannot share. A system that meets
/// this was run beside another that it cannot run beside.
#[derive(Clone, Copy, Debug, PartialEq, Eq)]
pub struct FetchError {
    /// The slot whose resource could not be had: see [`ResourceMap::key`].
    pub slot: TypeId,
    /// The kind of request that was refused.
    pub conflict: BorrowConflict,
}

impl FetchError {
    /// The failure in words, to follow the name of the type.
    pub open spec fn spec_reason(&self) -> Seq<char> {
        match self.conflict {
            BorrowConflict::Shared => "already mutably borrowed"@,
            BorrowConflict::Exclusive => "already borrowed"@,
        }
    }

    /// The failure in words, to follow the name of the type.
    pub fn reason(&self) -> (text: &'static str)
        ensures
            text@ == self.spec_reason(),
    {
        match self.conflict {
            BorrowConflict::Shared => "already mutably borrowed",
            BorrowConflict::Exclusive => "already borrowed",
        }
    }
}

/// Why a shape could not be fetched from a world of which nothing was known:
/// either way the system was wired against a world that cannot serve it.
#[derive(Clone, Copy, Debug, PartialEq, Eq)]
pub enum FetchFailure {
    /// The slot is empty: no resource of its type is stored.
    Missing { slot: TypeId },
    /// The resource in the slot is borrowed in a way that the request cannot
    /// share.
    Conflict { slot: TypeId, conflict: BorrowConflict },
}

impl FetchFailure {
    /// The slot whose resource could not be had: see [`ResourceMap::key`].
    pub open spec fn spec_slot(&self) -> TypeId {
        match *self {
            FetchFailure::Missing { slot } => slot,
            FetchFailure::Conflict { slot, .. } => slot,
        }
    }

    /// The slot whose resource could not be had: see [`ResourceMap::key`].
    pub fn slot(&self) -> (id: TypeId)
        ensures
            id == self.spec_slot(),
    {
        match *self {
            FetchFailure::Missing { slot } => slot,
            FetchFailure::Conflict { slot, .. } => slot,
        }
    }

    /// The failure in words, to follow the name of the type.
    pub open spec fn spec_reason(&self) -> Seq<char> {
        match *self {
            FetchFailure::Missing { .. } => "the resource does not exist."@,
            FetchFailure::Conflict { slot, conflict } => (FetchError {
                slot,
                conflict,
            }).spec_reason(),
        }
    }

    /// The failure in words, to follow the name of the type.
    pub fn reason(&self) -> (text: &'static str)
        ensures
            text@ == self.spec_reason(),
    {
        match *self {
            FetchFailure::Missing { .. } => "the resource does not exist.",
            FetchFailure::Conflict { slot, conflict } => (FetchError { slot, conflict }).reason(),
        }
    }

    /// What a conflict comes to where the world was not known to store the
    /// shape: the same conflict, on the same slot.
    pub fn refused(error: FetchError) -> (failure: FetchFailure)
        ensures
            failure == (FetchFailure::Conflict { slot: error.slot, conflict: error.conflict }),
    {
        FetchFailure::Conflict { slot: error.slot, conflict: error.conflict }
    }
}

/// A shape of handles that can be fetched from a world.
pub trait SystemData<'a>: Sized {
    /// The slots of the store that the shape asks for.
    spec fn requests() -> Set<TypeId>;

    /// The first slot that the shape asks for and that is empty in `world`,
    /// in the order in which the shape is written.
    spec fn first_missing(world: &World) -> Option<TypeId>;

    /// Looks for the first slot that the shape asks for and that is empty.
    /// There is none exactly where the world stores all that the shape asks
    /// for.
    fn missing(world: &World) -> (r: Option<TypeId>)
        ensures
            r == Self::first_missing(world),
            r is None <==> Self::requests().subset_of(world.resources.keys()),
            r matches Some(slot) ==> Self::requests().contains(slot),
            r matches Some(slot) ==> !world.resources.keys().contains(slot),
    ;

    /// Fetches the shape from a world that stores all of it: every handle,
    /// or the first conflict, on a slot that the shape asks for. A world
    /// that lacks a resource of the shape cannot serve it at all; a caller
    /// that does not know asks [`SystemData::missing`] first.
    fn fetch(world: &'a World) -> (r: Result<Self, FetchError>)
        requires
            Self::requests().subset_of(world.resources.keys()),
        ensures
            r matches Err(error) ==> Self::requests().contains(error.slot),
    ;

    /// Fetches the shape from any world: every handle, or the first failure
    /// in the order in which the shape is written, be it an empty slot or a
    /// conflict. The failure names a slot that the shape asks for, and says
    /// that it is empty only where it is.
    fn try_fetch(world: &'a World) -> (r: Result<Self, FetchFailure>)
        ensures
            r is Ok ==> Self::requests().subset_of(world.resources.keys()),
            r matches Err(failure) ==> Self::requests().contains(failure.spec_slot()),
            r matches Err(failure) ==> (failure is Missing ==> !world.resources.keys().contains(
                failure.spec_slot(),
            )),
    ;
}

/// Whether `world` stores every resource that the shape `D` asks for.
pub open spec fn present<'a, D: SystemData<'a>>(world: &World) -> bool {
    D::requests().subset_of(world.resources.keys())
}

impl<'a, T: Resource> SystemData<'a> for Fetch<'a, T> {
    open spec fn requests() -> Set<TypeId> {
        set![slot_key::<T>()]
    }

    open spec fn first_missing(world: &World) -> Option<TypeId> {
        if world.resources.has::<T>() {
            None
        } else {
            Some(slot_key::<T>())
        }
    }

    /// The slot of `T`, where it is empty.
    fn missing(world: &World) -> (r: Option<TypeId>) {
        if world.resources.has_value::<T>() {
            None
        } else {
            Some(ResourceMap::key::<T>())
        }
    }

    /// A shared handle on the `T` of `world`, or the conflict where an
    /// exclusive handle on it is out.
    fn fetch(world: &'a World) -> (r: Result<Self, FetchError>)
        ensures
            r matches Err(error) ==> error.conflict == BorrowConflict::Shared,
    {
        match world.resources.fetch::<T>() {
            Ok(found) => Ok(found.unwrap()),
            Err(conflict) => Err(FetchError { slot: ResourceMap::key::<T>(), conflict }),
        }
    }

    /// A shared handle on the `T` of `world`; where none is stored that is the
    /// failure, and no borrow is asked for.
    fn try_fetch(world: &'a World) -> (r: Result<Self, FetchFailure>)
        ensures
            !world.resources.has::<T>() ==> r == Err::<Self, FetchFailure>(
                FetchFailure::Missing { slot: slot_key::<T>() },
            ),
            r matches Err(failure) ==> (failure is Missing ==> !world.resources.has::<T>()),
            r matches Err(failure) ==> (failure matches FetchFailure::Conflict { conflict, .. }
                ==> conflict == BorrowConflict::Shared),
    {
        match Self::missing(world) {
            Some(slot) => Err(FetchFailure::Missing { slot }),
            None => match Self::fetch(world) {
                Ok(handle) => Ok(handle),
                Err(error) => Err(FetchFailure::refused(error)),
            },
        }
    }
}

impl<'a, T: Resource> SystemData<'a> for FetchMut<'a, T> {
    open spec fn requests() -> Set<TypeId> {
        set![slot_key::<T>()]
    }

    open spec fn first_missing(world: &World) -> Option<TypeId> {
        if world.resources.has::<T>() {
            None
        } else {
            Some(slot_key::<T>())
        }
    }

    /// The slot of `T`, where it is empty.
    fn missing(world: &World) -> (r: Option<TypeId>) {
        if world.resources.has_value::<T>() {
            None
        } else {
            Some(ResourceMap::key::<T>())
        }
    }

    /// An exclusive handle on the `T` of `world`, or the conflict where any
    /// handle on it is out.
    fn fetch(world: &'a World) -> (r: Result<Self, FetchError>)
        ensures
            r matches Err(error) ==> error.conflict == BorrowConflict::Exclusive,
    {
        match world.resources.fetch_mut::<T>() {
            Ok(found) => Ok(found.unwrap()),
            Err(conflict) => Err(FetchError { slot: ResourceMap::key::<T>(), conflict }),
        }
    }

    /// An exclusive handle on the `T` of `world`; where none is stored that is the
    /// failure, and no borrow is asked for.
    fn try_fetch(world: &'a World) -> (r: Result<Self, FetchFailure>)
        ensures
            !world.resources.has::<T>() ==> r == Err::<Self, FetchFailure>(
                FetchFailure::Missing { slot: slot_key::<T>() },
            ),
            r matches Err(failure) ==> (failure is Missing ==> !world.resources.has::<T>()),
            r matches Err(failure) ==> (failure matches FetchFailure::Conflict { conflict, .. }
                ==> conflict == BorrowConflict::Exclusive),
    {
        match Self::missing(world) {
            Some(slot) => Err(FetchFailure::Missing { slot }),
            None => match Self::fetch(world) {
                Ok(handle) => Ok(handle),
                Err(error) => Err(FetchFailure::refused(error)),
            },
        }
    }
}

/// A unit of logic that works on the handles of one shape.
pub trait System<'a> {
    type SystemData: SystemData<'a>;

    /// What one run makes of the system: `self` as it was, the handles it
    /// was given, and the system as it is afterwards.
    spec fn runs(&self, data: Self::SystemData, after: &Self) -> bool;

    /// Fetches the system's shape from `world`, which stores all of it, and
    /// runs the system on it. The handles last no longer than the run. Where
    /// a conflict keeps the shape from being fetched the system is not run
    /// and stays as it was.
    fn run_now(&mut self, world: &'a World) -> (r: Result<(), FetchError>)
        requires
            present::<Self::SystemData>(world),
        ensures
            r is Ok ==> exists|data: Self::SystemData| old(self).runs(data, &*final(self)),
            r matches Err(error) ==> Self::SystemData::requests().contains(error.slot),
            r is Err ==> &*final(self) == &*old(self),
    {
        match Self::SystemData::fetch(world) {
            Ok(data) => {
                self.run(data);
                Ok(())
            },
            Err(error) => Err(error),
        }
    }

    /// Fetches the system's shape from any world and runs the system on it.
    /// Where the shape cannot be fetched, for an empty slot or for a
    /// conflict, the system is not run and stays as it was.
    fn try_run_now(&mut self, world: &'a World) -> (r: Result<(), FetchFailure>)
        ensures
            r is Ok ==> present::<Self::SystemData>(world),
            r is Ok ==> exists|data: Self::SystemData| old(self).runs(data, &*final(self)),
            r matches Err(failure) ==> Self::SystemData::requests().contains(
                failure.spec_slot(),
            ),
            r matches Err(failure) ==> (failure is Missing ==> !world.resources.keys().contains(
                failure.spec_slot(),
            )),
            r is Err ==> &*final(self) == &*old(self),
    {
        match Self::SystemData::try_fetch(world) {
            Ok(data) => {
                self.run(data);
                Ok(())
            },
            Err(failure) => Err(failure),
        }
    }

    /// The system's work.
    fn run(&mut self, data: Self::SystemData)
        ensures
            old(self).runs(data, &*final(self)),
    ;
}

/// A shape that asks for a slot which is empty is not present, whatever
/// else is stored: no world like that can serve it, in whole or in part.
pub proof fn lemma_empty_slot_fails_the_shape<'a, D: SystemData<'a>>(world: World, slot: TypeId)
    requires
        D::requests().contains(slot),
        !world.resources.keys().contains(slot),
    ensures
        !present::<D>(&world),
{
}

/// A pair of handles is present only where both resources are stored:
/// where the second is missing the pair cannot be fetched, though the first
/// is stored, and the second is the one reported as missing.
pub proof fn lemma_pair_needs_both_resources<'a, A: Resource, B: Resource>(world: World)
    requires
        !world.resources.has::<B>(),
    ensures
        !present::<(Fetch<'a, A>, FetchMut<'a, B>)>(&world),
        world.resources.has::<A>() ==> <(Fetch<'a, A>, FetchMut<'a, B>)>::first_missing(&world)
            == Some(slot_key::<B>()),
{
}

/// Where neither resource of a pair is stored, the first is the one
/// reported as missing.
pub proof fn lemma_pair_reports_in_order<'a, A: Resource, B: Resource>(world: World)
    requires
        !world.resources.has::<A>(),
    ensures
        <(Fetch<'a, A>, FetchMut<'a, B>)>::first_missing(&world) == Some(slot_key::<A>()),
{
}

} // verus!

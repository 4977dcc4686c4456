//! Tuples of shapes are shapes: of two elements up to sixteen.
//!
//! A tuple is asked and fetched element by element, in the order in which
//! it is written. The first element that lacks a resource is the one
//! reported; the first element that meets a conflict ends the fetch with
//! its error, and the handles taken so far are given up.

use crate::system::FetchError;
use crate::system::FetchFailure;
use crate::system::SystemData;
use crate::world::World;
use std::any::TypeId;
use vstd::prelude::*;

verus! {

impl<'a, A, B> SystemData<'a> for (A, B) where
    A: SystemData<'a>,
    B: SystemData<'a>,
 {
    /// What any of the elements asks for.
    open spec fn requests() -> Set<TypeId> {
        A::requests() + B::requests()
    }

    /// What the first element that lacks something reports.
    open spec fn first_missing(world: &World) -> Option<TypeId> {
        if A::first_missing(world) is Some {
            A::first_missing(world)
        } else {
            B::first_missing(world)
        }
    }

    /// The elements, asked in order; the first answer is the tuple's.
    fn missing(world: &World) -> (r: Option<TypeId>) {
        if let Some(slot) = A::missing(world) {
            return Some(slot);
        }
        B::missing(world)
    }

    /// The elements, fetched in order; the first conflict is the tuple's.
    fn fetch(world: &'a World) -> (r: Result<Self, FetchError>) {
        let a = A::fetch(world)?;
        let b = B::fetch(world)?;
        Ok((a, b))
    }

    /// The elements, fetched in order; the first failure is the tuple's. So
    /// where the first element lacks something, the failure is on a slot
    /// of the first element.
    fn try_fetch(world: &'a World) -> (r: Result<Self, FetchFailure>)
        ensures
            !A::requests().subset_of(world.resources.keys()) ==> r is Err
                && A::requests().contains(r->Err_0.spec_slot()),
    {
        let a = A::try_fetch(world)?;
        let b = B::try_fetch(world)?;
        Ok((a, b))
    }
}

impl<'a, A, B, C> SystemData<'a> for (A, B, C) where
    A: SystemData<'a>,
    B: SystemData<'a>,
    C: SystemData<'a>,
 {
    /// What any of the elements asks for.
    open spec fn requests() -> Set<TypeId> {
        A::requests() + B::requests() + C::requests()
    }

    /// What the first element that lacks something reports.
    open spec fn first_missing(world: &World) -> Option<TypeId> {
        if A::first_missing(world) is Some {
            A::first_missing(world)
        } else if B::first_missing(world) is Some {
            B::first_missing(world)
        } else {
            C::first_missing(world)
        }
    }

    /// The elements, asked in order; the first answer is the tuple's.
    fn missing(world: &World) -> (r: Option<TypeId>) {
        if let Some(slot) = A::missing(world) {
            return Some(slot);
        }
        if let Some(slot) = B::missing(world) {
            return Some(slot);
        }
        C::missing(world)
    }

    /// The elements, fetched in order; the first conflict is the tuple's.
    fn fetch(world: &'a World) -> (r: Result<Self, FetchError>) {
        let a = A::fetch(world)?;
        let b = B::fetch(world)?;
        let c = C::fetch(world)?;
        Ok((a, b, c))
    }

    /// The elements, fetched in order; the first failure is the tuple's. So
    /// where the first element lacks something, the failure is on a slot
    /// of the first element.
    fn try_fetch(world: &'a World) -> (r: Result<Self, FetchFailure>)
        ensures
            !A::requests().subset_of(world.resources.keys()) ==> r is Err
                && A::requests().contains(r->Err_0.spec_slot()),
    {
        let a = A::try_fetch(world)?;
        let b = B::try_fetch(world)?;
        let c = C::try_fetch(world)?;
        Ok((a, b, c))
    }
}

impl<'a, A, B, C, D> SystemData<'a> for (A, B, C, D) where
    A: SystemData<'a>,
    B: SystemData<'a>,
    C: SystemData<'a>,
    D: SystemData<'a>,
 {
    /// What any of the elements asks for.
    open spec fn requests() -> Set<TypeId> {
        A::requests() + B::requests() + C::requests() + D::requests()
    }

    /// What the first element that lacks something reports.
    open spec fn first_missing(world: &World) -> Option<TypeId> {
        if A::first_missing(world) is Some {
            A::first_missing(world)
        } else if B::first_missing(world) is Some {
            B::first_missing(world)
        } else if C::first_missing(world) is Some {
            C::first_missing(world)
        } else {
            D::first_missing(world)
        }
    }

    /// The elements, asked in order; the first answer is the tuple's.
    fn missing(world: &World) -> (r: Option<TypeId>) {
        if let Some(slot) = A::missing(world) {
            return Some(slot);
        }
        if let Some(slot) = B::missing(world) {
            return Some(slot);
        }
        if let Some(slot) = C::missing(world) {
            return Some(slot);
        }
        D::missing(world)
    }

    /// The elements, fetched in order; the first conflict is the tuple's.
    fn fetch(world: &'a World) -> (r: Result<Self, FetchError>) {
        let a = A::fetch(world)?;
        let b = B::fetch(world)?;
        let c = C::fetch(world)?;
        let d = D::fetch(world)?;
        Ok((a, b, c, d))
    }

    /// The elements, fetched in order; the first failure is the tuple's. So
    /// where the first element lacks something, the failure is on a slot
    /// of the first element.
    fn try_fetch(world: &'a World) -> (r: Result<Self, FetchFailure>)
        ensures
            !A::requests().subset_of(world.resources.keys()) ==> r is Err
                && A::requests().contains(r->Err_0.spec_slot()),
    {
        let a = A::try_fetch(world)?;
        let b = B::try_fetch(world)?;
        let c = C::try_fetch(world)?;
        let d = D::try_fetch(world)?;
        Ok((a, b, c, d))
    }
}

impl<'a, A, B, C, D, E> SystemData<'a> for (A, B, C, D, E) where
    A: SystemData<'a>,
    B: SystemData<'a>,
    C: SystemData<'a>,
    D: SystemData<'a>,
    E: SystemData<'a>,
 {
    /// What any of the elements asks for.
    open spec fn requests() -> Set<TypeId> {
        A::requests() + B::requests() + C::requests() + D::requests() + E::requests()
    }

    /// What the first element that lacks something reports.
    open spec fn first_missing(world: &World) -> Option<TypeId> {
        if A::first_missing(world) is Some {
            A::first_missing(world)
        } else if B::first_missing(world) is Some {
            B::first_missing(world)
        } else if C::first_missing(world) is Some {
            C::first_missing(world)
        } else if D::first_missing(world) is Some {
            D::first_missing(world)
        } else {
            E::first_missing(world)
        }
    }

    /// The elements, asked in order; the first answer is the tuple's.
    fn missing(world: &World) -> (r: Option<TypeId>) {
        if let Some(slot) = A::missing(world) {
            return Some(slot);
        }
        if let Some(slot) = B::missing(world) {
            return Some(slot);
        }
        if let Some(slot) = C::missing(world) {
            return Some(slot);
        }
        if let Some(slot) = D::missing(world) {
            return Some(slot);
        }
        E::missing(world)
    }

    /// The elements, fetched in order; the first conflict is the tuple's.
    fn fetch(world: &'a World) -> (r: Result<Self, FetchError>) {
        let a = A::fetch(world)?;
        let b = B::fetch(world)?;
        let c = C::fetch(world)?;
        let d = D::fetch(world)?;
        let e = E::fetch(world)?;
        Ok((a, b, c, d, e))
    }

    /// The elements, fetched in order; the first failure is the tuple's. So
    /// where the first element lacks something, the failure is on a slot
    /// of the first element.
    fn try_fetch(world: &'a World) -> (r: Result<Self, FetchFailure>)
        ensures
            !A::requests().subset_of(world.resources.keys()) ==> r is Err
                && A::requests().contains(r->Err_0.spec_slot()),
    {
        let a = A::try_fetch(world)?;
        let b = B::try_fetch(world)?;
        let c = C::try_fetch(world)?;
        let d = D::try_fetch(world)?;
        let e = E::try_fetch(world)?;
        Ok((a, b, c, d, e))
    }
}

impl<'a, A, B, C, D, E, F> SystemData<'a> for (A, B, C, D, E, F) where
    A: SystemData<'a>,
    B: SystemData<'a>,
    C: SystemData<'a>,
    D: SystemData<'a>,
    E: SystemData<'a>,
    F: SystemData<'a>,
 {
    /// What any of the elements asks for.
    open spec fn requests() -> Set<TypeId> {
        A::requests()
            + B::requests()
            + C::requests()
            + D::requests()
            + E::requests()
            + F::requests()
    }

    /// What the first element that lacks something reports.
    open spec fn first_missing(world: &World) -> Option<TypeId> {
        if A::first_missing(world) is Some {
            A::first_missing(world)
        } else if B::first_missing(world) is Some {
            B::first_missing(world)
        } else if C::first_missing(world) is Some {
            C::first_missing(world)
        } else if D::first_missing(world) is Some {
            D::first_missing(world)
        } else if E::first_missing(world) is Some {
            E::first_missing(world)
        } else {
            F::first_missing(world)
        }
    }

    /// The elements, asked in order; the first answer is the tuple's.
    fn missing(world: &World) -> (r: Option<TypeId>) {
        if let Some(slot) = A::missing(world) {
            return Some(slot);
        }
        if let Some(slot) = B::missing(world) {
            return Some(slot);
        }
        if let Some(slot) = C::missing(world) {
            return Some(slot);
        }
        if let Some(slot) = D::missing(world) {
            return Some(slot);
        }
        if let Some(slot) = E::missing(world) {
            return Some(slot);
        }
        F::missing(world)
    }

    /// The elements, fetched in order; the first conflict is the tuple's.
    fn fetch(world: &'a World) -> (r: Result<Self, FetchError>) {
        let a = A::fetch(world)?;
        let b = B::fetch(world)?;
        let c = C::fetch(world)?;
        let d = D::fetch(world)?;
        let e = E::fetch(world)?;
        let f = F::fetch(world)?;
        Ok((a, b, c, d, e, f))
    }

    /// The elements, fetched in order; the first failure is the tuple's. So
    /// where the first element lacks something, the failure is on a slot
    /// of the first element.
    fn try_fetch(world: &'a World) -> (r: Result<Self, FetchFailure>)
        ensures
            !A::requests().subset_of(world.resources.keys()) ==> r is Err
                && A::requests().contains(r->Err_0.spec_slot()),
    {
        let a = A::try_fetch(world)?;
        let b = B::try_fetch(world)?;
        let c = C::try_fetch(world)?;
        let d = D::try_fetch(world)?;
        let e = E::try_fetch(world)?;
        let f = F::try_fetch(world)?;
        Ok((a, b, c, d, e, f))
    }
}

impl<'a, A, B, C, D, E, F, G> SystemData<'a> for (A, B, C, D, E, F, G) where
    A: SystemData<'a>,
    B: SystemData<'a>,
    C: SystemData<'a>,
    D: SystemData<'a>,
    E: SystemData<'a>,
    F: SystemData<'a>,
    G: SystemData<'a>,
 {
    /// What any of the elements asks for.
    open spec fn requests() -> Set<TypeId> {
        A::requests()
            + B::requests()
            + C::requests()
            + D::requests()
            + E::requests()
            + F::requests()
            + G::requests()
    }

    /// What the first element that lacks something reports.
    open spec fn first_missing(world: &World) -> Option<TypeId> {
        if A::first_missing(world) is Some {
            A::first_missing(world)
        } else if B::first_missing(world) is Some {
            B::first_missing(world)
        } else if C::first_missing(world) is Some {
            C::first_missing(world)
        } else if D::first_missing(world) is Some {
            D::first_missing(world)
        } else if E::first_missing(world) is Some {
            E::first_missing(world)
        } else if F::first_missing(world) is Some {
            F::first_missing(world)
        } else {
            G::first_missing(world)
        }
    }

    /// The elements, asked in order; the first answer is the tuple's.
    fn missing(world: &World) -> (r: Option<TypeId>) {
        if let Some(slot) = A::missing(world) {
            return Some(slot);
        }
        if let Some(slot) = B::missing(world) {
            return Some(slot);
        }
        if let Some(slot) = C::missing(world) {
            return Some(slot);
        }
        if let Some(slot) = D::missing(world) {
            return Some(slot);
        }
        if let Some(slot) = E::missing(world) {
            return Some(slot);
        }
        if let Some(slot) = F::missing(world) {
            return Some(slot);
        }
        G::missing(world)
    }

    /// The elements, fetched in order; the first conflict is the tuple's.
    fn fetch(world: &'a World) -> (r: Result<Self, FetchError>) {
        let a = A::fetch(world)?;
        let b = B::fetch(world)?;
        let c = C::fetch(world)?;
        let d = D::fetch(world)?;
        let e = E::fetch(world)?;
        let f = F::fetch(world)?;
        let g = G::fetch(world)?;
        Ok((a, b, c, d, e, f, g))
    }

    /// The elements, fetched in order; the first failure is the tuple's. So
    /// where the first element lacks something, the failure is on a slot
    /// of the first element.
    fn try_fetch(world: &'a World) -> (r: Result<Self, FetchFailure>)
        ensures
            !A::requests().subset_of(world.resources.keys()) ==> r is Err
                && A::requests().contains(r->Err_0.spec_slot()),
    {
        let a = A::try_fetch(world)?;
        let b = B::try_fetch(world)?;
        let c = C::try_fetch(world)?;
        let d = D::try_fetch(world)?;
        let e = E::try_fetch(world)?;
        let f = F::try_fetch(world)?;
        let g = G::try_fetch(world)?;
        Ok((a, b, c, d, e, f, g))
    }
}

impl<'a, A, B, C, D, E, F, G, H> SystemData<'a> for (A, B, C, D, E, F, G, H) where
    A: SystemData<'a>,
    B: SystemData<'a>,
    C: SystemData<'a>,
    D: SystemData<'a>,
    E: SystemData<'a>,
    F: SystemData<'a>,
    G: SystemData<'a>,
    H: SystemData<'a>,
 {
    /// What any of the elements asks for.
    open spec fn requests() -> Set<TypeId> {
        A::requests()
            + B::requests()
            + C::requests()
            + D::requests()
            + E::requests()
            + F::requests()
            + G::requests()
            + H::requests()
    }

    /// What the first element that lacks something reports.
    open spec fn first_missing(world: &World) -> Option<TypeId> {
        if A::first_missing(world) is Some {
            A::first_missing(world)
        } else if B::first_missing(world) is Some {
            B::first_missing(world)
        } else if C::first_missing(world) is Some {
            C::first_missing(world)
        } else if D::first_missing(world) is Some {
            D::first_missing(world)
        } else if E::first_missing(world) is Some {
            E::first_missing(world)
        } else if F::first_missing(world) is Some {
            F::first_missing(world)
        } else if G::first_missing(world) is Some {
            G::first_missing(world)
        } else {
            H::first_missing(world)
        }
    }

    /// The elements, asked in order; the first answer is the tuple's.
    fn missing(world: &World) -> (r: Option<TypeId>) {
        if let Some(slot) = A::missing(world) {
            return Some(slot);
        }
        if let Some(slot) = B::missing(world) {
            return Some(slot);
        }
        if let Some(slot) = C::missing(world) {
            return Some(slot);
        }
        if let Some(slot) = D::missing(world) {
            return Some(slot);
        }
        if let Some(slot) = E::missing(world) {
            return Some(slot);
        }
        if let Some(slot) = F::missing(world) {
            return Some(slot);
        }
        if let Some(slot) = G::missing(world) {
            return Some(slot);
        }
        H::missing(world)
    }

    /// The elements, fetched in order; the first conflict is the tuple's.
    fn fetch(world: &'a World) -> (r: Result<Self, FetchError>) {
        let a = A::fetch(world)?;
        let b = B::fetch(world)?;
        let c = C::fetch(world)?;
        let d = D::fetch(world)?;
        let e = E::fetch(world)?;
        let f = F::fetch(world)?;
        let g = G::fetch(world)?;
        let h = H::fetch(world)?;
        Ok((a, b, c, d, e, f, g, h))
    }

    /// The elements, fetched in order; the first failure is the tuple's. So
    /// where the first element lacks something, the failure is on a slot
    /// of the first element.
    fn try_fetch(world: &'a World) -> (r: Result<Self, FetchFailure>)
        ensures
            !A::requests().subset_of(world.resources.keys()) ==> r is Err
                && A::requests().contains(r->Err_0.spec_slot()),
    {
        let a = A::try_fetch(world)?;
        let b = B::try_fetch(world)?;
        let c = C::try_fetch(world)?;
        let d = D::try_fetch(world)?;
        let e = E::try_fetch(world)?;
        let f = F::try_fetch(world)?;
        let g = G::try_fetch(world)?;
        let h = H::try_fetch(world)?;
        Ok((a, b, c, d, e, f, g, h))
    }
}

impl<'a, A, B, C, D, E, F, G, H, I> SystemData<'a> for (A, B, C, D, E, F, G, H, I) where
    A: SystemData<'a>,
    B: SystemData<'a>,
    C: SystemData<'a>,
    D: SystemData<'a>,
    E: SystemData<'a>,
    F: SystemData<'a>,
    G: SystemData<'a>,
    H: SystemData<'a>,
    I: SystemData<'a>,
 {
    /// What any of the elements asks for.
    open spec fn requests() -> Set<TypeId> {
        A::requests()
            + B::requests()
            + C::requests()
            + D::requests()
            + E::requests()
            + F::requests()
            + G::requests()
            + H::requests()
            + I::requests()
    }

    /// What the first element that lacks something reports.
    open spec fn first_missing(world: &World) -> Option<TypeId> {
        if A::first_missing(world) is Some {
            A::first_missing(world)
        } else if B::first_missing(world) is Some {
            B::first_missing(world)
        } else if C::first_missing(world) is Some {
            C::first_missing(world)
        } else if D::first_missing(world) is Some {
            D::first_missing(world)
        } else if E::first_missing(world) is Some {
            E::first_missing(world)
        } else if F::first_missing(world) is Some {
            F::first_missing(world)
        } else if G::first_missing(world) is Some {
            G::first_missing(world)
        } else if H::first_missing(world) is Some {
            H::first_missing(world)
        } else {
            I::first_missing(world)
        }
    }

    /// The elements, asked in order; the first answer is the tuple's.
    fn missing(world: &World) -> (r: Option<TypeId>) {
        if let Some(slot) = A::missing(world) {
            return Some(slot);
        }
        if let Some(slot) = B::missing(world) {
            return Some(slot);
        }
        if let Some(slot) = C::missing(world) {
            return Some(slot);
        }
        if let Some(slot) = D::missing(world) {
            return Some(slot);
        }
        if let Some(slot) = E::missing(world) {
            return Some(slot);
        }
        if let Some(slot) = F::missing(world) {
            return Some(slot);
        }
        if let Some(slot) = G::missing(world) {
            return Some(slot);
        }
        if let Some(slot) = H::missing(world) {
            return Some(slot);
        }
        I::missing(world)
    }

    /// The elements, fetched in order; the first conflict is the tuple's.
    fn fetch(world: &'a World) -> (r: Result<Self, FetchError>) {
        let a = A::fetch(world)?;
        let b = B::fetch(world)?;
        let c = C::fetch(world)?;
        let d = D::fetch(world)?;
        let e = E::fetch(world)?;
        let f = F::fetch(world)?;
        let g = G::fetch(world)?;
        let h = H::fetch(world)?;
        let i = I::fetch(world)?;
        Ok((a, b, c, d, e, f, g, h, i))
    }

    /// The elements, fetched in order; the first failure is the tuple's. So
    /// where the first element lacks something, the failure is on a slot
    /// of the first element.
    fn try_fetch(world: &'a World) -> (r: Result<Self, FetchFailure>)
        ensures
            !A::requests().subset_of(world.resources.keys()) ==> r is Err
                && A::requests().contains(r->Err_0.spec_slot()),
    {
        let a = A::try_fetch(world)?;
        let b = B::try_fetch(world)?;
        let c = C::try_fetch(world)?;
        let d = D::try_fetch(world)?;
        let e = E::try_fetch(world)?;
        let f = F::try_fetch(world)?;
        let g = G::try_fetch(world)?;
        let h = H::try_fetch(world)?;
        let i = I::try_fetch(world)?;
        Ok((a, b, c, d, e, f, g, h, i))
    }
}

impl<'a, A, B, C, D, E, F, G, H, I, J> SystemData<'a> for (A, B, C, D, E, F, G, H, I, J) where
    A: SystemData<'a>,
    B: SystemData<'a>,
    C: SystemData<'a>,
    D: SystemData<'a>,
    E: SystemData<'a>,
    F: SystemData<'a>,
    G: SystemData<'a>,
    H: SystemData<'a>,
    I: SystemData<'a>,
    J: SystemData<'a>,
 {
    /// What any of the elements asks for.
    open spec fn requests() -> Set<TypeId> {
        A::requests()
            + B::requests()
            + C::requests()
            + D::requests()
            + E::requests()
            + F::requests()
            + G::requests()
            + H::requests()
            + I::requests()
            + J::requests()
    }

    /// What the first element that lacks something reports.
    open spec fn first_missing(world: &World) -> Option<TypeId> {
        if A::first_missing(world) is Some {
            A::first_missing(world)
        } else if B::first_missing(world) is Some {
            B::first_missing(world)
        } else if C::first_missing(world) is Some {
            C::first_missing(world)
        } else if D::first_missing(world) is Some {
            D::first_missing(world)
        } else if E::first_missing(world) is Some {
            E::first_missing(world)
        } else if F::first_missing(world) is Some {
            F::first_missing(world)
        } else if G::first_missing(world) is Some {
            G::first_missing(world)
        } else if H::first_missing(world) is Some {
            H::first_missing(world)
        } else if I::first_missing(world) is Some {
            I::first_missing(world)
        } else {
            J::first_missing(world)
        }
    }

    /// The elements, asked in order; the first answer is the tuple's.
    fn missing(world: &World) -> (r: Option<TypeId>) {
        if let Some(slot) = A::missing(world) {
            return Some(slot);
        }
        if let Some(slot) = B::missing(world) {
            return Some(slot);
        }
        if let Some(slot) = C::missing(world) {
            return Some(slot);
        }
        if let Some(slot) = D::missing(world) {
            return Some(slot);
        }
        if let Some(slot) = E::missing(world) {
            return Some(slot);
        }
        if let Some(slot) = F::missing(world) {
            return Some(slot);
        }
        if let Some(slot) = G::missing(world) {
            return Some(slot);
        }
        if let Some(slot) = H::missing(world) {
            return Some(slot);
        }
        if let Some(slot) = I::missing(world) {
            return Some(slot);
        }
        J::missing(world)
    }

    /// The elements, fetched in order; the first conflict is the tuple's.
    fn fetch(world: &'a World) -> (r: Result<Self, FetchError>) {
        let a = A::fetch(world)?;
        let b = B::fetch(world)?;
        let c = C::fetch(world)?;
        let d = D::fetch(world)?;
        let e = E::fetch(world)?;
        let f = F::fetch(world)?;
        let g = G::fetch(world)?;
        let h = H::fetch(world)?;
        let i = I::fetch(world)?;
        let j = J::fetch(world)?;
        Ok((a, b, c, d, e, f, g, h, i, j))
    }

    /// The elements, fetched in order; the first failure is the tuple's. So
    /// where the first element lacks something, the failure is on a slot
    /// of the first element.
    fn try_fetch(world: &'a World) -> (r: Result<Self, FetchFailure>)
        ensures
            !A::requests().subset_of(world.resources.keys()) ==> r is Err
                && A::requests().contains(r->Err_0.spec_slot()),
    {
        let a = A::try_fetch(world)?;
        let b = B::try_fetch(world)?;
        let c = C::try_fetch(world)?;
        let d = D::try_fetch(world)?;
        let e = E::try_fetch(world)?;
        let f = F::try_fetch(world)?;
        let g = G::try_fetch(world)?;
        let h = H::try_fetch(world)?;
        let i = I::try_fetch(world)?;
        let j = J::try_fetch(world)?;
        Ok((a, b, c, d, e, f, g, h, i, j))
    }
}

impl<'a, A, B, C, D, E, F, G, H, I, J, K> SystemData<'a> for (A, B, C, D, E, F, G, H, I, J, K) where
    A: SystemData<'a>,
    B: SystemData<'a>,
    C: SystemData<'a>,
    D: SystemData<'a>,
    E: SystemData<'a>,
    F: SystemData<'a>,
    G: SystemData<'a>,
    H: SystemData<'a>,
    I: SystemData<'a>,
    J: SystemData<'a>,
    K: SystemData<'a>,
 {
    /// What any of the elements asks for.
    open spec fn requests() -> Set<TypeId> {
        A::requests()
            + B::requests()
            + C::requests()
            + D::requests()
            + E::requests()
            + F::requests()
            + G::requests()
            + H::requests()
            + I::requests()
            + J::requests()
            + K::requests()
    }

    /// What the first element that lacks something reports.
    open spec fn first_missing(world: &World) -> Option<TypeId> {
        if A::first_missing(world) is Some {
            A::first_missing(world)
        } else if B::first_missing(world) is Some {
            B::first_missing(world)
        } else if C::first_missing(world) is Some {
            C::first_missing(world)
        } else if D::first_missing(world) is Some {
            D::first_missing(world)
        } else if E::first_missing(world) is Some {
            E::first_missing(world)
        } else if F::first_missing(world) is Some {
            F::first_missing(world)
        } else if G::first_missing(world) is Some {
            G::first_missing(world)
        } else if H::first_missing(world) is Some {
            H::first_missing(world)
        } else if I::first_missing(world) is Some {
            I::first_missing(world)
        } else if J::first_missing(world) is Some {
            J::first_missing(world)
        } else {
            K::first_missing(world)
        }
    }

    /// The elements, asked in order; the first answer is the tuple's.
    fn missing(world: &World) -> (r: Option<TypeId>) {
        if let Some(slot) = A::missing(world) {
            return Some(slot);
        }
        if let Some(slot) = B::missing(world) {
            return Some(slot);
        }
        if let Some(slot) = C::missing(world) {
            return Some(slot);
        }
        if let Some(slot) = D::missing(world) {
            return Some(slot);
        }
        if let Some(slot) = E::missing(world) {
            return Some(slot);
        }
        if let Some(slot) = F::missing(world) {
            return Some(slot);
        }
        if let Some(slot) = G::missing(world) {
            return Some(slot);
        }
        if let Some(slot) = H::missing(world) {
            return Some(slot);
        }
        if let Some(slot) = I::missing(world) {
            return Some(slot);
        }
        if let Some(slot) = J::missing(world) {
            return Some(slot);
        }
        K::missing(world)
    }

    /// The elements, fetched in order; the first conflict is the tuple's.
    fn fetch(world: &'a World) -> (r: Result<Self, FetchError>) {
        let a = A::fetch(world)?;
        let b = B::fetch(world)?;
        let c = C::fetch(world)?;
        let d = D::fetch(world)?;
        let e = E::fetch(world)?;
        let f = F::fetch(world)?;
        let g = G::fetch(world)?;
        let h = H::fetch(world)?;
        let i = I::fetch(world)?;
        let j = J::fetch(world)?;
        let k = K::fetch(world)?;
        Ok((a, b, c, d, e, f, g, h, i, j, k))
    }

    /// The elements, fetched in order; the first failure is the tuple's. So
    /// where the first element lacks something, the failure is on a slot
    /// of the first element.
    fn try_fetch(world: &'a World) -> (r: Result<Self, FetchFailure>)
        ensures
            !A::requests().subset_of(world.resources.keys()) ==> r is Err
                && A::requests().contains(r->Err_0.spec_slot()),
    {
        let a = A::try_fetch(world)?;
        let b = B::try_fetch(world)?;
        let c = C::try_fetch(world)?;
        let d = D::try_fetch(world)?;
        let e = E::try_fetch(world)?;
        let f = F::try_fetch(world)?;
        let g = G::try_fetch(world)?;
        let h = H::try_fetch(world)?;
        let i = I::try_fetch(world)?;
        let j = J::try_fetch(world)?;
        let k = K::try_fetch(world)?;
        Ok((a, b, c, d, e, f, g, h, i, j, k))
    }
}

impl<'a, A, B, C, D, E, F, G, H, I, J, K, L> SystemData<'a> for (
    A, B, C, D, E, F, G, H, I, J, K, L,
) where
    A: SystemData<'a>,
    B: SystemData<'a>,
    C: SystemData<'a>,
    D: SystemData<'a>,
    E: SystemData<'a>,
    F: SystemData<'a>,
    G: SystemData<'a>,
    H: SystemData<'a>,
    I: SystemData<'a>,
    J: SystemData<'a>,
    K: SystemData<'a>,
    L: SystemData<'a>,
 {
    /// What any of the elements asks for.
    open spec fn requests() -> Set<TypeId> {
        A::requests()
            + B::requests()
            + C::requests()
            + D::requests()
            + E::requests()
            + F::requests()
            + G::requests()
            + H::requests()
            + I::requests()
            + J::requests()
            + K::requests()
            + L::requests()
    }

    /// What the first element that lacks something reports.
    open spec fn first_missing(world: &World) -> Option<TypeId> {
        if A::first_missing(world) is Some {
            A::first_missing(world)
        } else if B::first_missing(world) is Some {
            B::first_missing(world)
        } else if C::first_missing(world) is Some {
            C::first_missing(world)
        } else if D::first_missing(world) is Some {
            D::first_missing(world)
        } else if E::first_missing(world) is Some {
            E::first_missing(world)
        } else if F::first_missing(world) is Some {
            F::first_missing(world)
        } else if G::first_missing(world) is Some {
            G::first_missing(world)
        } else if H::first_missing(world) is Some {
            H::first_missing(world)
        } else if I::first_missing(world) is Some {
            I::first_missing(world)
        } else if J::first_missing(world) is Some {
            J::first_missing(world)
        } else if K::first_missing(world) is Some {
            K::first_missing(world)
        } else {
            L::first_missing(world)
        }
    }

    /// The elements, asked in order; the first answer is the tuple's.
    fn missing(world: &World) -> (r: Option<TypeId>) {
        if let Some(slot) = A::missing(world) {
            return Some(slot);
        }
        if let Some(slot) = B::missing(world) {
            return Some(slot);
        }
        if let Some(slot) = C::missing(world) {
            return Some(slot);
        }
        if let Some(slot) = D::missing(world) {
            return Some(slot);
        }
        if let Some(slot) = E::missing(world) {
            return Some(slot);
        }
        if let Some(slot) = F::missing(world) {
            return Some(slot);
        }
        if let Some(slot) = G::missing(world) {
            return Some(slot);
        }
        if let Some(slot) = H::missing(world) {
            return Some(slot);
        }
        if let Some(slot) = I::missing(world) {
            return Some(slot);
        }
        if let Some(slot) = J::missing(world) {
            return Some(slot);
        }
        if let Some(slot) = K::missing(world) {
            return Some(slot);
        }
        L::missing(world)
    }

    /// The elements, fetched in order; the first conflict is the tuple's.
    fn fetch(world: &'a World) -> (r: Result<Self, FetchError>) {
        let a = A::fetch(world)?;
        let b = B::fetch(world)?;
        let c = C::fetch(world)?;
        let d = D::fetch(world)?;
        let e = E::fetch(world)?;
        let f = F::fetch(world)?;
        let g = G::fetch(world)?;
        let h = H::fetch(world)?;
        let i = I::fetch(world)?;
        let j = J::fetch(world)?;
        let k = K::fetch(world)?;
        let l = L::fetch(world)?;
        Ok((a, b, c, d, e, f, g, h, i, j, k, l))
    }

    /// The elements, fetched in order; the first failure is the tuple's. So
    /// where the first element lacks something, the failure is on a slot
    /// of the first element.
    fn try_fetch(world: &'a World) -> (r: Result<Self, FetchFailure>)
        ensures
            !A::requests().subset_of(world.resources.keys()) ==> r is Err
                && A::requests().contains(r->Err_0.spec_slot()),
    {
        let a = A::try_fetch(world)?;
        let b = B::try_fetch(world)?;
        let c = C::try_fetch(world)?;
        let d = D::try_fetch(world)?;
        let e = E::try_fetch(world)?;
        let f = F::try_fetch(world)?;
        let g = G::try_fetch(world)?;
        let h = H::try_fetch(world)?;
        let i = I::try_fetch(world)?;
        let j = J::try_fetch(world)?;
        let k = K::try_fetch(world)?;
        let l = L::try_fetch(world)?;
        Ok((a, b, c, d, e, f, g, h, i, j, k, l))
    }
}

impl<'a, A, B, C, D, E, F, G, H, I, J, K, L, M> SystemData<'a> for (
    A, B, C, D, E, F, G, H, I, J, K, L, M,
) where
    A: SystemData<'a>,
    B: SystemData<'a>,
    C: SystemData<'a>,
    D: SystemData<'a>,
    E: SystemData<'a>,
    F: SystemData<'a>,
    G: SystemData<'a>,
    H: SystemData<'a>,
    I: SystemData<'a>,
    J: SystemData<'a>,
    K: SystemData<'a>,
    L: SystemData<'a>,
    M: SystemData<'a>,
 {
    /// What any of the elements asks for.
    open spec fn requests() -> Set<TypeId> {
        A::requests()
            + B::requests()
            + C::requests()
            + D::requests()
            + E::requests()
            + F::requests()
            + G::requests()
            + H::requests()
            + I::requests()
            + J::requests()
            + K::requests()
            + L::requests()
            + M::requests()
    }

    /// What the first element that lacks something reports.
    open spec fn first_missing(world: &World) -> Option<TypeId> {
        if A::first_missing(world) is Some {
            A::first_missing(world)
        } else if B::first_missing(world) is Some {
            B::first_missing(world)
        } else if C::first_missing(world) is Some {
            C::first_missing(world)
        } else if D::first_missing(world) is Some {
            D::first_missing(world)
        } else if E::first_missing(world) is Some {
            E::first_missing(world)
        } else if F::first_missing(world) is Some {
            F::first_missing(world)
        } else if G::first_missing(world) is Some {
            G::first_missing(world)
        } else if H::first_missing(world) is Some {
            H::first_missing(world)
        } else if I::first_missing(world) is Some {
            I::first_missing(world)
        } else if J::first_missing(world) is Some {
            J::first_missing(world)
        } else if K::first_missing(world) is Some {
            K::first_missing(world)
        } else if L::first_missing(world) is Some {
            L::first_missing(world)
        } else {
            M::first_missing(world)
        }
    }

    /// The elements, asked in order; the first answer is the tuple's.
    fn missing(world: &World) -> (r: Option<TypeId>) {
        if let Some(slot) = A::missing(world) {
            return Some(slot);
        }
        if let Some(slot) = B::missing(world) {
            return Some(slot);
        }
        if let Some(slot) = C::missing(world) {
            return Some(slot);
        }
        if let Some(slot) = D::missing(world) {
            return Some(slot);
        }
        if let Some(slot) = E::missing(world) {
            return Some(slot);
        }
        if let Some(slot) = F::missing(world) {
            return Some(slot);
        }
        if let Some(slot) = G::missing(world) {
            return Some(slot);
        }
        if let Some(slot) = H::missing(world) {
            return Some(slot);
        }
        if let Some(slot) = I::missing(world) {
            return Some(slot);
        }
        if let Some(slot) = J::missing(world) {
            return Some(slot);
        }
        if let Some(slot) = K::missing(world) {
            return Some(slot);
        }
        if let Some(slot) = L::missing(world) {
            return Some(slot);
        }
        M::missing(world)
    }

    /// The elements, fetched in order; the first conflict is the tuple's.
    fn fetch(world: &'a World) -> (r: Result<Self, FetchError>) {
        let a = A::fetch(world)?;
        let b = B::fetch(world)?;
        let c = C::fetch(world)?;
        let d = D::fetch(world)?;
        let e = E::fetch(world)?;
        let f = F::fetch(world)?;
        let g = G::fetch(world)?;
        let h = H::fetch(world)?;
        let i = I::fetch(world)?;
        let j = J::fetch(world)?;
        let k = K::fetch(world)?;
        let l = L::fetch(world)?;
        let m = M::fetch(world)?;
        Ok((a, b, c, d, e, f, g, h, i, j, k, l, m))
    }

    /// The elements, fetched in order; the first failure is the tuple's. So
    /// where the first element lacks something, the failure is on a slot
    /// of the first element.
    fn try_fetch(world: &'a World) -> (r: Result<Self, FetchFailure>)
        ensures
            !A::requests().subset_of(world.resources.keys()) ==> r is Err
                && A::requests().contains(r->Err_0.spec_slot()),
    {
        let a = A::try_fetch(world)?;
        let b = B::try_fetch(world)?;
        let c = C::try_fetch(world)?;
        let d = D::try_fetch(world)?;
        let e = E::try_fetch(world)?;
        let f = F::try_fetch(world)?;
        let g = G::try_fetch(world)?;
        let h = H::try_fetch(world)?;
        let i = I::try_fetch(world)?;
        let j = J::try_fetch(world)?;
        let k = K::try_fetch(world)?;
        let l = L::try_fetch(world)?;
        let m = M::try_fetch(world)?;
        Ok((a, b, c, d, e, f, g, h, i, j, k, l, m))
    }
}

impl<'a, A, B, C, D, E, F, G, H, I, J, K, L, M, N> SystemData<'a> for (
    A, B, C, D, E, F, G, H, I, J, K, L, M, N,
) where
    A: SystemData<'a>,
    B: SystemData<'a>,
    C: SystemData<'a>,
    D: SystemData<'a>,
    E: SystemData<'a>,
    F: SystemData<'a>,
    G: SystemData<'a>,
    H: SystemData<'a>,
    I: SystemData<'a>,
    J: SystemData<'a>,
    K: SystemData<'a>,
    L: SystemData<'a>,
    M: SystemData<'a>,
    N: SystemData<'a>,
 {
    /// What any of the elements asks for.
    open spec fn requests() -> Set<TypeId> {
        A::requests()
            + B::requests()
            + C::requests()
            + D::requests()
            + E::requests()
            + F::requests()
            + G::requests()
            + H::requests()
            + I::requests()
            + J::requests()
            + K::requests()
            + L::requests()
            + M::requests()
            + N::requests()
    }

    /// What the first element that lacks something reports.
    open spec fn first_missing(world: &World) -> Option<TypeId> {
        if A::first_missing(world) is Some {
            A::first_missing(world)
        } else if B::first_missing(world) is Some {
            B::first_missing(world)
        } else if C::first_missing(world) is Some {
            C::first_missing(world)
        } else if D::first_missing(world) is Some {
            D::first_missing(world)
        } else if E::first_missing(world) is Some {
            E::first_missing(world)
        } else if F::first_missing(world) is Some {
            F::first_missing(world)
        } else if G::first_missing(world) is Some {
            G::first_missing(world)
        } else if H::first_missing(world) is Some {
            H::first_missing(world)
        } else if I::first_missing(world) is Some {
            I::first_missing(world)
        } else if J::first_missing(world) is Some {
            J::first_missing(world)
        } else if K::first_missing(world) is Some {
            K::first_missing(world)
        } else if L::first_missing(world) is Some {
            L::first_missing(world)
        } else if M::first_missing(world) is Some {
            M::first_missing(world)
        } else {
            N::first_missing(world)
        }
    }

    /// The elements, asked in order; the first answer is the tuple's.
    fn missing(world: &World) -> (r: Option<TypeId>) {
        if let Some(slot) = A::missing(world) {
            return Some(slot);
        }
        if let Some(slot) = B::missing(world) {
            return Some(slot);
        }
        if let Some(slot) = C::missing(world) {
            return Some(slot);
        }
        if let Some(slot) = D::missing(world) {
            return Some(slot);
        }
        if let Some(slot) = E::missing(world) {
            return Some(slot);
        }
        if let Some(slot) = F::missing(world) {
            return Some(slot);
        }
        if let Some(slot) = G::missing(world) {
            return Some(slot);
        }
        if let Some(slot) = H::missing(world) {
            return Some(slot);
        }
        if let Some(slot) = I::missing(world) {
            return Some(slot);
        }
        if let Some(slot) = J::missing(world) {
            return Some(slot);
        }
        if let Some(slot) = K::missing(world) {
            return Some(slot);
        }
        if let Some(slot) = L::missing(world) {
            return Some(slot);
        }
        if let Some(slot) = M::missing(world) {
            return Some(slot);
        }
        N::missing(world)
    }

    /// The elements, fetched in order; the first conflict is the tuple's.
    fn fetch(world: &'a World) -> (r: Result<Self, FetchError>) {
        let a = A::fetch(world)?;
        let b = B::fetch(world)?;
        let c = C::fetch(world)?;
        let d = D::fetch(world)?;
        let e = E::fetch(world)?;
        let f = F::fetch(world)?;
        let g = G::fetch(world)?;
        let h = H::fetch(world)?;
        let i = I::fetch(world)?;
        let j = J::fetch(world)?;
        let k = K::fetch(world)?;
        let l = L::fetch(world)?;
        let m = M::fetch(world)?;
        let n = N::fetch(world)?;
        Ok((a, b, c, d, e, f, g, h, i, j, k, l, m, n))
    }

    /// The elements, fetched in order; the first failure is the tuple's. So
    /// where the first element lacks something, the failure is on a slot
    /// of the first element.
    fn try_fetch(world: &'a World) -> (r: Result<Self, FetchFailure>)
        ensures
            !A::requests().subset_of(world.resources.keys()) ==> r is Err
                && A::requests().contains(r->Err_0.spec_slot()),
    {
        let a = A::try_fetch(world)?;
        let b = B::try_fetch(world)?;
        let c = C::try_fetch(world)?;
        let d = D::try_fetch(world)?;
        let e = E::try_fetch(world)?;
        let f = F::try_fetch(world)?;
        let g = G::try_fetch(world)?;
        let h = H::try_fetch(world)?;
        let i = I::try_fetch(world)?;
        let j = J::try_fetch(world)?;
        let k = K::try_fetch(world)?;
        let l = L::try_fetch(world)?;
        let m = M::try_fetch(world)?;
        let n = N::try_fetch(world)?;
        Ok((a, b, c, d, e, f, g, h, i, j, k, l, m, n))
    }
}

impl<'a, A, B, C, D, E, F, G, H, I, J, K, L, M, N, O> SystemData<'a> for (
    A, B, C, D, E, F, G, H, I, J, K, L, M, N, O,
) where
    A: SystemData<'a>,
    B: SystemData<'a>,
    C: SystemData<'a>,
    D: SystemData<'a>,
    E: SystemData<'a>,
    F: SystemData<'a>,
    G: SystemData<'a>,
    H: SystemData<'a>,
    I: SystemData<'a>,
    J: SystemData<'a>,
    K: SystemData<'a>,
    L: SystemData<'a>,
    M: SystemData<'a>,
    N: SystemData<'a>,
    O: SystemData<'a>,
 {
    /// What any of the elements asks for.
    open spec fn requests() -> Set<TypeId> {
        A::requests()
            + B::requests()
            + C::requests()
            + D::requests()
            + E::requests()
            + F::requests()
            + G::requests()
            + H::requests()
            + I::requests()
            + J::requests()
            + K::requests()
            + L::requests()
            + M::requests()
            + N::requests()
            + O::requests()
    }

    /// What the first element that lacks something reports.
    open spec fn first_missing(world: &World) -> Option<TypeId> {
        if A::first_missing(world) is Some {
            A::first_missing(world)
        } else if B::first_missing(world) is Some {
            B::first_missing(world)
        } else if C::first_missing(world) is Some {
            C::first_missing(world)
        } else if D::first_missing(world) is Some {
            D::first_missing(world)
        } else if E::first_missing(world) is Some {
            E::first_missing(world)
        } else if F::first_missing(world) is Some {
            F::first_missing(world)
        } else if G::first_missing(world) is Some {
            G::first_missing(world)
        } else if H::first_missing(world) is Some {
            H::first_missing(world)
        } else if I::first_missing(world) is Some {
            I::first_missing(world)
        } else if J::first_missing(world) is Some {
            J::first_missing(world)
        } else if K::first_missing(world) is Some {
            K::first_missing(world)
        } else if L::first_missing(world) is Some {
            L::first_missing(world)
        } else if M::first_missing(world) is Some {
            M::first_missing(world)
        } else if N::first_missing(world) is Some {
            N::first_missing(world)
        } else {
            O::first_missing(world)
        }
    }

    /// The elements, asked in order; the first answer is the tuple's.
    fn missing(world: &World) -> (r: Option<TypeId>) {
        if let Some(slot) = A::missing(world) {
            return Some(slot);
        }
        if let Some(slot) = B::missing(world) {
            return Some(slot);
        }
        if let Some(slot) = C::missing(world) {
            return Some(slot);
        }
        if let Some(slot) = D::missing(world) {
            return Some(slot);
        }
        if let Some(slot) = E::missing(world) {
            return Some(slot);
        }
        if let Some(slot) = F::missing(world) {
            return Some(slot);
        }
        if let Some(slot) = G::missing(world) {
            return Some(slot);
        }
        if let Some(slot) = H::missing(world) {
            return Some(slot);
        }
        if let Some(slot) = I::missing(world) {
            return Some(slot);
        }
        if let Some(slot) = J::missing(world) {
            return Some(slot);
        }
        if let Some(slot) = K::missing(world) {
            return Some(slot);
        }
        if let Some(slot) = L::missing(world) {
            return Some(slot);
        }
        if let Some(slot) = M::missing(world) {
            return Some(slot);
        }
        if let Some(slot) = N::missing(world) {
            return Some(slot);
        }
        O::missing(world)
    }

    /// The elements, fetched in order; the first conflict is the tuple's.
    fn fetch(world: &'a World) -> (r: Result<Self, FetchError>) {
        let a = A::fetch(world)?;
        let b = B::fetch(world)?;
        let c = C::fetch(world)?;
        let d = D::fetch(world)?;
        let e = E::fetch(world)?;
        let f = F::fetch(world)?;
        let g = G::fetch(world)?;
        let h = H::fetch(world)?;
        let i = I::fetch(world)?;
        let j = J::fetch(world)?;
        let k = K::fetch(world)?;
        let l = L::fetch(world)?;
        let m = M::fetch(world)?;
        let n = N::fetch(world)?;
        let o = O::fetch(world)?;
        Ok((a, b, c, d, e, f, g, h, i, j, k, l, m, n, o))
    }

    /// The elements, fetched in order; the first failure is the tuple's. So
    /// where the first element lacks something, the failure is on a slot
    /// of the first element.
    fn try_fetch(world: &'a World) -> (r: Result<Self, FetchFailure>)
        ensures
            !A::requests().subset_of(world.resources.keys()) ==> r is Err
                && A::requests().contains(r->Err_0.spec_slot()),
    {
        let a = A::try_fetch(world)?;
        let b = B::try_fetch(world)?;
        let c = C::try_fetch(world)?;
        let d = D::try_fetch(world)?;
        let e = E::try_fetch(world)?;
        let f = F::try_fetch(world)?;
        let g = G::try_fetch(world)?;
        let h = H::try_fetch(world)?;
        let i = I::try_fetch(world)?;
        let j = J::try_fetch(world)?;
        let k = K::try_fetch(world)?;
        let l = L::try_fetch(world)?;
        let m = M::try_fetch(world)?;
        let n = N::try_fetch(world)?;
        let o = O::try_fetch(world)?;
        Ok((a, b, c, d, e, f, g, h, i, j, k, l, m, n, o))
    }
}

impl<'a, A, B, C, D, E, F, G, H, I, J, K, L, M, N, O, P> SystemData<'a> for (
    A, B, C, D, E, F, G, H, I, J, K, L, M, N, O, P,
) where
    A: SystemData<'a>,
    B: SystemData<'a>,
    C: SystemData<'a>,
    D: SystemData<'a>,
    E: SystemData<'a>,
    F: SystemData<'a>,
    G: SystemData<'a>,
    H: SystemData<'a>,
    I: SystemData<'a>,
    J: SystemData<'a>,
    K: SystemData<'a>,
    L: SystemData<'a>,
    M: SystemData<'a>,
    N: SystemData<'a>,
    O: SystemData<'a>,
    P: SystemData<'a>,
 {
    /// What any of the elements asks for.
    open spec fn requests() -> Set<TypeId> {
        A::requests()
            + B::requests()
            + C::requests()
            + D::requests()
            + E::requests()
            + F::requests()
            + G::requests()
            + H::requests()
            + I::requests()
            + J::requests()
            + K::requests()
            + L::requests()
            + M::requests()
            + N::requests()
            + O::requests()
            + P::requests()
    }

    /// What the first element that lacks something reports.
    open spec fn first_missing(world: &World) -> Option<TypeId> {
        if A::first_missing(world) is Some {
            A::first_missing(world)
        } else if B::first_missing(world) is Some {
            B::first_missing(world)
        } else if C::first_missing(world) is Some {
            C::first_missing(world)
        } else if D::first_missing(world) is Some {
            D::first_missing(world)
        } else if E::first_missing(world) is Some {
            E::first_missing(world)
        } else if F::first_missing(world) is Some {
            F::first_missing(world)
        } else if G::first_missing(world) is Some {
            G::first_missing(world)
        } else if H::first_missing(world) is Some {
            H::first_missing(world)
        } else if I::first_missing(world) is Some {
            I::first_missing(world)
        } else if J::first_missing(world) is Some {
            J::first_missing(world)
        } else if K::first_missing(world) is Some {
            K::first_missing(world)
        } else if L::first_missing(world) is Some {
            L::first_missing(world)
        } else if M::first_missing(world) is Some {
            M::first_missing(world)
        } else if N::first_missing(world) is Some {
            N::first_missing(world)
        } else if O::first_missing(world) is Some {
            O::first_missing(world)
        } else {
            P::first_missing(world)
        }
    }

    /// The elements, asked in order; the first answer is the tuple's.
    fn missing(world: &World) -> (r: Option<TypeId>) {
        if let Some(slot) = A::missing(world) {
            return Some(slot);
        }
        if let Some(slot) = B::missing(world) {
            return Some(slot);
        }
        if let Some(slot) = C::missing(world) {
            return Some(slot);
        }
        if let Some(slot) = D::missing(world) {
            return Some(slot);
        }
        if let Some(slot) = E::missing(world) {
            return Some(slot);
        }
        if let Some(slot) = F::missing(world) {
            return Some(slot);
        }
        if let Some(slot) = G::missing(world) {
            return Some(slot);
        }
        if let Some(slot) = H::missing(world) {
            return Some(slot);
        }
        if let Some(slot) = I::missing(world) {
            return Some(slot);
        }
        if let Some(slot) = J::missing(world) {
            return Some(slot);
        }
        if let Some(slot) = K::missing(world) {
            return Some(slot);
        }
        if let Some(slot) = L::missing(world) {
            return Some(slot);
        }
        if let Some(slot) = M::missing(world) {
            return Some(slot);
        }
        if let Some(slot) = N::missing(world) {
            return Some(slot);
        }
        if let Some(slot) = O::missing(world) {
            return Some(slot);
        }
        P::missing(world)
    }

    /// The elements, fetched in order; the first conflict is the tuple's.
    fn fetch(world: &'a World) -> (r: Result<Self, FetchError>) {
        let a = A::fetch(world)?;
        let b = B::fetch(world)?;
        let c = C::fetch(world)?;
        let d = D::fetch(world)?;
        let e = E::fetch(world)?;
        let f = F::fetch(world)?;
        let g = G::fetch(world)?;
        let h = H::fetch(world)?;
        let i = I::fetch(world)?;
        let j = J::fetch(world)?;
        let k = K::fetch(world)?;
        let l = L::fetch(world)?;
        let m = M::fetch(world)?;
        let n = N::fetch(world)?;
        let o = O::fetch(world)?;
        let p = P::fetch(world)?;
        Ok((a, b, c, d, e, f, g, h, i, j, k, l, m, n, o, p))
    }

    /// The elements, fetched in order; the first failure is the tuple's. So
    /// where the first element lacks something, the failure is on a slot
    /// of the first element.
    fn try_fetch(world: &'a World) -> (r: Result<Self, FetchFailure>)
        ensures
            !A::requests().subset_of(world.resources.keys()) ==> r is Err
                && A::requests().contains(r->Err_0.spec_slot()),
    {
        let a = A::try_fetch(world)?;
        let b = B::try_fetch(world)?;
        let c = C::try_fetch(world)?;
        let d = D::try_fetch(world)?;
        let e = E::try_fetch(world)?;
        let f = F::try_fetch(world)?;
        let g = G::try_fetch(world)?;
        let h = H::try_fetch(world)?;
        let i = I::try_fetch(world)?;
        let j = J::try_fetch(world)?;
        let k = K::try_fetch(world)?;
        let l = L::try_fetch(world)?;
        let m = M::try_fetch(world)?;
        let n = N::try_fetch(world)?;
        let o = O::try_fetch(world)?;
        let p = P::try_fetch(world)?;
        Ok((a, b, c, d, e, f, g, h, i, j, k, l, m, n, o, p))
    }
}

} // verus!

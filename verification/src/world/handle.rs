//! Handles on a stored resource.
//!
//! A handle is what a successful borrow of a resource's cell gives back. A
//! shared handle reads the resource; an exclusive handle also writes it. The
//! borrow lasts as long as the handle does.

use crate::world::resource::erased;
use crate::world::resource::held;
use crate::world::resource::Held;
use crate::world::resource::Resource;
use atomic_refcell::AtomicRef;
use atomic_refcell::AtomicRefCell;
use atomic_refcell::AtomicRefMut;
use atomic_refcell::BorrowError;
use atomic_refcell::BorrowMutError;
use std::ops::Deref;
use std::ops::DerefMut;
use vstd::prelude::*;

verus! {

/// `atomic_refcell::AtomicRefCell`: a value together with the count of the
/// borrows that are out on it. Opaque: a cell is known by its identity alone.
#[verifier::external_type_specification]
#[verifier::external_body]
#[verifier::reject_recursive_types(T)]
pub struct ExAtomicRefCell<T: ?Sized>(AtomicRefCell<T>);

/// `atomic_refcell::AtomicRef`: a shared borrow of a cell's value.
#[verifier::external_type_specification]
#[verifier::external_body]
#[verifier::reject_recursive_types(T)]
pub struct ExAtomicRef<'b, T: ?Sized>(AtomicRef<'b, T>);

/// `atomic_refcell::AtomicRefMut`: an exclusive borrow of a cell's value.
#[verifier::external_type_specification]
#[verifier::external_body]
#[verifier::reject_recursive_types(T)]
pub struct ExAtomicRefMut<'b, T: ?Sized + 'b>(AtomicRefMut<'b, T>);

/// `atomic_refcell::BorrowError`: a shared borrow was refused.
#[verifier::external_type_specification]
#[verifier::external_body]
pub struct ExBorrowError(BorrowError);

/// `atomic_refcell::BorrowMutError`: an exclusive borrow was refused.
#[verifier::external_type_specification]
#[verifier::external_body]
pub struct ExBorrowMutError(BorrowMutError);

/// Why a handle was refused: the resource is borrowed in a way that the
/// request cannot share.
#[derive(Clone, Copy, Debug, PartialEq, Eq, Structural)]
pub enum BorrowConflict {
    /// A shared handle was asked for while an exclusive one is out.
    Shared,
    /// An exclusive handle was asked for while another handle is out.
    Exclusive,
}

/// A shared handle: read-only access to one stored resource.
///
/// `inner` is the borrow. `source` is the cell that it was taken from, and
/// `target` the value that it reads; neither has another source than what is
/// said of taking the borrow and of reading through it.
#[verifier::reject_recursive_types(R)]
pub struct Fetch<'a, R> {
    inner: AtomicRef<'a, R>,
    source: Ghost<AtomicRefCell<R>>,
    target: Ghost<R>,
}

/// An exclusive handle: read and write access to one stored resource.
///
/// `inner` is the borrow. `source` is the cell that it was taken from, and
/// `target` the value that it reads and writes; neither has another source
/// than what is said of taking the borrow and of reading and writing through
/// it.
#[verifier::reject_recursive_types(R)]
pub struct FetchMut<'a, R> {
    inner: AtomicRefMut<'a, R>,
    source: Ghost<AtomicRefCell<R>>,
    target: Ghost<R>,
}

/// A cell that no borrow is out on, and that nothing can borrow from any
/// more: it is owned, and there is no way to a handle on it. Only
/// `cell_idle` makes one.
#[verifier::reject_recursive_types(R)]
pub struct IdleCell<R> {
    cell: AtomicRefCell<R>,
}

/// What a cell was made from: the value handed to `AtomicRefCell::new`, told
/// of the cell in its erased form. It says nothing of what the cell holds
/// later.
pub uninterp spec fn made_from(cell: &dyn Resource) -> Box<dyn Held>;

/// `AtomicRefCell::new`: a cell made from `value`, with no borrow out.
#[verifier::external_body]
pub(crate) fn cell_new<R: Resource>(value: R) -> (cell: AtomicRefCell<R>)
    ensures
        made_from(&*erased(cell)) == held(value),
{
    AtomicRefCell::new(value)
}

/// `AtomicRefCell::try_borrow_mut`, on a cell that is owned: the exclusive
/// borrow is taken and given up at once. Where it is granted no borrow is
/// out on the cell, and none can be taken from now on; where it is refused,
/// a handle on the cell was leaked, and the cell comes back as it is.
#[verifier::external_body]
pub(crate) fn cell_idle<R>(cell: AtomicRefCell<R>) -> (r: Result<IdleCell<R>, AtomicRefCell<R>>)
    ensures
        r matches Err(busy) ==> busy == cell,
{
    if cell.try_borrow_mut().is_ok() {
        Ok(IdleCell { cell })
    } else {
        Err(cell)
    }
}

/// `AtomicRefCell::into_inner`, on a cell that no borrow is out on: the
/// value that the cell holds now, which is whatever was last written
/// through a handle on it. Nothing is claimed of it.
#[verifier::external_body]
pub(crate) fn cell_into_inner<R>(idle: IdleCell<R>) -> R {
    idle.cell.into_inner()
}

/// `AtomicRefCell::try_borrow`: a shared handle on `cell`, or the error where
/// an exclusive borrow is out. Which of the two depends on the borrows that
/// are out at the moment of the call, so no more is claimed than that a
/// handle is on the cell that was asked. (The
/// cell's counter is one machine word: the call panics once half of its
/// range is taken up by shared borrows that are live or were leaked, and it
/// ends the process once as many requests again were refused during one
/// exclusive borrow.)
#[verifier::external_body]
pub(crate) fn cell_try_borrow<R>(cell: &AtomicRefCell<R>) -> (r: Result<
    Fetch<'_, R>,
    BorrowError,
>)
    ensures
        r matches Ok(handle) ==> handle.cell() == *cell,
{
    match cell.try_borrow() {
        Ok(inner) => Ok(Fetch { inner, source: Ghost(arbitrary()), target: Ghost(arbitrary()) }),
        Err(refused) => Err(refused),
    }
}

/// `AtomicRefCell::try_borrow_mut`: an exclusive handle on `cell`, or the
/// error where any borrow is out. Which of the two depends on the borrows
/// that are out at the moment of the call, so no more is claimed than that a
/// handle is on the cell that was asked.
#[verifier::external_body]
pub(crate) fn cell_try_borrow_mut<R>(cell: &AtomicRefCell<R>) -> (r: Result<
    FetchMut<'_, R>,
    BorrowMutError,
>)
    ensures
        r matches Ok(handle) ==> handle.cell() == *cell,
{
    match cell.try_borrow_mut() {
        Ok(inner) => Ok(
            FetchMut { inner, source: Ghost(arbitrary()), target: Ghost(arbitrary()) },
        ),
        Err(refused) => Err(refused),
    }
}

impl<'a, R> Fetch<'a, R> {
    /// The resource that the handle reads.
    pub closed spec fn view(&self) -> R {
        self.target@
    }

    /// The cell that the handle holds a shared borrow of.
    pub closed spec fn cell(&self) -> AtomicRefCell<R> {
        self.source@
    }

    /// What a request for a shared handle comes to, given what the cell
    /// answered: the handle, or the conflict.
    pub(crate) fn granted(borrowed: Result<Fetch<'a, R>, BorrowError>) -> (r: Result<
        Fetch<'a, R>,
        BorrowConflict,
    >)
        ensures
            match borrowed {
                Ok(handle) => r == Ok::<Fetch<'a, R>, BorrowConflict>(handle),
                Err(_) => r == Err::<Fetch<'a, R>, BorrowConflict>(BorrowConflict::Shared),
            },
    {
        match borrowed {
            Ok(handle) => Ok(handle),
            Err(_) => Err(BorrowConflict::Shared),
        }
    }

    /// `<AtomicRef as Deref>::deref`: the borrowed value. Nothing can change
    /// it while the handle lives, so every call gives the same value: the
    /// handle's view.
    #[verifier::external_body]
    fn target_ref(&self) -> (value: &R)
        ensures
            *value == self@,
    {
        self.inner.deref()
    }
}

impl<'a, R> Deref for Fetch<'a, R> {
    type Target = R;

    /// The resource, read-only.
    fn deref(&self) -> (value: &R)
        ensures
            *value == self@,
    {
        self.target_ref()
    }
}

impl<'a, R> FetchMut<'a, R> {
    /// The resource that the handle reads and writes.
    pub closed spec fn view(&self) -> R {
        self.target@
    }

    /// The cell that the handle holds the exclusive borrow of.
    pub closed spec fn cell(&self) -> AtomicRefCell<R> {
        self.source@
    }

    /// What a request for an exclusive handle comes to, given what the cell
    /// answered: the handle, or the conflict.
    pub(crate) fn granted(borrowed: Result<FetchMut<'a, R>, BorrowMutError>) -> (r: Result<
        FetchMut<'a, R>,
        BorrowConflict,
    >)
        ensures
            match borrowed {
                Ok(handle) => r == Ok::<FetchMut<'a, R>, BorrowConflict>(handle),
                Err(_) => r == Err::<FetchMut<'a, R>, BorrowConflict>(BorrowConflict::Exclusive),
            },
    {
        match borrowed {
            Ok(handle) => Ok(handle),
            Err(_) => Err(BorrowConflict::Exclusive),
        }
    }

    /// `<AtomicRefMut as Deref>::deref`: the borrowed value. Only this
    /// handle can change it, so a call gives what the handle last showed:
    /// its view.
    #[verifier::external_body]
    fn target_ref(&self) -> (value: &R)
        ensures
            *value == self@,
    {
        self.inner.deref()
    }

    /// `<AtomicRefMut as DerefMut>::deref_mut`: the borrowed value, open to
    /// change. The handle's view afterwards is what was written, and the
    /// handle is on the same cell.
    #[verifier::external_body]
    fn target_mut(&mut self) -> (value: &mut R)
        ensures
            *value == old(self)@,
            final(self)@ == *final(value),
            final(self).cell() == old(self).cell(),
    {
        self.inner.deref_mut()
    }
}

impl<'a, R> Deref for FetchMut<'a, R> {
    type Target = R;

    /// The resource, read-only.
    fn deref(&self) -> (value: &R)
        ensures
            *value == self@,
    {
        self.target_ref()
    }
}

impl<'a, R> DerefMut for FetchMut<'a, R> {
    /// The resource, open to change.
    fn deref_mut(&mut self) -> (value: &mut R)
        ensures
            *value == old(self)@,
            final(self)@ == *final(value),
            final(self).cell() == old(self).cell(),
    {
        self.target_mut()
    }
}

} // verus!

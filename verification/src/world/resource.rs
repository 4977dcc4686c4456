//! Resources and their type-erased form.
//!
//! A resource is stored behind `Box<dyn Resource>`. What is known of such a
//! value is the identity of the type it was made from, `type_key`, and a value
//! comes back out of it only where that identity is the one asked for.

pub use crate::world::handle::BorrowConflict;
pub use crate::world::handle::Fetch;
pub use crate::world::handle::FetchMut;
pub use crate::world::store::ResourceMap;
use std::any::Any;
use std::any::TypeId;
use vstd::prelude::*;

verus! {

/// `std::any::TypeId`, carried through as an opaque value. Two of them are
/// equal exactly when they stand for the same type.
#[verifier::external_type_specification]
#[verifier::external_body]
pub struct ExTypeId(TypeId);

/// A `&dyn Any` on its way from [`Resource::as_any`] to a downcast.
#[verifier::external_body]
pub struct AnyRef<'a> {
    inner: &'a (dyn Any + Send + Sync),
}

/// A `&mut dyn Any` on its way from [`Resource::as_any_mut`] to a downcast.
#[verifier::external_body]
pub struct AnyMut<'a> {
    inner: &'a mut (dyn Any + Send + Sync),
}

/// A `Box<dyn Any>` on its way from [`Resource::into_any`] to a downcast.
#[verifier::external_body]
pub struct AnyBox {
    inner: Box<dyn Any + Send + Sync>,
}

/// The form in which the content of a carrier is spoken of: any value that a
/// carrier can hold, with its type forgotten. It is a trait of its own
/// because the methods of [`Resource`] cannot speak of `dyn Resource`: to
/// Verus a method that names its own impl is a definition that refers to
/// itself.
pub trait Held: Send + Sync + 'static {}

impl<T: Send + Sync + 'static> Held for T {}

/// `value` as the content of a carrier.
pub open spec fn held<T: Held>(value: T) -> Box<dyn Held> {
    Box::new(value)
}

/// What an [`AnyRef`] holds: the value that the `&dyn Any` in it points to.
pub uninterp spec fn held_ref(any: AnyRef<'_>) -> Box<dyn Held>;

/// What an [`AnyMut`] holds when it is made: the value that the
/// `&mut dyn Any` in it points to.
pub uninterp spec fn held_mut(any: AnyMut<'_>) -> Box<dyn Held>;

/// What an [`AnyBox`] holds: the value in the `Box<dyn Any>` in it.
pub uninterp spec fn held_box(any: AnyBox) -> Box<dyn Held>;

/// The unsizing coercion from `&T` to `&dyn Any`: the result points to
/// `value` itself.
#[verifier::external_body]
fn upcast_ref<T: Send + Sync + 'static>(value: &T) -> (any: AnyRef<'_>)
    ensures
        held_ref(any) == held(*value),
{
    AnyRef { inner: value }
}

/// The unsizing coercion from `&mut T` to `&mut dyn Any`: the result points
/// to `value` itself.
#[verifier::external_body]
fn upcast_mut<T: Send + Sync + 'static>(value: &mut T) -> (any: AnyMut<'_>)
    ensures
        held_mut(any) == held(*old(value)),
{
    AnyMut { inner: value }
}

/// The unsizing coercion from `Box<T>` to `Box<dyn Any>`: the result is the
/// box of `value` itself.
#[verifier::external_body]
fn upcast_box<T: Send + Sync + 'static>(value: Box<T>) -> (any: AnyBox)
    ensures
        held_box(any) == held(*value),
{
    AnyBox { inner: value }
}

/// Any value that may be shared between threads and moved across them.
///
/// Every such type is a resource; the three methods only give the erased
/// form its way back to `std::any::Any`. Each hands out a carrier that holds
/// the value it was called on, and no other.
pub trait Resource: Send + Sync + 'static {
    /// The value as `&dyn Any`.
    fn as_any(&self) -> AnyRef<'_>;

    /// The value as `&mut dyn Any`.
    fn as_any_mut(&mut self) -> AnyMut<'_>;

    /// The value as `Box<dyn Any>`.
    fn into_any(self: Box<Self>) -> AnyBox;
}

impl<T: Send + Sync + 'static> Resource for T {
    /// The carrier holds this very value.
    fn as_any(&self) -> (any: AnyRef<'_>)
        ensures
            held_ref(any) == held(*self),
    {
        upcast_ref(self)
    }

    /// The carrier holds this very value, as it is at the call.
    fn as_any_mut(&mut self) -> (any: AnyMut<'_>)
        ensures
            held_mut(any) == held(*old(self)),
    {
        upcast_mut(self)
    }

    /// The carrier holds this very value.
    fn into_any(self: Box<Self>) -> (any: AnyBox)
        ensures
            held_box(any) == held(*self),
    {
        upcast_box(self)
    }
}

/// The identity of the type that an erased resource was made from: what
/// `Any::type_id` reports for the value behind it.
pub uninterp spec fn type_key(item: &dyn Resource) -> TypeId;

/// The erased form of `value`.
pub open spec fn erased<R: Resource>(value: R) -> Box<dyn Resource> {
    Box::new(value)
}

/// A value in its erased form, to be asked what it is.
pub struct Erased {
    pub item: Box<dyn Resource>,
}

/// Erases `value`: the result is `value` and no other, with its type
/// forgotten.
pub fn erase<R: Resource>(value: R) -> (e: Erased)
    ensures
        e.item == erased(value),
        e.item.carries(value),
{
    let item: Box<dyn Resource> = Box::new(value);
    Erased { item }
}

/// The identity of the type `R`.
pub open spec fn key_of<R: Resource>() -> TypeId {
    type_key(&*erased(arbitrary::<R>()))
}

/// `TypeId::of::<R>()`: the identity that every value of type `R` reports once
/// it is erased.
#[verifier::external_body]
pub(crate) fn type_id_of<R: Resource>() -> (id: TypeId)
    ensures
        forall|value: R| #[trigger] type_key(&*erased(value)) == id,
{
    TypeId::of::<R>()
}

/// `==` on two `TypeId`s: true exactly when they are the same identity.
#[verifier::external_body]
pub(crate) fn same_type(a: &TypeId, b: &TypeId) -> (same: bool)
    ensures
        same == (*a == *b),
{
    a == b
}

impl dyn Resource {
    /// `Any::type_id` on the value behind `self`.
    #[verifier::external_body]
    fn dynamic_type(&self) -> (id: TypeId)
        ensures
            id == type_key(self),
    {
        Any::type_id(self.as_any().inner)
    }

    /// `<dyn Any>::downcast_ref`, for a value known to be an `R`: the `R`
    /// behind `self`.
    #[verifier::external_body]
    fn cast_ref<R: Resource>(&self) -> (value: &R)
        requires
            type_key(self) == key_of::<R>(),
        ensures
            self.carries(*value),
            forall|other: R| #[trigger] self.carries(other) ==> other == *value,
    {
        self.as_any().inner.downcast_ref::<R>().unwrap()
    }

    /// `<dyn Any>::downcast_mut`, for a value known to be an `R`: the `R`
    /// behind `self`, which stays an `R` whatever is written through the
    /// reference.
    #[verifier::external_body]
    fn cast_mut<R: Resource>(&mut self) -> (value: &mut R)
        requires
            old(self).holds::<R>(),
        ensures
            old(self).carries(*value),
            forall|other: R| #[trigger] old(self).carries(other) ==> other == *value,
            final(self).carries(*final(value)),
    {
        self.as_any_mut().inner.downcast_mut::<R>().unwrap()
    }

    /// `Box<dyn Any>::downcast`, for a value known to be an `R`: the `R`
    /// behind `self`, in its box.
    #[verifier::external_body]
    fn cast_box<R: Resource>(self: Box<Self>) -> (value: Box<R>)
        requires
            type_key(&*self) == key_of::<R>(),
        ensures
            self.carries(*value),
            forall|other: R| #[trigger] self.carries(other) ==> other == *value,
    {
        self.into_any().inner.downcast::<R>().unwrap()
    }

    /// Whether `self` is the erased form of `value`.
    pub open spec fn carries<R: Resource>(&self, value: R) -> bool {
        &*erased(value) == self
    }

    /// Whether the value behind `self` is an `R`.
    pub open spec fn holds<R: Resource>(&self) -> bool {
        type_key(self) == key_of::<R>()
    }

    /// Whether the value behind `self` is an `R`: the two type identities
    /// are compared, and only the same type passes.
    pub fn is<R: Resource>(&self) -> (b: bool)
        ensures
            b == self.holds::<R>(),
            forall|value: R| #[trigger] self.carries(value) ==> b,
    {
        let want = type_id_of::<R>();
        let have = self.dynamic_type();
        same_type(&want, &have)
    }

    /// The `R` behind `self`, or nothing where `self` holds another type.
    pub fn downcast_ref<R: Resource>(&self) -> (r: Option<&R>)
        ensures
            r is Some <==> self.holds::<R>(),
            r matches Some(value) ==> self.carries(*value),
            forall|value: R| #[trigger] self.carries(value) ==> r == Some(&value),
    {
        if self.is::<R>() {
            Some(self.cast_ref::<R>())
        } else {
            None
        }
    }

    /// The `R` behind `self`, open to change, or nothing where `self` holds
    /// another type. What is written through the reference is what `self`
    /// holds afterwards.
    pub fn downcast_mut<R: Resource>(&mut self) -> (r: Option<&mut R>)
        ensures
            r is Some <==> old(self).holds::<R>(),
            r matches Some(value) ==> old(self).carries(*value),
            r matches Some(value) ==> final(self).carries(*final(value)),
            r is None ==> &*final(self) == &*old(self),
            forall|value: R| #[trigger]
                old(self).carries(value) ==> r is Some && *r->Some_0 == value,
    {
        if self.is::<R>() {
            Some(self.cast_mut::<R>())
        } else {
            None
        }
    }

    /// The `R` behind `self` in its box, or `self` handed back where it
    /// holds another type.
    pub fn downcast<R: Resource>(self: Box<Self>) -> (r: Result<Box<R>, Box<Self>>)
        ensures
            r is Ok <==> self.holds::<R>(),
            r matches Ok(value) ==> self.carries(*value),
            r matches Err(item) ==> item == self,
            forall|value: R| #[trigger]
                self.carries(value) ==> r == Ok::<Box<R>, Box<Self>>(Box::new(value)),
    {
        if self.is::<R>() {
            let value = self.cast_box::<R>();
            Ok(value)
        } else {
            let r = Err(self);
            r
        }
    }
}

} // verus!

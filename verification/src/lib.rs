//! An extension method on the standard `Into` trait that lets the caller name
//! the conversion's target type at the end of the expression, together with a
//! fallible counterpart for `TryInto` and the type-equality helper trait that
//! makes the generic signatures work.
use vstd::prelude::*;
use vstd::std_specs::convert::IntoSpec;
use vstd::std_specs::convert::TryIntoSpec;

pub mod prelude;

verus! {

/// Helper trait for type equality: `S == T` is written `S: TypeIsEqual<To = T>`.
///
/// The blanket implementation makes `T: TypeIsEqual<To = T>` hold for every
/// type, so the associated type `To` is a total, reflexive mapping from each
/// type to itself.
pub trait TypeIsEqual {
    /// The type that `Self` is asserted to be equal to.
    type To: ?Sized;
}

impl<T: ?Sized> TypeIsEqual for T {
    type To = Self;
}

/// Spec-level witness that the `TypeIsEqual` mapping is the identity: carries a
/// value from `<T as TypeIsEqual>::To` to `T` without changing it.
pub open spec fn type_eq_to<T>(val: <T as TypeIsEqual>::To) -> T {
    val
}

/// Carries a value of type `T` to the equal type `<T as TypeIsEqual>::To`
/// without changing it.
pub open spec fn type_eq_from<T>(val: T) -> <T as TypeIsEqual>::To {
    val
}

/// Executable no-op counterpart of [`type_eq_to`].
fn type_eq_cast<T>(val: <T as TypeIsEqual>::To) -> (r: T)
    ensures
        r == type_eq_to::<T>(val),
{
    val
}

/// Identity law: the type-equality mapping composed with itself is
/// indistinguishable from the identity on `X` — carrying a value across the
/// mapping twice, or there and back, leaves it unchanged.
pub proof fn lemma_type_eq_identity<X>(x: X)
    ensures
        type_eq_from::<X>(type_eq_from::<X>(x)) == x,
        type_eq_to::<X>(type_eq_from::<X>(x)) == x,
        type_eq_from::<X>(type_eq_to::<X>(x)) == x,
{
}

/// Extension trait for the `Into` trait, offering a method `.into_::<T>()` to
/// specify the target type of the conversion at the call site.
pub trait IntoExt<T_>: Into<T_> {
    /// Converts `self` into an explicitly named type `T`, which must be the
    /// type that the `Into` conversion produces; a mismatched `T` is a
    /// compile-time error. The result is exactly what `Into::into` returns:
    /// whenever the `Into` implementation obeys its specification, the result
    /// is that specification's value.
    ///
    /// The underscore at the end of the method name avoids a collision with
    /// `Into::into` and signals that a type parameter follows.
    fn into_<T>(self) -> (r: T) where T: TypeIsEqual<To = T_>
        ensures
            call_ensures(<Self as Into<T_>>::into, (self,), type_eq_from::<T>(r)),
            <Self as IntoSpec<T_>>::obeys_into_spec() ==> r == type_eq_to::<T>(
                <Self as IntoSpec<T_>>::into_spec(self),
            ),
    {
        type_eq_cast::<T>(self.into())
    }
}

impl<S, T_> IntoExt<T_> for S where S: Into<T_> {
}

/// Spec-level identity on a conversion outcome: carries a
/// `Result<<T as TypeIsEqual>::To, E>` to `Result<T, E>` without changing it.
pub open spec fn type_eq_result_to<T, E>(val: Result<<T as TypeIsEqual>::To, E>) -> Result<T, E> {
    val
}

/// Spec-level identity on a conversion outcome in the other direction:
/// carries a `Result<T, E>` to `Result<<T as TypeIsEqual>::To, E>` without
/// changing it.
pub open spec fn type_eq_result_from<T, E>(val: Result<T, E>) -> Result<
    <T as TypeIsEqual>::To,
    E,
> {
    val
}

/// Executable no-op counterpart of [`type_eq_result_to`].
fn type_eq_cast_result<T, E>(val: Result<<T as TypeIsEqual>::To, E>) -> (r: Result<T, E>)
    ensures
        r == type_eq_result_to::<T, E>(val),
{
    val
}

/// Extension trait for the `TryInto` trait, offering a method
/// `.try_into_::<T>()` to specify the target type of the conversion at the
/// call site.
pub trait TryIntoExt<T_>: TryInto<T_> {
    /// Attempts to convert `self` into an explicitly named type `T`, which
    /// must be the type that the `TryInto` conversion produces; a mismatched
    /// `T` is a compile-time error. The outcome is exactly what
    /// `TryInto::try_into` returns — the same success value on success and the
    /// same error value on failure: whenever the `TryInto` implementation
    /// obeys its specification, the outcome is that specification's value.
    ///
    /// The underscore at the end of the method name avoids a collision with
    /// `TryInto::try_into` and signals that a type parameter follows.
    fn try_into_<T>(self) -> (r: Result<T, <Self as TryInto<T_>>::Error>) where
        T: TypeIsEqual<To = T_>
        ensures
            call_ensures(
                <Self as TryInto<T_>>::try_into,
                (self,),
                type_eq_result_from::<T, <Self as TryInto<T_>>::Error>(r),
            ),
            <Self as TryIntoSpec<T_>>::obeys_try_into_spec() ==> r == type_eq_result_to::<
                T,
                <Self as TryInto<T_>>::Error,
            >(<Self as TryIntoSpec<T_>>::try_into_spec(self)),
    {
        type_eq_cast_result::<T, <Self as TryInto<T_>>::Error>(self.try_into())
    }
}

impl<S, T_> TryIntoExt<T_> for S where S: TryInto<T_> {
}

} // verus!

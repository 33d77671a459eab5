use vstd::prelude::*;
use vstd::std_specs::convert::IntoSpec;

verus! {

/// A variation of `From` having both input and output be `Box`-ed, allowing
/// implementations for unsized type parameters and following looser
/// guidelines. It is the reciprocal of [`MapBoxInto`].
///
/// Most guidelines applying to `From` and `Into` should also apply to
/// `MapBoxFrom` and `MapBoxInto`, with the exception that lossy conversions
/// are perfectly acceptable.
///
/// Beware that since implementations ported from `Into` are only implemented
/// for `Sized` types, they do not at all apply to unsized or `?Sized` type
/// parameters.
///
/// # Generic Implementations
///
/// - `MapBoxFrom<T> for U` implies [`MapBoxInto`]`<U> for T where T: ?Sized,
///   U: ?Sized`
/// - `impl<T, R> MapBoxFrom<T> for R where T: Into<R>`
///
/// # When to implement `MapBoxFrom`
///
/// Due to the blanket implementation when both input and output type
/// parameters are `Sized`, new implementations can only be added if one of
/// the type parameters is unsized, which can be tricky since support for
/// custom unsized types is limited in stable Rust. The implementation for
/// slices in this crate shows the shape of such an implementation.
///
/// # Specification
///
/// An implementation that sets [`obeys_map_box_from_spec`] promises that
/// [`map_box_from`] returns exactly [`map_box_from_spec`] of its input, so
/// callers can reason about the converted value.
///
/// [`obeys_map_box_from_spec`]: MapBoxFrom::obeys_map_box_from_spec
/// [`map_box_from_spec`]: MapBoxFrom::map_box_from_spec
/// [`map_box_from`]: MapBoxFrom::map_box_from
pub trait MapBoxFrom<T: ?Sized> {
    /// Holds when `map_box_from` is pinned down by `map_box_from_spec`.
    spec fn obeys_map_box_from_spec() -> bool;

    /// The value that `map_box_from` produces from `value`.
    spec fn map_box_from_spec(value: Box<T>) -> Box<Self>;

    /// Converts to this type from the input type.
    #[must_use]
    fn map_box_from(value: Box<T>) -> (result: Box<Self>)
        ensures
            Self::obeys_map_box_from_spec() ==> result == Self::map_box_from_spec(value),
    ;
}

/// The opposite of [`MapBoxFrom`]. See [`MapBoxFrom`] for more comprehensive
/// documentation.
///
/// Never implement this trait directly: it is supplied for every pair of
/// types with a `MapBoxFrom` implementation by an unconditional blanket
/// implementation, and that implementation forwards to
/// [`MapBoxFrom::map_box_from`] without introducing any transformation logic
/// of its own.
pub trait MapBoxInto<T: ?Sized> {
    /// Holds when `map_box_into` is pinned down by `map_box_into_spec`.
    spec fn obeys_map_box_into_spec() -> bool;

    /// The value that `map_box_into` produces from `this`.
    spec fn map_box_into_spec(this: Box<Self>) -> Box<T>;

    /// Converts this type into the (usually inferred) input type.
    #[must_use]
    fn map_box_into(self: Box<Self>) -> (result: Box<T>)
        ensures
            Self::obeys_map_box_into_spec() ==> result == Self::map_box_into_spec(self),
    ;
}

/// Moves a value out of its box.
///
/// Relies on `tap::Pipe::pipe`, which hands its receiver to the closure and
/// returns whatever the closure returns; the closure moves the boxed value
/// out of the box.
#[verifier::external_body]
fn unbox<T>(value: Box<T>) -> (result: T)
    ensures
        result == value,
{
    tap::Pipe::pipe(value, |boxed: Box<T>| *boxed)
}

impl<T: ?Sized, R: ?Sized> MapBoxInto<R> for T where R: MapBoxFrom<T> {
    open spec fn obeys_map_box_into_spec() -> bool {
        R::obeys_map_box_from_spec()
    }

    open spec fn map_box_into_spec(this: Box<T>) -> Box<R> {
        R::map_box_from_spec(this)
    }

    fn map_box_into(self: Box<Self>) -> (result: Box<R>) {
        R::map_box_from(self)
    }
}

impl<T, R> MapBoxFrom<T> for R where T: Into<R> {
    open spec fn obeys_map_box_from_spec() -> bool {
        T::obeys_into_spec()
    }

    open spec fn map_box_from_spec(value: Box<T>) -> Box<R> {
        Box::new(T::into_spec(*value))
    }

    fn map_box_from(value: Box<T>) -> (result: Box<R>) {
        let inner: T = unbox(value);
        let converted: R = inner.into();
        Box::new(converted)
    }
}

/// Boxes a vector's elements up as an owned slice.
///
/// Relies on `Vec::into_boxed_slice`: the resulting slice holds exactly the
/// vector's elements, in order.
#[verifier::external_body]
fn into_boxed_slice<T>(values: Vec<T>) -> (result: Box<[T]>)
    ensures
        result@ == values@,
{
    values.into_boxed_slice()
}

/// The identity conversion for an unsized type.
///
/// The blanket implementation derived from `Into` only covers `Sized` pairs,
/// so the identity conversion on a slice has to be written out; being able
/// to write it without colliding with that blanket implementation is the
/// point of the trait pair. It hands the box through unchanged.
impl<T> MapBoxFrom<[T]> for [T] {
    open spec fn obeys_map_box_from_spec() -> bool {
        true
    }

    open spec fn map_box_from_spec(value: Box<[T]>) -> Box<[T]> {
        value
    }

    fn map_box_from(value: Box<[T]>) -> (result: Box<[T]>) {
        value
    }
}

/// Lifts a sized value into unsized land as a boxed one-element slice.
pub fn lift<T>(value: T) -> (result: Box<[T]>)
    ensures
        result@ =~= seq![value],
{
    into_boxed_slice(vec![value])
}

/// Moves the single element of a boxed one-element slice back out.
pub fn into_sized<T>(value: Box<[T]>) -> (result: T)
    requires
        value@.len() == 1,
    ensures
        result == value@[0],
{
    let mut elements: Vec<T> = value.into_vec();
    elements.remove(0)
}

/// Duality law: the blanket `MapBoxInto` implementation introduces no
/// transformation logic of its own. For every pair of types with a
/// `MapBoxFrom` implementation, the derived `map_box_into` is specified by
/// exactly the specification of `map_box_from`, on every value.
pub proof fn lemma_map_box_into_is_map_box_from<T: ?Sized, R: MapBoxFrom<T> + ?Sized>(
    value: Box<T>,
)
    ensures
        <T as MapBoxInto<R>>::obeys_map_box_into_spec()
            == <R as MapBoxFrom<T>>::obeys_map_box_from_spec(),
        <T as MapBoxInto<R>>::map_box_into_spec(value)
            == <R as MapBoxFrom<T>>::map_box_from_spec(value),
{
}

/// Delegation law: for sized types the blanket `MapBoxFrom` implementation
/// adds nothing to the native conversion. Whenever `T: Into<R>`, converting
/// a boxed `T` is specified to yield a box holding exactly the value the
/// native `into` yields on the unboxed `T`.
pub proof fn lemma_map_box_from_delegates_to_into<T: Into<R>, R>(value: Box<T>)
    ensures
        <R as MapBoxFrom<T>>::obeys_map_box_from_spec() == T::obeys_into_spec(),
        <R as MapBoxFrom<T>>::map_box_from_spec(value) == Box::new(T::into_spec(*value)),
{
}

} // verus!

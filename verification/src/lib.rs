//! Boxed versions of the standard `From` and `Into` traits, allowing
//! implementations for unsized type parameters and following looser
//! guidelines.
//!
//! Because of the invasiveness of the identity conversion implementation
//! `impl<T> From<T> for T`, and the lack of negative trait implementations,
//! some conversion implementations such as `impl<T> From<T> for Unit` or
//! `impl<T> From<T> for NewType<T>` cannot be written in stable Rust. This
//! crate provides [`MapBoxFrom`] and [`MapBoxInto`], a fresh pair of
//! conversion traits that operate on [`Box`] so that unsized type parameters
//! can take part. All existing `Into` implementations are mapped into
//! `MapBoxFrom` implementations, but unsized type parameters are untouched:
//! users are free to add implementations for them without conflicting with
//! the blanket implementations in `Sized` land.
//!
//! Each trait carries a specification function naming the value the
//! conversion produces, so a caller can reason about what a particular
//! implementation returns; the blanket implementations are verified to
//! forward faithfully.
//!
//! `TryMapBoxFrom` and `TryMapBoxInto` are deliberately absent: both
//! conversion operations are total, with no failure channel.
//!
//! [`MapBoxFrom`]: convert::MapBoxFrom
//! [`MapBoxInto`]: convert::MapBoxInto

/// Traits for defining conversions between `Box` type parameters.
pub mod convert;

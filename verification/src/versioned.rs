//! The migration contracts and the format adapter built on them.
//!
//! A historical shape knows how to become the current type; the current type
//! knows its version union. On top of the two, a value is written through
//! any encoder and read back through any decoder, with the two ways of
//! failing kept apart.

use vstd::prelude::*;
use crate::error::{FormatError, VersionConversionError};

verus! {

/// The migration edge of one slot: its shape becomes the current type `T`.
pub trait FromVersion<T>: Sized {
    /// Turns this value into the current type.
    fn convert(self) -> T;
}

/// Whether `outcome` is what the migration of one slot gives for `payload`:
/// the answer of that slot's own edge, as a success.
pub open spec fn is_slot_migration<S: FromVersion<T>, T, C>(
    payload: S,
    outcome: Result<T, VersionConversionError<C>>,
) -> bool {
    exists|value: T|
        call_ensures(S::convert, (payload,), value) && outcome == Ok::<
            T,
            VersionConversionError<C>,
        >(value)
}

/// Migrates the payload of one slot: it goes through the edge of its own
/// slot, once, and what the edge gives is the current value. Every arm of a
/// generated migration is one call of this.
pub fn migrate_slot<S: FromVersion<T>, T, C>(payload: S) -> (outcome: Result<
    T,
    VersionConversionError<C>,
>)
    ensures
        is_slot_migration::<S, T, C>(payload, outcome),
{
    let edge = S::convert;
    Ok(edge(payload))
}

/// What encoding gives once the codec has answered: its text, or its error
/// as an encoding failure.
pub open spec fn encoding_result<E, C>(outcome: Result<String, E>) -> Result<
    String,
    FormatError<E, C>,
> {
    match outcome {
        Ok(text) => Ok(text),
        Err(error) => Err(FormatError::Serialize(error)),
    }
}

/// What migration gives once the edge has answered: the current value, or
/// the edge's error as a conversion failure.
pub open spec fn migration_result<T, E, C>(
    outcome: Result<T, VersionConversionError<C>>,
) -> Result<T, FormatError<E, C>> {
    match outcome {
        Ok(value) => Ok(value),
        Err(error) => Err(FormatError::VersionConversion(error)),
    }
}

/// Whether `failure` is the decoding failure with the codec's error `error`
/// on the input `input`.
pub open spec fn is_decoding_failure<T, E, C>(
    failure: Result<T, FormatError<E, C>>,
    error: E,
    input: Seq<char>,
) -> bool {
    failure matches Err(FormatError::Deserialize { error: e, input: Some(raw) }) && e == error
        && raw@ == input
}

/// Whether `written` is what writing `value` may give, where `project` is
/// the projection into the union and `encode` the encoder: the encoder's
/// answer to the projection of `value`, an error of it as an encoding
/// failure.
pub open spec fn is_written<T, U, E, C, P, F>(
    project: P,
    value: &T,
    encode: F,
    written: Result<String, FormatError<E, C>>,
) -> bool where P: FnOnce(&T) -> U, F: FnOnce(&U) -> Result<String, E> {
    exists|union: U, outcome: Result<String, E>|
        call_ensures(project, (value,), union) && call_ensures(encode, (&union,), outcome)
            && written == encoding_result::<E, C>(outcome)
}

/// Whether `read` is what reading `input` may give, where `decode` is the
/// decoder and `migrate` the migration of the union: a decoding failure
/// with the input where the decoder fails, else the answer of the migration
/// to what was decoded, an error of it as a conversion failure.
pub open spec fn is_read<'a, T, U, E, C, M, F>(
    migrate: M,
    input: &'a str,
    decode: F,
    read: Result<T, FormatError<E, C>>,
) -> bool where
    M: FnOnce(U) -> Result<T, VersionConversionError<C>>,
    F: FnOnce(&'a str) -> Result<U, E>,
{
    exists|decoded: Result<U, E>|
        call_ensures(decode, (input,), decoded) && match decoded {
            Err(error) => is_decoding_failure(read, error, input@),
            Ok(union) => exists|outcome: Result<T, VersionConversionError<C>>|
                call_ensures(migrate, (union,), outcome) && read == migration_result::<T, E, C>(
                    outcome,
                ),
        }
}

/// Wraps the codec's answer to an encoding: the text as it is, an error as
/// an encoding failure.
pub fn finish_encoding<E, C>(outcome: Result<String, E>) -> (finished: Result<
    String,
    FormatError<E, C>,
>)
    ensures
        finished == encoding_result::<E, C>(outcome),
{
    match outcome {
        Ok(text) => Ok(text),
        Err(error) => Err(FormatError::Serialize(error)),
    }
}

/// Wraps a migration edge's answer: the value as it is, an error as a
/// conversion failure, never as a decoding failure.
pub fn finish_migration<T, E, C>(outcome: Result<T, VersionConversionError<C>>) -> (finished:
    Result<T, FormatError<E, C>>)
    ensures
        finished == migration_result::<T, E, C>(outcome),
{
    match outcome {
        Ok(value) => Ok(value),
        Err(error) => Err(FormatError::VersionConversion(error)),
    }
}

/// A current type with a version union.
pub trait Versioned: Sized {
    /// The closed union over all declared slots.
    type VersionEnum;

    /// The cause that a failed migration carries.
    type Cause;

    /// Migrates a union value into the current type through the edge of its
    /// own slot.
    fn from_version(version: Self::VersionEnum) -> Result<
        Self,
        VersionConversionError<Self::Cause>,
    >;

    /// Projects this value into the variant of the last slot.
    fn to_version(&self) -> Self::VersionEnum;

    /// The identifier of the slot of a union value; nothing is migrated.
    fn extract_version_string(version: &Self::VersionEnum) -> String;

    /// Writes this value through `encode`: the value is projected into the
    /// last slot, and the projection is what the encoder gets.
    fn to_format<E, F>(&self, encode: F) -> (written: Result<String, FormatError<E, Self::Cause>>)
        where F: FnOnce(&Self::VersionEnum) -> Result<String, E>
        requires
            forall|union: Self::VersionEnum|
                call_ensures(Self::to_version, (self,), union) ==> call_requires(
                    encode,
                    (&union,),
                ),
        ensures
            is_written(Self::to_version, self, encode, written),
    {
        let project = Self::to_version;
        let union = project(self);
        let outcome = encode(&union);
        finish_encoding(outcome)
    }

    /// Reads a value through `decode`: the input is decoded into the union,
    /// and the union is migrated. A failure of the decoder is a decoding
    /// failure that carries the input, and no migration is tried; a failure
    /// of the migration is a conversion failure.
    fn from_format<'a, E, F>(input: &'a str, decode: F) -> (read: Result<
        Self,
        FormatError<E, Self::Cause>,
    >)
        where F: FnOnce(&'a str) -> Result<Self::VersionEnum, E>
        requires
            call_requires(decode, (input,)),
        ensures
            is_read(Self::from_version, input, decode, read),
    {
        let decoded = decode(input);
        match decoded {
            Err(error) => Err(
                FormatError::Deserialize { error, input: Some(String::from_str(input)) },
            ),
            Ok(union) => {
                let migrate = Self::from_version;
                let outcome = migrate(union);
                finish_migration(outcome)
            },
        }
    }
}

} // verus!

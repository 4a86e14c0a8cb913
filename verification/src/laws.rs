//! What holds of every versioned round trip, whatever the schema and the
//! codec.

use vstd::prelude::*;
use crate::error::{FormatError, VersionConversionError};
use crate::versioned::{
    is_decoding_failure, is_read, is_slot_migration, is_written, migration_result, FromVersion,
    Versioned,
};

verus! {

/// Whether migrating the projection of `value` gives `value` back.
pub open spec fn survives_migration<T: Versioned>(value: T) -> bool {
    forall|union: T::VersionEnum, outcome: Result<T, VersionConversionError<T::Cause>>|
        call_ensures(T::to_version, (&value,), union) && #[trigger] call_ensures(
            T::from_version,
            (union,),
            outcome,
        ) ==> outcome == Ok::<T, VersionConversionError<T::Cause>>(value)
}

/// Whether `decode` reads back every union value from the text that
/// `encode` writes for it.
pub open spec fn decoder_inverts<
    'a,
    T: Versioned,
    E,
    D,
    F: FnOnce(&T::VersionEnum) -> Result<String, E>,
    G: FnOnce(&'a str) -> Result<T::VersionEnum, D>,
>(encode: F, decode: G) -> bool {
    forall|union: T::VersionEnum, text: String, input: &'a str, decoded: Result<T::VersionEnum, D>|
        #[trigger] call_ensures(encode, (&union,), Ok::<String, E>(text)) && input@ == text@
            && #[trigger] call_ensures(decode, (input,), decoded) ==> decoded == Ok::<
            T::VersionEnum,
            D,
        >(union)
}

/// Whether `decode` fails on `input`, whatever else it may do.
pub open spec fn decoder_rejects<'a, U, D, G: FnOnce(&'a str) -> Result<U, D>>(
    decode: G,
    input: &'a str,
) -> bool {
    forall|decoded: Result<U, D>| #[trigger]
        call_ensures(decode, (input,), decoded) ==> decoded is Err
}

/// A value that survives its own migration also survives the trip through
/// any codec whose decoder inverts its encoder: reading back what was
/// written gives the value.
pub proof fn law_format_round_trip<
    'a,
    T: Versioned,
    E,
    D,
    F: FnOnce(&T::VersionEnum) -> Result<String, E>,
    G: FnOnce(&'a str) -> Result<T::VersionEnum, D>,
>(value: T, encode: F, decode: G, text: String, input: &'a str, read: Result<T, FormatError<D, T::Cause>>)
    requires
        survives_migration(value),
        decoder_inverts::<T, E, D, F, G>(encode, decode),
        is_written(
            T::to_version,
            &value,
            encode,
            Ok::<String, FormatError<E, T::Cause>>(text),
        ),
        input@ == text@,
        is_read(T::from_version, input, decode, read),
    ensures
        read == Ok::<T, FormatError<D, T::Cause>>(value),
{
}

/// Input that the decoder rejects, be it malformed or tagged with a slot
/// that does not exist, fails as a decoding failure that carries the input
/// and the decoder's own error: it never reads as a value, an encoding
/// failure or a conversion failure.
pub proof fn law_rejected_input_is_decoding_failure<
    'a,
    T: Versioned,
    D,
    G: FnOnce(&'a str) -> Result<T::VersionEnum, D>,
>(input: &'a str, decode: G, read: Result<T, FormatError<D, T::Cause>>)
    requires
        decoder_rejects(decode, input),
        is_read(T::from_version, input, decode, read),
    ensures
        exists|error: D|
            call_ensures(decode, (input,), Err::<T::VersionEnum, D>(error)) && is_decoding_failure(
                read,
                error,
                input@,
            ),
        read matches Err(failure) && failure is Deserialize && !(failure is VersionConversion)
            && !(failure is Serialize),
{
}

/// Input that decodes never fails as a decoding failure: what comes back is
/// the migrated value or a conversion failure.
pub proof fn law_decoded_input_is_migrated<
    'a,
    T: Versioned,
    D,
    G: FnOnce(&'a str) -> Result<T::VersionEnum, D>,
>(input: &'a str, decode: G, read: Result<T, FormatError<D, T::Cause>>)
    requires
        forall|decoded: Result<T::VersionEnum, D>| #[trigger]
            call_ensures(decode, (input,), decoded) ==> decoded is Ok,
        is_read(T::from_version, input, decode, read),
    ensures
        read matches Err(failure) ==> failure is VersionConversion,
{
}

/// Whether the projection of `T` is of the generated form: it copies the
/// current value into the shape `S` of the last slot and wraps the copy in
/// the variant of that slot.
pub open spec fn projects_as<T: Versioned, S>(
    copy: spec_fn(T) -> S,
    wrap: spec_fn(S) -> T::VersionEnum,
) -> bool {
    forall|value: T, union: T::VersionEnum| #[trigger]
        call_ensures(T::to_version, (&value,), union) ==> union == wrap(copy(value))
}

/// Whether the migration of `T` dispatches the variant `wrap` as generated:
/// the payload of that variant goes through the edge of its own shape `S`,
/// and through no other.
pub open spec fn dispatches<T: Versioned, S: FromVersion<T>>(
    wrap: spec_fn(S) -> T::VersionEnum,
) -> bool {
    forall|payload: S, outcome: Result<T, VersionConversionError<T::Cause>>| #[trigger]
        call_ensures(T::from_version, (wrap(payload),), outcome) ==> is_slot_migration::<
            S,
            T,
            T::Cause,
        >(payload, outcome)
}

/// Whether the edge of the shape `S` gives `value` back from its copy.
pub open spec fn copies_back<T, S: FromVersion<T>>(copy: spec_fn(T) -> S, value: T) -> bool {
    forall|back: T| #[trigger] call_ensures(S::convert, (copy(value),), back) ==> back == value
}

/// Under an impl of the generated form, a value survives its own migration
/// whenever the edge of the last slot gives it back from its copy:
/// migrating the projection of the value gives the value.
pub proof fn law_generated_round_trip<T: Versioned, S: FromVersion<T>>(
    value: T,
    copy: spec_fn(T) -> S,
    wrap: spec_fn(S) -> T::VersionEnum,
)
    requires
        projects_as::<T, S>(copy, wrap),
        dispatches::<T, S>(wrap),
        copies_back::<T, S>(copy, value),
    ensures
        survives_migration(value),
{
    assert forall|union: T::VersionEnum, outcome: Result<T, VersionConversionError<T::Cause>>|
        call_ensures(T::to_version, (&value,), union) && #[trigger] call_ensures(
            T::from_version,
            (union,),
            outcome,
        ) implies outcome == Ok::<T, VersionConversionError<T::Cause>>(value) by {
        assert(union == wrap(copy(value)));
        assert(call_ensures(T::from_version, (wrap(copy(value)),), outcome));
        assert(is_slot_migration::<S, T, T::Cause>(copy(value), outcome));
    }
}

/// Under an impl of the generated form whose last edge gives a value back
/// from its copy, the value survives the trip through any codec whose
/// decoder inverts its encoder: reading back what was written gives the
/// value.
pub proof fn law_generated_format_round_trip<
    'a,
    T: Versioned,
    S: FromVersion<T>,
    E,
    D,
    F: FnOnce(&T::VersionEnum) -> Result<String, E>,
    G: FnOnce(&'a str) -> Result<T::VersionEnum, D>,
>(
    value: T,
    copy: spec_fn(T) -> S,
    wrap: spec_fn(S) -> T::VersionEnum,
    encode: F,
    decode: G,
    text: String,
    input: &'a str,
    read: Result<T, FormatError<D, T::Cause>>,
)
    requires
        projects_as::<T, S>(copy, wrap),
        dispatches::<T, S>(wrap),
        copies_back::<T, S>(copy, value),
        decoder_inverts::<T, E, D, F, G>(encode, decode),
        is_written(
            T::to_version,
            &value,
            encode,
            Ok::<String, FormatError<E, T::Cause>>(text),
        ),
        input@ == text@,
        is_read(T::from_version, input, decode, read),
    ensures
        read == Ok::<T, FormatError<D, T::Cause>>(value),
{
    law_generated_round_trip::<T, S>(value, copy, wrap);
    law_format_round_trip::<T, E, D, F, G>(value, encode, decode, text, input, read);
}

/// Under an impl that dispatches the variant `wrap` as generated, input
/// that decodes to a payload of that variant reads as what the edge of the
/// payload's own shape gives: whatever the shape lacks is filled in by its
/// edge, and is no decoding failure.
pub proof fn law_slot_is_read_through_its_own_edge<
    'a,
    T: Versioned,
    S: FromVersion<T>,
    D,
    G: FnOnce(&'a str) -> Result<T::VersionEnum, D>,
>(
    input: &'a str,
    decode: G,
    payload: S,
    wrap: spec_fn(S) -> T::VersionEnum,
    read: Result<T, FormatError<D, T::Cause>>,
)
    requires
        dispatches::<T, S>(wrap),
        forall|decoded: Result<T::VersionEnum, D>| #[trigger]
            call_ensures(decode, (input,), decoded) ==> decoded == Ok::<T::VersionEnum, D>(
                wrap(payload),
            ),
        is_read(T::from_version, input, decode, read),
    ensures
        exists|value: T|
            call_ensures(S::convert, (payload,), value) && read == Ok::<
                T,
                FormatError<D, T::Cause>,
            >(value),
{
    let decoded = choose|decoded: Result<T::VersionEnum, D>|
        call_ensures(decode, (input,), decoded) && match decoded {
            Err(error) => is_decoding_failure(read, error, input@),
            Ok(union) => exists|outcome: Result<T, VersionConversionError<T::Cause>>|
                call_ensures(T::from_version, (union,), outcome) && read
                    == migration_result::<T, D, T::Cause>(outcome),
        };
    assert(decoded == Ok::<T::VersionEnum, D>(wrap(payload)));
    let outcome = choose|outcome: Result<T, VersionConversionError<T::Cause>>|
        call_ensures(T::from_version, (wrap(payload),), outcome) && read
            == migration_result::<T, D, T::Cause>(outcome);
    assert(is_slot_migration::<S, T, T::Cause>(payload, outcome));
}

} // verus!

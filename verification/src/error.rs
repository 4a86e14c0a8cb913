//! The two ways a versioned round trip can fail: the codec could not read or
//! write the union, or a decoded slot could not be migrated.

use vstd::prelude::*;

verus! {

/// A slot's value could not be migrated into the current type.
#[derive(Debug)]
pub struct VersionConversionError<C> {
    /// The identifier of the slot that the value came from.
    pub version: String,
    /// What went wrong underneath.
    pub source: C,
    /// A note on where in a longer migration the failure happened.
    pub context: Option<String>,
}

/// The text of a conversion failure: the slot, the note where there is one,
/// and the cause.
pub open spec fn conversion_text(
    version: Seq<char>,
    cause: Seq<char>,
    context: Option<Seq<char>>,
) -> Seq<char> {
    match context {
        Some(note) => "Failed to convert from version "@ + version + " ("@ + note + "): "@ + cause,
        None => "Failed to convert from version "@ + version + ": "@ + cause,
    }
}

/// The view of an optional text.
pub open spec fn note_view(note: Option<String>) -> Option<Seq<char>> {
    match note {
        Some(text) => Some(text@),
        None => None,
    }
}

impl<C> VersionConversionError<C> {
    /// A conversion failure of slot `version` with the cause `source`.
    pub fn new(version: &str, source: C) -> (error: Self)
        ensures
            error.version@ == version@,
            error.source == source,
            error.context is None,
    {
        VersionConversionError { version: String::from_str(version), source, context: None }
    }

    /// A conversion failure of slot `version` with the cause `source` and a
    /// note on where it happened.
    pub fn with_context(version: &str, source: C, context: &str) -> (error: Self)
        ensures
            error.version@ == version@,
            error.source == source,
            note_view(error.context) == Some(context@),
    {
        VersionConversionError {
            version: String::from_str(version),
            source,
            context: Some(String::from_str(context)),
        }
    }

    /// The identifier of the slot that the value came from.
    pub fn version(&self) -> (version: &str)
        ensures
            version@ == self.version@,
    {
        self.version.as_str()
    }

    /// The note on where the failure happened, if one was given.
    pub fn context(&self) -> (context: Option<&str>)
        ensures
            match context {
                Some(note) => note_view(self.context) == Some(note@),
                None => self.context is None,
            },
    {
        match &self.context {
            Some(note) => Some(note.as_str()),
            None => None,
        }
    }

    /// The immediate cause.
    pub fn source(&self) -> (cause: Option<&C>)
        ensures
            cause == Some(&self.source),
    {
        Some(&self.source)
    }

    /// The text of this failure around the text `cause` of its cause.
    pub fn describe(&self, cause: &str) -> (text: String)
        ensures
            text@ == conversion_text(self.version@, cause@, note_view(self.context)),
    {
        let mut text = String::from_str("Failed to convert from version ");
        text.append(self.version.as_str());
        match &self.context {
            Some(note) => {
                text.append(" (");
                text.append(note.as_str());
                text.append("): ");
            },
            None => {
                text.append(": ");
            },
        }
        text.append(cause);
        assert(text@ =~= conversion_text(self.version@, cause@, note_view(self.context)));
        text
    }
}

impl<C: std::fmt::Display> VersionConversionError<C> {
    /// The text of this failure, with the cause written as it displays
    /// itself.
    pub fn to_string(&self) -> (text: String)
        ensures
            exists|cause: String|
                vstd::string::to_string_from_display_ensures::<C>(&self.source, cause) && text@
                    == conversion_text(self.version@, cause@, note_view(self.context)),
    {
        let cause = self.source.to_string();
        self.describe(cause.as_str())
    }
}

/// A versioned round trip failed.
#[derive(Debug)]
pub enum FormatError<E, C> {
    /// The codec could not encode the union.
    Serialize(E),
    /// The codec could not decode the input into the union.
    Deserialize {
        /// The codec's error.
        error: E,
        /// The input that failed to decode, where it is at hand.
        input: Option<String>,
    },
    /// The input decoded, and the decoded slot could not be migrated.
    VersionConversion(VersionConversionError<C>),
}

/// The immediate cause of a failed round trip.
#[derive(Debug)]
pub enum FormatErrorSource<'a, E, C> {
    /// The codec's own error.
    Codec(&'a E),
    /// The failed migration.
    Conversion(&'a VersionConversionError<C>),
}

/// The text of an encoding failure around the text of the codec's error.
pub open spec fn serialize_text(cause: Seq<char>) -> Seq<char> {
    "Serialization error: "@ + cause
}

/// The text of a decoding failure around the text of the codec's error,
/// with the input where it is at hand.
pub open spec fn deserialize_text(cause: Seq<char>, input: Option<Seq<char>>) -> Seq<char> {
    match input {
        Some(raw) => "Deserialization error: "@ + cause + " (input: "@ + raw + ")"@,
        None => "Deserialization error: "@ + cause,
    }
}

/// The text of a migration failure around the text of the conversion
/// failure.
pub open spec fn migration_text(cause: Seq<char>) -> Seq<char> {
    "Version conversion error: "@ + cause
}

impl<E, C> FormatError<E, C> {
    /// An encoding failure with the codec's error.
    pub fn serialize(error: E) -> (failure: Self)
        ensures
            failure == FormatError::<E, C>::Serialize(error),
    {
        FormatError::Serialize(error)
    }

    /// A decoding failure with the codec's error and, where it is at hand,
    /// the input that failed to decode.
    pub fn deserialize(error: E, input: Option<String>) -> (failure: Self)
        ensures
            failure == (FormatError::<E, C>::Deserialize { error, input }),
    {
        FormatError::Deserialize { error, input }
    }

    /// Whether the codec failed to encode.
    pub fn is_serialize(&self) -> (yes: bool)
        ensures
            yes == (self is Serialize),
    {
        match self {
            FormatError::Serialize(_) => true,
            _ => false,
        }
    }

    /// Whether the codec failed to decode.
    pub fn is_deserialize(&self) -> (yes: bool)
        ensures
            yes == (self is Deserialize),
    {
        match self {
            FormatError::Deserialize { .. } => true,
            _ => false,
        }
    }

    /// Whether a decoded slot failed to migrate.
    pub fn is_version_conversion(&self) -> (yes: bool)
        ensures
            yes == (self is VersionConversion),
    {
        match self {
            FormatError::VersionConversion(_) => true,
            _ => false,
        }
    }

    /// The immediate cause: the codec's error, or the failed migration.
    pub fn source(&self) -> (cause: Option<FormatErrorSource<'_, E, C>>)
        ensures
            match *self {
                FormatError::Serialize(error) => cause matches Some(FormatErrorSource::Codec(e))
                    && *e == error,
                FormatError::Deserialize { error, input } => cause matches Some(
                    FormatErrorSource::Codec(e),
                ) && *e == error,
                FormatError::VersionConversion(error) => cause matches Some(
                    FormatErrorSource::Conversion(e),
                ) && *e == error,
            },
    {
        match self {
            FormatError::Serialize(error) => Some(FormatErrorSource::Codec(error)),
            FormatError::Deserialize { error, .. } => Some(FormatErrorSource::Codec(error)),
            FormatError::VersionConversion(error) => Some(FormatErrorSource::Conversion(error)),
        }
    }
}

impl<E: std::fmt::Display, C: std::fmt::Display> FormatError<E, C> {
    /// The text of this failure, with the codec's error or the cause of the
    /// failed migration written as it displays itself.
    pub fn to_string(&self) -> (text: String)
        ensures
            match *self {
                FormatError::Serialize(error) => exists|cause: String|
                    vstd::string::to_string_from_display_ensures::<E>(&error, cause) && text@
                        == serialize_text(cause@),
                FormatError::Deserialize { error, input } => exists|cause: String|
                    vstd::string::to_string_from_display_ensures::<E>(&error, cause) && text@
                        == deserialize_text(cause@, note_view(input)),
                FormatError::VersionConversion(error) => exists|cause: String|
                    vstd::string::to_string_from_display_ensures::<C>(&error.source, cause)
                        && text@ == migration_text(
                        conversion_text(error.version@, cause@, note_view(error.context)),
                    ),
            },
    {
        match self {
            FormatError::Serialize(error) => {
                let cause = error.to_string();
                let mut text = String::from_str("Serialization error: ");
                text.append(cause.as_str());
                text
            },
            FormatError::Deserialize { error, input } => {
                let cause = error.to_string();
                let mut text = String::from_str("Deserialization error: ");
                text.append(cause.as_str());
                match input {
                    Some(raw) => {
                        text.append(" (input: ");
                        text.append(raw.as_str());
                        text.append(")");
                    },
                    None => {},
                }
                assert(text@ =~= deserialize_text(cause@, note_view(*input)));
                text
            },
            FormatError::VersionConversion(error) => {
                let cause = error.source.to_string();
                let inner = error.describe(cause.as_str());
                let mut text = String::from_str("Version conversion error: ");
                text.append(inner.as_str());
                text
            },
        }
    }
}

} // verus!

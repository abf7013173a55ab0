use vstd::prelude::*;
use vstd::string::StringExecFns;

verus! {

/// Why a decode failed.  Every failure aborts the whole decode: no partial
/// subscription is ever produced.
#[derive(Debug, Clone, PartialEq, Eq)]
pub enum DecodeError {
    /// The text is not well-formed structured data.
    MalformedInput,
    /// The root value is not a sequence.
    NotASequence,
    /// The sequence has fewer than three elements.
    TooFewElements,
    /// The first element is not a string.
    NotAString,
    /// The first element is a string other than the command literal.
    UnexpectedCommand,
    /// The second element is not a string.
    MissingSubscriptionId,
    /// A filter object holds the named key, which is outside the schema.
    UnknownField(String),
    /// The named key is recognized, but its value has the wrong shape.  The
    /// empty name stands for a filter element that is not a record at all.
    InvalidFieldType(String),
}

/// Spec-level image of `DecodeError`, with the offending key as a character
/// sequence.
pub enum ErrorModel {
    MalformedInput,
    NotASequence,
    TooFewElements,
    NotAString,
    UnexpectedCommand,
    MissingSubscriptionId,
    UnknownField(Seq<char>),
    InvalidFieldType(Seq<char>),
}

impl View for DecodeError {
    type V = ErrorModel;

    open spec fn view(&self) -> ErrorModel {
        match self {
            DecodeError::MalformedInput => ErrorModel::MalformedInput,
            DecodeError::NotASequence => ErrorModel::NotASequence,
            DecodeError::TooFewElements => ErrorModel::TooFewElements,
            DecodeError::NotAString => ErrorModel::NotAString,
            DecodeError::UnexpectedCommand => ErrorModel::UnexpectedCommand,
            DecodeError::MissingSubscriptionId => ErrorModel::MissingSubscriptionId,
            DecodeError::UnknownField(k) => ErrorModel::UnknownField(k@),
            DecodeError::InvalidFieldType(k) => ErrorModel::InvalidFieldType(k@),
        }
    }
}

/// What `message` returns for each error.
pub open spec fn spec_message(e: ErrorModel) -> Seq<char> {
    match e {
        ErrorModel::MalformedInput => "malformed input"@,
        ErrorModel::NotASequence => "not a sequence"@,
        ErrorModel::TooFewElements => "not enough elements"@,
        ErrorModel::NotAString => "first element is not a string"@,
        ErrorModel::UnexpectedCommand => "missing REQ command"@,
        ErrorModel::MissingSubscriptionId => "missing subscription id"@,
        ErrorModel::UnknownField(k) => "unknown field: "@ + k,
        ErrorModel::InvalidFieldType(k) => "invalid type for field: "@ + k,
    }
}

impl DecodeError {
    /// A human-readable description of the failure.
    pub fn message(&self) -> (r: String)
        ensures
            r@ == spec_message(self@),
    {
        match self {
            DecodeError::MalformedInput => String::from_str("malformed input"),
            DecodeError::NotASequence => String::from_str("not a sequence"),
            DecodeError::TooFewElements => String::from_str("not enough elements"),
            DecodeError::NotAString => String::from_str("first element is not a string"),
            DecodeError::UnexpectedCommand => String::from_str("missing REQ command"),
            DecodeError::MissingSubscriptionId => String::from_str("missing subscription id"),
            DecodeError::UnknownField(k) => {
                let mut s = String::from_str("unknown field: ");
                s.append(k.as_str());
                s
            },
            DecodeError::InvalidFieldType(k) => {
                let mut s = String::from_str("invalid type for field: ");
                s.append(k.as_str());
                s
            },
        }
    }
}

} // verus!

//! Errors of the protobuf conversions, and their mathematical view.

use vstd::prelude::*;

verus! {

/// Why a protobuf message could not be turned into a value, or back.
#[derive(Debug, Clone, PartialEq, Eq)]
pub enum ProtoError {
    /// The wire bytes do not form a message of the expected kind.
    Decode(String),
    /// The message could not be written out.
    Encode(String),
    /// A field that the value needs is absent from the message.
    MissingField { type_url: String, field: &'static str },
    /// A field of the message holds data that the value cannot take.
    InvalidData { type_url: String, field: &'static str },
    /// The message names a kind that is not known.
    UnknownMessageType { type_url: String },
    /// Any other failure, with its description.
    Other(String),
}

/// The mathematical content of a [`ProtoError`]: each string is taken by its characters.
pub enum ProtoErrorView {
    Decode(Seq<char>),
    Encode(Seq<char>),
    MissingField { type_url: Seq<char>, field: Seq<char> },
    InvalidData { type_url: Seq<char>, field: Seq<char> },
    UnknownMessageType { type_url: Seq<char> },
    Other(Seq<char>),
}

impl View for ProtoError {
    type V = ProtoErrorView;

    open spec fn view(&self) -> ProtoErrorView {
        match self {
            ProtoError::Decode(s) => ProtoErrorView::Decode(s@),
            ProtoError::Encode(s) => ProtoErrorView::Encode(s@),
            ProtoError::MissingField { type_url, field } => ProtoErrorView::MissingField {
                type_url: type_url@,
                field: field@,
            },
            ProtoError::InvalidData { type_url, field } => ProtoErrorView::InvalidData {
                type_url: type_url@,
                field: field@,
            },
            ProtoError::UnknownMessageType { type_url } => ProtoErrorView::UnknownMessageType {
                type_url: type_url@,
            },
            ProtoError::Other(s) => ProtoErrorView::Other(s@),
        }
    }
}

/// The error that reports `field` absent from the message named `type_url`.
pub open spec fn missing(type_url: &str, field: &str) -> ProtoErrorView {
    ProtoErrorView::MissingField { type_url: type_url@, field: field@ }
}

/// The error that carries the description `message`.
pub open spec fn other(message: &str) -> ProtoErrorView {
    ProtoErrorView::Other(message@)
}

/// A result whose error is taken by its view; the success value is kept as it is.
pub open spec fn result_view<T>(r: Result<T, ProtoError>) -> Result<T, ProtoErrorView> {
    match r {
        Ok(v) => Ok(v),
        Err(e) => Err(e@),
    }
}

/// A result taken by its views on both sides.
pub open spec fn result_deep_view<T: View>(r: Result<T, ProtoError>) -> Result<T::V, ProtoErrorView> {
    match r {
        Ok(v) => Ok(v@),
        Err(e) => Err(e@),
    }
}

/// Builds the error that reports `field` absent from the message named `type_url`.
pub fn missing_field(type_url: &str, field: &'static str) -> (e: ProtoError)
    ensures
        e@ == missing(type_url, field),
{
    ProtoError::MissingField { type_url: type_url.to_owned(), field }
}

/// Builds the error that carries the description `message`.
pub fn other_error(message: &str) -> (e: ProtoError)
    ensures
        e@ == other(message),
{
    ProtoError::Other(message.to_owned())
}

} // verus!

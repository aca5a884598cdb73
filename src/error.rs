//! Errors of a topic query and of status decoding.
use vstd::prelude::*;

use crate::topic::{Response, ResponseView};

verus! {

/// The typed parse that a status value failed.
#[derive(PartialEq, Eq, Structural, Clone, Copy, Debug)]
pub enum ValueKind {
    /// A base-10 unsigned 32-bit integer.
    Integer,
    /// A base-10 32-bit float.
    Float,
}

/// The enumeration that a status value failed to name.
#[derive(PartialEq, Eq, Structural, Clone, Copy, Debug)]
pub enum EnumKind {
    GameState,
    SecurityLevel,
    ShuttleMode,
}

/// Why a topic query or the decoding of its reply failed.
#[derive(PartialEq, Eq, Debug)]
pub enum Error {
    /// The connection did not complete in time.
    Timeout,
    /// Any other transport failure, with its description.
    Io(String),
    /// The query is too long for the request frame's length byte; nothing was sent.
    QueryTooLong,
    /// The reply was framed but broke the protocol's shape.
    InvalidResponse,
    /// The reply was well formed but not the variant that was needed.
    UnexpectedResponse(Response),
    /// A recognised status key held a value that failed its typed parse: key, value, and the
    /// parse that was tried.
    FieldParseFailed(String, String, ValueKind),
    /// An enumerated status value matched none of the known names.
    EnumConversionFailed(EnumKind, String),
}

/// The mathematical form of an [`Error`].
pub enum ErrorView {
    Timeout,
    Io(Seq<char>),
    QueryTooLong,
    InvalidResponse,
    UnexpectedResponse(ResponseView),
    FieldParseFailed(Seq<char>, Seq<char>, ValueKind),
    EnumConversionFailed(EnumKind, Seq<char>),
}

impl View for Error {
    type V = ErrorView;

    open spec fn view(&self) -> ErrorView {
        match self {
            Error::Timeout => ErrorView::Timeout,
            Error::Io(m) => ErrorView::Io(m@),
            Error::QueryTooLong => ErrorView::QueryTooLong,
            Error::InvalidResponse => ErrorView::InvalidResponse,
            Error::UnexpectedResponse(r) => ErrorView::UnexpectedResponse(r@),
            Error::FieldParseFailed(k, v, t) => ErrorView::FieldParseFailed(k@, v@, *t),
            Error::EnumConversionFailed(e, v) => ErrorView::EnumConversionFailed(*e, v@),
        }
    }
}

} // verus!

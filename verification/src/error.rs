//! The ways in which reading an atom file fails.

use crate::text::{decimal, push_decimal};
use vstd::prelude::*;
use vstd::string::*;

verus! {

/// Why a source or an atom could not be decoded.
#[derive(Debug)]
pub enum ParseError {
    /// The source could not be read; holds the description of the failure.
    IoError(String),
    /// The source is too short to hold one atom header; holds the reason.
    NotValidMediaFileSize(String),
    /// The bytes of an atom do not hold the fields of its kind; holds the
    /// atom's type code.
    AtomParseFailed(String),
    /// The type code does not name a container.
    NotAContainer,
    /// The source ends before the atom does; holds the atom's type code, the
    /// size it declares and the number of bytes that could be read.
    FailedToReadOutAtom(String, u64, usize),
}

/// What a [`ParseError`] is to a contract.
pub enum ErrorView {
    IoError(Seq<char>),
    NotValidMediaFileSize(Seq<char>),
    AtomParseFailed(Seq<char>),
    NotAContainer,
    FailedToReadOutAtom(Seq<char>, nat, nat),
}

impl View for ParseError {
    type V = ErrorView;

    open spec fn view(&self) -> ErrorView {
        match self {
            ParseError::IoError(description) => ErrorView::IoError(description@),
            ParseError::NotValidMediaFileSize(reason) => ErrorView::NotValidMediaFileSize(reason@),
            ParseError::AtomParseFailed(code) => ErrorView::AtomParseFailed(code@),
            ParseError::NotAContainer => ErrorView::NotAContainer,
            ParseError::FailedToReadOutAtom(code, size, read) => ErrorView::FailedToReadOutAtom(
                code@,
                *size as nat,
                *read as nat,
            ),
        }
    }
}

/// The description carried by the error for a read that met the end of the
/// source too early.
pub open spec fn short_read_text() -> Seq<char> {
    "failed to fill whole buffer"@
}

/// The reason carried by the error for a source shorter than one header.
pub open spec fn bad_size_text() -> Seq<char> {
    "Bad File Size"@
}

/// The one-line description of an error.
pub open spec fn error_text(error: ErrorView) -> Seq<char> {
    match error {
        ErrorView::IoError(description) => description,
        ErrorView::NotValidMediaFileSize(reason) => reason,
        ErrorView::AtomParseFailed(code) => code,
        ErrorView::NotAContainer => Seq::empty(),
        ErrorView::FailedToReadOutAtom(code, size, read) => "type: "@ + code + ", size: "@
            + decimal(size) + ", read out: "@ + decimal(read),
    }
}

/// The view of a result: that of the value or that of the error.
pub open spec fn result_view<T: View, E: View>(result: Result<T, E>) -> Result<T::V, E::V> {
    match result {
        Ok(value) => Ok(value@),
        Err(error) => Err(error@),
    }
}

impl ParseError {
    /// The error for a read that met the end of the source too early.
    pub fn short_read() -> (error: ParseError)
        ensures
            error@ == ErrorView::IoError(short_read_text()),
    {
        ParseError::IoError(String::from_str("failed to fill whole buffer"))
    }

    /// The error for a source shorter than one header.
    pub fn bad_size() -> (error: ParseError)
        ensures
            error@ == ErrorView::NotValidMediaFileSize(bad_size_text()),
    {
        ParseError::NotValidMediaFileSize(String::from_str("Bad File Size"))
    }

    /// The one-line description of this error.
    pub fn to_text(&self) -> (text: String)
        ensures
            text@ == error_text(self@),
    {
        match self {
            ParseError::IoError(description) => description.clone(),
            ParseError::NotValidMediaFileSize(reason) => reason.clone(),
            ParseError::AtomParseFailed(code) => code.clone(),
            ParseError::NotAContainer => String::new(),
            ParseError::FailedToReadOutAtom(code, size, read) => {
                let mut text = String::from_str("type: ");
                text.append(code.as_str());
                text.append(", size: ");
                push_decimal(&mut text, *size);
                text.append(", read out: ");
                push_decimal(&mut text, *read as u64);
                text
            },
        }
    }
}

} // verus!

//! What the scanner reports when a lexeme is no token.

use vstd::prelude::*;

verus! {

/// Why a lexeme was turned down.
#[derive(Debug, Clone, Copy, PartialEq, Eq, Structural)]
pub enum ErrorType {
    /// The lexeme fits no token of the language.
    InvalidSymbol,
    /// A numeric constant holds a second period.
    ConstantHasTooManyPeriods,
    /// A run of digits is followed at once by a letter.
    IdentifierBeginsWithNumber,
}

/// A lexeme that was turned down, with the reason.
#[derive(Clone, Debug, PartialEq)]
pub struct Error {
    pub error_type: ErrorType,
    pub token: String,
}

/// An `Error` with its text as a sequence of characters.
pub struct ErrorView {
    pub error_type: ErrorType,
    pub token: Seq<char>,
}

impl View for Error {
    type V = ErrorView;

    open spec fn view(&self) -> ErrorView {
        ErrorView { error_type: self.error_type, token: self.token@ }
    }
}

} // verus!

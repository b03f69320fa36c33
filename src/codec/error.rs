//! Errors of the codec and of the protocol layer above it.
use vstd::prelude::*;

verus! {

/// What can go wrong while decoding or encoding.
#[derive(Debug, Clone, PartialEq, Eq)]
pub enum Error {
    /// A failure raised by a caller or a schema, with its text.
    Message(String),
    /// The input ended before the value did.
    Eof,
    /// The output has no room for the value.
    NoBufs,
    /// The input is not shaped as the value requires (an unknown tag or code).
    Syntax,
    ExpectedBoolean,
    ExpectedInteger,
    /// Bytes that should form a string are not valid UTF-8.
    ExpectedString,
    ExpectedArray,
    /// The value ended before the input did.
    TrailingCharacters,
}

impl Error {
    /// A short English description of the error.
    pub fn to_string(&self) -> (r: String)
        ensures
            self matches Error::Message(m) ==> r@ == m@,
    {
        match self {
            Error::Message(m) => m.clone(),
            Error::Eof => "unexpected end of input".to_owned(),
            Error::NoBufs => "No buffer for output".to_owned(),
            Error::Syntax => "syntax error".to_owned(),
            Error::ExpectedBoolean => "expect bool input".to_owned(),
            Error::ExpectedInteger => "expect int input".to_owned(),
            Error::ExpectedString => "expect string input".to_owned(),
            Error::ExpectedArray => "expect array input".to_owned(),
            Error::TrailingCharacters => "trailing chars".to_owned(),
        }
    }
}

/// The result type of the codec.
pub type Result<T> = core::result::Result<T, Error>;

} // verus!

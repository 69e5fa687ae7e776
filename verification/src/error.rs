use vstd::prelude::*;

use crate::format::Format;

verus! {

/// Which side of a conversion an error concerns.
#[derive(Clone, Copy, Debug, PartialEq, Eq, Structural)]
pub enum Side {
    Input,
    Output,
}

/// Every failure the conversion pipeline can report.
#[derive(Debug, PartialEq, Eq)]
pub enum ConvError {
    /// Neither a path nor an explicit format was supplied for this side.
    MissingFormatSource(Side),
    /// The input path does not exist or is not a regular file.
    InputPathInvalid,
    /// The path has no usable extension and no explicit format was given.
    UnresolvableFormat(Side),
    /// An explicit format token matched no known format; carries the token.
    UnrecognizedFormat(String),
    /// The input text violates the source format's grammar; carries the
    /// underlying parser's message.
    ParseError(Format, String),
    /// The value holds a shape the destination format cannot express; carries
    /// the underlying writer's message.
    SerializeError(Format, String),
}

} // verus!

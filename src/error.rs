use vstd::prelude::*;

verus! {

/// Why an identifier could not be made or a node could not be fetched.
#[derive(Debug, PartialEq, Eq)]
pub enum RelayError {
    /// The text is not a 128-bit identity value.
    ParseError,
    /// The identifier is too short, or its first 32 characters are not a value.
    MalformedIdentifier,
    /// The value is well formed but the type tag after it is not one that is accepted.
    UnrecognizedType,
    /// The fetch routine ran and found no such node.
    NotFound,
    /// The fetch routine failed; its message is passed on unchanged.
    FetchFailure(String),
}

} // verus!

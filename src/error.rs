use vstd::prelude::*;

verus! {

/// Why a scheme was refused.
#[derive(Clone, Copy, Debug, PartialEq, Eq, Structural)]
pub enum ErrorKind {
    /// The scheme is empty, or holds a byte outside its alphabet (`:` included).
    InvalidScheme,
    /// The scheme is longer than the longest scheme accepted.
    SchemeTooLong,
}

/// A URI, or a part of one, that could not be parsed.
#[derive(Clone, Copy, Debug, PartialEq, Eq, Structural)]
pub struct InvalidUri(pub ErrorKind);

impl InvalidUri {
    /// The reason for the refusal.
    pub fn kind(&self) -> (r: ErrorKind)
        ensures
            r == self.0,
    {
        self.0
    }
}

} // verus!

use vstd::prelude::*;

verus! {

/// What can go wrong when a tree is read from or written to an encoding.
#[derive(Debug, Clone, Copy, PartialEq, Eq, Structural)]
pub enum Error {
    /// One or more of the parameters are invalid.
    InvalidArg,
    /// The tree holds nodes that the output format cannot express.
    Format,
    /// Parsing of the input failed.
    Parse,
    /// Not enough memory to handle the operation.
    NoMem,
    /// I/O error.
    IO,
    /// Unknown error.
    Unknown,
}

/// Result code of a successful call of the tree engine.
pub const CODE_SUCCESS: i32 = 0;
/// Result code for invalid parameters.
pub const CODE_INVALID_ARG: i32 = -1;
/// Result code for a tree that the output format cannot express.
pub const CODE_FORMAT: i32 = -2;
/// Result code for input that could not be parsed.
pub const CODE_PARSE: i32 = -3;
/// Result code for an allocation failure.
pub const CODE_NO_MEM: i32 = -4;
/// Result code for an I/O failure.
pub const CODE_IO: i32 = -5;

/// The sentence that describes an error.
pub open spec fn error_text(e: Error) -> Seq<char> {
    match e {
        Error::InvalidArg => "One or more of the parameters are invalid"@,
        Error::Format => "The plist contains nodes not compatible with the output format"@,
        Error::Parse => "Parsing of the input format failed"@,
        Error::NoMem => "Not enough memory to handle the operation"@,
        Error::IO => "I/O error"@,
        Error::Unknown => "Unknown error"@,
    }
}

impl Error {
    /// Returns the sentence that describes the error.
    pub fn message(&self) -> (r: &'static str)
        ensures
            r@ == error_text(*self),
    {
        match self {
            Error::InvalidArg => "One or more of the parameters are invalid",
            Error::Format => "The plist contains nodes not compatible with the output format",
            Error::Parse => "Parsing of the input format failed",
            Error::NoMem => "Not enough memory to handle the operation",
            Error::IO => "I/O error",
            Error::Unknown => "Unknown error",
        }
    }

    /// The error that a result code of the tree engine reports; `None` for
    /// success, which is no error. Codes without a meaning of their own are
    /// [`Error::Unknown`].
    pub fn from_code(code: i32) -> (r: Option<Error>)
        ensures
            r == (if code == CODE_SUCCESS {
                None
            } else if code == CODE_INVALID_ARG {
                Some(Error::InvalidArg)
            } else if code == CODE_FORMAT {
                Some(Error::Format)
            } else if code == CODE_PARSE {
                Some(Error::Parse)
            } else if code == CODE_NO_MEM {
                Some(Error::NoMem)
            } else if code == CODE_IO {
                Some(Error::IO)
            } else {
                Some(Error::Unknown)
            }),
    {
        if code == CODE_SUCCESS {
            None
        } else if code == CODE_INVALID_ARG {
            Some(Error::InvalidArg)
        } else if code == CODE_FORMAT {
            Some(Error::Format)
        } else if code == CODE_PARSE {
            Some(Error::Parse)
        } else if code == CODE_NO_MEM {
            Some(Error::NoMem)
        } else if code == CODE_IO {
            Some(Error::IO)
        } else {
            Some(Error::Unknown)
        }
    }
}

} // verus!

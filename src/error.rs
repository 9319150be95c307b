use vstd::prelude::*;

verus! {

/// Ways in which a frame read off a session socket can fail to decode.
#[derive(Debug, Clone, Copy, PartialEq, Eq, Structural)]
pub enum DecodeError {
    /// The frame does not start with the fixed magic sequence.
    BadPreamble,
    /// A single field runs past the end of the buffer or announces an impossible length.
    MalformedField,
    /// The argument header, type table or one of the fields is inconsistent.
    MalformedArguments,
}

} // verus!

use vstd::prelude::*;

verus! {

/// Why a buffer could not be decoded.
#[derive(Clone, Copy, Debug, PartialEq, Eq, Structural)]
pub enum DecodeError {
    /// The platform envelope is too short, or its declared payload length
    /// disagrees with the bytes that follow its header.
    MalformedEnvelope,
    /// A structure starting at this byte offset runs past the end of the
    /// table, has a header length under 4, or has no string-table terminator.
    TruncatedStructure(usize),
}

} // verus!

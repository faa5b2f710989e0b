use crate::status::Status;
use vstd::prelude::*;

verus! {

/// The closed set of protocol-level failure kinds produced by every fallible
/// USBTMC operation of this library.  Transport-layer failures are not part
/// of this set: the transport backend reports them with its own error type.
#[derive(Debug, Clone, PartialEq, Eq, Hash)]
pub enum ClassError {
    /// A control response carried the status byte 0x00, which the class
    /// specification reserves as illegal.
    IllegalStatus,
    /// A capability block violated one of the USB488 cross-field rules.
    InvalidCapabilities,
    /// Byte 0 of a bulk header is not a recognized message identifier for
    /// the expected transfer direction.
    InvalidMsgId,
    /// A terminator character of 0 was requested; 0 is reserved to mean
    /// "no terminator".
    InvalidTermChar,
    /// Byte 2 of a bulk header is not the bitwise complement of its tag.
    TagCheckFailure,
    /// A bulk-out transfer accepted fewer bytes than were requested.
    TruncatedBulkOut,
    /// A control response was too short to interpret.
    TruncatedControlResponse,
    /// A bulk transfer was too short to hold its header, or too short to
    /// hold the payload its header declares.
    TruncatedHeader,
    /// A control response reported a status other than success.
    UnexpectedStatus(Status),
    /// The operation needs a capability the device did not advertise.
    UnsupportedFeature,
}

} // verus!

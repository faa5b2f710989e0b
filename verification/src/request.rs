use crate::error::ClassError;
use crate::status::Status;
use vstd::prelude::*;

verus! {

/// The class-specific control request codes a USBTMC host may send to an
/// instrument's interface.
#[derive(Debug, Copy, Clone, PartialEq, Eq, Hash)]
pub enum ControlRequest {
    InitiateAbortBulkOut,
    CheckAbortBulkOutStatus,
    InitiateAbortBulkIn,
    CheckAbortBulkInStatus,
    InitiateClear,
    CheckClearStatus,
    GetCapabilities,
    IndicatorPulse,
}

impl ControlRequest {
    /// The fixed one-byte value of each request code.
    pub open spec fn spec_code(self) -> u8 {
        match self {
            ControlRequest::InitiateAbortBulkOut => 1,
            ControlRequest::CheckAbortBulkOutStatus => 2,
            ControlRequest::InitiateAbortBulkIn => 3,
            ControlRequest::CheckAbortBulkInStatus => 4,
            ControlRequest::InitiateClear => 5,
            ControlRequest::CheckClearStatus => 6,
            ControlRequest::GetCapabilities => 7,
            ControlRequest::IndicatorPulse => 64,
        }
    }

    /// The request byte placed in the control transfer's setup packet.
    pub fn code(self) -> (b: u8)
        ensures
            b == self.spec_code(),
    {
        match self {
            ControlRequest::InitiateAbortBulkOut => 1,
            ControlRequest::CheckAbortBulkOutStatus => 2,
            ControlRequest::InitiateAbortBulkIn => 3,
            ControlRequest::CheckAbortBulkInStatus => 4,
            ControlRequest::InitiateClear => 5,
            ControlRequest::CheckClearStatus => 6,
            ControlRequest::GetCapabilities => 7,
            ControlRequest::IndicatorPulse => 64,
        }
    }

    /// What reading the status of a control response yields: a zero-length
    /// buffer is a truncation error, checked before byte 0 is interpreted.
    pub open spec fn spec_read_response_status(buf: Seq<u8>) -> Result<Status, ClassError> {
        if buf.len() == 0 {
            Err(ClassError::TruncatedControlResponse)
        } else {
            Status::spec_from_byte(buf[0])
        }
    }

    /// Read the first byte of a control response as a status code.
    pub fn read_response_status(buf: &[u8]) -> (r: Result<Status, ClassError>)
        ensures
            r == ControlRequest::spec_read_response_status(buf@),
    {
        if buf.len() == 0 {
            Err(ClassError::TruncatedControlResponse)
        } else {
            Status::from_byte(buf[0])
        }
    }

    /// What checking a control response yields: the status must read
    /// successfully and be `Success`.
    pub open spec fn spec_check_response_status(buf: Seq<u8>) -> Result<(), ClassError> {
        match ControlRequest::spec_read_response_status(buf) {
            Err(e) => Err(e),
            Ok(s) => s.spec_check(),
        }
    }

    /// Check that a control response carries a success status.
    pub fn check_response_status(buf: &[u8]) -> (r: Result<(), ClassError>)
        ensures
            r == ControlRequest::spec_check_response_status(buf@),
    {
        match ControlRequest::read_response_status(buf) {
            Err(e) => Err(e),
            Ok(s) => s.check(),
        }
    }
}

} // verus!

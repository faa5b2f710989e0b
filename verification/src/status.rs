use crate::error::ClassError;
use vstd::prelude::*;

verus! {

/// The classification of the status byte that leads every USBTMC control
/// response.  The six codes the class specification defines get their own
/// variants; every other value is represented as a vendor-defined warning
/// (below 0x80) or failure (0x80 and above), never rejected at decode time.
#[derive(Debug, Copy, Clone, PartialEq, Eq, Hash)]
pub enum Status {
    Success,
    Pending,
    Failed,
    TransferNotInProgress,
    SplitNotInProgress,
    SplitInProgress,
    UnknownWarning(u8),
    UnknownFailure(u8),
}

impl Status {
    /// What each status byte decodes to: 0x00 is illegal, the six defined
    /// codes map to their variants, and everything else is an unknown
    /// warning or failure depending on its high bit.
    pub open spec fn spec_from_byte(value: u8) -> Result<Status, ClassError> {
        if value == 0x00 {
            Err(ClassError::IllegalStatus)
        } else if value == 0x01 {
            Ok(Status::Success)
        } else if value == 0x02 {
            Ok(Status::Pending)
        } else if value == 0x80 {
            Ok(Status::Failed)
        } else if value == 0x81 {
            Ok(Status::TransferNotInProgress)
        } else if value == 0x82 {
            Ok(Status::SplitNotInProgress)
        } else if value == 0x83 {
            Ok(Status::SplitInProgress)
        } else if value < 0x80 {
            Ok(Status::UnknownWarning(value))
        } else {
            Ok(Status::UnknownFailure(value))
        }
    }

    /// Decode the one-byte status code of a control response.
    pub fn from_byte(value: u8) -> (r: Result<Status, ClassError>)
        ensures
            r == Status::spec_from_byte(value),
    {
        match value {
            0x00 => Err(ClassError::IllegalStatus),
            0x01 => Ok(Status::Success),
            0x02 => Ok(Status::Pending),
            0x80 => Ok(Status::Failed),
            0x81 => Ok(Status::TransferNotInProgress),
            0x82 => Ok(Status::SplitNotInProgress),
            0x83 => Ok(Status::SplitInProgress),
            _ => {
                if value < 0x80 {
                    Ok(Status::UnknownWarning(value))
                } else {
                    Ok(Status::UnknownFailure(value))
                }
            },
        }
    }

    /// What checking a status yields: success passes, and every other
    /// status - including vendor-defined ones - is an error carrying it.
    pub open spec fn spec_check(self) -> Result<(), ClassError> {
        if self is Success {
            Ok(())
        } else {
            Err(ClassError::UnexpectedStatus(self))
        }
    }

    /// Succeed exactly when this status is `Success`.
    pub fn check(self) -> (r: Result<(), ClassError>)
        ensures
            r == self.spec_check(),
    {
        match self {
            Status::Success => Ok(()),
            _ => Err(ClassError::UnexpectedStatus(self)),
        }
    }
}

} // verus!

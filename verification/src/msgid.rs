use crate::error::ClassError;
use vstd::prelude::*;

verus! {

/// A closed set of one-byte message identifiers for one bulk transfer
/// direction.  The byte mapping is exhaustive and invertible: encoding an
/// identifier and decoding the byte returns the same identifier, and a byte
/// outside the set is a decode error, never silently accepted.
pub trait MsgId: Copy + Sized {
    /// The wire byte this identifier encodes to.
    spec fn spec_byte(self) -> u8;

    /// The identifier a wire byte decodes to, if it is in the set.
    spec fn spec_from_byte(b: u8) -> Option<Self>;

    /// Every identifier round-trips through its wire byte.
    proof fn lemma_byte_roundtrip(self)
        ensures
            Self::spec_from_byte(self.spec_byte()) == Some(self),
    ;

    /// Encode this identifier as its wire byte.
    fn to_byte(self) -> (b: u8)
        ensures
            b == self.spec_byte(),
    ;

    /// Decode a wire byte, rejecting bytes outside the set.
    fn from_byte(b: u8) -> (r: Result<Self, ClassError>)
        ensures
            r == (match Self::spec_from_byte(b) {
                Some(m) => Ok::<Self, ClassError>(m),
                None => Err::<Self, ClassError>(ClassError::InvalidMsgId),
            }),
    ;
}

/// Message identifiers for host-to-device bulk transfers.
#[derive(Debug, Copy, Clone, PartialEq, Eq, Hash)]
pub enum MsgIdOut {
    DevDepMsgOut,
    RequestDevDepMsgIn,
    VendorSpecificOut,
    RequestVendorSpecificIn,
}

impl MsgId for MsgIdOut {
    open spec fn spec_byte(self) -> u8 {
        match self {
            MsgIdOut::DevDepMsgOut => 1,
            MsgIdOut::RequestDevDepMsgIn => 2,
            MsgIdOut::VendorSpecificOut => 3,
            MsgIdOut::RequestVendorSpecificIn => 4,
        }
    }

    open spec fn spec_from_byte(b: u8) -> Option<MsgIdOut> {
        if b == 1 {
            Some(MsgIdOut::DevDepMsgOut)
        } else if b == 2 {
            Some(MsgIdOut::RequestDevDepMsgIn)
        } else if b == 3 {
            Some(MsgIdOut::VendorSpecificOut)
        } else if b == 4 {
            Some(MsgIdOut::RequestVendorSpecificIn)
        } else {
            None
        }
    }

    proof fn lemma_byte_roundtrip(self) {
    }

    fn to_byte(self) -> u8 {
        match self {
            MsgIdOut::DevDepMsgOut => 1,
            MsgIdOut::RequestDevDepMsgIn => 2,
            MsgIdOut::VendorSpecificOut => 3,
            MsgIdOut::RequestVendorSpecificIn => 4,
        }
    }

    fn from_byte(b: u8) -> Result<MsgIdOut, ClassError> {
        match b {
            1 => Ok(MsgIdOut::DevDepMsgOut),
            2 => Ok(MsgIdOut::RequestDevDepMsgIn),
            3 => Ok(MsgIdOut::VendorSpecificOut),
            4 => Ok(MsgIdOut::RequestVendorSpecificIn),
            _ => Err(ClassError::InvalidMsgId),
        }
    }
}

/// Message identifiers for device-to-host bulk transfers.
#[derive(Debug, Copy, Clone, PartialEq, Eq, Hash)]
pub enum MsgIdIn {
    DevDepMsgIn,
    VendorSpecificIn,
}

impl MsgId for MsgIdIn {
    open spec fn spec_byte(self) -> u8 {
        match self {
            MsgIdIn::DevDepMsgIn => 2,
            MsgIdIn::VendorSpecificIn => 4,
        }
    }

    open spec fn spec_from_byte(b: u8) -> Option<MsgIdIn> {
        if b == 2 {
            Some(MsgIdIn::DevDepMsgIn)
        } else if b == 4 {
            Some(MsgIdIn::VendorSpecificIn)
        } else {
            None
        }
    }

    proof fn lemma_byte_roundtrip(self) {
    }

    fn to_byte(self) -> u8 {
        match self {
            MsgIdIn::DevDepMsgIn => 2,
            MsgIdIn::VendorSpecificIn => 4,
        }
    }

    fn from_byte(b: u8) -> Result<MsgIdIn, ClassError> {
        match b {
            2 => Ok(MsgIdIn::DevDepMsgIn),
            4 => Ok(MsgIdIn::VendorSpecificIn),
            _ => Err(ClassError::InvalidMsgId),
        }
    }
}

} // verus!

use crate::error::ClassError;
use crate::header::spec_u16_from_le;
use crate::header::read_u16_le;
use crate::status::Status;
use vstd::prelude::*;

verus! {

/// The capability set every USBTMC interface reports through the
/// get-capabilities control request.
#[derive(Debug, Clone, PartialEq, Eq, Hash)]
pub struct USBTMCCapabilities {
    pub bcd_usbtmc: u16,
    pub pulse: bool,
    pub talk_only: bool,
    pub listen_only: bool,
    pub term_char: bool,
}

impl USBTMCCapabilities {
    /// The placeholder `new` builds: all fields zeroed, which `is_valid`
    /// rejects.
    pub open spec fn spec_new() -> Self {
        USBTMCCapabilities {
            bcd_usbtmc: 0,
            pulse: false,
            talk_only: false,
            listen_only: false,
            term_char: false,
        }
    }

    /// Create a placeholder value, which is not valid.  It stands in a
    /// session until the real capabilities are read during connection.
    pub fn new() -> (c: Self)
        ensures
            c == Self::spec_new(),
            !c.spec_is_valid(),
    {
        USBTMCCapabilities {
            bcd_usbtmc: 0,
            pulse: false,
            talk_only: false,
            listen_only: false,
            term_char: false,
        }
    }

    /// A capability block is valid when its protocol version is at least
    /// 1.0.0 in binary-coded decimal.
    pub open spec fn spec_is_valid(self) -> bool {
        self.bcd_usbtmc >= 0x0100
    }

    /// Report whether the block's protocol version marks it as valid.  A
    /// version below 0x0100 is not itself a parse error; callers check
    /// here.
    pub fn is_valid(&self) -> (r: bool)
        ensures
            r == self.spec_is_valid(),
    {
        self.bcd_usbtmc >= 0x0100
    }

    /// What parsing a get-capabilities response yields: at least 12 bytes
    /// are required, byte 0 must decode to a success status, and then the
    /// version and feature bits are read from bytes 2 to 5.
    pub open spec fn spec_parse(buf: Seq<u8>) -> Result<Self, ClassError> {
        if buf.len() < 12 {
            Err(ClassError::TruncatedControlResponse)
        } else {
            match Status::spec_from_byte(buf[0]) {
                Err(e) => Err(e),
                Ok(s) => if !(s is Success) {
                    Err(ClassError::UnexpectedStatus(s))
                } else {
                    Ok(
                        USBTMCCapabilities {
                            bcd_usbtmc: spec_u16_from_le(buf[2], buf[3]),
                            pulse: buf[4] & 0x04 != 0,
                            talk_only: buf[4] & 0x02 != 0,
                            listen_only: buf[4] & 0x01 != 0,
                            term_char: buf[5] & 0x01 != 0,
                        },
                    )
                },
            }
        }
    }

    /// Parse a get-capabilities response.  The status byte is checked and
    /// must report success.
    pub fn parse(buf: &[u8]) -> (r: Result<Self, ClassError>)
        ensures
            r == Self::spec_parse(buf@),
    {
        if buf.len() < 12 {
            return Err(ClassError::TruncatedControlResponse);
        }
        let status = match Status::from_byte(buf[0]) {
            Ok(s) => s,
            Err(e) => {
                return Err(e);
            },
        };
        match status.check() {
            Ok(_) => {},
            Err(e) => {
                return Err(e);
            },
        }
        Ok(
            USBTMCCapabilities {
                bcd_usbtmc: read_u16_le(buf, 2),
                pulse: buf[4] & 0x04 != 0,
                talk_only: buf[4] & 0x02 != 0,
                listen_only: buf[4] & 0x01 != 0,
                term_char: buf[5] & 0x01 != 0,
            },
        )
    }
}

/// The additional capability set a USB488 interface reports in bytes 12 to
/// 15 of the same get-capabilities response.
#[derive(Debug, Clone, PartialEq, Eq, Hash)]
pub struct USB488Capabilities {
    pub bcd_usb488: u16,
    pub usb488_2: bool,
    pub remote_local: bool,
    pub trigger: bool,
    pub scpi: bool,
    pub sr: bool,
    pub rl: bool,
    pub dt: bool,
}

impl USB488Capabilities {
    /// The raw USB488 block read from bytes 12 to 15 of the response.
    pub open spec fn spec_raw(buf: Seq<u8>) -> Self {
        USB488Capabilities {
            bcd_usb488: spec_u16_from_le(buf[12], buf[13]),
            usb488_2: buf[14] & 0x04 != 0,
            remote_local: buf[14] & 0x02 != 0,
            trigger: buf[14] & 0x01 != 0,
            scpi: buf[15] & 0x08 != 0,
            sr: buf[15] & 0x04 != 0,
            rl: buf[15] & 0x02 != 0,
            dt: buf[15] & 0x01 != 0,
        }
    }

    /// What parsing the USB488 block yields.  Fewer than 16 response bytes
    /// or a version below 1.0.0 mean "no USB488 capabilities" - none, not
    /// an error.  A block that is present must pass the cross-field rules,
    /// in this order: talk-only and listen-only must not be set, `dt`
    /// requires `trigger`, `rl` requires `remote_local`, `usb488_2`
    /// requires `sr`, and `scpi` requires `usb488_2`; any violation rejects
    /// the whole block as invalid.
    pub open spec fn spec_parse(usbtmc: USBTMCCapabilities, buf: Seq<u8>) -> Result<
        Option<Self>,
        ClassError,
    > {
        if buf.len() < 16 {
            Ok(None)
        } else {
            let c = Self::spec_raw(buf);
            if c.bcd_usb488 < 0x0100 {
                Ok(None)
            } else if usbtmc.talk_only || usbtmc.listen_only {
                Err(ClassError::InvalidCapabilities)
            } else if c.dt && !c.trigger {
                Err(ClassError::InvalidCapabilities)
            } else if c.rl && !c.remote_local {
                Err(ClassError::InvalidCapabilities)
            } else if c.usb488_2 && !c.sr {
                Err(ClassError::InvalidCapabilities)
            } else if c.scpi && !c.usb488_2 {
                Err(ClassError::InvalidCapabilities)
            } else {
                Ok(Some(c))
            }
        }
    }

    /// Parse the USB488 block of a get-capabilities response, validating
    /// it against the already-parsed USBTMC block.
    pub fn parse(usbtmc_capabilities: &USBTMCCapabilities, buf: &[u8]) -> (r: Result<
        Option<Self>,
        ClassError,
    >)
        ensures
            r == Self::spec_parse(*usbtmc_capabilities, buf@),
    {
        if buf.len() < 16 {
            return Ok(None);
        }
        let c = USB488Capabilities {
            bcd_usb488: read_u16_le(buf, 12),
            usb488_2: buf[14] & 0x04 != 0,
            remote_local: buf[14] & 0x02 != 0,
            trigger: buf[14] & 0x01 != 0,
            scpi: buf[15] & 0x08 != 0,
            sr: buf[15] & 0x04 != 0,
            rl: buf[15] & 0x02 != 0,
            dt: buf[15] & 0x01 != 0,
        };
        if c.bcd_usb488 < 0x0100 {
            return Ok(None);
        }
        if usbtmc_capabilities.talk_only || usbtmc_capabilities.listen_only {
            return Err(ClassError::InvalidCapabilities);
        }
        if c.dt && !c.trigger {
            return Err(ClassError::InvalidCapabilities);
        }
        if c.rl && !c.remote_local {
            return Err(ClassError::InvalidCapabilities);
        }
        if c.usb488_2 && !c.sr {
            return Err(ClassError::InvalidCapabilities);
        }
        if c.scpi && !c.usb488_2 {
            return Err(ClassError::InvalidCapabilities);
        }
        Ok(Some(c))
    }
}

} // verus!

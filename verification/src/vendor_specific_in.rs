use crate::error::ClassError;
use crate::header::{
    read_u32_le, spec_u32_le, spec_u32_from_le, write_u32_le, BulkInHeader, BulkOutHeader,
    BulkTransferHeader, HEADER_SIZE,
};
use crate::msgid::MsgIdOut;
use vstd::prelude::*;

verus! {

/// Header for a request to the device to send vendor-specific data
/// (`RequestVendorSpecificIn`).  Same shape as `RequestDevDepMsgIn` but
/// without terminator-character semantics.
#[derive(Debug, Clone, PartialEq, Eq, Hash)]
pub struct RequestVendorSpecificInHeader {
    pub bulk_out_header: BulkOutHeader,
    pub transfer_size: u32,
}

impl RequestVendorSpecificInHeader {
    /// The header `new` builds: a well-formed common header with the
    /// `RequestVendorSpecificIn` identifier.
    pub open spec fn spec_new(b_tag: u8, transfer_size: u32) -> Self {
        RequestVendorSpecificInHeader {
            bulk_out_header: BulkTransferHeader {
                msg_id: MsgIdOut::RequestVendorSpecificIn,
                b_tag,
                b_tag_inverse: !b_tag,
                reserved: 0,
            },
            transfer_size,
        }
    }

    /// Build a request for up to `transfer_size` bytes of vendor-specific
    /// data.
    pub fn new(b_tag: u8, transfer_size: u32) -> (h: Self)
        ensures
            h == Self::spec_new(b_tag, transfer_size),
    {
        let bulk_out_header = BulkOutHeader::new(MsgIdOut::RequestVendorSpecificIn, b_tag);
        RequestVendorSpecificInHeader { bulk_out_header, transfer_size }
    }

    /// The twelve bytes this header packs to: the common four, the transfer
    /// size little-endian, and four zero-filled bytes.
    pub open spec fn spec_pack(self) -> Seq<u8> {
        self.bulk_out_header.spec_pack() + spec_u32_le(self.transfer_size) + seq![
            0u8,
            0u8,
            0u8,
            0u8,
        ]
    }

    /// Write the full twelve-byte header at the start of `buf`.
    pub fn pack(&self, buf: &mut Vec<u8>)
        requires
            old(buf).len() >= HEADER_SIZE,
        ensures
            final(buf)@ == self.spec_pack() + old(buf)@.skip(HEADER_SIZE as int),
            final(buf).len() == old(buf).len(),
    {
        self.bulk_out_header.pack(buf);
        write_u32_le(buf, 4, self.transfer_size);
        buf[8] = 0;
        buf[9] = 0;
        buf[10] = 0;
        buf[11] = 0;
        assert(buf@ =~= self.spec_pack() + old(buf)@.skip(HEADER_SIZE as int));
    }
}

/// Header sent by the device in front of vendor-specific data, answering a
/// `RequestVendorSpecificIn` command.
#[derive(Debug, Clone, PartialEq, Eq, Hash)]
pub struct VendorSpecificInHeader {
    pub bulk_in_header: BulkInHeader,
    pub transfer_size: u32,
}

impl VendorSpecificInHeader {
    /// What decoding the header at the start of `data` yields: the common
    /// header checks first, then the transfer size is read little-endian
    /// from bytes 4 to 8.
    pub open spec fn spec_unpack(data: Seq<u8>) -> Result<Self, ClassError> {
        match BulkInHeader::spec_unpack(data) {
            Err(e) => Err(e),
            Ok(h) => Ok(
                VendorSpecificInHeader {
                    bulk_in_header: h,
                    transfer_size: spec_u32_from_le(data[4], data[5], data[6], data[7]),
                },
            ),
        }
    }

    /// Decode the header at the start of `data`.
    pub fn unpack(data: &[u8]) -> (r: Result<Self, ClassError>)
        ensures
            r == Self::spec_unpack(data@),
    {
        let bulk_in_header = match BulkInHeader::unpack(data) {
            Ok(h) => h,
            Err(e) => {
                return Err(e);
            },
        };
        let transfer_size = read_u32_le(data, 4);
        Ok(VendorSpecificInHeader { bulk_in_header, transfer_size })
    }

    /// What decoding a whole vendor-specific bulk-in transfer yields: the
    /// header, plus exactly `transfer_size` bytes of payload following it.
    /// A buffer too short to hold the declared payload is rejected, never
    /// read out of bounds.
    pub open spec fn spec_decode_transfer(buf: Seq<u8>) -> Result<(Self, Seq<u8>), ClassError> {
        match Self::spec_unpack(buf) {
            Err(e) => Err(e),
            Ok(h) => if buf.len() - HEADER_SIZE < h.transfer_size {
                Err(ClassError::TruncatedHeader)
            } else {
                Ok((h, buf.subrange(HEADER_SIZE as int, HEADER_SIZE + h.transfer_size)))
            },
        }
    }

    /// Decode a whole vendor-specific bulk-in transfer into its header and
    /// its payload.
    pub fn decode_transfer(buf: &[u8]) -> (r: Result<(Self, &[u8]), ClassError>)
        ensures
            (match r {
                Ok((h, d)) => Self::spec_decode_transfer(buf@) == Ok::<
                    (Self, Seq<u8>),
                    ClassError,
                >((h, d@)),
                Err(e) => Self::spec_decode_transfer(buf@) == Err::<(Self, Seq<u8>), ClassError>(e),
            }),
    {
        let header = match Self::unpack(buf) {
            Ok(h) => h,
            Err(e) => {
                return Err(e);
            },
        };
        let payload_len = header.transfer_size as usize;
        if buf.len() - HEADER_SIZE < payload_len {
            return Err(ClassError::TruncatedHeader);
        }
        let data = &buf[HEADER_SIZE..HEADER_SIZE + payload_len];
        Ok((header, data))
    }
}

} // verus!

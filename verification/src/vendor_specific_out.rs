use crate::header::{
    spec_u32_le, write_u32_le, BulkOutHeader, BulkTransferHeader, HEADER_SIZE,
};
use crate::msgid::MsgIdOut;
use vstd::prelude::*;

verus! {

/// Header for vendor-specific bulk-out messages (`VendorSpecificOut`).
/// Same shape as `DevDepMsgOut` but without end-of-message semantics.
#[derive(Debug, Clone, PartialEq, Eq, Hash)]
pub struct VendorSpecificOutHeader {
    pub bulk_out_header: BulkOutHeader,
    pub transfer_size: u32,
}

impl VendorSpecificOutHeader {
    /// The header `new` builds: a well-formed common header with the
    /// `VendorSpecificOut` identifier.
    pub open spec fn spec_new(b_tag: u8, transfer_size: u32) -> Self {
        VendorSpecificOutHeader {
            bulk_out_header: BulkTransferHeader {
                msg_id: MsgIdOut::VendorSpecificOut,
                b_tag,
                b_tag_inverse: !b_tag,
                reserved: 0,
            },
            transfer_size,
        }
    }

    /// Build a `VendorSpecificOut` header announcing `transfer_size` bytes
    /// of payload.
    pub fn new(b_tag: u8, transfer_size: u32) -> (h: Self)
        ensures
            h == Self::spec_new(b_tag, transfer_size),
    {
        let bulk_out_header = BulkOutHeader::new(MsgIdOut::VendorSpecificOut, b_tag);
        VendorSpecificOutHeader { bulk_out_header, transfer_size }
    }

    /// The twelve bytes this header packs to: the common four, the transfer
    /// size little-endian, and four zero-filled bytes.
    pub open spec fn spec_pack(self) -> Seq<u8> {
        self.bulk_out_header.spec_pack() + spec_u32_le(self.transfer_size) + seq![
            0u8,
            0u8,
            0u8,
            0u8,
        ]
    }

    /// Write the full twelve-byte header at the start of `buf`.
    pub fn pack(&self, buf: &mut Vec<u8>)
        requires
            old(buf).len() >= HEADER_SIZE,
        ensures
            final(buf)@ == self.spec_pack() + old(buf)@.skip(HEADER_SIZE as int),
            final(buf).len() == old(buf).len(),
    {
        self.bulk_out_header.pack(buf);
        write_u32_le(buf, 4, self.transfer_size);
        buf[8] = 0;
        buf[9] = 0;
        buf[10] = 0;
        buf[11] = 0;
        assert(buf@ =~= self.spec_pack() + old(buf)@.skip(HEADER_SIZE as int));
    }
}

} // verus!

use crate::header::{
    spec_pad4, spec_u32_le, BulkOutHeader, BulkTransferHeader, HEADER_SIZE, pad4, write_u32_le,
};
use crate::msgid::MsgIdOut;
use vstd::prelude::*;

verus! {

/// Header for bulk-out command messages (`DevDepMsgOut`).  On the wire the
/// header is followed by `transfer_size` bytes of command data and zero
/// padding up to a multiple of four bytes.
#[derive(Debug, Clone, PartialEq, Eq, Hash)]
pub struct DevDepMsgOutHeader {
    pub bulk_out_header: BulkOutHeader,
    pub transfer_size: u32,
    pub transfer_attributes: u8,
}

impl DevDepMsgOutHeader {
    /// The header `new` builds: a well-formed common header with the
    /// `DevDepMsgOut` identifier, and bit 0 of the attributes set exactly
    /// when this chunk ends the message.
    pub open spec fn spec_new(b_tag: u8, transfer_size: u32, eom: bool) -> Self {
        DevDepMsgOutHeader {
            bulk_out_header: BulkTransferHeader {
                msg_id: MsgIdOut::DevDepMsgOut,
                b_tag,
                b_tag_inverse: !b_tag,
                reserved: 0,
            },
            transfer_size,
            transfer_attributes: if eom {
                1
            } else {
                0
            },
        }
    }

    /// Build a `DevDepMsgOut` header announcing `transfer_size` bytes of
    /// payload, with the end-of-message flag set when `eom` holds.
    pub fn new(b_tag: u8, transfer_size: u32, eom: bool) -> (h: Self)
        ensures
            h == Self::spec_new(b_tag, transfer_size, eom),
    {
        let bulk_out_header = BulkOutHeader::new(MsgIdOut::DevDepMsgOut, b_tag);
        let transfer_attributes: u8 = if eom {
            1
        } else {
            0
        };
        DevDepMsgOutHeader { bulk_out_header, transfer_size, transfer_attributes }
    }

    /// The twelve bytes this header packs to: the common four, the transfer
    /// size little-endian, the attributes byte, and three zero-filled bytes.
    pub open spec fn spec_pack(self) -> Seq<u8> {
        self.bulk_out_header.spec_pack() + spec_u32_le(self.transfer_size) + seq![
            self.transfer_attributes,
            0u8,
            0u8,
            0u8,
        ]
    }

    /// Write the full twelve-byte header at the start of `buf`.
    pub fn pack(&self, buf: &mut Vec<u8>)
        requires
            old(buf).len() >= HEADER_SIZE,
        ensures
            final(buf)@ == self.spec_pack() + old(buf)@.skip(HEADER_SIZE as int),
            final(buf).len() == old(buf).len(),
    {
        self.bulk_out_header.pack(buf);
        write_u32_le(buf, 4, self.transfer_size);
        buf[8] = self.transfer_attributes;
        buf[9] = 0;
        buf[10] = 0;
        buf[11] = 0;
        assert(buf@ =~= self.spec_pack() + old(buf)@.skip(HEADER_SIZE as int));
    }

    /// The complete framed message for one chunk: header, payload, and zero
    /// padding up to a multiple of four bytes.  The declared transfer size
    /// is exactly the payload length; padding is never counted.
    pub open spec fn spec_encode(b_tag: u8, data: Seq<u8>, eom: bool) -> Seq<u8> {
        spec_pad4(Self::spec_new(b_tag, data.len() as u32, eom).spec_pack() + data)
    }

    /// Frame one chunk of command data as a bulk-out message in `buf`,
    /// replacing its previous contents.
    pub fn encode_message(b_tag: u8, data: &[u8], eom: bool, buf: &mut Vec<u8>)
        requires
            data@.len() <= u32::MAX,
            HEADER_SIZE + data@.len() + 3 <= usize::MAX,
        ensures
            final(buf)@ == Self::spec_encode(b_tag, data@, eom),
            final(buf).len() % 4 == 0,
            final(buf)@.subrange(4, 8) == spec_u32_le(data@.len() as u32),
    {
        buf.clear();
        buf.resize(HEADER_SIZE, 0u8);
        let header = Self::new(b_tag, data.len() as u32, eom);
        header.pack(buf);
        assert(buf@ =~= header.spec_pack());
        buf.extend_from_slice(data);
        pad4(buf);
        assert(buf@.subrange(4, 8) =~= spec_u32_le(data@.len() as u32));
    }
}

} // verus!

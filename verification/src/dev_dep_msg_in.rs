use crate::error::ClassError;
use crate::header::{
    read_u32_le, spec_u32_le, spec_u32_from_le, write_u32_le, BulkInHeader, BulkOutHeader,
    BulkTransferHeader, HEADER_SIZE,
};
use crate::msgid::MsgIdOut;
use vstd::prelude::*;

verus! {

/// Header for a request to the device to send data (`RequestDevDepMsgIn`).
/// The message consists of the header alone; the device answers with up to
/// `transfer_size` bytes of response data framed by a `DevDepMsgIn` header.
#[derive(Debug, Clone, PartialEq, Eq, Hash)]
pub struct RequestDevDepMsgInHeader {
    pub bulk_out_header: BulkOutHeader,
    pub transfer_size: u32,
    pub transfer_attributes: u8,
    pub term_char: u8,
}

impl RequestDevDepMsgInHeader {
    /// The header `new` builds: with a terminator character, bit 1 of the
    /// attributes is set and the character is carried in the term-char
    /// byte; without one, both bytes are zero.
    pub open spec fn spec_new(b_tag: u8, transfer_size: u32, opt_term_char: Option<u8>) -> Self {
        RequestDevDepMsgInHeader {
            bulk_out_header: BulkTransferHeader {
                msg_id: MsgIdOut::RequestDevDepMsgIn,
                b_tag,
                b_tag_inverse: !b_tag,
                reserved: 0,
            },
            transfer_size,
            transfer_attributes: (match opt_term_char {
                None => 0u8,
                Some(_) => 2u8,
            }),
            term_char: (match opt_term_char {
                None => 0u8,
                Some(c) => c,
            }),
        }
    }

    /// Build a request for up to `transfer_size` bytes, optionally asking
    /// the device to end the transfer at a terminator character.
    pub fn new(b_tag: u8, transfer_size: u32, opt_term_char: Option<u8>) -> (h: Self)
        ensures
            h == Self::spec_new(b_tag, transfer_size, opt_term_char),
    {
        let bulk_out_header = BulkOutHeader::new(MsgIdOut::RequestDevDepMsgIn, b_tag);
        let transfer_attributes: u8;
        let term_char: u8;
        match opt_term_char {
            None => {
                transfer_attributes = 0;
                term_char = 0;
            },
            Some(c) => {
                transfer_attributes = 2;
                term_char = c;
            },
        }
        RequestDevDepMsgInHeader { bulk_out_header, transfer_size, transfer_attributes, term_char }
    }

    /// The twelve bytes this header packs to: the common four, the transfer
    /// size little-endian, the attributes byte, the terminator character,
    /// and two zero-filled bytes.
    pub open spec fn spec_pack(self) -> Seq<u8> {
        self.bulk_out_header.spec_pack() + spec_u32_le(self.transfer_size) + seq![
            self.transfer_attributes,
            self.term_char,
            0u8,
            0u8,
        ]
    }

    /// Write the full twelve-byte header at the start of `buf`.
    pub fn pack(&self, buf: &mut Vec<u8>)
        requires
            old(buf).len() >= HEADER_SIZE,
        ensures
            final(buf)@ == self.spec_pack() + old(buf)@.skip(HEADER_SIZE as int),
            final(buf).len() == old(buf).len(),
    {
        self.bulk_out_header.pack(buf);
        write_u32_le(buf, 4, self.transfer_size);
        buf[8] = self.transfer_attributes;
        buf[9] = self.term_char;
        buf[10] = 0;
        buf[11] = 0;
        assert(buf@ =~= self.spec_pack() + old(buf)@.skip(HEADER_SIZE as int));
    }

    /// The complete request message: the header alone, which is already a
    /// multiple of four bytes long.
    pub open spec fn spec_encode(b_tag: u8, transfer_size: u32, term_char: Option<u8>) -> Seq<u8> {
        Self::spec_new(b_tag, transfer_size, term_char).spec_pack()
    }

    /// Frame a read request as a bulk-out message in `buf`, replacing its
    /// previous contents.
    pub fn encode_message(b_tag: u8, transfer_size: u32, term_char: Option<u8>, buf: &mut Vec<u8>)
        ensures
            final(buf)@ == Self::spec_encode(b_tag, transfer_size, term_char),
            final(buf).len() == HEADER_SIZE,
    {
        buf.clear();
        buf.resize(HEADER_SIZE, 0u8);
        let header = Self::new(b_tag, transfer_size, term_char);
        header.pack(buf);
        assert(buf@ =~= header.spec_pack());
    }
}

/// Header sent by the device in front of the data it returns, answering a
/// `RequestDevDepMsgIn` command.
#[derive(Debug, Clone, PartialEq, Eq, Hash)]
pub struct DevDepMsgInHeader {
    pub bulk_in_header: BulkInHeader,
    pub transfer_size: u32,
    pub transfer_attributes: u8,
}

impl DevDepMsgInHeader {
    /// Bit 0 of the attributes: this frame ends the logical message.
    pub open spec fn spec_is_eom(self) -> bool {
        self.transfer_attributes & 0x01 != 0
    }

    /// Bit 1 of the attributes: the device ended the transfer because it
    /// reached the requested terminator character.
    pub open spec fn spec_has_term_char(self) -> bool {
        self.transfer_attributes & 0x02 != 0
    }

    /// What decoding the header at the start of `data` yields: the common
    /// header checks first, then the transfer size (little-endian) and the
    /// attributes byte are read from bytes 4 to 8.
    pub open spec fn spec_unpack(data: Seq<u8>) -> Result<Self, ClassError> {
        match BulkInHeader::spec_unpack(data) {
            Err(e) => Err(e),
            Ok(h) => Ok(
                DevDepMsgInHeader {
                    bulk_in_header: h,
                    transfer_size: spec_u32_from_le(data[4], data[5], data[6], data[7]),
                    transfer_attributes: data[8],
                },
            ),
        }
    }

    /// Decode the header at the start of `data`.
    pub fn unpack(data: &[u8]) -> (r: Result<Self, ClassError>)
        ensures
            r == Self::spec_unpack(data@),
    {
        let bulk_in_header = match BulkInHeader::unpack(data) {
            Ok(h) => h,
            Err(e) => {
                return Err(e);
            },
        };
        let transfer_size = read_u32_le(data, 4);
        let transfer_attributes = data[8];
        Ok(DevDepMsgInHeader { bulk_in_header, transfer_size, transfer_attributes })
    }

    /// What decoding a whole bulk-in transfer yields: the header, plus
    /// exactly `transfer_size` bytes of payload following it.  A buffer too
    /// short to hold the declared payload is rejected, never read out of
    /// bounds; trailing padding past the payload is ignored.
    pub open spec fn spec_decode_transfer(buf: Seq<u8>) -> Result<(Self, Seq<u8>), ClassError> {
        match Self::spec_unpack(buf) {
            Err(e) => Err(e),
            Ok(h) => if buf.len() - HEADER_SIZE < h.transfer_size {
                Err(ClassError::TruncatedHeader)
            } else {
                Ok((h, buf.subrange(HEADER_SIZE as int, HEADER_SIZE + h.transfer_size)))
            },
        }
    }

    /// Decode a whole bulk-in transfer into its header and its payload.
    pub fn decode_transfer(buf: &[u8]) -> (r: Result<(Self, &[u8]), ClassError>)
        ensures
            (match r {
                Ok((h, d)) => Self::spec_decode_transfer(buf@) == Ok::<
                    (Self, Seq<u8>),
                    ClassError,
                >((h, d@)),
                Err(e) => Self::spec_decode_transfer(buf@) == Err::<(Self, Seq<u8>), ClassError>(e),
            }),
    {
        let header = match Self::unpack(buf) {
            Ok(h) => h,
            Err(e) => {
                return Err(e);
            },
        };
        let payload_len = header.transfer_size as usize;
        if buf.len() - HEADER_SIZE < payload_len {
            return Err(ClassError::TruncatedHeader);
        }
        let data = &buf[HEADER_SIZE..HEADER_SIZE + payload_len];
        Ok((header, data))
    }

    /// Report whether this frame ends the logical message.
    pub fn is_eom(&self) -> (r: bool)
        ensures
            r == self.spec_is_eom(),
    {
        self.transfer_attributes & 0x01 != 0
    }

    /// Report whether the device stopped at the terminator character.
    pub fn has_term_char(&self) -> (r: bool)
        ensures
            r == self.spec_has_term_char(),
    {
        self.transfer_attributes & 0x02 != 0
    }
}

/// Decoding a bulk-in transfer framed as a device frames it - a header
/// declaring exactly the payload length, the payload, and any trailing
/// padding - yields that header and that payload back.
pub proof fn lemma_decode_framed_transfer(tag: u8, attrs: u8, payload: Seq<u8>, pad: Seq<u8>)
    requires
        payload.len() <= u32::MAX,
    ensures
        DevDepMsgInHeader::spec_decode_transfer(
            seq![2u8, tag, !tag, 0u8] + crate::header::spec_u32_le(payload.len() as u32) + seq![
                attrs,
                0u8,
                0u8,
                0u8,
            ] + payload + pad,
        ) == Ok::<(DevDepMsgInHeader, Seq<u8>), ClassError>(
            (
                DevDepMsgInHeader {
                    bulk_in_header: BulkInHeader {
                        msg_id: crate::msgid::MsgIdIn::DevDepMsgIn,
                        b_tag: tag,
                        b_tag_inverse: !tag,
                        reserved: 0,
                    },
                    transfer_size: payload.len() as u32,
                    transfer_attributes: attrs,
                },
                payload,
            ),
        ),
{
    let size = payload.len() as u32;
    let lenb = crate::header::spec_u32_le(size);
    let data = seq![2u8, tag, !tag, 0u8] + lenb + seq![attrs, 0u8, 0u8, 0u8] + payload + pad;
    assert(data[0] == 2u8);
    assert(data[1] == tag);
    assert(data[2] == !tag);
    assert(data[3] == 0u8);
    assert(data[4] == lenb[0]);
    assert(data[5] == lenb[1]);
    assert(data[6] == lenb[2]);
    assert(data[7] == lenb[3]);
    assert(data[8] == attrs);
    crate::header::lemma_u32_le_roundtrip(size);
    assert(spec_u32_from_le(data[4], data[5], data[6], data[7]) == size);
    assert(data.subrange(HEADER_SIZE as int, HEADER_SIZE + size) =~= payload);
}

} // verus!

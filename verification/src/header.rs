use crate::error::ClassError;
use crate::msgid::{MsgId, MsgIdIn, MsgIdOut};
use vstd::prelude::*;

verus! {

/// All bulk transfer headers used in this class are the same size: four
/// common bytes followed by eight message-specific bytes.
pub const HEADER_SIZE: usize = 12;

/// The four little-endian bytes of a 32-bit value.
pub open spec fn spec_u32_le(v: u32) -> Seq<u8> {
    seq![
        (v & 0xff) as u8,
        ((v >> 8) & 0xff) as u8,
        ((v >> 16) & 0xff) as u8,
        ((v >> 24) & 0xff) as u8,
    ]
}

/// The 32-bit value stored little-endian in four bytes.
pub open spec fn spec_u32_from_le(b0: u8, b1: u8, b2: u8, b3: u8) -> u32 {
    (b0 as u32) | ((b1 as u32) << 8) | ((b2 as u32) << 16) | ((b3 as u32) << 24)
}

/// The 16-bit value stored little-endian in two bytes.
pub open spec fn spec_u16_from_le(b0: u8, b1: u8) -> u16 {
    (b0 as u16) | ((b1 as u16) << 8)
}

/// Reassembling the four little-endian bytes of a value gives it back.
pub proof fn lemma_u32_le_roundtrip(v: u32)
    ensures
        spec_u32_from_le(
            spec_u32_le(v)[0],
            spec_u32_le(v)[1],
            spec_u32_le(v)[2],
            spec_u32_le(v)[3],
        ) == v,
{
    assert(((v & 0xff) as u8 as u32) | ((((v >> 8) & 0xff) as u8 as u32) << 8) | ((((v >> 16)
        & 0xff) as u8 as u32) << 16) | ((((v >> 24) & 0xff) as u8 as u32) << 24) == v)
        by (bit_vector);
}

/// Write `v` in little-endian order into `buf` at bytes `offset..offset + 4`.
pub fn write_u32_le(buf: &mut Vec<u8>, offset: usize, v: u32)
    requires
        offset + 4 <= old(buf).len(),
    ensures
        final(buf)@ == old(buf)@.take(offset as int) + spec_u32_le(v) + old(buf)@.skip(offset + 4),
        final(buf).len() == old(buf).len(),
{
    buf[offset] = (v & 0xff) as u8;
    buf[offset + 1] = ((v >> 8) & 0xff) as u8;
    buf[offset + 2] = ((v >> 16) & 0xff) as u8;
    buf[offset + 3] = ((v >> 24) & 0xff) as u8;
    assert(buf@ =~= old(buf)@.take(offset as int) + spec_u32_le(v) + old(buf)@.skip(
        offset + 4,
    ));
}

/// Read the 32-bit value stored little-endian at bytes `offset..offset + 4`.
pub fn read_u32_le(buf: &[u8], offset: usize) -> (v: u32)
    requires
        offset + 4 <= buf.len(),
    ensures
        v == spec_u32_from_le(
            buf@[offset as int],
            buf@[offset + 1],
            buf@[offset + 2],
            buf@[offset + 3],
        ),
{
    (buf[offset] as u32) | ((buf[offset + 1] as u32) << 8) | ((buf[offset + 2] as u32) << 16) | ((
    buf[offset + 3] as u32) << 24)
}

/// Read the 16-bit value stored little-endian at bytes `offset..offset + 2`.
pub fn read_u16_le(buf: &[u8], offset: usize) -> (v: u16)
    requires
        offset + 2 <= buf.len(),
    ensures
        v == spec_u16_from_le(buf@[offset as int], buf@[offset + 1]),
{
    (buf[offset] as u16) | ((buf[offset + 1] as u16) << 8)
}

/// The length of `n` bytes of message padded with zeros up to the next
/// multiple of four, as every bulk transfer must be.
pub open spec fn spec_padded_len(n: nat) -> nat {
    if n % 4 == 0 {
        n
    } else {
        (n + 4 - n % 4) as nat
    }
}

/// `s` followed by the zero padding that brings it to a multiple of four
/// bytes in length.
pub open spec fn spec_pad4(s: Seq<u8>) -> Seq<u8> {
    s + Seq::new((spec_padded_len(s.len()) - s.len()) as nat, |i: int| 0u8)
}

/// Extend `buf` with zero bytes up to the next multiple of four in length.
pub fn pad4(buf: &mut Vec<u8>)
    requires
        old(buf).len() + 3 <= usize::MAX,
    ensures
        final(buf)@ == spec_pad4(old(buf)@),
        final(buf).len() % 4 == 0,
{
    let rem = buf.len() % 4;
    if rem != 0 {
        let target = buf.len() + (4 - rem);
        buf.resize(target, 0u8);
    }
    assert(buf@ =~= spec_pad4(old(buf)@));
}

/// The common data of every bulk transfer header (both directions),
/// excluding the message-specific portion.  Message-specific header types
/// embed this struct and add their own fields; on the wire the
/// message-specific fields always occupy bytes 4 to 11 of the same 12-byte
/// block.
#[derive(Debug, Copy, Clone, PartialEq, Eq, Hash)]
pub struct BulkTransferHeader<M: MsgId> {
    pub msg_id: M,
    pub b_tag: u8,
    pub b_tag_inverse: u8,
    pub reserved: u8,
}

/// The common header of host-to-device bulk transfers.
pub type BulkOutHeader = BulkTransferHeader<MsgIdOut>;

/// The common header of device-to-host bulk transfers.
pub type BulkInHeader = BulkTransferHeader<MsgIdIn>;

impl<M: MsgId> BulkTransferHeader<M> {
    /// A header is well formed when its integrity-check byte is the bitwise
    /// complement of its tag and its reserved byte is zero.
    pub open spec fn wf(self) -> bool {
        self.b_tag_inverse == !self.b_tag && self.reserved == 0
    }

    /// The four common bytes this header packs to.
    pub open spec fn spec_pack(self) -> Seq<u8> {
        seq![self.msg_id.spec_byte(), self.b_tag, self.b_tag_inverse, self.reserved]
    }

    /// What decoding the common header of `data` yields: too few bytes for
    /// a full 12-byte header is a truncation error, a tag whose check byte
    /// is not its complement is an integrity error (whatever byte 0 holds),
    /// and an unknown message identifier is rejected.
    pub open spec fn spec_unpack(data: Seq<u8>) -> Result<Self, ClassError> {
        if data.len() < HEADER_SIZE {
            Err(ClassError::TruncatedHeader)
        } else if data[2] != !data[1] {
            Err(ClassError::TagCheckFailure)
        } else {
            match M::spec_from_byte(data[0]) {
                None => Err(ClassError::InvalidMsgId),
                Some(m) => Ok(
                    BulkTransferHeader {
                        msg_id: m,
                        b_tag: data[1],
                        b_tag_inverse: data[2],
                        reserved: data[3],
                    },
                ),
            }
        }
    }

    /// Build a header for `msg_id` with tag `b_tag`; the integrity-check
    /// byte is always the complement of the tag, never independently set.
    pub fn new(msg_id: M, b_tag: u8) -> (h: Self)
        ensures
            h == (BulkTransferHeader { msg_id, b_tag, b_tag_inverse: !b_tag, reserved: 0u8 }),
            h.wf(),
    {
        BulkTransferHeader { msg_id, b_tag, b_tag_inverse: !b_tag, reserved: 0 }
    }

    /// Write the four common bytes at the start of `buf`, leaving the rest
    /// of the buffer as it was.
    pub fn pack(&self, buf: &mut Vec<u8>)
        requires
            old(buf).len() >= HEADER_SIZE,
        ensures
            final(buf)@ == self.spec_pack() + old(buf)@.skip(4),
            final(buf).len() == old(buf).len(),
    {
        buf[0] = self.msg_id.to_byte();
        buf[1] = self.b_tag;
        buf[2] = self.b_tag_inverse;
        buf[3] = self.reserved;
        assert(buf@ =~= self.spec_pack() + old(buf)@.skip(4));
    }

    /// Decode the common header at the start of `data`.  Fails with
    /// `TruncatedHeader` on any buffer shorter than 12 bytes, with
    /// `TagCheckFailure` whenever byte 2 is not the complement of byte 1
    /// (regardless of what byte 0 holds), and with `InvalidMsgId` on an
    /// unrecognized message identifier.
    pub fn unpack(data: &[u8]) -> (r: Result<Self, ClassError>)
        ensures
            r == Self::spec_unpack(data@),
    {
        if data.len() < HEADER_SIZE {
            return Err(ClassError::TruncatedHeader);
        }
        let b_tag = data[1];
        let b_tag_inverse = data[2];
        if b_tag_inverse != !b_tag {
            return Err(ClassError::TagCheckFailure);
        }
        let msg_id = match M::from_byte(data[0]) {
            Ok(m) => m,
            Err(e) => {
                return Err(e);
            },
        };
        Ok(BulkTransferHeader { msg_id, b_tag, b_tag_inverse, reserved: data[3] })
    }
}

/// For every well-formed header, decoding the bytes it packs to - followed
/// by any eight or more message-specific bytes - yields the header back.
pub proof fn lemma_unpack_pack<M: MsgId>(h: BulkTransferHeader<M>, rest: Seq<u8>)
    requires
        h.wf(),
        rest.len() >= HEADER_SIZE - 4,
    ensures
        BulkTransferHeader::<M>::spec_unpack(h.spec_pack() + rest) == Ok::<
            BulkTransferHeader<M>,
            ClassError,
        >(h),
{
    let data = h.spec_pack() + rest;
    assert(data[0] == h.msg_id.spec_byte());
    assert(data[1] == h.b_tag);
    assert(data[2] == h.b_tag_inverse);
    assert(data[3] == h.reserved);
    h.msg_id.lemma_byte_roundtrip();
}

} // verus!

use byteorder::{ByteOrder, LittleEndian};
use usbtmc::dev_dep_msg_in::{DevDepMsgInHeader, RequestDevDepMsgInHeader};
use usbtmc::dev_dep_msg_out::DevDepMsgOutHeader;
use usbtmc::error::ClassError;
use usbtmc::header::{BulkInHeader, BulkOutHeader, BulkTransferHeader, HEADER_SIZE};
use usbtmc::msgid::{MsgId, MsgIdIn, MsgIdOut};
use usbtmc::vendor_specific_in::{RequestVendorSpecificInHeader, VendorSpecificInHeader};
use usbtmc::vendor_specific_out::VendorSpecificOutHeader;

fn packed_out(h: &BulkTransferHeader<MsgIdOut>) -> Vec<u8> {
    let mut buf = vec![0u8; HEADER_SIZE];
    h.pack(&mut buf);
    buf
}

#[test]
fn header_pack_unpack_roundtrip_out() {
    for tag in [0u8, 1, 5, 127, 254, 255] {
        for id in [
            MsgIdOut::DevDepMsgOut,
            MsgIdOut::RequestDevDepMsgIn,
            MsgIdOut::VendorSpecificOut,
            MsgIdOut::RequestVendorSpecificIn,
        ] {
            let h = BulkOutHeader::new(id, tag);
            let buf = packed_out(&h);
            assert_eq!(BulkOutHeader::unpack(&buf), Ok(h));
        }
    }
}

#[test]
fn header_pack_unpack_roundtrip_in() {
    for tag in [0u8, 3, 255] {
        for id in [MsgIdIn::DevDepMsgIn, MsgIdIn::VendorSpecificIn] {
            let h = BulkInHeader::new(id, tag);
            let mut buf = vec![0u8; HEADER_SIZE];
            h.pack(&mut buf);
            assert_eq!(BulkInHeader::unpack(&buf), Ok(h));
        }
    }
}

#[test]
fn header_pack_writes_common_bytes() {
    let h = BulkOutHeader::new(MsgIdOut::RequestDevDepMsgIn, 7);
    let buf = packed_out(&h);
    assert_eq!(&buf[0..4], &[2, 7, !7u8, 0]);
}

#[test]
fn unpack_short_buffer_is_truncated_header() {
    for len in 0..HEADER_SIZE {
        let buf = vec![1u8; len];
        assert_eq!(
            BulkOutHeader::unpack(&buf),
            Err(ClassError::TruncatedHeader)
        );
        assert_eq!(BulkInHeader::unpack(&buf), Err(ClassError::TruncatedHeader));
    }
}

#[test]
fn unpack_bad_tag_inverse_is_tag_check_failure() {
    // valid msg id, broken tag check
    let buf = [1u8, 5, 5, 0, 0, 0, 0, 0, 0, 0, 0, 0];
    assert_eq!(
        BulkOutHeader::unpack(&buf),
        Err(ClassError::TagCheckFailure)
    );
    // broken msg id *and* broken tag check: the tag check decides
    let buf = [99u8, 5, 5, 0, 0, 0, 0, 0, 0, 0, 0, 0];
    assert_eq!(
        BulkOutHeader::unpack(&buf),
        Err(ClassError::TagCheckFailure)
    );
}

#[test]
fn unpack_unknown_msg_id_is_invalid_msg_id() {
    let buf = [99u8, 5, !5u8, 0, 0, 0, 0, 0, 0, 0, 0, 0];
    assert_eq!(BulkOutHeader::unpack(&buf), Err(ClassError::InvalidMsgId));
    // 1 is a valid host-to-device id but not a device-to-host one
    let buf = [1u8, 5, !5u8, 0, 0, 0, 0, 0, 0, 0, 0, 0];
    assert_eq!(BulkInHeader::unpack(&buf), Err(ClassError::InvalidMsgId));
}

#[test]
fn msg_id_byte_mappings() {
    assert_eq!(MsgIdOut::DevDepMsgOut.to_byte(), 1);
    assert_eq!(MsgIdOut::RequestDevDepMsgIn.to_byte(), 2);
    assert_eq!(MsgIdOut::VendorSpecificOut.to_byte(), 3);
    assert_eq!(MsgIdOut::RequestVendorSpecificIn.to_byte(), 4);
    assert_eq!(MsgIdIn::DevDepMsgIn.to_byte(), 2);
    assert_eq!(MsgIdIn::VendorSpecificIn.to_byte(), 4);
    assert_eq!(MsgIdOut::from_byte(3), Ok(MsgIdOut::VendorSpecificOut));
    assert_eq!(MsgIdOut::from_byte(0), Err(ClassError::InvalidMsgId));
    assert_eq!(MsgIdOut::from_byte(5), Err(ClassError::InvalidMsgId));
    assert_eq!(MsgIdIn::from_byte(2), Ok(MsgIdIn::DevDepMsgIn));
    assert_eq!(MsgIdIn::from_byte(1), Err(ClassError::InvalidMsgId));
}

#[test]
fn encode_message_pads_to_multiple_of_four() {
    for payload_len in [0usize, 1, 2, 3, 4, 5, 7, 8, 452, 1024] {
        let data = vec![0xabu8; payload_len];
        let mut buf = Vec::new();
        DevDepMsgOutHeader::encode_message(9, &data, true, &mut buf);
        assert_eq!(buf.len() % 4, 0, "length {} not padded", buf.len());
        // declared transfer size is exactly the payload length
        assert_eq!(LittleEndian::read_u32(&buf[4..8]), payload_len as u32);
        // the payload follows the header unchanged, then zero padding
        assert_eq!(&buf[HEADER_SIZE..HEADER_SIZE + payload_len], &data[..]);
        for &pad in &buf[HEADER_SIZE + payload_len..] {
            assert_eq!(pad, 0);
        }
    }
}

#[test]
fn encode_message_header_content() {
    let data = [1u8, 2, 3];
    let mut buf = Vec::new();
    DevDepMsgOutHeader::encode_message(4, &data, false, &mut buf);
    assert_eq!(buf.len(), 16);
    assert_eq!(&buf[0..4], &[1, 4, !4u8, 0]);
    let mut size_bytes = [0u8; 4];
    LittleEndian::write_u32(&mut size_bytes, 3);
    assert_eq!(&buf[4..8], &size_bytes);
    assert_eq!(buf[8], 0); // no end-of-message flag
    let mut buf2 = Vec::new();
    DevDepMsgOutHeader::encode_message(4, &data, true, &mut buf2);
    assert_eq!(buf2[8], 1); // end-of-message flag
}

#[test]
fn request_dev_dep_msg_in_encoding() {
    let mut buf = Vec::new();
    RequestDevDepMsgInHeader::encode_message(3, 1024, None, &mut buf);
    assert_eq!(buf.len(), HEADER_SIZE);
    assert_eq!(&buf[0..4], &[2, 3, !3u8, 0]);
    assert_eq!(LittleEndian::read_u32(&buf[4..8]), 1024);
    assert_eq!(buf[8], 0);
    assert_eq!(buf[9], 0);

    let mut buf = Vec::new();
    RequestDevDepMsgInHeader::encode_message(3, 256, Some(b'\n'), &mut buf);
    assert_eq!(buf[8], 2); // terminator-character attribute bit
    assert_eq!(buf[9], b'\n');
}

#[test]
fn dev_dep_msg_in_decode_transfer() {
    let mut frame = vec![2u8, 1, !1u8, 0];
    let mut size_bytes = [0u8; 4];
    LittleEndian::write_u32(&mut size_bytes, 5);
    frame.extend_from_slice(&size_bytes);
    frame.extend_from_slice(&[1, 0, 0, 0]); // attrs: end of message
    frame.extend_from_slice(&[10, 20, 30, 40, 50, 0, 0, 0]); // payload + padding
    let (header, data) = DevDepMsgInHeader::decode_transfer(&frame).unwrap();
    assert_eq!(header.transfer_size, 5);
    assert!(header.is_eom());
    assert!(!header.has_term_char());
    assert_eq!(data, &[10, 20, 30, 40, 50]);
}

#[test]
fn dev_dep_msg_in_decode_rejects_short_payload() {
    // header declares 100 payload bytes but only 4 follow
    let mut frame = vec![2u8, 1, !1u8, 0];
    let mut size_bytes = [0u8; 4];
    LittleEndian::write_u32(&mut size_bytes, 100);
    frame.extend_from_slice(&size_bytes);
    frame.extend_from_slice(&[1, 0, 0, 0]);
    frame.extend_from_slice(&[9, 9, 9, 9]);
    assert_eq!(
        DevDepMsgInHeader::decode_transfer(&frame),
        Err(ClassError::TruncatedHeader)
    );
}

#[test]
fn dev_dep_msg_in_attribute_bits() {
    let mut frame = vec![2u8, 1, !1u8, 0, 0, 0, 0, 0, 2, 0, 0, 0];
    let header = DevDepMsgInHeader::unpack(&frame).unwrap();
    assert!(!header.is_eom());
    assert!(header.has_term_char());
    frame[8] = 3;
    let header = DevDepMsgInHeader::unpack(&frame).unwrap();
    assert!(header.is_eom());
    assert!(header.has_term_char());
}

#[test]
fn vendor_specific_out_pack() {
    let h = VendorSpecificOutHeader::new(6, 77);
    let mut buf = vec![0u8; HEADER_SIZE];
    h.pack(&mut buf);
    assert_eq!(&buf[0..4], &[3, 6, !6u8, 0]);
    assert_eq!(LittleEndian::read_u32(&buf[4..8]), 77);
    assert_eq!(&buf[8..12], &[0, 0, 0, 0]);
}

#[test]
fn request_vendor_specific_in_pack() {
    let h = RequestVendorSpecificInHeader::new(8, 512);
    let mut buf = vec![0u8; HEADER_SIZE];
    h.pack(&mut buf);
    assert_eq!(&buf[0..4], &[4, 8, !8u8, 0]);
    assert_eq!(LittleEndian::read_u32(&buf[4..8]), 512);
}

#[test]
fn vendor_specific_in_decode_transfer() {
    let mut frame = vec![4u8, 2, !2u8, 0];
    let mut size_bytes = [0u8; 4];
    LittleEndian::write_u32(&mut size_bytes, 3);
    frame.extend_from_slice(&size_bytes);
    frame.extend_from_slice(&[0, 0, 0, 0]);
    frame.extend_from_slice(&[7, 8, 9, 0]);
    let (header, data) = VendorSpecificInHeader::decode_transfer(&frame).unwrap();
    assert_eq!(header.transfer_size, 3);
    assert_eq!(data, &[7, 8, 9]);
    assert_eq!(
        VendorSpecificInHeader::unpack(&frame[..4]),
        Err(ClassError::TruncatedHeader)
    );
}

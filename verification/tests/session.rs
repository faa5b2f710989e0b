use byteorder::{ByteOrder, LittleEndian};
use usbtmc::error::ClassError;
use usbtmc::get_capabilities::USBTMCCapabilities;
use usbtmc::handle::InstrumentHandle;
use usbtmc::header::HEADER_SIZE;
use usbtmc::request::ControlRequest;
use usbtmc::status::Status;

/// A `DevDepMsgIn` frame as a device would send it: header, payload, and
/// zero padding to a multiple of four bytes.
fn dev_dep_msg_in_frame(tag: u8, attrs: u8, payload: &[u8]) -> Vec<u8> {
    let mut frame = vec![2u8, tag, !tag, 0];
    let mut size_bytes = [0u8; 4];
    LittleEndian::write_u32(&mut size_bytes, payload.len() as u32);
    frame.extend_from_slice(&size_bytes);
    frame.extend_from_slice(&[attrs, 0, 0, 0]);
    frame.extend_from_slice(payload);
    while frame.len() % 4 != 0 {
        frame.push(0);
    }
    frame
}

fn handle_with_term_char_support() -> InstrumentHandle {
    let mut h = InstrumentHandle::new();
    h.usbtmc_capabilities = USBTMCCapabilities {
        bcd_usbtmc: 0x0100,
        pulse: false,
        talk_only: false,
        listen_only: false,
        term_char: true,
    };
    h
}

#[test]
fn fresh_session_defaults() {
    let h = InstrumentHandle::new();
    assert_eq!(h.b_tag, 0);
    assert_eq!(h.get_max_transfer_size(), 1024 * 1024);
    assert_eq!(h.get_term_char(), None);
    assert_eq!(h.get_timeout(), 1000);
    assert!(!h.usbtmc_capabilities.is_valid());
    assert!(h.usb488_capabilities.is_none());
}

#[test]
fn tag_sequence_starts_at_one_and_wraps_to_one() {
    let mut h = InstrumentHandle::new();
    h.incr_b_tag();
    assert_eq!(h.b_tag, 1); // first allocated tag
    for _ in 0..254 {
        h.incr_b_tag();
    }
    assert_eq!(h.b_tag, 255);
    h.incr_b_tag();
    assert_eq!(h.b_tag, 1); // wraps past 255 straight to 1, skipping 0
}

#[test]
fn tag_sequence_on_write_messages() {
    let mut h = InstrumentHandle::new();
    h.set_max_transfer_size(8);
    let msgs = h.write_raw(&[0u8; 20]); // three chunks: tags 1, 2, 3
    assert_eq!(msgs[0][1], 1);
    assert_eq!(msgs[1][1], 2);
    assert_eq!(msgs[2][1], 3);
    assert_eq!(h.b_tag, 3);
}

#[test]
fn set_term_char_rules() {
    let mut h = handle_with_term_char_support();
    assert_eq!(
        h.set_term_char(Some(0)),
        Err(ClassError::InvalidTermChar)
    );
    assert_eq!(h.get_term_char(), None);
    assert_eq!(h.set_term_char(Some(b'\n')), Ok(()));
    assert_eq!(h.get_term_char(), Some(b'\n'));
    assert_eq!(h.set_term_char(None), Ok(()));
    assert_eq!(h.get_term_char(), None);
}

#[test]
fn set_term_char_needs_capability() {
    let mut h = InstrumentHandle::new(); // placeholder capabilities: no support
    assert_eq!(
        h.set_term_char(Some(b'\n')),
        Err(ClassError::UnsupportedFeature)
    );
    // byte 0 is rejected as invalid even without capability support
    assert_eq!(h.set_term_char(Some(0)), Err(ClassError::InvalidTermChar));
    assert_eq!(h.set_term_char(None), Ok(()));
}

#[test]
fn timeout_and_max_transfer_size_accessors() {
    let mut h = InstrumentHandle::new();
    h.set_timeout(2500);
    assert_eq!(h.get_timeout(), 2500);
    h.set_max_transfer_size(4096);
    assert_eq!(h.get_max_transfer_size(), 4096);
}

#[test]
fn pulse_is_gated_on_capability() {
    let mut h = InstrumentHandle::new();
    assert_eq!(h.pulse(), Err(ClassError::UnsupportedFeature));
    h.usbtmc_capabilities.pulse = true;
    assert_eq!(h.pulse(), Ok(ControlRequest::IndicatorPulse));
}

#[test]
fn clear_status_step_decisions() {
    assert_eq!(InstrumentHandle::clear_status_step(&[0x01, 0]), Ok(true));
    assert_eq!(InstrumentHandle::clear_status_step(&[0x02, 0]), Ok(false));
    assert_eq!(
        InstrumentHandle::clear_status_step(&[0x80]),
        Err(ClassError::UnexpectedStatus(Status::Failed))
    );
    assert_eq!(
        InstrumentHandle::clear_status_step(&[]),
        Err(ClassError::TruncatedControlResponse)
    );
}

#[test]
fn check_bulk_out_flags_short_writes() {
    assert_eq!(InstrumentHandle::check_bulk_out(16, 16), Ok(()));
    assert_eq!(InstrumentHandle::check_bulk_out(20, 16), Ok(()));
    assert_eq!(
        InstrumentHandle::check_bulk_out(15, 16),
        Err(ClassError::TruncatedBulkOut)
    );
}

#[test]
fn update_capabilities_parses_both_blocks() {
    let mut buf = vec![0u8; 24];
    buf[0] = 0x01; // Success
    buf[3] = 0x01; // USBTMC bcd 0x0100
    buf[4] = 0x04; // pulse
    buf[13] = 0x01; // USB488 bcd 0x0100
    buf[14] = 0x07; // usb488_2 + remote_local + trigger
    buf[15] = 0x04; // sr
    let mut h = InstrumentHandle::new();
    // protocol code 1 signals USB488
    assert_eq!(h.update_capabilities(1, &buf), Ok(()));
    assert!(h.usbtmc_capabilities.pulse);
    assert!(h.usbtmc_capabilities.is_valid());
    let u488 = h.usb488_capabilities.clone().unwrap();
    assert!(u488.usb488_2 && u488.sr && u488.trigger);

    // any other protocol code: the USB488 block is not even parsed
    let mut h = InstrumentHandle::new();
    assert_eq!(h.update_capabilities(0, &buf), Ok(()));
    assert!(h.usbtmc_capabilities.pulse);
    assert!(h.usb488_capabilities.is_none());
}

#[test]
fn update_capabilities_propagates_errors() {
    let mut h = InstrumentHandle::new();
    assert_eq!(
        h.update_capabilities(1, &[0x01; 4]),
        Err(ClassError::TruncatedControlResponse)
    );
    // invalid USB488 combination: scpi without usb488_2
    let mut buf = vec![0u8; 16];
    buf[0] = 0x01;
    buf[3] = 0x01;
    buf[13] = 0x01;
    buf[15] = 0x08;
    assert_eq!(
        h.update_capabilities(1, &buf),
        Err(ClassError::InvalidCapabilities)
    );
}

#[test]
fn write_chunking_three_chunks_with_eom_on_last() {
    let mut h = InstrumentHandle::new();
    h.set_max_transfer_size(1024);
    let payload: Vec<u8> = (0..2500u32).map(|i| (i % 251) as u8).collect();
    let msgs = h.write_raw(&payload);
    assert_eq!(msgs.len(), 3);
    let sizes: Vec<u32> = msgs
        .iter()
        .map(|m| LittleEndian::read_u32(&m[4..8]))
        .collect();
    assert_eq!(sizes, vec![1024, 1024, 452]);
    // end-of-message flag only on the third chunk
    assert_eq!(msgs[0][8], 0);
    assert_eq!(msgs[1][8], 0);
    assert_eq!(msgs[2][8], 1);
    // each message is padded to a multiple of four and carries its chunk
    assert_eq!(msgs[0].len(), HEADER_SIZE + 1024);
    assert_eq!(msgs[1].len(), HEADER_SIZE + 1024);
    assert_eq!(msgs[2].len(), HEADER_SIZE + 452);
    assert_eq!(&msgs[0][HEADER_SIZE..], &payload[0..1024]);
    assert_eq!(&msgs[1][HEADER_SIZE..], &payload[1024..2048]);
    assert_eq!(&msgs[2][HEADER_SIZE..], &payload[2048..2500]);
}

#[test]
fn write_of_empty_payload_sends_nothing() {
    let mut h = InstrumentHandle::new();
    let msgs = h.write_raw(&[]);
    assert!(msgs.is_empty());
    assert_eq!(h.b_tag, 0);
}

#[test]
fn read_assembles_two_frames() {
    let mut h = InstrumentHandle::new();
    let responses = vec![
        dev_dep_msg_in_frame(1, 0, &vec![0x11u8; 512]), // no end of message
        dev_dep_msg_in_frame(2, 1, &vec![0x22u8; 10]),  // end of message
    ];
    let outcome = h.read_raw(None, &responses).unwrap();
    assert!(outcome.complete);
    assert_eq!(outcome.data.len(), 522);
    assert_eq!(&outcome.data[0..512], &vec![0x11u8; 512][..]);
    assert_eq!(&outcome.data[512..], &vec![0x22u8; 10][..]);
    assert_eq!(outcome.requests.len(), 2);
    // each request asks for the full configured transfer size
    for req in &outcome.requests {
        assert_eq!(req[0], 2);
        assert_eq!(LittleEndian::read_u32(&req[4..8]), 1024 * 1024);
    }
    assert_eq!(outcome.requests[0][1], 1);
    assert_eq!(outcome.requests[1][1], 2);
}

#[test]
fn read_requests_cap_at_max_transfer_size() {
    let mut h = InstrumentHandle::new();
    h.set_max_transfer_size(256);
    let responses = vec![dev_dep_msg_in_frame(1, 1, &[1, 2, 3])];
    let outcome = h.read_raw(Some(4096), &responses).unwrap();
    assert_eq!(LittleEndian::read_u32(&outcome.requests[0][4..8]), 256);
    let responses = vec![dev_dep_msg_in_frame(2, 1, &[4])];
    let outcome = h.read_raw(Some(16), &responses).unwrap();
    assert_eq!(LittleEndian::read_u32(&outcome.requests[0][4..8]), 16);
}

#[test]
fn read_carries_term_char_in_requests() {
    let mut h = handle_with_term_char_support();
    h.set_term_char(Some(b'\n')).unwrap();
    let responses = vec![dev_dep_msg_in_frame(1, 1, b"ok")];
    let outcome = h.read_raw(None, &responses).unwrap();
    assert_eq!(outcome.requests[0][8], 2);
    assert_eq!(outcome.requests[0][9], b'\n');
}

#[test]
fn read_fails_on_undecodable_frame() {
    let mut h = InstrumentHandle::new();
    let mut bad = dev_dep_msg_in_frame(1, 1, &[1, 2, 3]);
    bad[2] = bad[1]; // break the tag integrity check
    let r = h.read_raw(None, &vec![bad]);
    assert_eq!(r, Err(ClassError::TagCheckFailure));
    assert_eq!(h.b_tag, 1); // the request tag was still consumed
}

#[test]
fn ask_raw_is_write_then_read() {
    let payload: Vec<u8> = (0..100u8).collect();
    let responses = vec![
        dev_dep_msg_in_frame(7, 0, b"hello "),
        dev_dep_msg_in_frame(8, 1, b"world"),
    ];

    let mut asked = InstrumentHandle::new();
    asked.set_max_transfer_size(64);
    let (write_msgs, outcome) = asked.ask_raw(&payload, &responses).unwrap();

    let mut stepped = InstrumentHandle::new();
    stepped.set_max_transfer_size(64);
    let expect_msgs = stepped.write_raw(&payload);
    let expect_outcome = stepped.read_raw(None, &responses).unwrap();

    assert_eq!(write_msgs, expect_msgs);
    assert_eq!(outcome, expect_outcome);
    assert_eq!(asked.b_tag, stepped.b_tag);
    assert_eq!(String::from_utf8(outcome.data).unwrap(), "hello world");
}

#[test]
fn read_with_no_responses_is_empty_and_incomplete() {
    let mut h = InstrumentHandle::new();
    let outcome = h.read_raw(None, &Vec::new()).unwrap();
    assert!(!outcome.complete);
    assert!(outcome.data.is_empty());
    assert!(outcome.requests.is_empty());
    assert_eq!(h.b_tag, 0);
}

#[test]
fn read_stops_at_first_eom_frame() {
    let mut h = InstrumentHandle::new();
    let responses = vec![
        dev_dep_msg_in_frame(1, 1, &[9, 9]),
        dev_dep_msg_in_frame(2, 1, &[8, 8]),
    ];
    let outcome = h.read_raw(None, &responses).unwrap();
    assert!(outcome.complete);
    assert_eq!(outcome.data, vec![9, 9]);
    assert_eq!(outcome.requests.len(), 1);
}

#[test]
fn read_without_eom_reports_incomplete() {
    let mut h = InstrumentHandle::new();
    let responses = vec![dev_dep_msg_in_frame(1, 0, &[5, 6])];
    let outcome = h.read_raw(None, &responses).unwrap();
    assert!(!outcome.complete);
    assert_eq!(outcome.data, vec![5, 6]);
}

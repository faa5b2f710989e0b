use vstd::prelude::*;

verus! {

/// Information about a USB device's test-and-measurement interface, needed
/// to address the right endpoints when talking to the instrument.  Device
/// discovery fills it in once; it is immutable afterwards.
#[derive(Debug, Clone, PartialEq, Eq)]
pub struct TMCInterface {
    /// The ID of the USB interface on the instrument that complies to the
    /// test-and-measurement class.
    pub interface_number: u8,
    /// The interface's protocol code, used to identify subclasses such as
    /// USB488.
    pub interface_protocol: u8,
    /// The endpoint address (not number) of the mandatory bulk-out
    /// endpoint, for sending messages to the instrument.
    pub bulk_out_address: u8,
    /// The endpoint address (not number) of the mandatory bulk-in
    /// endpoint, for receiving messages from the instrument.
    pub bulk_in_address: u8,
    /// The endpoint address (not number) of the optional interrupt-in
    /// endpoint, for receiving asynchronous notifications.
    pub interrupt_in_address: Option<u8>,
    /// Maximum packet size of the control-in endpoint.
    pub control_in_max_packet_size: u16,
    /// Maximum packet size of the bulk-out endpoint.
    pub bulk_out_max_packet_size: u16,
    /// Maximum packet size of the bulk-in endpoint.
    pub bulk_in_max_packet_size: u16,
}

} // verus!

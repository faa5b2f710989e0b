//! A verified implementation of the USB Test and Measurement Class (USBTMC)
//! protocol layer: bulk-transfer header framing, control-request status and
//! capability handling, and the session logic (tag sequencing, chunked
//! writes, multi-frame reads) that a USB transport backend drives.

pub mod dev_dep_msg_in;
pub mod dev_dep_msg_out;
pub mod endpoints;
pub mod error;
pub mod get_capabilities;
pub mod handle;
pub mod header;
pub mod msgid;
pub mod request;
pub mod status;
pub mod vendor_specific_in;
pub mod vendor_specific_out;

pub use dev_dep_msg_in::DevDepMsgInHeader;
pub use dev_dep_msg_in::RequestDevDepMsgInHeader;
pub use dev_dep_msg_out::DevDepMsgOutHeader;
pub use endpoints::TMCInterface;
pub use error::ClassError;
pub use get_capabilities::USB488Capabilities;
pub use get_capabilities::USBTMCCapabilities;
pub use handle::InstrumentHandle;
pub use handle::ReadOutcome;
pub use header::BulkInHeader;
pub use header::BulkOutHeader;
pub use header::BulkTransferHeader;
pub use header::HEADER_SIZE;
pub use msgid::MsgId;
pub use msgid::MsgIdIn;
pub use msgid::MsgIdOut;
pub use request::ControlRequest;
pub use status::Status;
pub use vendor_specific_in::RequestVendorSpecificInHeader;
pub use vendor_specific_in::VendorSpecificInHeader;
pub use vendor_specific_out::VendorSpecificOutHeader;

//! Decoding of the Interface Description Block of the pcapng capture format,
//! together with the tagged option list that every pcapng block carries.

pub mod endian;
pub mod errors;
pub mod options;
pub mod datalink;
pub mod interface_description;

pub use datalink::DataLink;
pub use endian::Endianness;
pub use errors::PcapError;
pub use interface_description::{InterfaceDescriptionBlock, InterfaceDescriptionOption};

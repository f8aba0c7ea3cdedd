//! Subnet sizing for IPv4: from a required host count to the host-bit width,
//! the subnet mask, the prefix length and their textual renderings.
//!
//! A request is a host count, an IP version number and an output mode. The
//! host count fixes the host bits (`host_bits`), these fix the mask and the
//! prefix length (`mask`), the mask splits into octets (`octets`), and
//! `format` and `output` turn the values into text. Only version 4 is served;
//! `error` names the refusals and their exit statuses.
//!
//! Every function is total: nothing here panics, prints or ends the process.

pub mod error;
pub mod format;
pub mod host_bits;
pub mod mask;
pub mod octets;
pub mod output;

pub use error::SubnetError;
pub use format::{
    format_dotted_binary, format_dotted_decimal, format_machine_binary, format_prefix,
};
pub use host_bits::calculate_host_bits;
pub use mask::{calculate_prefix, calculate_subnet_mask};
pub use octets::calculate_mask_octets;
pub use output::{render, OutputType};

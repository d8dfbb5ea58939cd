//! Core logic for a virtual Xbox-360-compatible controller attached through a
//! bus-emulation driver: the closed error taxonomy, input-report
//! accumulation, the coalescing of asynchronous driver output notifications
//! into a pollable event stream, and the plug-in rollback rules.
//!
//! The driver itself is a foreign collaborator; everything that talks to it
//! directly lives outside this crate and feeds plain values in and out of the
//! functions here.

pub mod device;
pub mod errors;
pub mod output;
pub mod plugin;
pub mod report;

pub use device::Device;
pub use device::notify_raw_output;
pub use errors::ClientErrorConvertable;
pub use errors::Error;
pub use errors::RawErrorCode;
pub use output::Output;
pub use plugin::resolve_plug_in;
pub use output::RawOutput;
pub use report::Button;
pub use report::Input;
pub use report::Report;

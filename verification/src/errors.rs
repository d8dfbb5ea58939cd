//! The closed error taxonomy of the driver, and the conversion from the raw
//! status codes that the bus-emulation driver reports.

use vstd::prelude::*;

verus! {

/// A raw status code as the bus-emulation driver reports it.
pub type RawErrorCode = u32;

/// The driver call succeeded.
pub const VIGEM_ERROR_NONE: u32 = 0x20000000;
/// The bus-emulation driver is not installed or not reachable.
pub const VIGEM_ERROR_BUS_NOT_FOUND: u32 = 0xE0000001;
/// Every slot on the emulated bus is occupied.
pub const VIGEM_ERROR_NO_FREE_SLOT: u32 = 0xE0000002;
/// The target handle does not name a live target.
pub const VIGEM_ERROR_INVALID_TARGET: u32 = 0xE0000003;
/// The driver failed to detach the target from the bus.
pub const VIGEM_ERROR_REMOVAL_FAILED: u32 = 0xE0000004;
/// The target is already attached to the bus.
pub const VIGEM_ERROR_ALREADY_CONNECTED: u32 = 0xE0000005;
/// The target was never initialized.
pub const VIGEM_ERROR_TARGET_UNINITIALIZED: u32 = 0xE0000006;
/// The target is not attached to the bus.
pub const VIGEM_ERROR_TARGET_NOT_PLUGGED_IN: u32 = 0xE0000007;
/// The installed driver speaks another protocol version.
pub const VIGEM_ERROR_BUS_VERSION_MISMATCH: u32 = 0xE0000008;
/// Opening the bus device failed.
pub const VIGEM_ERROR_BUS_ACCESS_FAILED: u32 = 0xE0000009;
/// A notification callback is already registered for this target.
pub const VIGEM_ERROR_CALLBACK_ALREADY_REGISTERED: u32 = 0xE0000010;
/// No notification callback is registered for this target.
pub const VIGEM_ERROR_CALLBACK_NOT_FOUND: u32 = 0xE0000011;
/// The client is already connected to the bus.
pub const VIGEM_ERROR_BUS_ALREADY_CONNECTED: u32 = 0xE0000012;
/// The bus handle is invalid.
pub const VIGEM_ERROR_BUS_INVALID_HANDLE: u32 = 0xE0000013;
/// The requested user index is out of range.
pub const VIGEM_ERROR_XUSB_USERINDEX_OUT_OF_RANGE: u32 = 0xE0000014;
/// A parameter of the driver call was invalid.
pub const VIGEM_ERROR_INVALID_PARAMETER: u32 = 0xE0000015;
/// The driver does not support the requested operation.
pub const VIGEM_ERROR_NOT_SUPPORTED: u32 = 0xE0000016;

/// One variant per distinct driver-reported failure, plus the compound
/// `PlugInError` used only on the plug-in rollback path and `Unknown` as the
/// forward-compatible catch-all for unrecognized codes.
#[derive(Debug, PartialEq, Eq)]
pub enum Error {
    BusNotFound,
    NoFreeSlot,
    InvalidTarget,
    RemovalFailed,
    AlreadyConnected,
    TargetUninitialized,
    TargetNotPluggedIn,
    BusVersionMismatch,
    BusAccessFailed,
    CallbackAlreadyRegistered,
    CallbackNotFound,
    BusAlreadyConnected,
    BusInvalidHandle,
    UserIndexOutOfRange,
    InvalidParameter,
    NotSupported,
    /// The plug-in rollback path failed twice over: the first field is the
    /// registration error that triggered the rollback, the second the error
    /// of the remove-target call that was meant to undo the earlier add.
    PlugInError(Box<Error>, Box<Error>),
    Unknown,
}

/// The variant that a raw driver status code maps to, or `None` for success.
pub open spec fn spec_error_of_code(code: RawErrorCode) -> Option<Error> {
    if code == VIGEM_ERROR_NONE {
        None
    } else if code == VIGEM_ERROR_BUS_NOT_FOUND {
        Some(Error::BusNotFound)
    } else if code == VIGEM_ERROR_NO_FREE_SLOT {
        Some(Error::NoFreeSlot)
    } else if code == VIGEM_ERROR_INVALID_TARGET {
        Some(Error::InvalidTarget)
    } else if code == VIGEM_ERROR_REMOVAL_FAILED {
        Some(Error::RemovalFailed)
    } else if code == VIGEM_ERROR_ALREADY_CONNECTED {
        Some(Error::AlreadyConnected)
    } else if code == VIGEM_ERROR_TARGET_UNINITIALIZED {
        Some(Error::TargetUninitialized)
    } else if code == VIGEM_ERROR_TARGET_NOT_PLUGGED_IN {
        Some(Error::TargetNotPluggedIn)
    } else if code == VIGEM_ERROR_BUS_VERSION_MISMATCH {
        Some(Error::BusVersionMismatch)
    } else if code == VIGEM_ERROR_BUS_ACCESS_FAILED {
        Some(Error::BusAccessFailed)
    } else if code == VIGEM_ERROR_CALLBACK_ALREADY_REGISTERED {
        Some(Error::CallbackAlreadyRegistered)
    } else if code == VIGEM_ERROR_CALLBACK_NOT_FOUND {
        Some(Error::CallbackNotFound)
    } else if code == VIGEM_ERROR_BUS_ALREADY_CONNECTED {
        Some(Error::BusAlreadyConnected)
    } else if code == VIGEM_ERROR_BUS_INVALID_HANDLE {
        Some(Error::BusInvalidHandle)
    } else if code == VIGEM_ERROR_XUSB_USERINDEX_OUT_OF_RANGE {
        Some(Error::UserIndexOutOfRange)
    } else if code == VIGEM_ERROR_INVALID_PARAMETER {
        Some(Error::InvalidParameter)
    } else if code == VIGEM_ERROR_NOT_SUPPORTED {
        Some(Error::NotSupported)
    } else {
        Some(Error::Unknown)
    }
}

/// Conversion of a driver-reported status into the library's error taxonomy:
/// `None` means the call succeeded.
pub trait ClientErrorConvertable {
    /// The error, if any, that this status stands for.
    spec fn spec_error(&self) -> Option<Error>;

    /// Maps this status to its error variant, or to `None` on success.
    fn to_error(&self) -> (r: Option<Error>)
        ensures
            r == self.spec_error(),
    ;
}

impl ClientErrorConvertable for RawErrorCode {
    open spec fn spec_error(&self) -> Option<Error> {
        spec_error_of_code(*self)
    }

    fn to_error(&self) -> (r: Option<Error>) {
        let code: u32 = *self;
        if code == VIGEM_ERROR_NONE {
            None
        } else if code == VIGEM_ERROR_BUS_NOT_FOUND {
            Some(Error::BusNotFound)
        } else if code == VIGEM_ERROR_NO_FREE_SLOT {
            Some(Error::NoFreeSlot)
        } else if code == VIGEM_ERROR_INVALID_TARGET {
            Some(Error::InvalidTarget)
        } else if code == VIGEM_ERROR_REMOVAL_FAILED {
            Some(Error::RemovalFailed)
        } else if code == VIGEM_ERROR_ALREADY_CONNECTED {
            Some(Error::AlreadyConnected)
        } else if code == VIGEM_ERROR_TARGET_UNINITIALIZED {
            Some(Error::TargetUninitialized)
        } else if code == VIGEM_ERROR_TARGET_NOT_PLUGGED_IN {
            Some(Error::TargetNotPluggedIn)
        } else if code == VIGEM_ERROR_BUS_VERSION_MISMATCH {
            Some(Error::BusVersionMismatch)
        } else if code == VIGEM_ERROR_BUS_ACCESS_FAILED {
            Some(Error::BusAccessFailed)
        } else if code == VIGEM_ERROR_CALLBACK_ALREADY_REGISTERED {
            Some(Error::CallbackAlreadyRegistered)
        } else if code == VIGEM_ERROR_CALLBACK_NOT_FOUND {
            Some(Error::CallbackNotFound)
        } else if code == VIGEM_ERROR_BUS_ALREADY_CONNECTED {
            Some(Error::BusAlreadyConnected)
        } else if code == VIGEM_ERROR_BUS_INVALID_HANDLE {
            Some(Error::BusInvalidHandle)
        } else if code == VIGEM_ERROR_XUSB_USERINDEX_OUT_OF_RANGE {
            Some(Error::UserIndexOutOfRange)
        } else if code == VIGEM_ERROR_INVALID_PARAMETER {
            Some(Error::InvalidParameter)
        } else if code == VIGEM_ERROR_NOT_SUPPORTED {
            Some(Error::NotSupported)
        } else {
            Some(Error::Unknown)
        }
    }
}

} // verus!

use vstd::prelude::*;

verus! {

/// Error statuses of the FTDI driver.
#[derive(PartialEq, Eq, Structural, Clone, Copy, Debug)]
pub enum FtdiBoardStatus {
    InvalidHandle,
    DeviceNotFound,
    DeviceNotOpened,
    IoError,
    InsufficientResources,
    InvalidParameter,
    InvalidBaudRate,
    DeviceNotOpenedForErase,
    DeviceNotOpenedForWrite,
    FailedToWriteDevice,
    EepromReadFailed,
    EepromWriteFailed,
    EepromEraseFailed,
    EepromNotPresent,
    EepromNotProgrammed,
    InvalidArgs,
    NotSupported,
    OtherError,
    DeviceListNotReady,
}

/// The driver's number for status `s`.
pub open spec fn status_number(s: FtdiBoardStatus) -> u32 {
    match s {
        FtdiBoardStatus::InvalidHandle => 1,
        FtdiBoardStatus::DeviceNotFound => 2,
        FtdiBoardStatus::DeviceNotOpened => 3,
        FtdiBoardStatus::IoError => 4,
        FtdiBoardStatus::InsufficientResources => 5,
        FtdiBoardStatus::InvalidParameter => 6,
        FtdiBoardStatus::InvalidBaudRate => 7,
        FtdiBoardStatus::DeviceNotOpenedForErase => 8,
        FtdiBoardStatus::DeviceNotOpenedForWrite => 9,
        FtdiBoardStatus::FailedToWriteDevice => 10,
        FtdiBoardStatus::EepromReadFailed => 11,
        FtdiBoardStatus::EepromWriteFailed => 12,
        FtdiBoardStatus::EepromEraseFailed => 13,
        FtdiBoardStatus::EepromNotPresent => 14,
        FtdiBoardStatus::EepromNotProgrammed => 15,
        FtdiBoardStatus::InvalidArgs => 16,
        FtdiBoardStatus::NotSupported => 17,
        FtdiBoardStatus::OtherError => 18,
        FtdiBoardStatus::DeviceListNotReady => 19,
    }
}

impl FtdiBoardStatus {
    /// The driver's number for this status.
    pub fn code(&self) -> (r: u32)
        ensures
            r == status_number(*self),
    {
        match self {
            FtdiBoardStatus::InvalidHandle => 1,
            FtdiBoardStatus::DeviceNotFound => 2,
            FtdiBoardStatus::DeviceNotOpened => 3,
            FtdiBoardStatus::IoError => 4,
            FtdiBoardStatus::InsufficientResources => 5,
            FtdiBoardStatus::InvalidParameter => 6,
            FtdiBoardStatus::InvalidBaudRate => 7,
            FtdiBoardStatus::DeviceNotOpenedForErase => 8,
            FtdiBoardStatus::DeviceNotOpenedForWrite => 9,
            FtdiBoardStatus::FailedToWriteDevice => 10,
            FtdiBoardStatus::EepromReadFailed => 11,
            FtdiBoardStatus::EepromWriteFailed => 12,
            FtdiBoardStatus::EepromEraseFailed => 13,
            FtdiBoardStatus::EepromNotPresent => 14,
            FtdiBoardStatus::EepromNotProgrammed => 15,
            FtdiBoardStatus::InvalidArgs => 16,
            FtdiBoardStatus::NotSupported => 17,
            FtdiBoardStatus::OtherError => 18,
            FtdiBoardStatus::DeviceListNotReady => 19,
        }
    }
}

} // verus!

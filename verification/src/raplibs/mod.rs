pub mod base;
pub mod flash;
pub mod ftdi_wrapper;
pub mod sanity_checks;
pub mod settings;
pub mod sha256;
pub mod text;
pub mod write_commands;

use vstd::prelude::*;

use ftdi_wrapper::{FtdiBoardStatus, MSG_ERROR_CODE};

verus! {

/// Version of this software, reported when the board firmware is checked.
pub const SOFTWARE_VERSION: u32 = 23061401;

/// Oldest firmware version that this software can drive.
pub const MIN_SUPPORTED_FIRMWARE_VERSION: u32 = 23060802;

/// Word that a board echoes back when communication works.
pub const CHECK_VALUE: u32 = 0xabcd1234;

/// Errors of the board library.
#[derive(Debug)]
pub enum RapLibErrors {
    FtdiStatus(FtdiBoardStatus),
    SettingsError(String),
    StreamerError(String),
    UnhandledError(String),
}

impl From<FtdiBoardStatus> for RapLibErrors {
    fn from(err: FtdiBoardStatus) -> (r: RapLibErrors) {
        RapLibErrors::FtdiStatus(err)
    }
}

impl vstd::std_specs::convert::FromSpecImpl<FtdiBoardStatus> for RapLibErrors {
    open spec fn obeys_from_spec() -> bool {
        true
    }

    open spec fn from_spec(err: FtdiBoardStatus) -> RapLibErrors {
        RapLibErrors::FtdiStatus(err)
    }
}

pub const MSG_FTDI_ERROR: &'static str = "FTDI Error: ";

pub const MSG_STREAMER_ERROR: &'static str = "Streamer Error: ";

pub const MSG_SETTINGS_ERROR: &'static str = "Settings Error: ";

pub const MSG_UNHANDLED_ERROR: &'static str = "Unhandled External Error. Please restart.";

/// How an error reads in messages.
pub open spec fn error_text(e: RapLibErrors) -> Seq<char> {
    match e {
        RapLibErrors::FtdiStatus(x) => MSG_FTDI_ERROR@ + MSG_ERROR_CODE@ + x.text(),
        RapLibErrors::StreamerError(x) => MSG_STREAMER_ERROR@ + x@,
        RapLibErrors::SettingsError(x) => MSG_SETTINGS_ERROR@ + x@,
        RapLibErrors::UnhandledError(_) => MSG_UNHANDLED_ERROR@,
    }
}

impl RapLibErrors {
    /// How the error reads in messages.
    pub fn to_string(&self) -> (r: String)
        ensures
            r@ == error_text(*self),
    {
        match self {
            RapLibErrors::FtdiStatus(x) => String::from_str(MSG_FTDI_ERROR).concat(
                x.to_string().as_str(),
            ),
            RapLibErrors::StreamerError(x) => String::from_str(MSG_STREAMER_ERROR).concat(
                x.as_str(),
            ),
            RapLibErrors::SettingsError(x) => String::from_str(MSG_SETTINGS_ERROR).concat(
                x.as_str(),
            ),
            RapLibErrors::UnhandledError(_) => String::from_str(MSG_UNHANDLED_ERROR),
        }
    }
}

} // verus!

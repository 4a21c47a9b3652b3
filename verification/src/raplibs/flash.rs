use vstd::prelude::*;

use super::write_commands::{BoardCommand, WriteCommands, command, command_code, write_single};
use super::{RapLibErrors, error_text};

verus! {

/// Status word of a flash operation that succeeded ("OK").
pub const FLASH_SUCCESS: u32 = 0x00004F4B;

/// Status word of a flash operation that failed ("ERR").
pub const FLASH_FAILURE: u32 = 0x00455252;

/// Bytes in a page of the board's flash.
pub const FLASH_PAGESIZE: usize = 256;

pub const MSG_STATUS_MISMATCH: &'static str = "FLASH communication: status mismatch.";

pub const MSG_CMD_MISMATCH: &'static str = "FLASH communication failed: cmd mismatch.";

/// The calibration stored in a board's flash, as the flash holds it: the
/// high voltage in hundredths of a volt, the threshold DAC value, and the
/// reference temperature in tenths of a degree.
#[derive(PartialEq, Eq, Structural, Clone, Copy, Debug)]
pub struct FlashRecord {
    pub hv_centivolts: u32,
    pub dac: u32,
    pub ref_temp_decidegrees: u32,
}

/// The 24-bit big-endian number at `start` in `page`.
pub open spec fn be24(page: Seq<u8>, start: int) -> u32 {
    (page[start] * 0x1_0000 + page[start + 1] * 0x100 + page[start + 2]) as u32
}

/// The calibration held in a flash page.
pub open spec fn flash_record(page: Seq<u8>) -> FlashRecord {
    FlashRecord {
        hv_centivolts: be24(page, 17),
        dac: be24(page, 21),
        ref_temp_decidegrees: be24(page, 25),
    }
}

fn read_be24(page: &[u8], start: usize) -> (r: u32)
    requires
        start + 3 <= page@.len(),
    ensures
        r == be24(page@, start as int),
{
    (page[start] as u32) * 0x1_0000 + (page[start + 1] as u32) * 0x100 + (page[start + 2] as u32)
}

/// The calibration held in a page read from the flash.
pub fn decode_flash_read_data(read_data: &[u8]) -> (r: FlashRecord)
    requires
        read_data@.len() >= 28,
    ensures
        r == flash_record(read_data@),
{
    FlashRecord {
        hv_centivolts: read_be24(read_data, 17),
        dac: read_be24(read_data, 21),
        ref_temp_decidegrees: read_be24(read_data, 25),
    }
}

/// The write that prepares the flash for reading.
pub fn inititialize_flash() -> (r: Vec<BoardCommand>)
    ensures
        r@ == seq![command(command_code(WriteCommands::ReqInitFlash), 0)],
{
    write_single(WriteCommands::ReqInitFlash.into(), 0)
}

/// The write that asks for a page of the flash.
pub fn req_read_flash() -> (r: Vec<BoardCommand>)
    ensures
        r@ == seq![command(command_code(WriteCommands::ReqReadFlash), 0)],
{
    write_single(WriteCommands::ReqReadFlash.into(), 0)
}

/// Judges the board's echo of flash command `cmd`: the low byte of the word
/// read back must be the command.
pub fn check_flash_echo(cmd: u8, echoed: u32) -> (r: Result<(), RapLibErrors>)
    ensures
        r is Ok <==> echoed % 256 == cmd,
        r is Err ==> (r matches Err(RapLibErrors::StreamerError(m)) && m@ == MSG_CMD_MISMATCH@),
{
    let command: u8 = echoed as u8;
    assert((echoed as u8) as int == echoed % 256) by (bit_vector);
    if command == cmd {
        Ok(())
    } else {
        Err(RapLibErrors::StreamerError(String::from_str(MSG_CMD_MISMATCH)))
    }
}

/// Judges the status word that follows a flash command.
pub fn check_flash_status(status: u32) -> (r: Result<(), RapLibErrors>)
    ensures
        r is Ok <==> status == FLASH_SUCCESS,
        r is Err ==> (r matches Err(RapLibErrors::StreamerError(m)) && m@ == MSG_STATUS_MISMATCH@),
{
    if status == FLASH_SUCCESS {
        Ok(())
    } else {
        Err(RapLibErrors::StreamerError(String::from_str(MSG_STATUS_MISMATCH)))
    }
}

/// A failure while reading the flash, reported as a streamer error that
/// carries the failure's text.
pub fn flash_read_error(x: RapLibErrors) -> (r: RapLibErrors)
    ensures
        r matches RapLibErrors::StreamerError(m) && m@ == error_text(x),
{
    RapLibErrors::StreamerError(x.to_string())
}

} // verus!

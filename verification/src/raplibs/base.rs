use vstd::prelude::*;

use super::text::{append_decimal, append_hex_word, decimal_text, hex_word_text};
use super::write_commands::{
    BoardCommand, WriteCommands, command, command_code, write_pack, write_pack_spec, write_single,
};
use super::{CHECK_VALUE, MIN_SUPPORTED_FIRMWARE_VERSION, RapLibErrors};

verus! {

pub const MSG_CHECK_VALUE_MISMATCH: &'static str = "Communication NOT OK: received check_value: ";

pub const MSG_CHECK_VALUE_EXPECTED: &'static str = " expected value: ";

pub const MSG_FIRMWARE: &'static str = "Firmware ";

pub const MSG_FIRMWARE_UNSUPPORTED: &'static str = " NOT SUPPORTED: minimum version required: ";

pub const MSG_FULL_STOP: &'static str = ".";

/// The writes that ask the board to echo the check value and its firmware
/// version.
pub fn check_board_communication() -> (r: Vec<BoardCommand>)
    ensures
        r@ == write_pack_spec(7, 0x1234),
{
    let cmd: u8 = 7;
    let value: u16 = 0x1234;
    write_pack(cmd, value)
}

/// The message for a wrong check value.
pub open spec fn check_value_message(check_value: u32) -> Seq<char> {
    MSG_CHECK_VALUE_MISMATCH@ + hex_word_text(check_value) + MSG_CHECK_VALUE_EXPECTED@
        + hex_word_text(CHECK_VALUE)
}

/// The message for an unsupported firmware version.
pub open spec fn firmware_message(fw_version: u32) -> Seq<char> {
    MSG_FIRMWARE@ + decimal_text(fw_version as nat) + MSG_FIRMWARE_UNSUPPORTED@ + decimal_text(
        MIN_SUPPORTED_FIRMWARE_VERSION as nat,
    ) + MSG_FULL_STOP@
}

/// Judges the board's answer to the communication check: the check value
/// must be the expected one and the firmware recent enough.
pub fn check_board_communication_reply(check_value: u32, fw_version: u32) -> (r: Result<
    (),
    RapLibErrors,
>)
    ensures
        r is Ok <==> (check_value == CHECK_VALUE && fw_version >= MIN_SUPPORTED_FIRMWARE_VERSION),
        check_value != CHECK_VALUE ==> (r matches Err(RapLibErrors::StreamerError(m)) && m@
            == check_value_message(check_value)),
        check_value == CHECK_VALUE && fw_version < MIN_SUPPORTED_FIRMWARE_VERSION ==> (r matches Err(
            RapLibErrors::StreamerError(m),
        ) && m@ == firmware_message(fw_version)),
{
    if check_value == CHECK_VALUE && fw_version >= MIN_SUPPORTED_FIRMWARE_VERSION {
        Ok(())
    } else if check_value != CHECK_VALUE {
        let mut msg = String::from_str(MSG_CHECK_VALUE_MISMATCH);
        append_hex_word(&mut msg, check_value);
        msg.append(MSG_CHECK_VALUE_EXPECTED);
        append_hex_word(&mut msg, CHECK_VALUE);
        Err(RapLibErrors::StreamerError(msg))
    } else {
        let mut msg = String::from_str(MSG_FIRMWARE);
        append_decimal(&mut msg, fw_version);
        msg.append(MSG_FIRMWARE_UNSUPPORTED);
        append_decimal(&mut msg, MIN_SUPPORTED_FIRMWARE_VERSION);
        msg.append(MSG_FULL_STOP);
        Err(RapLibErrors::StreamerError(msg))
    }
}

/// The writes that ask the board for `value` raw TDC words.
pub fn request_raw_tdc_words(value: u16) -> (r: Vec<BoardCommand>)
    ensures
        r@ == write_pack_spec(6, value),
{
    let cmd: u8 = 6;
    write_pack(cmd, value)
}

/// The write that asks the board for its dark count rate.
pub fn req_read_dcr() -> (r: Vec<BoardCommand>)
    ensures
        r@ == seq![command(command_code(WriteCommands::ReqReadDCR), 0)],
{
    write_single(WriteCommands::ReqReadDCR.into(), 0)
}

/// The write that asks the board for its temperature.
pub fn req_temperature() -> (r: Vec<BoardCommand>)
    ensures
        r@ == seq![command(command_code(WriteCommands::ReqTemperature), 0)],
{
    write_single(WriteCommands::ReqTemperature.into(), 0)
}

/// The temperature, in sixteenths of a degree, of a temperature reading: the
/// sensor gives 2048 sixteenths at most, and readings above that are
/// negative temperatures.
pub open spec fn temperature_sixteenths_spec(temperature_dac: u32) -> int {
    if temperature_dac <= 2048 {
        temperature_dac as int
    } else {
        temperature_dac as int - 4096
    }
}

/// The temperature, in sixteenths of a degree, of the reading
/// `temperature_dac`, or `None` where it lies outside -20 to 100 degrees.
pub fn temperature_sixteenths(temperature_dac: u32) -> (r: Option<i64>)
    ensures
        -20 * 16 <= temperature_sixteenths_spec(temperature_dac) <= 100 * 16 ==> r == Some(
            temperature_sixteenths_spec(temperature_dac) as i64,
        ),
        !(-20 * 16 <= temperature_sixteenths_spec(temperature_dac) <= 100 * 16) ==> r is None,
{
    let t: i64 = if temperature_dac <= 2048 {
        temperature_dac as i64
    } else {
        temperature_dac as i64 - 4096
    };
    if t < -20 * 16 || t > 100 * 16 {
        None
    } else {
        Some(t)
    }
}

/// The write that clears the fail flag latch.
pub fn reset_fail_flag_latch() -> (r: Vec<BoardCommand>)
    ensures
        r@ == seq![command(command_code(WriteCommands::ResetFailFlagLatch), 1)],
{
    write_single(WriteCommands::ResetFailFlagLatch.into(), 1)
}

/// The argument that selects which parts of the board to reset.
pub open spec fn reset_mask(reset_tdc: bool, reset_mono: bool, reset_sha256: bool) -> u16 {
    ((if reset_sha256 {
        1int
    } else {
        0
    }) + (if reset_mono {
        2int
    } else {
        0
    }) + (if reset_tdc {
        4int
    } else {
        0
    })) as u16
}

/// The writes that reset the TDC, the monobit test and the SHA-256
/// accelerator, as selected.
pub fn reset_rap_values(reset_tdc: bool, reset_mono: bool, reset_sha256: bool) -> (r: Vec<
    BoardCommand,
>)
    ensures
        r@ == write_pack_spec(5, reset_mask(reset_tdc, reset_mono, reset_sha256)),
{
    let cmd: u8 = 5;
    let mut value: u16 = 0;
    if reset_sha256 {
        value += 1;
    }
    if reset_mono {
        value += 2;
    }
    if reset_tdc {
        value += 4;
    }
    write_pack(cmd, value)
}

/// The write that sets how long the board counts dark pulses.
pub fn set_gate_dcr(value: u16) -> (r: Vec<BoardCommand>)
    ensures
        r@ == seq![command(command_code(WriteCommands::SetGateDCR), value)],
{
    write_single(WriteCommands::SetGateDCR.into(), value)
}

/// The write that sets the TDC time threshold.
pub fn set_tdc_time_threshold(afp_threshold: u16) -> (r: Vec<BoardCommand>)
    ensures
        r@ == seq![command(command_code(WriteCommands::SetTDCTimeThreshold), afp_threshold)],
{
    write_single(WriteCommands::SetTDCTimeThreshold.into(), afp_threshold)
}

/// The write that sets the threshold DAC; only the low 16 bits are sent.
pub fn set_thdac(dac_val: u32) -> (r: Vec<BoardCommand>)
    ensures
        r@ == seq![command(command_code(WriteCommands::SetThDac), (dac_val % 0x1_0000) as u16)],
{
    let value: u16 = (dac_val % 0x1_0000) as u16;
    write_single(WriteCommands::SetThDac.into(), value)
}

/// The write that stops the board.
pub fn stop() -> (r: Vec<BoardCommand>)
    ensures
        r@ == seq![command(command_code(WriteCommands::ReqStop), 0)],
{
    write_single(WriteCommands::ReqStop.into(), 0)
}

/// The writes that ask for the generation counter.
pub fn req_generation_counter() -> (r: Vec<BoardCommand>)
    ensures
        r@ == write_pack_spec(4, 0),
{
    write_pack(4, 0)
}

} // verus!

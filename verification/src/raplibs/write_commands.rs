use vstd::prelude::*;

verus! {

/// Command codes understood by the board firmware.
pub enum WriteCommands {
    ReqStop,
    SetHVDac,
    SetThDac,
    ReqTemperature,
    ReqReadDCR,
    SetGateDCR,
    ResetTDCFifo,
    SetTDCTimeThreshold,
    ReqInitFlash,
    ReqEraseFlash,
    ReqWriteFlash,
    ReqReadFlash,
    SetSequenceLengthRuns,
    SetFailFlagLatchEventAlarmThr,
    SetReportMode,
    SetSequenceLengthPowerOf2,
    SetNumOfSequencesPowerOf2,
    SetConfidenceLevelUpper,
    SetConfidenceLevelLower,
    ResetFailFlagLatch,
    ReadFailFlagLatch,
    SetOperationMode,
    ReqReadMonoFifo,
    ReqReadRunsFlagLatches,
    ReqReadRunsZValFlag,
    SetConfidenceLevelRuns,
    SetNumOfSequencesPowerOf2Runs,
    ReqWritePackFirst,
    ReqWritePackSecond,
}

/// The byte that the firmware expects for each command.
pub open spec fn command_code(wc: WriteCommands) -> u8 {
    match wc {
        WriteCommands::ReqStop => 0x00,
        WriteCommands::SetHVDac => 0xA3,
        WriteCommands::SetThDac => 0xA4,
        WriteCommands::ReqTemperature => 0xA5,
        WriteCommands::ReqReadDCR => 0xA6,
        WriteCommands::SetGateDCR => 0xA8,
        WriteCommands::ResetTDCFifo => 0xC2,
        WriteCommands::SetTDCTimeThreshold => 0xC7,
        WriteCommands::ReqInitFlash => 0xD0,
        WriteCommands::ReqEraseFlash => 0xD1,
        WriteCommands::ReqWriteFlash => 0xD2,
        WriteCommands::ReqReadFlash => 0xD3,
        WriteCommands::SetSequenceLengthRuns => 0xEA,
        WriteCommands::SetFailFlagLatchEventAlarmThr => 0xEB,
        WriteCommands::SetReportMode => 0xEC,
        WriteCommands::SetSequenceLengthPowerOf2 => 0xED,
        WriteCommands::SetNumOfSequencesPowerOf2 => 0xEE,
        WriteCommands::SetConfidenceLevelUpper => 0xEF,
        WriteCommands::SetConfidenceLevelLower => 0xF0,
        WriteCommands::ResetFailFlagLatch => 0xF1,
        WriteCommands::ReadFailFlagLatch => 0xF2,
        WriteCommands::SetOperationMode => 0xF5,
        WriteCommands::ReqReadMonoFifo => 0xF7,
        WriteCommands::ReqReadRunsFlagLatches => 0xF9,
        WriteCommands::ReqReadRunsZValFlag => 0xFA,
        WriteCommands::SetConfidenceLevelRuns => 0xFB,
        WriteCommands::SetNumOfSequencesPowerOf2Runs => 0xFC,
        WriteCommands::ReqWritePackFirst => 0xFE,
        WriteCommands::ReqWritePackSecond => 0xFF,
    }
}

impl WriteCommands {
    /// The command byte of this command.
    pub fn code(&self) -> (r: u8)
        ensures
            r == command_code(*self),
    {
        match self {
            WriteCommands::ReqStop => 0x00,
            WriteCommands::SetHVDac => 0xA3,
            WriteCommands::SetThDac => 0xA4,
            WriteCommands::ReqTemperature => 0xA5,
            WriteCommands::ReqReadDCR => 0xA6,
            WriteCommands::SetGateDCR => 0xA8,
            WriteCommands::ResetTDCFifo => 0xC2,
            WriteCommands::SetTDCTimeThreshold => 0xC7,
            WriteCommands::ReqInitFlash => 0xD0,
            WriteCommands::ReqEraseFlash => 0xD1,
            WriteCommands::ReqWriteFlash => 0xD2,
            WriteCommands::ReqReadFlash => 0xD3,
            WriteCommands::SetSequenceLengthRuns => 0xEA,
            WriteCommands::SetFailFlagLatchEventAlarmThr => 0xEB,
            WriteCommands::SetReportMode => 0xEC,
            WriteCommands::SetSequenceLengthPowerOf2 => 0xED,
            WriteCommands::SetNumOfSequencesPowerOf2 => 0xEE,
            WriteCommands::SetConfidenceLevelUpper => 0xEF,
            WriteCommands::SetConfidenceLevelLower => 0xF0,
            WriteCommands::ResetFailFlagLatch => 0xF1,
            WriteCommands::ReadFailFlagLatch => 0xF2,
            WriteCommands::SetOperationMode => 0xF5,
            WriteCommands::ReqReadMonoFifo => 0xF7,
            WriteCommands::ReqReadRunsFlagLatches => 0xF9,
            WriteCommands::ReqReadRunsZValFlag => 0xFA,
            WriteCommands::SetConfidenceLevelRuns => 0xFB,
            WriteCommands::SetNumOfSequencesPowerOf2Runs => 0xFC,
            WriteCommands::ReqWritePackFirst => 0xFE,
            WriteCommands::ReqWritePackSecond => 0xFF,
        }
    }
}

impl From<WriteCommands> for u8 {
    fn from(wc: WriteCommands) -> (r: u8) {
        wc.code()
    }
}

impl vstd::std_specs::convert::FromSpecImpl<WriteCommands> for u8 {
    open spec fn obeys_from_spec() -> bool {
        true
    }

    open spec fn from_spec(wc: WriteCommands) -> u8 {
        command_code(wc)
    }
}

/// One write to the board: a command byte and its 16-bit argument.
#[derive(PartialEq, Eq, Structural, Clone, Copy, Debug)]
pub struct BoardCommand {
    pub cmd: u8,
    pub value: u16,
}

/// The board command `cmd` with argument `value`.
pub open spec fn command(cmd: u8, value: u16) -> BoardCommand {
    BoardCommand { cmd, value }
}

/// The two writes by which an extended command `cmd` is sent with argument
/// `value`: its number with the first pack command, then the argument with
/// the second.
pub open spec fn write_pack_spec(cmd: u8, value: u16) -> Seq<BoardCommand> {
    seq![command(0xFE, cmd as u16), command(0xFF, value)]
}

/// The two writes by which an extended command `cmd` is sent with argument
/// `value`.
pub fn write_pack(cmd: u8, value: u16) -> (r: Vec<BoardCommand>)
    ensures
        r@ == write_pack_spec(cmd, value),
{
    let cmd1: u8 = WriteCommands::ReqWritePackFirst.into();
    let cmd2: u8 = WriteCommands::ReqWritePackSecond.into();
    let value1: u16 = cmd as u16;
    let mut r: Vec<BoardCommand> = Vec::new();
    r.push(BoardCommand { cmd: cmd1, value: value1 });
    r.push(BoardCommand { cmd: cmd2, value });
    assert(r@ =~= write_pack_spec(cmd, value));
    r
}

/// A single write of command `cmd` with argument `value`.
pub fn write_single(cmd: u8, value: u16) -> (r: Vec<BoardCommand>)
    ensures
        r@ == seq![command(cmd, value)],
{
    let mut r: Vec<BoardCommand> = Vec::new();
    r.push(BoardCommand { cmd, value });
    assert(r@ =~= seq![command(cmd, value)]);
    r
}

} // verus!

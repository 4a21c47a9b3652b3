use vstd::prelude::*;

verus! {

/// An error reported by the FTDI driver, kept as its text.
#[derive(Debug)]
pub struct FtdiBoardStatus {
    err: String,
}

impl FtdiBoardStatus {
    /// The driver's error text.
    pub closed spec fn text(&self) -> Seq<char> {
        self.err@
    }

    /// Wraps the driver's error text.
    pub fn new(err: String) -> (r: FtdiBoardStatus)
        ensures
            r.text() == err@,
    {
        FtdiBoardStatus { err }
    }

    /// The driver's error text.
    pub fn error_text(&self) -> (r: String)
        ensures
            r@ == self.text(),
    {
        self.err.clone()
    }

    /// How the error reads in messages.
    pub fn to_string(&self) -> (r: String)
        ensures
            r@ == MSG_ERROR_CODE@ + self.text(),
    {
        String::from_str(MSG_ERROR_CODE).concat(self.err.as_str())
    }
}

pub const MSG_ERROR_CODE: &'static str = "Error code: ";

/// The four bytes that carry a command to the board: a start byte, the
/// argument in big-endian order, then the command byte.
pub open spec fn frame_spec(cmd: u8, value: u16) -> Seq<u8> {
    seq![0xa5u8, (value / 256) as u8, (value % 256) as u8, cmd]
}

/// The four bytes that carry command `cmd` with argument `value`.
pub fn command_frame(cmd: u8, value: u16) -> (r: [u8; 4])
    ensures
        r@ == frame_spec(cmd, value),
{
    let mut tdc_command: [u8; 4] = [0; 4];
    tdc_command[0] = 0xa5;
    tdc_command[3] = cmd;
    let hi: u8 = (value / 256) as u8;
    let lo: u8 = (value % 256) as u8;
    tdc_command[1] = hi;
    tdc_command[2] = lo;
    assert(tdc_command@ =~= frame_spec(cmd, value));
    tdc_command
}

/// Different commands travel as different frames: the frame gives back the
/// command byte and its argument.
pub proof fn law_frame_determines_command(c1: u8, v1: u16, c2: u8, v2: u16)
    requires
        frame_spec(c1, v1) == frame_spec(c2, v2),
    ensures
        c1 == c2,
        v1 == v2,
{
    assert(frame_spec(c1, v1)[1] == frame_spec(c2, v2)[1]);
    assert(frame_spec(c1, v1)[2] == frame_spec(c2, v2)[2]);
    assert(frame_spec(c1, v1)[3] == frame_spec(c2, v2)[3]);
    assert(v1 == (v1 / 256) * 256 + v1 % 256);
    assert(v2 == (v2 / 256) * 256 + v2 % 256);
}

/// The number that four bytes give in big-endian order.
pub open spec fn be_u32_spec(b: Seq<u8>) -> int {
    b[0] * 0x100_0000 + b[1] * 0x1_0000 + b[2] * 0x100 + b[3]
}

/// The number that four bytes read from the board give (big-endian).
pub fn u32_from_be_bytes(b: [u8; 4]) -> (r: u32)
    ensures
        r == be_u32_spec(b@),
{
    (b[0] as u32) * 0x100_0000 + (b[1] as u32) * 0x1_0000 + (b[2] as u32) * 0x100 + (b[3] as u32)
}

/// The number that eight bytes give in big-endian order.
pub open spec fn be_u64_spec(b: Seq<u8>) -> int {
    be_u32_spec(b.subrange(0, 4)) * 0x1_0000_0000 + be_u32_spec(b.subrange(4, 8))
}

/// The number that eight bytes read from the board give (big-endian).
pub fn u64_from_be_bytes(b: [u8; 8]) -> (r: u64)
    ensures
        r == be_u64_spec(b@),
{
    let high: u32 = u32_from_be_bytes([b[0], b[1], b[2], b[3]]);
    let low: u32 = u32_from_be_bytes([b[4], b[5], b[6], b[7]]);
    assert(b@.subrange(0, 4) =~= seq![b[0], b[1], b[2], b[3]]);
    assert(b@.subrange(4, 8) =~= seq![b[4], b[5], b[6], b[7]]);
    (high as u64) * 0x1_0000_0000 + (low as u64)
}

} // verus!

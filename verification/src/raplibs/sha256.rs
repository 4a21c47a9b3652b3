use vstd::prelude::*;

use super::settings::RunSettings;
use super::text::{append_decimal, decimal_text};
use super::write_commands::{BoardCommand, write_pack, write_pack_spec};
use super::RapLibErrors;

verus! {

/// Status codes of the SHA-256 accelerator.
#[derive(PartialEq, Eq, Structural, Clone, Copy, Debug)]
pub enum ShaAcceleratorStatus {
    Success,
    ErrorFifo,
    OkFifo,
    Sha256Timeout,
    Sha256Error,
    Sha256Special,
    ResetOk,
    ResetError,
    ResetTimeout,
    CompError,
}

/// The number by which the accelerator reports `s`.
pub open spec fn status_code(s: ShaAcceleratorStatus) -> u32 {
    match s {
        ShaAcceleratorStatus::Success => 0,
        ShaAcceleratorStatus::ErrorFifo => 1,
        ShaAcceleratorStatus::OkFifo => 2,
        ShaAcceleratorStatus::Sha256Timeout => 3,
        ShaAcceleratorStatus::Sha256Error => 4,
        ShaAcceleratorStatus::Sha256Special => 5,
        ShaAcceleratorStatus::ResetOk => 6,
        ShaAcceleratorStatus::ResetError => 7,
        ShaAcceleratorStatus::ResetTimeout => 8,
        ShaAcceleratorStatus::CompError => 9,
    }
}

impl ShaAcceleratorStatus {
    /// The number by which the accelerator reports this status.
    pub fn code(&self) -> (r: u32)
        ensures
            r == status_code(*self),
    {
        match self {
            ShaAcceleratorStatus::Success => 0,
            ShaAcceleratorStatus::ErrorFifo => 1,
            ShaAcceleratorStatus::OkFifo => 2,
            ShaAcceleratorStatus::Sha256Timeout => 3,
            ShaAcceleratorStatus::Sha256Error => 4,
            ShaAcceleratorStatus::Sha256Special => 5,
            ShaAcceleratorStatus::ResetOk => 6,
            ShaAcceleratorStatus::ResetError => 7,
            ShaAcceleratorStatus::ResetTimeout => 8,
            ShaAcceleratorStatus::CompError => 9,
        }
    }
}

pub const MSG_SELF_TEST_FAILED: &'static str =
    "SHA256 initialization and self test failed. Fifo_status = ";

pub const MSG_SELF_TEST_RESULT: &'static str = "; SHA256_selftest = ";

/// The writes that start the accelerator's initialization and self test.
pub fn req_init_self_test_sha256() -> (r: Vec<BoardCommand>)
    ensures
        r@ == write_pack_spec(0, 0),
{
    write_pack(0, 0)
}

/// The message for a failed self test.
pub open spec fn self_test_message(status: u32) -> Seq<char> {
    MSG_SELF_TEST_FAILED@ + decimal_text((status / 16) as nat) + MSG_SELF_TEST_RESULT@
        + decimal_text((status % 16) as nat)
}

/// Judges the status word of the accelerator's self test: its FIFO status
/// (bits 4 and up) must be "FIFO ok" and its self test result (low four
/// bits) "ok".
pub fn perform_accelerator_initialization(status: u32) -> (r: Result<(), RapLibErrors>)
    ensures
        r is Ok <==> (status / 16 == status_code(ShaAcceleratorStatus::OkFifo) && status % 16
            == status_code(ShaAcceleratorStatus::Success)),
        r is Err ==> (r matches Err(RapLibErrors::StreamerError(m)) && m@ == self_test_message(
            status,
        )),
{
    let fifo_status: u32 = status >> 4;
    let sha256_selftest: u32 = status & 0xf;
    assert(status >> 4 == status / 16) by (bit_vector);
    assert(status & 0xf == status % 16) by (bit_vector);
    if fifo_status == ShaAcceleratorStatus::OkFifo.code() && sha256_selftest
        == ShaAcceleratorStatus::Success.code() {
        Ok(())
    } else {
        let mut msg = String::from_str(MSG_SELF_TEST_FAILED);
        append_decimal(&mut msg, fifo_status);
        msg.append(MSG_SELF_TEST_RESULT);
        append_decimal(&mut msg, sha256_selftest);
        Err(RapLibErrors::StreamerError(msg))
    }
}

/// The writes that ask for the SHA-256 FIFO.
pub fn req_read_sha256_fifo() -> (r: Vec<BoardCommand>)
    ensures
        r@ == write_pack_spec(3, 0),
{
    write_pack(3, 0)
}

/// The writes that set the reduction ratio of the accelerator: the board
/// takes half the ratio, less one.
pub fn set_reduction_ratio(run_settings: RunSettings) -> (r: Vec<BoardCommand>)
    requires
        run_settings@.sha256_reduction_ratio >= 2,
    ensures
        r@ == write_pack_spec(2, (run_settings@.sha256_reduction_ratio / 2 - 1) as u16),
{
    let cmd: u8 = 2;
    let value: u16 = (run_settings.get_sha256_reduction_ratio() / 2) - 1;
    write_pack(cmd, value)
}

/// The SHA-256 results among the bytes read from the FIFO: the first
/// `words_in_fpga` of them.
pub fn sha256_results(read: &[u8], words_in_fpga: usize) -> (r: Vec<u8>)
    requires
        words_in_fpga <= read@.len(),
    ensures
        r@ == read@.subrange(0, words_in_fpga as int),
{
    let mut r: Vec<u8> = Vec::new();
    let mut i: usize = 0;
    while i < words_in_fpga
        invariant
            i <= words_in_fpga <= read@.len(),
            r@ == read@.subrange(0, i as int),
        decreases words_in_fpga - i,
    {
        r.push(read[i]);
        i = i + 1;
        assert(r@ =~= read@.subrange(0, i as int));
    }
    r
}

} // verus!

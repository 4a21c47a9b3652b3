use vstd::prelude::*;

use super::settings::{RunSettings, RunSettingsView, power};
use super::write_commands::{
    BoardCommand, WriteCommands, command, command_code, write_pack, write_pack_spec, write_single,
};

verus! {

/// A confidence level as the board takes it: scaled by 2^10 and saturated
/// to 16 bits.
pub open spec fn confidence_adjusted(value: u16) -> u16 {
    if value as int * 1024 > u16::MAX {
        u16::MAX
    } else {
        (value as int * 1024) as u16
    }
}

fn adjust_confidence_level(value: u16) -> (r: u16)
    ensures
        r == confidence_adjusted(value),
{
    let scaled: u32 = value as u32 * 1024;
    if scaled > 0xffff {
        0xffff
    } else {
        scaled as u16
    }
}

/// The writes that give the board the settings of its accelerators, in the
/// order in which they are sent.
pub open spec fn fpga_settings_commands(v: RunSettingsView) -> Seq<BoardCommand> {
    seq![
        command(command_code(WriteCommands::SetOperationMode), 0),
        command(command_code(WriteCommands::SetReportMode), 1),
        command(
            command_code(WriteCommands::SetSequenceLengthPowerOf2),
            v.mono_sequence_length_power_of_2,
        ),
        command(
            command_code(WriteCommands::SetNumOfSequencesPowerOf2),
            v.mono_num_of_sequences_power_of_2,
        ),
        command(
            command_code(WriteCommands::SetConfidenceLevelUpper),
            confidence_adjusted(v.mono_confidence_level_upper),
        ),
        command(
            command_code(WriteCommands::SetConfidenceLevelLower),
            confidence_adjusted(v.mono_confidence_level_lower),
        ),
        command(
            command_code(WriteCommands::SetFailFlagLatchEventAlarmThr),
            v.sanity_fail_flag_latch_event_alarm_thr,
        ),
        command(
            command_code(WriteCommands::SetSequenceLengthRuns),
            (v.runs_sequence_length - 5) as u16,
        ),
        command(
            command_code(WriteCommands::SetNumOfSequencesPowerOf2Runs),
            v.runs_num_of_sequences_power_of_2,
        ),
        command(command_code(WriteCommands::SetConfidenceLevelRuns), v.runs_confidence_level),
    ] + write_pack_spec(8, v.asym_sequence_length_bits / 4)
}

/// The writes that give the board the settings of its accelerators.
pub fn update_fpga_settings(run_settings: RunSettings) -> (r: Vec<BoardCommand>)
    requires
        run_settings@.runs_sequence_length >= 5,
    ensures
        r@ == fpga_settings_commands(run_settings@),
{
    let mut r: Vec<BoardCommand> = Vec::new();
    r.push(BoardCommand { cmd: WriteCommands::SetOperationMode.into(), value: 0 });
    r.push(BoardCommand { cmd: WriteCommands::SetReportMode.into(), value: 1 });
    r.push(
        BoardCommand {
            cmd: WriteCommands::SetSequenceLengthPowerOf2.into(),
            value: run_settings.get_mono_sequence_length_power_of_2(),
        },
    );
    r.push(
        BoardCommand {
            cmd: WriteCommands::SetNumOfSequencesPowerOf2.into(),
            value: run_settings.get_mono_num_of_sequences_power_of_2(),
        },
    );
    r.push(
        BoardCommand {
            cmd: WriteCommands::SetConfidenceLevelUpper.into(),
            value: adjust_confidence_level(run_settings.get_mono_confidence_level_upper()),
        },
    );
    r.push(
        BoardCommand {
            cmd: WriteCommands::SetConfidenceLevelLower.into(),
            value: adjust_confidence_level(run_settings.get_mono_confidence_level_lower()),
        },
    );
    r.push(
        BoardCommand {
            cmd: WriteCommands::SetFailFlagLatchEventAlarmThr.into(),
            value: run_settings.get_sanity_fail_flag_latch_event_alarm_thr(),
        },
    );
    r.push(
        BoardCommand {
            cmd: WriteCommands::SetSequenceLengthRuns.into(),
            value: run_settings.get_runs_sequence_length() - 5,
        },
    );
    r.push(
        BoardCommand {
            cmd: WriteCommands::SetNumOfSequencesPowerOf2Runs.into(),
            value: run_settings.get_runs_num_of_sequences_power_of_2(),
        },
    );
    r.push(
        BoardCommand {
            cmd: WriteCommands::SetConfidenceLevelRuns.into(),
            value: run_settings.get_runs_confidence_level(),
        },
    );
    let asym_nos = write_pack(8, run_settings.get_asym_sequence_length_bits() / 4);
    r.push(asym_nos[0]);
    r.push(asym_nos[1]);
    assert(r@ =~= fpga_settings_commands(run_settings@));
    r
}

/// Each write of the accelerator settings carries the field that its command
/// names: the monobit sequence length and count, the confidence levels
/// scaled by 2^10 and capped at 16 bits, the alarm threshold, the runs
/// sequence length less five, the runs sequence count and confidence, and the
/// asymmetry sequence count (a quarter of its length in bits), preceded by
/// operation mode 0 and report mode 1.
pub proof fn law_fpga_writes_carry_their_fields(v: RunSettingsView)
    requires
        v.runs_sequence_length >= 5,
    ensures
        fpga_settings_commands(v).len() == 12,
        fpga_settings_commands(v)[0] == (BoardCommand { cmd: 0xF5, value: 0 }),
        fpga_settings_commands(v)[1] == (BoardCommand { cmd: 0xEC, value: 1 }),
        fpga_settings_commands(v)[2] == (BoardCommand {
            cmd: 0xED,
            value: v.mono_sequence_length_power_of_2,
        }),
        fpga_settings_commands(v)[3] == (BoardCommand {
            cmd: 0xEE,
            value: v.mono_num_of_sequences_power_of_2,
        }),
        fpga_settings_commands(v)[4].cmd == 0xEF,
        fpga_settings_commands(v)[4].value as int == (if v.mono_confidence_level_upper * 1024
            <= 0xffff {
            v.mono_confidence_level_upper * 1024
        } else {
            0xffff
        }),
        fpga_settings_commands(v)[5].cmd == 0xF0,
        fpga_settings_commands(v)[5].value as int == (if v.mono_confidence_level_lower * 1024
            <= 0xffff {
            v.mono_confidence_level_lower * 1024
        } else {
            0xffff
        }),
        fpga_settings_commands(v)[6] == (BoardCommand {
            cmd: 0xEB,
            value: v.sanity_fail_flag_latch_event_alarm_thr,
        }),
        fpga_settings_commands(v)[7].cmd == 0xEA,
        fpga_settings_commands(v)[7].value as int == v.runs_sequence_length - 5,
        fpga_settings_commands(v)[8] == (BoardCommand {
            cmd: 0xFC,
            value: v.runs_num_of_sequences_power_of_2,
        }),
        fpga_settings_commands(v)[9] == (BoardCommand {
            cmd: 0xFB,
            value: v.runs_confidence_level,
        }),
        fpga_settings_commands(v)[10] == (BoardCommand { cmd: 0xFE, value: 8 }),
        fpga_settings_commands(v)[11].cmd == 0xFF,
        fpga_settings_commands(v)[11].value as int == v.asym_sequence_length_bits / 4,
{
}

/// A write of the accelerator settings changes only where the field that its
/// command names changes: two settings that differ only in the monobit
/// sequence count differ in the 0xEE write alone.
pub proof fn law_fpga_writes_independent(v: RunSettingsView, count: u16)
    requires
        v.runs_sequence_length >= 5,
        count != v.mono_num_of_sequences_power_of_2,
    ensures
        ({
            let w = RunSettingsView { mono_num_of_sequences_power_of_2: count, ..v };
            &&& fpga_settings_commands(w)[3] != fpga_settings_commands(v)[3]
            &&& forall|i: int|
                0 <= i < 12 && i != 3 ==> fpga_settings_commands(w)[i] == fpga_settings_commands(
                    v,
                )[i]
        }),
{
    let w = RunSettingsView { mono_num_of_sequences_power_of_2: count, ..v };
    law_fpga_writes_carry_their_fields(v);
    law_fpga_writes_carry_their_fields(w);
}

/// The writes that ask for the asymmetry FIFO.
pub fn req_read_asym_fifo() -> (r: Vec<BoardCommand>)
    ensures
        r@ == write_pack_spec(9, 0),
{
    write_pack(9, 0)
}

/// The write that asks for the monobit FIFO.
pub fn req_read_monobit_fifo() -> (r: Vec<BoardCommand>)
    ensures
        r@ == seq![command(command_code(WriteCommands::ReqReadMonoFifo), 0)],
{
    write_single(WriteCommands::ReqReadMonoFifo.into(), 0)
}

/// The write that asks for the runs FIFO.
pub fn req_read_runs_fifo() -> (r: Vec<BoardCommand>)
    ensures
        r@ == seq![command(command_code(WriteCommands::ReqReadRunsZValFlag), 0)],
{
    write_single(WriteCommands::ReqReadRunsZValFlag.into(), 0)
}

/// The write that asks for the flag latches of the runs test.
pub fn req_read_runs_stats() -> (r: Vec<BoardCommand>)
    ensures
        r@ == seq![command(command_code(WriteCommands::ReqReadRunsFlagLatches), 0)],
{
    write_single(WriteCommands::ReqReadRunsFlagLatches.into(), 0)
}

/// A word of the asymmetry FIFO as a 30-bit two's complement number: the
/// word first read as a 32-bit two's complement number, then values above
/// 2^29 - 1 taken 2^30 lower.
pub open spec fn signed_int_to_dec_spec(value: u32) -> int {
    let s = if value <= i32::MAX {
        value as int
    } else {
        value as int - 0x1_0000_0000
    };
    if s > 0x2000_0000 - 1 {
        s - 0x4000_0000
    } else {
        s
    }
}

pub fn signed_int_to_dec(value: u32) -> (r: i32)
    ensures
        r == signed_int_to_dec_spec(value),
{
    proof {
        reveal_with_fuel(power, 30);
    }
    let max_positive_value: i32 = super::settings::pow_i32(2, 29) - 1;
    let v: i32 = value as i32;
    assert(value <= 0x7fff_ffff ==> (value as i32) as int == value as int) by (bit_vector);
    assert(value > 0x7fff_ffff ==> (value as i32) as int == (value as int) - 0x1_0000_0000)
        by (bit_vector);
    if v > max_positive_value {
        v - max_positive_value * 2 - 2
    } else {
        v
    }
}

/// A 30-bit two's complement word read back as a number is that number.
pub proof fn law_signed_int_to_dec_round_trip(x: int)
    requires
        -0x2000_0000 <= x < 0x2000_0000,
    ensures
        signed_int_to_dec_spec((if x >= 0 {
            x
        } else {
            x + 0x4000_0000
        }) as u32) == x,
{
}

/// The value of an asymmetry FIFO word, or `None` for the word that ends the
/// FIFO (top bit set).
pub fn decode_asym_word(value_read: u32) -> (r: Option<i32>)
    ensures
        value_read < 0x8000_0000 ==> r == Some(signed_int_to_dec_spec(value_read) as i32),
        value_read >= 0x8000_0000 ==> r is None,
{
    assert(((value_read & 0x8000_0000) == 0) == (value_read < 0x8000_0000)) by (bit_vector);
    if (value_read & 0x8000_0000) == 0 {
        Some(signed_int_to_dec(value_read))
    } else {
        None
    }
}

/// The fields of a monobit FIFO word: the 25-bit fixed-point mean (10 bits
/// after the point), the fail flag and the fail flag latch.
#[derive(PartialEq, Eq, Structural, Clone, Copy, Debug)]
pub struct MonobitWord {
    pub mean_fxp: i32,
    pub fail_flag: u32,
    pub fail_flag_latch: u32,
}

/// The fields of monobit FIFO word `w`.
pub open spec fn monobit_fields(w: u32) -> MonobitWord {
    MonobitWord {
        mean_fxp: (w % 0x200_0000) as i32,
        fail_flag: ((w / 0x200_0000) % 16) as u32,
        fail_flag_latch: ((w / 0x2000_0000) % 2) as u32,
    }
}

/// The fields of a monobit FIFO word, or `None` for the word that ends the
/// FIFO (top bit set).
pub fn decode_monobit_word(value_read: u32) -> (r: Option<MonobitWord>)
    ensures
        value_read < 0x8000_0000 ==> r == Some(monobit_fields(value_read)),
        value_read >= 0x8000_0000 ==> r is None,
{
    assert(((value_read & 0x8000_0000) == 0) == (value_read < 0x8000_0000)) by (bit_vector);
    if (value_read & 0x8000_0000) == 0 {
        let mean: u32 = value_read & 0x1ffffff;
        let fail_flag: u32 = (value_read >> 25) & 0xf;
        let fail_flag_latch: u32 = (value_read >> 29) & 0x1;
        assert(value_read & 0x1ffffff == value_read % 0x200_0000) by (bit_vector);
        assert((value_read >> 25) & 0xf == (value_read / 0x200_0000) % 16) by (bit_vector);
        assert((value_read >> 29) & 0x1 == (value_read / 0x2000_0000) % 2) by (bit_vector);
        Some(MonobitWord { mean_fxp: mean as i32, fail_flag, fail_flag_latch })
    } else {
        None
    }
}

/// A monobit word below 2^30 is its fields put back together: the mean keeps
/// the 25 low bits (sign bit 24 included), the fail flag the next four and
/// the latch the bit above; and a mean with its sign bit set (other than
/// 2^24 alone) is negative, 2^25 below its bits.
pub proof fn law_monobit_fields_reassemble_word(w: u32)
    requires
        w < 0x4000_0000,
    ensures
        ({
            let m = monobit_fields(w);
            &&& 0 <= m.mean_fxp < 0x200_0000
            &&& m.fail_flag < 16
            &&& m.fail_flag_latch < 2
            &&& w == m.mean_fxp + m.fail_flag * 0x200_0000 + m.fail_flag_latch * 0x2000_0000
            &&& m.mean_fxp < 0x100_0000 ==> fxp_numerator_spec(m.mean_fxp) == m.mean_fxp
            &&& 0x100_0000 < m.mean_fxp ==> fxp_numerator_spec(m.mean_fxp) == m.mean_fxp
                - 0x200_0000
        }),
{
    assert(w < 0x4000_0000 ==> w == w % 0x200_0000 + ((w / 0x200_0000) % 16) * 0x200_0000 + ((w
        / 0x2000_0000) % 2) * 0x2000_0000) by (bit_vector);
    let x: int = (w % 0x200_0000) as int;
    if 0x100_0000 < x {
        assert((-x) % 0x100_0000 == 0x200_0000 - x) by {
            assert(-x == 0x100_0000 * (-2) + (0x200_0000 - x));
            vstd::arithmetic::div_mod::lemma_mod_multiples_vanish(-2, 0x200_0000 - x, 0x100_0000);
            vstd::arithmetic::div_mod::lemma_small_mod((0x200_0000 - x) as nat, 0x100_0000);
        }
    }
}

/// The numerator of the board's signed 24-bit fixed-point format: values
/// with bit 24 or above set are negative, their magnitude the low 24 bits
/// of their negation.
pub open spec fn fxp_numerator_spec(num: i32) -> int {
    if 0 <= num < 0x100_0000 {
        num as int
    } else {
        -((-(num as int)) % 0x100_0000)
    }
}

/// The numerator of a fixed-point value of the board; dividing it by the
/// scale gives the value.
pub fn fxp_numerator(num: i32) -> (r: i32)
    requires
        num != i32::MIN,
    ensures
        r == fxp_numerator_spec(num),
{
    assert(((num >> 24) == 0) == (0 <= num && num < 0x100_0000)) by (bit_vector);
    if (num >> 24) == 0 {
        num
    } else {
        let not_num: i32 = !num;
        assert(not_num < i32::MAX && not_num as int + 1 == -(num as int)) by (bit_vector)
            requires
                not_num == !num,
                num != i32::MIN,
        ;
        let neg: i32 = not_num + 1;
        let low: i32 = neg & 0xffffff;
        assert(0 <= (neg & 0xffffff) < 0x100_0000) by (bit_vector);
        assert((neg & 0xffffff) as int == (neg as int) % 0x100_0000) by (bit_vector);
        -low
    }
}

/// The fields of a runs FIFO word: the 52-bit fixed-point z value (44 bits
/// after the point, two's complement), the fail flag and the fail flag
/// latch.
#[derive(PartialEq, Eq, Structural, Clone, Copy, Debug)]
pub struct RunsWord {
    pub z_fxp: u64,
    pub fail_flag: u32,
    pub fail_flag_latch: u32,
}

/// The fields of runs FIFO word `w`.
pub open spec fn runs_fields(w: u64) -> RunsWord {
    RunsWord {
        z_fxp: (w % 0x10_0000_0000_0000) as u64,
        fail_flag: ((w / 0x40_0000_0000_0000) % 16) as u32,
        fail_flag_latch: ((w / 0x10_0000_0000_0000) % 2) as u32,
    }
}

/// The fields of a runs FIFO word, or `None` for the word that ends the
/// FIFO (top bit set).
pub fn decode_runs_word(value_read: u64) -> (r: Option<RunsWord>)
    ensures
        value_read < 0x8000_0000_0000_0000 ==> r == Some(runs_fields(value_read)),
        value_read >= 0x8000_0000_0000_0000 ==> r is None,
{
    assert(((value_read & 0x8000000000000000) == 0) == (value_read < 0x8000_0000_0000_0000))
        by (bit_vector);
    if (value_read & 0x8000000000000000) == 0 {
        let signed_z_val_fxp: u64 = value_read & 0xFFFFFFFFFFFFF;
        let fail_flag_bits: u64 = (value_read & 0x3c0000000000000) >> (13 * 4 + 2);
        let latch_bits: u64 = (value_read & 0x10000000000000) >> (13 * 4);
        assert(value_read & 0xFFFFFFFFFFFFF == value_read % 0x10_0000_0000_0000) by (bit_vector);
        assert((value_read & 0x3c0000000000000) >> 54u64 == (value_read / 0x40_0000_0000_0000) % 16)
            by (bit_vector);
        assert((value_read & 0x10000000000000) >> 52u64 == (value_read / 0x10_0000_0000_0000) % 2)
            by (bit_vector);
        Some(
            RunsWord {
                z_fxp: signed_z_val_fxp,
                fail_flag: fail_flag_bits as u32,
                fail_flag_latch: latch_bits as u32,
            },
        )
    } else {
        None
    }
}

} // verus!

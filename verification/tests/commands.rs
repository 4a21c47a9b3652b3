use multi_sgb_async::raplibs::base;
use multi_sgb_async::raplibs::flash;
use multi_sgb_async::raplibs::ftdi_wrapper::{
    command_frame, u32_from_be_bytes, u64_from_be_bytes, FtdiBoardStatus,
};
use multi_sgb_async::raplibs::sanity_checks;
use multi_sgb_async::raplibs::settings::RunSettings;
use multi_sgb_async::raplibs::sha256;
use multi_sgb_async::raplibs::write_commands::{write_pack, BoardCommand, WriteCommands};
use multi_sgb_async::raplibs::RapLibErrors;
use multi_sgb_async::streamer::ftdi_wrapper::ft_status;

fn cmd(cmd: u8, value: u16) -> BoardCommand {
    BoardCommand { cmd, value }
}

fn streamer_error_text<T>(r: Result<T, RapLibErrors>) -> String {
    match r {
        Err(RapLibErrors::StreamerError(m)) => m,
        _ => panic!("expected a streamer error"),
    }
}

#[test]
fn command_codes() {
    assert_eq!(u8::from(WriteCommands::ReqStop), 0x00);
    assert_eq!(u8::from(WriteCommands::SetHVDac), 0xA3);
    assert_eq!(u8::from(WriteCommands::SetThDac), 0xA4);
    assert_eq!(u8::from(WriteCommands::ReqTemperature), 0xA5);
    assert_eq!(u8::from(WriteCommands::ReqReadDCR), 0xA6);
    assert_eq!(u8::from(WriteCommands::SetGateDCR), 0xA8);
    assert_eq!(u8::from(WriteCommands::ResetTDCFifo), 0xC2);
    assert_eq!(u8::from(WriteCommands::SetTDCTimeThreshold), 0xC7);
    assert_eq!(u8::from(WriteCommands::ReqInitFlash), 0xD0);
    assert_eq!(u8::from(WriteCommands::ReqEraseFlash), 0xD1);
    assert_eq!(u8::from(WriteCommands::ReqWriteFlash), 0xD2);
    assert_eq!(u8::from(WriteCommands::ReqReadFlash), 0xD3);
    assert_eq!(u8::from(WriteCommands::SetSequenceLengthRuns), 0xEA);
    assert_eq!(u8::from(WriteCommands::SetFailFlagLatchEventAlarmThr), 0xEB);
    assert_eq!(u8::from(WriteCommands::SetReportMode), 0xEC);
    assert_eq!(u8::from(WriteCommands::SetSequenceLengthPowerOf2), 0xED);
    assert_eq!(u8::from(WriteCommands::SetNumOfSequencesPowerOf2), 0xEE);
    assert_eq!(u8::from(WriteCommands::SetConfidenceLevelUpper), 0xEF);
    assert_eq!(u8::from(WriteCommands::SetConfidenceLevelLower), 0xF0);
    assert_eq!(u8::from(WriteCommands::ResetFailFlagLatch), 0xF1);
    assert_eq!(u8::from(WriteCommands::ReadFailFlagLatch), 0xF2);
    assert_eq!(u8::from(WriteCommands::SetOperationMode), 0xF5);
    assert_eq!(u8::from(WriteCommands::ReqReadMonoFifo), 0xF7);
    assert_eq!(u8::from(WriteCommands::ReqReadRunsFlagLatches), 0xF9);
    assert_eq!(u8::from(WriteCommands::ReqReadRunsZValFlag), 0xFA);
    assert_eq!(u8::from(WriteCommands::SetConfidenceLevelRuns), 0xFB);
    assert_eq!(u8::from(WriteCommands::SetNumOfSequencesPowerOf2Runs), 0xFC);
    assert_eq!(u8::from(WriteCommands::ReqWritePackFirst), 0xFE);
    assert_eq!(u8::from(WriteCommands::ReqWritePackSecond), 0xFF);
}

#[test]
fn frame_layout() {
    assert_eq!(command_frame(0xA6, 0), [0xa5, 0x00, 0x00, 0xA6]);
    assert_eq!(command_frame(0xFF, 0x1234), [0xa5, 0x12, 0x34, 0xFF]);
    assert_eq!(command_frame(0x07, 0xffff), [0xa5, 0xff, 0xff, 0x07]);
}

#[test]
fn frames_of_different_commands_differ() {
    assert_ne!(command_frame(0x01, 0x0102), command_frame(0x01, 0x0201));
    assert_ne!(command_frame(0x01, 0x0102), command_frame(0x02, 0x0102));
}

#[test]
fn big_endian_decoding() {
    assert_eq!(u32_from_be_bytes([0xab, 0xcd, 0x12, 0x34]), 0xabcd1234);
    assert_eq!(u32_from_be_bytes([0, 0, 0, 1]), 1);
    assert_eq!(
        u64_from_be_bytes([0x01, 0x02, 0x03, 0x04, 0x05, 0x06, 0x07, 0x08]),
        0x0102030405060708
    );
    assert_eq!(u64_from_be_bytes([0xff; 8]), u64::MAX);
}

#[test]
fn write_pack_is_two_writes() {
    assert_eq!(write_pack(7, 0x1234), vec![cmd(0xFE, 7), cmd(0xFF, 0x1234)]);
    assert_eq!(base::check_board_communication(), vec![cmd(0xFE, 7), cmd(0xFF, 0x1234)]);
    assert_eq!(base::request_raw_tdc_words(0x1f00), vec![cmd(0xFE, 6), cmd(0xFF, 0x1f00)]);
    assert_eq!(base::req_generation_counter(), vec![cmd(0xFE, 4), cmd(0xFF, 0)]);
}

#[test]
fn single_writes() {
    assert_eq!(base::req_read_dcr(), vec![cmd(0xA6, 0)]);
    assert_eq!(base::req_temperature(), vec![cmd(0xA5, 0)]);
    assert_eq!(base::reset_fail_flag_latch(), vec![cmd(0xF1, 1)]);
    assert_eq!(base::set_gate_dcr(1), vec![cmd(0xA8, 1)]);
    assert_eq!(base::set_tdc_time_threshold(50), vec![cmd(0xC7, 50)]);
    assert_eq!(base::set_thdac(0x0001_2345), vec![cmd(0xA4, 0x2345)]);
    assert_eq!(base::stop(), vec![cmd(0x00, 0)]);
    assert_eq!(sanity_checks::req_read_monobit_fifo(), vec![cmd(0xF7, 0)]);
    assert_eq!(sanity_checks::req_read_runs_fifo(), vec![cmd(0xFA, 0)]);
    assert_eq!(sanity_checks::req_read_runs_stats(), vec![cmd(0xF9, 0)]);
    assert_eq!(sanity_checks::req_read_asym_fifo(), vec![cmd(0xFE, 9), cmd(0xFF, 0)]);
    assert_eq!(sha256::req_init_self_test_sha256(), vec![cmd(0xFE, 0), cmd(0xFF, 0)]);
    assert_eq!(sha256::req_read_sha256_fifo(), vec![cmd(0xFE, 3), cmd(0xFF, 0)]);
    assert_eq!(flash::inititialize_flash(), vec![cmd(0xD0, 0)]);
    assert_eq!(flash::req_read_flash(), vec![cmd(0xD3, 0)]);
}

#[test]
fn reset_mask_bits() {
    assert_eq!(base::reset_rap_values(true, true, true), vec![cmd(0xFE, 5), cmd(0xFF, 7)]);
    assert_eq!(base::reset_rap_values(false, false, true), vec![cmd(0xFE, 5), cmd(0xFF, 1)]);
    assert_eq!(base::reset_rap_values(false, true, false), vec![cmd(0xFE, 5), cmd(0xFF, 2)]);
    assert_eq!(base::reset_rap_values(true, false, false), vec![cmd(0xFE, 5), cmd(0xFF, 4)]);
    assert_eq!(base::reset_rap_values(false, false, false), vec![cmd(0xFE, 5), cmd(0xFF, 0)]);
}

#[test]
fn fpga_settings_writes() {
    let s = RunSettings::default();
    assert_eq!(
        sanity_checks::update_fpga_settings(s),
        vec![
            cmd(0xF5, 0),
            cmd(0xEC, 1),
            cmd(0xED, 6),
            cmd(0xEE, 8),
            cmd(0xEF, 3 * 1024),
            cmd(0xF0, 3 * 1024),
            cmd(0xEB, 3),
            cmd(0xEA, 0),
            cmd(0xFC, 8),
            cmd(0xFB, 3),
            cmd(0xFE, 8),
            cmd(0xFF, 150),
        ]
    );
}

#[test]
fn confidence_level_saturates() {
    let mut s = RunSettings::default();
    s.set_mono_confidence_level_upper(100);
    s.set_mono_confidence_level_lower(63);
    s.set_runs_sequence_length(11);
    let w = sanity_checks::update_fpga_settings(s);
    assert_eq!(w[4], cmd(0xEF, 0xffff));
    assert_eq!(w[5], cmd(0xF0, 63 * 1024));
    assert_eq!(w[7], cmd(0xEA, 6));
}

#[test]
fn reduction_ratio_write() {
    let s = RunSettings::default();
    assert_eq!(sha256::set_reduction_ratio(s), vec![cmd(0xFE, 2), cmd(0xFF, 7)]);
    let mut t = RunSettings::default();
    t.set_sha256_reduction_ratio(2);
    assert_eq!(sha256::set_reduction_ratio(t), vec![cmd(0xFE, 2), cmd(0xFF, 0)]);
}

#[test]
fn communication_reply() {
    assert!(base::check_board_communication_reply(0xabcd1234, 23060802).is_ok());
    assert!(base::check_board_communication_reply(0xabcd1234, 99999999).is_ok());
    assert_eq!(
        streamer_error_text(base::check_board_communication_reply(0x1, 23060802)),
        "Communication NOT OK: received check_value: 0x00000001 expected value: 0xabcd1234"
    );
    assert_eq!(
        streamer_error_text(base::check_board_communication_reply(0xdeadbeef, 0)),
        "Communication NOT OK: received check_value: 0xdeadbeef expected value: 0xabcd1234"
    );
    assert_eq!(
        streamer_error_text(base::check_board_communication_reply(0xabcd1234, 23060801)),
        "Firmware 23060801 NOT SUPPORTED: minimum version required: 23060802."
    );
    assert_eq!(
        streamer_error_text(base::check_board_communication_reply(0xabcd1234, 0)),
        "Firmware 0 NOT SUPPORTED: minimum version required: 23060802."
    );
}

#[test]
fn temperature_conversion() {
    assert_eq!(base::temperature_sixteenths(0), Some(0));
    assert_eq!(base::temperature_sixteenths(400), Some(400));
    assert_eq!(base::temperature_sixteenths(1600), Some(1600));
    assert_eq!(base::temperature_sixteenths(1601), None);
    assert_eq!(base::temperature_sixteenths(2048), None);
    assert_eq!(base::temperature_sixteenths(4095), Some(-1));
    assert_eq!(base::temperature_sixteenths(3776), Some(-320));
    assert_eq!(base::temperature_sixteenths(3775), None);
    assert_eq!(base::temperature_sixteenths(4096 + 1600), Some(1600));
    assert_eq!(base::temperature_sixteenths(u32::MAX), None);
}

#[test]
fn sha256_self_test() {
    assert!(sha256::perform_accelerator_initialization(0x20).is_ok());
    assert_eq!(
        streamer_error_text(sha256::perform_accelerator_initialization(0x21)),
        "SHA256 initialization and self test failed. Fifo_status = 2; SHA256_selftest = 1"
    );
    assert_eq!(
        streamer_error_text(sha256::perform_accelerator_initialization(0x1234)),
        "SHA256 initialization and self test failed. Fifo_status = 291; SHA256_selftest = 4"
    );
    assert_eq!(sha256::ShaAcceleratorStatus::OkFifo.code(), 2);
    assert_eq!(sha256::ShaAcceleratorStatus::CompError.code(), 9);
}

#[test]
fn sha256_results_prefix() {
    let read = vec![1u8, 2, 3, 4, 5];
    assert_eq!(sha256::sha256_results(&read, 3), vec![1, 2, 3]);
    assert_eq!(sha256::sha256_results(&read, 0), Vec::<u8>::new());
}

#[test]
fn flash_page_decoding() {
    let mut page = [0u8; 256];
    page[17] = 0x00;
    page[18] = 0x16;
    page[19] = 0x44;
    page[21] = 0x01;
    page[22] = 0x02;
    page[23] = 0x03;
    page[25] = 0x00;
    page[26] = 0x00;
    page[27] = 0xfa;
    let r = flash::decode_flash_read_data(&page);
    assert_eq!(r.hv_centivolts, 0x1644);
    assert_eq!(r.dac, 0x010203);
    assert_eq!(r.ref_temp_decidegrees, 250);
}

#[test]
fn flash_reply_checks() {
    assert!(flash::check_flash_echo(0xD0, 0xD0).is_ok());
    assert!(flash::check_flash_echo(0xD0, 0x1234_56D0).is_ok());
    assert_eq!(
        streamer_error_text(flash::check_flash_echo(0xD0, 0xD3)),
        "FLASH communication failed: cmd mismatch."
    );
    assert!(flash::check_flash_status(0x00004F4B).is_ok());
    assert_eq!(
        streamer_error_text(flash::check_flash_status(0x00455252)),
        "FLASH communication: status mismatch."
    );
}

#[test]
fn error_texts() {
    let e = RapLibErrors::FtdiStatus(FtdiBoardStatus::new("DEVICE_NOT_FOUND".to_string()));
    assert_eq!(e.to_string(), "FTDI Error: Error code: DEVICE_NOT_FOUND");
    assert_eq!(RapLibErrors::StreamerError("x".to_string()).to_string(), "Streamer Error: x");
    assert_eq!(RapLibErrors::SettingsError("y".to_string()).to_string(), "Settings Error: y");
    assert_eq!(
        RapLibErrors::UnhandledError("z".to_string()).to_string(),
        "Unhandled External Error. Please restart."
    );
    let wrapped = flash::flash_read_error(RapLibErrors::StreamerError(
        "FLASH communication: status mismatch.".to_string(),
    ));
    assert_eq!(
        streamer_error_text::<()>(Err(wrapped)),
        "Streamer Error: FLASH communication: status mismatch."
    );
    let from: RapLibErrors = FtdiBoardStatus::new("IO".to_string()).into();
    assert!(matches!(from, RapLibErrors::FtdiStatus(_)));
}

#[test]
fn driver_status_numbers() {
    assert_eq!(ft_status::FtdiBoardStatus::InvalidHandle.code(), 1);
    assert_eq!(ft_status::FtdiBoardStatus::IoError.code(), 4);
    assert_eq!(ft_status::FtdiBoardStatus::DeviceListNotReady.code(), 19);
}

#[test]
fn signed_words() {
    assert_eq!(sanity_checks::signed_int_to_dec(0), 0);
    assert_eq!(sanity_checks::signed_int_to_dec(5), 5);
    assert_eq!(sanity_checks::signed_int_to_dec(0x1fff_ffff), 0x1fff_ffff);
    assert_eq!(sanity_checks::signed_int_to_dec(0x2000_0000), -0x2000_0000);
    assert_eq!(sanity_checks::signed_int_to_dec(0x3fff_ffff), -1);
    assert_eq!(sanity_checks::signed_int_to_dec(0x7fff_ffff), 0x3fff_ffff);
    assert_eq!(sanity_checks::signed_int_to_dec(0x8000_0000), i32::MIN);
    assert_eq!(sanity_checks::signed_int_to_dec(0xffff_ffff), -1);
}

#[test]
fn fifo_word_decoding() {
    assert_eq!(sanity_checks::decode_asym_word(0x3fff_fffe), Some(-2));
    assert_eq!(sanity_checks::decode_asym_word(0x8000_0000), None);
    let m = sanity_checks::decode_monobit_word(0x3e00_0401).unwrap();
    assert_eq!(m.mean_fxp, 0x401);
    assert_eq!(m.fail_flag, 0xf);
    assert_eq!(m.fail_flag_latch, 1);
    assert_eq!(sanity_checks::decode_monobit_word(0x8000_0000), None);
    let r = sanity_checks::decode_runs_word(0x03d0_0000_0000_0005).unwrap();
    assert_eq!(r.z_fxp, 5);
    assert_eq!(r.fail_flag, 0xf);
    assert_eq!(r.fail_flag_latch, 1);
    assert_eq!(sanity_checks::decode_runs_word(0x8000_0000_0000_0000), None);
}

#[test]
fn fixed_point_numerators() {
    assert_eq!(sanity_checks::fxp_numerator(0x400), 0x400);
    assert_eq!(sanity_checks::fxp_numerator(0xff_ffff), 0xff_ffff);
    assert_eq!(sanity_checks::fxp_numerator(0x1ff_ffff), -1);
    assert_eq!(sanity_checks::fxp_numerator(0x100_0000), 0);
    assert_eq!(sanity_checks::fxp_numerator(-5), -5);
}

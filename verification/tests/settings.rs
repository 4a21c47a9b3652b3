use multi_sgb_async::raplibs::settings::{HwLimits, RunSettings, SettingsStore};
use multi_sgb_async::raplibs::RapLibErrors;

fn settings_error_text(r: Result<(), RapLibErrors>) -> String {
    match r {
        Err(RapLibErrors::SettingsError(m)) => m,
        _ => panic!("expected a settings error"),
    }
}

#[test]
fn default_settings_values() {
    let s = RunSettings::default();
    assert_eq!(s.get_num_of_dwords(), 0xffc0);
    assert_eq!(s.get_afp_threshold(), 50);
    assert_eq!(s.get_sanity_fail_flag_latch_event_alarm_thr(), 3);
    assert!(s.get_mono());
    assert_eq!(s.get_mono_num_of_sequences_power_of_2(), 8);
    assert_eq!(s.get_mono_sequence_length_power_of_2(), 6);
    assert_eq!(s.get_mono_confidence_level_upper(), 3);
    assert_eq!(s.get_mono_confidence_level_lower(), 3);
    assert!(s.get_asym());
    assert_eq!(s.get_asym_sequence_length_bits(), 600);
    assert!(s.get_runs());
    assert_eq!(s.get_runs_sequence_length(), 5);
    assert_eq!(s.get_runs_num_of_sequences_power_of_2(), 8);
    assert_eq!(s.get_runs_confidence_level(), 3);
    assert!(s.get_sha256());
    assert_eq!(s.get_sha256_reduction_ratio(), 16);
}

#[test]
fn setters_change_one_field() {
    let mut s = RunSettings::default();
    s.set_num_of_dwords(0x100);
    s.set_afp_threshold(7);
    s.set_sanity_fail_flag_latch_event_alarm_thr(9);
    s.set_mono(false);
    s.set_mono_num_of_sequences_power_of_2(11);
    s.set_mono_sequence_length_power_of_2(9);
    s.set_mono_confidence_level_upper(12);
    s.set_mono_confidence_level_lower(13);
    s.set_asym(false);
    s.set_asym_sequence_length_bits(16);
    s.set_runs(false);
    s.set_runs_sequence_length(7);
    s.set_runs_num_of_sequences_power_of_2(10);
    s.set_runs_confidence_level(100);
    s.set_sha256(false);
    s.set_sha256_reduction_ratio(4);
    assert_eq!(s.get_num_of_dwords(), 0x100);
    assert_eq!(s.get_afp_threshold(), 7);
    assert_eq!(s.get_sanity_fail_flag_latch_event_alarm_thr(), 9);
    assert!(!s.get_mono());
    assert_eq!(s.get_mono_num_of_sequences_power_of_2(), 11);
    assert_eq!(s.get_mono_sequence_length_power_of_2(), 9);
    assert_eq!(s.get_mono_confidence_level_upper(), 12);
    assert_eq!(s.get_mono_confidence_level_lower(), 13);
    assert!(!s.get_asym());
    assert_eq!(s.get_asym_sequence_length_bits(), 16);
    assert!(!s.get_runs());
    assert_eq!(s.get_runs_sequence_length(), 7);
    assert_eq!(s.get_runs_num_of_sequences_power_of_2(), 10);
    assert_eq!(s.get_runs_confidence_level(), 100);
    assert!(!s.get_sha256());
    assert_eq!(s.get_sha256_reduction_ratio(), 4);
}

#[test]
fn equality_ignores_activation_flags() {
    let a = RunSettings::default();
    let mut b = RunSettings::default();
    b.set_mono(false);
    b.set_asym(false);
    b.set_runs(false);
    b.set_sha256(false);
    assert!(a == b);
    b.set_afp_threshold(51);
    assert!(a != b);
}

#[test]
fn hw_limits_values() {
    let l = HwLimits::new();
    assert_eq!(l.sha256(), 496);
    assert_eq!(l.mono(), 1020);
    assert_eq!(l.runs(), 1020);
    assert_eq!(l.asym(), 1020);
    let g = match HwLimits::get_hw_limits() {
        Ok(g) => g,
        Err(_) => panic!("limits are always available"),
    };
    assert_eq!(g.sha256(), 496);
    assert_eq!(g.mono(), 1020);
}

#[test]
fn store_starts_with_unchecked_defaults() {
    let store = SettingsStore::new();
    let s = RunSettings::get_run_settings(&store).ok().unwrap();
    assert_eq!(s.get_num_of_dwords(), 0xffc0);
}

#[test]
fn reset_default_settings_adjusts_packet_size() {
    let mut store = SettingsStore::new();
    assert!(RunSettings::reset_default_settings(&mut store).is_ok());
    let s = RunSettings::get_run_settings(&store).ok().unwrap();
    assert_eq!(s.get_num_of_dwords(), 0x1f00);
    assert_eq!(s.get_afp_threshold(), 50);
}

#[test]
fn set_then_get_returns_adjusted_settings() {
    let mut store = SettingsStore::new();
    let mut s = RunSettings::default();
    s.set_sha256_reduction_ratio(2);
    s.set_num_of_dwords(0x1234);
    assert!(s.set_run_settings(&mut store).is_ok());
    assert_eq!(s.get_num_of_dwords(), 0x300);
    let got = RunSettings::get_run_settings(&store).ok().unwrap();
    assert!(got == s);
    assert_eq!(got.get_num_of_dwords(), 0x300);
}

#[test]
fn optimal_packet_size_other_limits() {
    let mut store = SettingsStore::new();
    let mut s = RunSettings::default();
    s.set_sha256_reduction_ratio(32);
    s.set_num_of_dwords(1);
    assert!(s.set_run_settings(&mut store).is_ok());
    assert_eq!(s.get_num_of_dwords(), 0x3e00);

    let mut t = RunSettings::default();
    t.set_mono_sequence_length_power_of_2(2);
    t.set_mono_num_of_sequences_power_of_2(4);
    t.set_sha256_reduction_ratio(32);
    t.set_num_of_dwords(3);
    assert!(t.try_set_run_settings(&mut store).is_ok());
    assert_eq!(t.get_num_of_dwords(), 0x700);

    let mut r = RunSettings::default();
    r.set_runs_num_of_sequences_power_of_2(2);
    r.set_num_of_dwords(1);
    assert!(r.try_set_run_settings(&mut store).is_ok());
    assert_eq!(r.get_num_of_dwords(), 0x0f00);

    let mut a = RunSettings::default();
    a.set_asym_sequence_length_bits(12);
    a.set_num_of_dwords(1);
    assert!(a.try_set_run_settings(&mut store).is_ok());
    assert_eq!(a.get_num_of_dwords(), 0x100);
}

#[test]
fn packet_size_multiple_of_0x100_is_kept() {
    let mut store = SettingsStore::new();
    let mut s = RunSettings::default();
    s.set_num_of_dwords(0xff00);
    assert!(s.set_run_settings(&mut store).is_ok());
    assert_eq!(s.get_num_of_dwords(), 0xff00);
}

#[test]
fn setting_twice_is_the_same() {
    let mut store = SettingsStore::new();
    let mut s = RunSettings::default();
    assert!(s.set_run_settings(&mut store).is_ok());
    let first = s;
    assert!(s.set_run_settings(&mut store).is_ok());
    assert!(s == first);
    assert_eq!(s.get_num_of_dwords(), 0x1f00);
}

#[test]
fn invalid_settings_rejected_and_store_unchanged() {
    let mut store = SettingsStore::new();
    assert!(RunSettings::reset_default_settings(&mut store).is_ok());
    let mut s = RunSettings::default();
    s.set_num_of_dwords(0x200);
    s.set_mono_sequence_length_power_of_2(1);
    s.set_mono_num_of_sequences_power_of_2(23);
    let msg = settings_error_text(s.try_set_run_settings(&mut store));
    assert_eq!(
        msg,
        "- mono_sequence_length_power_of_2 out of range: it must be within range <2; 11>.\n\
         - mono_num_of_sequences_power_of_2 out of range: it must be within range <2; 21>. \n"
    );
    let got = RunSettings::get_run_settings(&store).ok().unwrap();
    assert_eq!(got.get_num_of_dwords(), 0x1f00);
    assert_eq!(got.get_mono_sequence_length_power_of_2(), 6);
}

#[test]
fn every_rule_reported_in_order() {
    let mut store = SettingsStore::new();
    let mut s = RunSettings::default();
    s.set_num_of_dwords(0x100);
    s.set_mono_sequence_length_power_of_2(12);
    s.set_mono_num_of_sequences_power_of_2(1);
    s.set_mono_confidence_level_upper(17);
    s.set_mono_confidence_level_lower(20);
    s.set_sanity_fail_flag_latch_event_alarm_thr(0);
    s.set_runs_sequence_length(4);
    s.set_runs_num_of_sequences_power_of_2(22);
    s.set_runs_confidence_level(0x4000);
    s.set_asym_sequence_length_bits(10);
    s.set_sha256_reduction_ratio(33);
    let msg = settings_error_text(s.try_set_run_settings(&mut store));
    let expected = String::new()
        + "- mono_sequence_length_power_of_2 out of range: it must be within range <2; 11>.\n"
        + "- mono_num_of_sequences_power_of_2 out of range: it must be within range <2; 21>. \n"
        + "- mono_num_of_sequences_power_of_2 and mono_sequence_length_power_of_2 need to both be either even or odd. \n"
        + "- mono_num_of_sequences_power_of_2 must be greater than mono_sequence_length_power_of_2. \n"
        + "- mono_confidence_level_upper out of range: it must be within range <0; 16>. \n"
        + "- mono_confidence_level_lower out of range: it must be within range <0; 16>. \n"
        + "- sanity_fail_flag_latch_event_alarm_thr out of range: it must be within range <1; 15>. \n"
        + "- runs_sequence_length out of range: it must be within range <5; 11>. \n"
        + "- runs_num_of_sequences_power_of_2 out of range: it must be within range <2; 21>. \n"
        + "- runs_confidence_level out of range: it must be within range <0; 0x3fff>. \n"
        + "- asym_sequence_length_bits out of range: it must be at least 12 and a multiple of 4. \n"
        + "- sha256_red_ratio must be of even values.\n"
        + "- sha256_red_ratio out of range: it must be within range <2; 32>. \n";
    assert_eq!(msg, expected);
}

#[test]
fn parity_rule_alone() {
    let mut store = SettingsStore::new();
    let mut s = RunSettings::default();
    s.set_num_of_dwords(0x100);
    s.set_mono_sequence_length_power_of_2(7);
    s.set_mono_num_of_sequences_power_of_2(10);
    let msg = settings_error_text(s.try_set_run_settings(&mut store));
    assert_eq!(
        msg,
        "- mono_num_of_sequences_power_of_2 and mono_sequence_length_power_of_2 need to both be either even or odd. \n"
    );
}

#[test]
fn initialize_keeps_saved_settings_as_saved() {
    let mut store = SettingsStore::new();
    let mut saved = RunSettings::default();
    saved.set_num_of_dwords(0x1234);
    saved.set_afp_threshold(77);
    assert!(RunSettings::initialize_run_settings(&mut store, Some(saved)).is_ok());
    let got = RunSettings::get_run_settings(&store).ok().unwrap();
    assert_eq!(got.get_num_of_dwords(), 0x1234);
    assert_eq!(got.get_afp_threshold(), 77);
}

#[test]
fn initialize_without_saved_settings_resets() {
    let mut store = SettingsStore::new();
    assert!(RunSettings::initialize_run_settings(&mut store, None).is_ok());
    let got = RunSettings::get_run_settings(&store).ok().unwrap();
    assert_eq!(got.get_num_of_dwords(), 0x1f00);
}

#[test]
fn set_run_settings_reports_ok_for_rejected_settings() {
    let mut store = SettingsStore::new();
    assert!(RunSettings::reset_default_settings(&mut store).is_ok());
    let mut s = RunSettings::default();
    s.set_runs_sequence_length(4);
    assert!(s.set_run_settings(&mut store).is_ok());
    assert_eq!(s.get_num_of_dwords(), 0x1f00);
    let got = RunSettings::get_run_settings(&store).ok().unwrap();
    assert_eq!(got.get_runs_sequence_length(), 5);
}

#[test]
fn try_set_run_settings_accepts_valid_settings() {
    let mut store = SettingsStore::new();
    let mut s = RunSettings::default();
    s.set_afp_threshold(70);
    assert!(s.try_set_run_settings(&mut store).is_ok());
    let got = RunSettings::get_run_settings(&store).ok().unwrap();
    assert_eq!(got.get_afp_threshold(), 70);
    assert_eq!(got.get_num_of_dwords(), 0x1f00);
}

#[test]
fn documented_ranges_enforced() {
    let mut store = SettingsStore::new();
    let cases: [(fn(&mut RunSettings), &str); 5] = [
        (
            |s| s.set_runs_num_of_sequences_power_of_2(0),
            "- runs_num_of_sequences_power_of_2 out of range: it must be within range <2; 21>. \n",
        ),
        (
            |s| s.set_sha256_reduction_ratio(34),
            "- sha256_red_ratio out of range: it must be within range <2; 32>. \n",
        ),
        (
            |s| s.set_mono_sequence_length_power_of_2(10),
            "- mono_num_of_sequences_power_of_2 must be greater than mono_sequence_length_power_of_2. \n",
        ),
        (
            |s| s.set_asym_sequence_length_bits(602),
            "- asym_sequence_length_bits out of range: it must be at least 12 and a multiple of 4. \n",
        ),
        (
            |s| s.set_asym_sequence_length_bits(8),
            "- asym_sequence_length_bits out of range: it must be at least 12 and a multiple of 4. \n",
        ),
    ];
    for (change, expected) in cases {
        let mut s = RunSettings::default();
        s.set_num_of_dwords(0x100);
        change(&mut s);
        assert_eq!(settings_error_text(s.try_set_run_settings(&mut store)), expected);
    }
    let mut z = RunSettings::default();
    z.set_num_of_dwords(0x100);
    z.set_sha256_reduction_ratio(0);
    assert_eq!(
        settings_error_text(z.try_set_run_settings(&mut store)),
        "- sha256_red_ratio out of range: it must be within range <2; 32>. \n"
    );
}

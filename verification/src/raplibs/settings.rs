use vstd::prelude::*;

use super::RapLibErrors;

verus! {

/// The largest packet size, in 32-bit words, that the board hardware accepts.
pub const MAXIMUM_NUM_OF_DWORDS: usize = 0xffff;

/// The values that a `RunSettings` holds.
pub struct RunSettingsView {
    pub num_of_dwords: u16,
    pub afp_threshold: u16,
    pub sanity_fail_flag_latch_event_alarm_thr: u16,
    pub mono_active: bool,
    pub mono_num_of_sequences_power_of_2: u16,
    pub mono_sequence_length_power_of_2: u16,
    pub mono_confidence_level_upper: u16,
    pub mono_confidence_level_lower: u16,
    pub asym_active: bool,
    pub asym_sequence_length_bits: u16,
    pub runs_active: bool,
    pub runs_sequence_length: u16,
    pub runs_num_of_sequences_power_of_2: u16,
    pub runs_confidence_level: u16,
    pub sha256_active: bool,
    pub sha256_reduction_ratio: u16,
}

/// Run settings of a board: packet size, time threshold and the parameters
/// of the on-board accelerators (monobit, asymmetry, runs, SHA-256).
#[derive(Debug, Copy, Clone)]
pub struct RunSettings {
    num_of_dwords: u16,
    afp_threshold: u16,
    sanity_fail_flag_latch_event_alarm_thr: u16,
    mono_active: bool,
    mono_num_of_sequences_power_of_2: u16,
    mono_sequence_length_power_of_2: u16,
    mono_confidence_level_upper: u16,
    mono_confidence_level_lower: u16,
    asym_active: bool,
    asym_sequence_length_bits: u16,
    runs_active: bool,
    runs_sequence_length: u16,
    runs_num_of_sequences_power_of_2: u16,
    runs_confidence_level: u16,
    sha256_active: bool,
    sha256_reduction_ratio: u16,
}

impl View for RunSettings {
    type V = RunSettingsView;

    closed spec fn view(&self) -> RunSettingsView {
        RunSettingsView {
            num_of_dwords: self.num_of_dwords,
            afp_threshold: self.afp_threshold,
            sanity_fail_flag_latch_event_alarm_thr: self.sanity_fail_flag_latch_event_alarm_thr,
            mono_active: self.mono_active,
            mono_num_of_sequences_power_of_2: self.mono_num_of_sequences_power_of_2,
            mono_sequence_length_power_of_2: self.mono_sequence_length_power_of_2,
            mono_confidence_level_upper: self.mono_confidence_level_upper,
            mono_confidence_level_lower: self.mono_confidence_level_lower,
            asym_active: self.asym_active,
            asym_sequence_length_bits: self.asym_sequence_length_bits,
            runs_active: self.runs_active,
            runs_sequence_length: self.runs_sequence_length,
            runs_num_of_sequences_power_of_2: self.runs_num_of_sequences_power_of_2,
            runs_confidence_level: self.runs_confidence_level,
            sha256_active: self.sha256_active,
            sha256_reduction_ratio: self.sha256_reduction_ratio,
        }
    }
}

/// The settings that a board starts with.
pub open spec fn default_settings() -> RunSettingsView {
    RunSettingsView {
        num_of_dwords: 0xffc0,
        afp_threshold: 50,
        sanity_fail_flag_latch_event_alarm_thr: 3,
        mono_active: true,
        mono_num_of_sequences_power_of_2: 8,
        mono_sequence_length_power_of_2: 6,
        mono_confidence_level_upper: 3,
        mono_confidence_level_lower: 3,
        asym_active: true,
        asym_sequence_length_bits: 600,
        runs_active: true,
        runs_sequence_length: 5,
        runs_num_of_sequences_power_of_2: 8,
        runs_confidence_level: 3,
        sha256_active: true,
        sha256_reduction_ratio: 16,
    }
}

/// Two settings are equal when all their numeric parameters agree; which
/// accelerators are active is not compared.
pub open spec fn same_parameters(a: RunSettingsView, b: RunSettingsView) -> bool {
    &&& a.num_of_dwords == b.num_of_dwords
    &&& a.afp_threshold == b.afp_threshold
    &&& a.sanity_fail_flag_latch_event_alarm_thr == b.sanity_fail_flag_latch_event_alarm_thr
    &&& a.mono_num_of_sequences_power_of_2 == b.mono_num_of_sequences_power_of_2
    &&& a.mono_sequence_length_power_of_2 == b.mono_sequence_length_power_of_2
    &&& a.mono_confidence_level_upper == b.mono_confidence_level_upper
    &&& a.mono_confidence_level_lower == b.mono_confidence_level_lower
    &&& a.asym_sequence_length_bits == b.asym_sequence_length_bits
    &&& a.runs_sequence_length == b.runs_sequence_length
    &&& a.runs_num_of_sequences_power_of_2 == b.runs_num_of_sequences_power_of_2
    &&& a.runs_confidence_level == b.runs_confidence_level
    &&& a.sha256_reduction_ratio == b.sha256_reduction_ratio
}

impl Default for RunSettings {
    fn default() -> (r: RunSettings)
        ensures
            r@ == default_settings(),
    {
        RunSettings {
            num_of_dwords: 0xffc0,
            afp_threshold: 50,
            sanity_fail_flag_latch_event_alarm_thr: 3,
            mono_active: true,
            mono_num_of_sequences_power_of_2: 8,
            mono_sequence_length_power_of_2: 6,
            mono_confidence_level_upper: 3,
            mono_confidence_level_lower: 3,
            asym_active: true,
            asym_sequence_length_bits: 600,
            runs_active: true,
            runs_sequence_length: 5,
            runs_num_of_sequences_power_of_2: 8,
            runs_confidence_level: 3,
            sha256_active: true,
            sha256_reduction_ratio: 16,
        }
    }
}

impl PartialEq for RunSettings {
    fn eq(&self, other: &Self) -> (r: bool) {
        self.num_of_dwords == other.num_of_dwords
            && self.afp_threshold == other.afp_threshold
            && self.sanity_fail_flag_latch_event_alarm_thr
            == other.sanity_fail_flag_latch_event_alarm_thr
            && self.mono_num_of_sequences_power_of_2 == other.mono_num_of_sequences_power_of_2
            && self.mono_sequence_length_power_of_2 == other.mono_sequence_length_power_of_2
            && self.mono_confidence_level_upper == other.mono_confidence_level_upper
            && self.mono_confidence_level_lower == other.mono_confidence_level_lower
            && self.asym_sequence_length_bits == other.asym_sequence_length_bits
            && self.runs_sequence_length == other.runs_sequence_length
            && self.runs_num_of_sequences_power_of_2 == other.runs_num_of_sequences_power_of_2
            && self.runs_confidence_level == other.runs_confidence_level
            && self.sha256_reduction_ratio == other.sha256_reduction_ratio
    }
}

impl vstd::std_specs::cmp::PartialEqSpecImpl for RunSettings {
    open spec fn obeys_eq_spec() -> bool {
        true
    }

    open spec fn eq_spec(&self, other: &RunSettings) -> bool {
        same_parameters(self@, other@)
    }
}

/// Capacities of the on-board result FIFOs, in words, less a safety margin
/// of two full SHA-256 entries and four entries of the other accelerators.
#[derive(Copy, Clone, Debug)]
pub struct HwLimits {
    sha256_fifo: i32,
    mono_fifo: i32,
    runs_fifo: i32,
    asym_fifo: i32,
}

/// Usable words of the SHA-256 result FIFO.
pub open spec fn sha256_fifo_limit() -> int {
    512 - 8 * 2
}

/// Usable words of the monobit result FIFO.
pub open spec fn mono_fifo_limit() -> int {
    1024 - 4
}

/// Usable words of the runs result FIFO.
pub open spec fn runs_fifo_limit() -> int {
    1024 - 4
}

/// Usable words of the asymmetry result FIFO.
pub open spec fn asym_fifo_limit() -> int {
    1024 - 4
}

impl HwLimits {
    /// The SHA-256 FIFO limit held here.
    pub closed spec fn sha256_words(&self) -> int {
        self.sha256_fifo as int
    }

    /// The monobit FIFO limit held here.
    pub closed spec fn mono_words(&self) -> int {
        self.mono_fifo as int
    }

    /// The runs FIFO limit held here.
    pub closed spec fn runs_words(&self) -> int {
        self.runs_fifo as int
    }

    /// The asymmetry FIFO limit held here.
    pub closed spec fn asym_words(&self) -> int {
        self.asym_fifo as int
    }

    /// The limits of the board's FIFOs.
    pub fn new() -> (r: HwLimits)
        ensures
            r.sha256_words() == sha256_fifo_limit(),
            r.mono_words() == mono_fifo_limit(),
            r.runs_words() == runs_fifo_limit(),
            r.asym_words() == asym_fifo_limit(),
    {
        HwLimits {
            sha256_fifo: 512 - 8 * 2,
            mono_fifo: 1024 - 4,
            runs_fifo: 1024 - 4,
            asym_fifo: 1024 - 4,
        }
    }

    /// The limits in force; they never change while the program runs.
    pub fn get_hw_limits() -> (r: Result<HwLimits, RapLibErrors>)
        ensures
            r matches Ok(l) && l.sha256_words() == sha256_fifo_limit() && l.mono_words()
                == mono_fifo_limit() && l.runs_words() == runs_fifo_limit() && l.asym_words()
                == asym_fifo_limit(),
    {
        Ok(HwLimits::new())
    }

    pub fn sha256(&self) -> (r: i32)
        ensures
            r == self.sha256_words(),
    {
        self.sha256_fifo
    }

    pub fn mono(&self) -> (r: i32)
        ensures
            r == self.mono_words(),
    {
        self.mono_fifo
    }

    pub fn runs(&self) -> (r: i32)
        ensures
            r == self.runs_words(),
    {
        self.runs_fifo
    }

    pub fn asym(&self) -> (r: i32)
        ensures
            r == self.asym_words(),
    {
        self.asym_fifo
    }
}

/// `base` raised to `exp`.
pub open spec fn power(base: int, exp: nat) -> int
    decreases exp,
{
    if exp == 0 {
        1
    } else {
        base * power(base, (exp - 1) as nat)
    }
}

/// A positive base gives a positive power.
pub proof fn lemma_power_positive(base: int, exp: nat)
    requires
        base >= 1,
    ensures
        power(base, exp) >= 1,
    decreases exp,
{
    if exp > 0 {
        lemma_power_positive(base, (exp - 1) as nat);
        let p = power(base, (exp - 1) as nat);
        assert(base * p >= 1) by (nonlinear_arith)
            requires
                base >= 1,
                p >= 1,
        ;
    }
}

/// With a base of at least one, the power grows with the exponent.
pub proof fn lemma_power_monotone(base: int, e1: nat, e2: nat)
    requires
        base >= 1,
        e1 <= e2,
    ensures
        power(base, e1) <= power(base, e2),
    decreases e2,
{
    if e1 < e2 {
        lemma_power_monotone(base, e1, (e2 - 1) as nat);
        lemma_power_positive(base, (e2 - 1) as nat);
        let p = power(base, (e2 - 1) as nat);
        assert(p <= base * p) by (nonlinear_arith)
            requires
                base >= 1,
                p >= 1,
        ;
    }
}

/// `base` raised to `exp`, where the result fits in an `i32`.
pub(crate) fn pow_i32(base: i32, exp: u32) -> (r: i32)
    requires
        base >= 1,
        power(base as int, exp as nat) <= i32::MAX,
    ensures
        r == power(base as int, exp as nat),
{
    let mut acc: i32 = 1;
    let mut i: u32 = 0;
    while i < exp
        invariant
            base >= 1,
            i <= exp,
            acc == power(base as int, i as nat),
            power(base as int, exp as nat) <= i32::MAX,
        decreases exp - i,
    {
        proof {
            lemma_power_monotone(base as int, (i + 1) as nat, exp as nat);
            lemma_power_positive(base as int, (i + 1) as nat);
            assert(power(base as int, (i + 1) as nat) == base * power(base as int, i as nat));
            assert(acc * base == base * acc) by (nonlinear_arith);
        }
        acc = acc * base;
        i = i + 1;
    }
    acc
}

/// Bits that the board consumes for one monobit result.
pub open spec fn mono_bits_per_entry(v: RunSettingsView) -> int {
    power(2, v.mono_sequence_length_power_of_2 as nat) * power(
        2,
        v.mono_num_of_sequences_power_of_2 as nat,
    )
}

/// Bits that the board consumes for one runs result.
pub open spec fn runs_bits_per_entry(v: RunSettingsView) -> int {
    power(2, v.runs_sequence_length as nat) * power(2, v.runs_num_of_sequences_power_of_2 as nat)
}

/// Bits that the board consumes for one asymmetry result.
pub open spec fn asym_bits_per_entry(v: RunSettingsView) -> int {
    v.asym_sequence_length_bits as int
}

/// Bits that the board consumes for one SHA-256 result.
pub open spec fn sha256_bits_per_entry(v: RunSettingsView) -> int {
    256 * v.sha256_reduction_ratio
}

/// The packet size search is defined: each bits-per-entry figure is positive
/// and fits in an `i32`.
pub open spec fn dword_search_defined(v: RunSettingsView) -> bool {
    &&& mono_bits_per_entry(v) <= i32::MAX
    &&& runs_bits_per_entry(v) <= i32::MAX
    &&& v.asym_sequence_length_bits > 0
    &&& v.sha256_reduction_ratio > 0
}

/// A packet of `dw` words would overflow one of the result FIFOs, or exceed
/// the largest packet that the hardware accepts.
pub open spec fn fifo_limit_reached(v: RunSettingsView, dw: int) -> bool {
    let bits = dw * 32;
    ||| bits / mono_bits_per_entry(v) > mono_fifo_limit()
    ||| bits / runs_bits_per_entry(v) > runs_fifo_limit()
    ||| bits / asym_bits_per_entry(v) > asym_fifo_limit()
    ||| (bits / sha256_bits_per_entry(v)) * 8 > sha256_fifo_limit()
    ||| dw > MAXIMUM_NUM_OF_DWORDS
}

/// `dw` is the largest multiple of 0x100 before the first multiple of 0x100
/// at which a FIFO limit is reached.
pub open spec fn is_optimal_num_of_dwords(v: RunSettingsView, dw: int) -> bool {
    &&& dw >= 0
    &&& dw % 0x100 == 0
    &&& forall|j: int| 0 <= j <= dw / 0x100 ==> !#[trigger] fifo_limit_reached(v, j * 0x100)
    &&& fifo_limit_reached(v, dw + 0x100)
}

/// A product of two positive factors is at least each of them.
proof fn lemma_factors_below_product(a: int, b: int)
    requires
        a >= 1,
        b >= 1,
    ensures
        a <= a * b,
        b <= a * b,
{
    assert(a <= a * b && b <= a * b) by (nonlinear_arith)
        requires
            a >= 1,
            b >= 1,
    ;
}

/// Where the search is defined, every power in the bits-per-entry figures
/// is positive and no larger than the figure it is a factor of.
proof fn lemma_bits_per_entry_factors(v: RunSettingsView)
    requires
        dword_search_defined(v),
    ensures
        1 <= power(2, v.mono_sequence_length_power_of_2 as nat) <= mono_bits_per_entry(v),
        1 <= power(2, v.mono_num_of_sequences_power_of_2 as nat) <= mono_bits_per_entry(v),
        1 <= power(2, v.runs_sequence_length as nat) <= runs_bits_per_entry(v),
        1 <= power(2, v.runs_num_of_sequences_power_of_2 as nat) <= runs_bits_per_entry(v),
        mono_bits_per_entry(v) > 0,
        runs_bits_per_entry(v) > 0,
        asym_bits_per_entry(v) > 0,
        sha256_bits_per_entry(v) > 0,
{
    lemma_power_positive(2, v.mono_sequence_length_power_of_2 as nat);
    lemma_power_positive(2, v.mono_num_of_sequences_power_of_2 as nat);
    lemma_power_positive(2, v.runs_sequence_length as nat);
    lemma_power_positive(2, v.runs_num_of_sequences_power_of_2 as nat);
    lemma_factors_below_product(
        power(2, v.mono_sequence_length_power_of_2 as nat),
        power(2, v.mono_num_of_sequences_power_of_2 as nat),
    );
    lemma_factors_below_product(
        power(2, v.runs_sequence_length as nat),
        power(2, v.runs_num_of_sequences_power_of_2 as nat),
    );
}

/// No FIFO limit is reached by an empty packet.
proof fn lemma_no_limit_at_zero(v: RunSettingsView)
    requires
        mono_bits_per_entry(v) > 0,
        runs_bits_per_entry(v) > 0,
        asym_bits_per_entry(v) > 0,
        sha256_bits_per_entry(v) > 0,
    ensures
        !fifo_limit_reached(v, 0),
{
    let m = mono_bits_per_entry(v);
    let r = runs_bits_per_entry(v);
    let a = asym_bits_per_entry(v);
    let s = sha256_bits_per_entry(v);
    assert(0int / m == 0 && 0int / r == 0 && 0int / a == 0 && 0int / s == 0) by (nonlinear_arith)
        requires
            m > 0,
            r > 0,
            a > 0,
            s > 0,
    ;
}

impl RunSettings {
    /// The largest packet size, in words and a multiple of 0x100, that
    /// overflows none of the result FIFOs: the size is raised by 0x100 from
    /// zero until a limit is reached, then lowered by one step.
    fn calculate_optimal_num_of_dwords(&self) -> (r: Result<u16, RapLibErrors>)
        requires
            dword_search_defined(self@),
        ensures
            r matches Ok(dw) && is_optimal_num_of_dwords(self@, dw as int),
    {
        let mut step: i32 = 0x100;

        proof {
            lemma_bits_per_entry_factors(self@);
        }
        let bits_per_entry_mono: i32 = pow_i32(2, self.get_mono_sequence_length_power_of_2() as u32)
            * pow_i32(2, self.get_mono_num_of_sequences_power_of_2() as u32);
        let bits_per_entry_runs: i32 = pow_i32(2, self.get_runs_sequence_length() as u32)
            * pow_i32(2, self.get_runs_num_of_sequences_power_of_2() as u32);
        let bits_per_entry_asym: i32 = self.get_asym_sequence_length_bits() as i32;
        let bits_per_entry_sha256: i32 = 256 * self.get_sha256_reduction_ratio() as i32;

        let mono_words_per_entry: i32 = 1;
        let runs_words_per_entry: i32 = 1;
        let asym_words_per_entry: i32 = 1;
        let sha256_words_per_entry: i32 = 8;

        let limits = HwLimits::get_hw_limits()?;

        let mut current_dw: i32 = 0;
        let mut search_coarse: bool = true;

        proof {
            lemma_no_limit_at_zero(self@);
        }

        loop
            invariant
                bits_per_entry_mono == mono_bits_per_entry(self@),
                bits_per_entry_runs == runs_bits_per_entry(self@),
                bits_per_entry_asym == asym_bits_per_entry(self@),
                bits_per_entry_sha256 == sha256_bits_per_entry(self@),
                bits_per_entry_mono > 0,
                bits_per_entry_runs > 0,
                bits_per_entry_asym > 0,
                bits_per_entry_sha256 > 0,
                mono_words_per_entry == 1,
                runs_words_per_entry == 1,
                asym_words_per_entry == 1,
                sha256_words_per_entry == 8,
                limits.sha256_words() == sha256_fifo_limit(),
                limits.mono_words() == mono_fifo_limit(),
                limits.runs_words() == runs_fifo_limit(),
                limits.asym_words() == asym_fifo_limit(),
                !fifo_limit_reached(self@, 0),
                0 <= current_dw <= 0x10000,
                current_dw % 0x100 == 0,
                search_coarse ==> step == 0x100 && forall|j: int|
                    0 <= j < current_dw / 0x100 ==> !#[trigger] fifo_limit_reached(
                        self@,
                        j * 0x100,
                    ),
                !search_coarse ==> step == -0x100 && fifo_limit_reached(
                    self@,
                    current_dw + 0x100,
                ) && forall|j: int|
                    0 <= j <= current_dw / 0x100 ==> !#[trigger] fifo_limit_reached(
                        self@,
                        j * 0x100,
                    ),
            ensures
                is_optimal_num_of_dwords(self@, current_dw as int),
            decreases
                (if search_coarse {
                    0x10001 - current_dw
                } else {
                    0
                }),
        {
            let mut limit_reached: bool = false;
            let generated_bits: i32 = current_dw * 32;
            let mono_fifo_usage: i32 = generated_bits / bits_per_entry_mono * mono_words_per_entry;
            let runs_fifo_usage: i32 = generated_bits / bits_per_entry_runs * runs_words_per_entry;
            let asym_fifo_usage: i32 = generated_bits / bits_per_entry_asym * asym_words_per_entry;
            let sha256_fifo_usage: i32 = generated_bits / bits_per_entry_sha256
                * sha256_words_per_entry;

            if mono_fifo_usage > limits.mono() {
                limit_reached = true;
            }
            if runs_fifo_usage > limits.runs() {
                limit_reached = true;
            }
            if asym_fifo_usage > limits.asym() {
                limit_reached = true;
            }
            if sha256_fifo_usage > limits.sha256() {
                limit_reached = true;
            }
            if current_dw > MAXIMUM_NUM_OF_DWORDS as i32 {
                limit_reached = true;
            }
            assert(limit_reached == fifo_limit_reached(self@, current_dw as int));
            assert(current_dw == (current_dw / 0x100) * 0x100);

            if search_coarse && limit_reached {
                search_coarse = false;
                step = -step;
            }

            if !search_coarse && !limit_reached {
                break;
            }

            current_dw = current_dw + step;
        }

        assert(current_dw == (current_dw / 0x100) * 0x100);
        assert(!fifo_limit_reached(self@, (current_dw / 0x100) * 0x100));
        Ok(current_dw as u16)
    }
}

/// A larger packet overflows whatever a smaller one overflows.
pub proof fn lemma_fifo_limit_monotone(v: RunSettingsView, d1: int, d2: int)
    requires
        dword_search_defined(v),
        0 <= d1 <= d2,
        fifo_limit_reached(v, d1),
    ensures
        fifo_limit_reached(v, d2),
{
    lemma_bits_per_entry_factors(v);
    let b1 = d1 * 32;
    let b2 = d2 * 32;
    vstd::arithmetic::div_mod::lemma_div_is_ordered(b1, b2, mono_bits_per_entry(v));
    vstd::arithmetic::div_mod::lemma_div_is_ordered(b1, b2, runs_bits_per_entry(v));
    vstd::arithmetic::div_mod::lemma_div_is_ordered(b1, b2, asym_bits_per_entry(v));
    vstd::arithmetic::div_mod::lemma_div_is_ordered(b1, b2, sha256_bits_per_entry(v));
}

/// The packet size found is the largest multiple of 0x100 that overflows
/// no FIFO: every larger multiple of 0x100 reaches a limit.
pub proof fn law_optimal_num_of_dwords_is_largest(v: RunSettingsView, dw: int, k: int)
    requires
        dword_search_defined(v),
        is_optimal_num_of_dwords(v, dw),
        k * 0x100 > dw,
    ensures
        fifo_limit_reached(v, k * 0x100),
{
    assert(dw + 0x100 <= k * 0x100);
    lemma_fifo_limit_monotone(v, dw + 0x100, k * 0x100);
}

/// Only one packet size meets the description of the optimal one.
pub proof fn lemma_optimal_num_of_dwords_unique(v: RunSettingsView, d1: int, d2: int)
    requires
        is_optimal_num_of_dwords(v, d1),
        is_optimal_num_of_dwords(v, d2),
    ensures
        d1 == d2,
{
    if d1 < d2 {
        let j = d1 / 0x100 + 1;
        assert(j * 0x100 == d1 + 0x100);
        assert(!fifo_limit_reached(v, j * 0x100));
    } else if d2 < d1 {
        let j = d2 / 0x100 + 1;
        assert(j * 0x100 == d2 + 0x100);
        assert(!fifo_limit_reached(v, j * 0x100));
    }
}

/// The optimal packet size of `v` (see `is_optimal_num_of_dwords`).
pub open spec fn optimal_num_of_dwords(v: RunSettingsView) -> int {
    choose|dw: int| is_optimal_num_of_dwords(v, dw)
}

/// The settings after the packet size has been brought to a multiple of
/// 0x100: a size that is not one is replaced by the optimal size.
pub open spec fn adjusted_settings(v: RunSettingsView) -> RunSettingsView {
    if v.num_of_dwords % 0x100 != 0 {
        RunSettingsView { num_of_dwords: optimal_num_of_dwords(v) as u16, ..v }
    } else {
        v
    }
}

/// Settings that can be validated: where the packet size needs adjusting,
/// the search for it is defined.
pub open spec fn settings_checkable(v: RunSettingsView) -> bool {
    v.num_of_dwords % 0x100 != 0 ==> dword_search_defined(v)
}

pub const MSG_MONO_SEQUENCE_LENGTH: &'static str =
    "- mono_sequence_length_power_of_2 out of range: it must be within range <2; 11>.\n";

pub const MSG_MONO_NUM_OF_SEQUENCES: &'static str =
    "- mono_num_of_sequences_power_of_2 out of range: it must be within range <2; 21>. \n";

pub const MSG_MONO_PARITY: &'static str =
    "- mono_num_of_sequences_power_of_2 and mono_sequence_length_power_of_2 need to both be either even or odd. \n";

pub const MSG_MONO_ORDER: &'static str =
    "- mono_num_of_sequences_power_of_2 must be greater than mono_sequence_length_power_of_2. \n";

pub const MSG_MONO_CONFIDENCE_UPPER: &'static str =
    "- mono_confidence_level_upper out of range: it must be within range <0; 16>. \n";

pub const MSG_MONO_CONFIDENCE_LOWER: &'static str =
    "- mono_confidence_level_lower out of range: it must be within range <0; 16>. \n";

pub const MSG_SANITY_ALARM_THR: &'static str =
    "- sanity_fail_flag_latch_event_alarm_thr out of range: it must be within range <1; 15>. \n";

pub const MSG_RUNS_SEQUENCE_LENGTH: &'static str =
    "- runs_sequence_length out of range: it must be within range <5; 11>. \n";

pub const MSG_RUNS_NUM_OF_SEQUENCES: &'static str =
    "- runs_num_of_sequences_power_of_2 out of range: it must be within range <2; 21>. \n";

pub const MSG_ASYM_SEQUENCE_LENGTH: &'static str =
    "- asym_sequence_length_bits out of range: it must be at least 12 and a multiple of 4. \n";

pub const MSG_SHA256_RATIO_RANGE: &'static str =
    "- sha256_red_ratio out of range: it must be within range <2; 32>. \n";

pub const MSG_RUNS_CONFIDENCE: &'static str =
    "- runs_confidence_level out of range: it must be within range <0; 0x3fff>. \n";

pub const MSG_SHA256_RATIO: &'static str = "- sha256_red_ratio must be of even values.\n";

pub open spec fn bad_mono_sequence_length(v: RunSettingsView) -> bool {
    v.mono_sequence_length_power_of_2 < 2 || v.mono_sequence_length_power_of_2 > 11
}

pub open spec fn bad_mono_num_of_sequences(v: RunSettingsView) -> bool {
    v.mono_num_of_sequences_power_of_2 < 2 || v.mono_num_of_sequences_power_of_2 > 21
}

pub open spec fn bad_mono_parity(v: RunSettingsView) -> bool {
    v.mono_sequence_length_power_of_2 % 2 != v.mono_num_of_sequences_power_of_2 % 2
}

pub open spec fn bad_mono_order(v: RunSettingsView) -> bool {
    v.mono_num_of_sequences_power_of_2 <= v.mono_sequence_length_power_of_2
}

pub open spec fn bad_runs_num_of_sequences(v: RunSettingsView) -> bool {
    v.runs_num_of_sequences_power_of_2 < 2 || v.runs_num_of_sequences_power_of_2 > 21
}

pub open spec fn bad_asym_sequence_length(v: RunSettingsView) -> bool {
    v.asym_sequence_length_bits < 12 || v.asym_sequence_length_bits % 4 != 0
}

pub open spec fn bad_sha256_ratio_range(v: RunSettingsView) -> bool {
    v.sha256_reduction_ratio < 2 || v.sha256_reduction_ratio > 32
}

pub open spec fn bad_mono_confidence_upper(v: RunSettingsView) -> bool {
    v.mono_confidence_level_upper > 16
}

pub open spec fn bad_mono_confidence_lower(v: RunSettingsView) -> bool {
    v.mono_confidence_level_lower > 16
}

pub open spec fn bad_sanity_alarm_thr(v: RunSettingsView) -> bool {
    v.sanity_fail_flag_latch_event_alarm_thr < 1 || v.sanity_fail_flag_latch_event_alarm_thr > 15
}

pub open spec fn bad_runs_sequence_length(v: RunSettingsView) -> bool {
    v.runs_sequence_length < 5 || v.runs_sequence_length > 11
}

pub open spec fn bad_runs_confidence(v: RunSettingsView) -> bool {
    v.runs_confidence_level > 0x3fff
}

pub open spec fn bad_sha256_ratio(v: RunSettingsView) -> bool {
    v.sha256_reduction_ratio % 2 == 1
}

/// Settings that break none of the range and parity rules.
pub open spec fn settings_valid(v: RunSettingsView) -> bool {
    !bad_mono_sequence_length(v) && !bad_mono_num_of_sequences(v) && !bad_mono_parity(v)
        && !bad_mono_order(v) && !bad_mono_confidence_upper(v) && !bad_mono_confidence_lower(v)
        && !bad_sanity_alarm_thr(v) && !bad_runs_sequence_length(v)
        && !bad_runs_num_of_sequences(v) && !bad_runs_confidence(v)
        && !bad_asym_sequence_length(v) && !bad_sha256_ratio(v) && !bad_sha256_ratio_range(v)
}

/// `text` where `cond` holds, and nothing otherwise.
pub open spec fn note(cond: bool, text: &str) -> Seq<char> {
    if cond {
        text@
    } else {
        Seq::empty()
    }
}

/// One line per broken rule, in a fixed order.
pub open spec fn validity_message(v: RunSettingsView) -> Seq<char> {
    note(bad_mono_sequence_length(v), MSG_MONO_SEQUENCE_LENGTH)
        + note(bad_mono_num_of_sequences(v), MSG_MONO_NUM_OF_SEQUENCES)
        + note(bad_mono_parity(v), MSG_MONO_PARITY)
        + note(bad_mono_order(v), MSG_MONO_ORDER)
        + note(bad_mono_confidence_upper(v), MSG_MONO_CONFIDENCE_UPPER)
        + note(bad_mono_confidence_lower(v), MSG_MONO_CONFIDENCE_LOWER)
        + note(bad_sanity_alarm_thr(v), MSG_SANITY_ALARM_THR)
        + note(bad_runs_sequence_length(v), MSG_RUNS_SEQUENCE_LENGTH)
        + note(bad_runs_num_of_sequences(v), MSG_RUNS_NUM_OF_SEQUENCES)
        + note(bad_runs_confidence(v), MSG_RUNS_CONFIDENCE)
        + note(bad_asym_sequence_length(v), MSG_ASYM_SEQUENCE_LENGTH)
        + note(bad_sha256_ratio(v), MSG_SHA256_RATIO)
        + note(bad_sha256_ratio_range(v), MSG_SHA256_RATIO_RANGE)
}

/// Appends `text` to `msg` where `cond` holds.
fn append_if(msg: &mut String, cond: bool, text: &str)
    ensures
        final(msg)@ == old(msg)@ + note(cond, text),
{
    if cond {
        msg.append(text);
    } else {
        assert(old(msg)@ + note(cond, text) =~= old(msg)@);
    }
}

impl RunSettings {
    /// Brings the packet size to a multiple of 0x100 and checks the other
    /// parameters; the error lists every rule that the settings break.
    fn check_run_settings_validity(&mut self) -> (r: Result<(), RapLibErrors>)
        requires
            settings_checkable(old(self)@),
        ensures
            final(self)@ == adjusted_settings(old(self)@),
            r is Ok <==> settings_valid(final(self)@),
            r matches Err(e) ==> (e matches RapLibErrors::SettingsError(m) && m@ == validity_message(
                final(self)@,
            )),
    {
        if self.num_of_dwords % 0x100 != 0 {
            let optimal_dwords = self.calculate_optimal_num_of_dwords()?;
            proof {
                let ghost d = optimal_dwords as int;
                assert(is_optimal_num_of_dwords(self@, d));
                lemma_optimal_num_of_dwords_unique(self@, d, optimal_num_of_dwords(self@));
            }
            self.set_num_of_dwords(optimal_dwords);
        }
        let ghost v = self@;
        let mut msg = String::new();
        assert(msg@ =~= Seq::<char>::empty());

        let bad1 = self.mono_sequence_length_power_of_2 < 2 || self.mono_sequence_length_power_of_2
            > 11;
        append_if(&mut msg, bad1, MSG_MONO_SEQUENCE_LENGTH);
        assert(msg@ =~= note(bad_mono_sequence_length(v), MSG_MONO_SEQUENCE_LENGTH));

        let bad2 = self.mono_num_of_sequences_power_of_2 < 2
            || self.mono_num_of_sequences_power_of_2 > 21;
        append_if(&mut msg, bad2, MSG_MONO_NUM_OF_SEQUENCES);

        let bad3 = (self.mono_sequence_length_power_of_2 % 2 == 0
            && self.mono_num_of_sequences_power_of_2 % 2 != 0) || (
        self.mono_sequence_length_power_of_2 % 2 != 0 && self.mono_num_of_sequences_power_of_2 % 2
            == 0);
        append_if(&mut msg, bad3, MSG_MONO_PARITY);

        let bad3b = self.mono_num_of_sequences_power_of_2 <= self.mono_sequence_length_power_of_2;
        append_if(&mut msg, bad3b, MSG_MONO_ORDER);

        let bad4 = self.mono_confidence_level_upper > 16;
        append_if(&mut msg, bad4, MSG_MONO_CONFIDENCE_UPPER);

        let bad5 = self.mono_confidence_level_lower > 16;
        append_if(&mut msg, bad5, MSG_MONO_CONFIDENCE_LOWER);

        let bad6 = self.sanity_fail_flag_latch_event_alarm_thr < 1
            || self.sanity_fail_flag_latch_event_alarm_thr > 15;
        append_if(&mut msg, bad6, MSG_SANITY_ALARM_THR);

        let bad7 = self.runs_sequence_length < 5 || self.runs_sequence_length > 11;
        append_if(&mut msg, bad7, MSG_RUNS_SEQUENCE_LENGTH);

        let bad7b = self.runs_num_of_sequences_power_of_2 < 2
            || self.runs_num_of_sequences_power_of_2 > 21;
        append_if(&mut msg, bad7b, MSG_RUNS_NUM_OF_SEQUENCES);

        let bad8 = self.runs_confidence_level > 0x3fff;
        append_if(&mut msg, bad8, MSG_RUNS_CONFIDENCE);

        let bad8b = self.asym_sequence_length_bits < 12 || self.asym_sequence_length_bits % 4 != 0;
        append_if(&mut msg, bad8b, MSG_ASYM_SEQUENCE_LENGTH);

        let bad9 = self.sha256_reduction_ratio % 2 == 1;
        append_if(&mut msg, bad9, MSG_SHA256_RATIO);

        let bad9b = self.sha256_reduction_ratio < 2 || self.sha256_reduction_ratio > 32;
        append_if(&mut msg, bad9b, MSG_SHA256_RATIO_RANGE);

        assert(msg@ == validity_message(v));

        if bad1 || bad2 || bad3 || bad3b || bad4 || bad5 || bad6 || bad7 || bad7b || bad8 || bad8b
            || bad9 || bad9b {
            return Err(RapLibErrors::SettingsError(msg));
        }
        Ok(())
    }
}

impl RunSettings {
    pub fn get_num_of_dwords(&self) -> (r: u16)
        ensures
            r == self@.num_of_dwords,
    {
        self.num_of_dwords
    }

    pub fn set_num_of_dwords(&mut self, value: u16)
        ensures
            final(self)@ == (RunSettingsView { num_of_dwords: value, ..old(self)@ }),
    {
        self.num_of_dwords = value;
    }

    pub fn get_afp_threshold(&self) -> (r: u16)
        ensures
            r == self@.afp_threshold,
    {
        self.afp_threshold
    }

    pub fn set_afp_threshold(&mut self, value: u16)
        ensures
            final(self)@ == (RunSettingsView { afp_threshold: value, ..old(self)@ }),
    {
        self.afp_threshold = value;
    }

    pub fn get_sanity_fail_flag_latch_event_alarm_thr(&self) -> (r: u16)
        ensures
            r == self@.sanity_fail_flag_latch_event_alarm_thr,
    {
        self.sanity_fail_flag_latch_event_alarm_thr
    }

    pub fn set_sanity_fail_flag_latch_event_alarm_thr(&mut self, value: u16)
        ensures
            final(self)@ == (RunSettingsView { sanity_fail_flag_latch_event_alarm_thr: value, ..old(self)@ }),
    {
        self.sanity_fail_flag_latch_event_alarm_thr = value;
    }

    pub fn get_mono(&self) -> (r: bool)
        ensures
            r == self@.mono_active,
    {
        self.mono_active
    }

    pub fn set_mono(&mut self, active: bool)
        ensures
            final(self)@ == (RunSettingsView { mono_active: active, ..old(self)@ }),
    {
        self.mono_active = active;
    }

    pub fn get_mono_num_of_sequences_power_of_2(&self) -> (r: u16)
        ensures
            r == self@.mono_num_of_sequences_power_of_2,
    {
        self.mono_num_of_sequences_power_of_2
    }

    pub fn set_mono_num_of_sequences_power_of_2(&mut self, value: u16)
        ensures
            final(self)@ == (RunSettingsView { mono_num_of_sequences_power_of_2: value, ..old(self)@ }),
    {
        self.mono_num_of_sequences_power_of_2 = value;
    }

    pub fn get_mono_sequence_length_power_of_2(&self) -> (r: u16)
        ensures
            r == self@.mono_sequence_length_power_of_2,
    {
        self.mono_sequence_length_power_of_2
    }

    pub fn set_mono_sequence_length_power_of_2(&mut self, value: u16)
        ensures
            final(self)@ == (RunSettingsView { mono_sequence_length_power_of_2: value, ..old(self)@ }),
    {
        self.mono_sequence_length_power_of_2 = value;
    }

    pub fn get_mono_confidence_level_upper(&self) -> (r: u16)
        ensures
            r == self@.mono_confidence_level_upper,
    {
        self.mono_confidence_level_upper
    }

    pub fn set_mono_confidence_level_upper(&mut self, value: u16)
        ensures
            final(self)@ == (RunSettingsView { mono_confidence_level_upper: value, ..old(self)@ }),
    {
        self.mono_confidence_level_upper = value;
    }

    pub fn get_mono_confidence_level_lower(&self) -> (r: u16)
        ensures
            r == self@.mono_confidence_level_lower,
    {
        self.mono_confidence_level_lower
    }

    pub fn set_mono_confidence_level_lower(&mut self, value: u16)
        ensures
            final(self)@ == (RunSettingsView { mono_confidence_level_lower: value, ..old(self)@ }),
    {
        self.mono_confidence_level_lower = value;
    }

    pub fn get_asym(&self) -> (r: bool)
        ensures
            r == self@.asym_active,
    {
        self.asym_active
    }

    pub fn set_asym(&mut self, active: bool)
        ensures
            final(self)@ == (RunSettingsView { asym_active: active, ..old(self)@ }),
    {
        self.asym_active = active;
    }

    pub fn get_asym_sequence_length_bits(&self) -> (r: u16)
        ensures
            r == self@.asym_sequence_length_bits,
    {
        self.asym_sequence_length_bits
    }

    pub fn set_asym_sequence_length_bits(&mut self, value: u16)
        ensures
            final(self)@ == (RunSettingsView { asym_sequence_length_bits: value, ..old(self)@ }),
    {
        self.asym_sequence_length_bits = value;
    }

    pub fn get_runs(&self) -> (r: bool)
        ensures
            r == self@.runs_active,
    {
        self.runs_active
    }

    pub fn set_runs(&mut self, active: bool)
        ensures
            final(self)@ == (RunSettingsView { runs_active: active, ..old(self)@ }),
    {
        self.runs_active = active;
    }

    pub fn get_runs_sequence_length(&self) -> (r: u16)
        ensures
            r == self@.runs_sequence_length,
    {
        self.runs_sequence_length
    }

    pub fn set_runs_sequence_length(&mut self, value: u16)
        ensures
            final(self)@ == (RunSettingsView { runs_sequence_length: value, ..old(self)@ }),
    {
        self.runs_sequence_length = value;
    }

    pub fn get_runs_num_of_sequences_power_of_2(&self) -> (r: u16)
        ensures
            r == self@.runs_num_of_sequences_power_of_2,
    {
        self.runs_num_of_sequences_power_of_2
    }

    pub fn set_runs_num_of_sequences_power_of_2(&mut self, value: u16)
        ensures
            final(self)@ == (RunSettingsView { runs_num_of_sequences_power_of_2: value, ..old(self)@ }),
    {
        self.runs_num_of_sequences_power_of_2 = value;
    }

    pub fn get_runs_confidence_level(&self) -> (r: u16)
        ensures
            r == self@.runs_confidence_level,
    {
        self.runs_confidence_level
    }

    pub fn set_runs_confidence_level(&mut self, value: u16)
        ensures
            final(self)@ == (RunSettingsView { runs_confidence_level: value, ..old(self)@ }),
    {
        self.runs_confidence_level = value;
    }

    pub fn get_sha256(&self) -> (r: bool)
        ensures
            r == self@.sha256_active,
    {
        self.sha256_active
    }

    pub fn set_sha256(&mut self, active: bool)
        ensures
            final(self)@ == (RunSettingsView { sha256_active: active, ..old(self)@ }),
    {
        self.sha256_active = active;
    }

    pub fn get_sha256_reduction_ratio(&self) -> (r: u16)
        ensures
            r == self@.sha256_reduction_ratio,
    {
        self.sha256_reduction_ratio
    }

    pub fn set_sha256_reduction_ratio(&mut self, value: u16)
        ensures
            final(self)@ == (RunSettingsView { sha256_reduction_ratio: value, ..old(self)@ }),
    {
        self.sha256_reduction_ratio = value;
    }
}

/// From `k` on, some multiple of 0x100 is optimal, provided that no multiple
/// below `k` reaches a limit.
proof fn lemma_optimal_exists_from(v: RunSettingsView, k: int)
    requires
        0 <= k <= 0x100,
        forall|j: int| 0 <= j <= k ==> !#[trigger] fifo_limit_reached(v, j * 0x100),
    ensures
        exists|dw: int| is_optimal_num_of_dwords(v, dw),
    decreases 0x100 - k,
{
    if fifo_limit_reached(v, (k + 1) * 0x100) {
        let dw = k * 0x100;
        assert(dw / 0x100 == k);
        assert(is_optimal_num_of_dwords(v, dw));
    } else {
        assert((k + 1) * 0x100 > MAXIMUM_NUM_OF_DWORDS ==> fifo_limit_reached(v, (k + 1) * 0x100));
        assert forall|j: int| 0 <= j <= k + 1 implies !#[trigger] fifo_limit_reached(
            v,
            j * 0x100,
        ) by {
            if j <= k {
            } else {
                assert(j == k + 1);
            }
        }
        lemma_optimal_exists_from(v, k + 1);
    }
}

/// Where the search is defined, an optimal packet size exists, and
/// `optimal_num_of_dwords` is it.
pub proof fn lemma_optimal_num_of_dwords(v: RunSettingsView)
    requires
        dword_search_defined(v),
    ensures
        is_optimal_num_of_dwords(v, optimal_num_of_dwords(v)),
        0 <= optimal_num_of_dwords(v) <= 0xff00,
{
    lemma_bits_per_entry_factors(v);
    lemma_no_limit_at_zero(v);
    assert forall|j: int| 0 <= j <= 0 implies !#[trigger] fifo_limit_reached(v, j * 0x100) by {
        assert(j * 0x100 == 0);
    }
    lemma_optimal_exists_from(v, 0);
    let dw = optimal_num_of_dwords(v);
    assert(dw == (dw / 0x100) * 0x100);
    assert(!fifo_limit_reached(v, (dw / 0x100) * 0x100));
}

/// Adjusting the packet size twice changes nothing more than adjusting it
/// once: settings accepted by `set_run_settings` are accepted unchanged
/// when set again.
pub proof fn law_adjustment_idempotent(v: RunSettingsView)
    requires
        settings_checkable(v),
    ensures
        adjusted_settings(v).num_of_dwords % 0x100 == 0,
        adjusted_settings(adjusted_settings(v)) == adjusted_settings(v),
        settings_valid(adjusted_settings(v)) == settings_valid(v),
{
    if v.num_of_dwords % 0x100 != 0 {
        lemma_optimal_num_of_dwords(v);
    }
}

/// Which accelerators are active plays no part in comparing settings.
pub proof fn law_activation_flags_not_compared(
    v: RunSettingsView,
    mono: bool,
    asym: bool,
    runs: bool,
    sha256: bool,
)
    ensures
        same_parameters(
            v,
            RunSettingsView {
                mono_active: mono,
                asym_active: asym,
                runs_active: runs,
                sha256_active: sha256,
                ..v
            },
        ),
{
}

/// Comparing settings is an equivalence: every setting equals itself, and
/// equality is symmetric and transitive.
pub proof fn law_settings_equality_is_equivalence(
    a: RunSettingsView,
    b: RunSettingsView,
    c: RunSettingsView,
)
    ensures
        same_parameters(a, a),
        same_parameters(a, b) ==> same_parameters(b, a),
        same_parameters(a, b) && same_parameters(b, c) ==> same_parameters(a, c),
{
}

/// Settings compare equal exactly when they are the same apart from the
/// four activation flags: giving one of them the other's flags makes the two
/// identical.
pub proof fn law_equal_settings_differ_only_in_flags(a: RunSettingsView, b: RunSettingsView)
    ensures
        same_parameters(a, b) <==> (RunSettingsView {
            mono_active: a.mono_active,
            asym_active: a.asym_active,
            runs_active: a.runs_active,
            sha256_active: a.sha256_active,
            ..b
        }) == a,
{
}

/// The checks accept exactly the documented ranges: monobit sequence length
/// 2 to 11 and count 2 to 21, both even or both odd, the count above the
/// length; monobit confidence levels up to 16; alarm threshold 1 to 15; runs
/// sequence length 5 to 11 and count 2 to 21; runs confidence up to 0x3fff;
/// asymmetry length at least 12 bits and a multiple of 4; SHA-256 ratio even
/// and from 2 to 32. The message is empty exactly when the settings pass.
pub proof fn law_settings_valid_ranges(v: RunSettingsView)
    ensures
        settings_valid(v) <==> (2 <= v.mono_sequence_length_power_of_2 <= 11 && 2
            <= v.mono_num_of_sequences_power_of_2 <= 21 && v.mono_sequence_length_power_of_2 % 2
            == v.mono_num_of_sequences_power_of_2 % 2 && v.mono_num_of_sequences_power_of_2
            > v.mono_sequence_length_power_of_2 && v.mono_confidence_level_upper <= 16
            && v.mono_confidence_level_lower <= 16 && 1 <= v.sanity_fail_flag_latch_event_alarm_thr
            <= 15 && 5 <= v.runs_sequence_length <= 11 && 2 <= v.runs_num_of_sequences_power_of_2
            <= 21 && v.runs_confidence_level <= 0x3fff && v.asym_sequence_length_bits >= 12
            && v.asym_sequence_length_bits % 4 == 0 && v.sha256_reduction_ratio % 2 == 0 && 2
            <= v.sha256_reduction_ratio <= 32),
        settings_valid(v) <==> validity_message(v).len() == 0,
{
    reveal_strlit("- mono_sequence_length_power_of_2 out of range: it must be within range <2; 11>.\n");
    reveal_strlit("- mono_num_of_sequences_power_of_2 out of range: it must be within range <2; 21>. \n");
    reveal_strlit("- mono_num_of_sequences_power_of_2 and mono_sequence_length_power_of_2 need to both be either even or odd. \n");
    reveal_strlit("- mono_num_of_sequences_power_of_2 must be greater than mono_sequence_length_power_of_2. \n");
    reveal_strlit("- mono_confidence_level_upper out of range: it must be within range <0; 16>. \n");
    reveal_strlit("- mono_confidence_level_lower out of range: it must be within range <0; 16>. \n");
    reveal_strlit("- sanity_fail_flag_latch_event_alarm_thr out of range: it must be within range <1; 15>. \n");
    reveal_strlit("- runs_sequence_length out of range: it must be within range <5; 11>. \n");
    reveal_strlit("- runs_num_of_sequences_power_of_2 out of range: it must be within range <2; 21>. \n");
    reveal_strlit("- runs_confidence_level out of range: it must be within range <0; 0x3fff>. \n");
    reveal_strlit("- asym_sequence_length_bits out of range: it must be at least 12 and a multiple of 4. \n");
    reveal_strlit("- sha256_red_ratio must be of even values.\n");
    reveal_strlit("- sha256_red_ratio out of range: it must be within range <2; 32>. \n");
}

/// The default settings pass the checks, and their packet size search is
/// defined.
pub proof fn lemma_default_settings_valid()
    ensures
        settings_checkable(default_settings()),
        settings_valid(default_settings()),
{
    reveal_with_fuel(power, 9);
    assert(power(2, 6) == 64);
    assert(power(2, 8) == 256);
    assert(power(2, 5) == 32);
    assert(64int * 256 == 16384);
    assert(32int * 256 == 8192);
    assert(mono_bits_per_entry(default_settings()) == 16384);
    assert(runs_bits_per_entry(default_settings()) == 8192);
    assert(dword_search_defined(default_settings()));
}

/// The settings in force after `v` is set over `stored`: the adjusted `v`
/// where it passes the checks, `stored` otherwise.
pub open spec fn stored_after_set(stored: RunSettingsView, v: RunSettingsView) -> RunSettingsView {
    if settings_valid(adjusted_settings(v)) {
        adjusted_settings(v)
    } else {
        stored
    }
}

/// Settings that pass the checks are read back as set, packet size
/// adjusted; settings that fail leave the settings in force as they were.
/// Setting what was read back changes nothing.
pub proof fn law_set_then_get(stored: RunSettingsView, v: RunSettingsView)
    requires
        settings_checkable(v),
    ensures
        settings_valid(adjusted_settings(v)) ==> stored_after_set(stored, v) == adjusted_settings(v),
        !settings_valid(adjusted_settings(v)) ==> stored_after_set(stored, v) == stored,
        settings_valid(adjusted_settings(v)) ==> stored_after_set(
            stored_after_set(stored, v),
            stored_after_set(stored, v),
        ) == stored_after_set(stored, v),
{
    law_adjustment_idempotent(v);
}

/// The settings in force for all boards of this process.
pub struct SettingsStore {
    current: RunSettings,
}

impl View for SettingsStore {
    type V = RunSettingsView;

    closed spec fn view(&self) -> RunSettingsView {
        self.current@
    }
}

impl SettingsStore {
    /// A store that holds the default settings, as they are before any check.
    pub fn new() -> (r: SettingsStore)
        ensures
            r@ == default_settings(),
    {
        SettingsStore { current: RunSettings::default() }
    }
}

impl RunSettings {
    /// Checks these settings (bringing the packet size to a multiple of
    /// 0x100 first) and, where they pass, makes them the settings in force.
    /// Settings that fail leave the store as it was; the error lists every
    /// rule broken. The caller saves the store after a success and reports
    /// the error otherwise.
    pub fn try_set_run_settings(&mut self, store: &mut SettingsStore) -> (r: Result<
        (),
        RapLibErrors,
    >)
        requires
            settings_checkable(old(self)@),
        ensures
            final(self)@ == adjusted_settings(old(self)@),
            r is Ok <==> settings_valid(final(self)@),
            final(store)@ == stored_after_set(old(store)@, old(self)@),
            r matches Err(e) ==> (e matches RapLibErrors::SettingsError(m) && m@ == validity_message(
                final(self)@,
            )),
    {
        match self.check_run_settings_validity() {
            Ok(_) => {
                store.current = *self;
                Ok(())
            },
            Err(f) => Err(f),
        }
    }

    /// Checks these settings (bringing the packet size to a multiple of
    /// 0x100 first) and, where they pass, makes them the settings in force;
    /// settings that fail leave the store as it was. Either way the result
    /// is `Ok`: the verdict and its message come from `try_set_run_settings`.
    pub fn set_run_settings(&mut self, store: &mut SettingsStore) -> (r: Result<(), RapLibErrors>)
        requires
            settings_checkable(old(self)@),
        ensures
            r is Ok,
            final(self)@ == adjusted_settings(old(self)@),
            final(store)@ == stored_after_set(old(store)@, old(self)@),
    {
        let _ = self.try_set_run_settings(store);
        Ok(())
    }

    /// The settings in force.
    pub fn get_run_settings(store: &SettingsStore) -> (r: Result<RunSettings, RapLibErrors>)
        ensures
            r matches Ok(s) && s@ == store@,
    {
        Ok(store.current)
    }

    /// Puts the default settings, with their packet size adjusted, in force.
    pub fn reset_default_settings(store: &mut SettingsStore) -> (r: Result<(), RapLibErrors>)
        ensures
            r is Ok,
            final(store)@ == adjusted_settings(default_settings()),
            settings_valid(final(store)@),
    {
        proof {
            lemma_default_settings_valid();
            law_adjustment_idempotent(default_settings());
        }
        let mut defaults = RunSettings::default();
        defaults.set_run_settings(store)
    }

    /// Puts in force the settings saved by an earlier run, as they were
    /// saved, or the adjusted defaults where none could be read.
    pub fn initialize_run_settings(store: &mut SettingsStore, saved: Option<RunSettings>) -> (r:
        Result<(), RapLibErrors>)
        ensures
            r is Ok,
            saved matches Some(s) ==> final(store)@ == s@,
            saved is None ==> final(store)@ == adjusted_settings(default_settings()),
    {
        match saved {
            Some(settings) => {
                store.current = settings;
                Ok(())
            },
            None => RunSettings::reset_default_settings(store),
        }
    }
}

} // verus!

use vstd::prelude::*;

verus! {

/// Bytes of raw entropy in one seed.
pub const SEED_LENGTH: usize = 2048 / 8;

/// Bytes read from the board for one seed.
pub const BUFFER_SIZE: usize = SEED_LENGTH;

/// Bytes read at a time while a board's buffer is flushed.
pub const BUFFER_SIZE_FLUSHING: usize = 100000;

/// The largest packet size, in 32-bit words, that the board hardware accepts.
pub const MAXIMUM_NUM_OF_DWORDS: usize = 0xffff;

/// Value of the generation counter after a reset when the hardware is sound.
pub const FRESH_NIBBLES_AFTER_RESET: i32 = 8188;

/// Cutoff of the repetition count test.
pub const RCT_THR: usize = 6;

/// Upper cutoff of the adaptive proportion test.
pub const APT_THR_UP: usize = 62;

/// Lower cutoff of the adaptive proportion test.
pub const APT_THR_DOWN: usize = 8;

/// The 4-bit symbols of `bytes`, high nibble first.
pub open spec fn nibbles(bytes: Seq<u8>) -> Seq<u8> {
    Seq::new(
        (2 * bytes.len()) as nat,
        |k: int|
            if k % 2 == 0 {
                bytes[k / 2] >> 4
            } else {
                bytes[k / 2] & 15
            },
    )
}

/// The repetition counter after the first `m` symbols: it starts at one with
/// the first symbol as the previous one, grows by one on each symbol equal
/// to the previous symbol and falls back to one otherwise.
pub open spec fn rct_run(n: Seq<u8>, m: int) -> int
    decreases m,
{
    if m <= 0 {
        1
    } else if m == 1 {
        2
    } else if n[m - 1] == n[m - 2] {
        rct_run(n, m - 1) + 1
    } else {
        1
    }
}

/// The repetition count test fails: at some point the counter reaches the
/// cutoff.
pub open spec fn rct_fails(n: Seq<u8>) -> bool {
    exists|m: int| 1 <= m <= n.len() && #[trigger] rct_run(n, m) >= RCT_THR
}

/// How many of the first `m` symbols equal `sym`.
pub open spec fn count_symbol(n: Seq<u8>, sym: u8, m: int) -> int
    decreases m,
{
    if m <= 0 {
        0
    } else {
        count_symbol(n, sym, m - 1) + (if n[m - 1] == sym {
            1int
        } else {
            0int
        })
    }
}

/// The adaptive proportion counter: one plus the number of symbols equal to
/// the first symbol.
pub open spec fn apt_count(n: Seq<u8>) -> int {
    1 + count_symbol(n, n[0], n.len() as int)
}

/// The adaptive proportion test fails: the counter is at or above the upper
/// cutoff, or at or below the lower one.
pub open spec fn apt_fails(n: Seq<u8>) -> bool {
    apt_count(n) >= APT_THR_UP || apt_count(n) <= APT_THR_DOWN
}

/// Counting one more symbol.
proof fn lemma_count_symbol_step(n: Seq<u8>, sym: u8, m: int)
    requires
        m >= 0,
    ensures
        count_symbol(n, sym, m + 1) == count_symbol(n, sym, m) + (if n[m] == sym {
            1int
        } else {
            0int
        }),
        0 <= count_symbol(n, sym, m) <= m,
    decreases m,
{
    if m > 0 {
        lemma_count_symbol_step(n, sym, m - 1);
    }
}

/// The repetition counter never exceeds one more than the symbols seen.
proof fn lemma_rct_run_bounds(n: Seq<u8>, m: int)
    requires
        m >= 0,
    ensures
        1 <= rct_run(n, m) <= m + 1,
    decreases m,
{
    if m > 1 {
        lemma_rct_run_bounds(n, m - 1);
    }
}

/// The symbols of `n` from `a` up to `b` are all equal.
pub open spec fn all_equal(n: Seq<u8>, a: int, b: int) -> bool {
    forall|k: int| a <= k < b ==> #[trigger] n[k] == n[a]
}

/// A run of equal symbols ending at `b` is counted at least by its length.
proof fn lemma_run_counted(n: Seq<u8>, a: int, b: int)
    requires
        0 <= a < b <= n.len(),
        all_equal(n, a, b),
    ensures
        rct_run(n, b) >= b - a,
    decreases b - a,
{
    if b > a + 1 {
        assert(n[b - 1] == n[a] && n[b - 2] == n[a]);
        lemma_run_counted(n, a, b - 1);
    } else {
        lemma_rct_run_bounds(n, b);
    }
}

/// A run of equal symbols from the start is counted one more than its length.
proof fn lemma_first_run_counted(n: Seq<u8>, b: int)
    requires
        1 <= b <= n.len(),
        all_equal(n, 0, b),
    ensures
        rct_run(n, b) == b + 1,
    decreases b,
{
    if b > 1 {
        assert(n[b - 1] == n[0] && n[b - 2] == n[0]);
        lemma_first_run_counted(n, b - 1);
    }
}

/// What the repetition counter measures: the run of equal symbols that ends
/// with the last symbol seen, one more where that run starts the seed.
proof fn lemma_rct_run_is_run(n: Seq<u8>, m: int)
    requires
        1 <= m <= n.len(),
    ensures
        (rct_run(n, m) == m + 1 && all_equal(n, 0, m)) || (1 <= rct_run(n, m) <= m - 1 && all_equal(
            n,
            m - rct_run(n, m),
            m,
        ) && n[m - rct_run(n, m) - 1] != n[m - rct_run(n, m)]),
    decreases m,
{
    if m > 1 {
        lemma_rct_run_is_run(n, m - 1);
        let r1 = rct_run(n, m - 1);
        if n[m - 1] == n[m - 2] {
            if r1 == m {
                assert(all_equal(n, 0, m));
            } else {
                let start = m - 1 - r1;
                assert(n[m - 2] == n[start]);
                assert(all_equal(n, start, m));
            }
        } else {
            assert(all_equal(n, m - 1, m));
        }
    }
}

/// The repetition count test fails exactly when six consecutive symbols are
/// equal, or the first five are.
pub proof fn law_rct_fails_on_repeats(n: Seq<u8>)
    requires
        n.len() >= 1,
    ensures
        rct_fails(n) <==> ((exists|i: int| 0 <= i && i + 6 <= n.len() && #[trigger] all_equal(n, i, i + 6))
            || (n.len() >= 5 && all_equal(n, 0, 5))),
{
    if rct_fails(n) {
        let m = choose|m: int| 1 <= m <= n.len() && #[trigger] rct_run(n, m) >= RCT_THR;
        lemma_rct_run_is_run(n, m);
        let r = rct_run(n, m);
        if r == m + 1 {
            assert(all_equal(n, 0, 5));
        } else {
            let i = m - 6;
            assert(all_equal(n, i, i + 6));
            assert(0 <= i && i + 6 <= n.len() && all_equal(n, i, i + 6));
        }
    }
    if exists|i: int| 0 <= i && i + 6 <= n.len() && #[trigger] all_equal(n, i, i + 6) {
        let i = choose|i: int| 0 <= i && i + 6 <= n.len() && #[trigger] all_equal(n, i, i + 6);
        lemma_run_counted(n, i, i + 6);
        assert(1 <= i + 6 <= n.len() && rct_run(n, i + 6) >= RCT_THR);
    }
    if n.len() >= 5 && all_equal(n, 0, 5) {
        lemma_first_run_counted(n, 5);
        assert(1 <= 5 <= n.len() && rct_run(n, 5) >= RCT_THR);
    }
}

/// Counting with `count_symbol` is counting the matching symbols among the
/// first `m`.
proof fn lemma_count_symbol_is_filter(n: Seq<u8>, sym: u8, m: int)
    requires
        0 <= m <= n.len(),
    ensures
        count_symbol(n, sym, m) == n.take(m).filter(|x: u8| x == sym).len(),
    decreases m,
{
    reveal_with_fuel(Seq::filter, 1);
    if m > 0 {
        lemma_count_symbol_is_filter(n, sym, m - 1);
        assert(n.take(m).drop_last() =~= n.take(m - 1));
        assert(n.take(m).last() == n[m - 1]);
    } else {
        assert(n.take(0).len() == 0);
    }
}

/// The adaptive proportion counter counts every symbol of the seed, the high
/// and the low nibble of each byte: it is one more than the number of the
/// seed's nibbles equal to its first nibble.
pub proof fn law_apt_counts_every_nibble(bytes: Seq<u8>)
    requires
        bytes.len() >= 1,
    ensures
        nibbles(bytes).len() == 2 * bytes.len(),
        forall|i: int|
            0 <= i < bytes.len() ==> #[trigger] nibbles(bytes)[2 * i] == bytes[i] >> 4
                && nibbles(bytes)[2 * i + 1] == bytes[i] & 15,
        apt_count(nibbles(bytes)) == 1 + nibbles(bytes).filter(|x: u8| x == nibbles(bytes)[0]).len(),
        apt_fails(nibbles(bytes)) <==> (nibbles(bytes).filter(|x: u8| x == nibbles(bytes)[0]).len()
            >= 61 || nibbles(bytes).filter(|x: u8| x == nibbles(bytes)[0]).len() <= 7),
{
    let n = nibbles(bytes);
    assert forall|i: int| 0 <= i < bytes.len() implies #[trigger] n[2 * i] == bytes[i] >> 4
        && n[2 * i + 1] == bytes[i] & 15 by {
        assert((2 * i) / 2 == i && (2 * i) % 2 == 0);
        assert((2 * i + 1) / 2 == i && (2 * i + 1) % 2 == 1);
    }
    lemma_count_symbol_is_filter(n, n[0], n.len() as int);
    assert(n.take(n.len() as int) =~= n);
    let sym = n[0];
    assert((|x: u8| x == sym) =~= (|x: u8| x == nibbles(bytes)[0]));
}

/// The health tests of a raw seed: the repetition count test and the
/// adaptive proportion test over its 4-bit symbols; `true` means failed.
pub fn nist_tests(raw_bits: &[u8; BUFFER_SIZE]) -> (r: [bool; 2])
    ensures
        r[0] == rct_fails(nibbles(raw_bits@)),
        r[1] == apt_fails(nibbles(raw_bits@)),
{
    let ghost n = nibbles(raw_bits@);
    let apt_init_sym: u8 = raw_bits[0] >> 4;
    let mut rct_prev: u8 = apt_init_sym;

    let mut apt_count: usize = 1;
    let mut rct_count: usize = 1;

    let mut apt_fail: bool = false;
    let mut rct_fail: bool = false;

    assert(n[0] == apt_init_sym);

    let mut i: usize = 0;
    while i < BUFFER_SIZE
        invariant
            n == nibbles(raw_bits@),
            n.len() == 2 * BUFFER_SIZE,
            apt_init_sym == n[0],
            i <= BUFFER_SIZE,
            rct_count == rct_run(n, 2 * i as int),
            i > 0 ==> rct_prev == n[2 * i - 1],
            i == 0 ==> rct_prev == n[0],
            rct_fail == exists|m: int| 1 <= m <= 2 * i && #[trigger] rct_run(n, m) >= RCT_THR,
            apt_count == 1 + count_symbol(n, n[0], 2 * i as int),
            !apt_fail,
        decreases BUFFER_SIZE - i,
    {
        let sym: u8 = raw_bits[i];
        let hi: u8 = sym >> 4;
        let lo: u8 = sym & 15;
        let ghost k = 2 * i as int;
        assert(n[k] == hi);
        assert(n[k + 1] == lo);
        proof {
            lemma_rct_run_bounds(n, k);
            lemma_count_symbol_step(n, n[0], k);
            lemma_count_symbol_step(n, n[0], k + 1);
        }
        let ghost fail_before = rct_fail;

        // repetition count test
        if hi == rct_prev {
            rct_count = rct_count + 1;
            if rct_count >= RCT_THR {
                rct_fail = true;
            }
        } else {
            rct_count = 1;
        }
        assert(rct_count == rct_run(n, k + 1));
        rct_prev = hi;

        proof {
            lemma_rct_run_bounds(n, k + 1);
        }
        if lo == rct_prev {
            rct_count = rct_count + 1;
            if rct_count >= RCT_THR {
                rct_fail = true;
            }
        } else {
            rct_count = 1;
        }
        assert(rct_count == rct_run(n, k + 2));
        rct_prev = lo;

        proof {
            if rct_fail {
                if !fail_before {
                    if rct_run(n, k + 1) >= RCT_THR {
                        assert(1 <= k + 1 <= 2 * (i + 1) && rct_run(n, k + 1) >= RCT_THR);
                    } else {
                        assert(1 <= k + 2 <= 2 * (i + 1) && rct_run(n, k + 2) >= RCT_THR);
                    }
                }
            } else {
                assert forall|m: int| 1 <= m <= 2 * (i + 1) implies !(#[trigger] rct_run(n, m)
                    >= RCT_THR) by {
                    if m <= k {
                        assert(!(1 <= m <= 2 * i && rct_run(n, m) >= RCT_THR));
                    }
                }
            }
        }

        // adaptive proportion test
        if hi == apt_init_sym {
            apt_count = apt_count + 1;
        }
        if lo == apt_init_sym {
            apt_count = apt_count + 1;
        }
        i = i + 1;
    }

    if apt_count >= APT_THR_UP || apt_count <= APT_THR_DOWN {
        apt_fail = true;
    }

    [rct_fail, apt_fail]
}

/// One seed of raw entropy with the results of its health tests.
#[derive(Debug)]
pub struct RawStream {
    buf: [u8; BUFFER_SIZE],
    rct_fail: bool,
    apt_fail: bool,
}

impl RawStream {
    /// The seed's bytes.
    pub closed spec fn bytes(&self) -> Seq<u8> {
        self.buf@
    }

    /// The repetition count test failed on the seed.
    pub closed spec fn rct_failed(&self) -> bool {
        self.rct_fail
    }

    /// The adaptive proportion test failed on the seed.
    pub closed spec fn apt_failed(&self) -> bool {
        self.apt_fail
    }

    pub fn new(buf: [u8; BUFFER_SIZE], rct: bool, apt: bool) -> (r: RawStream)
        ensures
            r.bytes() == buf@,
            r.rct_failed() == rct,
            r.apt_failed() == apt,
    {
        RawStream { buf, rct_fail: rct, apt_fail: apt }
    }

    /// A seed read from the board, with the outcome of its health tests.
    pub fn from_seed(buf: [u8; BUFFER_SIZE]) -> (r: RawStream)
        ensures
            r.bytes() == buf@,
            r.rct_failed() == rct_fails(nibbles(buf@)),
            r.apt_failed() == apt_fails(nibbles(buf@)),
    {
        let tests = nist_tests(&buf);
        RawStream::new(buf, tests[0], tests[1])
    }

    pub fn get_buf(&self) -> (r: [u8; BUFFER_SIZE])
        ensures
            r@ == self.bytes(),
    {
        self.buf
    }

    pub fn get_rct_fail(&self) -> (r: bool)
        ensures
            r == self.rct_failed(),
    {
        self.rct_fail
    }

    pub fn get_apt_fail(&self) -> (r: bool)
        ensures
            r == self.apt_failed(),
    {
        self.apt_fail
    }
}

/// How many seeds a packet of `max_dwords` 32-bit words holds.
pub open spec fn seeds_per_packet(max_dwords: u16) -> int {
    (max_dwords as int) * 4 / (SEED_LENGTH as int)
}

/// How many seeds a packet of `max_dwords` 32-bit words holds.
pub fn num_seeds(max_dwords: u16) -> (r: i32)
    ensures
        r == seeds_per_packet(max_dwords),
{
    max_dwords as i32 * 4 / SEED_LENGTH as i32
}

} // verus!

use multi_sgb_async::streamer::global_data::{nist_tests, num_seeds, RawStream, BUFFER_SIZE};

fn pattern() -> [u8; BUFFER_SIZE] {
    let base = [0x12u8, 0x34, 0x56, 0x78, 0x9a, 0xbc, 0xde, 0xf0];
    let mut b = [0u8; BUFFER_SIZE];
    for i in 0..BUFFER_SIZE {
        b[i] = base[i % 8];
    }
    b
}

#[test]
fn constant_seed_fails_both_tests() {
    assert_eq!(nist_tests(&[0u8; BUFFER_SIZE]), [true, true]);
}

#[test]
fn counting_seed_passes() {
    let mut b = [0u8; BUFFER_SIZE];
    for i in 0..BUFFER_SIZE {
        b[i] = i as u8;
    }
    assert_eq!(nist_tests(&b), [false, false]);
    assert_eq!(nist_tests(&pattern()), [false, false]);
}

#[test]
fn six_equal_symbols_fail_repetition_test() {
    let mut b = pattern();
    b[100] = 0x77;
    b[101] = 0x77;
    b[102] = 0x77;
    assert_eq!(nist_tests(&b), [true, false]);
}

#[test]
fn five_equal_symbols_in_the_middle_pass() {
    let mut b = pattern();
    b[50] = 0x22;
    b[51] = 0x22;
    b[52] = 0x23;
    assert_eq!(nist_tests(&b), [false, false]);
}

#[test]
fn six_equal_symbols_across_bytes() {
    let mut b = pattern();
    b[50] = 0x12;
    b[51] = 0x22;
    b[52] = 0x22;
    b[53] = 0x23;
    assert_eq!(nist_tests(&b), [true, false]);
}

#[test]
fn five_equal_symbols_at_the_start_fail() {
    let mut b = pattern();
    b[0] = 0x11;
    b[1] = 0x11;
    b[2] = 0x13;
    assert_eq!(nist_tests(&b), [true, false]);
    let mut c = pattern();
    c[0] = 0x11;
    c[1] = 0x13;
    assert_eq!(nist_tests(&c), [false, false]);
}

#[test]
fn proportion_test_bounds() {
    let base = [0x11u8, 0x11, 0x34, 0x56, 0x78, 0x9a, 0xbc, 0xde];
    let mut b = [0u8; BUFFER_SIZE];
    for i in 0..BUFFER_SIZE {
        b[i] = base[i % 8];
    }
    assert_eq!(nist_tests(&b), [false, true]);

    let mut c = [0xf0u8; BUFFER_SIZE];
    let head = [0x11u8, 0x1f, 0x34, 0x56, 0x78, 0x9a, 0xbc, 0xde];
    for i in 0..8 {
        c[i] = head[i];
    }
    assert_eq!(nist_tests(&c), [false, true]);
}

#[test]
fn raw_stream_carries_results() {
    let r = RawStream::from_seed([0u8; BUFFER_SIZE]);
    assert!(r.get_rct_fail());
    assert!(r.get_apt_fail());
    assert_eq!(r.get_buf(), [0u8; BUFFER_SIZE]);
    let p = RawStream::from_seed(pattern());
    assert!(!p.get_rct_fail());
    assert!(!p.get_apt_fail());
    let n = RawStream::new(pattern(), true, false);
    assert!(n.get_rct_fail());
    assert!(!n.get_apt_fail());
    assert_eq!(n.get_buf(), pattern());
}

#[test]
fn seeds_in_a_packet() {
    assert_eq!(num_seeds(0x1f00), 0x1f00 * 4 / 256);
    assert_eq!(num_seeds(0x1f00), 124);
    assert_eq!(num_seeds(63), 0);
    assert_eq!(num_seeds(64), 1);
    assert_eq!(num_seeds(0xffff), 1023);
}

use stwo_web_stark::entropy::{check_request, fill_xorshift, xorshift_step, EntropyError, XORSHIFT_SEED};

const FIRST_BYTES: [u8; 16] = [
    180, 183, 30, 50, 156, 79, 167, 8, 88, 136, 141, 66, 84, 146, 133, 224,
];

#[test]
fn fill_gives_known_stream() {
    let mut buf = [0u8; 16];
    fill_xorshift(&mut buf);
    assert_eq!(buf, FIRST_BYTES);
}

#[test]
fn fill_overwrites_every_byte() {
    let mut buf = [0xaau8; 4];
    fill_xorshift(&mut buf);
    assert_eq!(buf, [180, 183, 30, 50]);
}

#[test]
fn fill_is_prefix_consistent() {
    let mut short = [0u8; 5];
    let mut long = [0u8; 300];
    fill_xorshift(&mut short);
    fill_xorshift(&mut long);
    assert_eq!(&long[..5], &short[..]);
}

#[test]
fn fill_of_nothing_is_nothing() {
    let mut buf: [u8; 0] = [];
    fill_xorshift(&mut buf);
    assert_eq!(buf.len(), 0);
}

#[test]
fn repeated_fills_agree() {
    let mut a = [0u8; 64];
    let mut b = [1u8; 64];
    fill_xorshift(&mut a);
    fill_xorshift(&mut b);
    assert_eq!(a, b);
}

#[test]
fn step_matches_xorshift() {
    let mut s = XORSHIFT_SEED;
    s ^= s << 13;
    s ^= s >> 7;
    s ^= s << 17;
    assert_eq!(xorshift_step(XORSHIFT_SEED), s);
    assert_eq!((s & 0xff) as u8, 180);
}

#[test]
fn state_stays_nonzero() {
    let mut s = XORSHIFT_SEED;
    for _ in 0..10_000 {
        s = xorshift_step(s);
        assert_ne!(s, 0);
    }
}

#[test]
fn empty_request_needs_no_write() {
    assert_eq!(check_request(0, true).unwrap(), false);
    assert_eq!(check_request(0, false).unwrap(), false);
}

#[test]
fn null_destination_is_unsupported() {
    assert_eq!(check_request(8, true).unwrap_err(), EntropyError::Unsupported);
}

#[test]
fn non_empty_request_is_filled() {
    assert_eq!(check_request(8, false).unwrap(), true);
}

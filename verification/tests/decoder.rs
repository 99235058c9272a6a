use vibemusic::decoder::{seek_seconds_arg, u64_to_decimal};
use vibemusic::probe::parse_duration_ms;

#[test]
fn decimal_writer_produces_canonical_digits() {
    assert_eq!(u64_to_decimal(0), b"0".to_vec());
    assert_eq!(u64_to_decimal(7), b"7".to_vec());
    assert_eq!(u64_to_decimal(44100), b"44100".to_vec());
    assert_eq!(u64_to_decimal(u64::MAX), b"18446744073709551615".to_vec());
}

#[test]
fn seek_argument_is_seconds_with_three_fraction_digits() {
    assert_eq!(seek_seconds_arg(0), b"0.000".to_vec());
    assert_eq!(seek_seconds_arg(2500), b"2.500".to_vec());
    assert_eq!(seek_seconds_arg(12345), b"12.345".to_vec());
    assert_eq!(seek_seconds_arg(999), b"0.999".to_vec());
    assert_eq!(seek_seconds_arg(60001), b"60.001".to_vec());
}

#[test]
fn seek_argument_round_trips_through_the_duration_reader() {
    for ms in [0u64, 1, 999, 1000, 2500, 123456, 3599999] {
        let arg = seek_seconds_arg(ms);
        assert_eq!(parse_duration_ms(&arg), ms);
    }
}

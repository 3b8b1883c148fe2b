use desk_control::units::{decode_height, encode_height, MAX_HEIGHT_UNITS, MIN_HEIGHT_UNITS};

#[test]
fn decode_lowest_raw_sample_is_min_height() {
    assert_eq!(decode_height(0x00, 0x00), MIN_HEIGHT_UNITS);
}

#[test]
fn decode_highest_raw_sample() {
    assert_eq!(decode_height(0xFF, 0xFF), 65535 + MIN_HEIGHT_UNITS);
}

#[test]
fn decode_little_endian_order() {
    // 0x03E8 = 1000 raw units above the minimum: 0.72 m
    assert_eq!(decode_height(0xE8, 0x03), 7200);
}

#[test]
fn encode_exact_bytes() {
    assert_eq!(encode_height(6200), (0x00, 0x00));
    assert_eq!(encode_height(7200), (0xE8, 0x03));
    assert_eq!(encode_height(12700), (0x64, 0x19));
}

#[test]
fn round_trip_over_reachable_range() {
    let mut h = MIN_HEIGHT_UNITS;
    while h <= MAX_HEIGHT_UNITS {
        let (low, high) = encode_height(h);
        assert_eq!(decode_height(low, high), h);
        h += 97;
    }
    let (low, high) = encode_height(MAX_HEIGHT_UNITS);
    assert_eq!(decode_height(low, high), MAX_HEIGHT_UNITS);
}

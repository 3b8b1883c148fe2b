use vstd::prelude::*;

verus! {

/// Heights are carried as integer "height units" of 0.1 mm (1/10000 m),
/// measured from the floor. The desk reports its position as a 2-byte
/// little-endian raw sample counted from the lowest reachable position, so a
/// decoded height is `raw + MIN_HEIGHT_UNITS`.

/// Lowest reachable height: 0.62 m.
pub const MIN_HEIGHT_UNITS: u32 = 6200;

/// Highest reachable height: 1.27 m.
pub const MAX_HEIGHT_UNITS: u32 = 12700;

/// Largest raw sample that fits in the two-byte wire encoding.
pub const MAX_RAW_UNITS: u32 = 65535;

/// Height denoted by a raw little-endian byte pair.
pub open spec fn decoded_height(low: int, high: int) -> int {
    low + 256 * high + MIN_HEIGHT_UNITS
}

/// Low byte of the wire encoding of height `h`.
pub open spec fn encoded_low(h: int) -> int {
    (h - MIN_HEIGHT_UNITS) % 256
}

/// High byte of the wire encoding of height `h`.
pub open spec fn encoded_high(h: int) -> int {
    (h - MIN_HEIGHT_UNITS) / 256
}

/// Decode a raw little-endian byte pair into a height.
pub fn decode_height(low: u8, high: u8) -> (h: u32)
    ensures
        h == decoded_height(low as int, high as int),
{
    (low as u32) + 256 * (high as u32) + MIN_HEIGHT_UNITS
}

/// Encode a height as the raw little-endian byte pair the desk expects.
pub fn encode_height(h: u32) -> (r: (u8, u8))
    requires
        MIN_HEIGHT_UNITS <= h <= MIN_HEIGHT_UNITS + MAX_RAW_UNITS,
    ensures
        r.0 == encoded_low(h as int),
        r.1 == encoded_high(h as int),
        decoded_height(r.0 as int, r.1 as int) == h,
{
    let raw: u32 = h - MIN_HEIGHT_UNITS;
    let low: u8 = (raw % 256) as u8;
    let high: u8 = (raw / 256) as u8;
    proof {
        vstd::arithmetic::div_mod::lemma_fundamental_div_mod(raw as int, 256);
    }
    (low, high)
}

/// Law: decoding the encoding of any representable height returns that
/// height exactly; the integer codec loses nothing.
pub proof fn lemma_height_round_trip(h: int)
    requires
        MIN_HEIGHT_UNITS <= h <= MIN_HEIGHT_UNITS + MAX_RAW_UNITS,
    ensures
        0 <= encoded_low(h) < 256,
        0 <= encoded_high(h) < 256,
        decoded_height(encoded_low(h), encoded_high(h)) == h,
{
    vstd::arithmetic::div_mod::lemma_fundamental_div_mod(h - MIN_HEIGHT_UNITS, 256);
}

} // verus!

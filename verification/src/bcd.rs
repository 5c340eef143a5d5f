//! Binary coded decimal conversions used by the RTC chips.

use vstd::prelude::*;

verus! {

/// Decimal value of a BCD byte: low nibble plus ten times the high nibble.
pub open spec fn bcd_value(bcd: u8) -> int {
    (bcd % 16) + (bcd / 16) * 10
}

/// BCD byte of a decimal value: the tens go into the high nibble (truncated to
/// eight bits), the units into the low nibble.
pub open spec fn bcd_of(dec: u8) -> u8 {
    (((dec / 10) * 16) % 256 + dec % 10) as u8
}

/// Both nibbles are decimal digits.
pub open spec fn is_bcd(bcd: u8) -> bool {
    bcd % 16 <= 9 && bcd / 16 <= 9
}

/// Decode a BCD byte.
pub fn bcd_to_dec(bcd: u8) -> (dec: u8)
    ensures
        dec == bcd_value(bcd),
        dec <= 165,
{
    assert((bcd & 0x0F) == bcd % 16 && ((bcd & 0xF0) >> 4) == bcd / 16) by (bit_vector);
    (bcd & 0x0F) + (((bcd & 0xF0) >> 4) * 10)
}

/// Encode a decimal value as BCD.
pub fn dec_to_bcd(dec: u8) -> (bcd: u8)
    ensures
        bcd == bcd_of(dec),
{
    let tens: u8 = dec / 10;
    let units: u8 = dec % 10;
    assert(((units | (tens << 4)) as int) == ((tens * 16) % 256 + units) as int) by (bit_vector)
        requires
            units < 10,
    ;
    units | (tens << 4)
}

/// `bcd` with each nibble clamped to 9, then capped at `max`.
pub open spec fn clamped_bcd(bcd: u8, max: u8) -> u8 {
    let hi = if bcd / 16 > 9 { 9 } else { bcd / 16 };
    let lo = if bcd % 16 > 9 { 9 } else { bcd % 16 };
    let clamped = (hi * 16 + lo) as u8;
    if bcd_value(clamped) > bcd_value(max) {
        max
    } else {
        clamped
    }
}

/// Clamp each nibble of `bcd` to 9, then cap the value at `max`; for a valid
/// BCD `max` the result is valid BCD and never above it.
pub fn ensure_bcd(bcd: u8, max: u8) -> (r: u8)
    ensures
        r == clamped_bcd(bcd, max),
        is_bcd(max) ==> is_bcd(r) && bcd_value(r) <= bcd_value(max),
{
    let mut r1: u8 = bcd >> 4;
    if r1 > 9 {
        r1 = 9;
    }
    let mut r2: u8 = bcd & 0b0000_1111;
    if r2 > 9 {
        r2 = 9;
    }
    assert((bcd >> 4) == bcd / 16 && (bcd & 0x0F) == bcd % 16) by (bit_vector);
    assert(((r1 << 4) | r2) as int == r1 * 16 + r2) by (bit_vector)
        requires
            r1 <= 9,
            r2 <= 9,
    ;
    let mut r: u8 = (r1 << 4) | r2;
    if bcd_to_dec(r) > bcd_to_dec(max) {
        r = max;
    }
    r
}

/// Decode every byte of a BCD list.
pub fn bcd_to_dec_list(bcd_list: &Vec<u8>) -> (list: Vec<u8>)
    ensures
        list@.len() == bcd_list@.len(),
        forall|i: int| 0 <= i < list@.len() ==> list@[i] == bcd_value(#[trigger] bcd_list@[i]),
{
    let mut list: Vec<u8> = Vec::with_capacity(bcd_list.len());
    for i in 0..bcd_list.len()
        invariant
            list@.len() == i,
            forall|j: int| 0 <= j < i ==> list@[j] == bcd_value(#[trigger] bcd_list@[j]),
    {
        list.push(bcd_to_dec(bcd_list[i]));
    }
    list
}

/// Encode every byte of a decimal list as BCD.
pub fn dec_to_bcd_list(dec_list: &Vec<u8>) -> (list: Vec<u8>)
    ensures
        list@.len() == dec_list@.len(),
        forall|i: int| 0 <= i < list@.len() ==> list@[i] == bcd_of(#[trigger] dec_list@[i]),
{
    let mut list: Vec<u8> = Vec::with_capacity(dec_list.len());
    for i in 0..dec_list.len()
        invariant
            list@.len() == i,
            forall|j: int| 0 <= j < i ==> list@[j] == bcd_of(#[trigger] dec_list@[j]),
    {
        list.push(dec_to_bcd(dec_list[i]));
    }
    list
}

/// Encoding a two-digit decimal value and decoding it gives the value back.
pub proof fn lemma_decode_encode(dec: u8)
    requires
        dec <= 99,
    ensures
        is_bcd(bcd_of(dec)),
        bcd_value(bcd_of(dec)) == dec,
{
}

/// Decoding a valid BCD byte and encoding the result gives the byte back.
pub proof fn lemma_encode_decode(bcd: u8)
    requires
        is_bcd(bcd),
    ensures
        bcd_value(bcd) <= 99,
        bcd_of(bcd_value(bcd) as u8) == bcd,
{
}

} // verus!

use vstd::prelude::*;

use crate::recording::Recording;

verus! {

/// Identity of the command characteristic.
pub const COMMAND_CHAR: u128 = 0xd5913036_2d8a_41ee_85b9_4e361aa5c8a7;

/// Identity of the data characteristic, whose notifications carry samples.
pub const DATA_CHAR: u128 = 0x09bf2c52_d1d9_c0b7_4145_475964544307;

/// The signed 16-bit value of two bytes in little-endian order.
pub open spec fn le_i16(lo: u8, hi: u8) -> int {
    let v = lo as int + 256 * hi as int;
    if v >= 32768 {
        v - 65536
    } else {
        v
    }
}

/// The sample that a payload carries, if it is long enough.
pub open spec fn sample_of(kind: Recording, payload: Seq<u8>) -> Option<Seq<i16>> {
    match kind {
        Recording::Accelerometry => if payload.len() >= 10 {
            Some(
                seq![
                    le_i16(payload[4], payload[5]) as i16,
                    le_i16(payload[6], payload[7]) as i16,
                    le_i16(payload[8], payload[9]) as i16,
                ],
            )
        } else {
            None
        },
        Recording::Pressure => if payload.len() >= 4 {
            Some(payload.subrange(4, payload.len() as int).map_values(|b: u8| b as i16))
        } else {
            None
        },
    }
}

/// Reads a little-endian signed 16-bit integer.
pub fn read_i16_le(lo: u8, hi: u8) -> (r: i16)
    ensures
        r as int == le_i16(lo, hi),
{
    let v: u32 = lo as u32 + 256 * (hi as u32);
    if v >= 32768 {
        (v as i32 - 65536) as i16
    } else {
        v as i16
    }
}

/// Decodes an accelerometry payload: three little-endian signed 16-bit
/// values at offsets 4, 6 and 8.
pub fn decode_accelerometry(payload: &Vec<u8>) -> (r: Option<Vec<i16>>)
    ensures
        r matches Some(v) ==> sample_of(Recording::Accelerometry, payload@) == Some(v@),
        r is None <==> sample_of(Recording::Accelerometry, payload@) is None,
{
    if payload.len() < 10 {
        return None;
    }
    let v = vec![
        read_i16_le(payload[4], payload[5]),
        read_i16_le(payload[6], payload[7]),
        read_i16_le(payload[8], payload[9]),
    ];
    assert(v@ =~= sample_of(Recording::Accelerometry, payload@)->Some_0);
    Some(v)
}

/// Decodes a pressure payload: each byte from offset 4 on is one channel.
pub fn decode_pressure(payload: &Vec<u8>) -> (r: Option<Vec<i16>>)
    ensures
        r matches Some(v) ==> sample_of(Recording::Pressure, payload@) == Some(v@),
        r is None <==> sample_of(Recording::Pressure, payload@) is None,
{
    if payload.len() < 4 {
        return None;
    }
    let mut v: Vec<i16> = Vec::new();
    let mut i: usize = 4;
    while i < payload.len()
        invariant
            4 <= i <= payload.len(),
            v@ =~= payload@.subrange(4, i as int).map_values(|b: u8| b as i16),
        decreases payload.len() - i,
    {
        v.push(payload[i] as i16);
        i = i + 1;
    }
    Some(v)
}

/// Decodes one payload of the given kind.
pub fn decode_sample(kind: Recording, payload: &Vec<u8>) -> (r: Option<Vec<i16>>)
    ensures
        r matches Some(v) ==> sample_of(kind, payload@) == Some(v@),
        r is None <==> sample_of(kind, payload@) is None,
{
    match kind {
        Recording::Accelerometry => decode_accelerometry(payload),
        Recording::Pressure => decode_pressure(payload),
    }
}

/// What the streaming task pushes for one notification: nothing for a
/// notification of another characteristic or a payload too short to decode,
/// else the decoded sample.
pub fn route_notification(kind: Recording, characteristic: u128, payload: &Vec<u8>) -> (r: Option<
    Vec<i16>,
>)
    ensures
        characteristic != DATA_CHAR ==> r is None,
        characteristic == DATA_CHAR ==> (r is None <==> sample_of(kind, payload@) is None),
        r matches Some(v) ==> sample_of(kind, payload@) == Some(v@),
{
    if characteristic != DATA_CHAR {
        return None;
    }
    decode_sample(kind, payload)
}

} // verus!

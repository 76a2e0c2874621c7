//! The data format 5 payload: its layout, the decoder and the encoder.
use vstd::prelude::*;

verus! {

/// Length of a data format 5 payload, manufacturer ID included.
pub const PAYLOAD_LEN: usize = 26;

/// The format tag that this decoder reads.
pub const FORMAT_TAG: u8 = 5;

/// Pressure is sent as pascals above this baseline.
pub const PRESSURE_BASELINE: i32 = 50000;

/// The unsigned big-endian value of the two bytes `hi`, `lo`.
pub open spec fn be_u16(hi: u8, lo: u8) -> int {
    hi * 256 + lo
}

/// The two's-complement big-endian value of the two bytes `hi`, `lo`.
pub open spec fn be_i16(hi: u8, lo: u8) -> int {
    if be_u16(hi, lo) >= 0x8000 {
        be_u16(hi, lo) - 0x10000
    } else {
        be_u16(hi, lo)
    }
}

/// The unsigned big-endian value of the six bytes of `s` from `at` on.
pub open spec fn be_u48(s: Seq<u8>, at: int) -> int {
    s[at] * 0x100_0000_0000 + s[at + 1] * 0x1_0000_0000 + s[at + 2] * 0x100_0000
        + s[at + 3] * 0x1_0000 + s[at + 4] * 0x100 + s[at + 5]
}

/// The first two bytes of `arr`.
pub fn u16_bytes(arr: &[u8]) -> (r: [u8; 2])
    requires
        arr@.len() >= 2,
    ensures
        r@ == arr@.subrange(0, 2),
{
    let r = [arr[0], arr[1]];
    assert(r@ =~= arr@.subrange(0, 2));
    r
}

/// Reads two bytes as an unsigned big-endian integer.
pub fn u16_from_be(b: [u8; 2]) -> (r: u16)
    ensures
        r as int == be_u16(b@[0], b@[1]),
{
    (b[0] as u16) * 256 + (b[1] as u16)
}

/// Reads two bytes as a two's-complement big-endian integer.
pub fn i16_from_be(b: [u8; 2]) -> (r: i16)
    ensures
        r as int == be_i16(b@[0], b@[1]),
{
    let u = u16_from_be(b);
    if u >= 0x8000 {
        (u as i32 - 0x10000) as i16
    } else {
        u as i16
    }
}

/// A decoded data format 5 reading. Temperature and humidity are kept as the
/// raw signed steps of 0.005 °C and 0.0025 %.
#[derive(Debug, Clone, Copy, PartialEq, Eq, Structural)]
pub struct SensorReading {
    pub data_format: u8,
    pub temperature_raw: i16,
    pub humidity_raw: i16,
    pub pressure_pascal_offset: i32,
    pub acceleration_x_mg: i16,
    pub acceleration_y_mg: i16,
    pub acceleration_z_mg: i16,
    pub power_info: u16,
    pub movement_counter: u8,
    pub sequence_number: u16,
    pub mac_address: u64,
}

/// Why a payload could not be decoded.
#[derive(Debug, Clone, Copy, PartialEq, Eq, Structural)]
pub enum DecodeError {
    /// The payload is not 26 bytes long; holds its length.
    UnexpectedLength(usize),
    /// The format tag is not 5; holds the tag.
    UnsupportedFormat(u8),
    /// An update of the target device came without manufacturer data.
    SourceUnavailable,
}

/// The reading held by a 26-byte payload `s` whose format tag is 5.
pub open spec fn reading_of(s: Seq<u8>) -> SensorReading {
    SensorReading {
        data_format: s[2],
        temperature_raw: be_i16(s[3], s[4]) as i16,
        humidity_raw: be_i16(s[5], s[6]) as i16,
        pressure_pascal_offset: (be_u16(s[7], s[8]) - 50000) as i32,
        acceleration_x_mg: be_i16(s[9], s[10]) as i16,
        acceleration_y_mg: be_i16(s[11], s[12]) as i16,
        acceleration_z_mg: be_i16(s[13], s[14]) as i16,
        power_info: be_u16(s[15], s[16]) as u16,
        movement_counter: s[17],
        sequence_number: be_u16(s[18], s[19]) as u16,
        mac_address: be_u48(s, 20) as u64,
    }
}

/// What decoding the payload `s` gives.
pub open spec fn decoded(s: Seq<u8>) -> Result<SensorReading, DecodeError> {
    if s.len() != 26 {
        Err(DecodeError::UnexpectedLength(s.len() as usize))
    } else if s[2] != 5 {
        Err(DecodeError::UnsupportedFormat(s[2]))
    } else {
        Ok(reading_of(s))
    }
}

impl SensorReading {
    /// The fields lie in the ranges that the payload layout can carry.
    pub open spec fn wf(&self) -> bool {
        &&& self.data_format == 5
        &&& -50000 <= self.pressure_pascal_offset <= 0xFFFF - 50000
        &&& self.mac_address < 0x1_0000_0000_0000
    }

    /// Temperature in thousandths of a degree Celsius (5 per raw step).
    pub fn temperature_millicelsius(&self) -> (r: i32)
        ensures
            r == self.temperature_raw * 5,
    {
        self.temperature_raw as i32 * 5
    }

    /// Relative humidity in ten-thousandths of a percent (25 per raw step).
    pub fn humidity_percent_e4(&self) -> (r: i32)
        ensures
            r == self.humidity_raw * 25,
    {
        self.humidity_raw as i32 * 25
    }
}

/// Decodes a data format 5 payload. Only a 26-byte payload with format tag 5
/// gives a reading.
pub fn decode(bytes: &[u8]) -> (r: Result<SensorReading, DecodeError>)
    ensures
        r == decoded(bytes@),
        bytes@.len() != 26 <==> r == Err::<SensorReading, DecodeError>(
            DecodeError::UnexpectedLength(bytes@.len() as usize),
        ),
        bytes@.len() == 26 && bytes@[2] != 5 ==> r == Err::<SensorReading, DecodeError>(
            DecodeError::UnsupportedFormat(bytes@[2]),
        ),
        r is Ok ==> r->Ok_0.wf(),
{
    if bytes.len() != PAYLOAD_LEN {
        return Err(DecodeError::UnexpectedLength(bytes.len()));
    }
    let data_format = bytes[2];
    if data_format != FORMAT_TAG {
        return Err(DecodeError::UnsupportedFormat(data_format));
    }
    let temperature_raw = i16_from_be(u16_bytes(&bytes[3..5]));
    let humidity_raw = i16_from_be(u16_bytes(&bytes[5..7]));
    let pressure = u16_from_be(u16_bytes(&bytes[7..9])) as i32 - PRESSURE_BASELINE;
    let acceleration_x_mg = i16_from_be(u16_bytes(&bytes[9..11]));
    let acceleration_y_mg = i16_from_be(u16_bytes(&bytes[11..13]));
    let acceleration_z_mg = i16_from_be(u16_bytes(&bytes[13..15]));
    let power_info = u16_from_be(u16_bytes(&bytes[15..17]));
    let movement_counter = bytes[17];
    let sequence_number = u16_from_be(u16_bytes(&bytes[18..20]));
    let mac_address = (bytes[20] as u64) * 0x100_0000_0000 + (bytes[21] as u64) * 0x1_0000_0000
        + (bytes[22] as u64) * 0x100_0000 + (bytes[23] as u64) * 0x1_0000 + (bytes[24] as u64)
        * 0x100 + (bytes[25] as u64);
    let r = SensorReading {
        data_format,
        temperature_raw,
        humidity_raw,
        pressure_pascal_offset: pressure,
        acceleration_x_mg,
        acceleration_y_mg,
        acceleration_z_mg,
        power_info,
        movement_counter,
        sequence_number,
        mac_address,
    };
    assert(r == reading_of(bytes@));
    Ok(r)
}

/// The 16-bit two's-complement pattern of `v`, as an unsigned value.
pub open spec fn u16_bits(v: int) -> int {
    if v < 0 {
        v + 0x10000
    } else {
        v
    }
}

/// The high byte of the 16-bit value `u`.
pub open spec fn hi_byte(u: int) -> u8 {
    (u / 256) as u8
}

/// The low byte of the 16-bit value `u`.
pub open spec fn lo_byte(u: int) -> u8 {
    (u % 256) as u8
}

/// Byte `k` of `x`, counting from the least significant one.
pub open spec fn byte_at(x: int, k: nat) -> u8 {
    ((x / pow256(k)) % 256) as u8
}

/// 256 to the power `k`.
pub open spec fn pow256(k: nat) -> int
    decreases k,
{
    if k == 0 {
        1
    } else {
        256 * pow256((k - 1) as nat)
    }
}

/// The 26-byte payload that carries `r` behind the manufacturer ID `id`. The
/// ID comes first, least significant byte first as Bluetooth sends it; every
/// field after it is big-endian.
pub open spec fn layout_of(r: SensorReading, id: u16) -> Seq<u8> {
    seq![
        lo_byte(id as int), hi_byte(id as int), r.data_format,
        hi_byte(u16_bits(r.temperature_raw as int)), lo_byte(u16_bits(r.temperature_raw as int)),
        hi_byte(u16_bits(r.humidity_raw as int)), lo_byte(u16_bits(r.humidity_raw as int)),
        hi_byte(r.pressure_pascal_offset + 50000), lo_byte(r.pressure_pascal_offset + 50000),
        hi_byte(u16_bits(r.acceleration_x_mg as int)), lo_byte(u16_bits(r.acceleration_x_mg as int)),
        hi_byte(u16_bits(r.acceleration_y_mg as int)), lo_byte(u16_bits(r.acceleration_y_mg as int)),
        hi_byte(u16_bits(r.acceleration_z_mg as int)), lo_byte(u16_bits(r.acceleration_z_mg as int)),
        hi_byte(r.power_info as int), lo_byte(r.power_info as int),
        r.movement_counter,
        hi_byte(r.sequence_number as int), lo_byte(r.sequence_number as int),
        byte_at(r.mac_address as int, 5), byte_at(r.mac_address as int, 4),
        byte_at(r.mac_address as int, 3), byte_at(r.mac_address as int, 2),
        byte_at(r.mac_address as int, 1), byte_at(r.mac_address as int, 0),
    ]
}

/// Splits a 16-bit value into its high and low bytes.
fn split_u16(u: u16) -> (r: (u8, u8))
    ensures
        r.0 == hi_byte(u as int),
        r.1 == lo_byte(u as int),
{
    ((u / 256) as u8, (u % 256) as u8)
}

/// The 16-bit two's-complement pattern of `v`.
fn i16_bits(v: i16) -> (r: u16)
    ensures
        r as int == u16_bits(v as int),
{
    if v < 0 {
        (v as i32 + 0x10000) as u16
    } else {
        v as u16
    }
}

/// Byte `k` of `x`, counting from the least significant one.
fn u64_byte(x: u64, k: u32) -> (r: u8)
    requires
        k < 8,
    ensures
        r == byte_at(x as int, k as nat),
{
    let mut d: u64 = x;
    let mut i: u32 = 0;
    while i < k
        invariant
            i <= k < 8,
            d as int == x as int / pow256(i as nat),
        decreases k - i,
    {
        proof {
            lemma_pow256_positive(i as nat);
            vstd::arithmetic::div_mod::lemma_div_denominator(x as int, pow256(i as nat), 256);
        }
        d = d / 256;
        i = i + 1;
    }
    (d % 256) as u8
}

proof fn lemma_pow256_positive(k: nat)
    ensures
        pow256(k) > 0,
    decreases k,
{
    if k > 0 {
        lemma_pow256_positive((k - 1) as nat);
    }
}

/// Lays `reading` out as a 26-byte payload behind the manufacturer ID `id`.
pub fn encode(reading: &SensorReading, manufacturer_id: u16) -> (r: Vec<u8>)
    requires
        reading.wf(),
    ensures
        r@ == layout_of(*reading, manufacturer_id),
{
    let id = split_u16(manufacturer_id);
    let t = split_u16(i16_bits(reading.temperature_raw));
    let h = split_u16(i16_bits(reading.humidity_raw));
    let p = split_u16((reading.pressure_pascal_offset + PRESSURE_BASELINE) as u16);
    let ax = split_u16(i16_bits(reading.acceleration_x_mg));
    let ay = split_u16(i16_bits(reading.acceleration_y_mg));
    let az = split_u16(i16_bits(reading.acceleration_z_mg));
    let pw = split_u16(reading.power_info);
    let sq = split_u16(reading.sequence_number);
    let m = reading.mac_address;
    let r = vec![
        id.1, id.0, reading.data_format, t.0, t.1, h.0, h.1, p.0, p.1, ax.0, ax.1, ay.0, ay.1,
        az.0, az.1, pw.0, pw.1, reading.movement_counter, sq.0, sq.1, u64_byte(m, 5),
        u64_byte(m, 4), u64_byte(m, 3), u64_byte(m, 2), u64_byte(m, 1), u64_byte(m, 0),
    ];
    assert(r@ =~= layout_of(*reading, manufacturer_id));
    r
}

proof fn lemma_u16_split(u: int)
    requires
        0 <= u < 0x10000,
    ensures
        be_u16(hi_byte(u), lo_byte(u)) == u,
{
}

proof fn lemma_i16_split(v: int)
    requires
        -0x8000 <= v < 0x8000,
    ensures
        be_i16(hi_byte(u16_bits(v)), lo_byte(u16_bits(v))) == v,
{
    lemma_u16_split(u16_bits(v));
}

proof fn lemma_u48_split(x: int)
    requires
        0 <= x < 0x1_0000_0000_0000,
    ensures
        byte_at(x, 5) * 0x100_0000_0000 + byte_at(x, 4) * 0x1_0000_0000 + byte_at(x, 3)
            * 0x100_0000 + byte_at(x, 2) * 0x1_0000 + byte_at(x, 1) * 0x100 + byte_at(x, 0)
            == x,
{
    reveal_with_fuel(pow256, 6);
    let q1 = x / 256;
    let q2 = q1 / 256;
    let q3 = q2 / 256;
    let q4 = q3 / 256;
    let q5 = q4 / 256;
    vstd::arithmetic::div_mod::lemma_div_denominator(x, 256, 256);
    vstd::arithmetic::div_mod::lemma_div_denominator(x, 0x1_0000, 256);
    vstd::arithmetic::div_mod::lemma_div_denominator(x, 0x100_0000, 256);
    vstd::arithmetic::div_mod::lemma_div_denominator(x, 0x1_0000_0000, 256);
    vstd::arithmetic::div_mod::lemma_fundamental_div_mod(x, 256);
    vstd::arithmetic::div_mod::lemma_fundamental_div_mod(q1, 256);
    vstd::arithmetic::div_mod::lemma_fundamental_div_mod(q2, 256);
    vstd::arithmetic::div_mod::lemma_fundamental_div_mod(q3, 256);
    vstd::arithmetic::div_mod::lemma_fundamental_div_mod(q4, 256);
    assert(x / 0x1_0000 == q2);
    assert(x / 0x100_0000 == q3);
    assert(x / 0x1_0000_0000 == q4);
    assert(x / 0x100_0000_0000 == q5);
    assert(q5 < 256);
}

/// Encoding a well-formed reading behind any manufacturer ID and decoding the
/// payload gives the same reading back.
pub proof fn lemma_round_trip(r: SensorReading, manufacturer_id: u16)
    requires
        r.wf(),
    ensures
        decoded(layout_of(r, manufacturer_id)) == Ok::<SensorReading, DecodeError>(r),
{
    let s = layout_of(r, manufacturer_id);
    lemma_i16_split(r.temperature_raw as int);
    lemma_i16_split(r.humidity_raw as int);
    lemma_u16_split(r.pressure_pascal_offset + 50000);
    lemma_i16_split(r.acceleration_x_mg as int);
    lemma_i16_split(r.acceleration_y_mg as int);
    lemma_i16_split(r.acceleration_z_mg as int);
    lemma_u16_split(r.power_info as int);
    lemma_u16_split(r.sequence_number as int);
    lemma_u48_split(r.mac_address as int);
    assert(reading_of(s) == r);
}

} // verus!

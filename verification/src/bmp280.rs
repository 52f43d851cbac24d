//! The arithmetic of the BMP280 pressure / temperature sensor: decoding its
//! calibration block and raw readings, and the datasheet's fixed-point
//! compensation formulas.
//! <https://www.bosch-sensortec.com/media/boschsensortec/downloads/datasheets/bst-bmp280-ds001.pdf>

use vstd::prelude::*;

verus! {

/// I2C address of the BMP280.
pub const ADDR: u8 = 0x76;

/// Register holding the chip id.
pub const ID: u8 = 0xD0;

/// First register of the calibration block.
pub const CALIB: u8 = 0x88;

/// Measurement control register.
pub const CTRL_MEAS: u8 = 0xF4;

/// First register of the measurement data.
pub const DATA_START: u8 = 0xF7;

/// The chip id that a BMP280 reports.
pub const CHIP_ID: u8 = 0x58;

/// BMP280 config:
/// 001 => temperature oversampling x1,
/// 001 => pressure oversampling x1,
/// 11 => normal mode.
pub const CONFIG: u8 = 0b_001_001_11;

/// BMP280 calibration data.
#[derive(Clone, Copy, Debug, PartialEq, Eq, Structural)]
pub struct Calibration {
    /// Temperature calibration.
    pub dig_t1: u16,
    pub dig_t2: i16,
    pub dig_t3: i16,
    /// Pressure calibration.
    pub dig_p1: u16,
    pub dig_p2: i16,
    pub dig_p3: i16,
    pub dig_p4: i16,
    pub dig_p5: i16,
    pub dig_p6: i16,
    pub dig_p7: i16,
    pub dig_p8: i16,
    pub dig_p9: i16,
}

/// The unsigned 16-bit number whose little-endian bytes are `lo`, `hi`.
pub open spec fn le_u16(lo: u8, hi: u8) -> int {
    hi * 256 + lo
}

/// The signed (two's complement) 16-bit number whose little-endian bytes are `lo`, `hi`.
pub open spec fn le_i16(lo: u8, hi: u8) -> int {
    if le_u16(lo, hi) >= 32768 {
        le_u16(lo, hi) - 65536
    } else {
        le_u16(lo, hi)
    }
}

fn u16_from_le(lo: u8, hi: u8) -> (res: u16)
    ensures
        res == le_u16(lo, hi),
{
    (hi as u16) * 256 + (lo as u16)
}

fn i16_from_le(lo: u8, hi: u8) -> (res: i16)
    ensures
        res == le_i16(lo, hi),
{
    let v = u16_from_le(lo, hi);
    if v >= 32768 {
        ((v - 32768) as i16) - 16384 - 16384
    } else {
        v as i16
    }
}

/// Parse raw calibration data: twelve little-endian words, `dig_t1` first.
pub fn parse_calibration(buf: &[u8; 24]) -> (res: Calibration)
    ensures
        res.dig_t1 == le_u16(buf[0], buf[1]),
        res.dig_t2 == le_i16(buf[2], buf[3]),
        res.dig_t3 == le_i16(buf[4], buf[5]),
        res.dig_p1 == le_u16(buf[6], buf[7]),
        res.dig_p2 == le_i16(buf[8], buf[9]),
        res.dig_p3 == le_i16(buf[10], buf[11]),
        res.dig_p4 == le_i16(buf[12], buf[13]),
        res.dig_p5 == le_i16(buf[14], buf[15]),
        res.dig_p6 == le_i16(buf[16], buf[17]),
        res.dig_p7 == le_i16(buf[18], buf[19]),
        res.dig_p8 == le_i16(buf[20], buf[21]),
        res.dig_p9 == le_i16(buf[22], buf[23]),
{
    Calibration {
        dig_t1: u16_from_le(buf[0], buf[1]),
        dig_t2: i16_from_le(buf[2], buf[3]),
        dig_t3: i16_from_le(buf[4], buf[5]),
        dig_p1: u16_from_le(buf[6], buf[7]),
        dig_p2: i16_from_le(buf[8], buf[9]),
        dig_p3: i16_from_le(buf[10], buf[11]),
        dig_p4: i16_from_le(buf[12], buf[13]),
        dig_p5: i16_from_le(buf[14], buf[15]),
        dig_p6: i16_from_le(buf[16], buf[17]),
        dig_p7: i16_from_le(buf[18], buf[19]),
        dig_p8: i16_from_le(buf[20], buf[21]),
        dig_p9: i16_from_le(buf[22], buf[23]),
    }
}

/// Whether the id byte read from the chip identifies a BMP280.
pub fn is_bmp280(id: u8) -> (res: bool)
    ensures
        res == (id == CHIP_ID),
{
    id == CHIP_ID
}

/// The 20-bit raw reading held in bytes `msb`, `lsb` and the upper half of `xlsb`.
pub open spec fn raw20(msb: u8, lsb: u8, xlsb: u8) -> int {
    msb * 4096 + lsb * 16 + xlsb / 16
}

/// Construct the raw 20-bit pressure and temperature readings from the six
/// measurement bytes (pressure first).
pub fn raw_readings(data: &[u8; 6]) -> (res: (i32, i32))
    ensures
        res.0 == raw20(data[0], data[1], data[2]),
        res.1 == raw20(data[3], data[4], data[5]),
{
    let (d0, d1, d2, d3, d4, d5) = (data[0], data[1], data[2], data[3], data[4], data[5]);
    let raw_p = ((d0 as i32) << 12) | ((d1 as i32) << 4) | ((d2 as i32) >> 4);
    let raw_t = ((d3 as i32) << 12) | ((d4 as i32) << 4) | ((d5 as i32) >> 4);
    assert(((d0 as i32) << 12) | ((d1 as i32) << 4) | ((d2 as i32) >> 4) == d0 * 4096 + d1 * 16 + d2 / 16) by (bit_vector);
    assert(((d3 as i32) << 12) | ((d4 as i32) << 4) | ((d5 as i32) >> 4) == d3 * 4096 + d4 * 16 + d5 / 16) by (bit_vector);
    (raw_p, raw_t)
}

/// Whether `x` is a value of `i32`.
pub open spec fn in_i32(x: int) -> bool {
    i32::MIN <= x <= i32::MAX
}

/// Whether `x` is a value of `i64`.
pub open spec fn in_i64(x: int) -> bool {
    i64::MIN <= x <= i64::MAX
}

/// Division rounding towards zero, as Rust's `/` on signed integers.
pub open spec fn tdiv(a: int, b: int) -> int {
    let q = (if a < 0 { -a } else { a }) / (if b < 0 { -b } else { b });
    if (a < 0) != (b < 0) {
        -q
    } else {
        q
    }
}

/// The datasheet's fine temperature value. Every `x >> n` of the fixed-point
/// formula is written as the floor division `x / 2^n`.
pub open spec fn spec_t_fine(raw_t: int, c: Calibration) -> int {
    let var1 = ((raw_t / 8 - c.dig_t1 * 2) * c.dig_t2) / 2048;
    let d = raw_t / 16 - c.dig_t1;
    let var2 = (((d * d) / 4096) * c.dig_t3) / 16384;
    var1 + var2
}

/// The compensated temperature in hundredths of a degree Celsius.
pub open spec fn spec_temperature(raw_t: int, c: Calibration) -> int {
    (spec_t_fine(raw_t, c) * 5 + 128) / 256
}

/// Whether every 32-bit operation of the temperature formula stays within `i32`.
pub open spec fn temperature_fits(raw_t: int, c: Calibration) -> bool {
    let a = raw_t / 8 - c.dig_t1 * 2;
    let d = raw_t / 16 - c.dig_t1;
    let var1 = (a * c.dig_t2) / 2048;
    let var2 = (((d * d) / 4096) * c.dig_t3) / 16384;
    let t_fine = var1 + var2;
    &&& in_i32(a * c.dig_t2)
    &&& in_i32(d * d)
    &&& in_i32(((d * d) / 4096) * c.dig_t3)
    &&& in_i32(t_fine)
    &&& in_i32(t_fine * 5)
    &&& in_i32(t_fine * 5 + 128)
}

/// The terms of the pressure formula that do not depend on the raw pressure:
/// `(var1, var2)` of the datasheet before the division.
pub open spec fn spec_pressure_terms(t_fine: int, c: Calibration) -> (int, int) {
    let v1 = t_fine - 128000;
    let sq = v1 * v1;
    let v2a = sq * c.dig_p6;
    // the left shift by 17 drops the bits beyond 64, as `<<` does on `i64`
    let v2b = v2a + ((v1 * c.dig_p5) * 131072) as i64;
    let v2 = v2b + c.dig_p4 * 34359738368;
    let v1b = (sq * c.dig_p3) / 256 + (v1 * c.dig_p2) * 4096;
    let v1c = ((140737488355328 + v1b) * c.dig_p1) / 8589934592;
    (v1c, v2)
}

/// The compensated pressure in 1/256 Pa (0 when the calibration makes the
/// divisor vanish).
pub open spec fn spec_pressure(raw_t: int, raw_p: int, c: Calibration) -> int {
    let (v1, v2) = spec_pressure_terms(spec_t_fine(raw_t, c), c);
    if v1 == 0 {
        0
    } else {
        let p = tdiv(((1048576 - raw_p) * 2147483648 - v2) * 3125, v1);
        let q = p / 8192;
        let w1 = (c.dig_p9 * q * q) / 33554432;
        let w2 = (c.dig_p8 * p) / 524288;
        (p + w1 + w2) / 256 + c.dig_p7 * 16
    }
}

/// Whether every 64-bit operation of the pressure formula that Rust checks
/// stays within `i64`.
pub open spec fn pressure_fits(raw_t: int, raw_p: int, c: Calibration) -> bool {
    let t_fine = spec_t_fine(raw_t, c);
    let v1 = t_fine - 128000;
    let sq = v1 * v1;
    let v2a = sq * c.dig_p6;
    let v2b = v2a + ((v1 * c.dig_p5) * 131072) as i64;
    let v2 = v2b + c.dig_p4 * 34359738368;
    let m3 = sq * c.dig_p3;
    let v1b = m3 / 256 + (v1 * c.dig_p2) * 4096;
    let m1 = (140737488355328 + v1b) * c.dig_p1;
    let v1c = m1 / 8589934592;
    let n = (1048576 - raw_p) * 2147483648 - v2;
    let p = tdiv(n * 3125, v1c);
    let q = p / 8192;
    let w1 = (c.dig_p9 * q * q) / 33554432;
    let w2 = (c.dig_p8 * p) / 524288;
    &&& in_i64(sq)
    &&& in_i64(v2a)
    &&& in_i64(v2b)
    &&& in_i64(v2)
    &&& in_i64(m3)
    &&& in_i64(v1b)
    &&& in_i64(140737488355328 + v1b)
    &&& in_i64(m1)
    &&& v1c != 0 ==> {
        &&& in_i64(n)
        &&& in_i64(n * 3125)
        &&& in_i64(p)
        &&& in_i64(c.dig_p9 * q)
        &&& in_i64(c.dig_p9 * q * q)
        &&& in_i64(c.dig_p8 * p)
        &&& in_i64(p + w1)
        &&& in_i64(p + w1 + w2)
        &&& in_i64((p + w1 + w2) / 256 + c.dig_p7 * 16)
    }
}

/// Whether the compensation formulas can be evaluated on these inputs without
/// an arithmetic overflow.
pub open spec fn compensation_fits(raw_t: int, raw_p: int, c: Calibration) -> bool {
    temperature_fits(raw_t, c) && pressure_fits(raw_t, raw_p, c)
}

proof fn lemma_mul_bound(a: int, b: int)
    by (nonlinear_arith)
    requires
        -0x1_0000_0000 <= a <= 0x1_0000_0000,
        -32768 <= b <= 32767,
    ensures
        -0x8000_0000_0000 <= a * b <= 0x8000_0000_0000,
{
}

proof fn lemma_shr_i32(x: i32)
    ensures
        x >> 3u32 == x / 8,
        x >> 4u32 == x / 16,
        x >> 8u32 == x / 256,
        x >> 11u32 == x / 2048,
        x >> 12u32 == x / 4096,
        x >> 14u32 == x / 16384,
{
    assert(x >> 3u32 == x / 8) by (bit_vector);
    assert(x >> 4u32 == x / 16) by (bit_vector);
    assert(x >> 8u32 == x / 256) by (bit_vector);
    assert(x >> 11u32 == x / 2048) by (bit_vector);
    assert(x >> 12u32 == x / 4096) by (bit_vector);
    assert(x >> 14u32 == x / 16384) by (bit_vector);
}

proof fn lemma_shr_i64(x: i64)
    ensures
        x >> 8u32 == x / 256,
        x >> 13u32 == x / 8192,
        x >> 19u32 == x / 524288,
        x >> 25u32 == x / 33554432,
        x >> 33u32 == x / 8589934592,
{
    assert(x >> 8u32 == x / 256) by (bit_vector);
    assert(x >> 13u32 == x / 8192) by (bit_vector);
    assert(x >> 19u32 == x / 524288) by (bit_vector);
    assert(x >> 25u32 == x / 33554432) by (bit_vector);
    assert(x >> 33u32 == x / 8589934592) by (bit_vector);
}

proof fn lemma_shl_i64(x: i64)
    ensures
        x << 17u32 == ((x as int) * 131072) as i64,
        -32768 <= x < 32768 ==> x << 35u32 == x * 34359738368,
        -32768 <= x < 32768 ==> x << 4u32 == x * 16,
        -0x4_0000_0000_0000 <= x < 0x4_0000_0000_0000 ==> x << 12u32 == x * 4096,
        -0x1_0000_0000 <= x < 0x1_0000_0000 ==> x << 31u32 == x * 2147483648,
{
    assert(x << 17u32 == ((x as int) * 131072) as i64) by (bit_vector);
    assert(-32768 <= x < 32768 ==> x << 35u32 == x * 34359738368) by (bit_vector);
    assert(-32768 <= x < 32768 ==> x << 4u32 == x * 16) by (bit_vector);
    assert(-0x4_0000_0000_0000 <= x < 0x4_0000_0000_0000 ==> x << 12u32 == x * 4096) by (bit_vector);
    assert(-0x1_0000_0000 <= x < 0x1_0000_0000 ==> x << 31u32 == x * 2147483648) by (bit_vector);
}

/// The compensation formulas evaluated with the overflow checks that Rust
/// performs: `None` exactly when one of them would fail.
fn checked_compensate(raw_t: i32, raw_p: i32, calibration: &Calibration) -> (res: Option<(i32, i64)>)
    ensures
        res is Some <==> compensation_fits(raw_t as int, raw_p as int, *calibration),
        res matches Some(v) ==> v.0 == spec_temperature(raw_t as int, *calibration) && v.1
            == spec_pressure(raw_t as int, raw_p as int, *calibration),
{
    let c = calibration;
    let ghost gc = *c;
    // Temperature compensation
    proof {
        lemma_shr_i32(raw_t);
    }
    let t1 = c.dig_t1 as i32;
    assert(t1 << 1u32 == t1 * 2) by (bit_vector)
        requires 0 <= t1 < 65536;
    let a = (raw_t >> 3) - (t1 << 1);
    let a2 = match a.checked_mul(c.dig_t2 as i32) { Some(v) => v, None => return None };
    proof {
        lemma_shr_i32(a2);
    }
    let var1 = a2 >> 11;
    let d = (raw_t >> 4) - t1;
    let dd = match d.checked_mul(d) { Some(v) => v, None => return None };
    proof {
        lemma_shr_i32(dd);
    }
    let dd3 = match (dd >> 12).checked_mul(c.dig_t3 as i32) { Some(v) => v, None => return None };
    proof {
        lemma_shr_i32(dd3);
    }
    let var2 = dd3 >> 14;
    let t_fine = match var1.checked_add(var2) { Some(v) => v, None => return None };
    let t5 = match t_fine.checked_mul(5) { Some(v) => v, None => return None };
    let t5r = match t5.checked_add(128) { Some(v) => v, None => return None };
    proof {
        lemma_shr_i32(t5r);
    }
    let temp_centi = t5r >> 8;
    assert(t_fine == spec_t_fine(raw_t as int, gc));
    assert(temperature_fits(raw_t as int, gc));

    // Pressure compensation (64-bit precision)
    let v1 = (t_fine as i64) - 128000;
    let sq = match v1.checked_mul(v1) { Some(v) => v, None => return None };
    let v2a = match sq.checked_mul(c.dig_p6 as i64) { Some(v) => v, None => return None };
    assert(-2147483648 - 128000 <= v1 <= 2147483647 - 128000);
    proof {
        lemma_mul_bound(v1 as int, gc.dig_p5 as int);
        lemma_mul_bound(v1 as int, gc.dig_p2 as int);
    }
    let m5 = v1 * (c.dig_p5 as i64);
    proof {
        lemma_shl_i64(m5);
    }
    let v2b = match v2a.checked_add(m5 << 17) { Some(v) => v, None => return None };
    let p4 = c.dig_p4 as i64;
    proof {
        lemma_shl_i64(p4);
    }
    let v2 = match v2b.checked_add(p4 << 35) { Some(v) => v, None => return None };
    let m3 = match sq.checked_mul(c.dig_p3 as i64) { Some(v) => v, None => return None };
    let m2 = v1 * (c.dig_p2 as i64);
    proof {
        lemma_shr_i64(m3);
        lemma_shl_i64(m2);
    }
    let v1b = match (m3 >> 8).checked_add(m2 << 12) { Some(v) => v, None => return None };
    let big: i64 = 1i64 << 47;
    assert(1i64 << 47u32 == 140737488355328i64) by (bit_vector);
    let s47 = match big.checked_add(v1b) { Some(v) => v, None => return None };
    let m1 = match s47.checked_mul(c.dig_p1 as i64) { Some(v) => v, None => return None };
    proof {
        lemma_shr_i64(m1);
    }
    let v1c = m1 >> 33;
    assert((v1c as int, v2 as int) == spec_pressure_terms(t_fine as int, gc));

    let mut pressure: i64 = 0;
    if v1c != 0 {
        let p0 = 1048576i64 - (raw_p as i64);
        proof {
            lemma_shl_i64(p0);
        }
        let n = match (p0 << 31).checked_sub(v2) { Some(v) => v, None => return None };
        let n5 = match n.checked_mul(3125) { Some(v) => v, None => return None };
        let p = match n5.checked_div(v1c) { Some(v) => v, None => return None };
        proof {
            lemma_shr_i64(p);
        }
        let q = p >> 13;
        let w1a = match (c.dig_p9 as i64).checked_mul(q) { Some(v) => v, None => return None };
        let w1b = match w1a.checked_mul(q) { Some(v) => v, None => return None };
        proof {
            lemma_shr_i64(w1b);
        }
        let w1 = w1b >> 25;
        let w2a = match (c.dig_p8 as i64).checked_mul(p) { Some(v) => v, None => return None };
        proof {
            lemma_shr_i64(w2a);
        }
        let w2 = w2a >> 19;
        let s1 = match p.checked_add(w1) { Some(v) => v, None => return None };
        let s2 = match s1.checked_add(w2) { Some(v) => v, None => return None };
        proof {
            lemma_shr_i64(s2);
        }
        let p7 = c.dig_p7 as i64;
        proof {
            lemma_shl_i64(p7);
        }
        let total = match (s2 >> 8).checked_add(p7 << 4) { Some(v) => v, None => return None };
        assert(p == tdiv(n5 as int, v1c as int));
        pressure = total;
    }
    Some((temp_centi, pressure))
}

/// The compensated temperature, in hundredths of a degree, is the datasheet's
/// `(t_fine * 5 + 128) >> 8`: the floor of `(t_fine * 5 + 128) / 256`. So it
/// grows with `t_fine`, and a reading below zero stays below zero.
pub proof fn law_temperature_is_floor(raw_t: int, raw_t2: int, c: Calibration)
    ensures
        256 * spec_temperature(raw_t, c) <= spec_t_fine(raw_t, c) * 5 + 128 < 256 * spec_temperature(
            raw_t,
            c,
        ) + 256,
        spec_t_fine(raw_t, c) * 5 + 128 < 0 ==> spec_temperature(raw_t, c) < 0,
        spec_t_fine(raw_t, c) <= spec_t_fine(raw_t2, c) ==> spec_temperature(raw_t, c)
            <= spec_temperature(raw_t2, c),
{
    let x = spec_t_fine(raw_t, c) * 5 + 128;
    let y = spec_t_fine(raw_t2, c) * 5 + 128;
    vstd::arithmetic::div_mod::lemma_fundamental_div_mod(x, 256);
    vstd::arithmetic::div_mod::lemma_fundamental_div_mod(y, 256);
    if x <= y {
        vstd::arithmetic::div_mod::lemma_div_is_ordered(x, y, 256);
    }
}

/// Compensation math: the temperature in hundredths of a degree Celsius and
/// the pressure in 1/256 Pa (0 when the calibration makes the divisor vanish).
pub fn compensate(raw_t: i32, raw_p: i32, calibration: &Calibration) -> (res: (i32, i64))
    requires
        compensation_fits(raw_t as int, raw_p as int, *calibration),
    ensures
        res.0 == spec_temperature(raw_t as int, *calibration),
        res.1 == spec_pressure(raw_t as int, raw_p as int, *calibration),
{
    match checked_compensate(raw_t, raw_p, calibration) {
        Some(v) => v,
        None => {
            assert(false);
            (0, 0)
        }
    }
}

/// Whether [`compensate`] can be applied to these inputs: the formulas
/// overflow on the others.
pub fn compensation_in_range(raw_t: i32, raw_p: i32, calibration: &Calibration) -> (res: bool)
    ensures
        res == compensation_fits(raw_t as int, raw_p as int, *calibration),
{
    checked_compensate(raw_t, raw_p, calibration).is_some()
}

} // verus!

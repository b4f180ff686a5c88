//! Driver for the pressure/temperature chip.
//!
//! The chip reports 20-bit raw ADC codes; turning them into physical units
//! takes twelve calibration coefficients read once from the chip, and a
//! cross-call intermediate (the fine temperature) that the pressure formula
//! consumes. Both compensation formulas are the datasheet's fixed-point
//! ones: 32-bit signed intermediates for temperature, 64-bit signed for
//! pressure, wrapping at that width where a product exceeds it, exactly as
//! two's-complement arithmetic at the stated width computes them.

use vstd::prelude::*;

verus! {

use vstd::arithmetic::div_mod::lemma_div_is_ordered;

use crate::fixmath::{
    add_wrap_i64, div_floor_i32, div_floor_i64, mul_wrap_i32, mul_wrap_i64, sub_wrap_i64, tdiv64,
    tdiv_i64, wrap_i32, wrap_i64,
};
use crate::transport::{Transport, TransportError};

/// Default bus address of the chip.
pub const BMP280_ADDR: u16 = 0x76;

/// First byte of the 24-byte calibration block.
pub const REG_CALIBRATION_START: u8 = 0x88;

/// First byte of the 3-byte raw temperature register.
pub const REG_TEMPERATURE_START: u8 = 0xFA;

/// First byte of the 3-byte raw pressure register.
pub const REG_PRESSURE_START: u8 = 0xF7;

/// The twelve correction coefficients the chip carries: three temperature
/// terms and nine pressure terms, immutable once loaded.
#[derive(Clone, Copy, PartialEq, Eq, Structural, Debug)]
pub struct Calibration {
    pub dig_t1: u16,
    pub dig_t2: i16,
    pub dig_t3: i16,
    pub dig_p1: u16,
    pub dig_p2: i16,
    pub dig_p3: i16,
    pub dig_p4: i16,
    pub dig_p5: i16,
    pub dig_p6: i16,
    pub dig_p7: i16,
    pub dig_p8: i16,
    pub dig_p9: i16,
}

/// How an operation on this chip can fail.
#[derive(Clone, Copy, PartialEq, Eq, Structural, Debug)]
pub enum Bmp280Error {
    /// A bus exchange failed.
    Transport(TransportError),
    /// A compensated read was attempted before the calibration load.
    NotCalibrated,
}

/// An unsigned 16-bit coefficient from two little-endian bytes.
pub open spec fn spec_le_u16(lo: u8, hi: u8) -> int {
    lo + hi * 256
}

/// A signed 16-bit coefficient from two little-endian bytes.
pub open spec fn spec_le_i16(lo: u8, hi: u8) -> int {
    if lo + hi * 256 >= 0x8000 {
        lo + hi * 256 - 0x10000
    } else {
        lo + hi * 256
    }
}

/// The calibration record decoded from the chip's 24-byte block.
pub open spec fn spec_calibration(b: Seq<u8>) -> Calibration {
    Calibration {
        dig_t1: spec_le_u16(b[0], b[1]) as u16,
        dig_t2: spec_le_i16(b[2], b[3]) as i16,
        dig_t3: spec_le_i16(b[4], b[5]) as i16,
        dig_p1: spec_le_u16(b[6], b[7]) as u16,
        dig_p2: spec_le_i16(b[8], b[9]) as i16,
        dig_p3: spec_le_i16(b[10], b[11]) as i16,
        dig_p4: spec_le_i16(b[12], b[13]) as i16,
        dig_p5: spec_le_i16(b[14], b[15]) as i16,
        dig_p6: spec_le_i16(b[16], b[17]) as i16,
        dig_p7: spec_le_i16(b[18], b[19]) as i16,
        dig_p8: spec_le_i16(b[20], b[21]) as i16,
        dig_p9: spec_le_i16(b[22], b[23]) as i16,
    }
}

/// One unsigned coefficient from two little-endian bytes.
fn le_u16(lo: u8, hi: u8) -> (w: u16)
    ensures
        w as int == spec_le_u16(lo, hi),
{
    lo as u16 + hi as u16 * 256
}

/// One signed coefficient from two little-endian bytes.
fn le_i16(lo: u8, hi: u8) -> (w: i16)
    ensures
        w as int == spec_le_i16(lo, hi),
{
    let u: u16 = lo as u16 + hi as u16 * 256;
    if u >= 0x8000 {
        (u as i32 - 0x10000) as i16
    } else {
        u as i16
    }
}

/// Decode the chip's calibration block: twelve little-endian coefficients at
/// fixed offsets.
pub fn calibration_from_bytes(b: &Vec<u8>) -> (c: Calibration)
    requires
        b@.len() == 24,
    ensures
        c == spec_calibration(b@),
{
    Calibration {
        dig_t1: le_u16(b[0], b[1]),
        dig_t2: le_i16(b[2], b[3]),
        dig_t3: le_i16(b[4], b[5]),
        dig_p1: le_u16(b[6], b[7]),
        dig_p2: le_i16(b[8], b[9]),
        dig_p3: le_i16(b[10], b[11]),
        dig_p4: le_i16(b[12], b[13]),
        dig_p5: le_i16(b[14], b[15]),
        dig_p6: le_i16(b[16], b[17]),
        dig_p7: le_i16(b[18], b[19]),
        dig_p8: le_i16(b[20], b[21]),
        dig_p9: le_i16(b[22], b[23]),
    }
}

/// The 20-bit raw ADC code assembled from a 3-byte register read: the first
/// two bytes whole, the top half of the third.
pub open spec fn spec_raw20(b0: u8, b1: u8, b2: u8) -> int {
    b0 * 4096 + b1 * 16 + b2 / 16
}

/// Assemble the 20-bit raw ADC code from a 3-byte register read.
pub fn raw20(b0: u8, b1: u8, b2: u8) -> (r: u32)
    ensures
        r as int == spec_raw20(b0, b1, b2),
        r < 0x100000,
{
    (b0 as u32) * 4096 + (b1 as u32) * 16 + (b2 as u32) / 16
}

/// The fine temperature: the datasheet's two-term 32-bit correction of a raw
/// temperature code. Products wrap at 32 bits; the right shifts round toward
/// negative infinity.
pub open spec fn spec_t_fine(c: Calibration, raw: int) -> int {
    let var1 = wrap_i32((raw / 8 - 2 * (c.dig_t1 as int)) * (c.dig_t2 as int)) / 2048;
    let d = raw / 16 - (c.dig_t1 as int);
    let var2 = wrap_i32(wrap_i32(d * d) / 4096 * (c.dig_t3 as int)) / 16384;
    var1 + var2
}

/// Temperature in hundredths of a degree Celsius from the fine temperature.
pub open spec fn spec_temp_centi(t_fine: int) -> int {
    (t_fine * 5 + 128) / 256
}

/// Temperature compensation: from the calibration and a raw 20-bit code to
/// the fine temperature and the temperature in hundredths of a degree
/// Celsius. Deterministic: a pure function of its arguments.
pub fn compensate_temperature(c: &Calibration, raw: u32) -> (r: (i32, i32))
    requires
        raw < 0x100000,
    ensures
        r.0 as int == spec_t_fine(*c, raw as int),
        r.1 as int == spec_temp_centi(r.0 as int),
        -0x200000 < r.0 < 0x200000,
{
    let t1: i32 = c.dig_t1 as i32;
    let m1: i32 = mul_wrap_i32((raw / 8) as i32 - 2 * t1, c.dig_t2 as i32);
    proof {
        lemma_div_is_ordered(i32::MIN as int, m1 as int, 2048);
        lemma_div_is_ordered(m1 as int, i32::MAX as int, 2048);
    }
    let var1: i32 = div_floor_i32(m1, 2048);
    let d: i32 = (raw / 16) as i32 - t1;
    let dd: i32 = mul_wrap_i32(d, d);
    proof {
        lemma_div_is_ordered(i32::MIN as int, dd as int, 4096);
        lemma_div_is_ordered(dd as int, i32::MAX as int, 4096);
    }
    let m2: i32 = mul_wrap_i32(div_floor_i32(dd, 4096), c.dig_t3 as i32);
    proof {
        lemma_div_is_ordered(i32::MIN as int, m2 as int, 16384);
        lemma_div_is_ordered(m2 as int, i32::MAX as int, 16384);
    }
    let var2: i32 = div_floor_i32(m2, 16384);
    let t_fine: i32 = var1 + var2;
    let temp: i32 = div_floor_i32(t_fine * 5 + 128, 256);
    (t_fine, temp)
}

/// The first intermediate term of the pressure formula: built from the fine
/// temperature and three of the nine pressure coefficients. When this term is
/// zero the pressure formula's division is undefined and the result is pinned
/// to zero instead.
pub open spec fn spec_press_var1(c: Calibration, t_fine: int) -> int {
    let v = t_fine - 128000;
    let a = wrap_i64(v * v * (c.dig_p3 as int)) / 256 + v * (c.dig_p2 as int) * 4096;
    wrap_i64((0x8000_0000_0000 + a) * (c.dig_p1 as int)) / 0x2_0000_0000
}

/// The second intermediate term of the pressure formula.
pub open spec fn spec_press_var2(c: Calibration, t_fine: int) -> int {
    let v = t_fine - 128000;
    let x = wrap_i64(v * v * (c.dig_p6 as int));
    let y = wrap_i64(x + wrap_i64(v * (c.dig_p5 as int) * 0x20000));
    wrap_i64(y + (c.dig_p4 as int) * 0x8_0000_0000)
}

/// Pressure in pascals scaled by 256 (so hectopascals times 25600): the
/// datasheet's 64-bit fixed-point formula over the fine temperature, the raw
/// 20-bit pressure code and six further coefficients. If the first
/// intermediate term is zero, the result is zero rather than a fault.
pub open spec fn spec_pressure(c: Calibration, t_fine: int, raw: int) -> int {
    let var1 = spec_press_var1(c, t_fine);
    let var2 = spec_press_var2(c, t_fine);
    if var1 == 0 {
        0
    } else {
        let p = tdiv_i64(
            wrap_i64(wrap_i64((1048576 - raw) * 0x8000_0000 - var2) * 3125),
            var1,
        );
        let a = wrap_i64(wrap_i64((c.dig_p9 as int) * (p / 0x2000)) * (p / 0x2000)) / 0x200_0000;
        let b = wrap_i64((c.dig_p8 as int) * p) / 0x8_0000;
        wrap_i64(wrap_i64(p + a) + b) / 256 + (c.dig_p7 as int) * 16
    }
}

/// Pressure compensation: from the calibration, the fine temperature of the
/// same sampling instant, and a raw 20-bit pressure code, to pressure in
/// pascals scaled by 256. Deterministic: a pure function of its arguments.
pub fn compensate_pressure(c: &Calibration, t_fine: i32, raw: u32) -> (r: i64)
    requires
        raw < 0x100000,
    ensures
        r as int == spec_pressure(*c, t_fine as int, raw as int),
{
    let v: i64 = (t_fine as i64) - 128000;
    proof {
        assert(v * v <= 2147611648 * 2147611648 && v * v >= 0) by (nonlinear_arith)
            requires
                -2147611648 <= v <= 2147611648,
        ;
        assert(-2147611648 * 32768 <= v * (c.dig_p5 as i64) <= 2147611648 * 32768)
            by (nonlinear_arith)
            requires
                -2147611648 <= v <= 2147611648,
                -32768 <= c.dig_p5 as i64 <= 32767,
        ;
        assert(-2147611648 * 32768 <= v * (c.dig_p2 as i64) <= 2147611648 * 32768)
            by (nonlinear_arith)
            requires
                -2147611648 <= v <= 2147611648,
                -32768 <= c.dig_p2 as i64 <= 32767,
        ;
    }
    let vv: i64 = v * v;
    let mut var2: i64 = mul_wrap_i64(vv, c.dig_p6 as i64);
    var2 = add_wrap_i64(var2, mul_wrap_i64(v * (c.dig_p5 as i64), 0x20000));
    var2 = add_wrap_i64(var2, (c.dig_p4 as i64) * 0x8_0000_0000);
    let mut var1: i64 = div_floor_i64(mul_wrap_i64(vv, c.dig_p3 as i64), 256)
        + (v * (c.dig_p2 as i64)) * 4096;
    var1 = div_floor_i64(mul_wrap_i64(0x8000_0000_0000 + var1, c.dig_p1 as i64), 0x2_0000_0000);
    if var1 == 0 {
        return 0;
    }
    let p0: i64 = 1048576 - (raw as i64);
    let p: i64 = tdiv64(
        mul_wrap_i64(sub_wrap_i64(p0 * 0x8000_0000, var2), 3125),
        var1,
    );
    let s: i64 = div_floor_i64(p, 0x2000);
    let a: i64 = div_floor_i64(
        mul_wrap_i64(mul_wrap_i64(c.dig_p9 as i64, s), s),
        0x200_0000,
    );
    let b: i64 = div_floor_i64(mul_wrap_i64(c.dig_p8 as i64, p), 0x8_0000);
    div_floor_i64(add_wrap_i64(add_wrap_i64(p, a), b), 256) + (c.dig_p7 as i64) * 16
}

/// The division guard: whenever the first pressure intermediate term is zero,
/// the compensated pressure is exactly zero, for every raw code, rather than
/// a fault.
pub proof fn lemma_pressure_zero_guard(c: Calibration, t_fine: int, raw: int)
    requires
        spec_press_var1(c, t_fine) == 0,
    ensures
        spec_pressure(c, t_fine, raw) == 0,
{
}

/// Driver instance for the pressure/temperature chip: owns its transport, the
/// calibration record once loaded, and the fine temperature of the most
/// recent temperature sample.
pub struct BMP280<T: Transport> {
    /// The bus the chip is reached through.
    pub bus: T,
    /// Fine temperature left by the most recent temperature compensation;
    /// pressure compensation is only meaningful against a fresh value, so
    /// pressure reads sample temperature first.
    pub t_fine: i32,
    /// Correction coefficients, absent until the calibration load; absence
    /// makes compensated reads an error, not a default.
    pub calib: Option<Calibration>,
}

impl<T: Transport> BMP280<T> {
    /// A driver that has not yet loaded calibration.
    pub fn new(bus: T) -> (d: BMP280<T>)
        ensures
            d.calib is None,
            d.t_fine == 0,
    {
        BMP280 { bus, t_fine: 0, calib: None }
    }

    /// Select the chip's fixed bus address.
    fn set_address(&mut self) -> (r: Result<(), TransportError>)
        ensures
            final(self).t_fine == old(self).t_fine,
            final(self).calib == old(self).calib,
    {
        self.bus.set_target(BMP280_ADDR)
    }

    /// Read the 24-byte calibration block and decode the twelve coefficients.
    fn read_calibration(&mut self) -> (r: Result<(), Bmp280Error>)
        ensures
            final(self).t_fine == old(self).t_fine,
            r is Ok ==> (exists|b: Seq<u8>|
                b.len() == 24 && final(self).calib == Some(spec_calibration(b))),
            r is Err ==> r == Err::<(), Bmp280Error>(Bmp280Error::Transport(TransportError))
                && final(self).calib == old(self).calib,
    {
        match self.set_address() {
            Ok(()) => {}
            Err(e) => {
                return Err(Bmp280Error::Transport(e));
            }
        }
        let data = match self.bus.write_then_read(REG_CALIBRATION_START, 24) {
            Ok(d) => d,
            Err(e) => {
                return Err(Bmp280Error::Transport(e));
            }
        };
        if data.len() != 24 {
            return Err(Bmp280Error::Transport(TransportError));
        }
        let c = calibration_from_bytes(&data);
        self.calib = Some(c);
        proof {
            assert(data@.len() == 24 && self.calib == Some(spec_calibration(data@)));
        }
        Ok(())
    }

    /// Load calibration, then take a first temperature sample so the fine
    /// temperature is populated.
    pub fn intialize(&mut self) -> (r: Result<(), Bmp280Error>)
        ensures
            r is Ok ==> (final(self).calib matches Some(c) && (exists|traw: u32|
                traw < 0x100000 && final(self).t_fine as int == spec_t_fine(c, traw as int))),
            r is Err ==> r == Err::<(), Bmp280Error>(Bmp280Error::Transport(TransportError))
                && final(self).t_fine == old(self).t_fine
                && (final(self).calib == old(self).calib || (exists|b: Seq<u8>|
                b.len() == 24 && final(self).calib == Some(spec_calibration(b)))),
    {
        match self.read_calibration() {
            Ok(()) => {}
            Err(e) => {
                return Err(e);
            }
        }
        match self.read_temperature() {
            Ok(_) => Ok(()),
            Err(e) => Err(e),
        }
    }

    /// Read 3 raw temperature bytes, refresh the fine temperature, and return
    /// the temperature in hundredths of a degree Celsius.
    pub fn read_temperature(&mut self) -> (r: Result<i32, Bmp280Error>)
        ensures
            final(self).calib == old(self).calib,
            old(self).calib is None <==> r == Err::<i32, Bmp280Error>(Bmp280Error::NotCalibrated),
            r is Err ==> final(self).t_fine == old(self).t_fine
                && (r == Err::<i32, Bmp280Error>(Bmp280Error::NotCalibrated)
                    || r == Err::<i32, Bmp280Error>(Bmp280Error::Transport(TransportError))),
            r matches Ok(t) ==> (old(self).calib matches Some(c) && (exists|raw: u32|
                raw < 0x100000 && final(self).t_fine as int == spec_t_fine(c, raw as int))
                && t as int == spec_temp_centi(final(self).t_fine as int)),
    {
        let c = match self.calib {
            Some(c) => c,
            None => {
                return Err(Bmp280Error::NotCalibrated);
            }
        };
        let buf = match self.bus.write_then_read(REG_TEMPERATURE_START, 3) {
            Ok(b) => b,
            Err(_) => {
                return Err(Bmp280Error::Transport(TransportError));
            }
        };
        if buf.len() != 3 {
            return Err(Bmp280Error::Transport(TransportError));
        }
        let raw = raw20(buf[0], buf[1], buf[2]);
        let (t_fine, temp) = compensate_temperature(&c, raw);
        self.t_fine = t_fine;
        proof {
            assert(raw < 0x100000 && self.t_fine as int == spec_t_fine(c, raw as int));
        }
        Ok(temp)
    }

    /// Read pressure: always samples temperature first, so the fine
    /// temperature the formula consumes belongs to this same instant, then
    /// reads 3 raw pressure bytes and applies the 64-bit formula. The result
    /// is pascals scaled by 256 (divide by 25600 for hectopascals).
    pub fn read_pressure(&mut self) -> (r: Result<i64, Bmp280Error>)
        ensures
            final(self).calib == old(self).calib,
            old(self).calib is None <==> r == Err::<i64, Bmp280Error>(Bmp280Error::NotCalibrated),
            r is Err ==> (r == Err::<i64, Bmp280Error>(Bmp280Error::NotCalibrated)
                || r == Err::<i64, Bmp280Error>(Bmp280Error::Transport(TransportError))),
            old(self).calib is None ==> final(self).t_fine == old(self).t_fine,
            r matches Ok(p) ==> (old(self).calib matches Some(c) && (exists|traw: u32|
                traw < 0x100000 && final(self).t_fine as int == spec_t_fine(c, traw as int))
                && (exists|praw: u32|
                praw < 0x100000 && p as int == spec_pressure(
                    c,
                    final(self).t_fine as int,
                    praw as int,
                ))),
    {
        match self.read_temperature() {
            Ok(_) => {}
            Err(e) => {
                return Err(e);
            }
        }
        let c = match self.calib {
            Some(c) => c,
            None => {
                return Err(Bmp280Error::NotCalibrated);
            }
        };
        let buf = match self.bus.write_then_read(REG_PRESSURE_START, 3) {
            Ok(b) => b,
            Err(_) => {
                return Err(Bmp280Error::Transport(TransportError));
            }
        };
        if buf.len() != 3 {
            return Err(Bmp280Error::Transport(TransportError));
        }
        let raw = raw20(buf[0], buf[1], buf[2]);
        let p = compensate_pressure(&c, self.t_fine, raw);
        proof {
            assert(raw < 0x100000 && p as int == spec_pressure(
                c,
                self.t_fine as int,
                raw as int,
            ));
        }
        Ok(p)
    }
}

} // verus!

//! Calibration store of the pressure/humidity/temperature device: the
//! factory-programmed coefficient table, parsed from the device's two burst
//! blocks, and the fixed-point compensation formulas that turn raw register
//! counts into calibrated physical quantities.
//!
//! Every formula follows the device datasheet's documented fixed-point path,
//! including its integer truncation order: right shifts are arithmetic
//! (they round toward negative infinity), the pressure division truncates
//! toward zero, and wider intermediates are used only where the documented
//! path itself would otherwise overflow.

use vstd::prelude::*;

use vstd::arithmetic::div_mod::lemma_div_basics_4;
use vstd::arithmetic::div_mod::lemma_div_basics_5;
use vstd::math::abs;

verus! {

/// Every value `compensate_temperature` can return lies within this bound,
/// which the other two compensations require of their `t_fine` input.
pub const T_FINE_BOUND: i64 = 4194304;

/// `compensate_humidity` clamps its result to at most this value
/// (100 %RH in Q22.10 fixed point).
pub const HUMIDITY_MAX_Q10: u32 = 102400;

/// The factory compensation coefficients, one named field per datasheet
/// register pair.
#[derive(Debug, Clone, Copy, PartialEq, Eq)]
pub struct CalibrationRegisters {
    pub dig_t1: u16,
    pub dig_t2: i16,
    pub dig_t3: i16,
    pub dig_p1: u16,
    pub dig_p2: i16,
    pub dig_p3: i16,
    pub dig_p4: i16,
    pub dig_p5: i16,
    pub dig_p6: i16,
    pub dig_p7: i16,
    pub dig_p8: i16,
    pub dig_p9: i16,
    pub dig_h1: u8,
    pub dig_h2: i16,
    pub dig_h3: u8,
    pub dig_h4: i16,
    pub dig_h5: i16,
    pub dig_h6: i8,
}

/// The little-endian unsigned word at bytes `lo`, `hi`.
pub open spec fn spec_u16_le(lo: u8, hi: u8) -> u16 {
    (hi * 256 + lo) as u16
}

/// The little-endian signed word at bytes `lo`, `hi`.
pub open spec fn spec_i16_le(lo: u8, hi: u8) -> i16 {
    (hi * 256 + lo) as i16
}

/// The coefficient table parsed from the concatenated 26 + 7 byte
/// calibration block, per the datasheet's fixed layout. Byte 24 of the
/// first block is a filler register and carries no coefficient. The two
/// humidity nibble fields share byte 30.
pub open spec fn spec_parse(d: Seq<u8>) -> CalibrationRegisters
    recommends
        d.len() == 33,
{
    CalibrationRegisters {
        dig_t1: spec_u16_le(d[0], d[1]),
        dig_t2: spec_i16_le(d[2], d[3]),
        dig_t3: spec_i16_le(d[4], d[5]),
        dig_p1: spec_u16_le(d[6], d[7]),
        dig_p2: spec_i16_le(d[8], d[9]),
        dig_p3: spec_i16_le(d[10], d[11]),
        dig_p4: spec_i16_le(d[12], d[13]),
        dig_p5: spec_i16_le(d[14], d[15]),
        dig_p6: spec_i16_le(d[16], d[17]),
        dig_p7: spec_i16_le(d[18], d[19]),
        dig_p8: spec_i16_le(d[20], d[21]),
        dig_p9: spec_i16_le(d[22], d[23]),
        dig_h1: d[25],
        dig_h2: spec_i16_le(d[26], d[27]),
        dig_h3: d[28],
        dig_h4: ((((d[29] as i8) as i16) * 16) as i16) | ((d[30] & 0x0F) as i16),
        dig_h5: ((((d[31] as i8) as i16) * 16) as i16) | ((d[30] >> 4) as i16),
        dig_h6: d[32] as i8,
    }
}

/// Bounds the product of two bounded factors.
proof fn lemma_mul_bound(a: int, b: int, ba: int, bb: int)
    by (nonlinear_arith)
    requires
        -ba <= a <= ba,
        -bb <= b <= bb,
    ensures
        -(ba * bb) <= a * b <= ba * bb,
{
}

/// Truncating (round toward zero) division, as the datasheet's pressure
/// formula performs it.
pub open spec fn spec_tdiv(a: int, b: int) -> int {
    if (a < 0) != (b < 0) {
        -((abs(a) / abs(b)) as int)
    } else {
        (abs(a) / abs(b)) as int
    }
}

fn tdiv_i128(a: i128, b: i128) -> (q: i128)
    requires
        b != 0,
        -0x1000_0000_0000_0000_0000_0000_0000 <= a <= 0x1000_0000_0000_0000_0000_0000_0000,
        -0x1000_0000_0000_0000_0000_0000_0000 <= b <= 0x1000_0000_0000_0000_0000_0000_0000,
    ensures
        q == spec_tdiv(a as int, b as int),
        -abs(a as int) <= q <= abs(a as int),
{
    let neg = (a < 0) != (b < 0);
    let am: u128 = if a < 0 {
        (-a) as u128
    } else {
        a as u128
    };
    let bm: u128 = if b < 0 {
        (-b) as u128
    } else {
        b as u128
    };
    let qm = am / bm;
    proof {
        lemma_div_basics_4(am as int, bm as int);
        lemma_div_basics_5(am as int, bm as int);
    }
    if neg {
        -(qm as i128)
    } else {
        qm as i128
    }
}

impl CalibrationRegisters {
    /// Parses the concatenated 26 + 7 byte calibration block into the named
    /// coefficient table.
    pub fn parse(data: &[u8]) -> (r: CalibrationRegisters)
        requires
            data@.len() == 33,
        ensures
            r == spec_parse(data@),
    {
        let w_t2: u16 = (data[3] as u16) * 256 + (data[2] as u16);
        let w_t3: u16 = (data[5] as u16) * 256 + (data[4] as u16);
        let w_p2: u16 = (data[9] as u16) * 256 + (data[8] as u16);
        let w_p3: u16 = (data[11] as u16) * 256 + (data[10] as u16);
        let w_p4: u16 = (data[13] as u16) * 256 + (data[12] as u16);
        let w_p5: u16 = (data[15] as u16) * 256 + (data[14] as u16);
        let w_p6: u16 = (data[17] as u16) * 256 + (data[16] as u16);
        let w_p7: u16 = (data[19] as u16) * 256 + (data[18] as u16);
        let w_p8: u16 = (data[21] as u16) * 256 + (data[20] as u16);
        let w_p9: u16 = (data[23] as u16) * 256 + (data[22] as u16);
        let w_h2: u16 = (data[27] as u16) * 256 + (data[26] as u16);
        CalibrationRegisters {
            dig_t1: (data[1] as u16) * 256 + (data[0] as u16),
            dig_t2: #[verifier::truncate] (w_t2 as i16),
            dig_t3: #[verifier::truncate] (w_t3 as i16),
            dig_p1: (data[7] as u16) * 256 + (data[6] as u16),
            dig_p2: #[verifier::truncate] (w_p2 as i16),
            dig_p3: #[verifier::truncate] (w_p3 as i16),
            dig_p4: #[verifier::truncate] (w_p4 as i16),
            dig_p5: #[verifier::truncate] (w_p5 as i16),
            dig_p6: #[verifier::truncate] (w_p6 as i16),
            dig_p7: #[verifier::truncate] (w_p7 as i16),
            dig_p8: #[verifier::truncate] (w_p8 as i16),
            dig_p9: #[verifier::truncate] (w_p9 as i16),
            dig_h1: data[25],
            dig_h2: #[verifier::truncate] (w_h2 as i16),
            dig_h3: data[28],
            dig_h4: (#[verifier::truncate] (data[29] as i8) as i16) * 16 | ((data[30] & 0x0F)
                as i16),
            dig_h5: (#[verifier::truncate] (data[31] as i8) as i16) * 16 | ((data[30] >> 4)
                as i16),
            dig_h6: #[verifier::truncate] (data[32] as i8),
        }
    }

    /// The temperature compensation's fixed-point intermediate `t_fine`
    /// (2^8-scaled), per the datasheet path.
    pub open spec fn spec_t_fine(self, adc_t: u32) -> i64 {
        let a3 = (adc_t / 8) as i64;
        let a4 = (adc_t / 16) as i64;
        let t1 = self.dig_t1 as i64;
        let t2 = self.dig_t2 as i64;
        let t3 = self.dig_t3 as i64;
        let d1 = (a3 - t1 * 2) as i64;
        let var1 = ((d1 * t2) as i64) >> 11;
        let d2 = (a4 - t1) as i64;
        let sq = (d2 * d2) as i64;
        let var2 = (((sq >> 12) * t3) as i64) >> 14;
        (var1 + var2) as i64
    }

    /// Temperature compensation: maps the raw 20-bit temperature count to
    /// the `t_fine` intermediate that the other two compensations consume.
    pub fn compensate_temperature(&self, adc_t: u32) -> (t_fine: i64)
        requires
            adc_t < 0x100000,
        ensures
            t_fine == self.spec_t_fine(adc_t),
            -T_FINE_BOUND <= t_fine <= T_FINE_BOUND,
    {
        let a3 = (adc_t / 8) as i64;
        let a4 = (adc_t / 16) as i64;
        let t1 = self.dig_t1 as i64;
        let t2 = self.dig_t2 as i64;
        let t3 = self.dig_t3 as i64;
        let d1 = a3 - t1 * 2;
        proof {
            lemma_mul_bound(d1 as int, t2 as int, 131071, 32768);
        }
        let prod1 = d1 * t2;
        let var1 = prod1 >> 11;
        proof {
            assert(-2097152 <= (prod1 >> 11) <= 2097152) by (bit_vector)
                requires
                    -4294967296 <= prod1 <= 4294967296,
            ;
        }
        let d2 = a4 - t1;
        proof {
            lemma_mul_bound(d2 as int, d2 as int, 65535, 65535);
        }
        let sq = d2 * d2;
        proof {
            assert(sq >= 0) by (nonlinear_arith)
                requires
                    sq == d2 * d2,
            ;
        }
        let sq12 = sq >> 12;
        proof {
            assert(0 <= (sq >> 12) <= 1048576) by (bit_vector)
                requires
                    0 <= sq <= 4294967296,
            ;
        }
        proof {
            lemma_mul_bound(sq12 as int, t3 as int, 1048576, 32768);
        }
        let prod2 = sq12 * t3;
        let var2 = prod2 >> 14;
        proof {
            assert(-2097152 <= (prod2 >> 14) <= 2097152) by (bit_vector)
                requires
                    -34359738368 <= prod2 <= 34359738368,
            ;
        }
        var1 + var2
    }

    /// The reported temperature in hundredths of a degree Celsius.
    pub open spec fn spec_temperature_centi(t_fine: i64) -> i64 {
        ((t_fine * 5 + 128) as i64) >> 8
    }

    /// Scales `t_fine` to hundredths of a degree Celsius, per the
    /// datasheet path.
    pub fn temperature_centi(t_fine: i64) -> (r: i64)
        requires
            -T_FINE_BOUND <= t_fine <= T_FINE_BOUND,
        ensures
            r == Self::spec_temperature_centi(t_fine),
    {
        (t_fine * 5 + 128) >> 8
    }

    /// Pressure compensation (2^8-scaled pascals), per the datasheet's
    /// 64-bit fixed-point path. When the intermediate denominator is zero
    /// the division cannot be performed and the result saturates to the
    /// maximum sentinel. The one product that can exceed even 128-bit range
    /// (for coefficient tables far outside the device's own) wraps, as the
    /// reference's fixed-width intermediates do.
    pub open spec fn spec_pressure(self, adc_p: u32, t_fine: i64) -> u32 {
        let v = (t_fine - 128000) as i128;
        let p1 = self.dig_p1 as i128;
        let p2 = self.dig_p2 as i128;
        let p3 = self.dig_p3 as i128;
        let p4 = self.dig_p4 as i128;
        let p5 = self.dig_p5 as i128;
        let p6 = self.dig_p6 as i128;
        let p7 = self.dig_p7 as i128;
        let p8 = self.dig_p8 as i128;
        let p9 = self.dig_p9 as i128;
        let vv = (v * v) as i128;
        let var2 = ((vv * p6) as i128 + ((v * p5) as i128) * 131072 + p4 * 34359738368) as i128;
        let var1b = ((((vv * p3) as i128) >> 8) + ((v * p2) as i128) * 4096) as i128;
        let var1 = (((140737488355328 + var1b) as i128 * p1) as i128) >> 33;
        if var1 == 0 {
            u32::MAX
        } else {
            let pp0 = (1048576 - adc_p) as i128;
            let pp2 = ((pp0 * 2147483648 - var2) as i128 * 3125) as i128;
            let q = spec_tdiv(pp2 as int, var1 as int) as i128;
            let q13 = q >> 13;
            let m2 = ((p9 * q13) as i128).wrapping_mul(q13);
            let var1r = m2 >> 25;
            let var2r = ((p8 * q) as i128) >> 19;
            let pfinal = ((((q + var1r + var2r) as i128) >> 8) + p7 * 16) as i128;
            pfinal as u32
        }
    }

    /// Pressure compensation over the raw 20-bit pressure count and the
    /// `t_fine` temperature intermediate.
    pub fn compensate_pressure(&self, adc_p: u32, t_fine: i64) -> (r: u32)
        requires
            adc_p < 0x100000,
            -T_FINE_BOUND <= t_fine <= T_FINE_BOUND,
        ensures
            r == self.spec_pressure(adc_p, t_fine),
    {
        let v = (t_fine as i128) - 128000;
        let p1 = self.dig_p1 as i128;
        let p2 = self.dig_p2 as i128;
        let p3 = self.dig_p3 as i128;
        let p4 = self.dig_p4 as i128;
        let p5 = self.dig_p5 as i128;
        let p6 = self.dig_p6 as i128;
        let p7 = self.dig_p7 as i128;
        let p8 = self.dig_p8 as i128;
        let p9 = self.dig_p9 as i128;
        proof {
            lemma_mul_bound(v as int, v as int, 4322304, 4322304);
        }
        let vv = v * v;
        proof {
            assert(vv >= 0) by (nonlinear_arith)
                requires
                    vv == v * v,
            ;
            lemma_mul_bound(vv as int, p6 as int, 0x11000000000000, 32768);
            lemma_mul_bound(v as int, p5 as int, 4322304, 32768);
            lemma_mul_bound(vv as int, p3 as int, 0x11000000000000, 32768);
            lemma_mul_bound(v as int, p2 as int, 4322304, 32768);
        }
        let vvp6 = vv * p6;
        let vp5 = v * p5;
        let vvp3 = vv * p3;
        let vp2 = v * p2;
        let var2 = vvp6 + vp5 * 131072 + p4 * 34359738368;
        let var1a = vvp3 >> 8;
        proof {
            assert(-0x80000000000000000 <= (vvp3 >> 8) <= 0x80000000000000000) by (bit_vector)
                requires
                    -0x8000000000000000000 <= vvp3 <= 0x8000000000000000000,
            ;
        }
        let var1b = var1a + vp2 * 4096;
        proof {
            lemma_mul_bound((140737488355328 + var1b) as int, p1 as int, 0x100000000000000000,
                65536);
        }
        let var1c = (140737488355328 + var1b) * p1;
        let var1 = var1c >> 33;
        proof {
            assert(-0x10000000000000000000 <= (var1c >> 33) <= 0x10000000000000000000)
                by (bit_vector)
                requires
                    -0x1000000000000000000000000 <= var1c <= 0x1000000000000000000000000,
            ;
        }
        if var1 == 0 {
            u32::MAX
        } else {
            let pp0 = (1048576 - adc_p) as i128;
            let pp2 = (pp0 * 2147483648 - var2) * 3125;
            let q = tdiv_i128(pp2, var1);
            let q13 = q >> 13;
            proof {
                assert(-0x40000000000000000000 <= (q >> 13) <= 0x40000000000000000000)
                    by (bit_vector)
                    requires
                        -0x80000000000000000000000 <= q <= 0x80000000000000000000000,
                ;
            }
            proof {
                lemma_mul_bound(p9 as int, q13 as int, 32768, 0x40000000000000000000);
            }
            let m1 = p9 * q13;
            let m2 = m1.wrapping_mul(q13);
            let var1r = m2 >> 25;
            proof {
                assert(-0x40000000000000000000000000 <= (m2 >> 25)
                    <= 0x40000000000000000000000000) by (bit_vector);
            }
            proof {
                lemma_mul_bound(p8 as int, q as int, 32768, 0x80000000000000000000000);
            }
            let pq = p8 * q;
            let var2r = pq >> 19;
            proof {
                assert(-0x200000000000000000000000 <= (pq >> 19) <= 0x200000000000000000000000)
                    by (bit_vector)
                    requires
                        -0x10000000000000000000000000000 <= pq <= 0x10000000000000000000000000000,
                ;
            }
            let sum = q + var1r + var2r;
            let sum8 = sum >> 8;
            proof {
                assert(-0x10000000000000000000000000 <= (sum >> 8)
                    <= 0x10000000000000000000000000) by (bit_vector)
                    requires
                        -0x1000000000000000000000000000 <= sum <= 0x1000000000000000000000000000,
                ;
            }
            let pfinal = sum8 + p7 * 16;
            #[verifier::truncate] (pfinal as u32)
        }
    }

    /// Humidity compensation (2^10-scaled percent relative humidity), per
    /// the datasheet's 32-bit fixed-point path, clamped to the valid range
    /// `[0, 102400]` after computation.
    pub open spec fn spec_humidity(self, adc_h: u16, t_fine: i64) -> u32 {
        let v = (t_fine - 76800) as i128;
        let h1 = self.dig_h1 as i128;
        let h2 = self.dig_h2 as i128;
        let h3 = self.dig_h3 as i128;
        let h4 = self.dig_h4 as i128;
        let h5 = self.dig_h5 as i128;
        let h6 = self.dig_h6 as i128;
        let x1 = ((adc_h as i128) * 16384 - h4 * 1048576 - h5 * v + 16384) as i128;
        let t1s = x1 >> 15;
        let i1 = ((v * h6) as i128) >> 10;
        let i2 = ((((v * h3) as i128) >> 11) + 32768) as i128;
        let i3 = ((i1 * i2) as i128) >> 10;
        let i4 = (((i3 + 2097152) as i128) * h2 + 8192) as i128;
        let i5 = i4 >> 14;
        let y = (t1s * i5) as i128;
        let w1 = y >> 15;
        let w4 = ((((((w1 * w1) as i128) >> 7) * h1) as i128) >> 4) as i128;
        let z = (y - w4) as i128;
        let zc = if z < 0 {
            0
        } else if z > 419430400 {
            419430400
        } else {
            z
        };
        (zc >> 12) as u32
    }

    /// Humidity compensation over the raw 16-bit humidity count and the
    /// `t_fine` temperature intermediate. The result never exceeds
    /// 100 %RH in Q22.10 fixed point.
    pub fn compensate_humidity(&self, adc_h: u16, t_fine: i64) -> (r: u32)
        requires
            -T_FINE_BOUND <= t_fine <= T_FINE_BOUND,
        ensures
            r == self.spec_humidity(adc_h, t_fine),
            r <= HUMIDITY_MAX_Q10,
    {
        let v = (t_fine as i128) - 76800;
        let h1 = self.dig_h1 as i128;
        let h2 = self.dig_h2 as i128;
        let h3 = self.dig_h3 as i128;
        let h4 = self.dig_h4 as i128;
        let h5 = self.dig_h5 as i128;
        let h6 = self.dig_h6 as i128;
        proof {
            lemma_mul_bound(h5 as int, v as int, 32768, 4271104);
            lemma_mul_bound(v as int, h6 as int, 4271104, 128);
            lemma_mul_bound(v as int, h3 as int, 4271104, 256);
        }
        let h5v = h5 * v;
        let vh6 = v * h6;
        let vh3 = v * h3;
        let x1 = (adc_h as i128) * 16384 - h4 * 1048576 - h5v + 16384;
        let t1s = x1 >> 15;
        proof {
            assert(-0x800000 <= (x1 >> 15) <= 0x800000) by (bit_vector)
                requires
                    -0x4000000000 <= x1 <= 0x4000000000,
            ;
        }
        let i1 = vh6 >> 10;
        proof {
            assert(-0x100000 <= (vh6 >> 10) <= 0x100000) by (bit_vector)
                requires
                    -0x40000000 <= vh6 <= 0x40000000,
            ;
        }
        proof {
            assert(-0x100000 <= (vh3 >> 11) <= 0x100000) by (bit_vector)
                requires
                    -0x80000000 <= vh3 <= 0x80000000,
            ;
        }
        let i2 = (vh3 >> 11) + 32768;
        proof {
            lemma_mul_bound(i1 as int, i2 as int, 0x100000, 0x108000);
        }
        let i1i2 = i1 * i2;
        let i3 = i1i2 >> 10;
        proof {
            assert(-0x80000000 <= (i1i2 >> 10) <= 0x80000000) by (bit_vector)
                requires
                    -0x20000000000 <= i1i2 <= 0x20000000000,
            ;
        }
        proof {
            lemma_mul_bound((i3 + 2097152) as int, h2 as int, 0x100000000, 32768);
        }
        let i3h2 = (i3 + 2097152) * h2;
        let i4 = i3h2 + 8192;
        let i5 = i4 >> 14;
        proof {
            assert(-0x400000000 <= (i4 >> 14) <= 0x400000000) by (bit_vector)
                requires
                    -0x1000000000000 <= i4 <= 0x1000000000000,
            ;
        }
        proof {
            lemma_mul_bound(t1s as int, i5 as int, 0x800000, 0x400000000);
        }
        let y = t1s * i5;
        let w1 = y >> 15;
        proof {
            assert(-0x40000000000 <= (y >> 15) <= 0x40000000000) by (bit_vector)
                requires
                    -0x200000000000000 <= y <= 0x200000000000000,
            ;
        }
        proof {
            lemma_mul_bound(w1 as int, w1 as int, 0x40000000000, 0x40000000000);
        }
        let w2 = w1 * w1;
        let w3 = w2 >> 7;
        proof {
            assert(-0x20000000000000000000 <= (w2 >> 7) <= 0x20000000000000000000)
                by (bit_vector)
                requires
                    -0x1000000000000000000000 <= w2 <= 0x1000000000000000000000,
            ;
        }
        proof {
            lemma_mul_bound(w3 as int, h1 as int, 0x20000000000000000000, 256);
        }
        let w3h1 = w3 * h1;
        let w4 = w3h1 >> 4;
        proof {
            assert(-0x200000000000000000000 <= (w3h1 >> 4) <= 0x200000000000000000000)
                by (bit_vector)
                requires
                    -0x2000000000000000000000 <= w3h1 <= 0x2000000000000000000000,
            ;
        }
        let z = y - w4;
        let z = if z < 0 {
            0
        } else if z > 419430400 {
            419430400
        } else {
            z
        };
        let r = z >> 12;
        proof {
            assert(0 <= (z >> 12) <= 102400) by (bit_vector)
                requires
                    0 <= z <= 419430400,
            ;
        }
        r as u32
    }
}

} // verus!

use vstd::prelude::*;

verus! {

/// The temperature calibration that the factory writes into the software
/// calibration area: two reference readings of the temperature sensor and the
/// two temperatures, in whole degrees Celsius, at which they were taken.
pub struct TempCalibration {
    /// Sensor reading taken at `room_temp`; a twelve-bit value.
    pub room_temp_val: u16,
    /// Sensor reading taken at `hot_temp`; a twelve-bit value.
    pub hot_temp_val: u16,
    /// Temperature of the room reading, in degrees Celsius.
    pub room_temp: u8,
    /// Temperature of the hot reading, in degrees Celsius.
    pub hot_temp: u8,
}

/// Unpacks the temperature calibration from the first eight bytes of the
/// calibration row: the room and hot sensor readings sit at bit offsets 12 and
/// 24 (twelve bits each), the two reference temperatures at offsets 36 and 44
/// (eight bits each).
pub fn parse_temp_calibration(row: u64) -> (c: TempCalibration)
    ensures
        c.room_temp_val as u64 == (row >> 12u64) & 0xfff,
        c.hot_temp_val as u64 == (row >> 24u64) & 0xfff,
        c.room_temp as u64 == (row >> 36u64) & 0xff,
        c.hot_temp as u64 == (row >> 44u64) & 0xff,
        c.room_temp_val < 0x1000,
        c.hot_temp_val < 0x1000,
{
    proof {
        assert((row >> 12u64) & 0xfff < 0x1000) by (bit_vector);
        assert((row >> 24u64) & 0xfff < 0x1000) by (bit_vector);
        assert((row >> 36u64) & 0xff < 0x100) by (bit_vector);
        assert((row >> 44u64) & 0xff < 0x100) by (bit_vector);
    }
    TempCalibration {
        room_temp_val: ((row >> 12u64) & 0xfff) as u16,
        hot_temp_val: ((row >> 24u64) & 0xfff) as u16,
        room_temp: ((row >> 36u64) & 0xff) as u8,
        hot_temp: ((row >> 44u64) & 0xff) as u8,
    }
}

/// Quotient of `a` by `b` rounded toward zero, as machine signed division
/// computes it. Unspecified when `b == 0`, like `/` itself.
pub open spec fn quot_toward_zero(a: int, b: int) -> int {
    if (a >= 0) == (b >= 0) {
        vstd::math::abs(a) as int / vstd::math::abs(b) as int
    } else {
        -(vstd::math::abs(a) as int / vstd::math::abs(b) as int)
    }
}

/// Signed division rounding toward zero, carried out on the magnitudes so
/// that each machine operation is unsigned.
fn div_toward_zero(a: i32, b: i32) -> (q: i32)
    requires
        b != 0,
        a != i32::MIN,
        b != i32::MIN,
    ensures
        q == quot_toward_zero(a as int, b as int),
        vstd::math::abs(q as int) <= vstd::math::abs(a as int),
{
    let an: u32 = if a >= 0 {
        a as u32
    } else {
        (-a) as u32
    };
    let bn: u32 = if b >= 0 {
        b as u32
    } else {
        (-b) as u32
    };
    let qn: u32 = an / bn;
    proof {
        assert(an == vstd::math::abs(a as int));
        assert(bn == vstd::math::abs(b as int));
        assert(qn <= an) by {
            vstd::arithmetic::div_mod::lemma_div_nonincreasing(an as int, bn as int);
        }
    }
    if (a >= 0) == (b >= 0) {
        qn as i32
    } else {
        -(qn as i32)
    }
}

/// What a raw temperature reading means under a calibration: the reading is
/// placed on the line through the two reference points and the result is the
/// temperature of that point, in whole degrees Celsius, with the machine's
/// rounding toward zero.
pub open spec fn scaled_temp(raw: u16, c: TempCalibration) -> int {
    quot_toward_zero(
        (raw - c.room_temp_val) * (c.hot_temp - c.room_temp),
        c.hot_temp_val - c.room_temp_val,
    ) + c.room_temp
}

/// Converts a raw temperature reading to whole degrees Celsius by linear
/// interpolation between the two calibration points.
pub fn temp_celsius(raw: u16, c: &TempCalibration) -> (t: i32)
    requires
        c.room_temp_val != c.hot_temp_val,
    ensures
        t == scaled_temp(raw, *c),
{
    let diff: i32 = raw as i32 - c.room_temp_val as i32;
    let span: i32 = c.hot_temp as i32 - c.room_temp as i32;
    proof {
        assert(-65536 < diff < 65536);
        assert(-256 < span < 256);
        assert(-16777216 < diff * span < 16777216) by (nonlinear_arith)
            requires
                -65536 < diff < 65536,
                -256 < span < 256,
        ;
    }
    let num: i32 = diff * span;
    let den: i32 = c.hot_temp_val as i32 - c.room_temp_val as i32;
    let q: i32 = div_toward_zero(num, den);
    q + c.room_temp as i32
}

/// The temperature reported for a raw reading: the interpolated value, or 25
/// degrees Celsius when the two calibration readings coincide and the line is
/// degenerate.
pub fn temp_celsius_or_default(raw: u16, c: &TempCalibration) -> (t: i32)
    ensures
        t == if c.room_temp_val == c.hot_temp_val {
            25int
        } else {
            scaled_temp(raw, *c)
        },
{
    if c.room_temp_val != c.hot_temp_val {
        temp_celsius(raw, c)
    } else {
        25
    }
}

} // verus!

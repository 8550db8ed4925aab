//! The 16-bit output level and the voltage it stands for.
//!
//! The chip's output spans -10 V to +10 V in 65536 equal steps of
//! 20 / 65536 V. A voltage `v` is normalised to `(v + 10) / 20 * 65536`,
//! rounded down; level `n` stands for `-10 + n * 20 / 65536` volts. Voltages
//! are written here as exact fractions `numer / denom` of a volt, so that
//! every statement is one about integers.

use vstd::prelude::*;

verus! {

/// Highest output level.
pub const MAX_LEVEL: u16 = 0xFFFF;

/// The normalised value of the voltage `numer / denom` volts, before it is
/// narrowed to 16 bits: `(v + 10) / 20 * 65536`, rounded down.
pub open spec fn scaled_voltage(numer: int, denom: int) -> int
    recommends
        denom > 0,
{
    ((numer + 10 * denom) * 65536) / (20 * denom)
}

/// Whether the voltage `numer / denom` volts lies in the nominal range, from
/// -10 V up to but not including +10 V.
pub open spec fn in_nominal_range(numer: int, denom: int) -> bool {
    denom > 0 && -10 * denom <= numer < 10 * denom
}

/// The level that the voltage `numer / denom` volts is normalised to. A
/// voltage below the nominal range gives the lowest level and one at or above
/// +10 V the highest.
pub open spec fn level_of_voltage(numer: int, denom: int) -> u16
    recommends
        denom > 0,
{
    let scaled = scaled_voltage(numer, denom);
    if scaled < 0 {
        0u16
    } else if scaled > MAX_LEVEL {
        MAX_LEVEL
    } else {
        scaled as u16
    }
}

/// Numerator of the voltage that `level` stands for, in 65536ths of a volt:
/// the voltage is `-10 + level * 20 / 65536` volts.
pub open spec fn voltage_of_level(level: u16) -> int {
    20 * level - 10 * 65536
}

/// Normalises the voltage `numer / denom` volts to an output level.
pub fn level_from_voltage(numer: i64, denom: u64) -> (level: u16)
    requires
        denom > 0,
    ensures
        level == level_of_voltage(numer as int, denom as int),
{
    let shifted: i128 = numer as i128 + 10 * (denom as i128);
    if shifted <= 0 {
        proof {
            lemma_scaled_sign(numer as int, denom as int);
        }
        return 0;
    }
    let dividend: u128 = (shifted as u128) * 65536;
    let divisor: u128 = 20 * (denom as u128);
    let scaled: u128 = dividend / divisor;
    proof {
        lemma_scaled_sign(numer as int, denom as int);
        assert(scaled == scaled_voltage(numer as int, denom as int));
    }
    if scaled > 0xFFFF {
        MAX_LEVEL
    } else {
        scaled as u16
    }
}

/// The voltage that `level` stands for, in 65536ths of a volt.
pub fn voltage_from_level(level: u16) -> (numer: i32)
    ensures
        numer == voltage_of_level(level),
{
    20 * (level as i32) - 655360
}

/// The scaled value is negative below -10 V, and not negative from there on.
proof fn lemma_scaled_sign(numer: int, denom: int)
    requires
        denom > 0,
    ensures
        numer + 10 * denom < 0 ==> scaled_voltage(numer, denom) < 0,
        numer + 10 * denom == 0 ==> scaled_voltage(numer, denom) == 0,
        numer + 10 * denom > 0 ==> scaled_voltage(numer, denom) >= 0,
{
    let x = (numer + 10 * denom) * 65536;
    let d = 20 * denom;
    assert(x == d * (x / d) + x % d && 0 <= x % d < d) by (nonlinear_arith)
        requires
            d > 0,
    ;
    assert(x / d < 0 ==> d * (x / d) <= -d) by (nonlinear_arith)
        requires
            d > 0,
    ;
    assert(x / d >= 0 ==> d * (x / d) >= 0) by (nonlinear_arith)
        requires
            d > 0,
    ;
    assert(x / d > 0 ==> d * (x / d) >= d) by (nonlinear_arith)
        requires
            d > 0,
    ;
}

/// Normalising loses less than one step: for a voltage `v` in the nominal
/// range the level is the scaled value itself, with nothing cut off, and the
/// voltage `w` that the level stands for satisfies `0 <= v - w < 20 / 65536`.
pub proof fn lemma_quantization_error(numer: int, denom: int)
    requires
        in_nominal_range(numer, denom),
    ensures
        level_of_voltage(numer, denom) == scaled_voltage(numer, denom),
        0 <= numer * 65536 - voltage_of_level(level_of_voltage(numer, denom)) * denom < 20
            * denom,
{
    let x = (numer + 10 * denom) * 65536;
    let d = 20 * denom;
    let q = x / d;
    assert(x == d * q + x % d && 0 <= x % d < d) by (nonlinear_arith)
        requires
            d > 0,
            q == x / d,
    ;
    assert(0 <= x < 65536 * d) by (nonlinear_arith)
        requires
            x == (numer + 10 * denom) * 65536,
            d == 20 * denom,
            0 <= numer + 10 * denom < 20 * denom,
    ;
    assert(0 <= q < 65536) by (nonlinear_arith)
        requires
            x == d * q + x % d,
            0 <= x % d < d,
            0 <= x < 65536 * d,
    ;
    assert(numer * 65536 - (20 * q - 10 * 65536) * denom == x - d * q) by (nonlinear_arith)
        requires
            x == (numer + 10 * denom) * 65536,
            d == 20 * denom,
    ;
}

/// Every level is the one that its own voltage is normalised to.
pub proof fn lemma_level_of_own_voltage(level: u16)
    ensures
        in_nominal_range(voltage_of_level(level), 65536),
        level_of_voltage(voltage_of_level(level), 65536) == level,
{
    let x: int = (voltage_of_level(level) + 10 * 65536) * 65536;
    assert(x == level * 1310720);
    assert(x / 1310720 == level);
}

} // verus!

//! A reading of the sensor, and how its numbers are written.

use crate::display::{appended, lemma_appended_twice, FmtBuf};
use vstd::prelude::*;

verus! {

/// One reading of the sensor. Both values count tenths, as the sensor sends
/// them: 235 is 23.5 degrees, 452 is 45.2 percent.
#[derive(Clone, Copy, Debug, PartialEq, Eq, Structural)]
pub struct Measurement {
    /// Tenths of a degree Celsius.
    pub temperature: i16,
    /// Tenths of a percent of relative humidity.
    pub relative_humidity: u16,
}

/// The character of the decimal digit `d`.
pub open spec fn digit(d: int) -> u8 {
    (48 + d) as u8
}

/// `n` in decimal digits, without leading zeros.
pub open spec fn decimal(n: nat) -> Seq<u8>
    decreases n,
{
    if n < 10 {
        seq![digit(n as int)]
    } else {
        decimal(n / 10).push(digit((n % 10) as int))
    }
}

/// `v` tenths as a decimal number: a minus sign if `v` is negative, the
/// whole units, and, unless it is zero, a point and the one digit behind it.
/// So 235 is written `23.5`, 230 is written `23` and -5 is written `-0.5`.
pub open spec fn tenths(v: int) -> Seq<u8> {
    let magnitude = if v < 0 {
        -v
    } else {
        v
    };
    let sign = if v < 0 {
        seq![45u8]
    } else {
        Seq::empty()
    };
    let fraction = if magnitude % 10 == 0 {
        Seq::empty()
    } else {
        seq![46u8, digit(magnitude % 10)]
    };
    sign + decimal((magnitude / 10) as nat) + fraction
}

/// Appends `n` in decimal digits to `out`.
pub fn write_decimal(out: &mut FmtBuf, n: u32)
    ensures
        final(out)@ == appended(old(out)@, decimal(n as nat)),
    decreases n,
{
    if n >= 10 {
        write_decimal(out, n / 10);
    }
    let last: [u8; 1] = [48 + (n % 10) as u8];
    out.write_bytes(last.as_slice());
    proof {
        if n >= 10 {
            lemma_appended_twice(old(out)@, decimal((n / 10) as nat), last@);
            assert(decimal((n / 10) as nat) + last@ =~= decimal(n as nat));
        } else {
            assert(last@ =~= decimal(n as nat));
        }
    }
}

/// Appends `v` tenths as a decimal number to `out`.
pub fn write_tenths(out: &mut FmtBuf, v: i32)
    ensures
        final(out)@ == appended(old(out)@, tenths(v as int)),
{
    let ghost sign: Seq<u8> = if v < 0 {
        seq![45u8]
    } else {
        Seq::empty()
    };
    let magnitude: u32 = if v < 0 {
        let minus: [u8; 1] = [45];
        out.write_bytes(minus.as_slice());
        assert(minus@ =~= sign);
        (-(v as i64)) as u32
    } else {
        assert(appended(out@, sign) =~= out@);
        v as u32
    };
    let ghost units = decimal((magnitude / 10) as nat);
    write_decimal(out, magnitude / 10);
    proof {
        lemma_appended_twice(old(out)@, sign, units);
    }
    let last: u32 = magnitude % 10;
    if last != 0 {
        let fraction: [u8; 2] = [46, 48 + last as u8];
        out.write_bytes(fraction.as_slice());
        proof {
            lemma_appended_twice(old(out)@, sign + units, fraction@);
            assert(fraction@ =~= seq![46u8, digit(last as int)]);
        }
    } else {
        assert(sign + units + Seq::<u8>::empty() =~= sign + units);
    }
}

/// A number written by [`tenths`] takes at most 12 bytes, and each of them
/// is an ASCII character.
pub proof fn lemma_tenths_is_short_ascii(v: int)
    requires
        i32::MIN <= v <= i32::MAX,
    ensures
        0 < tenths(v).len() <= 12,
        forall|i: int| 0 <= i < tenths(v).len() ==> 45 <= #[trigger] tenths(v)[i] <= 57,
{
    let magnitude = if v < 0 {
        -v
    } else {
        v
    };
    assert(pow10(9) == 1_000_000_000) by {
        reveal_with_fuel(pow10, 10);
    }
    lemma_decimal_is_short_ascii((magnitude / 10) as nat, 9);
}

/// A number below ten to the power of `width` takes at most `width`
/// digits, and at least one.
proof fn lemma_decimal_is_short_ascii(n: nat, width: nat)
    requires
        0 < width,
        n < pow10(width),
    ensures
        0 < decimal(n).len() <= width,
        forall|i: int| 0 <= i < decimal(n).len() ==> 48 <= #[trigger] decimal(n)[i] <= 57,
    decreases n,
{
    if n >= 10 {
        assert(width > 1) by {
            reveal_with_fuel(pow10, 2);
        }
        lemma_decimal_is_short_ascii(n / 10, (width - 1) as nat);
    }
}

/// Ten to the power of `width`.
spec fn pow10(width: nat) -> nat
    decreases width,
{
    if width == 0 {
        1
    } else {
        10 * pow10((width - 1) as nat)
    }
}

} // verus!

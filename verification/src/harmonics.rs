//! Harmonic settings of the dial and the rescaling of angles through them.

use vstd::prelude::*;
use vstd::arithmetic::div_mod::*;
use crate::math::{
    normalize_degrees, normalized, round_div, round_div_even, rounded_quotient, FULL_TURN,
};
use crate::text::{decimal, digit, digit_char, push_char, push_decimal};

verus! {

/// A harmonic dial setting: the integer by which the base circle is rescaled.
#[derive(Debug, Clone, Copy, PartialEq, Eq, Structural)]
pub enum Harmonic {
    /// 360°, the standard zodiac.
    First,
    /// 180°, the opposition dial.
    Second,
    /// 90°, the square dial.
    Fourth,
    /// 45°, the eighth harmonic dial.
    Eighth,
    /// 22.5°, the sixteenth harmonic dial.
    Sixteenth,
    /// Any other harmonic. A payload of zero counts as one.
    Custom(u8),
}

/// The angle span of harmonic `n` in tenths of a degree, as its label shows it.
pub open spec fn span_tenths(n: int) -> int
    recommends
        n > 0,
{
    round_div_even(3600, n)
}

/// The label of a custom harmonic `n`: the number, `th`, and the span in
/// degrees with one decimal.
pub open spec fn custom_label(n: int) -> Seq<char>
    recommends
        n > 0,
{
    decimal(n as nat) + seq!['t', 'h', ' ', '('] + decimal((span_tenths(n) / 10) as nat) + seq![
        '.',
        digit_char(span_tenths(n) % 10),
        '°',
        ')',
    ]
}

impl Harmonic {
    /// The harmonic number, always at least one.
    pub open spec fn number(self) -> int {
        match self {
            Harmonic::First => 1,
            Harmonic::Second => 2,
            Harmonic::Fourth => 4,
            Harmonic::Eighth => 8,
            Harmonic::Sixteenth => 16,
            Harmonic::Custom(n) => if n == 0 {
                1
            } else {
                n as int
            },
        }
    }

    /// The setting that a number selects: a named one where there is one.
    pub open spec fn of(num: u8) -> Harmonic {
        if num == 0 || num == 1 {
            Harmonic::First
        } else if num == 2 {
            Harmonic::Second
        } else if num == 4 {
            Harmonic::Fourth
        } else if num == 8 {
            Harmonic::Eighth
        } else if num == 16 {
            Harmonic::Sixteenth
        } else {
            Harmonic::Custom(num)
        }
    }

    /// The human-readable label of the setting.
    pub open spec fn label(self) -> Seq<char> {
        match self {
            Harmonic::First => "1st (360°)"@,
            Harmonic::Second => "2nd (180°)"@,
            Harmonic::Fourth => "4th (90°)"@,
            Harmonic::Eighth => "8th (45°)"@,
            Harmonic::Sixteenth => "16th (22.5°)"@,
            Harmonic::Custom(_) => custom_label(self.number()),
        }
    }

    /// Creates a harmonic from a number. Zero is taken as one.
    pub fn from_number(num: u8) -> (r: Self)
        ensures
            r == Self::of(num),
            r.number() == (if num == 0 {
                1
            } else {
                num as int
            }),
    {
        match num {
            0 => Self::First,
            1 => Self::First,
            2 => Self::Second,
            4 => Self::Fourth,
            8 => Self::Eighth,
            16 => Self::Sixteenth,
            n => Self::Custom(n),
        }
    }

    /// The harmonic number.
    pub fn to_number(&self) -> (r: u8)
        ensures
            r as int == self.number(),
            r >= 1,
    {
        match self {
            Self::First => 1,
            Self::Second => 2,
            Self::Fourth => 4,
            Self::Eighth => 8,
            Self::Sixteenth => 16,
            Self::Custom(n) => if *n == 0 {
                1
            } else {
                *n
            },
        }
    }

    /// The angle span of one division, a full turn over the harmonic number,
    /// in arcseconds rounded to the nearest.
    pub fn angle_span(&self) -> (r: i64)
        ensures
            r == round_div(1_296_000, self.number()),
    {
        rounded_quotient(FULL_TURN, self.to_number() as i64)
    }

    /// The number of arms to display: four times the harmonic number.
    pub fn arm_count(&self) -> (r: u16)
        ensures
            r as int == 4 * self.number(),
    {
        4 * (self.to_number() as u16)
    }

    /// A display name for the setting.
    pub fn display_name(&self) -> (r: String)
        ensures
            r@ == self.label(),
    {
        match self {
            Self::First => String::from_str("1st (360°)"),
            Self::Second => String::from_str("2nd (180°)"),
            Self::Fourth => String::from_str("4th (90°)"),
            Self::Eighth => String::from_str("8th (45°)"),
            Self::Sixteenth => String::from_str("16th (22.5°)"),
            Self::Custom(_) => {
                let n: u32 = self.to_number() as u32;
                let q: u32 = 3600 / n;
                let rem: u32 = 3600 % n;
                let tenths: u32 = if 2 * rem > n || (2 * rem == n && q % 2 == 1) {
                    q + 1
                } else {
                    q
                };
                assert(tenths as int == span_tenths(n as int));
                let mut s = String::new();
                push_decimal(&mut s, n);
                push_char(&mut s, 't');
                push_char(&mut s, 'h');
                push_char(&mut s, ' ');
                push_char(&mut s, '(');
                push_decimal(&mut s, tenths / 10);
                push_char(&mut s, '.');
                push_char(&mut s, digit(tenths % 10));
                push_char(&mut s, '°');
                push_char(&mut s, ')');
                assert(s@ =~= custom_label(n as int));
                s
            },
        }
    }
}

impl Default for Harmonic {
    fn default() -> (r: Self)
        ensures
            r == Harmonic::First,
    {
        Harmonic::First
    }
}

/// The position of a base angle on the dial of a harmonic: the angle times
/// the harmonic number, wrapped into one turn.
pub fn calculate_harmonic_position(position: i64, harmonic: Harmonic) -> (r: i64)
    ensures
        r == normalized(position as int * harmonic.number()),
        0 <= r < 1_296_000,
{
    let n: i64 = harmonic.to_number() as i64;
    let base: i64 = normalize_degrees(position);
    proof {
        lemma_mul_mod_noop_left(position as int, n as int, 1_296_000);
    }
    assert(0 <= base * n <= 1_296_000 * 255) by (nonlinear_arith)
        requires
            0 <= base < 1_296_000,
            1 <= n <= 255,
    ;
    normalize_degrees(base * n)
}

/// The base angle of a position on the dial of a harmonic: the angle over the
/// harmonic number, rounded to the nearest arcsecond and wrapped into one turn.
pub fn calculate_original_position(harmonic_position: i64, harmonic: Harmonic) -> (r: i64)
    ensures
        r == normalized(round_div(harmonic_position as int, harmonic.number())),
        0 <= r < 1_296_000,
{
    let n: i64 = harmonic.to_number() as i64;
    normalize_degrees(rounded_quotient(harmonic_position, n))
}

/// Converts an angle to its equivalent in a harmonic given by number.
/// Harmonics up to one leave the angle as it is.
pub fn to_harmonic_angle(angle: i64, harmonic: u8) -> (r: i64)
    ensures
        harmonic <= 1 ==> r == angle,
        harmonic > 1 ==> r == normalized(angle as int * harmonic as int),
{
    if harmonic <= 1 {
        return angle;
    }
    calculate_harmonic_position(angle, Harmonic::Custom(harmonic))
}

/// Converts a harmonic angle back to the base angle.
/// Harmonics up to one leave the angle as it is.
pub fn from_harmonic_angle(harmonic_angle: i64, harmonic: u8) -> (r: i64)
    ensures
        harmonic <= 1 ==> r == harmonic_angle,
        harmonic > 1 ==> r == normalized(round_div(harmonic_angle as int, harmonic as int)),
{
    if harmonic <= 1 {
        return harmonic_angle;
    }
    calculate_original_position(harmonic_angle, Harmonic::Custom(harmonic))
}

/// A setting and its number determine each other up to naming: the number of
/// the setting that a number selects is that number, zero counting as one,
/// and selecting by a setting's own number keeps the number.
pub proof fn lemma_number_round_trip(num: u8, harmonic: Harmonic)
    ensures
        Harmonic::of(num).number() == (if num == 0 {
            1
        } else {
            num as int
        }),
        1 <= harmonic.number() <= 255,
        Harmonic::of(harmonic.number() as u8).number() == harmonic.number(),
{
}

/// On the first harmonic the harmonic position of an angle is the angle
/// itself, normalized, and so is the base angle recovered from it.
pub proof fn lemma_first_harmonic_is_identity(angle: int)
    ensures
        normalized(angle * Harmonic::First.number()) == normalized(angle),
        normalized(round_div(angle, Harmonic::First.number())) == normalized(angle),
{
    lemma_fundamental_div_mod_converse(2 * angle + 1, 2, angle, 1);
}

/// Going to a harmonic and back recovers a base angle that lies within the
/// harmonic's first division, when it is a whole number of arcseconds there.
pub proof fn lemma_harmonic_round_trip(angle: int, harmonic: Harmonic)
    requires
        0 <= angle,
        angle * harmonic.number() < 1_296_000,
    ensures
        normalized(round_div(normalized(angle * harmonic.number()), harmonic.number()))
            == angle,
{
    let n = harmonic.number();
    assert(0 <= angle * n) by (nonlinear_arith)
        requires
            0 <= angle,
            n >= 1,
    ;
    assert(angle <= angle * n) by (nonlinear_arith)
        requires
            0 <= angle,
            n >= 1,
    ;
    lemma_small_mod((angle * n) as nat, 1_296_000);
    assert(2 * (angle * n) + n == (2 * n) * angle + n) by (nonlinear_arith);
    lemma_fundamental_div_mod_converse(2 * (angle * n) + n, 2 * n, angle, n);
    lemma_small_mod(angle as nat, 1_296_000);
}

} // verus!

//! Angular positions held exactly as degrees, minutes and seconds.

use vstd::prelude::*;
use vstd::arithmetic::div_mod::*;
use crate::math::{
    lemma_normalize_periodic, lemma_round_div_bounds, normalize_degrees, normalized, round_div,
    rounded_quotient, short_way, shortest_delta,
};
use crate::text::{decimal, push_char, push_decimal, push_two_digits, two_digits};

verus! {

/// An angular position in degrees, minutes and seconds of arc.
///
/// A position is always normalized: fewer than 360 degrees, fewer than
/// 60 minutes and fewer than 60 seconds.
#[derive(Debug, Clone, Copy, PartialEq, Eq, Structural)]
pub struct DegreePosition {
    degrees: u16,
    minutes: u8,
    seconds: u8,
}

/// The angle reached from `start` after the fraction `numer / denom` of the
/// short way towards `end`, rounded to the nearest arcsecond.
pub open spec fn interpolated(start: int, end: int, numer: int, denom: int) -> int
    recommends
        denom > 0,
{
    round_div(start * denom + short_way(end - start) * numer, denom)
}

/// How a position is written: degrees unpadded, minutes on two digits,
/// seconds on two digits and only when they are not zero.
pub open spec fn formatted(degrees: nat, minutes: nat, seconds: nat) -> Seq<char> {
    let head = decimal(degrees).push('°') + two_digits(minutes).push('\'');
    if seconds == 0 {
        head
    } else {
        head + two_digits(seconds).push('"')
    }
}

impl DegreePosition {
    /// Every field is below its modulus.
    #[verifier::type_invariant]
    pub closed spec fn wf(self) -> bool {
        self.degrees < 360 && self.minutes < 60 && self.seconds < 60
    }

    /// The whole position in arcseconds.
    pub closed spec fn arcseconds(self) -> int {
        self.degrees as int * 3600 + self.minutes as int * 60 + self.seconds as int
    }

    /// The degrees field.
    pub closed spec fn spec_degrees(&self) -> u16 {
        self.degrees
    }

    /// The minutes field.
    pub closed spec fn spec_minutes(&self) -> u8 {
        self.minutes
    }

    /// The seconds field.
    pub closed spec fn spec_seconds(&self) -> u8 {
        self.seconds
    }

    /// The position that lies `total` arcseconds round the circle from zero.
    pub closed spec fn at(total: int) -> DegreePosition {
        let n = normalized(total);
        DegreePosition {
            degrees: (n / 3600) as u16,
            minutes: ((n / 60) % 60) as u8,
            seconds: (n % 60) as u8,
        }
    }

    /// Creates a position from a raw triple. Seconds from 60 on carry into the
    /// minutes, minutes from 60 on into the degrees, and the degrees wrap at 360.
    pub fn new(degrees: u16, minutes: u8, seconds: u8) -> (r: Self)
        ensures
            r.wf(),
            r == Self::at(degrees as int * 3600 + minutes as int * 60 + seconds as int),
            r.arcseconds() == normalized(
                degrees as int * 3600 + minutes as int * 60 + seconds as int,
            ),
    {
        let carried_minutes: u16 = minutes as u16 + (seconds / 60) as u16;
        let total_seconds: u8 = seconds % 60;
        let carried_degrees: u32 = degrees as u32 + (carried_minutes / 60) as u32;
        let total_minutes: u8 = (carried_minutes % 60) as u8;
        let total_degrees: u16 = (carried_degrees % 360) as u16;
        proof {
            let total = degrees as int * 3600 + minutes as int * 60 + seconds as int;
            Self::lemma_at(total);
            lemma_fundamental_div_mod_converse(
                total,
                1_296_000,
                carried_degrees as int / 360,
                total_degrees as int * 3600 + total_minutes as int * 60 + total_seconds as int,
            );
        }
        Self { degrees: total_degrees, minutes: total_minutes, seconds: total_seconds }
    }

    /// Creates the position of a total angle in arcseconds, which may be
    /// negative or exceed a full turn.
    pub fn from_degrees(total: i64) -> (r: Self)
        ensures
            r.wf(),
            r == Self::at(total as int),
            r.arcseconds() == normalized(total as int),
    {
        let n: i64 = normalize_degrees(total);
        let degrees: u16 = (n / 3600) as u16;
        let minutes: u8 = ((n % 3600) / 60) as u8;
        let seconds: u8 = (n % 60) as u8;
        proof {
            Self::lemma_at(total as int);
        }
        Self { degrees, minutes, seconds }
    }

    /// The whole position as one angle in arcseconds.
    pub fn to_degrees(&self) -> (r: i64)
        ensures
            r == self.arcseconds(),
            0 <= r < 1_296_000,
    {
        proof {
            use_type_invariant(self);
        }
        self.degrees as i64 * 3600 + self.minutes as i64 * 60 + self.seconds as i64
    }

    /// Writes the position as `D°MM'SS"`, leaving the seconds out when they
    /// are zero.
    pub fn format(&self) -> (r: String)
        ensures
            r@ == formatted(
                self.spec_degrees() as nat,
                self.spec_minutes() as nat,
                self.spec_seconds() as nat,
            ),
    {
        let mut s = String::new();
        push_decimal(&mut s, self.degrees as u32);
        push_char(&mut s, '°');
        push_two_digits(&mut s, self.minutes as u32);
        push_char(&mut s, '\'');
        if self.seconds != 0 {
            push_two_digits(&mut s, self.seconds as u32);
            push_char(&mut s, '"');
        }
        assert(s@ =~= formatted(self.degrees as nat, self.minutes as nat, self.seconds as nat));
        s
    }

    /// The sum of two positions, wrapped into one turn.
    pub fn add(&self, other: DegreePosition) -> (r: Self)
        ensures
            r.wf(),
            r == Self::at(self.arcseconds() + other.arcseconds()),
            r.arcseconds() == normalized(self.arcseconds() + other.arcseconds()),
    {
        Self::from_degrees(self.to_degrees() + other.to_degrees())
    }

    /// The difference of two positions, wrapped into one turn.
    pub fn subtract(&self, other: DegreePosition) -> (r: Self)
        ensures
            r.wf(),
            r == Self::at(self.arcseconds() - other.arcseconds()),
            r.arcseconds() == normalized(self.arcseconds() - other.arcseconds()),
    {
        Self::from_degrees(self.to_degrees() - other.to_degrees())
    }

    /// The position the fraction `numer / denom` of the way from this one to
    /// `other`, going the short way round the circle and rounding to the
    /// nearest arcsecond.
    pub fn interpolate(&self, other: DegreePosition, numer: u32, denom: u32) -> (r: Self)
        requires
            denom > 0,
        ensures
            r.wf(),
            r == Self::at(
                interpolated(self.arcseconds(), other.arcseconds(), numer as int, denom as int),
            ),
            r.arcseconds() == normalized(
                interpolated(self.arcseconds(), other.arcseconds(), numer as int, denom as int),
            ),
    {
        let start: i64 = self.to_degrees();
        let end: i64 = other.to_degrees();
        let diff: i64 = shortest_delta(end - start);
        assert(0 <= start * (denom as i64) <= 1_296_000 * 0xffff_ffff) by (nonlinear_arith)
            requires
                0 <= start < 1_296_000,
                0 < denom <= 0xffff_ffff,
        ;
        assert(-648_000 * 0xffff_ffff <= diff * (numer as i64) <= 648_000 * 0xffff_ffff)
            by (nonlinear_arith)
            requires
                -648_000 <= diff <= 648_000,
                0 <= numer <= 0xffff_ffff,
        ;
        let scaled: i64 = start * (denom as i64) + diff * (numer as i64);
        Self::from_degrees(rounded_quotient(scaled, denom as i64))
    }

    /// The degrees, in `[0, 360)`.
    #[verifier::when_used_as_spec(spec_degrees)]
    pub fn degrees(&self) -> (r: u16)
        ensures
            r == self.spec_degrees(),
            r < 360,
            r as int == self.arcseconds() / 3600,
    {
        proof {
            use_type_invariant(self);
        }
        self.degrees
    }

    /// The minutes, in `[0, 60)`.
    #[verifier::when_used_as_spec(spec_minutes)]
    pub fn minutes(&self) -> (r: u8)
        ensures
            r == self.spec_minutes(),
            r < 60,
            r as int == (self.arcseconds() / 60) % 60,
    {
        proof {
            use_type_invariant(self);
        }
        self.minutes
    }

    /// The seconds, in `[0, 60)`.
    #[verifier::when_used_as_spec(spec_seconds)]
    pub fn seconds(&self) -> (r: u8)
        ensures
            r == self.spec_seconds(),
            r < 60,
            r as int == self.arcseconds() % 60,
    {
        proof {
            use_type_invariant(self);
        }
        self.seconds
    }

    /// The position at a total angle is well formed, holds that angle
    /// normalized, and splits it into its three fields.
    pub proof fn lemma_at(total: int)
        ensures
            Self::at(total).wf(),
            Self::at(total).arcseconds() == normalized(total),
            Self::at(total).spec_degrees() == normalized(total) / 3600,
            Self::at(total).spec_minutes() == (normalized(total) / 60) % 60,
            Self::at(total).spec_seconds() == normalized(total) % 60,
    {
    }

    /// A well-formed position is fixed by its angle: its fields are that
    /// angle's quotients and remainders, and it is the position at that angle.
    pub proof fn lemma_fields(self)
        requires
            self.wf(),
        ensures
            0 <= self.arcseconds() < 1_296_000,
            self.spec_degrees() == self.arcseconds() / 3600,
            self.spec_minutes() == (self.arcseconds() / 60) % 60,
            self.spec_seconds() == self.arcseconds() % 60,
            Self::at(self.arcseconds()) == self,
    {
    }

    /// Round trip: the position made from a total angle gives back that angle
    /// normalized, and a position's own angle makes the same position again.
    pub proof fn lemma_round_trip(total: int, position: DegreePosition)
        requires
            position.wf(),
        ensures
            Self::at(total).arcseconds() == normalized(total),
            Self::at(position.arcseconds()) == position,
    {
        Self::lemma_at(total);
        position.lemma_fields();
    }

    /// For every factor from zero to one the interpolated angle lies on the
    /// short way between the two angles: on the same side of the start as the
    /// end, and no further from the start than the end is.
    pub proof fn lemma_interpolate_between(start: int, end: int, numer: int, denom: int)
        requires
            0 <= numer <= denom,
            denom > 0,
        ensures
            short_way(end - start) >= 0 ==> 0 <= interpolated(start, end, numer, denom) - start
                <= short_way(end - start),
            short_way(end - start) < 0 ==> short_way(end - start) <= interpolated(
                start,
                end,
                numer,
                denom,
            ) - start <= 0,
    {
        let way = short_way(end - start);
        let part = way * numer;
        let q = interpolated(start, end, numer, denom);
        let travelled = q - start;
        lemma_round_div_bounds(start * denom + part, denom);
        assert(2 * denom * travelled <= 2 * part + denom < 2 * denom * travelled + 2 * denom)
            by (nonlinear_arith)
            requires
                travelled == q - start,
                2 * denom * q <= 2 * (start * denom + part) + denom < 2 * denom * q + 2 * denom,
        ;
        if way >= 0 {
            assert(0 <= part <= way * denom) by (nonlinear_arith)
                requires
                    part == way * numer,
                    way >= 0,
                    0 <= numer <= denom,
            ;
            assert(0 <= travelled <= way) by (nonlinear_arith)
                requires
                    denom > 0,
                    0 <= part <= way * denom,
                    2 * denom * travelled <= 2 * part + denom < 2 * denom * travelled + 2 * denom,
            ;
        } else {
            assert(way * denom <= part <= 0) by (nonlinear_arith)
                requires
                    part == way * numer,
                    way < 0,
                    0 <= numer <= denom,
            ;
            assert(way <= travelled <= 0) by (nonlinear_arith)
                requires
                    denom > 0,
                    way * denom <= part <= 0,
                    2 * denom * travelled <= 2 * part + denom < 2 * denom * travelled + 2 * denom,
            ;
        }
    }

    /// Interpolation takes the short way: the distance travelled at full
    /// factor never exceeds half a turn, and a zero factor stays in place.
    pub proof fn lemma_interpolate_short_way(start: DegreePosition, end: DegreePosition)
        requires
            start.wf(),
            end.wf(),
        ensures
            -648_000 <= short_way(end.arcseconds() - start.arcseconds()) <= 648_000,
            normalized(short_way(end.arcseconds() - start.arcseconds())) == normalized(
                end.arcseconds() - start.arcseconds(),
            ),
            interpolated(start.arcseconds(), end.arcseconds(), 0, 1) == start.arcseconds(),
            Self::at(interpolated(start.arcseconds(), end.arcseconds(), 1, 1)) == end,
    {
        start.lemma_fields();
        end.lemma_fields();
        let raw = end.arcseconds() - start.arcseconds();
        if raw > 648_000 {
            lemma_normalize_periodic(raw, -1);
        } else if raw < -648_000 {
            lemma_normalize_periodic(raw, 1);
        }
        let full = start.arcseconds() + short_way(raw);
        assert(interpolated(start.arcseconds(), end.arcseconds(), 1, 1) == full);
        assert(interpolated(start.arcseconds(), end.arcseconds(), 0, 1) == start.arcseconds());
        if raw > 648_000 {
            lemma_normalize_periodic(end.arcseconds(), -1);
        } else if raw < -648_000 {
            lemma_normalize_periodic(end.arcseconds(), 1);
        }
        lemma_small_mod(end.arcseconds() as nat, 1_296_000);
    }
}

} // verus!

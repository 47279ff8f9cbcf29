//! Angle representation in D°M'S" (sexagesimal format).
//!
//! Seconds are held in nano-arcseconds and decimal degrees in nanodegrees,
//! so one nanodegree is exactly 3600 nano-arcseconds and every conversion
//! below is exact integer arithmetic.
use vstd::prelude::*;
use vstd::string::StringExecFns;
use crate::text::{decimal, fixed_point, push_decimal, push_fixed_point};
use vstd::arithmetic::div_mod::{
    lemma_fundamental_div_mod,
    lemma_fundamental_div_mod_converse,
    lemma_small_mod,
};
use crate::cardinal::{
    Cardinal,
    is_latitude_axis,
    is_longitude_axis,
    abbreviation_of,
    is_southern_spec,
    is_western_spec,
};

verus! {

/// Nano-arcseconds in one second of arc.
pub const NANOS_PER_SECOND: u64 = 1_000_000_000;

/// Nano-arcseconds in one minute of arc.
pub const NANOS_PER_MINUTE: u64 = 60_000_000_000;

/// Nano-arcseconds in one degree.
pub const NANOS_PER_DEGREE: u64 = 3_600_000_000_000;

/// Nano-arcseconds in a full turn of 360°.
pub const NANOS_PER_TURN: u64 = 1_296_000_000_000_000;

/// Nanodegrees in one degree.
pub const NANODEGREES_PER_DEGREE: u64 = 1_000_000_000;

/// Nano-arcseconds in one nanodegree.
pub const NANOS_PER_NANODEGREE: u64 = 3600;

/// Angle expressed as `D°M'S"`, in Degrees D°, Minutes M' and Seconds S"
/// with their fractional part, with an optional Cardinal.
/// When a cardinal is associated to this angle, it represents either a
/// Latitude or a Longitude angle.
#[derive(PartialEq, Eq, Structural, Copy, Clone, Debug)]
pub struct DMS {
    /// Degrees D°
    pub degrees: u16,
    /// Minutes M'
    pub minutes: u8,
    /// Seconds S" with their fractional part, in nano-arcseconds
    pub nanos: u64,
    /// Optional cardinal associated to this angle
    pub cardinal: Option<Cardinal>,
}

/// Errors of the arithmetic on angles.
#[derive(PartialEq, Eq, Structural, Debug, Copy, Clone)]
pub enum OpsError {
    /// Both angles carry a cardinal, and these mark different kinds of
    /// coordinate.
    IncompatibleCardinals,
}

/// Usual precision scales of an angle.
#[derive(Debug, Copy, Clone)]
pub enum Scale {
    /// Countries scale is 1°0'0"
    Country,
    /// Large cities scale is 0°6'0"
    LargeCity,
    /// Cities scale is 0°0'36"
    City,
    /// Neighborhood, streets scale is 0°0'3.6"
    Neighborhood,
    /// Single street / large buildings scale is 0°0'0.360"
    Street,
    /// Trees / small buildings scale is 0.036"
    Tree,
    /// Human / single individual scale is 3.6E-3"
    Human,
    /// Roughly precise scale, used in commercial devices, is 360E-6"
    RoughSurveying,
    /// Extremely precise scale, used in tectonic plate mapping for instance, is 36E-6"
    PreciseSurveying,
}

pub open spec fn abs(x: int) -> int {
    if x < 0 {
        -x
    } else {
        x
    }
}

/// The angle in nano-arcseconds: `degrees*3600 + minutes*60 + seconds`.
pub open spec fn total_nanos(d: DMS) -> int {
    d.degrees * NANOS_PER_DEGREE + d.minutes * NANOS_PER_MINUTE + d.nanos
}

/// A southern or western cardinal gives its angle a negative sign.
pub open spec fn is_negative(c: Option<Cardinal>) -> bool {
    match c {
        Some(c) => is_southern_spec(c) || is_western_spec(c),
        None => false,
    }
}

/// The angle in nano-arcseconds, signed by its cardinal.
pub open spec fn signed_nanos(d: DMS) -> int {
    if is_negative(d.cardinal) {
        -total_nanos(d)
    } else {
        total_nanos(d)
    }
}

/// The angle in decimal degrees, counted in nanodegrees (any part below a
/// nanodegree dropped), signed by its cardinal.
pub open spec fn ddeg_of(d: DMS) -> int {
    if is_negative(d.cardinal) {
        -(total_nanos(d) / NANOS_PER_NANODEGREE as int)
    } else {
        total_nanos(d) / NANOS_PER_NANODEGREE as int
    }
}

/// Splits `m` nano-arcseconds into whole degrees, whole minutes and the
/// remaining seconds.
pub open spec fn split(m: int, cardinal: Option<Cardinal>) -> DMS {
    DMS {
        degrees: (m / NANOS_PER_DEGREE as int) as u16,
        minutes: ((m % NANOS_PER_DEGREE as int) / NANOS_PER_MINUTE as int) as u8,
        nanos: ((m % NANOS_PER_DEGREE as int) % NANOS_PER_MINUTE as int) as u64,
        cardinal,
    }
}

/// A total of `t` nano-arcseconds, wrapped into one turn, without cardinal.
pub open spec fn from_seconds_spec(t: int) -> DMS {
    split(t % NANOS_PER_TURN as int, None)
}

/// A latitude of `s` signed nano-arcseconds: degrees taken modulo 90,
/// South when negative, North otherwise.
pub open spec fn latitude_spec(s: int) -> DMS {
    split(
        abs(s) % (90 * NANOS_PER_DEGREE) as int,
        Some(if s < 0 { Cardinal::South } else { Cardinal::North }),
    )
}

/// A longitude of `s` signed nano-arcseconds: degrees taken modulo 180,
/// West when negative, East otherwise.
pub open spec fn longitude_spec(s: int) -> DMS {
    split(
        abs(s) % (180 * NANOS_PER_DEGREE) as int,
        Some(if s < 0 { Cardinal::West } else { Cardinal::East }),
    )
}

pub open spec fn with_cardinal_spec(d: DMS, c: Option<Cardinal>) -> DMS {
    DMS { degrees: d.degrees, minutes: d.minutes, nanos: d.nanos, cardinal: c }
}

/// The angle of `s` signed nano-arcseconds, rebuilt as a latitude when
/// `c` is North or South, as a longitude otherwise.
pub open spec fn on_axis(c: Cardinal, s: int) -> DMS {
    if is_latitude_axis(c) {
        latitude_spec(s)
    } else {
        longitude_spec(s)
    }
}

/// Sum of two angles. Two cardinals must mark the same kind of coordinate,
/// and the signed sum is rebuilt on that axis; when either angle has no
/// cardinal, the total seconds are added and the result has none.
pub open spec fn sum_spec(a: DMS, b: DMS) -> Result<DMS, OpsError> {
    match (a.cardinal, b.cardinal) {
        (Some(c0), Some(c1)) => {
            if is_latitude_axis(c0) && is_latitude_axis(c1) {
                Ok(latitude_spec(signed_nanos(a) + signed_nanos(b)))
            } else if is_longitude_axis(c0) && is_longitude_axis(c1) {
                Ok(longitude_spec(signed_nanos(a) + signed_nanos(b)))
            } else {
                Err(OpsError::IncompatibleCardinals)
            }
        },
        _ => Ok(from_seconds_spec(total_nanos(a) + total_nanos(b))),
    }
}

/// `d` moved by `amount`: nanodegrees added to the signed angle when `d`
/// has a cardinal, nano-arcseconds added to its total seconds otherwise.
pub open spec fn offset_spec(d: DMS, amount: int) -> DMS {
    match d.cardinal {
        Some(c) => on_axis(c, signed_nanos(d) + amount * NANOS_PER_NANODEGREE),
        None => from_seconds_spec(total_nanos(d) + amount),
    }
}

/// `d` scaled by `factor`, on its axis when it has a cardinal.
pub open spec fn scale_spec(d: DMS, factor: int) -> DMS {
    match d.cardinal {
        Some(c) => on_axis(c, signed_nanos(d) * factor),
        None => from_seconds_spec(total_nanos(d) * factor),
    }
}

/// Quotient of `a` by `b`, rounded toward zero.
pub open spec fn quotient(a: int, b: int) -> int {
    if (a < 0) == (b < 0) {
        abs(a) / abs(b)
    } else {
        -(abs(a) / abs(b))
    }
}

/// `d` divided by `divisor`, on its axis when it has a cardinal.
pub open spec fn divide_spec(d: DMS, divisor: int) -> DMS {
    match d.cardinal {
        Some(c) => on_axis(c, quotient(signed_nanos(d), divisor)),
        None => from_seconds_spec(quotient(total_nanos(d), divisor)),
    }
}

/// Shift from WGS84 to ED50 applied to a latitude: 3.6" North.
pub const EUROPE50_LATITUDE_SHIFT: u64 = 3_600_000_000;

/// Shift from WGS84 to ED50 applied to a longitude: 2.4" East.
pub const EUROPE50_LONGITUDE_SHIFT: u64 = 2_400_000_000;

/// The ED50 form of `d`: a latitude moves 3.6" North and a longitude 2.4"
/// East; an angle with a diagonal cardinal cannot take the longitude shift;
/// an angle without cardinal stays as it is.
pub open spec fn europe50_spec(d: DMS) -> Result<DMS, OpsError> {
    match d.cardinal {
        Some(c) => {
            if is_latitude_axis(c) {
                Ok(latitude_spec(signed_nanos(d) + EUROPE50_LATITUDE_SHIFT))
            } else if is_longitude_axis(c) {
                Ok(longitude_spec(signed_nanos(d) + EUROPE50_LONGITUDE_SHIFT))
            } else {
                Err(OpsError::IncompatibleCardinals)
            }
        },
        None => Ok(d),
    }
}

/// Whole seconds of the angle, the fraction dropped.
pub open spec fn whole_seconds(d: DMS) -> int {
    total_nanos(d) / NANOS_PER_SECOND as int
}

pub open spec fn at_most(x: int, max: int) -> int {
    if x > max {
        max
    } else {
        x
    }
}

/// Text of an angle: `D°M'S"` followed by the cardinal's abbreviation, if
/// any; the seconds show their fraction without trailing zeros.
pub open spec fn dms_text(d: DMS) -> Seq<char> {
    decimal(d.degrees as nat) + seq!['°'] + decimal(d.minutes as nat) + seq!['\''] + fixed_point(
        (d.nanos / NANOS_PER_SECOND) as nat,
        (d.nanos % NANOS_PER_SECOND) as nat,
        9,
    ) + seq!['"'] + match d.cardinal {
        Some(c) => abbreviation_of(c),
        None => Seq::empty(),
    }
}

/// The magnitude of `x`.
fn magnitude(x: i128) -> (r: u128)
    ensures
        r as int == abs(x as int),
{
    if x >= 0 {
        x as u128
    } else {
        (-(x + 1)) as u128 + 1
    }
}

/// `t` modulo one turn, always in `[0, NANOS_PER_TURN)`.
fn wrap_turn(t: i128) -> (r: u128)
    ensures
        r as int == (t as int) % (NANOS_PER_TURN as int),
{
    let turn: u128 = NANOS_PER_TURN as u128;
    if t >= 0 {
        (t as u128) % turn
    } else {
        let m: u128 = (-(t + 1)) as u128;
        let r0: u128 = m % turn;
        proof {
            let c = NANOS_PER_TURN as int;
            lemma_fundamental_div_mod(m as int, c);
            let q = (m as int) / c;
            assert((t as int) == (-q - 1) * c + (c - 1 - r0 as int)) by (nonlinear_arith)
                requires
                    m as int == c * q + r0 as int,
                    t as int == -(m as int) - 1,
            ;
            lemma_fundamental_div_mod_converse(t as int, c, -q - 1, c - 1 - r0 as int);
        }
        turn - 1 - r0
    }
}

/// Splits `m` nano-arcseconds into degrees, minutes and seconds.
fn split_nanos(m: u128, cardinal: Option<Cardinal>) -> (r: DMS)
    requires
        m < 65536 * NANOS_PER_DEGREE,
    ensures
        r == split(m as int, cardinal),
        r.minutes < 60,
        r.nanos < NANOS_PER_MINUTE,
{
    let rem: u128 = m % (NANOS_PER_DEGREE as u128);
    DMS {
        degrees: (m / (NANOS_PER_DEGREE as u128)) as u16,
        minutes: (rem / (NANOS_PER_MINUTE as u128)) as u8,
        nanos: (rem % (NANOS_PER_MINUTE as u128)) as u64,
        cardinal,
    }
}

/// `degrees*3600 + minutes*60 + seconds`, in nano-arcseconds.
fn compose(degrees: u16, minutes: u8, nanos: u64) -> (r: u128)
    ensures
        r as int == degrees * NANOS_PER_DEGREE + minutes * NANOS_PER_MINUTE + nanos,
        r < 0x2_0000_0000_0000_0000,
{
    assert(degrees * NANOS_PER_DEGREE <= 65535 * NANOS_PER_DEGREE) by (nonlinear_arith)
        requires
            degrees <= 65535,
    ;
    assert(minutes * NANOS_PER_MINUTE <= 255 * NANOS_PER_MINUTE) by (nonlinear_arith)
        requires
            minutes <= 255,
    ;
    degrees as u128 * (NANOS_PER_DEGREE as u128) + minutes as u128 * (NANOS_PER_MINUTE as u128)
        + nanos as u128
}

/// The latitude of `s` signed nano-arcseconds.
fn latitude_from_nanos(s: i128) -> (r: DMS)
    ensures
        r == latitude_spec(s as int),
        r.degrees < 90,
{
    let m: u128 = magnitude(s) % (90 * NANOS_PER_DEGREE as u128);
    let cardinal = if s < 0 {
        Cardinal::South
    } else {
        Cardinal::North
    };
    split_nanos(m, Some(cardinal))
}

/// The longitude of `s` signed nano-arcseconds.
fn longitude_from_nanos(s: i128) -> (r: DMS)
    ensures
        r == longitude_spec(s as int),
        r.degrees < 180,
{
    let m: u128 = magnitude(s) % (180 * NANOS_PER_DEGREE as u128);
    let cardinal = if s < 0 {
        Cardinal::West
    } else {
        Cardinal::East
    };
    split_nanos(m, Some(cardinal))
}

/// The angle of `s` signed nano-arcseconds on the axis of `c`.
fn on_axis_nanos(c: Cardinal, s: i128) -> (r: DMS)
    ensures
        r == on_axis(c, s as int),
{
    if c.is_latitude() {
        latitude_from_nanos(s)
    } else {
        longitude_from_nanos(s)
    }
}

/// `angle` nanodegrees in nano-arcseconds.
fn nanodegrees_to_nanos(angle: i64) -> (r: i128)
    ensures
        r as int == angle * NANOS_PER_NANODEGREE,
        abs(r as int) < 0x8000_0000_0000_0000 * 4096,
{
    assert(abs(angle * 3600) < 0x8000_0000_0000_0000 * 4096) by (nonlinear_arith)
        requires
            -0x8000_0000_0000_0000 <= angle < 0x8000_0000_0000_0000,
    ;
    angle as i128 * (NANOS_PER_NANODEGREE as i128)
}

/// Quotient of `a` by `b`, rounded toward zero.
pub(crate) fn quotient_exec(a: i128, b: i128) -> (r: i128)
    requires
        b != 0,
        abs(a as int) < 0x4000_0000_0000_0000_0000_0000_0000_0000,
    ensures
        r as int == quotient(a as int, b as int),
{
    let ma = magnitude(a);
    let mb = magnitude(b);
    let q: u128 = ma / mb;
    assert(q <= ma) by (nonlinear_arith)
        requires
            mb >= 1,
            q == ma / mb,
    ;
    if (a < 0) == (b < 0) {
        q as i128
    } else {
        -(q as i128)
    }
}

impl core::ops::Add<DMS> for DMS {
    type Output = Result<DMS, OpsError>;

    /// Adds two angles. When both carry a cardinal, these must mark the
    /// same kind of coordinate and the signed sum is rebuilt on that axis;
    /// otherwise the total seconds are added and the result has no
    /// cardinal.
    fn add(self, rhs: DMS) -> (r: Result<DMS, OpsError>)
        ensures
            r == sum_spec(self, rhs),
    {
        match (self.cardinal, rhs.cardinal) {
            (Some(c0), Some(c1)) => {
                let a: i128 = self.signed_seconds() + rhs.signed_seconds();
                if c0.is_latitude() && c1.is_latitude() {
                    Ok(latitude_from_nanos(a))
                } else if c0.is_longitude() && c1.is_longitude() {
                    Ok(longitude_from_nanos(a))
                } else {
                    Err(OpsError::IncompatibleCardinals)
                }
            },
            _ => {
                let t: u128 = self.total_seconds() + rhs.total_seconds();
                Ok(DMS::from_seconds(t as i128))
            },
        }
    }
}

impl vstd::std_specs::ops::AddSpecImpl<DMS> for DMS {
    open spec fn obeys_add_spec() -> bool {
        true
    }

    open spec fn add_req(self, rhs: DMS) -> bool {
        true
    }

    open spec fn add_spec(self, rhs: DMS) -> Result<DMS, OpsError> {
        sum_spec(self, rhs)
    }
}

impl From<DMS> for u64 {
    /// Returns total amount of seconds in the angle, losing the fractional part
    fn from(d: DMS) -> (r: u64)
        ensures
            r as int == whole_seconds(d),
    {
        let t: u128 = d.total_seconds();
        let s: u128 = t / (NANOS_PER_SECOND as u128);
        assert(s < 0x1_0000_0000_0000_0000u128) by (nonlinear_arith)
            requires
                t < 0x2_0000_0000_0000_0000,
                s == t / 1_000_000_000,
        ;
        s as u64
    }
}

impl vstd::std_specs::convert::FromSpecImpl<DMS> for u64 {
    open spec fn obeys_from_spec() -> bool {
        true
    }

    open spec fn from_spec(d: DMS) -> u64 {
        whole_seconds(d) as u64
    }
}

impl From<DMS> for u32 {
    /// Returns total amount of seconds in the angle, losing the fractional
    /// part; saturates at the largest value of the type
    fn from(d: DMS) -> (r: u32)
        ensures
            r as int == at_most(whole_seconds(d), 0xffff_ffff),
    {
        let s: u128 = d.total_seconds() / (NANOS_PER_SECOND as u128);
        if s > 0xffff_ffff {
            0xffff_ffff
        } else {
            s as u32
        }
    }
}

impl vstd::std_specs::convert::FromSpecImpl<DMS> for u32 {
    open spec fn obeys_from_spec() -> bool {
        true
    }

    open spec fn from_spec(d: DMS) -> u32 {
        at_most(whole_seconds(d), 0xffff_ffff) as u32
    }
}

impl From<DMS> for u16 {
    /// Returns total amount of seconds in the angle, losing the fractional
    /// part; saturates at the largest value of the type
    fn from(d: DMS) -> (r: u16)
        ensures
            r as int == at_most(whole_seconds(d), 0xffff),
    {
        let s: u128 = d.total_seconds() / (NANOS_PER_SECOND as u128);
        if s > 0xffff {
            0xffff
        } else {
            s as u16
        }
    }
}

impl vstd::std_specs::convert::FromSpecImpl<DMS> for u16 {
    open spec fn obeys_from_spec() -> bool {
        true
    }

    open spec fn from_spec(d: DMS) -> u16 {
        at_most(whole_seconds(d), 0xffff) as u16
    }
}

impl From<DMS> for u8 {
    /// Returns total amount of seconds in the angle, losing the fractional
    /// part; saturates at the largest value of the type
    fn from(d: DMS) -> (r: u8)
        ensures
            r as int == at_most(whole_seconds(d), 0xff),
    {
        let s: u128 = d.total_seconds() / (NANOS_PER_SECOND as u128);
        if s > 0xff {
            0xff
        } else {
            s as u8
        }
    }
}

impl vstd::std_specs::convert::FromSpecImpl<DMS> for u8 {
    open spec fn obeys_from_spec() -> bool {
        true
    }

    open spec fn from_spec(d: DMS) -> u8 {
        at_most(whole_seconds(d), 0xff) as u8
    }
}

impl Default for DMS {
    /// Builds null angle with no Cardinal associated to it
    fn default() -> (r: Self)
        ensures
            r == (DMS { degrees: 0, minutes: 0, nanos: 0, cardinal: None }),
    {
        DMS { degrees: 0, minutes: 0, nanos: 0, cardinal: None }
    }
}

impl DMS {
    /// Builds `D°M'S"` angle, from given D°, M', S" values, S" counted in
    /// nano-arcseconds. Overflow in any field is carried over and the
    /// degrees wrap modulo 360.
    pub fn new(degrees: u16, minutes: u8, nanos: u64, cardinal: Option<Cardinal>) -> (r: DMS)
        ensures
            r == with_cardinal_spec(
                from_seconds_spec(
                    degrees * NANOS_PER_DEGREE + minutes * NANOS_PER_MINUTE + nanos,
                ),
                cardinal,
            ),
    {
        let total: u128 = compose(degrees, minutes, nanos);
        let d = Self::from_seconds(total as i128);
        match cardinal {
            Some(c) => d.with_cardinal(c),
            None => d,
        }
    }

    /// Builds `D°M'S"` angle from a total of nano-arcseconds, which may be
    /// negative; the result lies within one turn: degrees < 360,
    /// minutes < 60, seconds < 60.
    pub fn from_seconds(nanos: i128) -> (r: Self)
        ensures
            r == from_seconds_spec(nanos as int),
            r.degrees < 360,
            r.minutes < 60,
            r.nanos < NANOS_PER_MINUTE,
    {
        let m = wrap_turn(nanos);
        split_nanos(m, None)
    }

    /// Returns same D°M'S" angle but attaches a cardinal to it.
    /// Useful to make this D°M'S" angle a Latitude or a
    /// Longitude.
    pub fn with_cardinal(&self, cardinal: Cardinal) -> (r: Self)
        ensures
            r == with_cardinal_spec(*self, Some(cardinal)),
    {
        DMS {
            degrees: self.degrees,
            minutes: self.minutes,
            nanos: self.nanos,
            cardinal: Some(cardinal),
        }
    }

    /// Builds D°M'S" angle from given angle expressed in decimal degrees,
    /// counted in nanodegrees, with no cardinal associated to returned
    /// value. The sign is dropped and no modulus is applied to the degrees,
    /// which must fit their field.
    pub fn from_ddeg_angle(angle: i64) -> (r: Self)
        requires
            abs(angle as int) < 65536 * NANODEGREES_PER_DEGREE,
        ensures
            r == split(abs(angle as int) * NANOS_PER_NANODEGREE, None),
    {
        let a: u128 = magnitude(angle as i128);
        let m: u128 = a * (NANOS_PER_NANODEGREE as u128);
        assert(m < 65536 * NANOS_PER_DEGREE) by (nonlinear_arith)
            requires
                a < 65536 * NANODEGREES_PER_DEGREE,
                m == a * 3600,
        ;
        split_nanos(m, None)
    }

    /// Builds Latitude angle, expressed in D°M'S", from given angle
    /// expressed in decimal degrees, counted in nanodegrees: degrees are
    /// taken modulo 90, the cardinal is South for a negative angle and
    /// North otherwise.
    pub fn from_ddeg_latitude(angle: i64) -> (r: Self)
        ensures
            r == latitude_spec(angle * NANOS_PER_NANODEGREE),
    {
        latitude_from_nanos(nanodegrees_to_nanos(angle))
    }

    /// Builds Longitude angle, expressed in D°M'S", from given angle
    /// expressed in decimal degrees, counted in nanodegrees: degrees are
    /// taken modulo 180, the cardinal is West for a negative angle and
    /// East otherwise.
    pub fn from_ddeg_longitude(angle: i64) -> (r: Self)
        ensures
            r == longitude_spec(angle * NANOS_PER_NANODEGREE),
    {
        longitude_from_nanos(nanodegrees_to_nanos(angle))
    }

    /// Adds given angle to Self, both in decimal degrees counted in
    /// nanodegrees; the result is rebuilt as by [DMS::from_ddeg_angle], so
    /// it carries no cardinal.
    pub fn add_ddeg(&mut self, angle: i64)
        requires
            abs(ddeg_of(*old(self)) + angle) < 65536 * NANODEGREES_PER_DEGREE,
        ensures
            *final(self) == split(abs(ddeg_of(*old(self)) + angle) * NANOS_PER_NANODEGREE, None),
    {
        *self = self.with_ddeg_angle(angle);
    }

    /// Returns copy of Self with given angle added, both in decimal degrees
    /// counted in nanodegrees; the result carries no cardinal.
    pub fn with_ddeg_angle(&self, angle: i64) -> (r: Self)
        requires
            abs(ddeg_of(*self) + angle) < 65536 * NANODEGREES_PER_DEGREE,
        ensures
            r == split(abs(ddeg_of(*self) + angle) * NANOS_PER_NANODEGREE, None),
    {
        let sum: i128 = self.to_ddeg_angle() as i128 + angle as i128;
        Self::from_ddeg_angle(sum as i64)
    }

    /// Returns total of seconds (base unit) contained in Self, in
    /// nano-arcseconds.
    pub fn total_seconds(&self) -> (r: u128)
        ensures
            r as int == total_nanos(*self),
            r < 0x2_0000_0000_0000_0000,
    {
        compose(self.degrees, self.minutes, self.nanos)
    }

    /// The angle in nano-arcseconds, negative when the cardinal is southern
    /// or western.
    fn signed_seconds(&self) -> (r: i128)
        ensures
            r as int == signed_nanos(*self),
            abs(r as int) < 0x2_0000_0000_0000_0000,
    {
        let t: u128 = self.total_seconds();
        let negative = match self.cardinal {
            Some(c) => c.is_southern() || c.is_western(),
            None => false,
        };
        if negative {
            -(t as i128)
        } else {
            t as i128
        }
    }

    /// Adds `rhs` to Self in place. On incompatible cardinals Self is left
    /// as it was and the error is returned.
    pub fn add_in_place(&mut self, rhs: DMS) -> (r: Result<(), OpsError>)
        ensures
            match sum_spec(*old(self), rhs) {
                Ok(v) => r is Ok && *final(self) == v,
                Err(e) => r == Err::<(), OpsError>(e) && *final(self) == *old(self),
            },
    {
        match *self + rhs {
            Ok(v) => {
                *self = v;
                Ok(())
            },
            Err(e) => Err(e),
        }
    }

    /// Returns Self moved by `amount`: when a cardinal is associated,
    /// `amount` is in nanodegrees, added to the signed angle, and the
    /// result is rebuilt on the same axis; otherwise `amount` is in
    /// nano-arcseconds, added to the total seconds.
    pub fn offset(&self, amount: i64) -> (r: DMS)
        ensures
            r == offset_spec(*self, amount as int),
    {
        match self.cardinal {
            Some(c) => on_axis_nanos(c, self.signed_seconds() + nanodegrees_to_nanos(amount)),
            None => DMS::from_seconds(self.total_seconds() as i128 + amount as i128),
        }
    }

    /// Moves Self by `amount`, as [DMS::offset] does.
    pub fn offset_in_place(&mut self, amount: i64)
        ensures
            *final(self) == offset_spec(*old(self), amount as int),
    {
        *self = self.offset(amount);
    }

    /// Returns Self moved back by `amount`, in the units of [DMS::offset].
    pub fn subtract(&self, amount: i64) -> (r: DMS)
        ensures
            r == offset_spec(*self, -amount),
    {
        match self.cardinal {
            Some(c) => {
                let shift = nanodegrees_to_nanos(amount);
                assert((-amount) * NANOS_PER_NANODEGREE == -(shift as int));
                on_axis_nanos(c, self.signed_seconds() - shift)
            },
            None => DMS::from_seconds(self.total_seconds() as i128 - amount as i128),
        }
    }

    /// Moves Self back by `amount`, as [DMS::subtract] does.
    pub fn subtract_in_place(&mut self, amount: i64)
        ensures
            *final(self) == offset_spec(*old(self), -amount),
    {
        *self = self.subtract(amount);
    }

    /// Returns Self multiplied by `factor`, on its axis when a cardinal is
    /// associated.
    pub fn scale(&self, factor: i32) -> (r: DMS)
        ensures
            r == scale_spec(*self, factor as int),
    {
        match self.cardinal {
            Some(c) => {
                let s = self.signed_seconds();
                assert(abs(s * factor) < 0x2_0000_0000_0000_0000 * 0x8000_0000) by (nonlinear_arith)
                    requires
                        abs(s as int) < 0x2_0000_0000_0000_0000,
                        abs(factor as int) <= 0x8000_0000,
                ;
                on_axis_nanos(c, s * factor as i128)
            },
            None => {
                let t = self.total_seconds();
                assert(abs(t * factor) < 0x2_0000_0000_0000_0000 * 0x8000_0000) by (nonlinear_arith)
                    requires
                        0 <= t < 0x2_0000_0000_0000_0000,
                        abs(factor as int) <= 0x8000_0000,
                ;
                DMS::from_seconds(t as i128 * factor as i128)
            },
        }
    }

    /// Multiplies Self by `factor`, as [DMS::scale] does.
    pub fn scale_in_place(&mut self, factor: i32)
        ensures
            *final(self) == scale_spec(*old(self), factor as int),
    {
        *self = self.scale(factor);
    }

    /// Returns Self divided by `divisor`, rounded toward zero to the
    /// nano-arcsecond, on its axis when a cardinal is associated.
    pub fn divide(&self, divisor: i32) -> (r: DMS)
        requires
            divisor != 0,
        ensures
            r == divide_spec(*self, divisor as int),
    {
        match self.cardinal {
            Some(c) => on_axis_nanos(c, quotient_exec(self.signed_seconds(), divisor as i128)),
            None => DMS::from_seconds(
                quotient_exec(self.total_seconds() as i128, divisor as i128),
            ),
        }
    }

    /// Divides Self by `divisor`, as [DMS::divide] does.
    pub fn divide_in_place(&mut self, divisor: i32)
        requires
            divisor != 0,
        ensures
            *final(self) == divide_spec(*old(self), divisor as int),
    {
        *self = self.divide(divisor);
    }

    /// Returns D°M'S" angle copy with WGS84 to ED50 conversion applied:
    /// 3.6" North added to a latitude, 2.4" East to a longitude.
    /// Without cardinal this simply returns a copy.
    pub fn to_europe50(&self) -> (r: Result<DMS, OpsError>)
        ensures
            r == europe50_spec(*self),
    {
        match self.cardinal {
            Some(c) => {
                if c.is_latitude() {
                    *self + DMS {
                        degrees: 0,
                        minutes: 0,
                        nanos: EUROPE50_LATITUDE_SHIFT,
                        cardinal: Some(Cardinal::North),
                    }
                } else {
                    *self + DMS {
                        degrees: 0,
                        minutes: 0,
                        nanos: EUROPE50_LONGITUDE_SHIFT,
                        cardinal: Some(Cardinal::East),
                    }
                }
            },
            None => Ok(*self),
        }
    }

    /// Appends the text of Self to `s`.
    pub fn write_text(&self, s: &mut String)
        ensures
            final(s)@ == old(s)@ + dms_text(*self),
    {
        push_decimal(s, self.degrees as u64);
        proof {
            reveal_strlit("°");
            reveal_strlit("'");
            reveal_strlit("\"");
        }
        s.append("°");
        push_decimal(s, self.minutes as u64);
        s.append("'");
        push_fixed_point(s, self.nanos / NANOS_PER_SECOND, self.nanos % NANOS_PER_SECOND, 9);
        s.append("\"");
        let ghost before = s@;
        match self.cardinal {
            Some(c) => s.append(c.abbreviation()),
            None => {
                assert(before + Seq::<char>::empty() =~= before);
            },
        }
        assert(s@ =~= old(s)@ + dms_text(*self));
    }

    /// Text of Self, such as `40°43'50.196"N`.
    pub fn to_string(&self) -> (r: String)
        ensures
            r@ == dms_text(*self),
    {
        let mut s = String::new();
        self.write_text(&mut s);
        assert(Seq::<char>::empty() + dms_text(*self) =~= dms_text(*self));
        s
    }

    /// Returns Self expressed in decimal degrees, counted in nanodegrees.
    /// Negative when the cardinal is southern or western; not negative when
    /// no cardinal is associated.
    pub fn to_ddeg_angle(&self) -> (r: i64)
        ensures
            r as int == ddeg_of(*self),
    {
        let t: u128 = self.total_seconds();
        let d: u128 = t / (NANOS_PER_NANODEGREE as u128);
        assert(d < 0x40_0000_0000_0000u128) by (nonlinear_arith)
            requires
                t < 0x2_0000_0000_0000_0000,
                d == t / 3600,
        ;
        let negative = match self.cardinal {
            Some(c) => c.is_southern() || c.is_western(),
            None => false,
        };
        if negative {
            -(d as i64)
        } else {
            d as i64
        }
    }
}

/// Splitting a count of nano-arcseconds into degrees, minutes and seconds
/// loses nothing.
pub proof fn lemma_split_total(m: int, cardinal: Option<Cardinal>)
    requires
        0 <= m < 65536 * NANOS_PER_DEGREE,
    ensures
        total_nanos(split(m, cardinal)) == m,
        split(m, cardinal).minutes < 60,
        split(m, cardinal).nanos < NANOS_PER_MINUTE,
{
    let npd = NANOS_PER_DEGREE as int;
    let npm = NANOS_PER_MINUTE as int;
    lemma_fundamental_div_mod(m, npd);
    let r = m % npd;
    lemma_fundamental_div_mod(r, npm);
    assert(m / npd < 65536) by (nonlinear_arith)
        requires
            0 <= m < 65536 * npd,
            m == npd * (m / npd) + r,
            0 <= r,
            npd > 0,
    ;
    assert(r / npm < 60) by (nonlinear_arith)
        requires
            0 <= r < npd,
            r == npm * (r / npm) + r % npm,
            0 <= r % npm,
            npd == 60 * npm,
            npm > 0,
    ;
}

/// Normalising a total of seconds keeps it modulo one turn.
pub proof fn lemma_from_seconds_total(t: int)
    ensures
        total_nanos(from_seconds_spec(t)) == t % (NANOS_PER_TURN as int),
{
    let w = t % (NANOS_PER_TURN as int);
    lemma_split_total(w, None);
}

/// A latitude strictly between 90°S and 90°N, in decimal degrees, is
/// given back exactly by its D°M'S" form.
pub proof fn lemma_latitude_round_trip(angle: int)
    requires
        abs(angle) < 90 * NANODEGREES_PER_DEGREE,
    ensures
        ddeg_of(latitude_spec(angle * NANOS_PER_NANODEGREE)) == angle,
{
    let s = angle * NANOS_PER_NANODEGREE;
    let m = abs(angle) * NANOS_PER_NANODEGREE;
    assert(abs(s) == m && 0 <= m < 90 * NANOS_PER_DEGREE) by (nonlinear_arith)
        requires
            s == angle * 3600,
            m == abs(angle) * 3600,
            abs(angle) < 90 * 1_000_000_000,
    ;
    lemma_small_mod(m as nat, (90 * NANOS_PER_DEGREE) as nat);
    lemma_split_total(m, Some(if s < 0 { Cardinal::South } else { Cardinal::North }));
    assert(m / (NANOS_PER_NANODEGREE as int) == abs(angle));
}

/// A longitude strictly between 180°W and 180°E, in decimal degrees, is
/// given back exactly by its D°M'S" form.
pub proof fn lemma_longitude_round_trip(angle: int)
    requires
        abs(angle) < 180 * NANODEGREES_PER_DEGREE,
    ensures
        ddeg_of(longitude_spec(angle * NANOS_PER_NANODEGREE)) == angle,
{
    let s = angle * NANOS_PER_NANODEGREE;
    let m = abs(angle) * NANOS_PER_NANODEGREE;
    assert(abs(s) == m && 0 <= m < 180 * NANOS_PER_DEGREE) by (nonlinear_arith)
        requires
            s == angle * 3600,
            m == abs(angle) * 3600,
            abs(angle) < 180 * 1_000_000_000,
    ;
    lemma_small_mod(m as nat, (180 * NANOS_PER_DEGREE) as nat);
    lemma_split_total(m, Some(if s < 0 { Cardinal::West } else { Cardinal::East }));
    assert(m / (NANOS_PER_NANODEGREE as int) == abs(angle));
}

} // verus!

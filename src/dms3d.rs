//! 3D D°M'S" coordinates: latitude, longitude and an optional altitude.
use vstd::prelude::*;
use vstd::string::StringExecFns;
use crate::text::{fixed_point, push_fixed_point};
use crate::Error;
use crate::cardinal::{Cardinal, is_latitude_axis, is_longitude_axis};
use crate::dms::{
    DMS,
    OpsError,
    abs,
    ddeg_of,
    dms_text,
    europe50_spec,
    latitude_spec,
    longitude_spec,
    quotient,
    quotient_exec,
    sum_spec,
    NANOS_PER_NANODEGREE,
};

verus! {

/// Feet per metre, in millionths.
pub const FEET_PER_METRE_MICRO: u64 = 3_280_840;

/// 3D D°M'S" coordinates, comprises
/// a latitude: D°M'S" angle
/// a longitude: D°M'S" angle
/// and optional altitude
#[derive(PartialEq, Eq, Structural, Copy, Clone, Debug)]
pub struct DMS3d {
    /// Latitude angle in D°M'S", cardinal is mandatory
    pub latitude: DMS,
    /// Longitude angle in D°M'S", cardinal is mandatory
    pub longitude: DMS,
    /// Optional altitude / depth, in millimetres
    pub altitude: Option<i64>,
}

/// Coordinates from a latitude and a longitude: the latitude must carry
/// North or South, the longitude East or West.
pub open spec fn new_spec(latitude: DMS, longitude: DMS, altitude: Option<i64>) -> Result<
    DMS3d,
    Error,
> {
    match (latitude.cardinal, longitude.cardinal) {
        (None, _) => Err(Error::MissingLatitude),
        (Some(c), _) if !is_latitude_axis(c) => Err(Error::InvalidLatitude),
        (_, None) => Err(Error::MissingLongitude),
        (_, Some(c)) if !is_longitude_axis(c) => Err(Error::InvalidLongitude),
        _ => Ok(DMS3d { latitude, longitude, altitude }),
    }
}

/// Thousandths of a foot in millimetres, rounded toward zero.
pub open spec fn millifeet_to_millimetres(millifeet: int) -> int {
    quotient(millifeet * 1_000_000, FEET_PER_METRE_MICRO as int)
}

/// The altitude after adding `amount`; a missing altitude takes the amount.
pub open spec fn raised(altitude: Option<i64>, amount: int) -> int {
    match altitude {
        Some(a) => a + amount,
        None => amount,
    }
}

/// An angle error seen as an error on coordinates.
pub open spec fn position_error(r: Result<DMS, OpsError>) -> Result<DMS, Error> {
    match r {
        Ok(v) => Ok(v),
        Err(_) => Err(Error::IncompatibleCardinals),
    }
}

/// Sum of two coordinates: latitudes and longitudes are added as angles;
/// the altitude of `b` wins when both have one, that of `a` is kept when
/// only `a` has one, and there is none when `a` has none.
pub open spec fn sum3d_spec(a: DMS3d, b: DMS3d) -> Result<DMS3d, Error> {
    match (sum_spec(a.latitude, b.latitude), sum_spec(a.longitude, b.longitude)) {
        (Ok(lat), Ok(lon)) => Ok(
            DMS3d {
                latitude: lat,
                longitude: lon,
                altitude: match (a.altitude, b.altitude) {
                    (Some(_), Some(a1)) => Some(a1),
                    (Some(a0), None) => Some(a0),
                    (None, _) => None,
                },
            },
        ),
        _ => Err(Error::IncompatibleCardinals),
    }
}

/// The ED50 form of coordinates: each angle shifted as a single angle is.
pub open spec fn europe50_3d_spec(d: DMS3d) -> Result<DMS3d, Error> {
    match (europe50_spec(d.latitude), europe50_spec(d.longitude)) {
        (Ok(lat), Ok(lon)) => Ok(DMS3d { latitude: lat, longitude: lon, altitude: d.altitude }),
        _ => Err(Error::IncompatibleCardinals),
    }
}

/// Text of an altitude in metres: a missing altitude shows as 0, a
/// negative one with a leading minus, the fraction without trailing zeros.
pub open spec fn altitude_text(altitude: Option<i64>) -> Seq<char> {
    let mm: int = match altitude {
        Some(a) => a as int,
        None => 0,
    };
    (if mm < 0 {
        seq!['-']
    } else {
        Seq::empty()
    }) + fixed_point((abs(mm) / 1000) as nat, (abs(mm) % 1000) as nat, 3)
}

/// Text of coordinates: `lat: "<angle>"  lon: "<angle>" alt: "<metres>"`.
pub open spec fn dms3d_text(d: DMS3d) -> Seq<char> {
    seq!['l', 'a', 't', ':', ' ', '"'] + dms_text(d.latitude) + seq![
        '"',
        ' ',
        ' ',
        'l',
        'o',
        'n',
        ':',
        ' ',
        '"',
    ] + dms_text(d.longitude) + seq!['"', ' ', 'a', 'l', 't', ':', ' ', '"'] + altitude_text(
        d.altitude,
    ) + seq!['"']
}

fn to_error(r: Result<DMS, OpsError>) -> (out: Result<DMS, Error>)
    ensures
        out == position_error(r),
{
    match r {
        Ok(v) => Ok(v),
        Err(_) => Err(Error::IncompatibleCardinals),
    }
}

impl core::ops::Add<DMS3d> for DMS3d {
    type Output = Result<DMS3d, Error>;

    /// Adds latitudes and longitudes as angles; the altitude of `rhs` wins
    /// when both have one.
    fn add(self, rhs: DMS3d) -> (r: Result<DMS3d, Error>)
        ensures
            r == sum3d_spec(self, rhs),
    {
        let latitude = to_error(self.latitude + rhs.latitude)?;
        let longitude = to_error(self.longitude + rhs.longitude)?;
        let altitude = match (self.altitude, rhs.altitude) {
            (Some(_), Some(a1)) => Some(a1),
            (Some(a0), None) => Some(a0),
            (None, _) => None,
        };
        Ok(DMS3d { latitude, longitude, altitude })
    }
}

impl vstd::std_specs::ops::AddSpecImpl<DMS3d> for DMS3d {
    open spec fn obeys_add_spec() -> bool {
        true
    }

    open spec fn add_req(self, rhs: DMS3d) -> bool {
        true
    }

    open spec fn add_spec(self, rhs: DMS3d) -> Result<DMS3d, Error> {
        sum3d_spec(self, rhs)
    }
}

impl Default for DMS3d {
    /// Default DMS3D with null coordinates and null altitude
    fn default() -> (r: Self)
        ensures
            r == (DMS3d {
                latitude: DMS { degrees: 0, minutes: 0, nanos: 0, cardinal: Some(Cardinal::North) },
                longitude: DMS { degrees: 0, minutes: 0, nanos: 0, cardinal: Some(Cardinal::East) },
                altitude: None,
            }),
    {
        DMS3d {
            latitude: DMS::from_ddeg_latitude(0),
            longitude: DMS::from_ddeg_longitude(0),
            altitude: None,
        }
    }
}

impl From<DMS3d> for (i64, i64) {
    /// Converts coordinates to (latitude, longitude) in decimal degrees,
    /// counted in nanodegrees
    fn from(val: DMS3d) -> (r: (i64, i64))
        ensures
            r.0 as int == ddeg_of(val.latitude),
            r.1 as int == ddeg_of(val.longitude),
    {
        (val.latitude.to_ddeg_angle(), val.longitude.to_ddeg_angle())
    }
}

impl vstd::std_specs::convert::FromSpecImpl<DMS3d> for (i64, i64) {
    open spec fn obeys_from_spec() -> bool {
        true
    }

    open spec fn from_spec(val: DMS3d) -> (i64, i64) {
        (ddeg_of(val.latitude) as i64, ddeg_of(val.longitude) as i64)
    }
}

impl DMS3d {
    /// Builds `3D D°M'S"` coordinates. The latitude must carry North or
    /// South and the longitude East or West; the angles are stored as
    /// given.
    pub fn new(latitude: DMS, longitude: DMS, altitude: Option<i64>) -> (r: Result<DMS3d, Error>)
        ensures
            r == new_spec(latitude, longitude, altitude),
    {
        let cardlat = match latitude.cardinal {
            Some(c) => c,
            None => return Err(Error::MissingLatitude),
        };
        if !cardlat.is_latitude() {
            return Err(Error::InvalidLatitude);
        }
        let cardlon = match longitude.cardinal {
            Some(c) => c,
            None => return Err(Error::MissingLongitude),
        };
        if !cardlon.is_longitude() {
            return Err(Error::InvalidLongitude);
        }
        Ok(DMS3d { latitude, longitude, altitude })
    }

    /// Builds 3D DMS copy with given altitude attribute in millimetres,
    /// if altitude data was already present, it gets overwritten
    pub fn with_altitude(&self, altitude: i64) -> (r: DMS3d)
        ensures
            r == (DMS3d { altitude: Some(altitude), ..*self }),
    {
        DMS3d { latitude: self.latitude, longitude: self.longitude, altitude: Some(altitude) }
    }

    /// Same as [DMS3d::with_altitude] but the quantity is expressed in
    /// thousandths of a foot
    pub fn with_altitude_feet(&self, altitude: i64) -> (r: DMS3d)
        ensures
            r == (DMS3d {
                altitude: Some(millifeet_to_millimetres(altitude as int) as i64),
                ..*self
            }),
    {
        self.with_altitude(millifeet_to_millimetres_exec(altitude))
    }

    /// Adds given altitude quantity, in millimetres, to self;
    /// if altitude was not defined yet, it takes this value
    pub fn add_altitude(&mut self, altitude: i64)
        requires
            i64::MIN <= raised(old(self).altitude, altitude as int) <= i64::MAX,
        ensures
            *final(self) == (DMS3d {
                altitude: Some(raised(old(self).altitude, altitude as int) as i64),
                ..*old(self)
            }),
    {
        match self.altitude {
            Some(a) => self.altitude = Some(a + altitude),
            None => self.altitude = Some(altitude),
        }
    }

    /// Same as [DMS3d::add_altitude] but the quantity is expressed in
    /// thousandths of a foot
    pub fn add_altitude_feet(&mut self, altitude: i64)
        requires
            i64::MIN <= raised(
                old(self).altitude,
                millifeet_to_millimetres(altitude as int),
            ) <= i64::MAX,
        ensures
            *final(self) == (DMS3d {
                altitude: Some(
                    raised(old(self).altitude, millifeet_to_millimetres(altitude as int)) as i64,
                ),
                ..*old(self)
            }),
    {
        self.add_altitude(millifeet_to_millimetres_exec(altitude))
    }

    /// Builds `3D D°M'S"` coordinates from given angles, expressed
    /// in decimal degrees counted in nanodegrees, and an optional
    /// altitude. The cardinals follow the signs, as in
    /// [DMS::from_ddeg_latitude] and [DMS::from_ddeg_longitude].
    pub fn from_ddeg_angles(latitude: i64, longitude: i64, altitude: Option<i64>) -> (r: DMS3d)
        ensures
            r == (DMS3d {
                latitude: latitude_spec(latitude * NANOS_PER_NANODEGREE),
                longitude: longitude_spec(longitude * NANOS_PER_NANODEGREE),
                altitude,
            }),
    {
        DMS3d {
            latitude: DMS::from_ddeg_latitude(latitude),
            longitude: DMS::from_ddeg_longitude(longitude),
            altitude,
        }
    }

    /// Text of Self: `lat: "<angle>"  lon: "<angle>" alt: "<metres>"`.
    pub fn to_string(&self) -> (r: String)
        ensures
            r@ == dms3d_text(*self),
    {
        proof {
            reveal_strlit("lat: \"");
            reveal_strlit("\"  lon: \"");
            reveal_strlit("\" alt: \"");
            reveal_strlit("-");
            reveal_strlit("\"");
        }
        let mut s = String::from_str("lat: \"");
        self.latitude.write_text(&mut s);
        s.append("\"  lon: \"");
        self.longitude.write_text(&mut s);
        s.append("\" alt: \"");
        let ghost before = s@;
        let mm: i128 = match self.altitude {
            Some(a) => a as i128,
            None => 0,
        };
        if mm < 0 {
            s.append("-");
        } else {
            assert(before + Seq::<char>::empty() =~= before);
        }
        let m: u64 = if mm < 0 {
            (-mm) as u64
        } else {
            mm as u64
        };
        push_fixed_point(&mut s, m / 1000, m % 1000, 3);
        s.append("\"");
        assert(s@ =~= dms3d_text(*self));
        s
    }

    /// Converts Self from WGS84 to ED50 data
    pub fn to_europe50(&self) -> (r: Result<DMS3d, Error>)
        ensures
            r == europe50_3d_spec(*self),
    {
        let latitude = to_error(self.latitude.to_europe50())?;
        let longitude = to_error(self.longitude.to_europe50())?;
        Ok(DMS3d { latitude, longitude, altitude: self.altitude })
    }
}

/// Thousandths of a foot in millimetres, rounded toward zero.
fn millifeet_to_millimetres_exec(millifeet: i64) -> (r: i64)
    ensures
        r as int == millifeet_to_millimetres(millifeet as int),
{
    let scaled: i128 = millifeet as i128 * 1_000_000;
    assert(abs(scaled as int) <= 0x8000_0000_0000_0000 * 1_000_000) by (nonlinear_arith)
        requires
            scaled == millifeet * 1_000_000,
            -0x8000_0000_0000_0000 <= millifeet < 0x8000_0000_0000_0000,
    ;
    let q = quotient_exec(scaled, FEET_PER_METRE_MICRO as i128);
    assert(abs(q as int) <= abs(scaled as int) / 3_280_840);
    assert(abs(scaled as int) / 3_280_840 <= 0x8000_0000_0000_0000) by (nonlinear_arith)
        requires
            abs(scaled as int) <= 0x8000_0000_0000_0000 * 1_000_000,
    ;
    q as i64
}

/// Coordinates that put an East or West angle in the latitude slot are
/// refused with `InvalidLatitude`, whatever the longitude.
pub proof fn lemma_longitude_in_latitude_slot(latitude: DMS, longitude: DMS, altitude: Option<i64>)
    requires
        latitude.cardinal == Some(Cardinal::East) || latitude.cardinal == Some(Cardinal::West),
    ensures
        new_spec(latitude, longitude, altitude) == Err::<DMS3d, Error>(Error::InvalidLatitude),
{
}

/// Coordinates that put a North or South angle in the longitude slot are
/// refused with `InvalidLongitude` once the latitude is valid.
pub proof fn lemma_latitude_in_longitude_slot(latitude: DMS, longitude: DMS, altitude: Option<i64>)
    requires
        latitude.cardinal == Some(Cardinal::North) || latitude.cardinal == Some(Cardinal::South),
        longitude.cardinal == Some(Cardinal::North) || longitude.cardinal == Some(Cardinal::South),
    ensures
        new_spec(latitude, longitude, altitude) == Err::<DMS3d, Error>(Error::InvalidLongitude),
{
}

} // verus!

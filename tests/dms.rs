use dms_coordinates::dms::OpsError;
use dms_coordinates::{Cardinal, DMS};

/// Seconds of an angle, fraction included.
fn seconds(d: &DMS) -> f64 {
    d.nanos as f64 / 1E9
}

/// Decimal degrees of an angle.
fn ddeg(d: &DMS) -> f64 {
    d.to_ddeg_angle() as f64 / 1E9
}

fn relative_eq(a: f64, b: f64, tol: f64) -> bool {
    (a - b).abs() <= tol * a.abs().max(b.abs())
}

#[test]
fn dms_constructor() {
    let dms = DMS::new(25, 38, 29_495_000_000, None);
    assert_eq!(dms.degrees, 25);
    assert_eq!(dms.minutes, 38);
    assert!((29.495 - seconds(&dms)).abs() < 1E-6);

    let dms = DMS::new(90, 59, 59_999_000_000, None);
    assert_eq!(dms.degrees, 90);
    assert_eq!(dms.minutes, 59);
    assert!((59.999 - seconds(&dms)).abs() < 1E-6);

    let dms = DMS::new(180, 40, 29_495_000_000, None);
    assert_eq!(dms.degrees, 180);
    assert_eq!(dms.minutes, 40);
    assert!((29.495 - seconds(&dms)).abs() < 1E-6);
}

#[test]
fn dms_test_to_string() {
    assert_eq!(DMS::new(35, 39, 10_000_000_000, None).to_string(), "35\u{b0}39'10\"");
    assert_eq!(
        DMS::new(39, 40, 43_000_000_000, Some(Cardinal::SouthWest)).to_string(),
        "39\u{b0}40'43\"SW"
    );
}

#[test]
fn wrapping_constructor() {
    let dms = DMS::new(91, 59, 61_000_000_000, None);
    assert_eq!(dms.degrees, 92);
    assert_eq!(dms.minutes, 0);
    assert!((1.0 - seconds(&dms)).abs() < 1E-6);

    let dms = DMS::new(359, 59, 61_000_000_000, None);
    assert_eq!(dms.degrees, 0);
    assert_eq!(dms.minutes, 0);
    assert!((1.0 - seconds(&dms)).abs() < 1E-6);

    let dms = DMS::new(359, 58, 61_000_000_000, None);
    assert_eq!(dms.degrees, 359);
    assert_eq!(dms.minutes, 59);
    assert!((1.0 - seconds(&dms)).abs() < 1E-6);
}

#[test]
fn total_seconds() {
    let dms = DMS::new(0, 0, 59_900_000_000, None);
    assert!((dms.total_seconds() as f64 / 1E9 - 59.9).abs() < 1E-6);
    let dms = DMS::new(0, 10, 59_900_000_000, None);
    assert!((dms.total_seconds() as f64 / 1E9 - 659.9).abs() < 1E-6);
}

#[test]
fn test_from_ddeg() {
    let d = DMS::from_ddeg_angle(3_357_015_000);
    assert_eq!(d.degrees, 3);
    assert_eq!(d.minutes, 21);
    assert!(relative_eq(seconds(&d), 25.254, 1E-6));
    assert_eq!(d.cardinal, None);
}

#[test]
fn test_to_ddeg() {
    let d = DMS::new(3, 21, 25_255_000_000, Some(Cardinal::South));
    assert!(relative_eq(ddeg(&d), -3.3570127, 1E-6));

    let d = DMS::new(43, 49, 54_114_000_000, Some(Cardinal::West));
    assert!(relative_eq(ddeg(&d), -43.83169, 1E-6));
}

#[test]
fn test_int_cast() {
    let d = DMS::new(10, 21, 45_000_000_000, None);
    let secs: u32 = d.into();
    assert_eq!(secs, 10 * 3600 + 21 * 60 + 45);
}

#[test]
fn dms_test_add_ops() {
    let d0 = DMS::new(10, 21, 45_000_000_000, None);
    let d1 = DMS::new(0, 10, 10_000_000_000, None);
    let d = (d0 + d1).unwrap();
    assert_eq!(d.degrees, 10);
    assert_eq!(d.minutes, 31);
    assert_eq!(seconds(&d), 55.0);
    assert_eq!(d.cardinal, None);
}

#[test]
fn carry_through_minutes_and_degrees() {
    let d = DMS::new(10, 10, 60_000_000_000, None);
    assert_eq!((d.degrees, d.minutes, d.nanos), (10, 11, 0));
    let d = DMS::new(10, 59, 3_660_000_000_000, None);
    assert_eq!((d.degrees, d.minutes, d.nanos), (12, 0, 0));
}

#[test]
fn from_seconds_negative_wraps() {
    let d = DMS::from_seconds(-10_000_000_000);
    assert_eq!((d.degrees, d.minutes, d.nanos), (359, 59, 50_000_000_000));
    let d = DMS::from_seconds(360 * 3_600_000_000_000 + 5);
    assert_eq!((d.degrees, d.minutes, d.nanos), (0, 0, 5));
}

#[test]
fn latitude_round_trip_values() {
    for v in [0_i64, 1, -1, 40_730_610_000, -33_869_843_900, 89_999_999_999, -89_999_999_999] {
        assert_eq!(DMS::from_ddeg_latitude(v).to_ddeg_angle(), v);
    }
    for v in [0_i64, -73_935_242_000, 151_208_284_800, 179_999_999_999, -179_999_999_999] {
        assert_eq!(DMS::from_ddeg_longitude(v).to_ddeg_angle(), v);
    }
}

#[test]
fn latitude_degrees_wrap() {
    let d = DMS::from_ddeg_latitude(-95_500_000_000);
    assert_eq!((d.degrees, d.minutes, d.nanos), (5, 30, 0));
    assert_eq!(d.cardinal, Some(Cardinal::South));
    let d = DMS::from_ddeg_longitude(190_000_000_000);
    assert_eq!(d.degrees, 10);
    assert_eq!(d.cardinal, Some(Cardinal::East));
}

#[test]
fn add_with_cardinals() {
    let a = DMS::new(10, 0, 0, Some(Cardinal::North));
    let b = DMS::new(15, 30, 0, Some(Cardinal::South));
    let d = (a + b).unwrap();
    assert_eq!((d.degrees, d.minutes, d.nanos), (5, 30, 0));
    assert_eq!(d.cardinal, Some(Cardinal::South));

    let a = DMS::new(170, 0, 0, Some(Cardinal::East));
    let b = DMS::new(20, 0, 0, Some(Cardinal::East));
    let d = (a + b).unwrap();
    assert_eq!(d.degrees, 10);
    assert_eq!(d.cardinal, Some(Cardinal::East));
}

#[test]
fn add_incompatible_cardinals() {
    let a = DMS::new(10, 0, 0, Some(Cardinal::North));
    let b = DMS::new(10, 0, 0, Some(Cardinal::East));
    assert_eq!(a + b, Err(OpsError::IncompatibleCardinals));
    let c = DMS::new(10, 0, 0, Some(Cardinal::NorthEast));
    assert_eq!(c + c, Err(OpsError::IncompatibleCardinals));
}

#[test]
fn add_one_cardinal_only() {
    let a = DMS::new(10, 0, 0, Some(Cardinal::South));
    let b = DMS::new(0, 30, 0, None);
    let d = (a + b).unwrap();
    assert_eq!((d.degrees, d.minutes, d.nanos, d.cardinal), (10, 30, 0, None));
}

#[test]
fn add_in_place_keeps_value_on_error() {
    let mut a = DMS::new(10, 0, 0, Some(Cardinal::North));
    let before = a;
    assert_eq!(a.add_in_place(DMS::new(1, 0, 0, Some(Cardinal::West))), Err(OpsError::IncompatibleCardinals));
    assert_eq!(a, before);
    assert_eq!(a.add_in_place(DMS::new(1, 0, 0, Some(Cardinal::North))), Ok(()));
    assert_eq!((a.degrees, a.cardinal), (11, Some(Cardinal::North)));
}

#[test]
fn offset_and_subtract() {
    let a = DMS::new(10, 0, 0, None);
    let d = a.offset(30_000_000_000);
    assert_eq!((d.degrees, d.minutes, d.nanos), (10, 0, 30_000_000_000));
    let d = a.subtract(60_000_000_000);
    assert_eq!((d.degrees, d.minutes), (9, 59));

    let n = DMS::new(1, 0, 0, Some(Cardinal::North));
    let d = n.subtract(1_500_000_000);
    assert_eq!((d.degrees, d.minutes, d.cardinal), (0, 30, Some(Cardinal::South)));
    let mut m = n;
    m.offset_in_place(500_000_000);
    assert_eq!((m.degrees, m.minutes, m.cardinal), (1, 30, Some(Cardinal::North)));
    m.subtract_in_place(500_000_000);
    assert_eq!(m, n);
}

#[test]
fn scale_and_divide() {
    let a = DMS::new(10, 30, 0, None);
    let d = a.scale(2);
    assert_eq!((d.degrees, d.minutes), (21, 0));
    let d = a.divide(3);
    assert_eq!((d.degrees, d.minutes), (3, 30));
    let d = a.scale(-1);
    assert_eq!((d.degrees, d.minutes), (349, 30));

    let w = DMS::new(50, 0, 0, Some(Cardinal::West));
    let d = w.scale(2);
    assert_eq!((d.degrees, d.cardinal), (100, Some(Cardinal::West)));
    let d = w.divide(-2);
    assert_eq!((d.degrees, d.cardinal), (25, Some(Cardinal::East)));
    let mut m = w;
    m.scale_in_place(3);
    m.divide_in_place(3);
    assert_eq!(m, w);
}

#[test]
fn europe50_shift() {
    let lat = DMS::new(40, 0, 0, Some(Cardinal::North));
    let d = lat.to_europe50().unwrap();
    assert_eq!((d.degrees, d.minutes, d.nanos), (40, 0, 3_600_000_000));
    let lon = DMS::new(2, 0, 0, Some(Cardinal::West));
    let d = lon.to_europe50().unwrap();
    assert_eq!((d.degrees, d.minutes, d.nanos, d.cardinal), (1, 59, 57_600_000_000, Some(Cardinal::West)));
    let plain = DMS::new(2, 0, 0, None);
    assert_eq!(plain.to_europe50(), Ok(plain));
    let diag = DMS::new(2, 0, 0, Some(Cardinal::SouthEast));
    assert_eq!(diag.to_europe50(), Err(OpsError::IncompatibleCardinals));
}

#[test]
fn ddeg_addition() {
    let mut d = DMS::new(10, 0, 0, Some(Cardinal::South));
    d.add_ddeg(15_500_000_000);
    assert_eq!((d.degrees, d.minutes, d.cardinal), (5, 30, None));
    let e = DMS::new(1, 0, 0, None).with_ddeg_angle(-3_000_000_000);
    assert_eq!((e.degrees, e.cardinal), (2, None));
}

#[test]
fn integer_casts_saturate() {
    let d = DMS::new(10, 0, 0, None);
    let s: u64 = d.into();
    assert_eq!(s, 36000);
    let s: u8 = d.into();
    assert_eq!(s, 255);
    let s: u16 = d.into();
    assert_eq!(s, 36000);
}

#[test]
fn text_with_fraction() {
    let d = DMS::from_ddeg_latitude(40_730_610_000);
    assert_eq!(d.to_string(), "40\u{b0}43'50.196\"N");
    let d = DMS::new(0, 0, 1_000_000_001, None);
    assert_eq!(d.to_string(), "0\u{b0}0'1.000000001\"");
    assert_eq!(DMS::default().to_string(), "0\u{b0}0'0\"");
}

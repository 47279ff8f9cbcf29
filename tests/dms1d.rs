use dms_coordinates::{Cardinal, DMS};

fn relative_eq(a: f64, b: f64, tol: f64) -> bool {
    (a - b).abs() <= tol * a.abs().max(b.abs())
}

#[test]
fn dms1d_constructor() {
    let _coordinates = DMS::new(25, 38, 29_495_000_000, Some(Cardinal::North));
}

#[test]
fn from_ddeg_latitude() {
    let coords = DMS::from_ddeg_latitude(53_120_405_000);
    assert_eq!(coords.degrees, 53);
    assert_eq!(coords.minutes, 7);
    assert_eq!(coords.cardinal, Some(Cardinal::North));
    assert!(relative_eq(coords.nanos as f64 / 1E9, 13.459, 1E-3));
}

#[test]
fn from_ddeg_longitude() {
    let coords = DMS::from_ddeg_longitude(6_163_104_900);
    assert_eq!(coords.degrees, 6);
    assert_eq!(coords.minutes, 9);
    assert_eq!(coords.cardinal, Some(Cardinal::East));
    assert!(relative_eq(coords.nanos as f64 / 1E9, 47.177, 1E-3));
    let coords = DMS::from_ddeg_longitude(-86_649_000_000);
    assert_eq!(coords.degrees, 86);
    assert_eq!(coords.minutes, 38);
    assert_eq!(coords.cardinal, Some(Cardinal::West));
    // 86.649° is 86° 38.94', and 0.94' is 56.4".
    assert!(relative_eq(coords.nanos as f64 / 1E9, 56.4, 1E-3));
}

//! One- and three-dimensional sexagesimal (D°M'S") coordinates.
//!
//! Angles are held in exact fixed point: seconds are counted in
//! nano-arcseconds and decimal degrees in nanodegrees, so that every
//! normalisation and carry rule is proved on integers.
use vstd::prelude::*;

pub mod angle;
pub mod bearing;
pub mod cardinal;
pub mod dms;
pub mod dms3d;
pub mod text;

pub use crate::angle::BoundedAngle;
pub use crate::bearing::Bearing;
pub use crate::cardinal::Cardinal;
pub use crate::dms::DMS;
pub use crate::dms3d::DMS3d;

verus! {

/// Errors raised when building or combining coordinates.
#[derive(PartialEq, Eq, Structural, Debug, Copy, Clone)]
pub enum Error {
    /// The latitude angle carries a cardinal other than North or South.
    InvalidLatitude,
    /// The latitude angle carries no cardinal.
    MissingLatitude,
    /// The longitude angle carries a cardinal other than East or West.
    InvalidLongitude,
    /// The longitude angle carries no cardinal.
    MissingLongitude,
    /// When adding two cardinals together, they
    /// must be compatible.
    IncompatibleCardinals,
    /// A waypoint file could not be parsed.
    GpxParsingError,
    /// A waypoint file could not be written.
    GpxError,
}

} // verus!

//! Bearings, compass quadrants and headings.
use vstd::prelude::*;
use vstd::string::StringExecFns;

verus! {

/// A compass heading among the eight principal directions.
#[derive(PartialEq, Eq, Structural, Debug, Copy, Clone)]
pub enum Bearing {
    North,
    NorthEast,
    SouthEast,
    South,
    SouthWest,
    West,
    NorthWest,
    East,
}

/// Abbreviated name: N, NE, E, SE, S, SW, W or NW.
pub open spec fn bearing_abbreviation(c: Bearing) -> Seq<char> {
    match c {
        Bearing::North => seq!['N'],
        Bearing::NorthEast => seq!['N', 'E'],
        Bearing::East => seq!['E'],
        Bearing::SouthEast => seq!['S', 'E'],
        Bearing::South => seq!['S'],
        Bearing::SouthWest => seq!['S', 'W'],
        Bearing::West => seq!['W'],
        Bearing::NorthWest => seq!['N', 'W'],
    }
}

impl Bearing {
    /// Abbreviated name of Self, as a string slice.
    pub fn abbreviation(&self) -> (r: &'static str)
        ensures
            r@ == bearing_abbreviation(*self),
    {
        match self {
            Bearing::North => {
                proof {
                    reveal_strlit("N");
                }
                "N"
            },
            Bearing::NorthEast => {
                proof {
                    reveal_strlit("NE");
                }
                "NE"
            },
            Bearing::East => {
                proof {
                    reveal_strlit("E");
                }
                "E"
            },
            Bearing::SouthEast => {
                proof {
                    reveal_strlit("SE");
                }
                "SE"
            },
            Bearing::South => {
                proof {
                    reveal_strlit("S");
                }
                "S"
            },
            Bearing::SouthWest => {
                proof {
                    reveal_strlit("SW");
                }
                "SW"
            },
            Bearing::West => {
                proof {
                    reveal_strlit("W");
                }
                "W"
            },
            Bearing::NorthWest => {
                proof {
                    reveal_strlit("NW");
                }
                "NW"
            },
        }
    }

    /// Abbreviated name of Self: N, NE, E, SE, S, SW, W or NW.
    pub fn to_string(&self) -> (r: String)
        ensures
            r@ == bearing_abbreviation(*self),
    {
        String::from_str(self.abbreviation())
    }

    /// Returns True if Self matches a latitude bearing
    pub fn is_latitude(&self) -> (r: bool)
        ensures
            r == (*self == Bearing::North || *self == Bearing::South),
    {
        match self {
            Bearing::North | Bearing::South => true,
            _ => false,
        }
    }

    /// Returns True if Self matches a longitude bearing
    pub fn is_longitude(&self) -> (r: bool)
        ensures
            r == (*self == Bearing::East || *self == Bearing::West),
    {
        match self {
            Bearing::East | Bearing::West => true,
            _ => false,
        }
    }

    /// Returns True if Self is a Northern bearing
    pub fn is_northern(&self) -> (r: bool)
        ensures
            r == (*self == Bearing::North || *self == Bearing::NorthEast || *self == Bearing::NorthWest),
    {
        match self {
            Bearing::North | Bearing::NorthEast | Bearing::NorthWest => true,
            _ => false,
        }
    }

    /// Returns True if Self is a Southern bearing
    pub fn is_southern(&self) -> (r: bool)
        ensures
            r == (*self == Bearing::South || *self == Bearing::SouthEast || *self == Bearing::SouthWest),
    {
        match self {
            Bearing::South | Bearing::SouthEast | Bearing::SouthWest => true,
            _ => false,
        }
    }

    /// Returns True if Self is an Eastern bearing
    pub fn is_eastern(&self) -> (r: bool)
        ensures
            r == (*self == Bearing::East || *self == Bearing::NorthEast || *self == Bearing::SouthEast),
    {
        match self {
            Bearing::East | Bearing::NorthEast | Bearing::SouthEast => true,
            _ => false,
        }
    }

    /// Returns True if Self is a Western bearing
    pub fn is_western(&self) -> (r: bool)
        ensures
            r == (*self == Bearing::West || *self == Bearing::NorthWest || *self == Bearing::SouthWest),
    {
        match self {
            Bearing::West | Bearing::NorthWest | Bearing::SouthWest => true,
            _ => false,
        }
    }

    /// Returns True if Self matches a subquadrant bearing, like NE or SW
    pub fn is_sub_quadrant(&self) -> (r: bool)
        ensures
            r == (*self == Bearing::NorthEast || *self == Bearing::SouthEast || *self == Bearing::NorthWest || *self == Bearing::SouthWest),
    {
        match self {
            Bearing::NorthEast | Bearing::SouthEast | Bearing::NorthWest | Bearing::SouthWest => true,
            _ => false,
        }
    }
}

} // verus!

//! Cardinal points of the compass; only the eight multiples of 45° exist.
use vstd::prelude::*;
use vstd::string::StringExecFns;

verus! {

/// One of the eight points of the compass, each standing for a multiple
/// of 45°, North being 0°.
#[derive(PartialEq, Eq, Structural, Debug, Copy, Clone)]
pub enum Cardinal {
    /// Northern Cardinal
    North,
    /// North Eastern Cardinal
    NorthEast,
    /// Eastern Cardinal
    East,
    /// South Eastern Cardinal
    SouthEast,
    /// Southern Cardinal
    South,
    /// South Western Cardinal
    SouthWest,
    /// Western Cardinal
    West,
    /// North Western Cardinal
    NorthWest,
}

/// Compass angle (°) of a cardinal, North being 0°.
pub open spec fn angle_of(c: Cardinal) -> int {
    match c {
        Cardinal::North => 0,
        Cardinal::NorthEast => 45,
        Cardinal::East => 90,
        Cardinal::SouthEast => 135,
        Cardinal::South => 180,
        Cardinal::SouthWest => 225,
        Cardinal::West => 270,
        Cardinal::NorthWest => 315,
    }
}

/// The cardinal whose 45° wide sector, closed on its low end, holds
/// `angle` once taken modulo 360°.
pub open spec fn cardinal_of(angle: int) -> Cardinal {
    let a = angle % 360;
    if a < 45 {
        Cardinal::North
    } else if a < 90 {
        Cardinal::NorthEast
    } else if a < 135 {
        Cardinal::East
    } else if a < 180 {
        Cardinal::SouthEast
    } else if a < 225 {
        Cardinal::South
    } else if a < 270 {
        Cardinal::SouthWest
    } else if a < 315 {
        Cardinal::West
    } else {
        Cardinal::NorthWest
    }
}

/// North or South: the cardinals that mark a latitude.
pub open spec fn is_latitude_axis(c: Cardinal) -> bool {
    c == Cardinal::North || c == Cardinal::South
}

/// East or West: the cardinals that mark a longitude.
pub open spec fn is_longitude_axis(c: Cardinal) -> bool {
    c == Cardinal::East || c == Cardinal::West
}

pub open spec fn is_northern_spec(c: Cardinal) -> bool {
    c == Cardinal::North || c == Cardinal::NorthEast || c == Cardinal::NorthWest
}

pub open spec fn is_southern_spec(c: Cardinal) -> bool {
    c == Cardinal::South || c == Cardinal::SouthEast || c == Cardinal::SouthWest
}

pub open spec fn is_eastern_spec(c: Cardinal) -> bool {
    c == Cardinal::East || c == Cardinal::NorthEast || c == Cardinal::SouthEast
}

pub open spec fn is_western_spec(c: Cardinal) -> bool {
    c == Cardinal::West || c == Cardinal::NorthWest || c == Cardinal::SouthWest
}

/// Two cardinals mark the same kind of coordinate: both latitude or both
/// longitude.
pub open spec fn same_kind_spec(a: Cardinal, b: Cardinal) -> bool {
    (is_latitude_axis(a) && is_latitude_axis(b)) || (is_longitude_axis(a) && is_longitude_axis(b))
}

/// The cardinal reached by turning `c` clockwise by `degrees`.
pub open spec fn rotate_spec(c: Cardinal, degrees: int) -> Cardinal {
    cardinal_of(angle_of(c) + degrees)
}

impl core::ops::Add<u16> for Cardinal {
    type Output = Cardinal;

    /// Turns Self clockwise by `rhs` degrees; any magnitude wraps modulo 360°.
    fn add(self, rhs: u16) -> (r: Cardinal)
        ensures
            r == rotate_spec(self, rhs as int),
    {
        let a: u32 = (self.to_angle() as u32 + rhs as u32) % 360;
        Cardinal::from_angle(a as u16)
    }
}

impl vstd::std_specs::ops::AddSpecImpl<u16> for Cardinal {
    open spec fn obeys_add_spec() -> bool {
        true
    }

    open spec fn add_req(self, rhs: u16) -> bool {
        true
    }

    open spec fn add_spec(self, rhs: u16) -> Cardinal {
        rotate_spec(self, rhs as int)
    }
}

impl Default for Cardinal {
    /// Builds default Northern Cardinal
    fn default() -> (r: Self)
        ensures
            r == Cardinal::North,
    {
        Cardinal::North
    }
}

/// Abbreviated name: N, NE, E, SE, S, SW, W or NW.
pub open spec fn abbreviation_of(c: Cardinal) -> Seq<char> {
    match c {
        Cardinal::North => seq!['N'],
        Cardinal::NorthEast => seq!['N', 'E'],
        Cardinal::East => seq!['E'],
        Cardinal::SouthEast => seq!['S', 'E'],
        Cardinal::South => seq!['S'],
        Cardinal::SouthWest => seq!['S', 'W'],
        Cardinal::West => seq!['W'],
        Cardinal::NorthWest => seq!['N', 'W'],
    }
}

impl Cardinal {
    /// Abbreviated name of Self, as a string slice.
    pub fn abbreviation(&self) -> (r: &'static str)
        ensures
            r@ == abbreviation_of(*self),
    {
        match self {
            Cardinal::North => {
                proof {
                    reveal_strlit("N");
                }
                "N"
            },
            Cardinal::NorthEast => {
                proof {
                    reveal_strlit("NE");
                }
                "NE"
            },
            Cardinal::East => {
                proof {
                    reveal_strlit("E");
                }
                "E"
            },
            Cardinal::SouthEast => {
                proof {
                    reveal_strlit("SE");
                }
                "SE"
            },
            Cardinal::South => {
                proof {
                    reveal_strlit("S");
                }
                "S"
            },
            Cardinal::SouthWest => {
                proof {
                    reveal_strlit("SW");
                }
                "SW"
            },
            Cardinal::West => {
                proof {
                    reveal_strlit("W");
                }
                "W"
            },
            Cardinal::NorthWest => {
                proof {
                    reveal_strlit("NW");
                }
                "NW"
            },
        }
    }

    /// Abbreviated name of Self: N, NE, E, SE, S, SW, W or NW.
    pub fn to_string(&self) -> (r: String)
        ensures
            r@ == abbreviation_of(*self),
    {
        String::from_str(self.abbreviation())
    }

    /// Returns True if Self matches a latitude cardinal
    pub fn is_latitude(&self) -> (r: bool)
        ensures
            r == is_latitude_axis(*self),
    {
        match self {
            Cardinal::North | Cardinal::South => true,
            _ => false,
        }
    }

    /// Returns True if Self matches a longitude cardinal
    pub fn is_longitude(&self) -> (r: bool)
        ensures
            r == is_longitude_axis(*self),
    {
        match self {
            Cardinal::East | Cardinal::West => true,
            _ => false,
        }
    }

    /// Returns True if Cardinal and `rhs` represents
    /// same kind of coordinates
    pub fn same_kind(&self, rhs: Self) -> (r: bool)
        ensures
            r == same_kind_spec(*self, rhs),
    {
        (self.is_latitude() && rhs.is_latitude()) || (self.is_longitude() && rhs.is_longitude())
    }

    /// Returns True if Self is a Northern cardinal
    pub fn is_northern(&self) -> (r: bool)
        ensures
            r == is_northern_spec(*self),
    {
        match self {
            Cardinal::North | Cardinal::NorthEast | Cardinal::NorthWest => true,
            _ => false,
        }
    }

    /// Returns True if Self is a Southern cardinal
    pub fn is_southern(&self) -> (r: bool)
        ensures
            r == is_southern_spec(*self),
    {
        match self {
            Cardinal::South | Cardinal::SouthEast | Cardinal::SouthWest => true,
            _ => false,
        }
    }

    /// Returns True if Self is an Eastern cardinal
    pub fn is_eastern(&self) -> (r: bool)
        ensures
            r == is_eastern_spec(*self),
    {
        match self {
            Cardinal::East | Cardinal::NorthEast | Cardinal::SouthEast => true,
            _ => false,
        }
    }

    /// Returns True if Self is a Western cardinal
    pub fn is_western(&self) -> (r: bool)
        ensures
            r == is_western_spec(*self),
    {
        match self {
            Cardinal::West | Cardinal::NorthWest | Cardinal::SouthWest => true,
            _ => false,
        }
    }

    /// Returns True if Self matches a subquadrant cardinal, like NE or SW:
    /// its angle is an odd multiple of 45°.
    pub fn is_sub_quadrant(&self) -> (r: bool)
        ensures
            r == ((angle_of(*self) / 45) % 2 == 1),
            r == !(is_latitude_axis(*self) || is_longitude_axis(*self)),
    {
        (self.to_angle() / 45) % 2 > 0
    }

    /// Returns compass angle (in D°) associated to Self,
    /// 0° being North Cardinal
    pub fn to_angle(&self) -> (r: u16)
        ensures
            r as int == angle_of(*self),
            r < 360,
    {
        match self {
            Cardinal::North => 0,
            Cardinal::NorthEast => 45,
            Cardinal::East => 90,
            Cardinal::SouthEast => 135,
            Cardinal::South => 180,
            Cardinal::SouthWest => 225,
            Cardinal::West => 270,
            Cardinal::NorthWest => 315,
        }
    }

    /// Builds a Cardinal from given compass angle (in D°),
    /// 0° being North Cardinal. The angle is first taken modulo 360°, then
    /// each 45° sector, closed on its low end, maps to one cardinal.
    pub fn from_angle(angle: u16) -> (r: Cardinal)
        ensures
            r == cardinal_of(angle as int),
    {
        let a: u16 = angle % 360;
        if a < 45 {
            Cardinal::North
        } else if a < 90 {
            Cardinal::NorthEast
        } else if a < 135 {
            Cardinal::East
        } else if a < 180 {
            Cardinal::SouthEast
        } else if a < 225 {
            Cardinal::South
        } else if a < 270 {
            Cardinal::SouthWest
        } else if a < 315 {
            Cardinal::West
        } else {
            Cardinal::NorthWest
        }
    }
}

/// Every cardinal is recovered from its own angle: the angle mapping is a
/// bijection onto the multiples of 45° in [0°, 360°).
pub proof fn lemma_angle_round_trip(c: Cardinal)
    ensures
        cardinal_of(angle_of(c)) == c,
        0 <= angle_of(c) < 360,
        angle_of(c) % 45 == 0,
{
}

/// Turning by a multiple of 45° and then by any angle is turning once by
/// their sum; in particular a full turn changes nothing.
pub proof fn lemma_rotate_compose(c: Cardinal, a: int, b: int)
    requires
        a % 45 == 0,
    ensures
        rotate_spec(rotate_spec(c, a), b) == rotate_spec(c, a + b),
{
    let x = angle_of(c) + a;
    let y = x % 360;
    assert(y % 45 == 0 && 0 <= y < 360) by (nonlinear_arith)
        requires
            a % 45 == 0,
            angle_of(c) % 45 == 0,
            x == angle_of(c) + a,
            y == x % 360,
    ;
    let k = y / 45;
    assert(0 <= k < 8 && y == 45 * k) by (nonlinear_arith)
        requires
            y % 45 == 0,
            0 <= y < 360,
            k == y / 45,
    ;
    assert(angle_of(cardinal_of(x)) == y);
    assert((y + b) % 360 == (x + b) % 360) by (nonlinear_arith)
        requires
            y == x % 360,
    ;
}

} // verus!

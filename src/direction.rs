//! The four compass directions of the plane and their rotation algebra.
use vstd::prelude::*;

verus! {

/// One of the four compass directions. Clockwise order is
/// North, East, South, West, and back to North.
#[derive(Copy, Clone, Debug, PartialEq, Eq, Hash, Structural)]
pub enum PlaneDir {
    North,
    East,
    South,
    West,
}

/// Rebuilding a direction from an ordinal outside `0..4`.
#[derive(Copy, Clone, Debug, PartialEq, Eq, Structural)]
pub enum DirectionError {
    InvalidDirectionOrdinal,
}

/// The direction with ordinal `n`, taken modulo 4 (always non-negative).
pub open spec fn dir_of(n: int) -> PlaneDir {
    let m = n % 4;
    if m == 0 {
        PlaneDir::North
    } else if m == 1 {
        PlaneDir::East
    } else if m == 2 {
        PlaneDir::South
    } else {
        PlaneDir::West
    }
}

/// Rebuilds a direction from its ordinal; fails for ordinals of 4 and up.
impl TryFrom<u8> for PlaneDir {
    type Error = DirectionError;

    fn try_from(val: u8) -> (r: Result<PlaneDir, DirectionError>)
        ensures
            val < 4 ==> r == Ok::<PlaneDir, DirectionError>(dir_of(val as int)),
            val >= 4 ==> r == Err::<PlaneDir, DirectionError>(DirectionError::InvalidDirectionOrdinal),
    {
        match val {
            0 => Ok(PlaneDir::North),
            1 => Ok(PlaneDir::East),
            2 => Ok(PlaneDir::South),
            3 => Ok(PlaneDir::West),
            _ => Err(DirectionError::InvalidDirectionOrdinal),
        }
    }
}

impl vstd::std_specs::convert::TryFromSpecImpl<u8> for PlaneDir {
    open spec fn obeys_try_from_spec() -> bool {
        true
    }

    open spec fn try_from_spec(val: u8) -> Result<PlaneDir, DirectionError> {
        if val < 4 {
            Ok(dir_of(val as int))
        } else {
            Err(DirectionError::InvalidDirectionOrdinal)
        }
    }
}

impl PlaneDir {
    /// Position in the clockwise order, starting at North.
    pub open spec fn ord(self) -> int {
        match self {
            PlaneDir::North => 0,
            PlaneDir::East => 1,
            PlaneDir::South => 2,
            PlaneDir::West => 3,
        }
    }

    /// The direction `n` quarter turns clockwise from `self` (anticlockwise
    /// for negative `n`).
    pub open spec fn spec_rotate(self, n: int) -> PlaneDir {
        dir_of(self.ord() + n)
    }

    /// The unreduced difference of ordinals, `other - self`.
    pub open spec fn spec_rotate_diff(self, other: PlaneDir) -> int {
        other.ord() - self.ord()
    }

    /// Position in the clockwise order, starting at North with 0.
    pub fn ordinal(&self) -> (r: u8)
        ensures
            r as int == self.ord(),
    {
        match self {
            PlaneDir::North => 0,
            PlaneDir::East => 1,
            PlaneDir::South => 2,
            PlaneDir::West => 3,
        }
    }

    /// Gives `x` such that `self.rotate(x) == other`; not reduced, so it lies
    /// in `-3..=3`.
    pub fn rotate_diff(&self, other: PlaneDir) -> (r: i8)
        ensures
            r as int == self.spec_rotate_diff(other),
    {
        (other.ordinal() as i8) - (self.ordinal() as i8)
    }

    /// The direction `n` quarter turns clockwise from `self`, with a
    /// Euclidean (never negative) modulus, so any `n` is accepted.
    pub fn rotate(&self, n: i8) -> (r: PlaneDir)
        ensures
            r == self.spec_rotate(n as int),
    {
        // 128 is a multiple of 4, so the shift keeps the residue and makes the
        // sum non-negative.
        let shifted: i16 = (self.ordinal() as i16) + (n as i16) + 128;
        let m: u8 = ((shifted as u16) % 4) as u8;
        proof {
            assert((shifted as int) % 4 == (self.ord() + n as int) % 4) by {
                assert(shifted as int == (self.ord() + n as int) + 4 * 32);
            }
        }
        match PlaneDir::try_from(m) {
            Ok(d) => d,
            Err(_) => {
                // m < 4, so this arm is never taken
                proof {
                    assert(false);
                }
                PlaneDir::North
            },
        }
    }

    pub fn clockwise(&self) -> (r: PlaneDir)
        ensures
            r == self.spec_rotate(1),
    {
        self.rotate(1)
    }

    pub fn anticlockwise(&self) -> (r: PlaneDir)
        ensures
            r == self.spec_rotate(-1),
    {
        self.rotate(-1)
    }
}

/// Rotating a direction by its difference to another lands on the other:
/// `d1.rotate(d1.rotate_diff(d2)) == d2` for every pair of directions.
pub proof fn rotate_diff_round_trip(d1: PlaneDir, d2: PlaneDir)
    ensures
        d1.spec_rotate(d1.spec_rotate_diff(d2)) == d2,
{
}

/// Rotation has period four: `d.rotate(n) == d.rotate(n + 4)` for every
/// integer `n`.
pub proof fn rotate_periodic(d: PlaneDir, n: int)
    ensures
        d.spec_rotate(n) == d.spec_rotate(n + 4),
{
    assert((d.ord() + n + 4) % 4 == (d.ord() + n) % 4);
}

/// A quarter turn anticlockwise undoes a quarter turn clockwise, and the
/// other way round.
pub proof fn clockwise_anticlockwise_inverse(d: PlaneDir)
    ensures
        d.spec_rotate(1).spec_rotate(-1) == d,
        d.spec_rotate(-1).spec_rotate(1) == d,
{
}

} // verus!

//! The eight compass directions used by directional navigation.

use vstd::prelude::*;

verus! {

/// One of the eight compass directions in which a navigation edge can leave
/// an entity. The numbering of [`Octant::index`] follows the one used for the
/// neighbor slots of a navigation map: clockwise, starting at north.
#[derive(Clone, Copy, Debug, PartialEq, Eq, Hash, Structural)]
pub enum Octant {
    North,
    NorthEast,
    East,
    SouthEast,
    South,
    SouthWest,
    West,
    NorthWest,
}

/// The slot index of a direction: 0 for north, then clockwise up to 7.
pub open spec fn octant_index(dir: Octant) -> nat {
    match dir {
        Octant::North => 0,
        Octant::NorthEast => 1,
        Octant::East => 2,
        Octant::SouthEast => 3,
        Octant::South => 4,
        Octant::SouthWest => 5,
        Octant::West => 6,
        Octant::NorthWest => 7,
    }
}

/// The direction with the given slot index, if the index is below 8.
pub open spec fn octant_from_index(index: int) -> Option<Octant> {
    if index == 0 {
        Some(Octant::North)
    } else if index == 1 {
        Some(Octant::NorthEast)
    } else if index == 2 {
        Some(Octant::East)
    } else if index == 3 {
        Some(Octant::SouthEast)
    } else if index == 4 {
        Some(Octant::South)
    } else if index == 5 {
        Some(Octant::SouthWest)
    } else if index == 6 {
        Some(Octant::West)
    } else if index == 7 {
        Some(Octant::NorthWest)
    } else {
        None
    }
}

/// The direction pointing the other way: half a turn around the compass.
pub open spec fn octant_opposite(dir: Octant) -> Octant {
    octant_from_index(((octant_index(dir) + 4) % 8) as int).unwrap()
}

impl Octant {
    /// Returns the slot index of this direction (north is 0, then clockwise).
    pub fn index(self) -> (i: usize)
        ensures
            i == octant_index(self),
            i < 8,
    {
        match self {
            Octant::North => 0,
            Octant::NorthEast => 1,
            Octant::East => 2,
            Octant::SouthEast => 3,
            Octant::South => 4,
            Octant::SouthWest => 5,
            Octant::West => 6,
            Octant::NorthWest => 7,
        }
    }

    /// Returns the direction with slot index `index`, or `None` when the
    /// index is 8 or more.
    pub fn from_index(index: usize) -> (dir: Option<Self>)
        ensures
            dir == octant_from_index(index as int),
            dir is Some <==> index < 8,
    {
        match index {
            0 => Some(Octant::North),
            1 => Some(Octant::NorthEast),
            2 => Some(Octant::East),
            3 => Some(Octant::SouthEast),
            4 => Some(Octant::South),
            5 => Some(Octant::SouthWest),
            6 => Some(Octant::West),
            7 => Some(Octant::NorthWest),
            _ => None,
        }
    }

    /// Returns the opposite direction (north for south, north-east for
    /// south-west, and so on).
    pub fn opposite(&self) -> (dir: Self)
        ensures
            dir == octant_opposite(*self),
    {
        match self {
            Octant::North => Octant::South,
            Octant::NorthEast => Octant::SouthWest,
            Octant::East => Octant::West,
            Octant::SouthEast => Octant::NorthWest,
            Octant::South => Octant::North,
            Octant::SouthWest => Octant::NorthEast,
            Octant::West => Octant::East,
            Octant::NorthWest => Octant::SouthEast,
        }
    }
}

/// Every direction is found again from its index, and every index below 8
/// names exactly one direction.
pub proof fn lemma_octant_index_roundtrip(dir: Octant, index: int)
    ensures
        octant_index(dir) < 8,
        octant_from_index(octant_index(dir) as int) == Some(dir),
        0 <= index < 8 ==> octant_index(octant_from_index(index).unwrap()) == index,
{
}

/// Taking the opposite twice gives the direction back; a direction is never
/// its own opposite, and the opposite lies four slots further round.
pub proof fn lemma_octant_opposite_involution(dir: Octant)
    ensures
        octant_opposite(octant_opposite(dir)) == dir,
        octant_opposite(dir) != dir,
        octant_index(octant_opposite(dir)) == (octant_index(dir) + 4) % 8,
{
}

} // verus!

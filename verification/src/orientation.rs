//! The four quarter-turn rotations a placed component can take.

use vstd::prelude::*;

verus! {

/// Which way a component faces. `North` is the way its template is drawn.
#[derive(Clone, Copy, Debug, PartialEq, Eq, Structural)]
pub enum Orientation {
    North,
    East,
    South,
    West,
}

impl Orientation {
    /// Number of clockwise quarter turns away from `North`.
    pub open spec fn quarter_turns(self) -> int {
        match self {
            Orientation::North => 0,
            Orientation::East => 1,
            Orientation::South => 2,
            Orientation::West => 3,
        }
    }

    /// Clockwise rotation away from `North`, in whole degrees.
    pub fn angle(&self) -> (degrees: u16)
        ensures
            degrees == 90 * self.quarter_turns(),
    {
        match self {
            Orientation::North => 0,
            Orientation::East => 90,
            Orientation::South => 180,
            Orientation::West => 270,
        }
    }
}

} // verus!

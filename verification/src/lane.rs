//! The lane model: three discrete horizontal positions, totally ordered
//! by their signed offsets -1, 0, +1, and the saturating step rule for
//! moving between them.

use vstd::prelude::*;

verus! {

/// One of the three horizontal positions of the playing field. The same
/// enum doubles as a directional delta for [`Lane::step`]: `Left` means
/// "one lane to the left", `Right` "one lane to the right".
#[derive(Debug, Clone, Copy, PartialEq, Eq, Structural)]
pub enum Lane {
    Left,
    Middle,
    Right,
}

/// The signed offset of a lane: -1, 0 or +1.
pub open spec fn lane_offset(lane: Lane) -> int {
    match lane {
        Lane::Left => -1,
        Lane::Middle => 0,
        Lane::Right => 1,
    }
}

/// The lane derived from an arbitrary signed offset: any negative value
/// gives `Left`, zero gives `Middle`, any positive value gives `Right`.
pub open spec fn lane_from_offset(n: int) -> Lane {
    if n < 0 {
        Lane::Left
    } else if n == 0 {
        Lane::Middle
    } else {
        Lane::Right
    }
}

/// The lane reached from `lane` by moving one step in direction `dir`:
/// offsets are added and mapped back through the sign-only rule of
/// [`lane_from_offset`], so stepping past a boundary lane saturates there.
pub open spec fn lane_step(lane: Lane, dir: Lane) -> Lane {
    lane_from_offset(lane_offset(lane) + lane_offset(dir))
}

impl Lane {
    /// The signed offset of this lane.
    pub fn offset(self) -> (r: i8)
        ensures
            r as int == lane_offset(self),
    {
        match self {
            Lane::Left => -1,
            Lane::Middle => 0,
            Lane::Right => 1,
        }
    }

    /// Maps any signed offset to a lane; total over all of `i8`, by the
    /// sign-only rule.
    pub fn from_offset(n: i8) -> (r: Lane)
        ensures
            r == lane_from_offset(n as int),
    {
        if n < 0 {
            Lane::Left
        } else if n == 0 {
            Lane::Middle
        } else {
            Lane::Right
        }
    }

    /// Moves one step in direction `dir`, saturating at the boundary lanes.
    pub fn step(self, dir: Lane) -> (r: Lane)
        ensures
            r == lane_step(self, dir),
    {
        let sum = self.offset() + dir.offset();
        Lane::from_offset(sum)
    }
}

/// Round-trip law: deriving a lane from its own offset gives the lane back.
pub proof fn lemma_offset_round_trip(lane: Lane)
    ensures
        lane_from_offset(lane_offset(lane)) == lane,
{
}

/// Stepping is closed over the three lanes and saturates at the
/// boundaries: a step from `Right` to the right stays `Right`, and a step
/// from `Left` to the left stays `Left`.
pub proof fn lemma_step_saturates(lane: Lane, dir: Lane)
    ensures
        lane_step(lane, dir) == Lane::Left || lane_step(lane, dir) == Lane::Middle
            || lane_step(lane, dir) == Lane::Right,
        lane_step(Lane::Right, Lane::Right) == Lane::Right,
        lane_step(Lane::Left, Lane::Left) == Lane::Left,
{
}

} // verus!

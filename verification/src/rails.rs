//! The rail-shape decisions that run when a rail is placed or a flanking
//! rail must follow suit: from a snapshot of the neighboring rails -
//! which directions hold a connected rail and at what elevation - they
//! pick the shape the rail takes. Walking the world to take the snapshot,
//! and writing the chosen shape back, happen at the caller.

use vstd::prelude::*;

verus! {

/// A horizontal direction.
#[derive(Debug, Clone, Copy, PartialEq, Eq, Structural)]
pub enum HorizontalFacing {
    North,
    South,
    East,
    West,
}

impl HorizontalFacing {
    /// The direction opposite this one.
    pub open spec fn spec_opposite(self) -> HorizontalFacing {
        match self {
            HorizontalFacing::North => HorizontalFacing::South,
            HorizontalFacing::South => HorizontalFacing::North,
            HorizontalFacing::East => HorizontalFacing::West,
            HorizontalFacing::West => HorizontalFacing::East,
        }
    }

    /// The direction opposite this one.
    pub fn opposite(self) -> (r: HorizontalFacing)
        ensures
            r == self.spec_opposite(),
    {
        match self {
            HorizontalFacing::North => HorizontalFacing::South,
            HorizontalFacing::South => HorizontalFacing::North,
            HorizontalFacing::East => HorizontalFacing::West,
            HorizontalFacing::West => HorizontalFacing::East,
        }
    }
}

/// Every shape a curving rail can take.
#[derive(Debug, Clone, Copy, PartialEq, Eq, Structural)]
pub enum RailShape {
    NorthSouth,
    EastWest,
    AscendingEast,
    AscendingWest,
    AscendingNorth,
    AscendingSouth,
    SouthEast,
    SouthWest,
    NorthWest,
    NorthEast,
}

/// The shapes a rail that cannot curve can take.
#[derive(Debug, Clone, Copy, PartialEq, Eq, Structural)]
pub enum StraightRailShape {
    NorthSouth,
    EastWest,
    AscendingEast,
    AscendingWest,
    AscendingNorth,
    AscendingSouth,
}

/// How a neighboring rail stands relative to this one.
#[derive(Debug, Clone, Copy, PartialEq, Eq, Structural)]
pub enum RailElevation {
    Flat,
    Up,
    Down,
}

/// The flat shape along a direction's axis.
pub open spec fn spec_flat_towards(facing: HorizontalFacing) -> StraightRailShape {
    match facing {
        HorizontalFacing::North | HorizontalFacing::South => StraightRailShape::NorthSouth,
        HorizontalFacing::East | HorizontalFacing::West => StraightRailShape::EastWest,
    }
}

/// The ascending shape climbing towards a direction.
pub open spec fn spec_ascending_towards(facing: HorizontalFacing) -> RailShape {
    match facing {
        HorizontalFacing::North => RailShape::AscendingNorth,
        HorizontalFacing::South => RailShape::AscendingSouth,
        HorizontalFacing::East => RailShape::AscendingEast,
        HorizontalFacing::West => RailShape::AscendingWest,
    }
}

/// The ascending shape climbing towards a direction.
pub fn ascending_towards(facing: HorizontalFacing) -> (r: RailShape)
    ensures
        r == spec_ascending_towards(facing),
{
    match facing {
        HorizontalFacing::North => RailShape::AscendingNorth,
        HorizontalFacing::South => RailShape::AscendingSouth,
        HorizontalFacing::East => RailShape::AscendingEast,
        HorizontalFacing::West => RailShape::AscendingWest,
    }
}

/// The flat shape joining two directions: a straight run along a shared
/// axis, a curve where the axes cross.
pub open spec fn spec_shape_connecting(a: HorizontalFacing, b: HorizontalFacing) -> RailShape {
    match (a, b) {
        (HorizontalFacing::North, HorizontalFacing::East) => RailShape::NorthEast,
        (HorizontalFacing::East, HorizontalFacing::North) => RailShape::NorthEast,
        (HorizontalFacing::North, HorizontalFacing::West) => RailShape::NorthWest,
        (HorizontalFacing::West, HorizontalFacing::North) => RailShape::NorthWest,
        (HorizontalFacing::South, HorizontalFacing::East) => RailShape::SouthEast,
        (HorizontalFacing::East, HorizontalFacing::South) => RailShape::SouthEast,
        (HorizontalFacing::South, HorizontalFacing::West) => RailShape::SouthWest,
        (HorizontalFacing::West, HorizontalFacing::South) => RailShape::SouthWest,
        (HorizontalFacing::East, _) => RailShape::EastWest,
        (HorizontalFacing::West, _) => RailShape::EastWest,
        (HorizontalFacing::North, _) => RailShape::NorthSouth,
        (HorizontalFacing::South, _) => RailShape::NorthSouth,
    }
}

/// The flat shape joining two directions.
pub fn shape_connecting(a: HorizontalFacing, b: HorizontalFacing) -> (r: RailShape)
    ensures
        r == spec_shape_connecting(a, b),
{
    match (a, b) {
        (HorizontalFacing::North, HorizontalFacing::East) => RailShape::NorthEast,
        (HorizontalFacing::East, HorizontalFacing::North) => RailShape::NorthEast,
        (HorizontalFacing::North, HorizontalFacing::West) => RailShape::NorthWest,
        (HorizontalFacing::West, HorizontalFacing::North) => RailShape::NorthWest,
        (HorizontalFacing::South, HorizontalFacing::East) => RailShape::SouthEast,
        (HorizontalFacing::East, HorizontalFacing::South) => RailShape::SouthEast,
        (HorizontalFacing::South, HorizontalFacing::West) => RailShape::SouthWest,
        (HorizontalFacing::West, HorizontalFacing::South) => RailShape::SouthWest,
        (HorizontalFacing::East, _) => RailShape::EastWest,
        (HorizontalFacing::West, _) => RailShape::EastWest,
        (HorizontalFacing::North, _) => RailShape::NorthSouth,
        (HorizontalFacing::South, _) => RailShape::NorthSouth,
    }
}

/// A rail may stand where the block below is solid; a leaning (ascending)
/// rail also needs solid ground one step up towards its lean.
pub fn rail_placement_is_valid(
    below_solid: bool,
    leaning: bool,
    lean_target_below_solid: bool,
) -> (r: bool)
    ensures
        r == (below_solid && (!leaning || lean_target_below_solid)),
{
    below_solid && (!leaning || lean_target_below_solid)
}

/// The shape a straight rail takes when placed, from which neighbors hold
/// a connectable rail (and how high they stand), east checked first, then
/// south, west and north; with no connection at all the player's facing
/// decides the flat axis.
pub open spec fn spec_placed_rail_shape(
    east: Option<RailElevation>,
    south: Option<RailElevation>,
    west: Option<RailElevation>,
    north: Option<RailElevation>,
    player_facing: HorizontalFacing,
) -> StraightRailShape {
    if east is Some {
        if west is Some {
            if east == Some(RailElevation::Up) {
                StraightRailShape::AscendingEast
            } else if west == Some(RailElevation::Up) {
                StraightRailShape::AscendingWest
            } else {
                StraightRailShape::EastWest
            }
        } else if east == Some(RailElevation::Up) {
            StraightRailShape::AscendingEast
        } else {
            StraightRailShape::EastWest
        }
    } else if south is Some {
        if north is Some {
            if south == Some(RailElevation::Up) {
                StraightRailShape::AscendingSouth
            } else if north == Some(RailElevation::Up) {
                StraightRailShape::AscendingNorth
            } else {
                StraightRailShape::NorthSouth
            }
        } else if south == Some(RailElevation::Up) {
            StraightRailShape::AscendingSouth
        } else {
            StraightRailShape::NorthSouth
        }
    } else if west is Some {
        if west == Some(RailElevation::Up) {
            StraightRailShape::AscendingWest
        } else {
            StraightRailShape::EastWest
        }
    } else if north is Some {
        if north == Some(RailElevation::Up) {
            StraightRailShape::AscendingNorth
        } else {
            StraightRailShape::NorthSouth
        }
    } else {
        spec_flat_towards(player_facing)
    }
}

/// Picks the shape of a straight rail being placed.
pub fn compute_placed_rail_shape(
    east: Option<RailElevation>,
    south: Option<RailElevation>,
    west: Option<RailElevation>,
    north: Option<RailElevation>,
    player_facing: HorizontalFacing,
) -> (r: StraightRailShape)
    ensures
        r == spec_placed_rail_shape(east, south, west, north, player_facing),
{
    if let Some(east_rail) = east {
        if let Some(west_rail) = west {
            if east_rail == RailElevation::Up {
                return StraightRailShape::AscendingEast;
            } else if west_rail == RailElevation::Up {
                return StraightRailShape::AscendingWest;
            }
            return StraightRailShape::EastWest;
        }
        if east_rail == RailElevation::Up {
            return StraightRailShape::AscendingEast;
        }
        return StraightRailShape::EastWest;
    }
    if let Some(south_rail) = south {
        if let Some(north_rail) = north {
            if south_rail == RailElevation::Up {
                return StraightRailShape::AscendingSouth;
            } else if north_rail == RailElevation::Up {
                return StraightRailShape::AscendingNorth;
            }
            return StraightRailShape::NorthSouth;
        }
        if south_rail == RailElevation::Up {
            return StraightRailShape::AscendingSouth;
        }
        return StraightRailShape::NorthSouth;
    }
    if let Some(west_rail) = west {
        if west_rail == RailElevation::Up {
            return StraightRailShape::AscendingWest;
        }
        return StraightRailShape::EastWest;
    }
    if let Some(north_rail) = north {
        if north_rail == RailElevation::Up {
            return StraightRailShape::AscendingNorth;
        }
        return StraightRailShape::NorthSouth;
    }
    flat_towards(player_facing)
}

/// The flat shape along a direction's axis.
pub fn flat_towards(facing: HorizontalFacing) -> (r: StraightRailShape)
    ensures
        r == spec_flat_towards(facing),
{
    match facing {
        HorizontalFacing::North | HorizontalFacing::South => StraightRailShape::NorthSouth,
        HorizontalFacing::East | HorizontalFacing::West => StraightRailShape::EastWest,
    }
}

/// The shape a rail flanking a newly placed one takes, from the flanking
/// rail's own shape, elevation and curving ability, the directions it
/// found connected rails towards (the direction of the placed rail
/// excluded), whether one of those stands elevated, and the direction the
/// placed rail lies in.
pub open spec fn spec_flanking_rail_shape(
    shape: RailShape,
    elevation: RailElevation,
    can_curve: bool,
    connected: Seq<HorizontalFacing>,
    connected_elevated: bool,
    flanking_from: HorizontalFacing,
) -> RailShape {
    if connected.len() == 2 {
        shape
    } else {
        let d0 = if connected.len() == 1 {
            connected[0]
        } else {
            flanking_from
        };
        let d1 = if connected.len() == 1 {
            flanking_from
        } else {
            flanking_from.spec_opposite()
        };
        if (d0 == flanking_from || d0 == flanking_from.spec_opposite()) && (d1 == flanking_from
            || d1 == flanking_from.spec_opposite()) {
            if elevation == RailElevation::Down {
                if connected_elevated {
                    match flanking_from {
                        HorizontalFacing::South | HorizontalFacing::North => {
                            RailShape::AscendingSouth
                        },
                        HorizontalFacing::West | HorizontalFacing::East => {
                            RailShape::AscendingWest
                        },
                    }
                } else {
                    spec_ascending_towards(flanking_from)
                }
            } else if connected_elevated {
                spec_ascending_towards(connected[0])
            } else {
                spec_shape_connecting(d0, d1)
            }
        } else if !can_curve {
            if d0 == HorizontalFacing::North || d0 == HorizontalFacing::South {
                if elevation == RailElevation::Down {
                    spec_ascending_towards(flanking_from)
                } else {
                    spec_shape_connecting(d0, d1)
                }
            } else {
                shape
            }
        } else {
            spec_shape_connecting(d0, d1)
        }
    }
}

/// Picks the new shape of a rail flanking a placed one. A rail connected
/// on both sides is locked and keeps its shape; with one or no
/// connection the rail turns, straightens or ascends towards the placed
/// rail as the decision tree reads.
pub fn compute_flanking_rail_new_shape(
    shape: RailShape,
    elevation: RailElevation,
    can_curve: bool,
    connected: &Vec<HorizontalFacing>,
    connected_elevated: bool,
    flanking_from: HorizontalFacing,
) -> (r: RailShape)
    requires
        connected@.len() <= 2,
        connected_elevated ==> connected@.len() >= 1,
    ensures
        r == spec_flanking_rail_shape(
            shape,
            elevation,
            can_curve,
            connected@,
            connected_elevated,
            flanking_from,
        ),
{
    if connected.len() == 2 {
        return shape;
    }
    let d0 = if connected.len() == 1 {
        connected[0]
    } else {
        flanking_from
    };
    let d1 = if connected.len() == 1 {
        flanking_from
    } else {
        flanking_from.opposite()
    };
    let opposite = flanking_from.opposite();
    if (d0 == flanking_from || d0 == opposite) && (d1 == flanking_from || d1 == opposite) {
        if elevation == RailElevation::Down {
            if connected_elevated {
                return match flanking_from {
                    HorizontalFacing::South | HorizontalFacing::North => RailShape::AscendingSouth,
                    HorizontalFacing::West | HorizontalFacing::East => RailShape::AscendingWest,
                };
            }
            return ascending_towards(flanking_from);
        } else if connected_elevated {
            return ascending_towards(connected[0]);
        }
        return shape_connecting(d0, d1);
    }
    if !can_curve {
        if d0 == HorizontalFacing::North || d0 == HorizontalFacing::South {
            if elevation == RailElevation::Down {
                return ascending_towards(flanking_from);
            }
            return shape_connecting(d0, d1);
        }
        return shape;
    }
    shape_connecting(d0, d1)
}

} // verus!

//! The world-spawn command: an optional position and an optional angle,
//! and the decision of whether and where the spawn point moves. Only the
//! two overworld dimensions accept a spawn point; the angle, when given,
//! is handed through by the caller alongside the decision.

use vstd::prelude::*;

verus! {

use crate::commands::tree::{
    CommandTree, ArgConsumer, Executor, CommandError, ConsumedArgs, argument,
};

/// The dimensions a world can be of.
#[derive(Debug, Clone, Copy, PartialEq, Eq, Structural)]
pub enum DimensionType {
    Overworld,
    OverworldCaves,
    TheNether,
    TheEnd,
}

/// Whether a dimension accepts a spawn point.
pub open spec fn accepts_spawn(dimension: DimensionType) -> bool {
    dimension == DimensionType::Overworld || dimension == DimensionType::OverworldCaves
}

/// Builds the world-spawn command: named `setworldspawn`, runnable bare
/// (the sender's position), with a `position` argument and under it an
/// `angle` argument.
pub fn init_command_tree() -> (r: CommandTree)
    ensures
        r.names@.len() == 1 && r.names@[0]@ == "setworldspawn"@,
        r.description@ == "Sets the world spawn point."@,
        r.executors@ =~= seq![Executor::WorldSpawnNoArgs],
        r.children@.len() == 1,
        ({
            let position = r.children@[0];
            &&& position.name@ == "position"@
            &&& position.consumer == ArgConsumer::BlockPos
            &&& position.executors@ =~= seq![Executor::WorldSpawnDefault]
            &&& position.children@.len() == 1
            &&& position.children@[0].name@ == "angle"@
            &&& position.children@[0].consumer == ArgConsumer::Rotation
            &&& position.children@[0].executors@ =~= seq![Executor::WorldSpawnAngle]
            &&& position.children@[0].children@.len() == 0
        }),
{
    let mut names: Vec<String> = Vec::new();
    names.push("setworldspawn".to_owned());
    let r = CommandTree::new(names, "Sets the world spawn point.").execute(
        Executor::WorldSpawnNoArgs,
    ).with_child(
        argument("position", ArgConsumer::BlockPos).execute(Executor::WorldSpawnDefault).with_child(
            argument("angle", ArgConsumer::Rotation).execute(Executor::WorldSpawnAngle),
        ),
    );
    proof {
        assert(r.names@[0]@ == "setworldspawn"@);
    }
    r
}

/// The with-position executor's argument check: the position must have
/// been consumed.
pub fn check_position_args(args: &ConsumedArgs) -> (r: Result<(i32, i32, i32), CommandError>)
    ensures
        match r {
            Ok(pos) => args.block_pos == Some(pos),
            Err(e) => args.block_pos is None && (e matches CommandError::InvalidConsumption(name)
                && (name matches Some(n) && n@ == "position"@)),
        },
{
    match args.block_pos {
        Some(pos) => Ok(pos),
        None => Err(CommandError::InvalidConsumption(Some("position".to_owned()))),
    }
}

/// The with-angle executor's argument check: the position and the
/// rotation must both have been consumed; the angle itself travels with
/// the caller.
pub fn check_angle_args(args: &ConsumedArgs) -> (r: Result<(i32, i32, i32), CommandError>)
    ensures
        match r {
            Ok(pos) => args.block_pos == Some(pos) && args.rotation,
            Err(e) => (e matches CommandError::InvalidConsumption(name) && (name matches Some(n)
                && (n@ == "position"@ || n@ == "angle"@))),
        },
{
    let pos = match args.block_pos {
        Some(pos) => pos,
        None => {
            return Err(CommandError::InvalidConsumption(Some("position".to_owned())));
        },
    };
    if !args.rotation {
        return Err(CommandError::InvalidConsumption(Some("angle".to_owned())));
    }
    Ok(pos)
}

/// How one spawn-point invocation ends.
#[derive(Debug, Clone, PartialEq, Eq)]
pub enum SetSpawnOutcome {
    /// The sender has no world to act on; the command fails.
    NoWorld,
    /// The world is no overworld; the sender is told and nothing moves.
    NotOverworld,
    /// The spawn point moves to this position; the caller stores the
    /// angle it was handed beside it.
    Moved { x: i32, y: i32, z: i32 },
}

/// Decides one spawn-point invocation: without a world it fails; outside
/// the two overworld dimensions nothing moves; otherwise the spawn point
/// is set to the given position.
pub fn setworldspawn(has_world: bool, dimension: DimensionType, pos: (i32, i32, i32)) -> (r:
    SetSpawnOutcome)
    ensures
        !has_world ==> r == SetSpawnOutcome::NoWorld,
        has_world && !accepts_spawn(dimension) ==> r == SetSpawnOutcome::NotOverworld,
        has_world && accepts_spawn(dimension) ==> r == (SetSpawnOutcome::Moved {
            x: pos.0,
            y: pos.1,
            z: pos.2,
        }),
{
    if !has_world {
        return SetSpawnOutcome::NoWorld;
    }
    match dimension {
        DimensionType::Overworld | DimensionType::OverworldCaves => SetSpawnOutcome::Moved {
            x: pos.0,
            y: pos.1,
            z: pos.2,
        },
        _ => SetSpawnOutcome::NotOverworld,
    }
}

} // verus!

//! The ground-tool decisions that run when a use-item packet arrives:
//! which block a hoe turns the clicked ground into, and whether a shovel
//! flattens it to a path or puts a campfire out. The world loop applies
//! the outcome; the snapshot of the clicked block comes from the caller.

use vstd::prelude::*;

verus! {

/// The ground and campfire blocks the tools read.
#[derive(Debug, Clone, Copy, PartialEq, Eq, Structural)]
pub enum GroundKind {
    GrassBlock,
    DirtPath,
    Dirt,
    CoarseDirt,
    RootedDirt,
    Podzol,
    Mycelium,
    Farmland,
    Campfire,
    SoulCampfire,
    Other,
}

/// The hoe handler.
#[derive(Debug, Clone, Copy, PartialEq, Eq, Structural)]
pub struct HoeItem;

/// What a hoe use does to the clicked block.
#[derive(Debug, Clone, Copy, PartialEq, Eq, Structural)]
pub struct HoeAction {
    /// The block the clicked one becomes (possibly itself).
    pub result: GroundKind,
    /// Whether a hanging-roots item drops beside it.
    pub drop_hanging_roots: bool,
}

/// The blocks a hoe acts on at all.
pub open spec fn hoe_target(block: GroundKind) -> bool {
    block == GroundKind::GrassBlock || block == GroundKind::DirtPath || block == GroundKind::Dirt
        || block == GroundKind::CoarseDirt || block == GroundKind::RootedDirt
}

/// The block a hoe turns the clicked one into: clicked from below, only
/// rooted dirt reacts and becomes dirt; clicked anywhere else, grass,
/// path and dirt become farmland when the air above is free, and coarse
/// or rooted dirt becomes dirt. Rooted dirt always drops hanging roots.
pub open spec fn spec_hoe_result(block: GroundKind, face_down: bool, above_air: bool) -> GroundKind {
    if face_down {
        if block == GroundKind::RootedDirt {
            GroundKind::Dirt
        } else {
            block
        }
    } else {
        if (block == GroundKind::GrassBlock || block == GroundKind::DirtPath || block
            == GroundKind::Dirt) && above_air {
            GroundKind::Farmland
        } else if block == GroundKind::CoarseDirt || block == GroundKind::RootedDirt {
            GroundKind::Dirt
        } else {
            block
        }
    }
}

impl HoeItem {
    /// Decides a hoe use on a block: nothing for a block a hoe ignores,
    /// else the block it becomes and whether hanging roots drop.
    pub fn use_on_block(&self, block: GroundKind, face_down: bool, above_air: bool) -> (r: Option<
        HoeAction,
    >)
        ensures
            !hoe_target(block) ==> r is None,
            hoe_target(block) ==> r == Some(
                HoeAction {
                    result: spec_hoe_result(block, face_down, above_air),
                    drop_hanging_roots: block == GroundKind::RootedDirt,
                },
            ),
    {
        match block {
            GroundKind::GrassBlock | GroundKind::DirtPath | GroundKind::Dirt
                | GroundKind::CoarseDirt | GroundKind::RootedDirt => {},
            _ => {
                return None;
            },
        }
        let mut result = block;
        if face_down {
            if block == GroundKind::RootedDirt {
                result = GroundKind::Dirt;
            }
        } else {
            if (block == GroundKind::GrassBlock || block == GroundKind::DirtPath || block
                == GroundKind::Dirt) && above_air {
                result = GroundKind::Farmland;
            } else if block == GroundKind::CoarseDirt || block == GroundKind::RootedDirt {
                result = GroundKind::Dirt;
            }
        }
        Some(HoeAction { result, drop_hanging_roots: block == GroundKind::RootedDirt })
    }
}

/// The shovel handler.
#[derive(Debug, Clone, Copy, PartialEq, Eq, Structural)]
pub struct ShovelItem;

/// What a shovel use does.
#[derive(Debug, Clone, Copy, PartialEq, Eq, Structural)]
pub struct ShovelAction {
    /// The clicked ground flattens to a dirt path.
    pub make_path: bool,
    /// The clicked campfire is put out.
    pub extinguish_campfire: bool,
}

/// The grounds a shovel flattens.
pub open spec fn shovel_ground(block: GroundKind) -> bool {
    block == GroundKind::GrassBlock || block == GroundKind::Dirt || block == GroundKind::CoarseDirt
        || block == GroundKind::RootedDirt || block == GroundKind::Podzol || block
        == GroundKind::Mycelium
}

/// The campfires a shovel can put out.
pub open spec fn shovel_campfire(block: GroundKind) -> bool {
    block == GroundKind::Campfire || block == GroundKind::SoulCampfire
}

impl ShovelItem {
    /// Decides a shovel use on a block: a flattenable ground, clicked
    /// from the side or above with free air over it, becomes a path; a
    /// lit campfire is put out.
    pub fn use_on_block(
        &self,
        block: GroundKind,
        face_down: bool,
        above_air: bool,
        campfire_lit: bool,
    ) -> (r: ShovelAction)
        ensures
            r.make_path == (shovel_ground(block) && !face_down && above_air),
            r.extinguish_campfire == (shovel_campfire(block) && campfire_lit),
    {
        let is_ground = match block {
            GroundKind::GrassBlock | GroundKind::Dirt | GroundKind::CoarseDirt
                | GroundKind::RootedDirt | GroundKind::Podzol | GroundKind::Mycelium => true,
            _ => false,
        };
        let is_campfire = match block {
            GroundKind::Campfire | GroundKind::SoulCampfire => true,
            _ => false,
        };
        ShovelAction {
            make_path: is_ground && !face_down && above_air,
            extinguish_campfire: is_campfire && campfire_lit,
        }
    }
}

} // verus!

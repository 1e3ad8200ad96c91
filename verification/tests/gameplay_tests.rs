use pumpkin_protocol::blocks::{
    cactus_random_tick, flower_pot_random_tick, BlockFate, CactusBaseView, CactusBlock,
    CactusGrowth, CarpetBlock, EyeblossomSwap, FlowerbedBlock, FlowerPotAction, FlowerPotBlock,
    MossCarpetBlock, PaleMossCarpetBlock, SideView, SoulFireBlock,
};
use pumpkin_protocol::items::{GroundKind, HoeItem, ShovelItem};
use pumpkin_protocol::rails::{
    compute_flanking_rail_new_shape, compute_placed_rail_shape, rail_placement_is_valid,
    HorizontalFacing, RailElevation, RailShape, StraightRailShape,
};

fn clear_sides() -> Vec<SideView> {
    vec![SideView { solid: false, lava: false }; 4]
}

#[test]
fn cactus_placement_rules() {
    let cactus = CactusBlock;
    let on_sand = CactusBaseView { cactus: false, sand_tagged: true };
    let on_stone = CactusBaseView { cactus: false, sand_tagged: false };
    assert!(cactus.can_place_at(&clear_sides(), on_sand, false));
    assert!(cactus.can_place_at(&clear_sides(), CactusBaseView { cactus: true, sand_tagged: false }, false));
    assert!(!cactus.can_place_at(&clear_sides(), on_stone, false));
    assert!(!cactus.can_place_at(&clear_sides(), on_sand, true));
    let mut sides = clear_sides();
    sides[2] = SideView { solid: true, lava: false };
    assert!(!cactus.can_place_at(&sides, on_sand, false));
    let mut sides = clear_sides();
    sides[0] = SideView { solid: false, lava: true };
    assert!(!cactus.can_place_at(&sides, on_sand, false));
}

#[test]
fn cactus_breaks_when_it_cannot_stand() {
    let cactus = CactusBlock;
    let on_stone = CactusBaseView { cactus: false, sand_tagged: false };
    assert_eq!(cactus.on_scheduled_tick(&clear_sides(), on_stone, false), BlockFate::Break);
    let on_sand = CactusBaseView { cactus: false, sand_tagged: true };
    assert_eq!(cactus.on_scheduled_tick(&clear_sides(), on_sand, false), BlockFate::Keep);
    let (fate, state) = cactus.get_state_for_neighbor_update(&clear_sides(), on_stone, false, 42);
    assert_eq!(fate, BlockFate::ScheduleCheck);
    assert_eq!(state, 42);
}

#[test]
fn cactus_growth_steps() {
    assert_eq!(cactus_random_tick(false, 7), CactusGrowth::Nothing);
    assert_eq!(cactus_random_tick(true, 7), CactusGrowth::Age(8));
    assert_eq!(cactus_random_tick(true, 15), CactusGrowth::GrowUp);
}

#[test]
fn carpets_need_ground() {
    assert!(CarpetBlock.can_place_at(false));
    assert!(!CarpetBlock.can_place_at(true));
    assert!(MossCarpetBlock.can_place_at(false));
    assert!(!PaleMossCarpetBlock.can_place_at(true));
    assert_eq!(CarpetBlock.on_scheduled_tick(true), BlockFate::Break);
    let (fate, state) = CarpetBlock.get_state_for_neighbor_update(true, 9);
    assert_eq!(fate, BlockFate::ScheduleCheck);
    assert_eq!(state, 9);
}

#[test]
fn soul_fire_needs_its_base() {
    let fire = SoulFireBlock;
    assert!(fire.can_place_at(true));
    assert!(!fire.can_place_at(false));
    assert!(SoulFireBlock::is_soul_base(true));
    assert_eq!(fire.get_state_for_neighbor_update(true, 77, 0), 77);
    assert_eq!(fire.get_state_for_neighbor_update(false, 77, 0), 0);
}

#[test]
fn flower_pot_interactions() {
    let pot = FlowerPotBlock;
    assert_eq!(pot.use_with_item(true, 31), FlowerPotAction::PlacePotted(31));
    assert_eq!(pot.use_with_item(true, 0), FlowerPotAction::NothingPlanted);
    assert_eq!(pot.use_with_item(false, 31), FlowerPotAction::ConsumeUse);
    assert_eq!(pot.use_with_item(false, 0), FlowerPotAction::EmptyPot);
}

#[test]
fn eyeblossom_follows_the_clock() {
    // Past 14500 within a day the closed flower opens in the overworld.
    assert_eq!(flower_pot_random_tick(true, true, false, 15000), EyeblossomSwap::Open);
    assert_eq!(flower_pot_random_tick(true, true, false, 24000 + 15000), EyeblossomSwap::Open);
    // By day the open flower closes anywhere.
    assert_eq!(flower_pot_random_tick(false, false, true, 1000), EyeblossomSwap::Close);
    // Otherwise nothing changes.
    assert_eq!(flower_pot_random_tick(true, true, false, 1000), EyeblossomSwap::Stay);
    assert_eq!(flower_pot_random_tick(false, true, false, 15000), EyeblossomSwap::Stay);
    assert_eq!(flower_pot_random_tick(true, false, true, 15000), EyeblossomSwap::Stay);
}

#[test]
fn flowerbed_registration_and_ground() {
    let bed = FlowerbedBlock;
    assert_eq!(bed.namespace(), "minecraft");
    assert_eq!(bed.ids(), ("pink_petals", "wildflowers"));
    assert!(bed.can_place_at(true, false));
    assert!(bed.can_place_at(false, true));
    assert!(!bed.can_place_at(false, false));
}

#[test]
fn hoe_tills_the_ground() {
    let hoe = HoeItem;
    // Grass with free air above becomes farmland.
    let action = hoe.use_on_block(GroundKind::GrassBlock, false, true).unwrap();
    assert_eq!(action.result, GroundKind::Farmland);
    assert!(!action.drop_hanging_roots);
    // Blocked air above leaves grass as it is.
    let action = hoe.use_on_block(GroundKind::GrassBlock, false, false).unwrap();
    assert_eq!(action.result, GroundKind::GrassBlock);
    // Coarse dirt becomes dirt regardless of the air above.
    let action = hoe.use_on_block(GroundKind::CoarseDirt, false, false).unwrap();
    assert_eq!(action.result, GroundKind::Dirt);
    // From below only rooted dirt reacts, and it always drops roots.
    let action = hoe.use_on_block(GroundKind::RootedDirt, true, false).unwrap();
    assert_eq!(action.result, GroundKind::Dirt);
    assert!(action.drop_hanging_roots);
    let action = hoe.use_on_block(GroundKind::GrassBlock, true, true).unwrap();
    assert_eq!(action.result, GroundKind::GrassBlock);
    // Blocks a hoe ignores.
    assert!(hoe.use_on_block(GroundKind::Podzol, false, true).is_none());
    assert!(hoe.use_on_block(GroundKind::Other, false, true).is_none());
}

#[test]
fn shovel_flattens_and_extinguishes() {
    let shovel = ShovelItem;
    let action = shovel.use_on_block(GroundKind::Mycelium, false, true, false);
    assert!(action.make_path);
    assert!(!action.extinguish_campfire);
    // Not from below, and only with free air above.
    assert!(!shovel.use_on_block(GroundKind::Mycelium, true, true, false).make_path);
    assert!(!shovel.use_on_block(GroundKind::Mycelium, false, false, false).make_path);
    // A lit campfire goes out; an unlit one is left alone.
    assert!(shovel.use_on_block(GroundKind::SoulCampfire, false, false, true).extinguish_campfire);
    assert!(!shovel.use_on_block(GroundKind::Campfire, false, false, false).extinguish_campfire);
    assert!(!shovel.use_on_block(GroundKind::DirtPath, false, true, false).make_path);
}

#[test]
fn rail_placement_needs_support() {
    assert!(rail_placement_is_valid(true, false, false));
    assert!(!rail_placement_is_valid(false, false, true));
    assert!(rail_placement_is_valid(true, true, true));
    assert!(!rail_placement_is_valid(true, true, false));
}

#[test]
fn placed_rail_follows_its_neighbors() {
    let flat = Some(RailElevation::Flat);
    let up = Some(RailElevation::Up);
    // East checked first; an elevated east neighbor means ascending east.
    assert_eq!(
        compute_placed_rail_shape(up, None, None, None, HorizontalFacing::North),
        StraightRailShape::AscendingEast
    );
    // Connections east and west make a straight run, ascending towards
    // the raised one.
    assert_eq!(
        compute_placed_rail_shape(flat, None, up, None, HorizontalFacing::North),
        StraightRailShape::AscendingWest
    );
    assert_eq!(
        compute_placed_rail_shape(flat, None, flat, None, HorizontalFacing::North),
        StraightRailShape::EastWest
    );
    // South and north pair the same way.
    assert_eq!(
        compute_placed_rail_shape(None, flat, None, up, HorizontalFacing::East),
        StraightRailShape::AscendingNorth
    );
    // No connection at all: the player's facing picks the axis.
    assert_eq!(
        compute_placed_rail_shape(None, None, None, None, HorizontalFacing::West),
        StraightRailShape::EastWest
    );
    assert_eq!(
        compute_placed_rail_shape(None, None, None, None, HorizontalFacing::South),
        StraightRailShape::NorthSouth
    );
}

#[test]
fn flanking_rail_reacts_to_the_placed_one() {
    // Fully connected rails are locked.
    let locked = compute_flanking_rail_new_shape(
        RailShape::NorthEast,
        RailElevation::Flat,
        true,
        &vec![HorizontalFacing::North, HorizontalFacing::East],
        false,
        HorizontalFacing::South,
    );
    assert_eq!(locked, RailShape::NorthEast);
    // One connection opposite the placed rail straightens flat.
    let straight = compute_flanking_rail_new_shape(
        RailShape::NorthEast,
        RailElevation::Flat,
        true,
        &vec![HorizontalFacing::North],
        false,
        HorizontalFacing::South,
    );
    assert_eq!(straight, RailShape::NorthSouth);
    // A rail lying lower than the placed one ascends towards it.
    let ascending = compute_flanking_rail_new_shape(
        RailShape::NorthSouth,
        RailElevation::Down,
        true,
        &vec![],
        false,
        HorizontalFacing::North,
    );
    assert_eq!(ascending, RailShape::AscendingNorth);
    // One sideways connection curves a rail that can curve.
    let curved = compute_flanking_rail_new_shape(
        RailShape::NorthSouth,
        RailElevation::Flat,
        true,
        &vec![HorizontalFacing::East],
        false,
        HorizontalFacing::South,
    );
    assert_eq!(curved, RailShape::SouthEast);
    // A straight-only rail asked to curve east-west keeps its shape.
    let kept = compute_flanking_rail_new_shape(
        RailShape::EastWest,
        RailElevation::Flat,
        false,
        &vec![HorizontalFacing::East],
        false,
        HorizontalFacing::South,
    );
    assert_eq!(kept, RailShape::EastWest);
}

use pumpkin_protocol::commands::ban;
use pumpkin_protocol::commands::setworldspawn;
use pumpkin_protocol::commands::setworldspawn::{DimensionType, SetSpawnOutcome};
use pumpkin_protocol::commands::tree::{ArgConsumer, CommandError, ConsumedArgs, Executor};
use pumpkin_protocol::motd::{advertisement, select_broadcast_motd, write_decimal};
use pumpkin_protocol::recipes::{
    destination, effective_category, key_char, partition_counts, IngredientKind,
    RecipeCategoryTypes, RecipeDestination, RecipeIngredientTypes, RecipeKind, RecipeResultStruct,
    CraftingShapedRecipeStruct,
};

fn no_args() -> ConsumedArgs {
    ConsumedArgs { players: None, msg: None, block_pos: None, rotation: false }
}

#[test]
fn ban_tree_shape() {
    let tree = ban::init_command_tree();
    assert_eq!(tree.names, vec!["ban".to_string()]);
    assert_eq!(tree.description, "bans a player");
    assert!(tree.executors.is_empty());
    assert_eq!(tree.children.len(), 1);
    let target = &tree.children[0];
    assert_eq!(target.name, "player");
    assert_eq!(target.consumer, ArgConsumer::Players);
    assert_eq!(target.executors, vec![Executor::BanNoReason]);
    assert_eq!(target.children.len(), 1);
    let reason = &target.children[0];
    assert_eq!(reason.name, "reason");
    assert_eq!(reason.consumer, ArgConsumer::Msg);
    assert_eq!(reason.executors, vec![Executor::BanReason]);
    assert!(reason.children.is_empty());
}

#[test]
fn setworldspawn_tree_shape() {
    let tree = setworldspawn::init_command_tree();
    assert_eq!(tree.names, vec!["setworldspawn".to_string()]);
    assert_eq!(tree.description, "Sets the world spawn point.");
    assert_eq!(tree.executors, vec![Executor::WorldSpawnNoArgs]);
    let position = &tree.children[0];
    assert_eq!(position.name, "position");
    assert_eq!(position.consumer, ArgConsumer::BlockPos);
    assert_eq!(position.executors, vec![Executor::WorldSpawnDefault]);
    let angle = &position.children[0];
    assert_eq!(angle.name, "angle");
    assert_eq!(angle.consumer, ArgConsumer::Rotation);
    assert_eq!(angle.executors, vec![Executor::WorldSpawnAngle]);
}

#[test]
fn ban_argument_checks() {
    let mut args = no_args();
    let err = ban::check_no_reason_args(&args).unwrap_err();
    assert!(matches!(err, CommandError::InvalidConsumption(Some(n)) if n == "player"));
    args.players = Some(vec!["first".to_string(), "second".to_string()]);
    let inv = ban::check_no_reason_args(&args).unwrap();
    assert_eq!(inv.target, "first");
    assert!(inv.reason.is_none());
    let err = ban::check_reason_args(&args).unwrap_err();
    assert!(matches!(err, CommandError::InvalidConsumption(Some(n)) if n == "reason"));
    args.msg = Some("be nice".to_string());
    let inv = ban::check_reason_args(&args).unwrap();
    assert_eq!(inv.target, "first");
    assert_eq!(inv.reason.as_deref(), Some("be nice"));
}

#[test]
fn setworldspawn_argument_checks() {
    let mut args = no_args();
    assert!(setworldspawn::check_position_args(&args).is_err());
    args.block_pos = Some((1, 64, -3));
    assert_eq!(setworldspawn::check_position_args(&args).unwrap(), (1, 64, -3));
    let err = setworldspawn::check_angle_args(&args).unwrap_err();
    assert!(matches!(err, CommandError::InvalidConsumption(Some(n)) if n == "angle"));
    args.rotation = true;
    assert_eq!(setworldspawn::check_angle_args(&args).unwrap(), (1, 64, -3));
}

#[test]
fn setworldspawn_outcomes() {
    assert_eq!(
        setworldspawn::setworldspawn(false, DimensionType::Overworld, (0, 0, 0)),
        SetSpawnOutcome::NoWorld
    );
    assert_eq!(
        setworldspawn::setworldspawn(true, DimensionType::TheNether, (0, 0, 0)),
        SetSpawnOutcome::NotOverworld
    );
    assert_eq!(
        setworldspawn::setworldspawn(true, DimensionType::OverworldCaves, (5, 70, -9)),
        SetSpawnOutcome::Moved { x: 5, y: 70, z: -9 }
    );
}

#[test]
fn ingredient_classification() {
    let tagged = RecipeIngredientTypes::Simple("#minecraft:planks".to_string());
    assert_eq!(tagged.kind(), IngredientKind::Tagged);
    let simple = RecipeIngredientTypes::Simple("minecraft:stick".to_string());
    assert_eq!(simple.kind(), IngredientKind::Simple);
    let empty = RecipeIngredientTypes::Simple(String::new());
    assert_eq!(empty.kind(), IngredientKind::Simple);
    let one_of = RecipeIngredientTypes::OneOf(vec!["a".to_string(), "b".to_string()]);
    assert_eq!(one_of.kind(), IngredientKind::OneOf);
}

#[test]
fn recipe_defaults() {
    let result = RecipeResultStruct { id: "minecraft:cake".to_string(), count: None };
    assert_eq!(result.effective_count(), 1);
    let result = RecipeResultStruct { id: "minecraft:torch".to_string(), count: Some(4) };
    assert_eq!(result.effective_count(), 4);
    assert_eq!(effective_category(&None), RecipeCategoryTypes::Misc);
    assert_eq!(
        effective_category(&Some(RecipeCategoryTypes::Food)),
        RecipeCategoryTypes::Food
    );
    let shaped = CraftingShapedRecipeStruct {
        category: None,
        group: None,
        show_notification: None,
        key: Vec::new(),
        pattern: Vec::new(),
        result: RecipeResultStruct { id: "x".to_string(), count: None },
    };
    assert!(shaped.effective_show_notification());
    assert_eq!(key_char("Xab"), 'X');
}

#[test]
fn recipes_partition_into_their_tables() {
    assert_eq!(destination(RecipeKind::Smelting), RecipeDestination::Cooking);
    assert_eq!(destination(RecipeKind::CraftingShaped), RecipeDestination::Crafting);
    assert_eq!(destination(RecipeKind::Stonecutting), RecipeDestination::Skipped);
    let kinds = vec![
        RecipeKind::Blasting,
        RecipeKind::CraftingShaped,
        RecipeKind::CraftingShapeless,
        RecipeKind::SmithingTrim,
        RecipeKind::Smoking,
        RecipeKind::CraftingDecoratedPot,
        RecipeKind::CraftingSpecial,
    ];
    assert_eq!(partition_counts(&kinds), (3, 2, 2));
}

#[test]
fn broadcast_motd_selection() {
    // A non-empty dedicated message is used as it is.
    let (motd, fell_back) =
        select_broadcast_motd(Some(b"My LAN".to_vec()), b"base\nmotd".to_vec());
    assert_eq!(motd, b"My LAN".to_vec());
    assert!(!fell_back);
    // An empty or missing one falls back, flattening line breaks.
    let (motd, fell_back) = select_broadcast_motd(Some(Vec::new()), b"base\nmotd".to_vec());
    assert_eq!(motd, b"base motd".to_vec());
    assert!(fell_back);
    let (motd, fell_back) = select_broadcast_motd(None, b"two\nlines\n".to_vec());
    assert_eq!(motd, b"two lines ".to_vec());
    assert!(fell_back);
}

#[test]
fn advertisement_markup() {
    let ad = advertisement(b"A server", 4445);
    assert_eq!(ad, b"[MOTD]A server[/MOTD][AD]4445[/AD]".to_vec());
    let ad = advertisement(b"", 0);
    assert_eq!(ad, b"[MOTD][/MOTD][AD]0[/AD]".to_vec());
}

#[test]
fn decimal_rendering() {
    for (v, text) in [(0u64, "0"), (7, "7"), (10, "10"), (65535, "65535"), (1000, "1000")] {
        let mut out = Vec::new();
        write_decimal(v, &mut out);
        assert_eq!(out, text.as_bytes().to_vec());
    }
}

//! The placement and tick decisions of the block handlers that gameplay
//! collaborators run when packets arrive: each decision works on a plain
//! snapshot of the blocks around the position, taken by the caller, and
//! says what the world loop is to do. The structs name the handlers as
//! the block registry registers them.

use vstd::prelude::*;

verus! {

/// What a block handler asks the world loop to do with the block it
/// guards.
#[derive(Debug, Clone, Copy, PartialEq, Eq, Structural)]
pub enum BlockFate {
    /// The block stays as it is.
    Keep,
    /// The block is broken.
    Break,
    /// A check is scheduled for the next tick.
    ScheduleCheck,
}

/// A horizontal neighbor as the cactus rule reads it.
#[derive(Debug, Clone, Copy, PartialEq, Eq, Structural)]
pub struct SideView {
    pub solid: bool,
    pub lava: bool,
}

/// What stands under a cactus, as its rule reads it.
#[derive(Debug, Clone, Copy, PartialEq, Eq, Structural)]
pub struct CactusBaseView {
    pub cactus: bool,
    pub sand_tagged: bool,
}

/// The cactus handler.
#[derive(Debug, Clone, Copy, PartialEq, Eq, Structural)]
pub struct CactusBlock;

/// A cactus may stand when no horizontal neighbor is solid or lava, the
/// block below is cactus or sand-tagged, and the block above is not
/// liquid.
pub open spec fn spec_cactus_can_place(
    sides: Seq<SideView>,
    below: CactusBaseView,
    above_liquid: bool,
) -> bool {
    (forall|i: int| 0 <= i < sides.len() ==> !(#[trigger] sides[i]).solid && !sides[i].lava) && (
    below.cactus || below.sand_tagged) && !above_liquid
}

impl CactusBlock {
    /// Decides whether a cactus may stand here.
    pub fn can_place_at(&self, sides: &Vec<SideView>, below: CactusBaseView, above_liquid: bool)
        -> (r: bool)
        ensures
            r == spec_cactus_can_place(sides@, below, above_liquid),
    {
        let n = sides.len();
        let mut i: usize = 0;
        while i < n
            invariant
                i <= n,
                n == sides@.len(),
                forall|j: int| 0 <= j < i ==> !(#[trigger] sides@[j]).solid && !sides@[j].lava,
            decreases n - i,
        {
            let side = sides[i];
            if side.solid || side.lava {
                return false;
            }
            i = i + 1;
        }
        (below.cactus || below.sand_tagged) && !above_liquid
    }

    /// The scheduled check: a cactus that may no longer stand breaks.
    pub fn on_scheduled_tick(
        &self,
        sides: &Vec<SideView>,
        below: CactusBaseView,
        above_liquid: bool,
    ) -> (r: BlockFate)
        ensures
            r == if spec_cactus_can_place(sides@, below, above_liquid) {
                BlockFate::Keep
            } else {
                BlockFate::Break
            },
    {
        if self.can_place_at(sides, below, above_liquid) {
            BlockFate::Keep
        } else {
            BlockFate::Break
        }
    }

    /// A neighbor changed: a cactus that may no longer stand schedules a
    /// check; the state it reports back is unchanged either way.
    pub fn get_state_for_neighbor_update(
        &self,
        sides: &Vec<SideView>,
        below: CactusBaseView,
        above_liquid: bool,
        state_id: u16,
    ) -> (r: (BlockFate, u16))
        ensures
            r.1 == state_id,
            r.0 == if spec_cactus_can_place(sides@, below, above_liquid) {
                BlockFate::Keep
            } else {
                BlockFate::ScheduleCheck
            },
    {
        if self.can_place_at(sides, below, above_liquid) {
            (BlockFate::Keep, state_id)
        } else {
            (BlockFate::ScheduleCheck, state_id)
        }
    }
}

/// What a cactus does on a random tick.
#[derive(Debug, Clone, Copy, PartialEq, Eq, Structural)]
pub enum CactusGrowth {
    /// The air above is missing or the age unread; nothing happens.
    Nothing,
    /// Full age: a new cactus appears above and this one starts over.
    GrowUp,
    /// The age advances by one.
    Age(u8),
}

/// The cactus random tick: with air above, a cactus at full age (15)
/// grows a segment and resets, a younger one ages by one; without air
/// above nothing happens.
pub fn cactus_random_tick(above_air: bool, age: u8) -> (r: CactusGrowth)
    requires
        age <= 15,
    ensures
        !above_air ==> r == CactusGrowth::Nothing,
        above_air && age == 15 ==> r == CactusGrowth::GrowUp,
        above_air && age < 15 ==> r == CactusGrowth::Age((age + 1) as u8),
{
    if !above_air {
        CactusGrowth::Nothing
    } else if age == 15 {
        CactusGrowth::GrowUp
    } else {
        CactusGrowth::Age(age + 1)
    }
}

/// A carpet may stand when the block below is not air.
pub open spec fn spec_carpet_can_place(below_air: bool) -> bool {
    !below_air
}

/// The wool-carpet handler.
#[derive(Debug, Clone, Copy, PartialEq, Eq, Structural)]
pub struct CarpetBlock;

/// The moss-carpet handler.
#[derive(Debug, Clone, Copy, PartialEq, Eq, Structural)]
pub struct MossCarpetBlock;

/// The pale-moss-carpet handler.
#[derive(Debug, Clone, Copy, PartialEq, Eq, Structural)]
pub struct PaleMossCarpetBlock;

/// The carpet rule shared by the three carpet handlers: standing on air
/// breaks on the scheduled check and schedules one on a neighbor change.
pub fn carpet_can_place_at(below_air: bool) -> (r: bool)
    ensures
        r == spec_carpet_can_place(below_air),
{
    !below_air
}

impl CarpetBlock {
    /// Decides whether this carpet may stand here.
    pub fn can_place_at(&self, below_air: bool) -> (r: bool)
        ensures
            r == spec_carpet_can_place(below_air),
    {
        carpet_can_place_at(below_air)
    }

    /// The scheduled check: a floating carpet breaks.
    pub fn on_scheduled_tick(&self, below_air: bool) -> (r: BlockFate)
        ensures
            r == if spec_carpet_can_place(below_air) {
                BlockFate::Keep
            } else {
                BlockFate::Break
            },
    {
        if carpet_can_place_at(below_air) {
            BlockFate::Keep
        } else {
            BlockFate::Break
        }
    }

    /// A neighbor changed: a floating carpet schedules a check; the state
    /// it reports back is unchanged either way.
    pub fn get_state_for_neighbor_update(&self, below_air: bool, state_id: u16) -> (r: (
        BlockFate,
        u16,
    ))
        ensures
            r.1 == state_id,
            r.0 == if spec_carpet_can_place(below_air) {
                BlockFate::Keep
            } else {
                BlockFate::ScheduleCheck
            },
    {
        if carpet_can_place_at(below_air) {
            (BlockFate::Keep, state_id)
        } else {
            (BlockFate::ScheduleCheck, state_id)
        }
    }
}

impl MossCarpetBlock {
    /// Decides whether this carpet may stand here.
    pub fn can_place_at(&self, below_air: bool) -> (r: bool)
        ensures
            r == spec_carpet_can_place(below_air),
    {
        carpet_can_place_at(below_air)
    }
}

impl PaleMossCarpetBlock {
    /// Decides whether this carpet may stand here.
    pub fn can_place_at(&self, below_air: bool) -> (r: bool)
        ensures
            r == spec_carpet_can_place(below_air),
    {
        carpet_can_place_at(below_air)
    }
}

/// The soul-fire handler.
#[derive(Debug, Clone, Copy, PartialEq, Eq, Structural)]
pub struct SoulFireBlock;

impl SoulFireBlock {
    /// Whether a block can carry soul fire; the caller reads the tag
    /// table.
    pub fn is_soul_base(below_soul_base_tagged: bool) -> (r: bool)
        ensures
            r == below_soul_base_tagged,
    {
        below_soul_base_tagged
    }

    /// Soul fire may stand only on a soul base.
    pub fn can_place_at(&self, below_soul_base_tagged: bool) -> (r: bool)
        ensures
            r == below_soul_base_tagged,
    {
        below_soul_base_tagged
    }

    /// A neighbor changed: soul fire off its base becomes air on the
    /// spot; on its base it keeps its state.
    pub fn get_state_for_neighbor_update(
        &self,
        below_soul_base_tagged: bool,
        state_id: u16,
        air_state_id: u16,
    ) -> (r: u16)
        ensures
            below_soul_base_tagged ==> r == state_id,
            !below_soul_base_tagged ==> r == air_state_id,
    {
        if !below_soul_base_tagged {
            return air_state_id;
        }
        state_id
    }
}

/// The flower-pot handler.
#[derive(Debug, Clone, Copy, PartialEq, Eq, Structural)]
pub struct FlowerPotBlock;

/// What a use of an item on a flower pot does.
#[derive(Debug, Clone, Copy, PartialEq, Eq, Structural)]
pub enum FlowerPotAction {
    /// The empty pot takes the held plant; the interaction succeeds.
    PlacePotted(u16),
    /// The empty pot takes nothing it recognizes; the interaction still
    /// succeeds.
    NothingPlanted,
    /// A filled pot faced with a pottable item consumes the use; nothing
    /// changes.
    ConsumeUse,
    /// A filled pot is emptied back to the bare pot; the interaction
    /// succeeds.
    EmptyPot,
}

impl FlowerPotBlock {
    /// Decides a use of an item on a pot: an empty pot takes a pottable
    /// plant (`potted_block_id` is 0 when the held item pots to
    /// nothing); a filled pot consumes the use when the item is
    /// pottable, and is emptied otherwise.
    pub fn use_with_item(&self, is_empty_pot: bool, potted_block_id: u16) -> (r: FlowerPotAction)
        ensures
            is_empty_pot && potted_block_id != 0 ==> r == FlowerPotAction::PlacePotted(
                potted_block_id,
            ),
            is_empty_pot && potted_block_id == 0 ==> r == FlowerPotAction::NothingPlanted,
            !is_empty_pot && potted_block_id != 0 ==> r == FlowerPotAction::ConsumeUse,
            !is_empty_pot && potted_block_id == 0 ==> r == FlowerPotAction::EmptyPot,
    {
        if is_empty_pot {
            if potted_block_id != 0 {
                FlowerPotAction::PlacePotted(potted_block_id)
            } else {
                FlowerPotAction::NothingPlanted
            }
        } else if potted_block_id != 0 {
            FlowerPotAction::ConsumeUse
        } else {
            FlowerPotAction::EmptyPot
        }
    }
}

/// The potted eyeblossom's day-night swap.
#[derive(Debug, Clone, Copy, PartialEq, Eq, Structural)]
pub enum EyeblossomSwap {
    /// No swap this tick.
    Stay,
    /// The closed flower opens.
    Open,
    /// The open flower closes.
    Close,
}

/// The time of day past which the eyeblossom opens, within one day of
/// 24000 ticks.
pub open spec fn eyeblossom_night(time_of_day: nat) -> bool {
    time_of_day % 24000 > 14500
}

/// The potted eyeblossom's random tick: in an overworld dimension the
/// closed flower opens at night, and anywhere the open flower closes by
/// day.
pub fn flower_pot_random_tick(
    overworldish: bool,
    is_closed_eyeblossom: bool,
    is_open_eyeblossom: bool,
    time_of_day: u64,
) -> (r: EyeblossomSwap)
    requires
        !(is_closed_eyeblossom && is_open_eyeblossom),
    ensures
        overworldish && is_closed_eyeblossom && eyeblossom_night(time_of_day as nat) ==> r
            == EyeblossomSwap::Open,
        is_open_eyeblossom && !eyeblossom_night(time_of_day as nat) ==> r == EyeblossomSwap::Close,
        !(overworldish && is_closed_eyeblossom && eyeblossom_night(time_of_day as nat)) && !(
        is_open_eyeblossom && !eyeblossom_night(time_of_day as nat)) ==> r == EyeblossomSwap::Stay,
{
    let night = time_of_day % 24000 > 14500;
    if overworldish && is_closed_eyeblossom && night {
        EyeblossomSwap::Open
    } else if is_open_eyeblossom && !night {
        EyeblossomSwap::Close
    } else {
        EyeblossomSwap::Stay
    }
}

/// The flowerbed handler (pink petals and wildflowers).
#[derive(Debug, Clone, Copy, PartialEq, Eq, Structural)]
pub struct FlowerbedBlock;

impl FlowerbedBlock {
    /// The registry namespace the handler registers under.
    pub fn namespace(&self) -> (r: &'static str)
        ensures
            r@ == "minecraft"@,
    {
        "minecraft"
    }

    /// The block names the handler registers for.
    pub fn ids(&self) -> (r: (&'static str, &'static str))
        ensures
            r.0@ == "pink_petals"@,
            r.1@ == "wildflowers"@,
    {
        ("pink_petals", "wildflowers")
    }

    /// A flowerbed may stand on dirt-tagged ground or farmland.
    pub fn can_place_at(&self, below_dirt_tagged: bool, below_farmland: bool) -> (r: bool)
        ensures
            r == (below_dirt_tagged || below_farmland),
    {
        below_dirt_tagged || below_farmland
    }
}

} // verus!

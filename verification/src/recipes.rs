//! The recipe descriptions as the data files carry them, and the
//! normalizations applied when they are compiled into the fixed tables:
//! a missing category falls back to the miscellaneous one, a missing
//! result count means one item, a shaped recipe shows its notification
//! unless told otherwise, an ingredient written with a leading `#` names
//! a tag rather than an item, and each shaped-pattern key is its first
//! character. Reading the files and rendering the tables happen at the
//! caller.

use vstd::prelude::*;

verus! {

use vstd::string::StrSliceExecFns;

/// A recipe book category.
#[derive(Debug, Clone, Copy, PartialEq, Eq, Structural)]
pub enum RecipeCategoryTypes {
    Equipment,
    Building,
    Restone,
    Misc,
    Food,
    Blocks,
}

/// One ingredient as the data files write it: a single name, or any one
/// of several names.
#[derive(Debug)]
pub enum RecipeIngredientTypes {
    Simple(String),
    OneOf(Vec<String>),
}

/// How an ingredient name reads once normalized: a tag when it starts
/// with `#`, a plain item otherwise.
#[derive(Debug, Clone, Copy, PartialEq, Eq, Structural)]
pub enum IngredientKind {
    Tagged,
    Simple,
    OneOf,
}

/// A simple ingredient whose name starts with `#` names a tag.
pub open spec fn spec_ingredient_kind(names_tag: bool, one_of: bool) -> IngredientKind {
    if one_of {
        IngredientKind::OneOf
    } else if names_tag {
        IngredientKind::Tagged
    } else {
        IngredientKind::Simple
    }
}

impl RecipeIngredientTypes {
    /// Whether this ingredient, written as a single name, names a tag.
    pub open spec fn spec_names_tag(&self) -> bool {
        match self {
            RecipeIngredientTypes::Simple(name) => name@.len() > 0 && name@[0] == '#',
            RecipeIngredientTypes::OneOf(_) => false,
        }
    }

    /// Classifies this ingredient for the compiled table.
    pub fn kind(&self) -> (r: IngredientKind)
        ensures
            r == spec_ingredient_kind(self.spec_names_tag(), self is OneOf),
    {
        match self {
            RecipeIngredientTypes::Simple(name) => {
                if name.as_str().unicode_len() > 0 && name.as_str().get_char(0) == '#' {
                    IngredientKind::Tagged
                } else {
                    IngredientKind::Simple
                }
            },
            RecipeIngredientTypes::OneOf(_) => IngredientKind::OneOf,
        }
    }
}

/// The item a recipe produces, with its count left out when it is one.
#[derive(Debug)]
pub struct RecipeResultStruct {
    pub id: String,
    pub count: Option<u8>,
}

impl RecipeResultStruct {
    /// The count the compiled table records: the written one, or one.
    pub fn effective_count(&self) -> (r: u8)
        ensures
            r == match self.count {
                Some(c) => c,
                None => 1u8,
            },
    {
        match self.count {
            Some(c) => c,
            None => 1,
        }
    }
}

/// The category the compiled table records: the written one, or the
/// miscellaneous fallback.
pub fn effective_category(category: &Option<RecipeCategoryTypes>) -> (r: RecipeCategoryTypes)
    ensures
        r == match category {
            Some(c) => *c,
            None => RecipeCategoryTypes::Misc,
        },
{
    match category {
        Some(c) => *c,
        None => RecipeCategoryTypes::Misc,
    }
}

/// A shaped recipe as the data files carry it: the pattern rows, the
/// key-to-ingredient pairs, and the result.
#[derive(Debug)]
pub struct CraftingShapedRecipeStruct {
    pub category: Option<RecipeCategoryTypes>,
    pub group: Option<String>,
    pub show_notification: Option<bool>,
    pub key: Vec<(String, RecipeIngredientTypes)>,
    pub pattern: Vec<String>,
    pub result: RecipeResultStruct,
}

impl CraftingShapedRecipeStruct {
    /// Whether the compiled table shows the unlock notification: the
    /// written choice, or shown.
    pub fn effective_show_notification(&self) -> (r: bool)
        ensures
            r == match self.show_notification {
                Some(b) => b,
                None => true,
            },
    {
        match self.show_notification {
            Some(b) => b,
            None => true,
        }
    }
}

/// The single character a pattern key is compiled to: its first. A key
/// is never written empty.
pub fn key_char(key: &str) -> (r: char)
    requires
        key@.len() > 0,
    ensures
        r == key@[0],
{
    key.get_char(0)
}

/// A shapeless recipe as the data files carry it.
#[derive(Debug)]
pub struct CraftingShapelessRecipeStruct {
    pub category: Option<RecipeCategoryTypes>,
    pub group: Option<String>,
    pub ingredients: Vec<RecipeIngredientTypes>,
    pub result: RecipeResultStruct,
}

/// A transmute recipe as the data files carry it.
#[derive(Debug)]
pub struct CraftingTransmuteRecipeStruct {
    pub category: Option<RecipeCategoryTypes>,
    pub group: Option<String>,
    pub input: RecipeIngredientTypes,
    pub material: RecipeIngredientTypes,
    pub result: RecipeResultStruct,
}

/// A decorated-pot recipe as the data files carry it.
#[derive(Debug)]
pub struct CraftingDecoratedPotStruct {
    pub category: Option<RecipeCategoryTypes>,
}

/// Which compiled table a recipe lands in: crafting recipes in one,
/// cooking recipes in another, and the kinds the tables leave out in
/// neither.
#[derive(Debug, Clone, Copy, PartialEq, Eq, Structural)]
pub enum RecipeDestination {
    Crafting,
    Cooking,
    Skipped,
}

/// The kinds a recipe file entry can be of.
#[derive(Debug, Clone, Copy, PartialEq, Eq, Structural)]
pub enum RecipeKind {
    Blasting,
    CampfireCooking,
    CraftingShaped,
    CraftingShapeless,
    CraftingTransmute,
    CraftingDecoratedPot,
    Smelting,
    SmithingTransform,
    SmithingTrim,
    Smoking,
    Stonecutting,
    CraftingSpecial,
}

/// Where a recipe kind is compiled to.
pub open spec fn spec_destination(kind: RecipeKind) -> RecipeDestination {
    match kind {
        RecipeKind::Blasting => RecipeDestination::Cooking,
        RecipeKind::CampfireCooking => RecipeDestination::Cooking,
        RecipeKind::Smelting => RecipeDestination::Cooking,
        RecipeKind::Smoking => RecipeDestination::Cooking,
        RecipeKind::CraftingShaped => RecipeDestination::Crafting,
        RecipeKind::CraftingShapeless => RecipeDestination::Crafting,
        RecipeKind::CraftingTransmute => RecipeDestination::Crafting,
        RecipeKind::CraftingDecoratedPot => RecipeDestination::Crafting,
        RecipeKind::SmithingTransform => RecipeDestination::Skipped,
        RecipeKind::SmithingTrim => RecipeDestination::Skipped,
        RecipeKind::Stonecutting => RecipeDestination::Skipped,
        RecipeKind::CraftingSpecial => RecipeDestination::Skipped,
    }
}

/// Sorts one recipe kind into its compiled table.
pub fn destination(kind: RecipeKind) -> (r: RecipeDestination)
    ensures
        r == spec_destination(kind),
{
    match kind {
        RecipeKind::Blasting => RecipeDestination::Cooking,
        RecipeKind::CampfireCooking => RecipeDestination::Cooking,
        RecipeKind::Smelting => RecipeDestination::Cooking,
        RecipeKind::Smoking => RecipeDestination::Cooking,
        RecipeKind::CraftingShaped => RecipeDestination::Crafting,
        RecipeKind::CraftingShapeless => RecipeDestination::Crafting,
        RecipeKind::CraftingTransmute => RecipeDestination::Crafting,
        RecipeKind::CraftingDecoratedPot => RecipeDestination::Crafting,
        RecipeKind::SmithingTransform => RecipeDestination::Skipped,
        RecipeKind::SmithingTrim => RecipeDestination::Skipped,
        RecipeKind::Stonecutting => RecipeDestination::Skipped,
        RecipeKind::CraftingSpecial => RecipeDestination::Skipped,
    }
}

/// Counts where a run of recipe kinds lands: how many go to the crafting
/// table, how many to the cooking table, how many to neither.
pub fn partition_counts(kinds: &Vec<RecipeKind>) -> (r: (usize, usize, usize))
    ensures
        r.0 as nat == kinds@.filter(
            |k: RecipeKind| spec_destination(k) == RecipeDestination::Crafting,
        ).len(),
        r.1 as nat == kinds@.filter(
            |k: RecipeKind| spec_destination(k) == RecipeDestination::Cooking,
        ).len(),
        r.2 as nat == kinds@.filter(
            |k: RecipeKind| spec_destination(k) == RecipeDestination::Skipped,
        ).len(),
        r.0 + r.1 + r.2 == kinds@.len(),
{
    let n = kinds.len();
    let mut crafting: usize = 0;
    let mut cooking: usize = 0;
    let mut skipped: usize = 0;
    let mut i: usize = 0;
    while i < n
        invariant
            i <= n,
            n == kinds@.len(),
            crafting as nat == kinds@.take(i as int).filter(
                |k: RecipeKind| spec_destination(k) == RecipeDestination::Crafting,
            ).len(),
            cooking as nat == kinds@.take(i as int).filter(
                |k: RecipeKind| spec_destination(k) == RecipeDestination::Cooking,
            ).len(),
            skipped as nat == kinds@.take(i as int).filter(
                |k: RecipeKind| spec_destination(k) == RecipeDestination::Skipped,
            ).len(),
            crafting + cooking + skipped == i,
        decreases n - i,
    {
        proof {
            assert(kinds@.take(i + 1).drop_last() =~= kinds@.take(i as int));
            assert(kinds@.take(i + 1).last() == kinds@[i as int]);
        }
        let ghost prefix = kinds@.take(i as int);
        match destination(kinds[i]) {
            RecipeDestination::Crafting => {
                crafting = crafting + 1;
            },
            RecipeDestination::Cooking => {
                cooking = cooking + 1;
            },
            RecipeDestination::Skipped => {
                skipped = skipped + 1;
            },
        }
        proof {
            lemma_filter_snoc(kinds@.take(i + 1));
        }
        i = i + 1;
    }
    proof {
        assert(kinds@.take(n as int) =~= kinds@);
    }
    (crafting, cooking, skipped)
}

/// Filtering a run ending in one element counts that element once, under
/// exactly the filter it satisfies.
proof fn lemma_filter_snoc(s: Seq<RecipeKind>)
    requires
        s.len() > 0,
    ensures
        ({
            let head = s.drop_last();
            let k = s.last();
            &&& s.filter(|x: RecipeKind| spec_destination(x) == RecipeDestination::Crafting).len()
                == head.filter(
                |x: RecipeKind| spec_destination(x) == RecipeDestination::Crafting,
            ).len() + if spec_destination(k) == RecipeDestination::Crafting {
                1int
            } else {
                0int
            }
            &&& s.filter(|x: RecipeKind| spec_destination(x) == RecipeDestination::Cooking).len()
                == head.filter(|x: RecipeKind| spec_destination(x) == RecipeDestination::Cooking).len()
                + if spec_destination(k) == RecipeDestination::Cooking {
                1int
            } else {
                0int
            }
            &&& s.filter(|x: RecipeKind| spec_destination(x) == RecipeDestination::Skipped).len()
                == head.filter(|x: RecipeKind| spec_destination(x) == RecipeDestination::Skipped).len()
                + if spec_destination(k) == RecipeDestination::Skipped {
                1int
            } else {
                0int
            }
        }),
{
    let head = s.drop_last();
    let k = s.last();
    assert(s =~= head.push(k));
    reveal(Seq::filter);
}

} // verus!

use vstd::prelude::*;
use crate::ids::{CharacterId, ItemId};

verus! {

/// The effect of a pet.
#[derive(Debug, Clone, Copy, PartialEq, Eq, Structural)]
pub struct PetEffectData {
    pub ty: u8,
    pub pet_ix: u8,
}

/// Whether a flag is set.
pub fn is_true(v: &bool) -> (r: bool)
    ensures
        r == *v,
{
    *v
}

/// The use of an item that protects against losing exp on death; the item
/// is there exactly when `use_item` is set.
#[derive(Debug, Clone, Copy, PartialEq, Eq, Structural)]
pub struct ProtectOnDieItemEffectData {
    pub use_item: bool,
    pub day: u8,
    pub times: u8,
    pub item_id: Option<ItemId>,
}

/// The effect of a quest.
#[derive(Debug, Clone)]
pub struct QuestEffectData {
    pub quest_info: u8,
    pub item_id: ItemId,
    pub quest_item_fmt: u32,
    pub name: String,
    pub effect: u32,
}

/// The use of a lottery item, with the path played on success.
#[derive(Debug, Clone)]
pub struct LotteryUseEffectData {
    pub item_id: ItemId,
    pub path: Option<String>,
}

/// An effect oriented to the avatar, by path.
#[derive(Debug, Clone)]
pub struct AvatarOrientedData {
    pub path: String,
    pub unused: u8,
}

/// The use of an incubator.
#[derive(Debug, Clone)]
pub struct IncubatorUseData {
    pub item_id: ItemId,
    pub path: String,
}

/// The effect of an item upgrade.
#[derive(Debug, Clone, Copy, PartialEq, Eq, Structural)]
pub struct ItemUpgradeEffectResp {
    pub char_id: CharacterId,
    pub success: bool,
    pub destroyed: bool,
    pub enchant_skill: bool,
    pub enchant_category: u32,
    pub white_scroll: bool,
    pub recoverable: bool,
}

/// The effect of a hyper upgrade.
#[derive(Debug, Clone, Copy, PartialEq, Eq, Structural)]
pub struct ItemHyperUpgradeEffectResp {
    pub char_id: CharacterId,
    pub success: bool,
    pub destroyed: bool,
    pub enchant_skill: bool,
    pub enchant_category: u32,
}

} // verus!

use vstd::prelude::*;
use vstd::std_specs::convert::{FromSpecImpl, TryFromSpecImpl};

use crate::error::PacketError;
use crate::item::Item;

verus! {

/// A slot of a character's equipment.
#[derive(Debug, Clone, Copy, PartialEq, Eq, Structural)]
pub enum CharEquipSlot {
    Hair,
    Hat,
    FaceAccessory,
    EyeAccessory,
    EarAccessory,
    Top,
    Bottom,
    Shoes,
    Gloves,
    Cape,
    Shield,
    Weapon,
    Ring1,
    Ring2,
    PetEquip,
    Ring3,
    Ring4,
    Pendant,
    TamedMob,
    Saddle,
    MobEquip,
    PetRingLabel,
    PetItem,
    PetMeso,
    PetHpConsume,
    PetMpConsume,
    PetSweepForDrop,
    PetLongRange,
    PetPickUpOthers,
    PetRingQuote,
    Pet2Wear,
    Pet2Label,
    Pet2Quote,
    Pet2Item,
    Pet2Meso,
    Pet2SweepForDrop,
    Pet2LongRange,
    Pet2PickUpOthers,
    Pet3Wear,
    Pet3Label,
    Pet3Quote,
    Pet3Item,
    Pet3Meso,
    Pet3SweepForDrop,
    Pet3LongRange,
    Pet3PickUpOthers,
    Pet1IgnoreItems,
    Pet2IgnoreItems,
    Pet3IgnoreItems,
    Medal,
    Belt,
    Shoulder,
    Nothing3,
    Nothing2,
    Nothing1,
    Nothing0,
    ExtPendant1,
    Ext1,
    Ext2,
    Ext3,
    Ext4,
    Ext5,
    Ext6,
    Sticker,
}

impl CharEquipSlot {
    /// The wire code of a value.
    pub open spec fn code_of(self) -> u8 {
        match self {
            CharEquipSlot::Hair => 0u8,
            CharEquipSlot::Hat => 1u8,
            CharEquipSlot::FaceAccessory => 2u8,
            CharEquipSlot::EyeAccessory => 3u8,
            CharEquipSlot::EarAccessory => 4u8,
            CharEquipSlot::Top => 5u8,
            CharEquipSlot::Bottom => 6u8,
            CharEquipSlot::Shoes => 7u8,
            CharEquipSlot::Gloves => 8u8,
            CharEquipSlot::Cape => 9u8,
            CharEquipSlot::Shield => 10u8,
            CharEquipSlot::Weapon => 11u8,
            CharEquipSlot::Ring1 => 12u8,
            CharEquipSlot::Ring2 => 13u8,
            CharEquipSlot::PetEquip => 14u8,
            CharEquipSlot::Ring3 => 15u8,
            CharEquipSlot::Ring4 => 16u8,
            CharEquipSlot::Pendant => 17u8,
            CharEquipSlot::TamedMob => 18u8,
            CharEquipSlot::Saddle => 19u8,
            CharEquipSlot::MobEquip => 20u8,
            CharEquipSlot::PetRingLabel => 21u8,
            CharEquipSlot::PetItem => 22u8,
            CharEquipSlot::PetMeso => 23u8,
            CharEquipSlot::PetHpConsume => 24u8,
            CharEquipSlot::PetMpConsume => 25u8,
            CharEquipSlot::PetSweepForDrop => 26u8,
            CharEquipSlot::PetLongRange => 27u8,
            CharEquipSlot::PetPickUpOthers => 28u8,
            CharEquipSlot::PetRingQuote => 29u8,
            CharEquipSlot::Pet2Wear => 30u8,
            CharEquipSlot::Pet2Label => 31u8,
            CharEquipSlot::Pet2Quote => 32u8,
            CharEquipSlot::Pet2Item => 33u8,
            CharEquipSlot::Pet2Meso => 34u8,
            CharEquipSlot::Pet2SweepForDrop => 35u8,
            CharEquipSlot::Pet2LongRange => 36u8,
            CharEquipSlot::Pet2PickUpOthers => 37u8,
            CharEquipSlot::Pet3Wear => 38u8,
            CharEquipSlot::Pet3Label => 39u8,
            CharEquipSlot::Pet3Quote => 40u8,
            CharEquipSlot::Pet3Item => 41u8,
            CharEquipSlot::Pet3Meso => 42u8,
            CharEquipSlot::Pet3SweepForDrop => 43u8,
            CharEquipSlot::Pet3LongRange => 44u8,
            CharEquipSlot::Pet3PickUpOthers => 45u8,
            CharEquipSlot::Pet1IgnoreItems => 46u8,
            CharEquipSlot::Pet2IgnoreItems => 47u8,
            CharEquipSlot::Pet3IgnoreItems => 48u8,
            CharEquipSlot::Medal => 49u8,
            CharEquipSlot::Belt => 50u8,
            CharEquipSlot::Shoulder => 51u8,
            CharEquipSlot::Nothing3 => 54u8,
            CharEquipSlot::Nothing2 => 55u8,
            CharEquipSlot::Nothing1 => 56u8,
            CharEquipSlot::Nothing0 => 57u8,
            CharEquipSlot::ExtPendant1 => 59u8,
            CharEquipSlot::Ext1 => 60u8,
            CharEquipSlot::Ext2 => 61u8,
            CharEquipSlot::Ext3 => 62u8,
            CharEquipSlot::Ext4 => 63u8,
            CharEquipSlot::Ext5 => 64u8,
            CharEquipSlot::Ext6 => 65u8,
            CharEquipSlot::Sticker => 100u8,
        }
    }

    /// The value a wire code stands for, if any.
    pub open spec fn of_code(c: u8) -> Option<CharEquipSlot> {
        match c {
            0u8 => Some(CharEquipSlot::Hair),
            1u8 => Some(CharEquipSlot::Hat),
            2u8 => Some(CharEquipSlot::FaceAccessory),
            3u8 => Some(CharEquipSlot::EyeAccessory),
            4u8 => Some(CharEquipSlot::EarAccessory),
            5u8 => Some(CharEquipSlot::Top),
            6u8 => Some(CharEquipSlot::Bottom),
            7u8 => Some(CharEquipSlot::Shoes),
            8u8 => Some(CharEquipSlot::Gloves),
            9u8 => Some(CharEquipSlot::Cape),
            10u8 => Some(CharEquipSlot::Shield),
            11u8 => Some(CharEquipSlot::Weapon),
            12u8 => Some(CharEquipSlot::Ring1),
            13u8 => Some(CharEquipSlot::Ring2),
            14u8 => Some(CharEquipSlot::PetEquip),
            15u8 => Some(CharEquipSlot::Ring3),
            16u8 => Some(CharEquipSlot::Ring4),
            17u8 => Some(CharEquipSlot::Pendant),
            18u8 => Some(CharEquipSlot::TamedMob),
            19u8 => Some(CharEquipSlot::Saddle),
            20u8 => Some(CharEquipSlot::MobEquip),
            21u8 => Some(CharEquipSlot::PetRingLabel),
            22u8 => Some(CharEquipSlot::PetItem),
            23u8 => Some(CharEquipSlot::PetMeso),
            24u8 => Some(CharEquipSlot::PetHpConsume),
            25u8 => Some(CharEquipSlot::PetMpConsume),
            26u8 => Some(CharEquipSlot::PetSweepForDrop),
            27u8 => Some(CharEquipSlot::PetLongRange),
            28u8 => Some(CharEquipSlot::PetPickUpOthers),
            29u8 => Some(CharEquipSlot::PetRingQuote),
            30u8 => Some(CharEquipSlot::Pet2Wear),
            31u8 => Some(CharEquipSlot::Pet2Label),
            32u8 => Some(CharEquipSlot::Pet2Quote),
            33u8 => Some(CharEquipSlot::Pet2Item),
            34u8 => Some(CharEquipSlot::Pet2Meso),
            35u8 => Some(CharEquipSlot::Pet2SweepForDrop),
            36u8 => Some(CharEquipSlot::Pet2LongRange),
            37u8 => Some(CharEquipSlot::Pet2PickUpOthers),
            38u8 => Some(CharEquipSlot::Pet3Wear),
            39u8 => Some(CharEquipSlot::Pet3Label),
            40u8 => Some(CharEquipSlot::Pet3Quote),
            41u8 => Some(CharEquipSlot::Pet3Item),
            42u8 => Some(CharEquipSlot::Pet3Meso),
            43u8 => Some(CharEquipSlot::Pet3SweepForDrop),
            44u8 => Some(CharEquipSlot::Pet3LongRange),
            45u8 => Some(CharEquipSlot::Pet3PickUpOthers),
            46u8 => Some(CharEquipSlot::Pet1IgnoreItems),
            47u8 => Some(CharEquipSlot::Pet2IgnoreItems),
            48u8 => Some(CharEquipSlot::Pet3IgnoreItems),
            49u8 => Some(CharEquipSlot::Medal),
            50u8 => Some(CharEquipSlot::Belt),
            51u8 => Some(CharEquipSlot::Shoulder),
            54u8 => Some(CharEquipSlot::Nothing3),
            55u8 => Some(CharEquipSlot::Nothing2),
            56u8 => Some(CharEquipSlot::Nothing1),
            57u8 => Some(CharEquipSlot::Nothing0),
            59u8 => Some(CharEquipSlot::ExtPendant1),
            60u8 => Some(CharEquipSlot::Ext1),
            61u8 => Some(CharEquipSlot::Ext2),
            62u8 => Some(CharEquipSlot::Ext3),
            63u8 => Some(CharEquipSlot::Ext4),
            64u8 => Some(CharEquipSlot::Ext5),
            65u8 => Some(CharEquipSlot::Ext6),
            100u8 => Some(CharEquipSlot::Sticker),
            _ => None,
        }
    }

    /// Decoding the code of a value gives that value back.
    pub proof fn lemma_code_roundtrip(self)
        ensures
            CharEquipSlot::of_code(self.code_of()) == Some(self),
    {
    }

    /// A code that decodes to a value is that value's code.
    pub proof fn lemma_decode_roundtrip(c: u8)
        ensures
            CharEquipSlot::of_code(c) matches Some(v) ==> v.code_of() == c,
    {
    }
}

impl From<CharEquipSlot> for u8 {
    fn from(v: CharEquipSlot) -> (r: u8) {
        match v {
            CharEquipSlot::Hair => 0,
            CharEquipSlot::Hat => 1,
            CharEquipSlot::FaceAccessory => 2,
            CharEquipSlot::EyeAccessory => 3,
            CharEquipSlot::EarAccessory => 4,
            CharEquipSlot::Top => 5,
            CharEquipSlot::Bottom => 6,
            CharEquipSlot::Shoes => 7,
            CharEquipSlot::Gloves => 8,
            CharEquipSlot::Cape => 9,
            CharEquipSlot::Shield => 10,
            CharEquipSlot::Weapon => 11,
            CharEquipSlot::Ring1 => 12,
            CharEquipSlot::Ring2 => 13,
            CharEquipSlot::PetEquip => 14,
            CharEquipSlot::Ring3 => 15,
            CharEquipSlot::Ring4 => 16,
            CharEquipSlot::Pendant => 17,
            CharEquipSlot::TamedMob => 18,
            CharEquipSlot::Saddle => 19,
            CharEquipSlot::MobEquip => 20,
            CharEquipSlot::PetRingLabel => 21,
            CharEquipSlot::PetItem => 22,
            CharEquipSlot::PetMeso => 23,
            CharEquipSlot::PetHpConsume => 24,
            CharEquipSlot::PetMpConsume => 25,
            CharEquipSlot::PetSweepForDrop => 26,
            CharEquipSlot::PetLongRange => 27,
            CharEquipSlot::PetPickUpOthers => 28,
            CharEquipSlot::PetRingQuote => 29,
            CharEquipSlot::Pet2Wear => 30,
            CharEquipSlot::Pet2Label => 31,
            CharEquipSlot::Pet2Quote => 32,
            CharEquipSlot::Pet2Item => 33,
            CharEquipSlot::Pet2Meso => 34,
            CharEquipSlot::Pet2SweepForDrop => 35,
            CharEquipSlot::Pet2LongRange => 36,
            CharEquipSlot::Pet2PickUpOthers => 37,
            CharEquipSlot::Pet3Wear => 38,
            CharEquipSlot::Pet3Label => 39,
            CharEquipSlot::Pet3Quote => 40,
            CharEquipSlot::Pet3Item => 41,
            CharEquipSlot::Pet3Meso => 42,
            CharEquipSlot::Pet3SweepForDrop => 43,
            CharEquipSlot::Pet3LongRange => 44,
            CharEquipSlot::Pet3PickUpOthers => 45,
            CharEquipSlot::Pet1IgnoreItems => 46,
            CharEquipSlot::Pet2IgnoreItems => 47,
            CharEquipSlot::Pet3IgnoreItems => 48,
            CharEquipSlot::Medal => 49,
            CharEquipSlot::Belt => 50,
            CharEquipSlot::Shoulder => 51,
            CharEquipSlot::Nothing3 => 54,
            CharEquipSlot::Nothing2 => 55,
            CharEquipSlot::Nothing1 => 56,
            CharEquipSlot::Nothing0 => 57,
            CharEquipSlot::ExtPendant1 => 59,
            CharEquipSlot::Ext1 => 60,
            CharEquipSlot::Ext2 => 61,
            CharEquipSlot::Ext3 => 62,
            CharEquipSlot::Ext4 => 63,
            CharEquipSlot::Ext5 => 64,
            CharEquipSlot::Ext6 => 65,
            CharEquipSlot::Sticker => 100,
        }
    }
}

impl FromSpecImpl<CharEquipSlot> for u8 {
    open spec fn obeys_from_spec() -> bool {
        true
    }

    open spec fn from_spec(v: CharEquipSlot) -> u8 {
        v.code_of()
    }
}

impl TryFrom<u8> for CharEquipSlot {
    type Error = PacketError;

    fn try_from(c: u8) -> (r: Result<CharEquipSlot, PacketError>) {
        match c {
            0 => Ok(CharEquipSlot::Hair),
            1 => Ok(CharEquipSlot::Hat),
            2 => Ok(CharEquipSlot::FaceAccessory),
            3 => Ok(CharEquipSlot::EyeAccessory),
            4 => Ok(CharEquipSlot::EarAccessory),
            5 => Ok(CharEquipSlot::Top),
            6 => Ok(CharEquipSlot::Bottom),
            7 => Ok(CharEquipSlot::Shoes),
            8 => Ok(CharEquipSlot::Gloves),
            9 => Ok(CharEquipSlot::Cape),
            10 => Ok(CharEquipSlot::Shield),
            11 => Ok(CharEquipSlot::Weapon),
            12 => Ok(CharEquipSlot::Ring1),
            13 => Ok(CharEquipSlot::Ring2),
            14 => Ok(CharEquipSlot::PetEquip),
            15 => Ok(CharEquipSlot::Ring3),
            16 => Ok(CharEquipSlot::Ring4),
            17 => Ok(CharEquipSlot::Pendant),
            18 => Ok(CharEquipSlot::TamedMob),
            19 => Ok(CharEquipSlot::Saddle),
            20 => Ok(CharEquipSlot::MobEquip),
            21 => Ok(CharEquipSlot::PetRingLabel),
            22 => Ok(CharEquipSlot::PetItem),
            23 => Ok(CharEquipSlot::PetMeso),
            24 => Ok(CharEquipSlot::PetHpConsume),
            25 => Ok(CharEquipSlot::PetMpConsume),
            26 => Ok(CharEquipSlot::PetSweepForDrop),
            27 => Ok(CharEquipSlot::PetLongRange),
            28 => Ok(CharEquipSlot::PetPickUpOthers),
            29 => Ok(CharEquipSlot::PetRingQuote),
            30 => Ok(CharEquipSlot::Pet2Wear),
            31 => Ok(CharEquipSlot::Pet2Label),
            32 => Ok(CharEquipSlot::Pet2Quote),
            33 => Ok(CharEquipSlot::Pet2Item),
            34 => Ok(CharEquipSlot::Pet2Meso),
            35 => Ok(CharEquipSlot::Pet2SweepForDrop),
            36 => Ok(CharEquipSlot::Pet2LongRange),
            37 => Ok(CharEquipSlot::Pet2PickUpOthers),
            38 => Ok(CharEquipSlot::Pet3Wear),
            39 => Ok(CharEquipSlot::Pet3Label),
            40 => Ok(CharEquipSlot::Pet3Quote),
            41 => Ok(CharEquipSlot::Pet3Item),
            42 => Ok(CharEquipSlot::Pet3Meso),
            43 => Ok(CharEquipSlot::Pet3SweepForDrop),
            44 => Ok(CharEquipSlot::Pet3LongRange),
            45 => Ok(CharEquipSlot::Pet3PickUpOthers),
            46 => Ok(CharEquipSlot::Pet1IgnoreItems),
            47 => Ok(CharEquipSlot::Pet2IgnoreItems),
            48 => Ok(CharEquipSlot::Pet3IgnoreItems),
            49 => Ok(CharEquipSlot::Medal),
            50 => Ok(CharEquipSlot::Belt),
            51 => Ok(CharEquipSlot::Shoulder),
            54 => Ok(CharEquipSlot::Nothing3),
            55 => Ok(CharEquipSlot::Nothing2),
            56 => Ok(CharEquipSlot::Nothing1),
            57 => Ok(CharEquipSlot::Nothing0),
            59 => Ok(CharEquipSlot::ExtPendant1),
            60 => Ok(CharEquipSlot::Ext1),
            61 => Ok(CharEquipSlot::Ext2),
            62 => Ok(CharEquipSlot::Ext3),
            63 => Ok(CharEquipSlot::Ext4),
            64 => Ok(CharEquipSlot::Ext5),
            65 => Ok(CharEquipSlot::Ext6),
            100 => Ok(CharEquipSlot::Sticker),
            _ => Err(PacketError::InvalidEnumPrimitive(c as u32)),
        }
    }
}

impl TryFromSpecImpl<u8> for CharEquipSlot {
    open spec fn obeys_try_from_spec() -> bool {
        true
    }

    open spec fn try_from_spec(c: u8) -> Result<CharEquipSlot, PacketError> {
        match CharEquipSlot::of_code(c) {
            Some(v) => Ok(v),
            None => Err(PacketError::InvalidEnumPrimitive(c as u32)),
        }
    }
}
impl CharEquipSlot {
    /// Whether an item of one slot can be swapped into another: only into
    /// the same slot.
    pub fn can_swap(&self, other: &CharEquipSlot) -> (r: bool)
        ensures
            r == (*self == *other),
    {
        *self == *other
    }
}

/// A slot of a character's cash equipment.
#[derive(Debug, Clone, Copy, PartialEq, Eq, Structural)]
pub enum CashEquippedSlot {
    Hat,
    Face,
    Eye,
    Top,
    Overall,
    Bottom,
    Shoes,
    Gloves,
    Cape,
    Shield,
    Weapon,
    Ring1,
    Ring2,
    Ring3,
    Ring4,
    Pendant,
    TamedMob,
}

impl CashEquippedSlot {
    /// The wire code of a value.
    pub open spec fn code_of(self) -> u8 {
        match self {
            CashEquippedSlot::Hat => 101u8,
            CashEquippedSlot::Face => 102u8,
            CashEquippedSlot::Eye => 103u8,
            CashEquippedSlot::Top => 104u8,
            CashEquippedSlot::Overall => 105u8,
            CashEquippedSlot::Bottom => 106u8,
            CashEquippedSlot::Shoes => 107u8,
            CashEquippedSlot::Gloves => 108u8,
            CashEquippedSlot::Cape => 109u8,
            CashEquippedSlot::Shield => 110u8,
            CashEquippedSlot::Weapon => 111u8,
            CashEquippedSlot::Ring1 => 112u8,
            CashEquippedSlot::Ring2 => 113u8,
            CashEquippedSlot::Ring3 => 115u8,
            CashEquippedSlot::Ring4 => 116u8,
            CashEquippedSlot::Pendant => 117u8,
            CashEquippedSlot::TamedMob => 118u8,
        }
    }

    /// The value a wire code stands for, if any.
    pub open spec fn of_code(c: u8) -> Option<CashEquippedSlot> {
        match c {
            101u8 => Some(CashEquippedSlot::Hat),
            102u8 => Some(CashEquippedSlot::Face),
            103u8 => Some(CashEquippedSlot::Eye),
            104u8 => Some(CashEquippedSlot::Top),
            105u8 => Some(CashEquippedSlot::Overall),
            106u8 => Some(CashEquippedSlot::Bottom),
            107u8 => Some(CashEquippedSlot::Shoes),
            108u8 => Some(CashEquippedSlot::Gloves),
            109u8 => Some(CashEquippedSlot::Cape),
            110u8 => Some(CashEquippedSlot::Shield),
            111u8 => Some(CashEquippedSlot::Weapon),
            112u8 => Some(CashEquippedSlot::Ring1),
            113u8 => Some(CashEquippedSlot::Ring2),
            115u8 => Some(CashEquippedSlot::Ring3),
            116u8 => Some(CashEquippedSlot::Ring4),
            117u8 => Some(CashEquippedSlot::Pendant),
            118u8 => Some(CashEquippedSlot::TamedMob),
            _ => None,
        }
    }

    /// Decoding the code of a value gives that value back.
    pub proof fn lemma_code_roundtrip(self)
        ensures
            CashEquippedSlot::of_code(self.code_of()) == Some(self),
    {
    }

    /// A code that decodes to a value is that value's code.
    pub proof fn lemma_decode_roundtrip(c: u8)
        ensures
            CashEquippedSlot::of_code(c) matches Some(v) ==> v.code_of() == c,
    {
    }
}

impl From<CashEquippedSlot> for u8 {
    fn from(v: CashEquippedSlot) -> (r: u8) {
        match v {
            CashEquippedSlot::Hat => 101,
            CashEquippedSlot::Face => 102,
            CashEquippedSlot::Eye => 103,
            CashEquippedSlot::Top => 104,
            CashEquippedSlot::Overall => 105,
            CashEquippedSlot::Bottom => 106,
            CashEquippedSlot::Shoes => 107,
            CashEquippedSlot::Gloves => 108,
            CashEquippedSlot::Cape => 109,
            CashEquippedSlot::Shield => 110,
            CashEquippedSlot::Weapon => 111,
            CashEquippedSlot::Ring1 => 112,
            CashEquippedSlot::Ring2 => 113,
            CashEquippedSlot::Ring3 => 115,
            CashEquippedSlot::Ring4 => 116,
            CashEquippedSlot::Pendant => 117,
            CashEquippedSlot::TamedMob => 118,
        }
    }
}

impl FromSpecImpl<CashEquippedSlot> for u8 {
    open spec fn obeys_from_spec() -> bool {
        true
    }

    open spec fn from_spec(v: CashEquippedSlot) -> u8 {
        v.code_of()
    }
}

impl TryFrom<u8> for CashEquippedSlot {
    type Error = PacketError;

    fn try_from(c: u8) -> (r: Result<CashEquippedSlot, PacketError>) {
        match c {
            101 => Ok(CashEquippedSlot::Hat),
            102 => Ok(CashEquippedSlot::Face),
            103 => Ok(CashEquippedSlot::Eye),
            104 => Ok(CashEquippedSlot::Top),
            105 => Ok(CashEquippedSlot::Overall),
            106 => Ok(CashEquippedSlot::Bottom),
            107 => Ok(CashEquippedSlot::Shoes),
            108 => Ok(CashEquippedSlot::Gloves),
            109 => Ok(CashEquippedSlot::Cape),
            110 => Ok(CashEquippedSlot::Shield),
            111 => Ok(CashEquippedSlot::Weapon),
            112 => Ok(CashEquippedSlot::Ring1),
            113 => Ok(CashEquippedSlot::Ring2),
            115 => Ok(CashEquippedSlot::Ring3),
            116 => Ok(CashEquippedSlot::Ring4),
            117 => Ok(CashEquippedSlot::Pendant),
            118 => Ok(CashEquippedSlot::TamedMob),
            _ => Err(PacketError::InvalidEnumPrimitive(c as u32)),
        }
    }
}

impl TryFromSpecImpl<u8> for CashEquippedSlot {
    open spec fn obeys_try_from_spec() -> bool {
        true
    }

    open spec fn try_from_spec(c: u8) -> Result<CashEquippedSlot, PacketError> {
        match CashEquippedSlot::of_code(c) {
            Some(v) => Ok(v),
            None => Err(PacketError::InvalidEnumPrimitive(c as u32)),
        }
    }
}
/// A slot of a dragon's equipment.
#[derive(Debug, Clone, Copy, PartialEq, Eq, Structural)]
pub enum DragonEquipSlot {
    Cap,
    Pendant,
    Wings,
    Shoes,
}

impl DragonEquipSlot {
    /// The wire code of a value.
    pub open spec fn code_of(self) -> u16 {
        match self {
            DragonEquipSlot::Cap => 1000u16,
            DragonEquipSlot::Pendant => 1001u16,
            DragonEquipSlot::Wings => 1002u16,
            DragonEquipSlot::Shoes => 1003u16,
        }
    }

    /// The value a wire code stands for, if any.
    pub open spec fn of_code(c: u16) -> Option<DragonEquipSlot> {
        match c {
            1000u16 => Some(DragonEquipSlot::Cap),
            1001u16 => Some(DragonEquipSlot::Pendant),
            1002u16 => Some(DragonEquipSlot::Wings),
            1003u16 => Some(DragonEquipSlot::Shoes),
            _ => None,
        }
    }

    /// Decoding the code of a value gives that value back.
    pub proof fn lemma_code_roundtrip(self)
        ensures
            DragonEquipSlot::of_code(self.code_of()) == Some(self),
    {
    }

    /// A code that decodes to a value is that value's code.
    pub proof fn lemma_decode_roundtrip(c: u16)
        ensures
            DragonEquipSlot::of_code(c) matches Some(v) ==> v.code_of() == c,
    {
    }
}

impl From<DragonEquipSlot> for u16 {
    fn from(v: DragonEquipSlot) -> (r: u16) {
        match v {
            DragonEquipSlot::Cap => 1000,
            DragonEquipSlot::Pendant => 1001,
            DragonEquipSlot::Wings => 1002,
            DragonEquipSlot::Shoes => 1003,
        }
    }
}

impl FromSpecImpl<DragonEquipSlot> for u16 {
    open spec fn obeys_from_spec() -> bool {
        true
    }

    open spec fn from_spec(v: DragonEquipSlot) -> u16 {
        v.code_of()
    }
}

impl TryFrom<u16> for DragonEquipSlot {
    type Error = PacketError;

    fn try_from(c: u16) -> (r: Result<DragonEquipSlot, PacketError>) {
        match c {
            1000 => Ok(DragonEquipSlot::Cap),
            1001 => Ok(DragonEquipSlot::Pendant),
            1002 => Ok(DragonEquipSlot::Wings),
            1003 => Ok(DragonEquipSlot::Shoes),
            _ => Err(PacketError::InvalidEnumPrimitive(c as u32)),
        }
    }
}

impl TryFromSpecImpl<u16> for DragonEquipSlot {
    open spec fn obeys_try_from_spec() -> bool {
        true
    }

    open spec fn try_from_spec(c: u16) -> Result<DragonEquipSlot, PacketError> {
        match DragonEquipSlot::of_code(c) {
            Some(v) => Ok(v),
            None => Err(PacketError::InvalidEnumPrimitive(c as u32)),
        }
    }
}
/// A slot of a mechanic's equipment.
#[derive(Debug, Clone, Copy, PartialEq, Eq, Structural)]
pub enum MechanicEquipSlot {
    Engine,
    Arm,
    Leg,
    Frame,
    Transitor,
}

impl MechanicEquipSlot {
    /// The wire code of a value.
    pub open spec fn code_of(self) -> u16 {
        match self {
            MechanicEquipSlot::Engine => 1100u16,
            MechanicEquipSlot::Arm => 1101u16,
            MechanicEquipSlot::Leg => 1102u16,
            MechanicEquipSlot::Frame => 1103u16,
            MechanicEquipSlot::Transitor => 1104u16,
        }
    }

    /// The value a wire code stands for, if any.
    pub open spec fn of_code(c: u16) -> Option<MechanicEquipSlot> {
        match c {
            1100u16 => Some(MechanicEquipSlot::Engine),
            1101u16 => Some(MechanicEquipSlot::Arm),
            1102u16 => Some(MechanicEquipSlot::Leg),
            1103u16 => Some(MechanicEquipSlot::Frame),
            1104u16 => Some(MechanicEquipSlot::Transitor),
            _ => None,
        }
    }

    /// Decoding the code of a value gives that value back.
    pub proof fn lemma_code_roundtrip(self)
        ensures
            MechanicEquipSlot::of_code(self.code_of()) == Some(self),
    {
    }

    /// A code that decodes to a value is that value's code.
    pub proof fn lemma_decode_roundtrip(c: u16)
        ensures
            MechanicEquipSlot::of_code(c) matches Some(v) ==> v.code_of() == c,
    {
    }
}

impl From<MechanicEquipSlot> for u16 {
    fn from(v: MechanicEquipSlot) -> (r: u16) {
        match v {
            MechanicEquipSlot::Engine => 1100,
            MechanicEquipSlot::Arm => 1101,
            MechanicEquipSlot::Leg => 1102,
            MechanicEquipSlot::Frame => 1103,
            MechanicEquipSlot::Transitor => 1104,
        }
    }
}

impl FromSpecImpl<MechanicEquipSlot> for u16 {
    open spec fn obeys_from_spec() -> bool {
        true
    }

    open spec fn from_spec(v: MechanicEquipSlot) -> u16 {
        v.code_of()
    }
}

impl TryFrom<u16> for MechanicEquipSlot {
    type Error = PacketError;

    fn try_from(c: u16) -> (r: Result<MechanicEquipSlot, PacketError>) {
        match c {
            1100 => Ok(MechanicEquipSlot::Engine),
            1101 => Ok(MechanicEquipSlot::Arm),
            1102 => Ok(MechanicEquipSlot::Leg),
            1103 => Ok(MechanicEquipSlot::Frame),
            1104 => Ok(MechanicEquipSlot::Transitor),
            _ => Err(PacketError::InvalidEnumPrimitive(c as u32)),
        }
    }
}

impl TryFromSpecImpl<u16> for MechanicEquipSlot {
    open spec fn obeys_try_from_spec() -> bool {
        true
    }

    open spec fn try_from_spec(c: u16) -> Result<MechanicEquipSlot, PacketError> {
        match MechanicEquipSlot::of_code(c) {
            Some(v) => Ok(v),
            None => Err(PacketError::InvalidEnumPrimitive(c as u32)),
        }
    }
}
/// Whether a white scroll is used in an upgrade.
#[derive(Debug, Clone, Copy, PartialEq, Eq, Structural)]
pub enum WhiteScrollFlag {
    Unset,
    Used,
}

impl WhiteScrollFlag {
    /// The wire code of a value.
    pub open spec fn code_of(self) -> u16 {
        match self {
            WhiteScrollFlag::Unset => 1u16,
            WhiteScrollFlag::Used => 2u16,
        }
    }

    /// The value a wire code stands for, if any.
    pub open spec fn of_code(c: u16) -> Option<WhiteScrollFlag> {
        match c {
            1u16 => Some(WhiteScrollFlag::Unset),
            2u16 => Some(WhiteScrollFlag::Used),
            _ => None,
        }
    }

    /// Decoding the code of a value gives that value back.
    pub proof fn lemma_code_roundtrip(self)
        ensures
            WhiteScrollFlag::of_code(self.code_of()) == Some(self),
    {
    }

    /// A code that decodes to a value is that value's code.
    pub proof fn lemma_decode_roundtrip(c: u16)
        ensures
            WhiteScrollFlag::of_code(c) matches Some(v) ==> v.code_of() == c,
    {
    }
}

impl From<WhiteScrollFlag> for u16 {
    fn from(v: WhiteScrollFlag) -> (r: u16) {
        match v {
            WhiteScrollFlag::Unset => 1,
            WhiteScrollFlag::Used => 2,
        }
    }
}

impl FromSpecImpl<WhiteScrollFlag> for u16 {
    open spec fn obeys_from_spec() -> bool {
        true
    }

    open spec fn from_spec(v: WhiteScrollFlag) -> u16 {
        v.code_of()
    }
}

impl TryFrom<u16> for WhiteScrollFlag {
    type Error = PacketError;

    fn try_from(c: u16) -> (r: Result<WhiteScrollFlag, PacketError>) {
        match c {
            1 => Ok(WhiteScrollFlag::Unset),
            2 => Ok(WhiteScrollFlag::Used),
            _ => Err(PacketError::InvalidEnumPrimitive(c as u32)),
        }
    }
}

impl TryFromSpecImpl<u16> for WhiteScrollFlag {
    open spec fn obeys_try_from_spec() -> bool {
        true
    }

    open spec fn try_from_spec(c: u16) -> Result<WhiteScrollFlag, PacketError> {
        match WhiteScrollFlag::of_code(c) {
            Some(v) => Ok(v),
            None => Err(PacketError::InvalidEnumPrimitive(c as u32)),
        }
    }
}
impl From<WhiteScrollFlag> for bool {
    fn from(val: WhiteScrollFlag) -> (r: bool) {
        val == WhiteScrollFlag::Used
    }
}

impl FromSpecImpl<WhiteScrollFlag> for bool {
    open spec fn obeys_from_spec() -> bool {
        true
    }

    open spec fn from_spec(val: WhiteScrollFlag) -> bool {
        val == WhiteScrollFlag::Used
    }
}

/// A request to sit on a seat, or to get up.
#[derive(Debug, Clone, Copy, PartialEq, Eq, Structural)]
pub struct UserSitReq {
    pub seat_id: u16,
}

impl UserSitReq {
    /// The request to get up: the seat `u16::MAX`.
    pub fn get_up() -> (r: UserSitReq)
        ensures
            r.seat_id == u16::MAX,
    {
        UserSitReq::seat(u16::MAX)
    }

    /// The request to sit on a seat.
    pub fn seat(seat_id: u16) -> (r: UserSitReq)
        ensures
            r.seat_id == seat_id,
    {
        UserSitReq { seat_id }
    }
}

/// An item added to an inventory, at a position.
#[derive(Debug, Clone)]
pub struct InvOpAdd {
    /// The inventory, by the code the packets write it as.
    pub inv_type: u8,
    pub pos: u16,
    pub item: Item,
}

/// A new quantity of the stack at a position.
#[derive(Debug, Clone, Copy, PartialEq, Eq, Structural)]
pub struct InvOpUpdateQuantity {
    pub inv_type: u8,
    pub pos: u16,
    pub quantity: u16,
}

/// An item moved from a position to another.
#[derive(Debug, Clone, Copy, PartialEq, Eq, Structural)]
pub struct InvOpMove {
    pub inv_type: u8,
    pub pos: u16,
    pub new_pos: u16,
}

/// An item removed from a position.
#[derive(Debug, Clone, Copy, PartialEq, Eq, Structural)]
pub struct InvOpRemove {
    pub inv_type: u8,
    pub pos: u16,
}

/// The experience of the item at a position changed.
#[derive(Debug, Clone, Copy, PartialEq, Eq, Structural)]
pub struct InvOpUpdateExp {
    pub inv_type: u8,
    pub pos: u16,
}

/// A change to an inventory.
#[derive(Debug, Clone)]
pub enum InventoryOperation {
    Add(InvOpAdd),
    UpdateQuantity(InvOpUpdateQuantity),
    Move(InvOpMove),
    Remove(InvOpRemove),
    UpdateExp(InvOpUpdateExp),
}

impl InventoryOperation {
    /// Removes the item at a position.
    pub fn remove(inv: u8, pos: u16) -> (r: InventoryOperation)
        ensures
            r matches InventoryOperation::Remove(o) && o == (InvOpRemove { inv_type: inv, pos }),
    {
        InventoryOperation::Remove(InvOpRemove { inv_type: inv, pos })
    }

    /// The operation sent for a change of the experience of the item at a
    /// position: it is sent as the removal of that item.
    pub fn update_exp(inv: u8, pos: u16) -> (r: InventoryOperation)
        ensures
            r matches InventoryOperation::Remove(o) && o == (InvOpRemove { inv_type: inv, pos }),
    {
        InventoryOperation::Remove(InvOpRemove { inv_type: inv, pos })
    }

    /// Sets the quantity of the stack at a position.
    pub fn update_quantity(inv: u8, pos: u16, quantity: u16) -> (r: InventoryOperation)
        ensures
            r matches InventoryOperation::UpdateQuantity(o) && o == (InvOpUpdateQuantity {
                inv_type: inv,
                pos,
                quantity,
            }),
    {
        InventoryOperation::UpdateQuantity(InvOpUpdateQuantity { inv_type: inv, pos, quantity })
    }

    /// Adds an item at a position.
    pub fn add(inv: u8, pos: u16, item: Item) -> (r: InventoryOperation)
        ensures
            r matches InventoryOperation::Add(o) && o.inv_type == inv && o.pos == pos && o.item
                == item,
    {
        InventoryOperation::Add(InvOpAdd { inv_type: inv, pos, item })
    }

    /// Moves the item at `src` to `dst`.
    pub fn mov(inv: u8, src: u16, dst: u16) -> (r: InventoryOperation)
        ensures
            r matches InventoryOperation::Move(o) && o == (InvOpMove {
                inv_type: inv,
                pos: src,
                new_pos: dst,
            }),
    {
        InventoryOperation::Move(InvOpMove { inv_type: inv, pos: src, new_pos: dst })
    }
}

} // verus!

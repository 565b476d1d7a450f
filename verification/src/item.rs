use vstd::prelude::*;

verus! {

/// The flags of an item.
#[derive(Debug, Clone, Copy, PartialEq, Eq, Structural)]
pub struct ItemFlags {
    pub bits: u16,
}

#[allow(non_upper_case_globals)]
impl ItemFlags {
    pub const Protected: u16 = 0x1;
    pub const PreventSlipping: u16 = 0x2;
    pub const PreventColdness: u16 = 0x4;
    pub const Untradeable: u16 = 0x8;
    pub const ScissorsApplied: u16 = 0x10;
    pub const Sandbox: u16 = 0x40;
    pub const PetCome: u16 = 0x80;
    pub const AccountSharing: u16 = 0x100;
    pub const MergeUntradeable: u16 = 0x200;

    /// The bits that name a flag.
    pub open spec fn known_bits() -> u16 {
        0x3df
    }

    /// No flag set.
    pub fn empty() -> (r: ItemFlags)
        ensures
            r.bits == 0,
    {
        ItemFlags { bits: 0 }
    }

    /// The raw bits of the flags.
    pub fn bits(&self) -> (r: u16)
        ensures
            r == self.bits,
    {
        self.bits
    }

    /// The flags of the given bits, with the bits that name no flag dropped.
    pub fn from_bits_truncate(bits: u16) -> (r: ItemFlags)
        ensures
            r.bits == bits & ItemFlags::known_bits(),
    {
        ItemFlags { bits: bits & 0x3df }
    }

    /// Whether every flag of `other` is set.
    pub fn contains(&self, other: u16) -> (r: bool)
        ensures
            r == (self.bits & other == other),
    {
        self.bits & other == other
    }

    /// Sets the flags of `other`; the others stay as they were.
    pub fn insert(&mut self, other: u16)
        ensures
            final(self).bits == old(self).bits | other,
            final(self).bits & other == other,
    {
        let old_bits = self.bits;
        self.bits = old_bits | other;
        assert((old_bits | other) & other == other) by (bit_vector);
    }
}

/// The flags of a bundle of items.
#[derive(Debug, Clone, Copy, PartialEq, Eq, Structural)]
pub struct ItemBundleFlags {
    pub bits: u16,
}

#[allow(non_upper_case_globals)]
impl ItemBundleFlags {
    pub const Protected: u16 = 0x1;
    pub const TradingPossible: u16 = 0x2;

    /// The bits that name a flag.
    pub open spec fn known_bits() -> u16 {
        0x3
    }

    /// No flag set.
    pub fn empty() -> (r: ItemBundleFlags)
        ensures
            r.bits == 0,
    {
        ItemBundleFlags { bits: 0 }
    }

    /// The raw bits of the flags.
    pub fn bits(&self) -> (r: u16)
        ensures
            r == self.bits,
    {
        self.bits
    }

    /// The flags of the given bits, with the bits that name no flag dropped.
    pub fn from_bits_truncate(bits: u16) -> (r: ItemBundleFlags)
        ensures
            r.bits == bits & ItemBundleFlags::known_bits(),
    {
        ItemBundleFlags { bits: bits & 0x3 }
    }

    /// Whether every flag of `other` is set.
    pub fn contains(&self, other: u16) -> (r: bool)
        ensures
            r == (self.bits & other == other),
    {
        self.bits & other == other
    }

    /// Sets the flags of `other`; the others stay as they were.
    pub fn insert(&mut self, other: u16)
        ensures
            final(self).bits == old(self).bits | other,
            final(self).bits & other == other,
    {
        let old_bits = self.bits;
        self.bits = old_bits | other;
        assert((old_bits | other) & other == other) by (bit_vector);
    }
}

/// The flags of a pet item.
#[derive(Debug, Clone, Copy, PartialEq, Eq, Structural)]
pub struct ItemPetFlags {
    pub bits: u16,
}

#[allow(non_upper_case_globals)]
impl ItemPetFlags {
    pub const Protected: u16 = 0x1;
    pub const TradingPossible: u16 = 0x2;

    /// The bits that name a flag.
    pub open spec fn known_bits() -> u16 {
        0x3
    }

    /// No flag set.
    pub fn empty() -> (r: ItemPetFlags)
        ensures
            r.bits == 0,
    {
        ItemPetFlags { bits: 0 }
    }

    /// The raw bits of the flags.
    pub fn bits(&self) -> (r: u16)
        ensures
            r == self.bits,
    {
        self.bits
    }

    /// The flags of the given bits, with the bits that name no flag dropped.
    pub fn from_bits_truncate(bits: u16) -> (r: ItemPetFlags)
        ensures
            r.bits == bits & ItemPetFlags::known_bits(),
    {
        ItemPetFlags { bits: bits & 0x3 }
    }

    /// Whether every flag of `other` is set.
    pub fn contains(&self, other: u16) -> (r: bool)
        ensures
            r == (self.bits & other == other),
    {
        self.bits & other == other
    }

    /// Sets the flags of `other`; the others stay as they were.
    pub fn insert(&mut self, other: u16)
        ensures
            final(self).bits == old(self).bits | other,
            final(self).bits & other == other,
    {
        let old_bits = self.bits;
        self.bits = old_bits | other;
        assert((old_bits | other) & other == other) by (bit_vector);
    }
}

/// The flags of an equipment item.
#[derive(Debug, Clone, Copy, PartialEq, Eq, Structural)]
pub struct ItemEquipFlags {
    pub bits: u16,
}

#[allow(non_upper_case_globals)]
impl ItemEquipFlags {
    pub const Protected: u16 = 0x1;
    pub const PreventSlipping: u16 = 0x2;
    pub const SupportWarm: u16 = 0x4;
    pub const Binded: u16 = 0x8;

    /// The bits that name a flag.
    pub open spec fn known_bits() -> u16 {
        0xf
    }

    /// No flag set.
    pub fn empty() -> (r: ItemEquipFlags)
        ensures
            r.bits == 0,
    {
        ItemEquipFlags { bits: 0 }
    }

    /// The raw bits of the flags.
    pub fn bits(&self) -> (r: u16)
        ensures
            r == self.bits,
    {
        self.bits
    }

    /// The flags of the given bits, with the bits that name no flag dropped.
    pub fn from_bits_truncate(bits: u16) -> (r: ItemEquipFlags)
        ensures
            r.bits == bits & ItemEquipFlags::known_bits(),
    {
        ItemEquipFlags { bits: bits & 0xf }
    }

    /// Whether every flag of `other` is set.
    pub fn contains(&self, other: u16) -> (r: bool)
        ensures
            r == (self.bits & other == other),
    {
        self.bits & other == other
    }

    /// Sets the flags of `other`; the others stay as they were.
    pub fn insert(&mut self, other: u16)
        ensures
            final(self).bits == old(self).bits | other,
            final(self).bits & other == other,
    {
        let old_bits = self.bits;
        self.bits = old_bits | other;
        assert((old_bits | other) & other == other) by (bit_vector);
    }
}

/// The stats an equipment item adds.
#[derive(Debug, Clone, Copy, PartialEq, Eq, Structural)]
pub struct EquipStats {
    pub str: u16,
    pub dex: u16,
    pub int: u16,
    pub luk: u16,
    pub hp: u16,
    pub mp: u16,
    pub pad: u16,
    pub mad: u16,
    pub pdd: u16,
    pub mdd: u16,
    pub acc: u16,
    pub eva: u16,
    pub craft: u16,
    pub speed: u16,
    pub jump: u16,
}

/// The stats, upgrades and owner of an equipment item.
#[derive(Debug, Clone)]
pub struct EquipAllStats {
    pub remaining_upgrade_slots: u8,
    pub upgrade_count: u8,
    pub stats: EquipStats,
    pub title: String,
    pub flags: ItemFlags,
}

/// The flags of an item as the game data keeps them, each set or not.
#[derive(Debug, Clone, Copy, PartialEq, Eq, Structural)]
pub struct MetaItemFlags {
    pub protected: bool,
    pub prevent_slipping: bool,
    pub prevent_coldness: bool,
    pub untradeable: bool,
    pub scissors_applied: bool,
    pub sandbox: bool,
    pub pet_come: bool,
    pub account_sharing: bool,
    pub merge_untradeable: bool,
}

/// The bit of a flag where it is set, else none.
pub open spec fn flag_bit(set: bool, bit: u16) -> u16 {
    if set {
        bit
    } else {
        0
    }
}

/// The bit of a flag where it is set, else none.
fn flag_bits(set: bool, bit: u16) -> (r: u16)
    ensures
        r == flag_bit(set, bit),
{
    if set {
        bit
    } else {
        0
    }
}

/// The bits of the game data's item flags: each set flag gives the bit of
/// the packet flag of the same name.
pub open spec fn meta_flag_bits(m: MetaItemFlags) -> u16 {
    flag_bit(m.protected, 0x1u16) | flag_bit(m.prevent_slipping, 0x2u16) | flag_bit(m.prevent_coldness, 0x4u16) | flag_bit(m.untradeable, 0x8u16) | flag_bit(m.scissors_applied, 0x10u16) | flag_bit(m.sandbox, 0x40u16) | flag_bit(m.pet_come, 0x80u16) | flag_bit(m.account_sharing, 0x100u16) | flag_bit(m.merge_untradeable, 0x200u16)
}

impl ItemFlags {
    /// The packet flags of the game data's item flags.
    pub fn from_meta(m: MetaItemFlags) -> (r: ItemFlags)
        ensures
            r.bits == meta_flag_bits(m),
    {
        ItemFlags { bits: flag_bits(m.protected, 0x1) | flag_bits(m.prevent_slipping, 0x2) | flag_bits(m.prevent_coldness, 0x4) | flag_bits(m.untradeable, 0x8) | flag_bits(m.scissors_applied, 0x10) | flag_bits(m.sandbox, 0x40) | flag_bits(m.pet_come, 0x80) | flag_bits(m.account_sharing, 0x100) | flag_bits(m.merge_untradeable, 0x200) }
    }
}

/// What every item of the packets carries: its id, its cash id, and when it
/// expires, as a time of the packets.
#[derive(Debug, Clone, Copy, PartialEq, Eq, Structural)]
pub struct ItemInfo {
    pub item_id: u32,
    pub cash_id: Option<u64>,
    pub expiration: Option<u64>,
}

impl ItemInfo {
    /// Whether the item has a serial number: it has no cash id.
    pub fn has_sn(&self) -> (r: bool)
        ensures
            r == self.cash_id is None,
    {
        self.cash_id.is_none()
    }
}

/// The level an equipment item has grown to.
#[derive(Debug, Clone, Copy, PartialEq, Eq, Structural)]
pub struct EquipLevelInfo {
    pub item_level_ty: u8,
    pub level: u8,
    pub exp: u32,
}

/// An equipment item of a character, as the game keeps it, with its times
/// already written as times of the packets.
#[derive(Debug, Clone)]
pub struct EquipItemRecord {
    pub item_id: u32,
    pub cash_id: Option<u64>,
    pub sn: Option<u64>,
    pub expiration: Option<u64>,
    pub equipped_at: Option<u64>,
    pub upgrade_slots: u8,
    pub upgrades: u8,
    pub stats: EquipStats,
    pub owner: Option<String>,
    pub flags: MetaItemFlags,
    pub level_info: Option<EquipLevelInfo>,
    pub durability: i32,
    pub hammers_used: u32,
    pub grade: u8,
    pub stars: u8,
    pub options: [u16; 3],
    pub sockets: [u16; 2],
}

/// An equipment item as the packets write it.
#[derive(Debug, Clone)]
pub struct EquipItemInfo {
    pub info: ItemInfo,
    pub stats: EquipAllStats,
    pub lvl_up_ty: u8,
    pub lvl: u8,
    pub exp: u32,
    pub durability: i32,
    pub hammer_count: u32,
    pub grade: u8,
    pub stars: u8,
    pub options: [u16; 3],
    pub sockets: [u16; 2],
    pub sn: Option<u64>,
    pub equipped_at: u64,
    pub prev_bonus_exp_rate: i32,
}

/// Whether `r` is the packet form of the equipment item `v` at the time
/// `now`: its fields copied, its owner as its title (empty where it has
/// none), its level data zero where it has none, equipped at `now` where
/// it has no time of its own, and no previous bonus experience rate.
pub open spec fn equip_item_info_of(r: EquipItemInfo, v: EquipItemRecord, now: u64) -> bool {
    &&& r.info == ItemInfo { item_id: v.item_id, cash_id: v.cash_id, expiration: v.expiration }
    &&& r.stats.remaining_upgrade_slots == v.upgrade_slots
    &&& r.stats.upgrade_count == v.upgrades
    &&& r.stats.stats == v.stats
    &&& r.stats.title@ == (match v.owner {
        Some(o) => o@,
        None => Seq::empty(),
    })
    &&& r.stats.flags.bits == meta_flag_bits(v.flags)
    &&& r.lvl_up_ty == (match v.level_info {
        Some(l) => l.item_level_ty,
        None => 0,
    })
    &&& r.lvl == (match v.level_info {
        Some(l) => l.level,
        None => 0,
    })
    &&& r.exp == (match v.level_info {
        Some(l) => l.exp,
        None => 0,
    })
    &&& r.durability == v.durability
    &&& r.hammer_count == v.hammers_used
    &&& r.grade == v.grade
    &&& r.stars == v.stars
    &&& r.options == v.options
    &&& r.sockets == v.sockets
    &&& r.sn == v.sn
    &&& r.equipped_at == (match v.equipped_at {
        Some(t) => t,
        None => now,
    })
    &&& r.prev_bonus_exp_rate == -1
}

/// The packet form of an equipment item, given the current time as a time
/// of the packets.
pub fn equip_item_info(value: &EquipItemRecord, now: u64) -> (r: EquipItemInfo)
    ensures
        equip_item_info_of(r, *value, now),
{
    let title = match &value.owner {
        Some(o) => o.clone(),
        None => String::new(),
    };
    let (lvl_up_ty, lvl, exp) = match value.level_info {
        Some(l) => (l.item_level_ty, l.level, l.exp),
        None => (0, 0, 0),
    };
    EquipItemInfo {
        info: ItemInfo { item_id: value.item_id, cash_id: value.cash_id, expiration: value.expiration },
        stats: EquipAllStats {
            remaining_upgrade_slots: value.upgrade_slots,
            upgrade_count: value.upgrades,
            stats: value.stats,
            title,
            flags: ItemFlags::from_meta(value.flags),
        },
        lvl_up_ty,
        lvl,
        exp,
        durability: value.durability,
        hammer_count: value.hammers_used,
        grade: value.grade,
        stars: value.stars,
        options: value.options,
        sockets: value.sockets,
        sn: value.sn,
        equipped_at: match value.equipped_at {
            Some(t) => t,
            None => now,
        },
        prev_bonus_exp_rate: -1,
    }
}

/// A stack of items as the packets write it.
#[derive(Debug, Clone)]
pub struct ItemStackData {
    pub info: ItemInfo,
    pub quantity: u16,
    pub title: String,
    pub flag: ItemFlags,
    /// The serial number, written only for a rechargeable item.
    pub sn: Option<u64>,
}

/// A stack of items of a character, as the game keeps it, with its
/// expiration already written as a time of the packets.
#[derive(Debug, Clone)]
pub struct StackItemRecord {
    pub item_id: u32,
    pub cash_id: Option<u64>,
    pub sn: Option<u64>,
    pub expiration: Option<u64>,
    pub quantity: u16,
    pub owner: Option<String>,
    pub flags: MetaItemFlags,
    /// Whether the item is one that is recharged (throwing stars, bullets).
    pub rechargeable: bool,
}

/// The packet form of a stack of items: its owner as its title (empty where
/// it has none), and its serial number only where the item is rechargeable.
pub fn item_stack_data(value: &StackItemRecord) -> (r: ItemStackData)
    ensures
        r.info == (ItemInfo { item_id: value.item_id, cash_id: value.cash_id, expiration: value.expiration }),
        r.quantity == value.quantity,
        r.title@ == (match value.owner {
            Some(o) => o@,
            None => Seq::empty(),
        }),
        r.flag.bits == meta_flag_bits(value.flags),
        r.sn == (if value.rechargeable {
            value.sn
        } else {
            None
        }),
{
    let title = match &value.owner {
        Some(o) => o.clone(),
        None => String::new(),
    };
    ItemStackData {
        info: ItemInfo { item_id: value.item_id, cash_id: value.cash_id, expiration: value.expiration },
        quantity: value.quantity,
        title,
        flag: ItemFlags::from_meta(value.flags),
        sn: if value.rechargeable {
            value.sn
        } else {
            None
        },
    }
}

/// A pet item as the packets write it.
#[derive(Debug, Clone)]
pub struct ItemPetData {
    pub info: ItemInfo,
    pub name: String,
    pub level: u8,
    pub tameness: u16,
    pub fullness: u8,
    pub dead_at: u64,
    pub attribute1: u16,
    pub skill: u16,
    pub remain_life: u32,
    pub attribute2: u16,
}

/// An item as the packets write it.
#[derive(Debug, Clone)]
pub enum Item {
    Equip(EquipItemInfo),
    Stack(ItemStackData),
    Pet(ItemPetData),
    Equipped,
}

/// The packet flags of the game data's item flags hold the bit of a flag
/// exactly where that flag is set, and no bit that names no flag.
pub proof fn lemma_meta_flag_bits(m: MetaItemFlags)
    ensures
        meta_flag_bits(m) & 0x1u16 != 0 <==> m.protected,
        meta_flag_bits(m) & 0x2u16 != 0 <==> m.prevent_slipping,
        meta_flag_bits(m) & 0x4u16 != 0 <==> m.prevent_coldness,
        meta_flag_bits(m) & 0x8u16 != 0 <==> m.untradeable,
        meta_flag_bits(m) & 0x10u16 != 0 <==> m.scissors_applied,
        meta_flag_bits(m) & 0x40u16 != 0 <==> m.sandbox,
        meta_flag_bits(m) & 0x80u16 != 0 <==> m.pet_come,
        meta_flag_bits(m) & 0x100u16 != 0 <==> m.account_sharing,
        meta_flag_bits(m) & 0x200u16 != 0 <==> m.merge_untradeable,
        meta_flag_bits(m) & !0x3dfu16 == 0,
{
    lemma_flag_bits_each(m.protected, m.prevent_slipping, m.prevent_coldness, m.untradeable, m.scissors_applied, m.sandbox, m.pet_come, m.account_sharing, m.merge_untradeable);
}

/// The bits of nine flags, each at its own place.
proof fn lemma_flag_bits_each(protected: bool, prevent_slipping: bool, prevent_coldness: bool, untradeable: bool, scissors_applied: bool, sandbox: bool, pet_come: bool, account_sharing: bool, merge_untradeable: bool)
    by (bit_vector)
    ensures
        ((if protected { 0x1u16 } else { 0u16 }) | (if prevent_slipping { 0x2u16 } else { 0u16 }) | (if prevent_coldness { 0x4u16 } else { 0u16 }) | (if untradeable { 0x8u16 } else { 0u16 }) | (if scissors_applied { 0x10u16 } else { 0u16 }) | (if sandbox { 0x40u16 } else { 0u16 }) | (if pet_come { 0x80u16 } else { 0u16 }) | (if account_sharing { 0x100u16 } else { 0u16 }) | (if merge_untradeable { 0x200u16 } else { 0u16 })) & 0x1u16 != 0 <==> protected,
        ((if protected { 0x1u16 } else { 0u16 }) | (if prevent_slipping { 0x2u16 } else { 0u16 }) | (if prevent_coldness { 0x4u16 } else { 0u16 }) | (if untradeable { 0x8u16 } else { 0u16 }) | (if scissors_applied { 0x10u16 } else { 0u16 }) | (if sandbox { 0x40u16 } else { 0u16 }) | (if pet_come { 0x80u16 } else { 0u16 }) | (if account_sharing { 0x100u16 } else { 0u16 }) | (if merge_untradeable { 0x200u16 } else { 0u16 })) & 0x2u16 != 0 <==> prevent_slipping,
        ((if protected { 0x1u16 } else { 0u16 }) | (if prevent_slipping { 0x2u16 } else { 0u16 }) | (if prevent_coldness { 0x4u16 } else { 0u16 }) | (if untradeable { 0x8u16 } else { 0u16 }) | (if scissors_applied { 0x10u16 } else { 0u16 }) | (if sandbox { 0x40u16 } else { 0u16 }) | (if pet_come { 0x80u16 } else { 0u16 }) | (if account_sharing { 0x100u16 } else { 0u16 }) | (if merge_untradeable { 0x200u16 } else { 0u16 })) & 0x4u16 != 0 <==> prevent_coldness,
        ((if protected { 0x1u16 } else { 0u16 }) | (if prevent_slipping { 0x2u16 } else { 0u16 }) | (if prevent_coldness { 0x4u16 } else { 0u16 }) | (if untradeable { 0x8u16 } else { 0u16 }) | (if scissors_applied { 0x10u16 } else { 0u16 }) | (if sandbox { 0x40u16 } else { 0u16 }) | (if pet_come { 0x80u16 } else { 0u16 }) | (if account_sharing { 0x100u16 } else { 0u16 }) | (if merge_untradeable { 0x200u16 } else { 0u16 })) & 0x8u16 != 0 <==> untradeable,
        ((if protected { 0x1u16 } else { 0u16 }) | (if prevent_slipping { 0x2u16 } else { 0u16 }) | (if prevent_coldness { 0x4u16 } else { 0u16 }) | (if untradeable { 0x8u16 } else { 0u16 }) | (if scissors_applied { 0x10u16 } else { 0u16 }) | (if sandbox { 0x40u16 } else { 0u16 }) | (if pet_come { 0x80u16 } else { 0u16 }) | (if account_sharing { 0x100u16 } else { 0u16 }) | (if merge_untradeable { 0x200u16 } else { 0u16 })) & 0x10u16 != 0 <==> scissors_applied,
        ((if protected { 0x1u16 } else { 0u16 }) | (if prevent_slipping { 0x2u16 } else { 0u16 }) | (if prevent_coldness { 0x4u16 } else { 0u16 }) | (if untradeable { 0x8u16 } else { 0u16 }) | (if scissors_applied { 0x10u16 } else { 0u16 }) | (if sandbox { 0x40u16 } else { 0u16 }) | (if pet_come { 0x80u16 } else { 0u16 }) | (if account_sharing { 0x100u16 } else { 0u16 }) | (if merge_untradeable { 0x200u16 } else { 0u16 })) & 0x40u16 != 0 <==> sandbox,
        ((if protected { 0x1u16 } else { 0u16 }) | (if prevent_slipping { 0x2u16 } else { 0u16 }) | (if prevent_coldness { 0x4u16 } else { 0u16 }) | (if untradeable { 0x8u16 } else { 0u16 }) | (if scissors_applied { 0x10u16 } else { 0u16 }) | (if sandbox { 0x40u16 } else { 0u16 }) | (if pet_come { 0x80u16 } else { 0u16 }) | (if account_sharing { 0x100u16 } else { 0u16 }) | (if merge_untradeable { 0x200u16 } else { 0u16 })) & 0x80u16 != 0 <==> pet_come,
        ((if protected { 0x1u16 } else { 0u16 }) | (if prevent_slipping { 0x2u16 } else { 0u16 }) | (if prevent_coldness { 0x4u16 } else { 0u16 }) | (if untradeable { 0x8u16 } else { 0u16 }) | (if scissors_applied { 0x10u16 } else { 0u16 }) | (if sandbox { 0x40u16 } else { 0u16 }) | (if pet_come { 0x80u16 } else { 0u16 }) | (if account_sharing { 0x100u16 } else { 0u16 }) | (if merge_untradeable { 0x200u16 } else { 0u16 })) & 0x100u16 != 0 <==> account_sharing,
        ((if protected { 0x1u16 } else { 0u16 }) | (if prevent_slipping { 0x2u16 } else { 0u16 }) | (if prevent_coldness { 0x4u16 } else { 0u16 }) | (if untradeable { 0x8u16 } else { 0u16 }) | (if scissors_applied { 0x10u16 } else { 0u16 }) | (if sandbox { 0x40u16 } else { 0u16 }) | (if pet_come { 0x80u16 } else { 0u16 }) | (if account_sharing { 0x100u16 } else { 0u16 }) | (if merge_untradeable { 0x200u16 } else { 0u16 })) & 0x200u16 != 0 <==> merge_untradeable,
        ((if protected { 0x1u16 } else { 0u16 }) | (if prevent_slipping { 0x2u16 } else { 0u16 }) | (if prevent_coldness { 0x4u16 } else { 0u16 }) | (if untradeable { 0x8u16 } else { 0u16 }) | (if scissors_applied { 0x10u16 } else { 0u16 }) | (if sandbox { 0x40u16 } else { 0u16 }) | (if pet_come { 0x80u16 } else { 0u16 }) | (if account_sharing { 0x100u16 } else { 0u16 }) | (if merge_untradeable { 0x200u16 } else { 0u16 })) & !0x3dfu16 == 0,
{
}

/// The packet form of an equipment item keeps the item's id, cash id and
/// expiration, stats, upgrade slots and count, durability, hammers, grade,
/// stars, options, sockets and serial number; its title is its owner (empty
/// where none), its level data the item's (zero where none), and it is
/// equipped at the item's time, or now where it has none.
pub proof fn lemma_equip_item_info_fields(r: EquipItemInfo, v: EquipItemRecord, now: u64)
    requires
        equip_item_info_of(r, v, now),
    ensures
        r.info.item_id == v.item_id,
        r.info.cash_id == v.cash_id,
        r.info.expiration == v.expiration,
        r.stats.stats == v.stats,
        r.stats.remaining_upgrade_slots == v.upgrade_slots,
        r.stats.upgrade_count == v.upgrades,
        r.durability == v.durability,
        r.hammer_count == v.hammers_used,
        r.grade == v.grade,
        r.stars == v.stars,
        r.options == v.options,
        r.sockets == v.sockets,
        r.sn == v.sn,
        v.owner matches Some(o) ==> r.stats.title@ == o@,
        v.owner is None ==> r.stats.title@.len() == 0,
        v.level_info matches Some(l) ==> (r.lvl_up_ty == l.item_level_ty && r.lvl == l.level
            && r.exp == l.exp),
        v.level_info is None ==> (r.lvl_up_ty == 0 && r.lvl == 0 && r.exp == 0),
        v.equipped_at matches Some(t) ==> r.equipped_at == t,
        v.equipped_at is None ==> r.equipped_at == now,
        r.prev_bonus_exp_rate == -1,
        r.stats.flags.bits & 0x1u16 != 0 <==> v.flags.protected,
        r.stats.flags.bits & 0x8u16 != 0 <==> v.flags.untradeable,
{
    lemma_meta_flag_bits(v.flags);
}

} // verus!

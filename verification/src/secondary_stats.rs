use vstd::prelude::*;

verus! {

/// The temporary stats of a character that a packet carries, one bit each.
#[derive(Debug, Clone, Copy, PartialEq, Eq, Structural)]
pub struct CharSecondaryStatFlags {
    pub bits: u128,
}

#[allow(non_upper_case_globals)]
impl CharSecondaryStatFlags {
    pub const Pad: u128 = 0x1;
    pub const Pdd: u128 = 0x2;
    pub const Mad: u128 = 0x4;
    pub const Mdd: u128 = 0x8;
    pub const Acc: u128 = 0x10;
    pub const Evasion: u128 = 0x20;
    pub const CriticalRate: u128 = 0x40;
    pub const Speed: u128 = 0x80;
    pub const Jump: u128 = 0x100;
    pub const ExtraMaxHp: u128 = 0x200000000000000000000000;
    pub const ExtraMaxMp: u128 = 0x400000000000000000000000;
    pub const ExtraPad: u128 = 0x800000000000000000000000;
    pub const ExtraPdd: u128 = 0x1000000000000000000000000;
    pub const ExtraMdd: u128 = 0x2000000000000000000000000;
    pub const MagicGuard: u128 = 0x200;
    pub const DarkSight: u128 = 0x400;
    pub const Booster: u128 = 0x800;
    pub const PowerGuard: u128 = 0x1000;
    pub const Guard: u128 = 0x4000000000000000000000000;
    pub const SafetyDamage: u128 = 0x8000000000000000000000000;
    pub const SafetyAbsorb: u128 = 0x10000000000000000000000000;
    pub const MaxHp: u128 = 0x2000;
    pub const MaxMp: u128 = 0x4000;
    pub const Invincible: u128 = 0x8000;
    pub const SoulArrow: u128 = 0x10000;
    pub const Stun: u128 = 0x20000;
    pub const Poison: u128 = 0x40000;
    pub const Seal: u128 = 0x80000;
    pub const Darkness: u128 = 0x100000;
    pub const ComboCounter: u128 = 0x200000;
    pub const WeaponCharge: u128 = 0x400000;
    pub const DragonBlood: u128 = 0x800000;
    pub const HolySymbol: u128 = 0x1000000;
    pub const MesoUp: u128 = 0x2000000;
    pub const ShadowPartner: u128 = 0x4000000;
    pub const PickPocket: u128 = 0x8000000;
    pub const MesoGuard: u128 = 0x10000000;
    pub const Thaw: u128 = 0x20000000;
    pub const Weakness: u128 = 0x40000000;
    pub const Curse: u128 = 0x80000000;
    pub const Slow: u128 = 0x100000000;
    pub const Morph: u128 = 0x200000000;
    pub const GhostMorph: u128 = 0x2000000000000;
    pub const Regen: u128 = 0x400000000;
    pub const BasicStatUp: u128 = 0x800000000;
    pub const Stance: u128 = 0x1000000000;
    pub const SharpEyes: u128 = 0x2000000000;
    pub const ManaReflection: u128 = 0x4000000000;
    pub const Attract: u128 = 0x8000000000;
    pub const SpiritJavelin: u128 = 0x10000000000;
    pub const Infinity: u128 = 0x20000000000;
    pub const Holyshield: u128 = 0x40000000000;
    pub const HamString: u128 = 0x80000000000;
    pub const Blind: u128 = 0x100000000000;
    pub const Concentration: u128 = 0x200000000000;
    pub const BanMap: u128 = 0x400000000000;
    pub const MaxLevelBuff: u128 = 0x800000000000;
    pub const Barrier: u128 = 0x4000000000000;
    pub const DojangShield: u128 = 0x4000000000000000;
    pub const ReverseInput: u128 = 0x8000000000000;
    pub const MesoUpByItem: u128 = 0x1000000000000;
    pub const ItemUpByItem: u128 = 0x10000000000000;
    pub const RespectPImmune: u128 = 0x20000000000000;
    pub const RespectMImmune: u128 = 0x40000000000000;
    pub const DefenseAtt: u128 = 0x80000000000000;
    pub const DefenseState: u128 = 0x100000000000000;
    pub const DojangBerserk: u128 = 0x800000000000000;
    pub const DojangInvincible: u128 = 0x1000000000000000;
    pub const Spark: u128 = 0x2000000000000000;
    pub const SoulMasterFinal: u128 = 0x8000000000000000;
    pub const WindBreakerFinal: u128 = 0x10000000000000000;
    pub const ElementalReset: u128 = 0x20000000000000000;
    pub const WindWalk: u128 = 0x40000000000000000;
    pub const EventRate: u128 = 0x80000000000000000;
    pub const ComboAbilityBuff: u128 = 0x100000000000000000;
    pub const ComboDrain: u128 = 0x200000000000000000;
    pub const ComboBarrier: u128 = 0x400000000000000000;
    pub const BodyPressure: u128 = 0x800000000000000000;
    pub const SmartKnockback: u128 = 0x1000000000000000000;
    pub const RepeatEffect: u128 = 0x2000000000000000000;
    pub const ExpBuffRate: u128 = 0x4000000000000000000;
    pub const IncEffectHPPotion: u128 = 0x200000000000000;
    pub const IncEffectMPPotion: u128 = 0x400000000000000;
    pub const StopPortion: u128 = 0x8000000000000000000;
    pub const StopMotion: u128 = 0x10000000000000000000;
    pub const Fear: u128 = 0x20000000000000000000;
    pub const EvanSlow: u128 = 0x40000000000000000000;
    pub const MagicShield: u128 = 0x80000000000000000000;
    pub const MagicResistance: u128 = 0x100000000000000000000;
    pub const SoulStone: u128 = 0x200000000000000000000;
    pub const Flying: u128 = 0x400000000000000000000;
    pub const Frozen: u128 = 0x800000000000000000000;
    pub const AssistCharge: u128 = 0x1000000000000000000000;
    pub const Enrage: u128 = 0x2000000000000000000000;
    pub const SuddenDeath: u128 = 0x4000000000000000000000;
    pub const NotDamaged: u128 = 0x8000000000000000000000;
    pub const FinalCut: u128 = 0x10000000000000000000000;
    pub const ThornsEffect: u128 = 0x20000000000000000000000;
    pub const SwallowAttackDamage: u128 = 0x40000000000000000000000;
    pub const MorewildDamageUp: u128 = 0x80000000000000000000000;
    pub const Mine: u128 = 0x100000000000000000000000;
    pub const Cyclone: u128 = 0x20000000000000000000000000;
    pub const SwallowCritical: u128 = 0x40000000000000000000000000;
    pub const SwallowMaxMP: u128 = 0x80000000000000000000000000;
    pub const SwallowDefence: u128 = 0x100000000000000000000000000;
    pub const SwallowEvasion: u128 = 0x200000000000000000000000000;
    pub const Conversion: u128 = 0x400000000000000000000000000;
    pub const Revive: u128 = 0x800000000000000000000000000;
    pub const Sneak: u128 = 0x1000000000000000000000000000;
    pub const Mechanic: u128 = 0x2000000000000000000000000000;
    pub const Aura: u128 = 0x4000000000000000000000000000;
    pub const DarkAura: u128 = 0x8000000000000000000000000000;
    pub const BlueAura: u128 = 0x10000000000000000000000000000;
    pub const YellowAura: u128 = 0x20000000000000000000000000000;
    pub const SuperBody: u128 = 0x40000000000000000000000000000;
    pub const MorewildMaxHP: u128 = 0x80000000000000000000000000000;
    pub const Dice: u128 = 0x100000000000000000000000000000;
    pub const BlessingArmor: u128 = 0x200000000000000000000000000000;
    pub const DamR: u128 = 0x400000000000000000000000000000;
    pub const TeleportMasteryOn: u128 = 0x800000000000000000000000000000;
    pub const CombatOrders: u128 = 0x1000000000000000000000000000000;
    pub const Beholder: u128 = 0x2000000000000000000000000000000;
    pub const EnergyCharged: u128 = 0x4000000000000000000000000000000;
    pub const DashSpeed: u128 = 0x8000000000000000000000000000000;
    pub const DashJump: u128 = 0x10000000000000000000000000000000;
    pub const RideVehicle: u128 = 0x20000000000000000000000000000000;
    pub const PartyBooster: u128 = 0x40000000000000000000000000000000;
    pub const GuidedBullet: u128 = 0x80000000000000000000000000000000;

    /// The bits that name a flag.
    pub open spec fn known_bits() -> u128 {
        0xffffffffffffffffffffffffffffffff
    }

    /// No flag set.
    pub fn empty() -> (r: CharSecondaryStatFlags)
        ensures
            r.bits == 0,
    {
        CharSecondaryStatFlags { bits: 0 }
    }

    /// The raw bits of the flags.
    pub fn bits(&self) -> (r: u128)
        ensures
            r == self.bits,
    {
        self.bits
    }

    /// The flags of the given bits, with the bits that name no flag dropped.
    pub fn from_bits_truncate(bits: u128) -> (r: CharSecondaryStatFlags)
        ensures
            r.bits == bits & CharSecondaryStatFlags::known_bits(),
    {
        CharSecondaryStatFlags { bits: bits & 0xffffffffffffffffffffffffffffffff }
    }

    /// Whether every flag of `other` is set.
    pub fn contains(&self, other: u128) -> (r: bool)
        ensures
            r == (self.bits & other == other),
    {
        self.bits & other == other
    }

    /// Sets the flags of `other`; the others stay as they were.
    pub fn insert(&mut self, other: u128)
        ensures
            final(self).bits == old(self).bits | other,
            final(self).bits & other == other,
    {
        let old_bits = self.bits;
        self.bits = old_bits | other;
        assert((old_bits | other) & other == other) by (bit_vector);
    }
}

/// The two-state temporary stats of a character, one bit each.
#[derive(Debug, Clone, Copy, PartialEq, Eq, Structural)]
pub struct CharSecondaryTwoStatesFlags {
    pub bits: u128,
}

#[allow(non_upper_case_globals)]
impl CharSecondaryTwoStatesFlags {
    pub const EnergyCharged: u128 = 0x4000000000000000000000000000000;
    pub const DashSpeed: u128 = 0x8000000000000000000000000000000;
    pub const DashJump: u128 = 0x10000000000000000000000000000000;
    pub const RideVehicle: u128 = 0x20000000000000000000000000000000;
    pub const PartyBooster: u128 = 0x40000000000000000000000000000000;
    pub const GuidedBullet: u128 = 0x80000000000000000000000000000000;

    /// The bits that name a flag.
    pub open spec fn known_bits() -> u128 {
        0xfc000000000000000000000000000000
    }

    /// No flag set.
    pub fn empty() -> (r: CharSecondaryTwoStatesFlags)
        ensures
            r.bits == 0,
    {
        CharSecondaryTwoStatesFlags { bits: 0 }
    }

    /// The raw bits of the flags.
    pub fn bits(&self) -> (r: u128)
        ensures
            r == self.bits,
    {
        self.bits
    }

    /// The flags of the given bits, with the bits that name no flag dropped.
    pub fn from_bits_truncate(bits: u128) -> (r: CharSecondaryTwoStatesFlags)
        ensures
            r.bits == bits & CharSecondaryTwoStatesFlags::known_bits(),
    {
        CharSecondaryTwoStatesFlags { bits: bits & 0xfc000000000000000000000000000000 }
    }

    /// Whether every flag of `other` is set.
    pub fn contains(&self, other: u128) -> (r: bool)
        ensures
            r == (self.bits & other == other),
    {
        self.bits & other == other
    }

    /// Sets the flags of `other`; the others stay as they were.
    pub fn insert(&mut self, other: u128)
        ensures
            final(self).bits == old(self).bits | other,
            final(self).bits & other == other,
    {
        let old_bits = self.bits;
        self.bits = old_bits | other;
        assert((old_bits | other) & other == other) by (bit_vector);
    }
}

impl CharSecondaryStatFlags {
    /// The stats that change how a character moves.
    pub open spec fn movement_bits() -> u128 {
        0x78020000000c00000002008b40020180
    }

    /// The stats of a swallowed mob.
    pub open spec fn swallow_bits() -> u128 {
        0x3c0040000000000000000000000
    }

    /// Whether every stat that changes how a character moves is set.
    pub fn is_movement_affecting(&self) -> (r: bool)
        ensures
            r == (self.bits & CharSecondaryStatFlags::movement_bits()
                == CharSecondaryStatFlags::movement_bits()),
    {
        self.contains(0x78020000000c00000002008b40020180)
    }

    /// Whether every stat of a swallowed mob is set.
    pub fn has_swallow_stats(&self) -> (r: bool)
        ensures
            r == (self.bits & CharSecondaryStatFlags::swallow_bits()
                == CharSecondaryStatFlags::swallow_bits()),
    {
        self.contains(0x3c0040000000000000000000000)
    }

    /// The two-state stats among the flags: the others are dropped.
    pub fn to_two_state_flags(&self) -> (r: CharSecondaryTwoStatesFlags)
        ensures
            r.bits == self.bits & CharSecondaryTwoStatesFlags::known_bits(),
    {
        CharSecondaryTwoStatesFlags::from_bits_truncate(self.bits)
    }
}

/// Taking the two-state stats of flags twice gives what taking them once
/// gives.
pub proof fn lemma_two_state_idempotent(bits: u128)
    ensures
        (bits & 0xfc000000000000000000000000000000) & 0xfc000000000000000000000000000000 == bits & 0xfc000000000000000000000000000000,
{
    assert((bits & 0xfc000000000000000000000000000000) & 0xfc000000000000000000000000000000 == bits & 0xfc000000000000000000000000000000) by (bit_vector);
}

/// What a remote character's stats carry beyond the flagged ones.
#[derive(Debug, Clone, Copy, PartialEq, Eq, Structural)]
pub struct RemoteCharSecondaryStatExtra {
    pub defense_att: u8,
    pub defense_state: u8,
}

/// The term after which a two-state stat expires.
#[derive(Debug, Clone, Copy, PartialEq, Eq, Structural)]
pub struct ExpireTerm {
    pub term: u16,
}

impl Default for ExpireTerm {
    fn default() -> (r: ExpireTerm)
        ensures
            r.term == 0,
    {
        ExpireTerm { term: 0 }
    }
}

/// The base of a two-state stat, with the time it was set.
#[derive(Debug, Clone, Copy, PartialEq, Eq, Structural)]
pub struct TwoStateBase2 {
    pub value: u32,
    pub reason: u32,
    pub negative: bool,
    pub time: u32,
}

/// The reset of temporary stats.
#[derive(Debug, Clone, Copy, PartialEq, Eq, Structural)]
pub struct LocalSecondaryStatResetResp {
    pub flags: CharSecondaryStatFlags,
    pub movement_affecting: bool,
}

} // verus!

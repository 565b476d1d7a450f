use vstd::prelude::*;
use vstd::std_specs::convert::{FromSpecImpl, TryFromSpecImpl};

use crate::error::PacketError;

verus! {

/// The action a mob performs, as sent on the wire.
#[allow(non_camel_case_types)]
#[derive(Debug, Clone, Copy, PartialEq, Eq, Structural)]
pub enum MobAction {
    MOVE,
    STAND,
    JUMP,
    FLY,
    ROPE,
    REGEN,
    BOMB,
    HIT1,
    HIT2,
    HITF,
    DIE1,
    DIE2,
    DIEF,
    ATTACK1,
    ATTACK2,
    ATTACK3,
    ATTACK4,
    ATTACK5,
    ATTACK6,
    ATTACK7,
    ATTACK8,
    ATTACKF,
    SKILL1,
    SKILL2,
    SKILL3,
    SKILL4,
    SKILL5,
    SKILL6,
    SKILL7,
    SKILL8,
    SKILL9,
    SKILL10,
    SKILL11,
    SKILL12,
    SKILL13,
    SKILL14,
    SKILL15,
    SKILL16,
    SKILLF,
    CHASE,
    MISS,
    SAY,
    EYE,
    NO,
    NONE,
}

impl MobAction {
    /// The wire code of a value.
    pub open spec fn code_of(self) -> u8 {
        match self {
            MobAction::MOVE => 0u8,
            MobAction::STAND => 1u8,
            MobAction::JUMP => 2u8,
            MobAction::FLY => 3u8,
            MobAction::ROPE => 4u8,
            MobAction::REGEN => 5u8,
            MobAction::BOMB => 6u8,
            MobAction::HIT1 => 7u8,
            MobAction::HIT2 => 8u8,
            MobAction::HITF => 9u8,
            MobAction::DIE1 => 10u8,
            MobAction::DIE2 => 11u8,
            MobAction::DIEF => 12u8,
            MobAction::ATTACK1 => 13u8,
            MobAction::ATTACK2 => 14u8,
            MobAction::ATTACK3 => 15u8,
            MobAction::ATTACK4 => 16u8,
            MobAction::ATTACK5 => 17u8,
            MobAction::ATTACK6 => 18u8,
            MobAction::ATTACK7 => 19u8,
            MobAction::ATTACK8 => 20u8,
            MobAction::ATTACKF => 21u8,
            MobAction::SKILL1 => 22u8,
            MobAction::SKILL2 => 23u8,
            MobAction::SKILL3 => 24u8,
            MobAction::SKILL4 => 25u8,
            MobAction::SKILL5 => 26u8,
            MobAction::SKILL6 => 27u8,
            MobAction::SKILL7 => 28u8,
            MobAction::SKILL8 => 29u8,
            MobAction::SKILL9 => 30u8,
            MobAction::SKILL10 => 31u8,
            MobAction::SKILL11 => 32u8,
            MobAction::SKILL12 => 33u8,
            MobAction::SKILL13 => 34u8,
            MobAction::SKILL14 => 35u8,
            MobAction::SKILL15 => 36u8,
            MobAction::SKILL16 => 37u8,
            MobAction::SKILLF => 38u8,
            MobAction::CHASE => 39u8,
            MobAction::MISS => 40u8,
            MobAction::SAY => 41u8,
            MobAction::EYE => 42u8,
            MobAction::NO => 43u8,
            MobAction::NONE => 127u8,
        }
    }

    /// The value a wire code stands for, if any.
    pub open spec fn of_code(c: u8) -> Option<MobAction> {
        match c {
            0u8 => Some(MobAction::MOVE),
            1u8 => Some(MobAction::STAND),
            2u8 => Some(MobAction::JUMP),
            3u8 => Some(MobAction::FLY),
            4u8 => Some(MobAction::ROPE),
            5u8 => Some(MobAction::REGEN),
            6u8 => Some(MobAction::BOMB),
            7u8 => Some(MobAction::HIT1),
            8u8 => Some(MobAction::HIT2),
            9u8 => Some(MobAction::HITF),
            10u8 => Some(MobAction::DIE1),
            11u8 => Some(MobAction::DIE2),
            12u8 => Some(MobAction::DIEF),
            13u8 => Some(MobAction::ATTACK1),
            14u8 => Some(MobAction::ATTACK2),
            15u8 => Some(MobAction::ATTACK3),
            16u8 => Some(MobAction::ATTACK4),
            17u8 => Some(MobAction::ATTACK5),
            18u8 => Some(MobAction::ATTACK6),
            19u8 => Some(MobAction::ATTACK7),
            20u8 => Some(MobAction::ATTACK8),
            21u8 => Some(MobAction::ATTACKF),
            22u8 => Some(MobAction::SKILL1),
            23u8 => Some(MobAction::SKILL2),
            24u8 => Some(MobAction::SKILL3),
            25u8 => Some(MobAction::SKILL4),
            26u8 => Some(MobAction::SKILL5),
            27u8 => Some(MobAction::SKILL6),
            28u8 => Some(MobAction::SKILL7),
            29u8 => Some(MobAction::SKILL8),
            30u8 => Some(MobAction::SKILL9),
            31u8 => Some(MobAction::SKILL10),
            32u8 => Some(MobAction::SKILL11),
            33u8 => Some(MobAction::SKILL12),
            34u8 => Some(MobAction::SKILL13),
            35u8 => Some(MobAction::SKILL14),
            36u8 => Some(MobAction::SKILL15),
            37u8 => Some(MobAction::SKILL16),
            38u8 => Some(MobAction::SKILLF),
            39u8 => Some(MobAction::CHASE),
            40u8 => Some(MobAction::MISS),
            41u8 => Some(MobAction::SAY),
            42u8 => Some(MobAction::EYE),
            43u8 => Some(MobAction::NO),
            127u8 => Some(MobAction::NONE),
            _ => None,
        }
    }

    /// Decoding the code of a value gives that value back.
    pub proof fn lemma_code_roundtrip(self)
        ensures
            MobAction::of_code(self.code_of()) == Some(self),
    {
    }

    /// A code that decodes to a value is that value's code.
    pub proof fn lemma_decode_roundtrip(c: u8)
        ensures
            MobAction::of_code(c) matches Some(v) ==> v.code_of() == c,
    {
    }
}

impl From<MobAction> for u8 {
    fn from(v: MobAction) -> (r: u8) {
        match v {
            MobAction::MOVE => 0,
            MobAction::STAND => 1,
            MobAction::JUMP => 2,
            MobAction::FLY => 3,
            MobAction::ROPE => 4,
            MobAction::REGEN => 5,
            MobAction::BOMB => 6,
            MobAction::HIT1 => 7,
            MobAction::HIT2 => 8,
            MobAction::HITF => 9,
            MobAction::DIE1 => 10,
            MobAction::DIE2 => 11,
            MobAction::DIEF => 12,
            MobAction::ATTACK1 => 13,
            MobAction::ATTACK2 => 14,
            MobAction::ATTACK3 => 15,
            MobAction::ATTACK4 => 16,
            MobAction::ATTACK5 => 17,
            MobAction::ATTACK6 => 18,
            MobAction::ATTACK7 => 19,
            MobAction::ATTACK8 => 20,
            MobAction::ATTACKF => 21,
            MobAction::SKILL1 => 22,
            MobAction::SKILL2 => 23,
            MobAction::SKILL3 => 24,
            MobAction::SKILL4 => 25,
            MobAction::SKILL5 => 26,
            MobAction::SKILL6 => 27,
            MobAction::SKILL7 => 28,
            MobAction::SKILL8 => 29,
            MobAction::SKILL9 => 30,
            MobAction::SKILL10 => 31,
            MobAction::SKILL11 => 32,
            MobAction::SKILL12 => 33,
            MobAction::SKILL13 => 34,
            MobAction::SKILL14 => 35,
            MobAction::SKILL15 => 36,
            MobAction::SKILL16 => 37,
            MobAction::SKILLF => 38,
            MobAction::CHASE => 39,
            MobAction::MISS => 40,
            MobAction::SAY => 41,
            MobAction::EYE => 42,
            MobAction::NO => 43,
            MobAction::NONE => 127,
        }
    }
}

impl FromSpecImpl<MobAction> for u8 {
    open spec fn obeys_from_spec() -> bool {
        true
    }

    open spec fn from_spec(v: MobAction) -> u8 {
        v.code_of()
    }
}

impl TryFrom<u8> for MobAction {
    type Error = PacketError;

    fn try_from(c: u8) -> (r: Result<MobAction, PacketError>) {
        match c {
            0 => Ok(MobAction::MOVE),
            1 => Ok(MobAction::STAND),
            2 => Ok(MobAction::JUMP),
            3 => Ok(MobAction::FLY),
            4 => Ok(MobAction::ROPE),
            5 => Ok(MobAction::REGEN),
            6 => Ok(MobAction::BOMB),
            7 => Ok(MobAction::HIT1),
            8 => Ok(MobAction::HIT2),
            9 => Ok(MobAction::HITF),
            10 => Ok(MobAction::DIE1),
            11 => Ok(MobAction::DIE2),
            12 => Ok(MobAction::DIEF),
            13 => Ok(MobAction::ATTACK1),
            14 => Ok(MobAction::ATTACK2),
            15 => Ok(MobAction::ATTACK3),
            16 => Ok(MobAction::ATTACK4),
            17 => Ok(MobAction::ATTACK5),
            18 => Ok(MobAction::ATTACK6),
            19 => Ok(MobAction::ATTACK7),
            20 => Ok(MobAction::ATTACK8),
            21 => Ok(MobAction::ATTACKF),
            22 => Ok(MobAction::SKILL1),
            23 => Ok(MobAction::SKILL2),
            24 => Ok(MobAction::SKILL3),
            25 => Ok(MobAction::SKILL4),
            26 => Ok(MobAction::SKILL5),
            27 => Ok(MobAction::SKILL6),
            28 => Ok(MobAction::SKILL7),
            29 => Ok(MobAction::SKILL8),
            30 => Ok(MobAction::SKILL9),
            31 => Ok(MobAction::SKILL10),
            32 => Ok(MobAction::SKILL11),
            33 => Ok(MobAction::SKILL12),
            34 => Ok(MobAction::SKILL13),
            35 => Ok(MobAction::SKILL14),
            36 => Ok(MobAction::SKILL15),
            37 => Ok(MobAction::SKILL16),
            38 => Ok(MobAction::SKILLF),
            39 => Ok(MobAction::CHASE),
            40 => Ok(MobAction::MISS),
            41 => Ok(MobAction::SAY),
            42 => Ok(MobAction::EYE),
            43 => Ok(MobAction::NO),
            127 => Ok(MobAction::NONE),
            _ => Err(PacketError::InvalidEnumPrimitive(c as u32)),
        }
    }
}

impl TryFromSpecImpl<u8> for MobAction {
    open spec fn obeys_try_from_spec() -> bool {
        true
    }

    open spec fn try_from_spec(c: u8) -> Result<MobAction, PacketError> {
        match MobAction::of_code(c) {
            Some(v) => Ok(v),
            None => Err(PacketError::InvalidEnumPrimitive(c as u32)),
        }
    }
}
impl MobAction {
    /// Whether this is the action code that means "no action".
    pub fn is_none(&self) -> (r: bool)
        ensures
            r == (*self == MobAction::NONE),
    {
        *self == MobAction::NONE
    }

    /// The skill action for a skill slot; slots past the sixteenth map to the
    /// catch-all skill action.
    pub fn from_skill(id: u8) -> (r: MobAction)
        ensures
            r.code_of() == (if id < 16 { 0x16 + id } else { 0x26int }),
    {
        match id {
            0 => MobAction::SKILL1,
            1 => MobAction::SKILL2,
            2 => MobAction::SKILL3,
            3 => MobAction::SKILL4,
            4 => MobAction::SKILL5,
            5 => MobAction::SKILL6,
            6 => MobAction::SKILL7,
            7 => MobAction::SKILL8,
            8 => MobAction::SKILL9,
            9 => MobAction::SKILL10,
            10 => MobAction::SKILL11,
            11 => MobAction::SKILL12,
            12 => MobAction::SKILL13,
            13 => MobAction::SKILL14,
            14 => MobAction::SKILL15,
            15 => MobAction::SKILL16,
            _ => MobAction::SKILLF,
        }
    }

    /// Whether the action is one of the sixteen numbered skill actions.
    pub open spec fn is_numbered_skill(self) -> bool {
        0x16 <= self.code_of() <= 0x25
    }

    /// The skill slot of a numbered skill action.
    pub fn skill_id(&self) -> (r: Option<u8>)
        ensures
            r == (if self.is_numbered_skill() {
                Some((self.code_of() - 0x16) as u8)
            } else {
                None::<u8>
            }),
    {
        let id: u8 = match self {
            MobAction::SKILL1 => 0,
            MobAction::SKILL2 => 1,
            MobAction::SKILL3 => 2,
            MobAction::SKILL4 => 3,
            MobAction::SKILL5 => 4,
            MobAction::SKILL6 => 5,
            MobAction::SKILL7 => 6,
            MobAction::SKILL8 => 7,
            MobAction::SKILL9 => 8,
            MobAction::SKILL10 => 9,
            MobAction::SKILL11 => 10,
            MobAction::SKILL12 => 11,
            MobAction::SKILL13 => 12,
            MobAction::SKILL14 => 13,
            MobAction::SKILL15 => 14,
            MobAction::SKILL16 => 15,
            _ => {
                return None;
            },
        };
        Some(id)
    }

    /// Whether the action is a skill action, the catch-all one included.
    pub fn is_skill(&self) -> (r: bool)
        ensures
            r == (0x16 <= self.code_of() <= 0x26),
    {
        match self {
            MobAction::SKILL1 | MobAction::SKILL2 | MobAction::SKILL3 | MobAction::SKILL4
            | MobAction::SKILL5 | MobAction::SKILL6 | MobAction::SKILL7 | MobAction::SKILL8
            | MobAction::SKILL9 | MobAction::SKILL10 | MobAction::SKILL11 | MobAction::SKILL12
            | MobAction::SKILL13 | MobAction::SKILL14 | MobAction::SKILL15 | MobAction::SKILL16
            | MobAction::SKILLF => true,
            _ => false,
        }
    }

    /// The attack action for an attack slot; slots past the eighth map to the
    /// catch-all attack action.
    pub fn from_attack(id: u8) -> (r: MobAction)
        ensures
            r.code_of() == (if id < 8 { 0xD + id } else { 0x15int }),
    {
        match id {
            0 => MobAction::ATTACK1,
            1 => MobAction::ATTACK2,
            2 => MobAction::ATTACK3,
            3 => MobAction::ATTACK4,
            4 => MobAction::ATTACK5,
            5 => MobAction::ATTACK6,
            6 => MobAction::ATTACK7,
            7 => MobAction::ATTACK8,
            _ => MobAction::ATTACKF,
        }
    }

    /// Whether the action is one of the eight numbered attack actions.
    pub open spec fn is_numbered_attack(self) -> bool {
        0xD <= self.code_of() <= 0x14
    }

    /// The attack slot of a numbered attack action.
    pub fn attack_id(&self) -> (r: Option<u8>)
        ensures
            r == (if self.is_numbered_attack() {
                Some((self.code_of() - 0xD) as u8)
            } else {
                None::<u8>
            }),
    {
        let id: u8 = match self {
            MobAction::ATTACK1 => 0,
            MobAction::ATTACK2 => 1,
            MobAction::ATTACK3 => 2,
            MobAction::ATTACK4 => 3,
            MobAction::ATTACK5 => 4,
            MobAction::ATTACK6 => 5,
            MobAction::ATTACK7 => 6,
            MobAction::ATTACK8 => 7,
            _ => {
                return None;
            },
        };
        Some(id)
    }

    /// Whether the action is an attack action, the catch-all one included.
    pub fn is_attack(&self) -> (r: bool)
        ensures
            r == (0xD <= self.code_of() <= 0x15),
    {
        match self {
            MobAction::ATTACK1 | MobAction::ATTACK2 | MobAction::ATTACK3 | MobAction::ATTACK4
            | MobAction::ATTACK5 | MobAction::ATTACK6 | MobAction::ATTACK7 | MobAction::ATTACK8
            | MobAction::ATTACKF => true,
            _ => false,
        }
    }
}

/// The action made for a skill slot below sixteen is a numbered skill action
/// whose slot is that slot; for any other slot it is the catch-all one.
pub proof fn lemma_skill_slot_roundtrip(id: u8, a: MobAction)
    requires
        a.code_of() == (if id < 16 { 0x16 + id } else { 0x26int }),
    ensures
        a.is_numbered_skill() == (id < 16),
        id < 16 ==> a.code_of() - 0x16 == id,
        id >= 16 ==> a == MobAction::SKILLF,
{
    a.lemma_code_roundtrip();
}

/// The action made for an attack slot below eight is a numbered attack action
/// whose slot is that slot; for any other slot it is the catch-all one.
pub proof fn lemma_attack_slot_roundtrip(id: u8, a: MobAction)
    requires
        a.code_of() == (if id < 8 { 0xD + id } else { 0x15int }),
    ensures
        a.is_numbered_attack() == (id < 8),
        id < 8 ==> a.code_of() - 0xD == id,
        id >= 8 ==> a == MobAction::ATTACKF,
{
    a.lemma_code_roundtrip();
}

/// Two actions with one code are the same action.
pub proof fn lemma_action_code_injective(a: MobAction, b: MobAction)
    requires
        a.code_of() == b.code_of(),
    ensures
        a == b,
{
    a.lemma_code_roundtrip();
    b.lemma_code_roundtrip();
}

/// A mob's facing together with its action, packed into one byte on the wire:
/// the lowest bit is the facing, the rest the action code.
#[derive(Debug, Clone, Copy, PartialEq, Eq, Structural)]
pub struct ActionDir {
    pub left: bool,
    pub action: MobAction,
}

/// The byte an action and facing are packed into.
pub open spec fn action_dir_byte(d: ActionDir) -> u8 {
    ((if d.left { 1int } else { 0int }) + 2 * d.action.code_of()) as u8
}

impl From<ActionDir> for u8 {
    fn from(val: ActionDir) -> (r: u8) {
        let l: u8 = if val.left { 1 } else { 0 };
        let a: u8 = u8::from(val.action);
        assert(a <= 0x7f);
        assert(l <= 1 && a <= 0x7f ==> (l | (a << 1u8)) == l + 2 * a) by (bit_vector);
        l | (a << 1u8)
    }
}

impl FromSpecImpl<ActionDir> for u8 {
    open spec fn obeys_from_spec() -> bool {
        true
    }

    open spec fn from_spec(v: ActionDir) -> u8 {
        action_dir_byte(v)
    }
}

/// What a byte decodes to as an action and facing.
pub open spec fn action_dir_of_byte(value: u8) -> Result<ActionDir, PacketError> {
    match MobAction::of_code(value / 2) {
        Some(action) => Ok(ActionDir { left: value % 2 == 1, action }),
        None => Err(PacketError::InvalidEnumPrimitive(value as u32)),
    }
}

impl TryFrom<u8> for ActionDir {
    type Error = PacketError;

    fn try_from(value: u8) -> (r: Result<ActionDir, PacketError>) {
        assert((value & 1u8 != 0u8) == (value % 2 == 1) && (value >> 1u8) == value / 2)
            by (bit_vector);
        let left = value & 1 != 0;
        match MobAction::try_from(value >> 1) {
            Ok(action) => Ok(ActionDir { left, action }),
            Err(_) => Err(PacketError::InvalidEnumPrimitive(value as u32)),
        }
    }
}

impl TryFromSpecImpl<u8> for ActionDir {
    open spec fn obeys_try_from_spec() -> bool {
        true
    }

    open spec fn try_from_spec(value: u8) -> Result<ActionDir, PacketError> {
        action_dir_of_byte(value)
    }
}

/// Decoding the byte of an action and facing gives them back.
pub proof fn lemma_action_dir_roundtrip(d: ActionDir)
    ensures
        action_dir_of_byte(action_dir_byte(d)) == Ok::<ActionDir, PacketError>(d),
{
    d.action.lemma_code_roundtrip();
}

/// A byte that decodes to an action and facing is their byte.
pub proof fn lemma_action_dir_byte_roundtrip(value: u8)
    ensures
        action_dir_of_byte(value) matches Ok(d) ==> action_dir_byte(d) == value,
{
    MobAction::lemma_decode_roundtrip(value / 2);
}

/// A mob skill with its level and delay, packed into one 32-bit word on the wire:
/// the id in the low byte, the level in the next, the delay in the high half.
#[derive(Debug, Clone, Copy, PartialEq, Eq, Structural)]
pub struct MobSkillData {
    pub id: u8,
    pub lvl: u8,
    pub delay: u16,
}

impl Default for MobSkillData {
    fn default() -> (r: MobSkillData)
        ensures
            r == (MobSkillData { id: 0, lvl: 0, delay: 0 }),
    {
        MobSkillData { id: 0, lvl: 0, delay: 0 }
    }
}

/// The word a skill, level and delay are packed into.
pub open spec fn mob_skill_word(d: MobSkillData) -> u32 {
    (d.id + 256 * d.lvl + 65536 * d.delay) as u32
}

/// The skill, level and delay a word unpacks to.
pub open spec fn mob_skill_of_word(v: u32) -> MobSkillData {
    MobSkillData {
        id: (v % 256) as u8,
        lvl: ((v / 256) % 256) as u8,
        delay: (v / 65536) as u16,
    }
}

impl From<u32> for MobSkillData {
    fn from(v: u32) -> (r: MobSkillData) {
        assert((v & 0xFFu32) == v % 256 && ((v >> 8u32) & 0xFFu32) == (v / 256) % 256 && ((v
            >> 16u32) & 0xFFFFu32) == v / 65536) by (bit_vector);
        MobSkillData {
            id: (v & 0xFF) as u8,
            lvl: ((v >> 8u32) & 0xFF) as u8,
            delay: ((v >> 16u32) & 0xFFFF) as u16,
        }
    }
}

impl FromSpecImpl<u32> for MobSkillData {
    open spec fn obeys_from_spec() -> bool {
        true
    }

    open spec fn from_spec(v: u32) -> MobSkillData {
        mob_skill_of_word(v)
    }
}

impl From<MobSkillData> for u32 {
    fn from(v: MobSkillData) -> (r: u32) {
        let a = v.id as u32;
        let b = v.lvl as u32;
        let c = v.delay as u32;
        assert(a < 256 && b < 256 && c < 65536 ==> (a | (b << 8u32) | (c << 16u32)) == a + 256
            * b + 65536 * c) by (bit_vector);
        a | (b << 8u32) | (c << 16u32)
    }
}

impl FromSpecImpl<MobSkillData> for u32 {
    open spec fn obeys_from_spec() -> bool {
        true
    }

    open spec fn from_spec(v: MobSkillData) -> u32 {
        mob_skill_word(v)
    }
}

/// Unpacking the word of a skill, level and delay gives them back.
pub proof fn lemma_mob_skill_roundtrip(d: MobSkillData)
    ensures
        mob_skill_of_word(mob_skill_word(d)) == d,
{
    let id = d.id as int;
    let lvl = d.lvl as int;
    let delay = d.delay as int;
    let w = id + 256 * lvl + 65536 * delay;
    assert(w % 256 == id && (w / 256) % 256 == lvl && w / 65536 == delay) by (nonlinear_arith)
        requires
            0 <= id < 256,
            0 <= lvl < 256,
            0 <= delay < 65536,
            w == id + 256 * lvl + 65536 * delay,
    ;
}

/// Packing what a word unpacks to gives the word back.
pub proof fn lemma_mob_skill_word_roundtrip(v: u32)
    ensures
        mob_skill_word(mob_skill_of_word(v)) == v,
{
    let x = v as int;
    assert(x % 256 + 256 * ((x / 256) % 256) + 65536 * (x / 65536) == x) by (nonlinear_arith)
        requires
            0 <= x,
    ;
}
/// Who controls a mob.
#[derive(Debug, Clone, Copy, PartialEq, Eq, Structural)]
pub enum MobCtrlTy {
    Passive,
    Passive0,
    Passive1,
    NoCtrl,
    ActiveInt,
    ActiveReq,
    ActivePerm0,
    ActivePerm1,
}

impl MobCtrlTy {
    /// The wire code of a value.
    pub open spec fn code_of(self) -> u8 {
        match self {
            MobCtrlTy::Passive => 255u8,
            MobCtrlTy::Passive0 => 254u8,
            MobCtrlTy::Passive1 => 253u8,
            MobCtrlTy::NoCtrl => 0u8,
            MobCtrlTy::ActiveInt => 1u8,
            MobCtrlTy::ActiveReq => 2u8,
            MobCtrlTy::ActivePerm0 => 3u8,
            MobCtrlTy::ActivePerm1 => 4u8,
        }
    }

    /// The value a wire code stands for, if any.
    pub open spec fn of_code(c: u8) -> Option<MobCtrlTy> {
        match c {
            255u8 => Some(MobCtrlTy::Passive),
            254u8 => Some(MobCtrlTy::Passive0),
            253u8 => Some(MobCtrlTy::Passive1),
            0u8 => Some(MobCtrlTy::NoCtrl),
            1u8 => Some(MobCtrlTy::ActiveInt),
            2u8 => Some(MobCtrlTy::ActiveReq),
            3u8 => Some(MobCtrlTy::ActivePerm0),
            4u8 => Some(MobCtrlTy::ActivePerm1),
            _ => None,
        }
    }

    /// Decoding the code of a value gives that value back.
    pub proof fn lemma_code_roundtrip(self)
        ensures
            MobCtrlTy::of_code(self.code_of()) == Some(self),
    {
    }

    /// A code that decodes to a value is that value's code.
    pub proof fn lemma_decode_roundtrip(c: u8)
        ensures
            MobCtrlTy::of_code(c) matches Some(v) ==> v.code_of() == c,
    {
    }
}

impl From<MobCtrlTy> for u8 {
    fn from(v: MobCtrlTy) -> (r: u8) {
        match v {
            MobCtrlTy::Passive => 255,
            MobCtrlTy::Passive0 => 254,
            MobCtrlTy::Passive1 => 253,
            MobCtrlTy::NoCtrl => 0,
            MobCtrlTy::ActiveInt => 1,
            MobCtrlTy::ActiveReq => 2,
            MobCtrlTy::ActivePerm0 => 3,
            MobCtrlTy::ActivePerm1 => 4,
        }
    }
}

impl FromSpecImpl<MobCtrlTy> for u8 {
    open spec fn obeys_from_spec() -> bool {
        true
    }

    open spec fn from_spec(v: MobCtrlTy) -> u8 {
        v.code_of()
    }
}

impl TryFrom<u8> for MobCtrlTy {
    type Error = PacketError;

    fn try_from(c: u8) -> (r: Result<MobCtrlTy, PacketError>) {
        match c {
            255 => Ok(MobCtrlTy::Passive),
            254 => Ok(MobCtrlTy::Passive0),
            253 => Ok(MobCtrlTy::Passive1),
            0 => Ok(MobCtrlTy::NoCtrl),
            1 => Ok(MobCtrlTy::ActiveInt),
            2 => Ok(MobCtrlTy::ActiveReq),
            3 => Ok(MobCtrlTy::ActivePerm0),
            4 => Ok(MobCtrlTy::ActivePerm1),
            _ => Err(PacketError::InvalidEnumPrimitive(c as u32)),
        }
    }
}

impl TryFromSpecImpl<u8> for MobCtrlTy {
    open spec fn obeys_try_from_spec() -> bool {
        true
    }

    open spec fn try_from_spec(c: u8) -> Result<MobCtrlTy, PacketError> {
        match MobCtrlTy::of_code(c) {
            Some(v) => Ok(v),
            None => Err(PacketError::InvalidEnumPrimitive(c as u32)),
        }
    }
}
/// The monster carnival team of a mob.
#[derive(Debug, Clone, Copy, PartialEq, Eq, Structural)]
pub enum CarnivalTeam {
    NoTeam,
    Blue,
    Red,
}

impl CarnivalTeam {
    /// The wire code of a value.
    pub open spec fn code_of(self) -> u8 {
        match self {
            CarnivalTeam::NoTeam => 255u8,
            CarnivalTeam::Blue => 0u8,
            CarnivalTeam::Red => 1u8,
        }
    }

    /// The value a wire code stands for, if any.
    pub open spec fn of_code(c: u8) -> Option<CarnivalTeam> {
        match c {
            255u8 => Some(CarnivalTeam::NoTeam),
            0u8 => Some(CarnivalTeam::Blue),
            1u8 => Some(CarnivalTeam::Red),
            _ => None,
        }
    }

    /// Decoding the code of a value gives that value back.
    pub proof fn lemma_code_roundtrip(self)
        ensures
            CarnivalTeam::of_code(self.code_of()) == Some(self),
    {
    }

    /// A code that decodes to a value is that value's code.
    pub proof fn lemma_decode_roundtrip(c: u8)
        ensures
            CarnivalTeam::of_code(c) matches Some(v) ==> v.code_of() == c,
    {
    }
}

impl From<CarnivalTeam> for u8 {
    fn from(v: CarnivalTeam) -> (r: u8) {
        match v {
            CarnivalTeam::NoTeam => 255,
            CarnivalTeam::Blue => 0,
            CarnivalTeam::Red => 1,
        }
    }
}

impl FromSpecImpl<CarnivalTeam> for u8 {
    open spec fn obeys_from_spec() -> bool {
        true
    }

    open spec fn from_spec(v: CarnivalTeam) -> u8 {
        v.code_of()
    }
}

impl TryFrom<u8> for CarnivalTeam {
    type Error = PacketError;

    fn try_from(c: u8) -> (r: Result<CarnivalTeam, PacketError>) {
        match c {
            255 => Ok(CarnivalTeam::NoTeam),
            0 => Ok(CarnivalTeam::Blue),
            1 => Ok(CarnivalTeam::Red),
            _ => Err(PacketError::InvalidEnumPrimitive(c as u32)),
        }
    }
}

impl TryFromSpecImpl<u8> for CarnivalTeam {
    open spec fn obeys_try_from_spec() -> bool {
        true
    }

    open spec fn try_from_spec(c: u8) -> Result<CarnivalTeam, PacketError> {
        match CarnivalTeam::of_code(c) {
            Some(v) => Ok(v),
            None => Err(PacketError::InvalidEnumPrimitive(c as u32)),
        }
    }
}

impl MobCtrlTy {
    /// Whether the controller type means "not controlled".
    pub fn is_none(&self) -> (r: bool)
        ensures
            r == (*self == MobCtrlTy::NoCtrl),
    {
        *self == MobCtrlTy::NoCtrl
    }

    /// Whether the mob is controlled in any way.
    pub fn is_not_none(&self) -> (r: bool)
        ensures
            r == (*self != MobCtrlTy::NoCtrl),
    {
        !self.is_none()
    }
}

/// A point of the field in the client's fixed-point tag coordinates.
#[derive(Debug, Clone, Copy, PartialEq, Eq, Structural)]
pub struct TagPoint {
    pub x: i32,
    pub y: i32,
}

impl TagPoint {
    /// The point with the given coordinates.
    pub fn new(x: i32, y: i32) -> (r: TagPoint)
        ensures
            r == (TagPoint { x, y }),
    {
        TagPoint { x, y }
    }
}

/// The point the client sends when a flying mob has no target.
pub open spec fn none_fly_target_pos() -> TagPoint {
    TagPoint { x: 0xffddcc, y: 0xffddcc }
}

/// The point the client sends when a flying mob has no target.
pub fn none_fly_target_point() -> (r: TagPoint)
    ensures
        r == none_fly_target_pos(),
{
    TagPoint::new(0xffddcc, 0xffddcc)
}

/// The target a point read from the wire stands for.
pub open spec fn fly_target_of_point(v: TagPoint) -> FlyTargetPoint {
    if v == none_fly_target_pos() {
        FlyTargetPoint(None)
    } else {
        FlyTargetPoint(Some(v))
    }
}

/// The point a target is written as.
pub open spec fn point_of_fly_target(v: FlyTargetPoint) -> TagPoint {
    match v.0 {
        Some(p) => p,
        None => none_fly_target_pos(),
    }
}

/// The target of a flying mob, absent when the client sends the marker point.
#[derive(Debug, Clone, Copy, PartialEq, Eq, Structural)]
pub struct FlyTargetPoint(pub Option<TagPoint>);

impl From<TagPoint> for FlyTargetPoint {
    fn from(v: TagPoint) -> (r: FlyTargetPoint) {
        if v == none_fly_target_point() {
            FlyTargetPoint(None)
        } else {
            FlyTargetPoint(Some(v))
        }
    }
}

impl FromSpecImpl<TagPoint> for FlyTargetPoint {
    open spec fn obeys_from_spec() -> bool {
        true
    }

    open spec fn from_spec(v: TagPoint) -> FlyTargetPoint {
        fly_target_of_point(v)
    }
}

impl From<FlyTargetPoint> for TagPoint {
    fn from(v: FlyTargetPoint) -> (r: TagPoint) {
        match v.0 {
            Some(p) => p,
            None => none_fly_target_point(),
        }
    }
}

impl FromSpecImpl<FlyTargetPoint> for TagPoint {
    open spec fn obeys_from_spec() -> bool {
        true
    }

    open spec fn from_spec(v: FlyTargetPoint) -> TagPoint {
        point_of_fly_target(v)
    }
}

/// A point read from the wire and written back is the same point, and a target
/// other than the marker point survives the trip the other way.
pub proof fn lemma_fly_target_roundtrip(p: TagPoint, t: FlyTargetPoint)
    ensures
        point_of_fly_target(fly_target_of_point(p)) == p,
        t.0 != Some(none_fly_target_pos()) ==> fly_target_of_point(point_of_fly_target(t)) == t,
{
}

/// Flags of a mob movement request.
#[derive(Debug, Clone, Copy, PartialEq, Eq, Structural)]
pub struct MobMoveFlags {
    pub bits: u8,
}

impl MobMoveFlags {
    pub const CAN_ATTACK: u8 = 1;
    pub const RUSH_MOVE: u8 = 4;
    pub const RISE_BY_TOSS: u8 = 8;
    pub const MOB_CTRL_STATE: u8 = 16;

    /// The raw bits of the flags.
    pub fn bits(&self) -> (r: u8)
        ensures
            r == self.bits,
    {
        self.bits
    }

    /// The flags of the given bits with the unknown ones dropped.
    pub fn from_bits_truncate(bits: u8) -> (r: MobMoveFlags)
        ensures
            r.bits == bits & 0x1d,
    {
        MobMoveFlags { bits: bits & 0x1d }
    }

    /// Whether every flag of `other` is set.
    pub fn contains(&self, other: u8) -> (r: bool)
        ensures
            r == (self.bits & other == other),
    {
        self.bits & other == other
    }
}

/// What a mob's move request carries beyond its movement path.
#[derive(Debug, Clone, Copy, PartialEq, Eq, Structural)]
pub struct MobMoveReqHeader {
    pub id: u32,
    pub ctrl_sn: u16,
    pub flag: MobMoveFlags,
    pub action_dir: ActionDir,
    pub data: MobSkillData,
}

impl MobMoveReqHeader {
    /// The skill the mob uses, when its action is a skill action.
    pub fn get_skill_data(&self) -> (r: Option<MobSkillData>)
        ensures
            r == (if 0x16 <= self.action_dir.action.code_of() <= 0x26 {
                Some(self.data)
            } else {
                None::<MobSkillData>
            }),
    {
        if self.action_dir.action.is_skill() {
            Some(self.data)
        } else {
            None
        }
    }
}

/// The tail of a mob's temporary stats.
#[derive(Debug, Clone, Copy, PartialEq, Eq, Structural)]
pub struct MobTemporaryStatTail {
    pub w_pcounter: u32,
    pub w_mcounter: u32,
    pub counter_prob: u32,
    pub invincible: bool,
    pub disable: bool,
}

/// How a mob entered the field.
#[derive(Debug, Clone, Copy, PartialEq, Eq, Structural)]
pub enum MobSummonType {
    Effect(u32),
    Normal,
    Regen,
    Revived(u32),
    Suspended,
    Delay,
}

impl MobSummonType {
    /// The signed tag of the variant on the wire.
    pub fn tag(&self) -> (r: i8)
        ensures
            r == (match *self {
                MobSummonType::Effect(_) => 0i8,
                MobSummonType::Normal => -1i8,
                MobSummonType::Regen => -2i8,
                MobSummonType::Revived(_) => -3i8,
                MobSummonType::Suspended => -4i8,
                MobSummonType::Delay => -5i8,
            }),
    {
        match self {
            MobSummonType::Effect(_) => 0,
            MobSummonType::Normal => -1,
            MobSummonType::Regen => -2,
            MobSummonType::Revived(_) => -3,
            MobSummonType::Suspended => -4,
            MobSummonType::Delay => -5,
        }
    }
}

/// Why a mob left the field.
#[derive(Debug, Clone, Copy, PartialEq, Eq, Structural)]
pub enum MobLeaveType {
    RemainHp,
    Etc,
    SelfDestruct,
    DestructByMiss,
    Swallow(u32),
    SummonTimeout,
}

impl MobLeaveType {
    /// The tag of the variant on the wire.
    pub fn tag(&self) -> (r: u8)
        ensures
            r == (match *self {
                MobLeaveType::RemainHp => 0u8,
                MobLeaveType::Etc => 1u8,
                MobLeaveType::SelfDestruct => 2u8,
                MobLeaveType::DestructByMiss => 3u8,
                MobLeaveType::Swallow(_) => 4u8,
                MobLeaveType::SummonTimeout => 5u8,
            }),
    {
        match self {
            MobLeaveType::RemainHp => 0,
            MobLeaveType::Etc => 1,
            MobLeaveType::SelfDestruct => 2,
            MobLeaveType::DestructByMiss => 3,
            MobLeaveType::Swallow(_) => 4,
            MobLeaveType::SummonTimeout => 5,
        }
    }
}

} // verus!

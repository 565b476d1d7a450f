use vstd::prelude::*;

use crate::ids::{FootholdId, Rect, Vec2};

verus! {

/// The state of the four arrow keys at one moment, one bit per key, kept in
/// the low four bits of a byte.
pub struct ArrowKeyState(u8);

impl ArrowKeyState {
    #[verifier::type_invariant]
    spec fn wf(self) -> bool {
        self.0 < 16
    }

    /// The four key bits.
    pub closed spec fn nibble(self) -> u8 {
        self.0
    }

    /// The state of the given key bits, refused when a bit above the four key
    /// bits is set.
    pub fn try_from(b: u8) -> (r: Option<ArrowKeyState>)
        ensures
            b < 16 ==> (r matches Some(k) && k.nibble() == b),
            b >= 16 ==> r is None,
    {
        if b < 16 {
            Some(ArrowKeyState(b))
        } else {
            None
        }
    }

    /// The four key bits.
    pub fn raw(&self) -> (r: u8)
        ensures
            r == self.nibble(),
            r < 16,
    {
        proof {
            use_type_invariant(self);
        }
        self.0
    }
}

/// The key states of a movement, packed two to a byte on the wire.
pub struct ArrowKeyStates(pub Vec<ArrowKeyState>);

/// The key bits of each state.
pub open spec fn nibbles_of(s: Seq<ArrowKeyState>) -> Seq<u8> {
    s.map_values(|k: ArrowKeyState| k.nibble())
}

/// Nibbles packed two to a byte, the first in the low half; an odd last nibble
/// takes a byte of its own.
pub open spec fn pack_nibbles(s: Seq<u8>) -> Seq<u8> {
    Seq::new(
        ((s.len() + 1) / 2) as nat,
        |j: int|
            if 2 * j + 1 < s.len() {
                (s[2 * j] + 16 * s[2 * j + 1]) as u8
            } else {
                s[2 * j]
            },
    )
}

/// The nibbles of bytes, the low half of each byte first.
pub open spec fn unpack_nibbles(b: Seq<u8>) -> Seq<u8> {
    Seq::new(
        (2 * b.len()) as nat,
        |j: int|
            if j % 2 == 0 {
                b[j / 2] % 16
            } else {
                b[j / 2] / 16
            },
    )
}

/// The number of bytes `len` states take on the wire.
pub open spec fn key_state_byte_len(len: nat) -> nat {
    (len + 1) / 2
}

impl ArrowKeyStates {
    /// The key bits of each state.
    pub open spec fn nibbles(&self) -> Seq<u8> {
        nibbles_of(self.0@)
    }

    /// The bytes the states are written as.
    pub fn as_bytes(&self) -> (r: Vec<u8>)
        ensures
            r@ == pack_nibbles(self.nibbles()),
            forall|i: int| 0 <= i < self.nibbles().len() ==> #[trigger] self.nibbles()[i] < 16,
    {
        let n = self.0.len();
        let mut out: Vec<u8> = Vec::new();
        let mut i: usize = 0;
        let ghost s = self.nibbles();
        while i < n
            invariant
                n == self.0@.len(),
                s == self.nibbles(),
                s.len() == n,
                i <= n,
                i % 2 == 0 || i == n,
                out@.len() == (i + 1) / 2,
                forall|j: int| 0 <= j < i ==> #[trigger] s[j] < 16,
                forall|j: int| 0 <= j < out@.len() ==> out@[j] == pack_nibbles(s)[j],
            decreases n - i,
        {
            let a = self.0[i].raw();
            if i + 1 < n {
                let b = self.0[i + 1].raw();
                assert(a < 16 && b < 16 ==> (a | (b << 4u8)) == a + 16 * b) by (bit_vector);
                out.push(a | (b << 4u8));
                i = i + 2;
            } else {
                out.push(a);
                i = i + 1;
                assert(i == n);
            }
        }
        assert(out@ =~= pack_nibbles(s));
        out
    }

    /// The first `len` states of the nibbles of `bytes`, or all of them when
    /// there are fewer.
    pub fn from_bytes(bytes: &[u8], len: usize) -> (r: ArrowKeyStates)
        ensures
            r.nibbles() == unpack_nibbles(bytes@).take(
                if len <= 2 * bytes@.len() {
                    len as int
                } else {
                    (2 * bytes@.len()) as int
                },
            ),
    {
        let mut out: Vec<ArrowKeyState> = Vec::new();
        let n = bytes.len();
        let ghost u = unpack_nibbles(bytes@);
        let mut i: usize = 0;
        while i < n && out.len() < len
            invariant
                n == bytes@.len(),
                u == unpack_nibbles(bytes@),
                i <= n,
                out@.len() <= len,
                out@.len() == 2 * i || (out@.len() == len && out@.len() == 2 * i - 1 && i >= 1),
                nibbles_of(out@) == u.take(out@.len() as int),
            decreases n - i,
        {
            let b = bytes[i];
            assert((b & 0xFu8) == b % 16 && (b >> 4u8) == b / 16 && b % 16 < 16 && b / 16 < 16)
                by (bit_vector);
            let lo = ArrowKeyState::try_from(b & 0xF).unwrap();
            out.push(lo);
            assert(nibbles_of(out@) =~= u.take(out@.len() as int));
            if out.len() < len {
                let hi = ArrowKeyState::try_from(b >> 4).unwrap();
                out.push(hi);
                assert(nibbles_of(out@) =~= u.take(out@.len() as int));
            }
            i = i + 1;
        }
        ArrowKeyStates(out)
    }

    /// The number of bytes `len` states take on the wire.
    pub fn byte_len(len: usize) -> (r: usize)
        ensures
            r == key_state_byte_len(len as nat),
    {
        if len == usize::MAX {
            len / 2 + 1
        } else {
            (len + 1) / 2
        }
    }
}

/// Unpacking the packed nibbles of key states gives them back.
pub proof fn lemma_key_states_roundtrip(s: Seq<u8>)
    requires
        forall|i: int| 0 <= i < s.len() ==> #[trigger] s[i] < 16,
    ensures
        unpack_nibbles(pack_nibbles(s)).take(s.len() as int) == s,
        pack_nibbles(s).len() == key_state_byte_len(s.len()),
{
    let p = pack_nibbles(s);
    let u = unpack_nibbles(p);
    assert forall|j: int| 0 <= j < s.len() implies #[trigger] u[j] == s[j] by {
        let k = j / 2;
        if 2 * k + 1 < s.len() {
            let a = s[2 * k] as int;
            let b = s[2 * k + 1] as int;
            assert((a + 16 * b) % 16 == a && (a + 16 * b) / 16 == b) by (nonlinear_arith)
                requires
                    0 <= a < 16,
                    0 <= b < 16,
            ;
        }
    }
    assert(u.take(s.len() as int) =~= s);
}

/// The action and duration that end each movement step.
#[derive(Debug, Clone, Copy, PartialEq, Eq, Structural)]
pub struct MovementFooter {
    pub action: u8,
    /// Duration of the step in milliseconds.
    pub dur: u16,
}

/// A step to an absolute position on a foothold.
#[derive(Debug, Clone, Copy, PartialEq, Eq, Structural)]
pub struct AbsoluteMovement {
    pub pos: Vec2,
    pub velocity: Vec2,
    pub fh: FootholdId,
    pub offset: Vec2,
    pub footer: MovementFooter,
}

impl AbsoluteMovement {
    /// Where the step ends and on which foothold, when the step tells.
    pub open spec fn pos_fh_of(self) -> Option<(Vec2, Option<FootholdId>)> {
        Some((self.pos, Some(self.fh)))
    }

    /// Where the step ends and on which foothold, when the step tells.
    pub fn get_pos_fh(&self) -> (r: Option<(Vec2, Option<FootholdId>)>)
        ensures
            r == self.pos_fh_of(),
    {
        Some((self.pos, Some(self.fh)))
    }

    /// The footer of the step.
    pub fn get_footer(&self) -> (r: &MovementFooter)
        ensures
            *r == self.footer,
    {
        &self.footer
    }
}

/// A fall to an absolute position.
#[derive(Debug, Clone, Copy, PartialEq, Eq, Structural)]
pub struct AbsoluteFallMovement {
    pub pos: Vec2,
    pub velocity: Vec2,
    pub fh: FootholdId,
    pub fh_fall_start: FootholdId,
    pub offset: Vec2,
    pub footer: MovementFooter,
}

impl AbsoluteFallMovement {
    /// Where the step ends and on which foothold, when the step tells.
    pub open spec fn pos_fh_of(self) -> Option<(Vec2, Option<FootholdId>)> {
        Some((self.pos, Some(self.fh)))
    }

    /// Where the step ends and on which foothold, when the step tells.
    pub fn get_pos_fh(&self) -> (r: Option<(Vec2, Option<FootholdId>)>)
        ensures
            r == self.pos_fh_of(),
    {
        Some((self.pos, Some(self.fh)))
    }

    /// The footer of the step.
    pub fn get_footer(&self) -> (r: &MovementFooter)
        ensures
            *r == self.footer,
    {
        &self.footer
    }
}

/// A step given by its velocity alone.
#[derive(Debug, Clone, Copy, PartialEq, Eq, Structural)]
pub struct RelativeMovement {
    pub velocity: Vec2,
    pub footer: MovementFooter,
}

impl RelativeMovement {
    /// Where the step ends and on which foothold, when the step tells.
    pub open spec fn pos_fh_of(self) -> Option<(Vec2, Option<FootholdId>)> {
        None
    }

    /// Where the step ends and on which foothold, when the step tells.
    pub fn get_pos_fh(&self) -> (r: Option<(Vec2, Option<FootholdId>)>)
        ensures
            r == self.pos_fh_of(),
    {
        None
    }

    /// The footer of the step.
    pub fn get_footer(&self) -> (r: &MovementFooter)
        ensures
            *r == self.footer,
    {
        &self.footer
    }
}

/// An instant move to a position on a foothold.
#[derive(Debug, Clone, Copy, PartialEq, Eq, Structural)]
pub struct InstantMovement {
    pub pos: Vec2,
    pub fh: FootholdId,
    pub footer: MovementFooter,
}

impl InstantMovement {
    /// Where the step ends and on which foothold, when the step tells.
    pub open spec fn pos_fh_of(self) -> Option<(Vec2, Option<FootholdId>)> {
        Some((self.pos, Some(self.fh)))
    }

    /// Where the step ends and on which foothold, when the step tells.
    pub fn get_pos_fh(&self) -> (r: Option<(Vec2, Option<FootholdId>)>)
        ensures
            r == self.pos_fh_of(),
    {
        Some((self.pos, Some(self.fh)))
    }

    /// The footer of the step.
    pub fn get_footer(&self) -> (r: &MovementFooter)
        ensures
            *r == self.footer,
    {
        &self.footer
    }
}

/// The start of a fall through a foothold.
#[derive(Debug, Clone, Copy, PartialEq, Eq, Structural)]
pub struct FallDownMovement {
    pub velocity: Vec2,
    pub fh_fall_start: FootholdId,
    pub footer: MovementFooter,
}

impl FallDownMovement {
    /// Where the step ends and on which foothold, when the step tells.
    pub open spec fn pos_fh_of(self) -> Option<(Vec2, Option<FootholdId>)> {
        None
    }

    /// Where the step ends and on which foothold, when the step tells.
    pub fn get_pos_fh(&self) -> (r: Option<(Vec2, Option<FootholdId>)>)
        ensures
            r == self.pos_fh_of(),
    {
        None
    }

    /// The footer of the step.
    pub fn get_footer(&self) -> (r: &MovementFooter)
        ensures
            *r == self.footer,
    {
        &self.footer
    }
}

/// A flying step to a position.
#[derive(Debug, Clone, Copy, PartialEq, Eq, Structural)]
pub struct FlyingMovement {
    pub pos: Vec2,
    pub velocity: Vec2,
    pub footer: MovementFooter,
}

impl FlyingMovement {
    /// Where the step ends and on which foothold, when the step tells.
    pub open spec fn pos_fh_of(self) -> Option<(Vec2, Option<FootholdId>)> {
        Some((self.pos, None))
    }

    /// Where the step ends and on which foothold, when the step tells.
    pub fn get_pos_fh(&self) -> (r: Option<(Vec2, Option<FootholdId>)>)
        ensures
            r == self.pos_fh_of(),
    {
        Some((self.pos, None))
    }

    /// The footer of the step.
    pub fn get_footer(&self) -> (r: &MovementFooter)
        ensures
            *r == self.footer,
    {
        &self.footer
    }
}

/// A step of which only the footer is known.
#[derive(Debug, Clone, Copy, PartialEq, Eq, Structural)]
pub struct UnknownMovement {
    pub footer: MovementFooter,
}

impl UnknownMovement {
    /// Where the step ends and on which foothold, when the step tells.
    pub open spec fn pos_fh_of(self) -> Option<(Vec2, Option<FootholdId>)> {
        None
    }

    /// Where the step ends and on which foothold, when the step tells.
    pub fn get_pos_fh(&self) -> (r: Option<(Vec2, Option<FootholdId>)>)
        ensures
            r == self.pos_fh_of(),
    {
        None
    }

    /// The footer of the step.
    pub fn get_footer(&self) -> (r: &MovementFooter)
        ensures
            *r == self.footer,
    {
        &self.footer
    }
}
/// One step of a movement path.
#[derive(Debug, Clone, Copy, PartialEq, Eq, Structural)]
pub enum Movement {
    Normal(AbsoluteMovement),
    Jump(RelativeMovement),
    Impact(RelativeMovement),
    Immediate(InstantMovement),
    Teleport(InstantMovement),
    HangOnBack(AbsoluteMovement),
    Assaulter(InstantMovement),
    Assassinate(InstantMovement),
    Rush(InstantMovement),
    StatChange(bool),
    SitDown(InstantMovement),
    StartFallDown(FallDownMovement),
    FallDown(AbsoluteFallMovement),
    StartWings(RelativeMovement),
    Wings(AbsoluteMovement),
    MobToss(RelativeMovement),
    FlyingBlock(FlyingMovement),
    DashSlide(RelativeMovement),
    FlashJump(UnknownMovement),
    RocketBooster(UnknownMovement),
    BackstepShot(UnknownMovement),
    MobPowerKnockback(UnknownMovement),
    VerticalJump(UnknownMovement),
    CustomImpact(UnknownMovement),
    CombatStep(UnknownMovement),
    Hit(UnknownMovement),
    TimeBombAttack(UnknownMovement),
    SnowballTouch(UnknownMovement),
    BuffZoneEffect(UnknownMovement),
    MobLadder(RelativeMovement),
    MobRightAngle(RelativeMovement),
    MobStopNodeStart(RelativeMovement),
    MobBeforeNode(RelativeMovement),
    MobAttackRush(AbsoluteMovement),
    MobAttackRushStop(AbsoluteMovement),
}

impl Movement {
    /// The tag of the variant on the wire.
    pub open spec fn tag_of(self) -> u8 {
        match self {
            Movement::Normal(_) => 0u8,
            Movement::Jump(_) => 1u8,
            Movement::Impact(_) => 2u8,
            Movement::Immediate(_) => 0x3u8,
            Movement::Teleport(_) => 0x4u8,
            Movement::HangOnBack(_) => 5u8,
            Movement::Assaulter(_) => 0x6u8,
            Movement::Assassinate(_) => 0x7u8,
            Movement::Rush(_) => 0x8u8,
            Movement::StatChange(_) => 0x9u8,
            Movement::SitDown(_) => 0xAu8,
            Movement::StartFallDown(_) => 0xBu8,
            Movement::FallDown(_) => 0xCu8,
            Movement::StartWings(_) => 0xDu8,
            Movement::Wings(_) => 0xEu8,
            Movement::MobToss(_) => 0x10u8,
            Movement::FlyingBlock(_) => 0x11u8,
            Movement::DashSlide(_) => 0x12u8,
            Movement::FlashJump(_) => 0x14u8,
            Movement::RocketBooster(_) => 0x15u8,
            Movement::BackstepShot(_) => 0x16u8,
            Movement::MobPowerKnockback(_) => 0x17u8,
            Movement::VerticalJump(_) => 0x18u8,
            Movement::CustomImpact(_) => 0x19u8,
            Movement::CombatStep(_) => 0x1Au8,
            Movement::Hit(_) => 0x1Bu8,
            Movement::TimeBombAttack(_) => 0x1Cu8,
            Movement::SnowballTouch(_) => 0x1Du8,
            Movement::BuffZoneEffect(_) => 0x1Eu8,
            Movement::MobLadder(_) => 0x1Fu8,
            Movement::MobRightAngle(_) => 0x20u8,
            Movement::MobStopNodeStart(_) => 0x21u8,
            Movement::MobBeforeNode(_) => 0x22u8,
            Movement::MobAttackRush(_) => 0x23u8,
            Movement::MobAttackRushStop(_) => 0x24u8,
        }
    }

    /// The tag of the variant on the wire.
    pub fn tag(&self) -> (r: u8)
        ensures
            r == self.tag_of(),
    {
        match self {
            Movement::Normal(_) => 0,
            Movement::Jump(_) => 1,
            Movement::Impact(_) => 2,
            Movement::Immediate(_) => 0x3,
            Movement::Teleport(_) => 0x4,
            Movement::HangOnBack(_) => 5,
            Movement::Assaulter(_) => 0x6,
            Movement::Assassinate(_) => 0x7,
            Movement::Rush(_) => 0x8,
            Movement::StatChange(_) => 0x9,
            Movement::SitDown(_) => 0xA,
            Movement::StartFallDown(_) => 0xB,
            Movement::FallDown(_) => 0xC,
            Movement::StartWings(_) => 0xD,
            Movement::Wings(_) => 0xE,
            Movement::MobToss(_) => 0x10,
            Movement::FlyingBlock(_) => 0x11,
            Movement::DashSlide(_) => 0x12,
            Movement::FlashJump(_) => 0x14,
            Movement::RocketBooster(_) => 0x15,
            Movement::BackstepShot(_) => 0x16,
            Movement::MobPowerKnockback(_) => 0x17,
            Movement::VerticalJump(_) => 0x18,
            Movement::CustomImpact(_) => 0x19,
            Movement::CombatStep(_) => 0x1A,
            Movement::Hit(_) => 0x1B,
            Movement::TimeBombAttack(_) => 0x1C,
            Movement::SnowballTouch(_) => 0x1D,
            Movement::BuffZoneEffect(_) => 0x1E,
            Movement::MobLadder(_) => 0x1F,
            Movement::MobRightAngle(_) => 0x20,
            Movement::MobStopNodeStart(_) => 0x21,
            Movement::MobBeforeNode(_) => 0x22,
            Movement::MobAttackRush(_) => 0x23,
            Movement::MobAttackRushStop(_) => 0x24,
        }
    }

    /// Where the step ends and on which foothold, for the steps that tell.
    pub open spec fn pos_fh_of(self) -> Option<(Vec2, Option<FootholdId>)> {
        match self {
            Movement::Normal(mv) => mv.pos_fh_of(),
            Movement::Jump(mv) => mv.pos_fh_of(),
            Movement::Impact(mv) => mv.pos_fh_of(),
            Movement::Immediate(mv) => mv.pos_fh_of(),
            Movement::Teleport(mv) => mv.pos_fh_of(),
            Movement::HangOnBack(mv) => mv.pos_fh_of(),
            Movement::Assaulter(mv) => mv.pos_fh_of(),
            Movement::Assassinate(mv) => mv.pos_fh_of(),
            Movement::Rush(mv) => mv.pos_fh_of(),
            Movement::StatChange(_) => None,
            Movement::SitDown(mv) => mv.pos_fh_of(),
            Movement::StartFallDown(mv) => mv.pos_fh_of(),
            Movement::FallDown(mv) => mv.pos_fh_of(),
            Movement::StartWings(mv) => mv.pos_fh_of(),
            Movement::Wings(mv) => mv.pos_fh_of(),
            Movement::MobToss(mv) => mv.pos_fh_of(),
            Movement::FlyingBlock(mv) => mv.pos_fh_of(),
            Movement::DashSlide(mv) => mv.pos_fh_of(),
            Movement::FlashJump(mv) => mv.pos_fh_of(),
            Movement::RocketBooster(mv) => mv.pos_fh_of(),
            Movement::BackstepShot(mv) => mv.pos_fh_of(),
            Movement::MobPowerKnockback(mv) => mv.pos_fh_of(),
            Movement::VerticalJump(mv) => mv.pos_fh_of(),
            Movement::CustomImpact(mv) => mv.pos_fh_of(),
            Movement::CombatStep(mv) => mv.pos_fh_of(),
            Movement::Hit(mv) => mv.pos_fh_of(),
            Movement::TimeBombAttack(mv) => mv.pos_fh_of(),
            Movement::SnowballTouch(mv) => mv.pos_fh_of(),
            Movement::BuffZoneEffect(mv) => mv.pos_fh_of(),
            Movement::MobLadder(mv) => mv.pos_fh_of(),
            Movement::MobRightAngle(mv) => mv.pos_fh_of(),
            Movement::MobStopNodeStart(mv) => mv.pos_fh_of(),
            Movement::MobBeforeNode(mv) => mv.pos_fh_of(),
            Movement::MobAttackRush(mv) => mv.pos_fh_of(),
            Movement::MobAttackRushStop(mv) => mv.pos_fh_of(),
        }
    }

    /// Where the step ends and on which foothold, for the steps that tell.
    pub fn get_pos_fh(&self) -> (r: Option<(Vec2, Option<FootholdId>)>)
        ensures
            r == self.pos_fh_of(),
    {
        match self {
            Movement::Normal(mv) => mv.get_pos_fh(),
            Movement::Jump(mv) => mv.get_pos_fh(),
            Movement::Impact(mv) => mv.get_pos_fh(),
            Movement::Immediate(mv) => mv.get_pos_fh(),
            Movement::Teleport(mv) => mv.get_pos_fh(),
            Movement::HangOnBack(mv) => mv.get_pos_fh(),
            Movement::Assaulter(mv) => mv.get_pos_fh(),
            Movement::Assassinate(mv) => mv.get_pos_fh(),
            Movement::Rush(mv) => mv.get_pos_fh(),
            Movement::StatChange(_mv) => None,
            Movement::SitDown(mv) => mv.get_pos_fh(),
            Movement::StartFallDown(mv) => mv.get_pos_fh(),
            Movement::FallDown(mv) => mv.get_pos_fh(),
            Movement::StartWings(mv) => mv.get_pos_fh(),
            Movement::Wings(mv) => mv.get_pos_fh(),
            Movement::MobToss(mv) => mv.get_pos_fh(),
            Movement::FlyingBlock(mv) => mv.get_pos_fh(),
            Movement::DashSlide(mv) => mv.get_pos_fh(),
            Movement::FlashJump(mv) => mv.get_pos_fh(),
            Movement::RocketBooster(mv) => mv.get_pos_fh(),
            Movement::BackstepShot(mv) => mv.get_pos_fh(),
            Movement::MobPowerKnockback(mv) => mv.get_pos_fh(),
            Movement::VerticalJump(mv) => mv.get_pos_fh(),
            Movement::CustomImpact(mv) => mv.get_pos_fh(),
            Movement::CombatStep(mv) => mv.get_pos_fh(),
            Movement::Hit(mv) => mv.get_pos_fh(),
            Movement::TimeBombAttack(mv) => mv.get_pos_fh(),
            Movement::SnowballTouch(mv) => mv.get_pos_fh(),
            Movement::BuffZoneEffect(mv) => mv.get_pos_fh(),
            Movement::MobLadder(mv) => mv.get_pos_fh(),
            Movement::MobRightAngle(mv) => mv.get_pos_fh(),
            Movement::MobStopNodeStart(mv) => mv.get_pos_fh(),
            Movement::MobBeforeNode(mv) => mv.get_pos_fh(),
            Movement::MobAttackRush(mv) => mv.get_pos_fh(),
            Movement::MobAttackRushStop(mv) => mv.get_pos_fh(),
        }
    }

    /// The footer of the step; a stat change has none.
    pub open spec fn footer_of(self) -> Option<MovementFooter> {
        match self {
            Movement::Normal(mv) => Some(mv.footer),
            Movement::Jump(mv) => Some(mv.footer),
            Movement::Impact(mv) => Some(mv.footer),
            Movement::Immediate(mv) => Some(mv.footer),
            Movement::Teleport(mv) => Some(mv.footer),
            Movement::HangOnBack(mv) => Some(mv.footer),
            Movement::Assaulter(mv) => Some(mv.footer),
            Movement::Assassinate(mv) => Some(mv.footer),
            Movement::Rush(mv) => Some(mv.footer),
            Movement::StatChange(_) => None,
            Movement::SitDown(mv) => Some(mv.footer),
            Movement::StartFallDown(mv) => Some(mv.footer),
            Movement::FallDown(mv) => Some(mv.footer),
            Movement::StartWings(mv) => Some(mv.footer),
            Movement::Wings(mv) => Some(mv.footer),
            Movement::MobToss(mv) => Some(mv.footer),
            Movement::FlyingBlock(mv) => Some(mv.footer),
            Movement::DashSlide(mv) => Some(mv.footer),
            Movement::FlashJump(mv) => Some(mv.footer),
            Movement::RocketBooster(mv) => Some(mv.footer),
            Movement::BackstepShot(mv) => Some(mv.footer),
            Movement::MobPowerKnockback(mv) => Some(mv.footer),
            Movement::VerticalJump(mv) => Some(mv.footer),
            Movement::CustomImpact(mv) => Some(mv.footer),
            Movement::CombatStep(mv) => Some(mv.footer),
            Movement::Hit(mv) => Some(mv.footer),
            Movement::TimeBombAttack(mv) => Some(mv.footer),
            Movement::SnowballTouch(mv) => Some(mv.footer),
            Movement::BuffZoneEffect(mv) => Some(mv.footer),
            Movement::MobLadder(mv) => Some(mv.footer),
            Movement::MobRightAngle(mv) => Some(mv.footer),
            Movement::MobStopNodeStart(mv) => Some(mv.footer),
            Movement::MobBeforeNode(mv) => Some(mv.footer),
            Movement::MobAttackRush(mv) => Some(mv.footer),
            Movement::MobAttackRushStop(mv) => Some(mv.footer),
        }
    }

    /// The footer of the step; a stat change has none.
    pub fn get_footer(&self) -> (r: Option<&MovementFooter>)
        ensures
            r == (match self.footer_of() {
                Some(f) => Some(&f),
                None => None,
            }),
    {
        match self {
            Movement::Normal(mv) => Some(mv.get_footer()),
            Movement::Jump(mv) => Some(mv.get_footer()),
            Movement::Impact(mv) => Some(mv.get_footer()),
            Movement::Immediate(mv) => Some(mv.get_footer()),
            Movement::Teleport(mv) => Some(mv.get_footer()),
            Movement::HangOnBack(mv) => Some(mv.get_footer()),
            Movement::Assaulter(mv) => Some(mv.get_footer()),
            Movement::Assassinate(mv) => Some(mv.get_footer()),
            Movement::Rush(mv) => Some(mv.get_footer()),
            Movement::StatChange(_) => None,
            Movement::SitDown(mv) => Some(mv.get_footer()),
            Movement::StartFallDown(mv) => Some(mv.get_footer()),
            Movement::FallDown(mv) => Some(mv.get_footer()),
            Movement::StartWings(mv) => Some(mv.get_footer()),
            Movement::Wings(mv) => Some(mv.get_footer()),
            Movement::MobToss(mv) => Some(mv.get_footer()),
            Movement::FlyingBlock(mv) => Some(mv.get_footer()),
            Movement::DashSlide(mv) => Some(mv.get_footer()),
            Movement::FlashJump(mv) => Some(mv.get_footer()),
            Movement::RocketBooster(mv) => Some(mv.get_footer()),
            Movement::BackstepShot(mv) => Some(mv.get_footer()),
            Movement::MobPowerKnockback(mv) => Some(mv.get_footer()),
            Movement::VerticalJump(mv) => Some(mv.get_footer()),
            Movement::CustomImpact(mv) => Some(mv.get_footer()),
            Movement::CombatStep(mv) => Some(mv.get_footer()),
            Movement::Hit(mv) => Some(mv.get_footer()),
            Movement::TimeBombAttack(mv) => Some(mv.get_footer()),
            Movement::SnowballTouch(mv) => Some(mv.get_footer()),
            Movement::BuffZoneEffect(mv) => Some(mv.get_footer()),
            Movement::MobLadder(mv) => Some(mv.get_footer()),
            Movement::MobRightAngle(mv) => Some(mv.get_footer()),
            Movement::MobStopNodeStart(mv) => Some(mv.get_footer()),
            Movement::MobBeforeNode(mv) => Some(mv.get_footer()),
            Movement::MobAttackRush(mv) => Some(mv.get_footer()),
            Movement::MobAttackRushStop(mv) => Some(mv.get_footer()),
        }
    }
}

/// The last position and foothold a sequence of steps tells, searched from its end.
pub open spec fn last_pos_fh(moves: Seq<Movement>) -> Option<(Vec2, Option<FootholdId>)>
    decreases moves.len(),
{
    if moves.len() == 0 {
        None
    } else {
        match moves.last().pos_fh_of() {
            Some(p) => Some(p),
            None => last_pos_fh(moves.drop_last()),
        }
    }
}

/// A movement path: where it starts, with which velocity, and its steps.
#[derive(Debug, Clone)]
pub struct MovePath {
    pub pos: Vec2,
    pub velocity: Vec2,
    pub moves: Vec<Movement>,
}

impl MovePath {
    /// The position and foothold of the last step that tells one.
    pub fn get_last_pos_fh(&self) -> (r: Option<(Vec2, Option<FootholdId>)>)
        ensures
            r == last_pos_fh(self.moves@),
    {
        let mut i = self.moves.len();
        assert(self.moves@.take(i as int) =~= self.moves@);
        while i > 0
            invariant
                i <= self.moves@.len(),
                last_pos_fh(self.moves@) == last_pos_fh(self.moves@.take(i as int)),
            decreases i,
        {
            let ghost prefix = self.moves@.take(i as int);
            assert(prefix.drop_last() =~= self.moves@.take(i - 1));
            if let Some(p) = self.moves[i - 1].get_pos_fh() {
                return Some(p);
            }
            i = i - 1;
        }
        assert(self.moves@.take(0) =~= Seq::<Movement>::empty());
        None
    }
}

/// The key states and bounds a passive movement carries.
pub struct MovePassiveInfo {
    pub key_pad_state: ArrowKeyStates,
    pub bounds: Rect,
}

/// A movement path with its passive information.
pub struct MovePassivePath {
    pub path: MovePath,
    pub passive_info: MovePassiveInfo,
}

} // verus!

use vstd::prelude::*;
use vstd::string::*;

use crate::ids::{FieldId, MobId};
use crate::mob::TagPoint;

verus! {

/// An option of the client, by key.
#[derive(Debug, Clone, Copy, PartialEq, Eq, Structural)]
pub struct ClientOption {
    pub key: u32,
    pub value: u32,
}

/// The seeds of the client's checksums.
#[derive(Debug, Clone, Copy, PartialEq, Eq, Structural)]
pub struct CrcSeed {
    pub s1: u32,
    pub s2: u32,
    pub s3: u32,
}

impl Default for CrcSeed {
    fn default() -> (r: CrcSeed)
        ensures
            r == (CrcSeed { s1: 0, s2: 0, s3: 0 }),
    {
        CrcSeed { s1: 0, s2: 0, s3: 0 }
    }
}

/// The gift offered when a player logs out.
#[derive(Debug, Clone, Copy, PartialEq, Eq)]
pub struct LogoutGiftConfig {
    pub predict_quit: u32,
    pub gift_commodity_id: [u32; 3],
}

/// The length prefix of the notification list: a list that is not empty
/// holds one entry more than the prefix says, the chat ban reason.
#[derive(Debug, Clone, Copy, PartialEq, Eq, Structural)]
pub struct PlusOneListIndex(pub u16);

/// The number of entries a prefix stands for: none for zero, else one more
/// than the prefix.
pub open spec fn len_of_prefix(p: u16) -> int {
    if p == 0 {
        0
    } else {
        p + 1
    }
}

/// The prefix written for a number of entries: zero for none, else one less
/// than the number, cut to 16 bits.
pub open spec fn prefix_for_len(n: usize) -> u16 {
    if n == 0 {
        0
    } else {
        (n - 1) as u16
    }
}

impl PlusOneListIndex {
    /// The number of entries that follow the prefix.
    pub fn to_len(&self) -> (r: usize)
        requires
            self.0 < u16::MAX,
        ensures
            r == len_of_prefix(self.0),
    {
        match self.0 {
            0 => 0,
            n => (n + 1) as usize,
        }
    }

    /// The prefix written for a number of entries.
    pub fn from_len(ix: usize) -> (r: PlusOneListIndex)
        ensures
            r.0 == prefix_for_len(ix),
    {
        if ix == 0 {
            PlusOneListIndex(0)
        } else {
            PlusOneListIndex((ix - 1) as u16)
        }
    }
}

/// Writing the prefix for a number of entries and reading it back gives the
/// number again, for every number but one (a list of one entry cannot be
/// written) that fits the prefix.
pub proof fn lemma_from_len_to_len(n: usize)
    requires
        n != 1,
        n <= u16::MAX,
    ensures
        prefix_for_len(n) < u16::MAX,
        len_of_prefix(prefix_for_len(n)) == n,
{
}

/// Reading a prefix and writing the prefix for that number of entries gives
/// the prefix again.
pub proof fn lemma_to_len_from_len(p: u16)
    requires
        p < u16::MAX,
    ensures
        len_of_prefix(p) <= usize::MAX,
        prefix_for_len(len_of_prefix(p) as usize) == p,
{
}

/// The notifications shown when a player enters a field: the chat ban
/// reason first, then the others.
#[derive(Debug, Clone)]
pub struct NotificationList(pub Vec<String>);

impl Default for NotificationList {
    fn default() -> (r: NotificationList)
        ensures
            r.0@.len() == 0,
    {
        NotificationList(Vec::new())
    }
}

impl NotificationList {
    /// The list of a chat ban: the reason, then the other notifications.
    pub fn chat_banned(ban_reason: &str, extra: &[&str]) -> (r: NotificationList)
        ensures
            r.0@.len() == extra@.len() + 1,
            r.0@[0]@ == ban_reason@,
            forall|i: int| 0 <= i < extra@.len() ==> #[trigger] r.0@[i + 1]@ == extra@[i]@,
    {
        let mut list: Vec<String> = Vec::new();
        list.push(String::from_str(ban_reason));
        let mut i: usize = 0;
        while i < extra.len()
            invariant
                i <= extra@.len(),
                list@.len() == i + 1,
                list@[0]@ == ban_reason@,
                forall|j: int| 0 <= j < i ==> #[trigger] list@[j + 1]@ == extra@[j]@,
            decreases extra@.len() - i,
        {
            list.push(String::from_str(extra[i]));
            i = i + 1;
        }
        NotificationList(list)
    }

    /// The chat ban reason, the first entry, if any.
    pub fn ban_reason(&self) -> (r: Option<&str>)
        ensures
            self.0@.len() == 0 ==> r is None,
            self.0@.len() > 0 ==> (r matches Some(s) && s@ == self.0@[0]@),
    {
        if self.0.len() == 0 {
            None
        } else {
            Some(self.0[0].as_str())
        }
    }

    /// The notifications after the chat ban reason.
    pub fn extra(&self) -> (r: Vec<&str>)
        ensures
            self.0@.len() == 0 ==> r@.len() == 0,
            self.0@.len() > 0 ==> r@.len() == self.0@.len() - 1,
            forall|i: int| 0 <= i < r@.len() ==> #[trigger] r@[i]@ == self.0@[i + 1]@,
    {
        let mut out: Vec<&str> = Vec::new();
        let mut i: usize = 1;
        while i < self.0.len()
            invariant
                1 <= i,
                self.0@.len() > 0 ==> i <= self.0@.len(),
                self.0@.len() == 0 ==> out@.len() == 0,
                self.0@.len() > 0 ==> out@.len() == i - 1,
                forall|j: int| 0 <= j < out@.len() ==> #[trigger] out@[j]@ == self.0@[j + 1]@,
            decreases self.0@.len() - i,
        {
            out.push(self.0[i].as_str());
            i = i + 1;
        }
        out
    }
}

/// What a player keeps when changing fields.
#[derive(Debug, Clone, Copy, PartialEq, Eq, Structural)]
pub struct FieldTransferData {
    pub revive: bool,
    pub map: FieldId,
    pub portal: u8,
    pub hp: u32,
    pub chase_target_pos: Option<TagPoint>,
}

impl FieldTransferData {
    /// Whether the camera chases a target.
    pub fn is_chase_enabled(&self) -> (r: bool)
        ensures
            r == self.chase_target_pos is Some,
    {
        self.chase_target_pos.is_some()
    }
}

/// Whether a flag is set.
pub fn is_true(b: &bool) -> (r: bool)
    ensures
        r == *b,
{
    *b
}

/// A summon effect at a point.
#[derive(Debug, Clone, Copy, PartialEq, Eq, Structural)]
pub struct SummonEffectData {
    pub uol: bool,
    pub pos: TagPoint,
}

/// A tremble of the screen, heavy or short, after a delay in milliseconds.
#[derive(Debug, Clone, Copy, PartialEq, Eq, Structural)]
pub struct TrembleEffectData {
    pub heavy_n_short: bool,
    pub delay_ms: u32,
}

/// The hp bar of a boss mob.
#[derive(Debug, Clone, Copy, PartialEq, Eq, Structural)]
pub struct MobHpTagEffect {
    pub mob_tmpl_id: MobId,
    pub hp: u32,
    pub max_hp: u32,
    pub color: u8,
    pub bg_color: u8,
}

/// The reward of a bullet effect.
#[derive(Debug, Clone, Copy, PartialEq, Eq, Structural)]
pub struct FieldEffectData {
    pub reward_job_id: u32,
    pub reward_party_id: u32,
    pub reward_lev_id: u32,
}

/// An effect shown on a field.
#[derive(Debug, Clone)]
pub enum FieldEffectResp {
    Summon(SummonEffectData),
    Tremble(TrembleEffectData),
    Object(String),
    Screen(String),
    Sound(String),
    MobHpTag(MobHpTagEffect),
    ChangeBgm(String),
    RewardBullet(FieldEffectData),
}

impl FieldEffectResp {
    /// The tag of the variant on the wire.
    pub fn tag(&self) -> (r: u8)
        ensures
            r == (match *self {
                FieldEffectResp::Summon(_) => 0u8,
                FieldEffectResp::Tremble(_) => 1u8,
                FieldEffectResp::Object(_) => 2u8,
                FieldEffectResp::Screen(_) => 3u8,
                FieldEffectResp::Sound(_) => 4u8,
                FieldEffectResp::MobHpTag(_) => 5u8,
                FieldEffectResp::ChangeBgm(_) => 6u8,
                FieldEffectResp::RewardBullet(_) => 7u8,
            }),
    {
        match self {
            FieldEffectResp::Summon(_) => 0,
            FieldEffectResp::Tremble(_) => 1,
            FieldEffectResp::Object(_) => 2,
            FieldEffectResp::Screen(_) => 3,
            FieldEffectResp::Sound(_) => 4,
            FieldEffectResp::MobHpTag(_) => 5,
            FieldEffectResp::ChangeBgm(_) => 6,
            FieldEffectResp::RewardBullet(_) => 7,
        }
    }
}

/// An event of the cake and pie contest.
#[derive(Debug, Clone, Copy, PartialEq, Eq, Structural)]
pub enum CakeEventEffect {
    CakeWin,
    PieWin,
    Start,
    TimeOver,
}

impl CakeEventEffect {
    /// The path of the screen effect of the event.
    pub open spec fn screen_path(self) -> Seq<char> {
        match self {
            CakeEventEffect::CakeWin => "event/5th/cakewin"@,
            CakeEventEffect::PieWin => "event/5th/piewin"@,
            CakeEventEffect::Start => "event/5th/start"@,
            CakeEventEffect::TimeOver => "event/5th/timeover"@,
        }
    }

    /// The screen effect of the event.
    pub fn into_effect(self) -> (r: FieldEffectResp)
        ensures
            r matches FieldEffectResp::Screen(s) && s@ == self.screen_path(),
    {
        FieldEffectResp::Screen(
            match self {
                CakeEventEffect::CakeWin => String::from_str("event/5th/cakewin"),
                CakeEventEffect::PieWin => String::from_str("event/5th/piewin"),
                CakeEventEffect::Start => String::from_str("event/5th/start"),
                CakeEventEffect::TimeOver => String::from_str("event/5th/timeover"),
            },
        )
    }
}

/// An event of the dojo.
#[derive(Debug, Clone, Copy, PartialEq, Eq, Structural)]
pub enum DojangEffect {
    Clear,
    TimeOver,
}

impl DojangEffect {
    /// The path of the screen effect of the event.
    pub open spec fn screen_path(self) -> Seq<char> {
        match self {
            DojangEffect::Clear => "dojang/end/clear"@,
            DojangEffect::TimeOver => "dojang/timeOver"@,
        }
    }

    /// The screen effect of the event.
    pub fn into_effect(self) -> (r: FieldEffectResp)
        ensures
            r matches FieldEffectResp::Screen(s) && s@ == self.screen_path(),
    {
        FieldEffectResp::Screen(
            match self {
                DojangEffect::Clear => String::from_str("dojang/end/clear"),
                DojangEffect::TimeOver => String::from_str("dojang/timeOver"),
            },
        )
    }
}

} // verus!

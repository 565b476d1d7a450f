use vstd::prelude::*;
use crate::error::PacketError;
use crate::ids::{NpcId, QuestId, Vec2};

verus! {

/// A marker byte that has to be `C`.
#[derive(Debug, Clone, Copy)]
pub struct ConstantU8<const C: u8>;

impl<const C: u8> ConstantU8<C> {
    /// The byte written for the marker.
    pub fn value(&self) -> (r: u8)
        ensures
            r == C,
    {
        C
    }

    /// Reads the marker from a byte: only `C` is accepted.
    pub fn check(v: u8) -> (r: Result<ConstantU8<C>, PacketError>)
        ensures
            v == C ==> r is Ok,
            v != C ==> r == Err::<ConstantU8<C>, PacketError>(
                PacketError::InvalidEnumDiscriminant(v as usize),
            ),
    {
        if v != C {
            return Err(PacketError::InvalidEnumDiscriminant(v as usize));
        }
        Ok(ConstantU8)
    }
}

/// A quest item that was lost.
#[derive(Debug, Clone, Copy, PartialEq, Eq, Structural)]
pub struct LostItem {
    pub id: QuestId,
    pub npc_tmpl_id: NpcId,
    pub delivery_item_pos: u32,
}

/// A request to accept a quest.
#[derive(Debug, Clone, Copy, PartialEq, Eq, Structural)]
pub struct AcceptQuest {
    pub id: QuestId,
    pub npc_tmpl_id: NpcId,
    pub delivery_item_pos: u32,
}

/// A request to complete a quest.
#[derive(Debug, Clone, Copy, PartialEq, Eq, Structural)]
pub struct CompleteQuest {
    pub id: QuestId,
    pub npc_tmpl_id: NpcId,
    pub delivery_item_pos: u32,
    pub quest_reward_list: u32,
}

/// A request to run a quest script.
#[derive(Debug, Clone, Copy, PartialEq, Eq, Structural)]
pub struct QuestScript {
    pub id: QuestId,
    pub npc_tmpl_id: NpcId,
    pub pos: Vec2,
}

/// A request of a player about a quest.
#[derive(Debug, Clone, Copy, PartialEq, Eq, Structural)]
pub enum UserQuestReq {
    LostItem(QuestId),
    AcceptQuest(AcceptQuest),
    CompleteQuest(CompleteQuest),
    ResignQuest(QuestId),
    OpenScript(QuestScript),
    CompleteScript(QuestScript),
}

impl UserQuestReq {
    /// The tag of the variant on the wire.
    pub fn tag(&self) -> (r: u8)
        ensures
            r == (match *self {
                UserQuestReq::LostItem(_) => 0u8,
                UserQuestReq::AcceptQuest(_) => 1u8,
                UserQuestReq::CompleteQuest(_) => 2u8,
                UserQuestReq::ResignQuest(_) => 3u8,
                UserQuestReq::OpenScript(_) => 4u8,
                UserQuestReq::CompleteScript(_) => 5u8,
            }),
    {
        match self {
            UserQuestReq::LostItem(_) => 0,
            UserQuestReq::AcceptQuest(_) => 1,
            UserQuestReq::CompleteQuest(_) => 2,
            UserQuestReq::ResignQuest(_) => 3,
            UserQuestReq::OpenScript(_) => 4,
            UserQuestReq::CompleteScript(_) => 5,
        }
    }
}

/// A quest that succeeded, with the next quest (0 for none).
#[derive(Debug, Clone, Copy, PartialEq, Eq, Structural)]
pub struct UserQuestSuccessResult {
    pub id: QuestId,
    pub npc_tmpl_id: NpcId,
    pub next_quest: QuestId,
}

/// The result of a quest request.
#[derive(Debug, Clone, Copy, PartialEq, Eq, Structural)]
pub enum UserQuestResultResp {
    StartTimer,
    EndTimer,
    ResetTimer(QuestId),
    StartTimeKeepTimer,
    EndTimeKeepTimer,
    Success(UserQuestSuccessResult),
    FailedUnknown,
    FailedInventory(QuestId),
    FailedMoney,
    FailedPet,
    FailedEquipped,
    FailedOnlyItem,
    FailedTimeOver(QuestId),
}

impl UserQuestResultResp {
    /// The tag of the variant on the wire.
    pub fn tag(&self) -> (r: u8)
        ensures
            r == (match *self {
                UserQuestResultResp::StartTimer => 6u8,
                UserQuestResultResp::EndTimer => 7u8,
                UserQuestResultResp::ResetTimer(_) => 18u8,
                UserQuestResultResp::StartTimeKeepTimer => 8u8,
                UserQuestResultResp::EndTimeKeepTimer => 9u8,
                UserQuestResultResp::Success(_) => 10u8,
                UserQuestResultResp::FailedUnknown => 11u8,
                UserQuestResultResp::FailedInventory(_) => 12u8,
                UserQuestResultResp::FailedMoney => 13u8,
                UserQuestResultResp::FailedPet => 14u8,
                UserQuestResultResp::FailedEquipped => 15u8,
                UserQuestResultResp::FailedOnlyItem => 16u8,
                UserQuestResultResp::FailedTimeOver(_) => 17u8,
            }),
    {
        match self {
            UserQuestResultResp::StartTimer => 6,
            UserQuestResultResp::EndTimer => 7,
            UserQuestResultResp::ResetTimer(_) => 18,
            UserQuestResultResp::StartTimeKeepTimer => 8,
            UserQuestResultResp::EndTimeKeepTimer => 9,
            UserQuestResultResp::Success(_) => 10,
            UserQuestResultResp::FailedUnknown => 11,
            UserQuestResultResp::FailedInventory(_) => 12,
            UserQuestResultResp::FailedMoney => 13,
            UserQuestResultResp::FailedPet => 14,
            UserQuestResultResp::FailedEquipped => 15,
            UserQuestResultResp::FailedOnlyItem => 16,
            UserQuestResultResp::FailedTimeOver(_) => 17,
        }
    }
}

/// The record value of a quest.
#[derive(Debug, Clone)]
pub struct QuestRecordValue(pub String);

} // verus!

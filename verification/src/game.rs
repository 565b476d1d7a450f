use vstd::prelude::*;
use crate::ids::{CharacterId, NpcId, Vec2};
use crate::login::{ClientKey, MachineId};
use crate::shared::{Gender, ServerSocketAddr};

verus! {

/// A request to update the GM board.
#[derive(Debug, Clone, Copy, PartialEq, Eq, Structural)]
pub struct UpdateGMBoardReq {
    pub board_id: u32,
}

/// A request for the state of the field's obstacles.
#[derive(Debug, Clone, Copy, PartialEq, Eq, Structural)]
pub struct ResetNLCPQ;

/// The gender of the character in context.
#[derive(Debug, Clone, Copy, PartialEq, Eq, Structural)]
pub struct CtxSetGenderResp {
    pub gender: Gender,
}

/// Whether the claim server is connected.
#[derive(Debug, Clone, Copy, PartialEq, Eq, Structural)]
pub struct ClaimSvrStatusChangedResp {
    pub connected: bool,
}

/// A message of the server, maybe flagged.
#[derive(Debug, Clone)]
pub struct ServerMessage {
    pub flag: bool,
    pub msg: String,
}

/// A notice.
#[derive(Debug, Clone)]
pub struct NoticeMessage {
    pub msg: String,
    pub unknown: i32,
}

/// A dialog of an npc.
#[derive(Debug, Clone)]
pub struct UtilDlgExMessage {
    pub msg: String,
    pub npc: NpcId,
}

/// A message broadcast to players.
#[derive(Debug, Clone)]
pub enum BroadcastMessageResp {
    Notice(String),
    Alert(String),
    Channel(String),
    World(String),
    ServerMessage(ServerMessage),
    PinkMessage(String),
    NoticeWithoutPrefix(NoticeMessage),
    UtilDlgEx(UtilDlgExMessage),
    ItemSpeaker,
    SpeakerBridge,
    ArtSpeakerWorld,
    BlowWeather,
    GachaponAnnounce,
    GachaponAnnounceOpen,
    GachaponAnnounceClose,
    UListClip,
    FreeMarketClip,
    DestroyShop,
    CashShopAd,
    HeartSpeaker,
    SkillSpeaker,
}

impl BroadcastMessageResp {
    /// The tag of the variant on the wire.
    pub fn tag(&self) -> (r: u8)
        ensures
            r == (match *self {
                BroadcastMessageResp::Notice(_) => 0u8,
                BroadcastMessageResp::Alert(_) => 1u8,
                BroadcastMessageResp::Channel(_) => 2u8,
                BroadcastMessageResp::World(_) => 3u8,
                BroadcastMessageResp::ServerMessage(_) => 4u8,
                BroadcastMessageResp::PinkMessage(_) => 5u8,
                BroadcastMessageResp::NoticeWithoutPrefix(_) => 6u8,
                BroadcastMessageResp::UtilDlgEx(_) => 7u8,
                BroadcastMessageResp::ItemSpeaker => 8u8,
                BroadcastMessageResp::SpeakerBridge => 9u8,
                BroadcastMessageResp::ArtSpeakerWorld => 10u8,
                BroadcastMessageResp::BlowWeather => 11u8,
                BroadcastMessageResp::GachaponAnnounce => 12u8,
                BroadcastMessageResp::GachaponAnnounceOpen => 13u8,
                BroadcastMessageResp::GachaponAnnounceClose => 14u8,
                BroadcastMessageResp::UListClip => 15u8,
                BroadcastMessageResp::FreeMarketClip => 16u8,
                BroadcastMessageResp::DestroyShop => 17u8,
                BroadcastMessageResp::CashShopAd => 18u8,
                BroadcastMessageResp::HeartSpeaker => 19u8,
                BroadcastMessageResp::SkillSpeaker => 20u8,
            }),
    {
        match self {
            BroadcastMessageResp::Notice(_) => 0,
            BroadcastMessageResp::Alert(_) => 1,
            BroadcastMessageResp::Channel(_) => 2,
            BroadcastMessageResp::World(_) => 3,
            BroadcastMessageResp::ServerMessage(_) => 4,
            BroadcastMessageResp::PinkMessage(_) => 5,
            BroadcastMessageResp::NoticeWithoutPrefix(_) => 6,
            BroadcastMessageResp::UtilDlgEx(_) => 7,
            BroadcastMessageResp::ItemSpeaker => 8,
            BroadcastMessageResp::SpeakerBridge => 9,
            BroadcastMessageResp::ArtSpeakerWorld => 10,
            BroadcastMessageResp::BlowWeather => 11,
            BroadcastMessageResp::GachaponAnnounce => 12,
            BroadcastMessageResp::GachaponAnnounceOpen => 13,
            BroadcastMessageResp::GachaponAnnounceClose => 14,
            BroadcastMessageResp::UListClip => 15,
            BroadcastMessageResp::FreeMarketClip => 16,
            BroadcastMessageResp::DestroyShop => 17,
            BroadcastMessageResp::CashShopAd => 18,
            BroadcastMessageResp::HeartSpeaker => 19,
            BroadcastMessageResp::SkillSpeaker => 20,
        }
    }
}

/// A character moving into the game server.
#[derive(Debug, Clone, Copy, PartialEq, Eq)]
pub struct MigrateInGameReq {
    pub char_id: CharacterId,
    pub machine_id: MachineId,
    pub is_gm: bool,
    pub unknown: bool,
    pub client_key: ClientKey,
}

/// A character moving into the game server, with a token.
#[derive(Debug, Clone, Copy, PartialEq, Eq)]
pub struct MigrateInGameTokenReq {
    pub char_id: CharacterId,
    pub machine_id: MachineId,
    pub is_gm: bool,
    pub unknown: bool,
    pub client_key: ClientKey,
    pub token: [u8; 32],
}

/// The server the client moves to.
#[derive(Debug, Clone, Copy, PartialEq, Eq)]
pub struct MigrateCommandResp {
    pub unknown: bool,
    pub addr: ServerSocketAddr,
}

/// A request to run the script of a portal.
#[derive(Debug, Clone)]
pub struct UserPortalScriptReq {
    pub field_key: u8,
    pub portal_name: String,
    pub pos: Vec2,
}

} // verus!

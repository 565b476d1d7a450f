use vstd::prelude::*;
use vstd::std_specs::convert::{FromSpecImpl, TryFromSpecImpl};

use crate::error::PacketError;

verus! {

/// The opcode that heads each packet the server sends.
#[derive(Debug, Clone, Copy, PartialEq, Eq, Structural)]
pub enum SendOpcodes {
    CheckPasswordResult,
    GuestIDLoginResult,
    AccountInfoResult,
    CheckUserLimitResult,
    SetAccountResult,
    ConfirmEULAResult,
    CheckPinCodeResult,
    UpdatePinCodeResult,
    ViewAllCharResult,
    SelectCharacterByVACResult,
    WorldInformation,
    SelectWorldResult,
    SelectCharacterResult,
    CheckDuplicatedIDResult,
    CreateNewCharacterResult,
    DeleteCharacterResult,
    MigrateCommand,
    AliveReq,
    AuthenCodeChanged,
    AuthenMessage,
    SecurityPacket,
    EnableSPWResult,
    DeleteCharacterOTPRequest,
    CheckCrcResult,
    LatestConnectedWorld,
    RecommendWorldMessage,
    CheckExtraCharInfoResult,
    CheckSPWResult,
    InventoryOperation,
    InventoryGrow,
    StatChanged,
    TemporaryStatSet,
    TemporaryStatReset,
    ForcedStatSet,
    ForcedStatReset,
    ChangeSkillRecordResult,
    SkillUseResult,
    GivePopularityResult,
    Message,
    SendOpenFullClientLink,
    MemoResult,
    MapTransferResult,
    AntiMacroResult,
    InitialQuizStart,
    ClaimResult,
    SetClaimSvrAvailableTime,
    ClaimSvrStatusChanged,
    SetTamingMobInfo,
    QuestClear,
    EntrustedShopCheckResult,
    SkillLearnItemResult,
    SkillResetItemResult,
    GatherItemResult,
    SortItemResult,
    RemoteShopOpenResult,
    SueCharacterResult,
    MigrateToCashShopResult,
    TradeMoneyLimit,
    SetGender,
    GuildBBS,
    PetDeadMessage,
    CharacterInfo,
    PartyResult,
    ExpeditionRequest,
    ExpeditionNoti,
    FriendResult,
    GuildRequest,
    GuildResult,
    AllianceResult,
    TownPortal,
    OpenGate,
    BroadcastMsg,
    IncubatorResult,
    ShopScannerResult,
    ShopLinkResult,
    MarriageRequest,
    MarriageResult,
    WeddingGiftResult,
    MarriedPartnerMapTransfer,
    CashPetFoodResult,
    SetWeekEventMessage,
    SetPotionDiscountRate,
    BridleMobCatchFail,
    ImitatedNPCResult,
    ImitatedNPCData,
    LimitedNPCDisableInfo,
    MonsterBookSetCard,
    MonsterBookSetCover,
    HourChanged,
    MiniMapOnOff,
    ConsultAuthkeyUpdate,
    ClassCompetitionAuthkeyUpdate,
    WebBoardAuthkeyUpdate,
    SessionValue,
    PartyValue,
    FieldSetVariable,
    BonusExpRateChanged,
    PotionDiscountRateChanged,
    FamilyChartResult,
    FamilyInfoResult,
    FamilyResult,
    FamilyJoinRequest,
    FamilyJoinRequestResult,
    FamilyJoinAccepted,
    FamilyPrivilegeList,
    FamilyFamousPointIncResult,
    FamilyNotifyLoginOrLogout,
    FamilySetPrivilege,
    FamilySummonRequest,
    NotifyLevelUp,
    NotifyWedding,
    NotifyJobChange,
    IncRateChanged,
    ShroomTVUseRes,
    AvatarMegaphoneRes,
    AvatarMegaphoneUpdateMessage,
    AvatarMegaphoneClearMessage,
    CancelNameChangeResult,
    CancelTransferWorldResult,
    DestroyShopResult,
    FAKEGMNOTICE,
    SuccessInUseGachaponBox,
    NewYearCardRes,
    RandomMorphRes,
    CancelNameChangeByOther,
    SetBuyEquipExt,
    SetPassenserRequest,
    ScriptProgressMessage,
    DataCRCCheckFailed,
    CakePieEventResult,
    UpdateGMBoard,
    ShowSlotMessage,
    WildHunterInfo,
    AccountMoreInfo,
    FindFirend,
    StageChange,
    DragonBallBox,
    AskUserWhetherUsePamsSong,
    TransferChannel,
    DisallowedDeliveryQuestList,
    MacroSysDataInit,
    SetField,
    SetITC,
    SetCashShop,
    SetBackgroundEffect,
    SetMapObjectVisible,
    ClearBackgroundEffect,
    TransferFieldReqIgnored,
    TransferChannelReqIgnored,
    FieldSpecificData,
    GroupMessage,
    Whisper,
    CoupleMessage,
    MobSummonItemUseResult,
    FieldEffect,
    FieldObstacleOnOff,
    FieldObstacleOnOffStatus,
    FieldObstacleAllReset,
    BlowWeather,
    PlayJukeBox,
    AdminResult,
    FieldQuiz,
    Desc,
    Clock,
    CONTIMOVE,
    CONTISTATE,
    SetQuestClear,
    SetQuestTime,
    Warn,
    SetObjectState,
    DestroyClock,
    ShowArenaResult,
    StalkResult,
    MassacreIncGauge,
    MassacreResult,
    QuickslotMappedInit,
    FootHoldInfo,
    RequestFootHoldInfo,
    FieldKillCount,
    UserEnterField,
    UserLeaveField,
    UserChat,
    UserChatNLCPQ,
    UserADBoard,
    UserMiniRoomBalloon,
    UserConsumeItemEffect,
    UserItemUpgradeEffect,
    UserItemHyperUpgradeEffect,
    UserItemOptionUpgradeEffect,
    UserItemReleaseEffect,
    UserItemUnreleaseEffect,
    UserHitByUser,
    UserTeslaTriangle,
    UserFollowCharacter,
    UserShowPQReward,
    UserSetPhase,
    SetPortalUsable,
    UserShowRecoverUpgradeCountEffect,
    PetActivated,
    PetEvol,
    PetTransferField,
    PetMove,
    PetAction,
    PetNameChanged,
    PetLoadExceptionList,
    PetActionCommand,
    DragonEnterField,
    DragonMove,
    DragonLeaveField,
    UserMove,
    UserMeleeAttack,
    UserShootAttack,
    UserMagicAttack,
    UserBodyAttack,
    UserSkillPrepare,
    UserMovingShootAttackPrepare,
    UserSkillCancel,
    UserHit,
    UserEmotion,
    UserSetActiveEffectItem,
    UserShowUpgradeTombEffect,
    UserSetActivePortableChair,
    UserAvatarModified,
    UserEffectRemote,
    UserTemporaryStatSet,
    UserTemporaryStatReset,
    UserHP,
    UserGuildNameChanged,
    UserGuildMarkChanged,
    UserThrowGrenade,
    UserSitResult,
    UserEmotionLocal,
    UserEffectLocal,
    UserTeleport,
    Premium,
    MesoGiveSucceeded,
    MesoGiveFailed,
    RandomMesobagSucceed,
    RandomMesobagFailed,
    FieldFadeInOut,
    FieldFadeOutForce,
    UserQuestResult,
    NotifyHPDecByField,
    UserPetSkillChanged,
    UserBalloonMsg,
    PlayEventSound,
    PlayMinigameSound,
    UserMakerResult,
    UserOpenConsultBoard,
    UserOpenClassCompetitionPage,
    UserOpenUI,
    UserOpenUIWithOption,
    SetDirectionMode,
    SetStandAloneMode,
    UserHireTutor,
    UserTutorMsg,
    IncCombo,
    UserRandomEmotion,
    ResignQuestReturn,
    PassMateName,
    SetRadioSchedule,
    UserOpenSkillGuide,
    UserNoticeMsg,
    UserChatMsg,
    UserBuffzoneEffect,
    UserGoToCommoditySN,
    UserDamageMeter,
    UserTimeBombAttack,
    UserPassiveMove,
    UserFollowCharacterFailed,
    UserRequestVengeance,
    UserRequestExJablin,
    UserAskAPSPEvent,
    QuestGuideResult,
    UserDeliveryQuest,
    SkillCooltimeSet,
    SummonedEnterField,
    SummonedLeaveField,
    SummonedMove,
    SummonedAttack,
    SummonedSkill,
    SummonedHit,
    MobEnterField,
    MobLeaveField,
    MobChangeController,
    MobMove,
    MobCtrlAck,
    MobCtrlHint,
    MobStatSet,
    MobStatReset,
    MobSuspendReset,
    MobAffected,
    MobDamaged,
    MobSpecialEffectBySkill,
    MobHPChange,
    MobCrcKeyChanged,
    MobHPIndicator,
    MobCatchEffect,
    MobEffectByItem,
    MobSpeaking,
    MobChargeCount,
    MobSkillDelay,
    MobRequestResultEscortInfo,
    MobEscortStopEndPermmision,
    MobEscortStopSay,
    MobEscortReturnBefore,
    MobNextAttack,
    MobAttackedByMob,
    NpcEnterField,
    NpcLeaveField,
    NpcChangeController,
    NpcMove,
    NpcUpdateLimitedInfo,
    NpcSpecialAction,
    NpcSetScript,
    EmployeeEnterField,
    EmployeeLeaveField,
    EmployeeMiniRoomBalloon,
    DropEnterField,
    DropReleaseAllFreeze,
    DropLeaveField,
    CreateMessgaeBoxFailed,
    MessageBoxEnterField,
    MessageBoxLeaveField,
    AffectedAreaCreated,
    AffectedAreaRemoved,
    TownPortalCreated,
    TownPortalRemoved,
    OpenGateCreated,
    OpenGateRemoved,
    ReactorChangeState,
    ReactorMove,
    ReactorEnterField,
    ReactorLeaveField,
    SnowBallState,
    SnowBallHit,
    SnowBallMsg,
    SnowBallTouch,
    CoconutHit,
    CoconutScore,
    HealerMove,
    PulleyStateChange,
    MCarnivalEnter,
    MCarnivalPersonalCP,
    MCarnivalTeamCP,
    MCarnivalResultSuccess,
    MCarnivalResultFail,
    MCarnivalDeath,
    MCarnivalMemberOut,
    MCarnivalGameResult,
    ArenaScore,
    BattlefieldEnter,
    BattlefieldScore,
    BattlefieldTeamChanged,
    WitchtowerScore,
    HontaleTimer,
    ChaosZakumTimer,
    HontailTimer,
    ZakumTimer,
    ScriptMessage,
    OpenShopDlg,
    ShopResult,
    AdminShopResult,
    AdminShopCommodity,
    TrunkResult,
    StoreBankGetAllResult,
    StoreBankResult,
    RPSGame,
    Messenger,
    MiniRoom,
    Tournament,
    TournamentMatchTable,
    TournamentSetPrize,
    TournamentNoticeUEW,
    TournamentAvatarInfo,
    WeddingProgress,
    WeddingCremonyEnd,
    Parcel,
    CashShopChargeParamResult,
    CashShopQueryCashResult,
    CashShopCashItemResult,
    CashShopPurchaseExpChanged,
    CashShopGiftMateInfoResult,
    CashShopCheckDuplicatedIDResult,
    CashShopCheckNameChangePossibleResult,
    CashShopRegisterNewCharacterResult,
    CashShopCheckTransferWorldPossibleResult,
    CashShopGachaponStampItemResult,
    CashShopCashItemGachaponResult,
    CashShopCashGachaponOpenResult,
    ChangeShroomPointResult,
    CashShopOneADay,
    CashShopNoticeFreeCashItem,
    CashShopMemberShopResult,
    FuncKeyMappedInit,
    PetConsumeItemInit,
    PetConsumeMPItemInit,
    CheckSSN2OnCreateNewCharacterResult,
    CheckSPWOnCreateNewCharacterResult,
    FirstSSNOnCreateNewCharacterResult,
    ShroomTVUpdateMessage,
    ShroomTVClearMessage,
    ShroomTVSendMessageResult,
    BroadSetFlashChangeEvent,
    ITCChargeParamResult,
    ITCQueryCashResult,
    ITCNormalItemResult,
    CheckDuplicatedIDResultInCS,
    CreateNewCharacterResultInCS,
    CreateNewCharacterFailInCS,
    CharacterSale,
    GoldHammereS,
    GoldHammerResult,
    GoldHammereE,
    BattleRecordS,
    BattleRecordDotDamageInfo,
    BattleRecordRequestResult,
    ItemUpgradeResult,
    ItemUpgradeFail,
    VegaResult,
    VegaFail,
    LogoutGift,
}

impl SendOpcodes {
    /// The wire code of a value.
    pub open spec fn code_of(self) -> u16 {
        match self {
            SendOpcodes::CheckPasswordResult => 0u16,
            SendOpcodes::GuestIDLoginResult => 1u16,
            SendOpcodes::AccountInfoResult => 2u16,
            SendOpcodes::CheckUserLimitResult => 3u16,
            SendOpcodes::SetAccountResult => 4u16,
            SendOpcodes::ConfirmEULAResult => 5u16,
            SendOpcodes::CheckPinCodeResult => 6u16,
            SendOpcodes::UpdatePinCodeResult => 7u16,
            SendOpcodes::ViewAllCharResult => 8u16,
            SendOpcodes::SelectCharacterByVACResult => 9u16,
            SendOpcodes::WorldInformation => 10u16,
            SendOpcodes::SelectWorldResult => 11u16,
            SendOpcodes::SelectCharacterResult => 12u16,
            SendOpcodes::CheckDuplicatedIDResult => 13u16,
            SendOpcodes::CreateNewCharacterResult => 14u16,
            SendOpcodes::DeleteCharacterResult => 15u16,
            SendOpcodes::MigrateCommand => 16u16,
            SendOpcodes::AliveReq => 17u16,
            SendOpcodes::AuthenCodeChanged => 18u16,
            SendOpcodes::AuthenMessage => 19u16,
            SendOpcodes::SecurityPacket => 20u16,
            SendOpcodes::EnableSPWResult => 21u16,
            SendOpcodes::DeleteCharacterOTPRequest => 22u16,
            SendOpcodes::CheckCrcResult => 23u16,
            SendOpcodes::LatestConnectedWorld => 24u16,
            SendOpcodes::RecommendWorldMessage => 25u16,
            SendOpcodes::CheckExtraCharInfoResult => 26u16,
            SendOpcodes::CheckSPWResult => 27u16,
            SendOpcodes::InventoryOperation => 28u16,
            SendOpcodes::InventoryGrow => 29u16,
            SendOpcodes::StatChanged => 30u16,
            SendOpcodes::TemporaryStatSet => 31u16,
            SendOpcodes::TemporaryStatReset => 32u16,
            SendOpcodes::ForcedStatSet => 33u16,
            SendOpcodes::ForcedStatReset => 34u16,
            SendOpcodes::ChangeSkillRecordResult => 35u16,
            SendOpcodes::SkillUseResult => 36u16,
            SendOpcodes::GivePopularityResult => 37u16,
            SendOpcodes::Message => 38u16,
            SendOpcodes::SendOpenFullClientLink => 39u16,
            SendOpcodes::MemoResult => 40u16,
            SendOpcodes::MapTransferResult => 41u16,
            SendOpcodes::AntiMacroResult => 42u16,
            SendOpcodes::InitialQuizStart => 43u16,
            SendOpcodes::ClaimResult => 44u16,
            SendOpcodes::SetClaimSvrAvailableTime => 45u16,
            SendOpcodes::ClaimSvrStatusChanged => 46u16,
            SendOpcodes::SetTamingMobInfo => 47u16,
            SendOpcodes::QuestClear => 48u16,
            SendOpcodes::EntrustedShopCheckResult => 49u16,
            SendOpcodes::SkillLearnItemResult => 50u16,
            SendOpcodes::SkillResetItemResult => 51u16,
            SendOpcodes::GatherItemResult => 52u16,
            SendOpcodes::SortItemResult => 53u16,
            SendOpcodes::RemoteShopOpenResult => 54u16,
            SendOpcodes::SueCharacterResult => 55u16,
            SendOpcodes::MigrateToCashShopResult => 56u16,
            SendOpcodes::TradeMoneyLimit => 57u16,
            SendOpcodes::SetGender => 58u16,
            SendOpcodes::GuildBBS => 59u16,
            SendOpcodes::PetDeadMessage => 60u16,
            SendOpcodes::CharacterInfo => 61u16,
            SendOpcodes::PartyResult => 62u16,
            SendOpcodes::ExpeditionRequest => 63u16,
            SendOpcodes::ExpeditionNoti => 64u16,
            SendOpcodes::FriendResult => 65u16,
            SendOpcodes::GuildRequest => 66u16,
            SendOpcodes::GuildResult => 67u16,
            SendOpcodes::AllianceResult => 68u16,
            SendOpcodes::TownPortal => 69u16,
            SendOpcodes::OpenGate => 70u16,
            SendOpcodes::BroadcastMsg => 71u16,
            SendOpcodes::IncubatorResult => 72u16,
            SendOpcodes::ShopScannerResult => 73u16,
            SendOpcodes::ShopLinkResult => 74u16,
            SendOpcodes::MarriageRequest => 75u16,
            SendOpcodes::MarriageResult => 76u16,
            SendOpcodes::WeddingGiftResult => 77u16,
            SendOpcodes::MarriedPartnerMapTransfer => 78u16,
            SendOpcodes::CashPetFoodResult => 79u16,
            SendOpcodes::SetWeekEventMessage => 80u16,
            SendOpcodes::SetPotionDiscountRate => 81u16,
            SendOpcodes::BridleMobCatchFail => 82u16,
            SendOpcodes::ImitatedNPCResult => 83u16,
            SendOpcodes::ImitatedNPCData => 84u16,
            SendOpcodes::LimitedNPCDisableInfo => 85u16,
            SendOpcodes::MonsterBookSetCard => 86u16,
            SendOpcodes::MonsterBookSetCover => 87u16,
            SendOpcodes::HourChanged => 88u16,
            SendOpcodes::MiniMapOnOff => 89u16,
            SendOpcodes::ConsultAuthkeyUpdate => 90u16,
            SendOpcodes::ClassCompetitionAuthkeyUpdate => 91u16,
            SendOpcodes::WebBoardAuthkeyUpdate => 92u16,
            SendOpcodes::SessionValue => 93u16,
            SendOpcodes::PartyValue => 94u16,
            SendOpcodes::FieldSetVariable => 95u16,
            SendOpcodes::BonusExpRateChanged => 96u16,
            SendOpcodes::PotionDiscountRateChanged => 97u16,
            SendOpcodes::FamilyChartResult => 98u16,
            SendOpcodes::FamilyInfoResult => 99u16,
            SendOpcodes::FamilyResult => 100u16,
            SendOpcodes::FamilyJoinRequest => 101u16,
            SendOpcodes::FamilyJoinRequestResult => 102u16,
            SendOpcodes::FamilyJoinAccepted => 103u16,
            SendOpcodes::FamilyPrivilegeList => 104u16,
            SendOpcodes::FamilyFamousPointIncResult => 105u16,
            SendOpcodes::FamilyNotifyLoginOrLogout => 106u16,
            SendOpcodes::FamilySetPrivilege => 107u16,
            SendOpcodes::FamilySummonRequest => 108u16,
            SendOpcodes::NotifyLevelUp => 109u16,
            SendOpcodes::NotifyWedding => 110u16,
            SendOpcodes::NotifyJobChange => 111u16,
            SendOpcodes::IncRateChanged => 112u16,
            SendOpcodes::ShroomTVUseRes => 113u16,
            SendOpcodes::AvatarMegaphoneRes => 114u16,
            SendOpcodes::AvatarMegaphoneUpdateMessage => 115u16,
            SendOpcodes::AvatarMegaphoneClearMessage => 116u16,
            SendOpcodes::CancelNameChangeResult => 117u16,
            SendOpcodes::CancelTransferWorldResult => 118u16,
            SendOpcodes::DestroyShopResult => 119u16,
            SendOpcodes::FAKEGMNOTICE => 120u16,
            SendOpcodes::SuccessInUseGachaponBox => 121u16,
            SendOpcodes::NewYearCardRes => 122u16,
            SendOpcodes::RandomMorphRes => 123u16,
            SendOpcodes::CancelNameChangeByOther => 124u16,
            SendOpcodes::SetBuyEquipExt => 125u16,
            SendOpcodes::SetPassenserRequest => 126u16,
            SendOpcodes::ScriptProgressMessage => 127u16,
            SendOpcodes::DataCRCCheckFailed => 128u16,
            SendOpcodes::CakePieEventResult => 129u16,
            SendOpcodes::UpdateGMBoard => 130u16,
            SendOpcodes::ShowSlotMessage => 131u16,
            SendOpcodes::WildHunterInfo => 132u16,
            SendOpcodes::AccountMoreInfo => 133u16,
            SendOpcodes::FindFirend => 134u16,
            SendOpcodes::StageChange => 135u16,
            SendOpcodes::DragonBallBox => 136u16,
            SendOpcodes::AskUserWhetherUsePamsSong => 137u16,
            SendOpcodes::TransferChannel => 138u16,
            SendOpcodes::DisallowedDeliveryQuestList => 139u16,
            SendOpcodes::MacroSysDataInit => 140u16,
            SendOpcodes::SetField => 141u16,
            SendOpcodes::SetITC => 142u16,
            SendOpcodes::SetCashShop => 143u16,
            SendOpcodes::SetBackgroundEffect => 144u16,
            SendOpcodes::SetMapObjectVisible => 145u16,
            SendOpcodes::ClearBackgroundEffect => 146u16,
            SendOpcodes::TransferFieldReqIgnored => 147u16,
            SendOpcodes::TransferChannelReqIgnored => 148u16,
            SendOpcodes::FieldSpecificData => 149u16,
            SendOpcodes::GroupMessage => 150u16,
            SendOpcodes::Whisper => 151u16,
            SendOpcodes::CoupleMessage => 152u16,
            SendOpcodes::MobSummonItemUseResult => 153u16,
            SendOpcodes::FieldEffect => 154u16,
            SendOpcodes::FieldObstacleOnOff => 155u16,
            SendOpcodes::FieldObstacleOnOffStatus => 156u16,
            SendOpcodes::FieldObstacleAllReset => 157u16,
            SendOpcodes::BlowWeather => 158u16,
            SendOpcodes::PlayJukeBox => 159u16,
            SendOpcodes::AdminResult => 160u16,
            SendOpcodes::FieldQuiz => 161u16,
            SendOpcodes::Desc => 162u16,
            SendOpcodes::Clock => 163u16,
            SendOpcodes::CONTIMOVE => 164u16,
            SendOpcodes::CONTISTATE => 165u16,
            SendOpcodes::SetQuestClear => 166u16,
            SendOpcodes::SetQuestTime => 167u16,
            SendOpcodes::Warn => 168u16,
            SendOpcodes::SetObjectState => 169u16,
            SendOpcodes::DestroyClock => 170u16,
            SendOpcodes::ShowArenaResult => 171u16,
            SendOpcodes::StalkResult => 172u16,
            SendOpcodes::MassacreIncGauge => 173u16,
            SendOpcodes::MassacreResult => 174u16,
            SendOpcodes::QuickslotMappedInit => 175u16,
            SendOpcodes::FootHoldInfo => 176u16,
            SendOpcodes::RequestFootHoldInfo => 177u16,
            SendOpcodes::FieldKillCount => 178u16,
            SendOpcodes::UserEnterField => 179u16,
            SendOpcodes::UserLeaveField => 180u16,
            SendOpcodes::UserChat => 181u16,
            SendOpcodes::UserChatNLCPQ => 182u16,
            SendOpcodes::UserADBoard => 183u16,
            SendOpcodes::UserMiniRoomBalloon => 184u16,
            SendOpcodes::UserConsumeItemEffect => 185u16,
            SendOpcodes::UserItemUpgradeEffect => 186u16,
            SendOpcodes::UserItemHyperUpgradeEffect => 187u16,
            SendOpcodes::UserItemOptionUpgradeEffect => 188u16,
            SendOpcodes::UserItemReleaseEffect => 189u16,
            SendOpcodes::UserItemUnreleaseEffect => 190u16,
            SendOpcodes::UserHitByUser => 191u16,
            SendOpcodes::UserTeslaTriangle => 192u16,
            SendOpcodes::UserFollowCharacter => 193u16,
            SendOpcodes::UserShowPQReward => 194u16,
            SendOpcodes::UserSetPhase => 195u16,
            SendOpcodes::SetPortalUsable => 196u16,
            SendOpcodes::UserShowRecoverUpgradeCountEffect => 197u16,
            SendOpcodes::PetActivated => 198u16,
            SendOpcodes::PetEvol => 199u16,
            SendOpcodes::PetTransferField => 200u16,
            SendOpcodes::PetMove => 201u16,
            SendOpcodes::PetAction => 202u16,
            SendOpcodes::PetNameChanged => 203u16,
            SendOpcodes::PetLoadExceptionList => 204u16,
            SendOpcodes::PetActionCommand => 205u16,
            SendOpcodes::DragonEnterField => 206u16,
            SendOpcodes::DragonMove => 207u16,
            SendOpcodes::DragonLeaveField => 208u16,
            SendOpcodes::UserMove => 210u16,
            SendOpcodes::UserMeleeAttack => 211u16,
            SendOpcodes::UserShootAttack => 212u16,
            SendOpcodes::UserMagicAttack => 213u16,
            SendOpcodes::UserBodyAttack => 214u16,
            SendOpcodes::UserSkillPrepare => 215u16,
            SendOpcodes::UserMovingShootAttackPrepare => 216u16,
            SendOpcodes::UserSkillCancel => 217u16,
            SendOpcodes::UserHit => 218u16,
            SendOpcodes::UserEmotion => 219u16,
            SendOpcodes::UserSetActiveEffectItem => 220u16,
            SendOpcodes::UserShowUpgradeTombEffect => 221u16,
            SendOpcodes::UserSetActivePortableChair => 222u16,
            SendOpcodes::UserAvatarModified => 223u16,
            SendOpcodes::UserEffectRemote => 224u16,
            SendOpcodes::UserTemporaryStatSet => 225u16,
            SendOpcodes::UserTemporaryStatReset => 226u16,
            SendOpcodes::UserHP => 227u16,
            SendOpcodes::UserGuildNameChanged => 228u16,
            SendOpcodes::UserGuildMarkChanged => 229u16,
            SendOpcodes::UserThrowGrenade => 230u16,
            SendOpcodes::UserSitResult => 231u16,
            SendOpcodes::UserEmotionLocal => 232u16,
            SendOpcodes::UserEffectLocal => 233u16,
            SendOpcodes::UserTeleport => 234u16,
            SendOpcodes::Premium => 235u16,
            SendOpcodes::MesoGiveSucceeded => 236u16,
            SendOpcodes::MesoGiveFailed => 237u16,
            SendOpcodes::RandomMesobagSucceed => 238u16,
            SendOpcodes::RandomMesobagFailed => 239u16,
            SendOpcodes::FieldFadeInOut => 240u16,
            SendOpcodes::FieldFadeOutForce => 241u16,
            SendOpcodes::UserQuestResult => 242u16,
            SendOpcodes::NotifyHPDecByField => 243u16,
            SendOpcodes::UserPetSkillChanged => 244u16,
            SendOpcodes::UserBalloonMsg => 245u16,
            SendOpcodes::PlayEventSound => 246u16,
            SendOpcodes::PlayMinigameSound => 247u16,
            SendOpcodes::UserMakerResult => 248u16,
            SendOpcodes::UserOpenConsultBoard => 249u16,
            SendOpcodes::UserOpenClassCompetitionPage => 250u16,
            SendOpcodes::UserOpenUI => 251u16,
            SendOpcodes::UserOpenUIWithOption => 252u16,
            SendOpcodes::SetDirectionMode => 253u16,
            SendOpcodes::SetStandAloneMode => 254u16,
            SendOpcodes::UserHireTutor => 255u16,
            SendOpcodes::UserTutorMsg => 256u16,
            SendOpcodes::IncCombo => 257u16,
            SendOpcodes::UserRandomEmotion => 258u16,
            SendOpcodes::ResignQuestReturn => 259u16,
            SendOpcodes::PassMateName => 260u16,
            SendOpcodes::SetRadioSchedule => 261u16,
            SendOpcodes::UserOpenSkillGuide => 262u16,
            SendOpcodes::UserNoticeMsg => 263u16,
            SendOpcodes::UserChatMsg => 264u16,
            SendOpcodes::UserBuffzoneEffect => 265u16,
            SendOpcodes::UserGoToCommoditySN => 266u16,
            SendOpcodes::UserDamageMeter => 267u16,
            SendOpcodes::UserTimeBombAttack => 268u16,
            SendOpcodes::UserPassiveMove => 269u16,
            SendOpcodes::UserFollowCharacterFailed => 270u16,
            SendOpcodes::UserRequestVengeance => 271u16,
            SendOpcodes::UserRequestExJablin => 272u16,
            SendOpcodes::UserAskAPSPEvent => 273u16,
            SendOpcodes::QuestGuideResult => 274u16,
            SendOpcodes::UserDeliveryQuest => 275u16,
            SendOpcodes::SkillCooltimeSet => 276u16,
            SendOpcodes::SummonedEnterField => 278u16,
            SendOpcodes::SummonedLeaveField => 279u16,
            SendOpcodes::SummonedMove => 280u16,
            SendOpcodes::SummonedAttack => 281u16,
            SendOpcodes::SummonedSkill => 282u16,
            SendOpcodes::SummonedHit => 283u16,
            SendOpcodes::MobEnterField => 284u16,
            SendOpcodes::MobLeaveField => 285u16,
            SendOpcodes::MobChangeController => 286u16,
            SendOpcodes::MobMove => 287u16,
            SendOpcodes::MobCtrlAck => 288u16,
            SendOpcodes::MobCtrlHint => 289u16,
            SendOpcodes::MobStatSet => 290u16,
            SendOpcodes::MobStatReset => 291u16,
            SendOpcodes::MobSuspendReset => 292u16,
            SendOpcodes::MobAffected => 293u16,
            SendOpcodes::MobDamaged => 294u16,
            SendOpcodes::MobSpecialEffectBySkill => 295u16,
            SendOpcodes::MobHPChange => 296u16,
            SendOpcodes::MobCrcKeyChanged => 297u16,
            SendOpcodes::MobHPIndicator => 298u16,
            SendOpcodes::MobCatchEffect => 299u16,
            SendOpcodes::MobEffectByItem => 300u16,
            SendOpcodes::MobSpeaking => 301u16,
            SendOpcodes::MobChargeCount => 302u16,
            SendOpcodes::MobSkillDelay => 303u16,
            SendOpcodes::MobRequestResultEscortInfo => 304u16,
            SendOpcodes::MobEscortStopEndPermmision => 305u16,
            SendOpcodes::MobEscortStopSay => 306u16,
            SendOpcodes::MobEscortReturnBefore => 307u16,
            SendOpcodes::MobNextAttack => 308u16,
            SendOpcodes::MobAttackedByMob => 309u16,
            SendOpcodes::NpcEnterField => 311u16,
            SendOpcodes::NpcLeaveField => 312u16,
            SendOpcodes::NpcChangeController => 313u16,
            SendOpcodes::NpcMove => 314u16,
            SendOpcodes::NpcUpdateLimitedInfo => 315u16,
            SendOpcodes::NpcSpecialAction => 316u16,
            SendOpcodes::NpcSetScript => 317u16,
            SendOpcodes::EmployeeEnterField => 319u16,
            SendOpcodes::EmployeeLeaveField => 320u16,
            SendOpcodes::EmployeeMiniRoomBalloon => 321u16,
            SendOpcodes::DropEnterField => 322u16,
            SendOpcodes::DropReleaseAllFreeze => 323u16,
            SendOpcodes::DropLeaveField => 324u16,
            SendOpcodes::CreateMessgaeBoxFailed => 325u16,
            SendOpcodes::MessageBoxEnterField => 326u16,
            SendOpcodes::MessageBoxLeaveField => 327u16,
            SendOpcodes::AffectedAreaCreated => 328u16,
            SendOpcodes::AffectedAreaRemoved => 329u16,
            SendOpcodes::TownPortalCreated => 330u16,
            SendOpcodes::TownPortalRemoved => 331u16,
            SendOpcodes::OpenGateCreated => 332u16,
            SendOpcodes::OpenGateRemoved => 333u16,
            SendOpcodes::ReactorChangeState => 334u16,
            SendOpcodes::ReactorMove => 335u16,
            SendOpcodes::ReactorEnterField => 336u16,
            SendOpcodes::ReactorLeaveField => 337u16,
            SendOpcodes::SnowBallState => 338u16,
            SendOpcodes::SnowBallHit => 339u16,
            SendOpcodes::SnowBallMsg => 340u16,
            SendOpcodes::SnowBallTouch => 341u16,
            SendOpcodes::CoconutHit => 342u16,
            SendOpcodes::CoconutScore => 343u16,
            SendOpcodes::HealerMove => 344u16,
            SendOpcodes::PulleyStateChange => 345u16,
            SendOpcodes::MCarnivalEnter => 346u16,
            SendOpcodes::MCarnivalPersonalCP => 347u16,
            SendOpcodes::MCarnivalTeamCP => 348u16,
            SendOpcodes::MCarnivalResultSuccess => 349u16,
            SendOpcodes::MCarnivalResultFail => 350u16,
            SendOpcodes::MCarnivalDeath => 351u16,
            SendOpcodes::MCarnivalMemberOut => 352u16,
            SendOpcodes::MCarnivalGameResult => 353u16,
            SendOpcodes::ArenaScore => 354u16,
            SendOpcodes::BattlefieldEnter => 355u16,
            SendOpcodes::BattlefieldScore => 356u16,
            SendOpcodes::BattlefieldTeamChanged => 357u16,
            SendOpcodes::WitchtowerScore => 358u16,
            SendOpcodes::HontaleTimer => 359u16,
            SendOpcodes::ChaosZakumTimer => 360u16,
            SendOpcodes::HontailTimer => 361u16,
            SendOpcodes::ZakumTimer => 362u16,
            SendOpcodes::ScriptMessage => 363u16,
            SendOpcodes::OpenShopDlg => 364u16,
            SendOpcodes::ShopResult => 365u16,
            SendOpcodes::AdminShopResult => 366u16,
            SendOpcodes::AdminShopCommodity => 367u16,
            SendOpcodes::TrunkResult => 368u16,
            SendOpcodes::StoreBankGetAllResult => 369u16,
            SendOpcodes::StoreBankResult => 370u16,
            SendOpcodes::RPSGame => 371u16,
            SendOpcodes::Messenger => 372u16,
            SendOpcodes::MiniRoom => 373u16,
            SendOpcodes::Tournament => 374u16,
            SendOpcodes::TournamentMatchTable => 375u16,
            SendOpcodes::TournamentSetPrize => 376u16,
            SendOpcodes::TournamentNoticeUEW => 377u16,
            SendOpcodes::TournamentAvatarInfo => 378u16,
            SendOpcodes::WeddingProgress => 379u16,
            SendOpcodes::WeddingCremonyEnd => 380u16,
            SendOpcodes::Parcel => 381u16,
            SendOpcodes::CashShopChargeParamResult => 382u16,
            SendOpcodes::CashShopQueryCashResult => 383u16,
            SendOpcodes::CashShopCashItemResult => 384u16,
            SendOpcodes::CashShopPurchaseExpChanged => 385u16,
            SendOpcodes::CashShopGiftMateInfoResult => 386u16,
            SendOpcodes::CashShopCheckDuplicatedIDResult => 387u16,
            SendOpcodes::CashShopCheckNameChangePossibleResult => 388u16,
            SendOpcodes::CashShopRegisterNewCharacterResult => 389u16,
            SendOpcodes::CashShopCheckTransferWorldPossibleResult => 390u16,
            SendOpcodes::CashShopGachaponStampItemResult => 391u16,
            SendOpcodes::CashShopCashItemGachaponResult => 392u16,
            SendOpcodes::CashShopCashGachaponOpenResult => 393u16,
            SendOpcodes::ChangeShroomPointResult => 394u16,
            SendOpcodes::CashShopOneADay => 395u16,
            SendOpcodes::CashShopNoticeFreeCashItem => 396u16,
            SendOpcodes::CashShopMemberShopResult => 397u16,
            SendOpcodes::FuncKeyMappedInit => 398u16,
            SendOpcodes::PetConsumeItemInit => 399u16,
            SendOpcodes::PetConsumeMPItemInit => 400u16,
            SendOpcodes::CheckSSN2OnCreateNewCharacterResult => 401u16,
            SendOpcodes::CheckSPWOnCreateNewCharacterResult => 402u16,
            SendOpcodes::FirstSSNOnCreateNewCharacterResult => 403u16,
            SendOpcodes::ShroomTVUpdateMessage => 405u16,
            SendOpcodes::ShroomTVClearMessage => 406u16,
            SendOpcodes::ShroomTVSendMessageResult => 407u16,
            SendOpcodes::BroadSetFlashChangeEvent => 408u16,
            SendOpcodes::ITCChargeParamResult => 410u16,
            SendOpcodes::ITCQueryCashResult => 411u16,
            SendOpcodes::ITCNormalItemResult => 412u16,
            SendOpcodes::CheckDuplicatedIDResultInCS => 413u16,
            SendOpcodes::CreateNewCharacterResultInCS => 414u16,
            SendOpcodes::CreateNewCharacterFailInCS => 415u16,
            SendOpcodes::CharacterSale => 416u16,
            SendOpcodes::GoldHammereS => 417u16,
            SendOpcodes::GoldHammerResult => 418u16,
            SendOpcodes::GoldHammereE => 419u16,
            SendOpcodes::BattleRecordS => 420u16,
            SendOpcodes::BattleRecordDotDamageInfo => 421u16,
            SendOpcodes::BattleRecordRequestResult => 422u16,
            SendOpcodes::ItemUpgradeResult => 425u16,
            SendOpcodes::ItemUpgradeFail => 426u16,
            SendOpcodes::VegaResult => 429u16,
            SendOpcodes::VegaFail => 430u16,
            SendOpcodes::LogoutGift => 432u16,
        }
    }

    /// The value a wire code stands for, if any.
    pub open spec fn of_code(c: u16) -> Option<SendOpcodes> {
        match c {
            0u16 => Some(SendOpcodes::CheckPasswordResult),
            1u16 => Some(SendOpcodes::GuestIDLoginResult),
            2u16 => Some(SendOpcodes::AccountInfoResult),
            3u16 => Some(SendOpcodes::CheckUserLimitResult),
            4u16 => Some(SendOpcodes::SetAccountResult),
            5u16 => Some(SendOpcodes::ConfirmEULAResult),
            6u16 => Some(SendOpcodes::CheckPinCodeResult),
            7u16 => Some(SendOpcodes::UpdatePinCodeResult),
            8u16 => Some(SendOpcodes::ViewAllCharResult),
            9u16 => Some(SendOpcodes::SelectCharacterByVACResult),
            10u16 => Some(SendOpcodes::WorldInformation),
            11u16 => Some(SendOpcodes::SelectWorldResult),
            12u16 => Some(SendOpcodes::SelectCharacterResult),
            13u16 => Some(SendOpcodes::CheckDuplicatedIDResult),
            14u16 => Some(SendOpcodes::CreateNewCharacterResult),
            15u16 => Some(SendOpcodes::DeleteCharacterResult),
            16u16 => Some(SendOpcodes::MigrateCommand),
            17u16 => Some(SendOpcodes::AliveReq),
            18u16 => Some(SendOpcodes::AuthenCodeChanged),
            19u16 => Some(SendOpcodes::AuthenMessage),
            20u16 => Some(SendOpcodes::SecurityPacket),
            21u16 => Some(SendOpcodes::EnableSPWResult),
            22u16 => Some(SendOpcodes::DeleteCharacterOTPRequest),
            23u16 => Some(SendOpcodes::CheckCrcResult),
            24u16 => Some(SendOpcodes::LatestConnectedWorld),
            25u16 => Some(SendOpcodes::RecommendWorldMessage),
            26u16 => Some(SendOpcodes::CheckExtraCharInfoResult),
            27u16 => Some(SendOpcodes::CheckSPWResult),
            28u16 => Some(SendOpcodes::InventoryOperation),
            29u16 => Some(SendOpcodes::InventoryGrow),
            30u16 => Some(SendOpcodes::StatChanged),
            31u16 => Some(SendOpcodes::TemporaryStatSet),
            32u16 => Some(SendOpcodes::TemporaryStatReset),
            33u16 => Some(SendOpcodes::ForcedStatSet),
            34u16 => Some(SendOpcodes::ForcedStatReset),
            35u16 => Some(SendOpcodes::ChangeSkillRecordResult),
            36u16 => Some(SendOpcodes::SkillUseResult),
            37u16 => Some(SendOpcodes::GivePopularityResult),
            38u16 => Some(SendOpcodes::Message),
            39u16 => Some(SendOpcodes::SendOpenFullClientLink),
            40u16 => Some(SendOpcodes::MemoResult),
            41u16 => Some(SendOpcodes::MapTransferResult),
            42u16 => Some(SendOpcodes::AntiMacroResult),
            43u16 => Some(SendOpcodes::InitialQuizStart),
            44u16 => Some(SendOpcodes::ClaimResult),
            45u16 => Some(SendOpcodes::SetClaimSvrAvailableTime),
            46u16 => Some(SendOpcodes::ClaimSvrStatusChanged),
            47u16 => Some(SendOpcodes::SetTamingMobInfo),
            48u16 => Some(SendOpcodes::QuestClear),
            49u16 => Some(SendOpcodes::EntrustedShopCheckResult),
            50u16 => Some(SendOpcodes::SkillLearnItemResult),
            51u16 => Some(SendOpcodes::SkillResetItemResult),
            52u16 => Some(SendOpcodes::GatherItemResult),
            53u16 => Some(SendOpcodes::SortItemResult),
            54u16 => Some(SendOpcodes::RemoteShopOpenResult),
            55u16 => Some(SendOpcodes::SueCharacterResult),
            56u16 => Some(SendOpcodes::MigrateToCashShopResult),
            57u16 => Some(SendOpcodes::TradeMoneyLimit),
            58u16 => Some(SendOpcodes::SetGender),
            59u16 => Some(SendOpcodes::GuildBBS),
            60u16 => Some(SendOpcodes::PetDeadMessage),
            61u16 => Some(SendOpcodes::CharacterInfo),
            62u16 => Some(SendOpcodes::PartyResult),
            63u16 => Some(SendOpcodes::ExpeditionRequest),
            64u16 => Some(SendOpcodes::ExpeditionNoti),
            65u16 => Some(SendOpcodes::FriendResult),
            66u16 => Some(SendOpcodes::GuildRequest),
            67u16 => Some(SendOpcodes::GuildResult),
            68u16 => Some(SendOpcodes::AllianceResult),
            69u16 => Some(SendOpcodes::TownPortal),
            70u16 => Some(SendOpcodes::OpenGate),
            71u16 => Some(SendOpcodes::BroadcastMsg),
            72u16 => Some(SendOpcodes::IncubatorResult),
            73u16 => Some(SendOpcodes::ShopScannerResult),
            74u16 => Some(SendOpcodes::ShopLinkResult),
            75u16 => Some(SendOpcodes::MarriageRequest),
            76u16 => Some(SendOpcodes::MarriageResult),
            77u16 => Some(SendOpcodes::WeddingGiftResult),
            78u16 => Some(SendOpcodes::MarriedPartnerMapTransfer),
            79u16 => Some(SendOpcodes::CashPetFoodResult),
            80u16 => Some(SendOpcodes::SetWeekEventMessage),
            81u16 => Some(SendOpcodes::SetPotionDiscountRate),
            82u16 => Some(SendOpcodes::BridleMobCatchFail),
            83u16 => Some(SendOpcodes::ImitatedNPCResult),
            84u16 => Some(SendOpcodes::ImitatedNPCData),
            85u16 => Some(SendOpcodes::LimitedNPCDisableInfo),
            86u16 => Some(SendOpcodes::MonsterBookSetCard),
            87u16 => Some(SendOpcodes::MonsterBookSetCover),
            88u16 => Some(SendOpcodes::HourChanged),
            89u16 => Some(SendOpcodes::MiniMapOnOff),
            90u16 => Some(SendOpcodes::ConsultAuthkeyUpdate),
            91u16 => Some(SendOpcodes::ClassCompetitionAuthkeyUpdate),
            92u16 => Some(SendOpcodes::WebBoardAuthkeyUpdate),
            93u16 => Some(SendOpcodes::SessionValue),
            94u16 => Some(SendOpcodes::PartyValue),
            95u16 => Some(SendOpcodes::FieldSetVariable),
            96u16 => Some(SendOpcodes::BonusExpRateChanged),
            97u16 => Some(SendOpcodes::PotionDiscountRateChanged),
            98u16 => Some(SendOpcodes::FamilyChartResult),
            99u16 => Some(SendOpcodes::FamilyInfoResult),
            100u16 => Some(SendOpcodes::FamilyResult),
            101u16 => Some(SendOpcodes::FamilyJoinRequest),
            102u16 => Some(SendOpcodes::FamilyJoinRequestResult),
            103u16 => Some(SendOpcodes::FamilyJoinAccepted),
            104u16 => Some(SendOpcodes::FamilyPrivilegeList),
            105u16 => Some(SendOpcodes::FamilyFamousPointIncResult),
            106u16 => Some(SendOpcodes::FamilyNotifyLoginOrLogout),
            107u16 => Some(SendOpcodes::FamilySetPrivilege),
            108u16 => Some(SendOpcodes::FamilySummonRequest),
            109u16 => Some(SendOpcodes::NotifyLevelUp),
            110u16 => Some(SendOpcodes::NotifyWedding),
            111u16 => Some(SendOpcodes::NotifyJobChange),
            112u16 => Some(SendOpcodes::IncRateChanged),
            113u16 => Some(SendOpcodes::ShroomTVUseRes),
            114u16 => Some(SendOpcodes::AvatarMegaphoneRes),
            115u16 => Some(SendOpcodes::AvatarMegaphoneUpdateMessage),
            116u16 => Some(SendOpcodes::AvatarMegaphoneClearMessage),
            117u16 => Some(SendOpcodes::CancelNameChangeResult),
            118u16 => Some(SendOpcodes::CancelTransferWorldResult),
            119u16 => Some(SendOpcodes::DestroyShopResult),
            120u16 => Some(SendOpcodes::FAKEGMNOTICE),
            121u16 => Some(SendOpcodes::SuccessInUseGachaponBox),
            122u16 => Some(SendOpcodes::NewYearCardRes),
            123u16 => Some(SendOpcodes::RandomMorphRes),
            124u16 => Some(SendOpcodes::CancelNameChangeByOther),
            125u16 => Some(SendOpcodes::SetBuyEquipExt),
            126u16 => Some(SendOpcodes::SetPassenserRequest),
            127u16 => Some(SendOpcodes::ScriptProgressMessage),
            128u16 => Some(SendOpcodes::DataCRCCheckFailed),
            129u16 => Some(SendOpcodes::CakePieEventResult),
            130u16 => Some(SendOpcodes::UpdateGMBoard),
            131u16 => Some(SendOpcodes::ShowSlotMessage),
            132u16 => Some(SendOpcodes::WildHunterInfo),
            133u16 => Some(SendOpcodes::AccountMoreInfo),
            134u16 => Some(SendOpcodes::FindFirend),
            135u16 => Some(SendOpcodes::StageChange),
            136u16 => Some(SendOpcodes::DragonBallBox),
            137u16 => Some(SendOpcodes::AskUserWhetherUsePamsSong),
            138u16 => Some(SendOpcodes::TransferChannel),
            139u16 => Some(SendOpcodes::DisallowedDeliveryQuestList),
            140u16 => Some(SendOpcodes::MacroSysDataInit),
            141u16 => Some(SendOpcodes::SetField),
            142u16 => Some(SendOpcodes::SetITC),
            143u16 => Some(SendOpcodes::SetCashShop),
            144u16 => Some(SendOpcodes::SetBackgroundEffect),
            145u16 => Some(SendOpcodes::SetMapObjectVisible),
            146u16 => Some(SendOpcodes::ClearBackgroundEffect),
            147u16 => Some(SendOpcodes::TransferFieldReqIgnored),
            148u16 => Some(SendOpcodes::TransferChannelReqIgnored),
            149u16 => Some(SendOpcodes::FieldSpecificData),
            150u16 => Some(SendOpcodes::GroupMessage),
            151u16 => Some(SendOpcodes::Whisper),
            152u16 => Some(SendOpcodes::CoupleMessage),
            153u16 => Some(SendOpcodes::MobSummonItemUseResult),
            154u16 => Some(SendOpcodes::FieldEffect),
            155u16 => Some(SendOpcodes::FieldObstacleOnOff),
            156u16 => Some(SendOpcodes::FieldObstacleOnOffStatus),
            157u16 => Some(SendOpcodes::FieldObstacleAllReset),
            158u16 => Some(SendOpcodes::BlowWeather),
            159u16 => Some(SendOpcodes::PlayJukeBox),
            160u16 => Some(SendOpcodes::AdminResult),
            161u16 => Some(SendOpcodes::FieldQuiz),
            162u16 => Some(SendOpcodes::Desc),
            163u16 => Some(SendOpcodes::Clock),
            164u16 => Some(SendOpcodes::CONTIMOVE),
            165u16 => Some(SendOpcodes::CONTISTATE),
            166u16 => Some(SendOpcodes::SetQuestClear),
            167u16 => Some(SendOpcodes::SetQuestTime),
            168u16 => Some(SendOpcodes::Warn),
            169u16 => Some(SendOpcodes::SetObjectState),
            170u16 => Some(SendOpcodes::DestroyClock),
            171u16 => Some(SendOpcodes::ShowArenaResult),
            172u16 => Some(SendOpcodes::StalkResult),
            173u16 => Some(SendOpcodes::MassacreIncGauge),
            174u16 => Some(SendOpcodes::MassacreResult),
            175u16 => Some(SendOpcodes::QuickslotMappedInit),
            176u16 => Some(SendOpcodes::FootHoldInfo),
            177u16 => Some(SendOpcodes::RequestFootHoldInfo),
            178u16 => Some(SendOpcodes::FieldKillCount),
            179u16 => Some(SendOpcodes::UserEnterField),
            180u16 => Some(SendOpcodes::UserLeaveField),
            181u16 => Some(SendOpcodes::UserChat),
            182u16 => Some(SendOpcodes::UserChatNLCPQ),
            183u16 => Some(SendOpcodes::UserADBoard),
            184u16 => Some(SendOpcodes::UserMiniRoomBalloon),
            185u16 => Some(SendOpcodes::UserConsumeItemEffect),
            186u16 => Some(SendOpcodes::UserItemUpgradeEffect),
            187u16 => Some(SendOpcodes::UserItemHyperUpgradeEffect),
            188u16 => Some(SendOpcodes::UserItemOptionUpgradeEffect),
            189u16 => Some(SendOpcodes::UserItemReleaseEffect),
            190u16 => Some(SendOpcodes::UserItemUnreleaseEffect),
            191u16 => Some(SendOpcodes::UserHitByUser),
            192u16 => Some(SendOpcodes::UserTeslaTriangle),
            193u16 => Some(SendOpcodes::UserFollowCharacter),
            194u16 => Some(SendOpcodes::UserShowPQReward),
            195u16 => Some(SendOpcodes::UserSetPhase),
            196u16 => Some(SendOpcodes::SetPortalUsable),
            197u16 => Some(SendOpcodes::UserShowRecoverUpgradeCountEffect),
            198u16 => Some(SendOpcodes::PetActivated),
            199u16 => Some(SendOpcodes::PetEvol),
            200u16 => Some(SendOpcodes::PetTransferField),
            201u16 => Some(SendOpcodes::PetMove),
            202u16 => Some(SendOpcodes::PetAction),
            203u16 => Some(SendOpcodes::PetNameChanged),
            204u16 => Some(SendOpcodes::PetLoadExceptionList),
            205u16 => Some(SendOpcodes::PetActionCommand),
            206u16 => Some(SendOpcodes::DragonEnterField),
            207u16 => Some(SendOpcodes::DragonMove),
            208u16 => Some(SendOpcodes::DragonLeaveField),
            210u16 => Some(SendOpcodes::UserMove),
            211u16 => Some(SendOpcodes::UserMeleeAttack),
            212u16 => Some(SendOpcodes::UserShootAttack),
            213u16 => Some(SendOpcodes::UserMagicAttack),
            214u16 => Some(SendOpcodes::UserBodyAttack),
            215u16 => Some(SendOpcodes::UserSkillPrepare),
            216u16 => Some(SendOpcodes::UserMovingShootAttackPrepare),
            217u16 => Some(SendOpcodes::UserSkillCancel),
            218u16 => Some(SendOpcodes::UserHit),
            219u16 => Some(SendOpcodes::UserEmotion),
            220u16 => Some(SendOpcodes::UserSetActiveEffectItem),
            221u16 => Some(SendOpcodes::UserShowUpgradeTombEffect),
            222u16 => Some(SendOpcodes::UserSetActivePortableChair),
            223u16 => Some(SendOpcodes::UserAvatarModified),
            224u16 => Some(SendOpcodes::UserEffectRemote),
            225u16 => Some(SendOpcodes::UserTemporaryStatSet),
            226u16 => Some(SendOpcodes::UserTemporaryStatReset),
            227u16 => Some(SendOpcodes::UserHP),
            228u16 => Some(SendOpcodes::UserGuildNameChanged),
            229u16 => Some(SendOpcodes::UserGuildMarkChanged),
            230u16 => Some(SendOpcodes::UserThrowGrenade),
            231u16 => Some(SendOpcodes::UserSitResult),
            232u16 => Some(SendOpcodes::UserEmotionLocal),
            233u16 => Some(SendOpcodes::UserEffectLocal),
            234u16 => Some(SendOpcodes::UserTeleport),
            235u16 => Some(SendOpcodes::Premium),
            236u16 => Some(SendOpcodes::MesoGiveSucceeded),
            237u16 => Some(SendOpcodes::MesoGiveFailed),
            238u16 => Some(SendOpcodes::RandomMesobagSucceed),
            239u16 => Some(SendOpcodes::RandomMesobagFailed),
            240u16 => Some(SendOpcodes::FieldFadeInOut),
            241u16 => Some(SendOpcodes::FieldFadeOutForce),
            242u16 => Some(SendOpcodes::UserQuestResult),
            243u16 => Some(SendOpcodes::NotifyHPDecByField),
            244u16 => Some(SendOpcodes::UserPetSkillChanged),
            245u16 => Some(SendOpcodes::UserBalloonMsg),
            246u16 => Some(SendOpcodes::PlayEventSound),
            247u16 => Some(SendOpcodes::PlayMinigameSound),
            248u16 => Some(SendOpcodes::UserMakerResult),
            249u16 => Some(SendOpcodes::UserOpenConsultBoard),
            250u16 => Some(SendOpcodes::UserOpenClassCompetitionPage),
            251u16 => Some(SendOpcodes::UserOpenUI),
            252u16 => Some(SendOpcodes::UserOpenUIWithOption),
            253u16 => Some(SendOpcodes::SetDirectionMode),
            254u16 => Some(SendOpcodes::SetStandAloneMode),
            255u16 => Some(SendOpcodes::UserHireTutor),
            256u16 => Some(SendOpcodes::UserTutorMsg),
            257u16 => Some(SendOpcodes::IncCombo),
            258u16 => Some(SendOpcodes::UserRandomEmotion),
            259u16 => Some(SendOpcodes::ResignQuestReturn),
            260u16 => Some(SendOpcodes::PassMateName),
            261u16 => Some(SendOpcodes::SetRadioSchedule),
            262u16 => Some(SendOpcodes::UserOpenSkillGuide),
            263u16 => Some(SendOpcodes::UserNoticeMsg),
            264u16 => Some(SendOpcodes::UserChatMsg),
            265u16 => Some(SendOpcodes::UserBuffzoneEffect),
            266u16 => Some(SendOpcodes::UserGoToCommoditySN),
            267u16 => Some(SendOpcodes::UserDamageMeter),
            268u16 => Some(SendOpcodes::UserTimeBombAttack),
            269u16 => Some(SendOpcodes::UserPassiveMove),
            270u16 => Some(SendOpcodes::UserFollowCharacterFailed),
            271u16 => Some(SendOpcodes::UserRequestVengeance),
            272u16 => Some(SendOpcodes::UserRequestExJablin),
            273u16 => Some(SendOpcodes::UserAskAPSPEvent),
            274u16 => Some(SendOpcodes::QuestGuideResult),
            275u16 => Some(SendOpcodes::UserDeliveryQuest),
            276u16 => Some(SendOpcodes::SkillCooltimeSet),
            278u16 => Some(SendOpcodes::SummonedEnterField),
            279u16 => Some(SendOpcodes::SummonedLeaveField),
            280u16 => Some(SendOpcodes::SummonedMove),
            281u16 => Some(SendOpcodes::SummonedAttack),
            282u16 => Some(SendOpcodes::SummonedSkill),
            283u16 => Some(SendOpcodes::SummonedHit),
            284u16 => Some(SendOpcodes::MobEnterField),
            285u16 => Some(SendOpcodes::MobLeaveField),
            286u16 => Some(SendOpcodes::MobChangeController),
            287u16 => Some(SendOpcodes::MobMove),
            288u16 => Some(SendOpcodes::MobCtrlAck),
            289u16 => Some(SendOpcodes::MobCtrlHint),
            290u16 => Some(SendOpcodes::MobStatSet),
            291u16 => Some(SendOpcodes::MobStatReset),
            292u16 => Some(SendOpcodes::MobSuspendReset),
            293u16 => Some(SendOpcodes::MobAffected),
            294u16 => Some(SendOpcodes::MobDamaged),
            295u16 => Some(SendOpcodes::MobSpecialEffectBySkill),
            296u16 => Some(SendOpcodes::MobHPChange),
            297u16 => Some(SendOpcodes::MobCrcKeyChanged),
            298u16 => Some(SendOpcodes::MobHPIndicator),
            299u16 => Some(SendOpcodes::MobCatchEffect),
            300u16 => Some(SendOpcodes::MobEffectByItem),
            301u16 => Some(SendOpcodes::MobSpeaking),
            302u16 => Some(SendOpcodes::MobChargeCount),
            303u16 => Some(SendOpcodes::MobSkillDelay),
            304u16 => Some(SendOpcodes::MobRequestResultEscortInfo),
            305u16 => Some(SendOpcodes::MobEscortStopEndPermmision),
            306u16 => Some(SendOpcodes::MobEscortStopSay),
            307u16 => Some(SendOpcodes::MobEscortReturnBefore),
            308u16 => Some(SendOpcodes::MobNextAttack),
            309u16 => Some(SendOpcodes::MobAttackedByMob),
            311u16 => Some(SendOpcodes::NpcEnterField),
            312u16 => Some(SendOpcodes::NpcLeaveField),
            313u16 => Some(SendOpcodes::NpcChangeController),
            314u16 => Some(SendOpcodes::NpcMove),
            315u16 => Some(SendOpcodes::NpcUpdateLimitedInfo),
            316u16 => Some(SendOpcodes::NpcSpecialAction),
            317u16 => Some(SendOpcodes::NpcSetScript),
            319u16 => Some(SendOpcodes::EmployeeEnterField),
            320u16 => Some(SendOpcodes::EmployeeLeaveField),
            321u16 => Some(SendOpcodes::EmployeeMiniRoomBalloon),
            322u16 => Some(SendOpcodes::DropEnterField),
            323u16 => Some(SendOpcodes::DropReleaseAllFreeze),
            324u16 => Some(SendOpcodes::DropLeaveField),
            325u16 => Some(SendOpcodes::CreateMessgaeBoxFailed),
            326u16 => Some(SendOpcodes::MessageBoxEnterField),
            327u16 => Some(SendOpcodes::MessageBoxLeaveField),
            328u16 => Some(SendOpcodes::AffectedAreaCreated),
            329u16 => Some(SendOpcodes::AffectedAreaRemoved),
            330u16 => Some(SendOpcodes::TownPortalCreated),
            331u16 => Some(SendOpcodes::TownPortalRemoved),
            332u16 => Some(SendOpcodes::OpenGateCreated),
            333u16 => Some(SendOpcodes::OpenGateRemoved),
            334u16 => Some(SendOpcodes::ReactorChangeState),
            335u16 => Some(SendOpcodes::ReactorMove),
            336u16 => Some(SendOpcodes::ReactorEnterField),
            337u16 => Some(SendOpcodes::ReactorLeaveField),
            338u16 => Some(SendOpcodes::SnowBallState),
            339u16 => Some(SendOpcodes::SnowBallHit),
            340u16 => Some(SendOpcodes::SnowBallMsg),
            341u16 => Some(SendOpcodes::SnowBallTouch),
            342u16 => Some(SendOpcodes::CoconutHit),
            343u16 => Some(SendOpcodes::CoconutScore),
            344u16 => Some(SendOpcodes::HealerMove),
            345u16 => Some(SendOpcodes::PulleyStateChange),
            346u16 => Some(SendOpcodes::MCarnivalEnter),
            347u16 => Some(SendOpcodes::MCarnivalPersonalCP),
            348u16 => Some(SendOpcodes::MCarnivalTeamCP),
            349u16 => Some(SendOpcodes::MCarnivalResultSuccess),
            350u16 => Some(SendOpcodes::MCarnivalResultFail),
            351u16 => Some(SendOpcodes::MCarnivalDeath),
            352u16 => Some(SendOpcodes::MCarnivalMemberOut),
            353u16 => Some(SendOpcodes::MCarnivalGameResult),
            354u16 => Some(SendOpcodes::ArenaScore),
            355u16 => Some(SendOpcodes::BattlefieldEnter),
            356u16 => Some(SendOpcodes::BattlefieldScore),
            357u16 => Some(SendOpcodes::BattlefieldTeamChanged),
            358u16 => Some(SendOpcodes::WitchtowerScore),
            359u16 => Some(SendOpcodes::HontaleTimer),
            360u16 => Some(SendOpcodes::ChaosZakumTimer),
            361u16 => Some(SendOpcodes::HontailTimer),
            362u16 => Some(SendOpcodes::ZakumTimer),
            363u16 => Some(SendOpcodes::ScriptMessage),
            364u16 => Some(SendOpcodes::OpenShopDlg),
            365u16 => Some(SendOpcodes::ShopResult),
            366u16 => Some(SendOpcodes::AdminShopResult),
            367u16 => Some(SendOpcodes::AdminShopCommodity),
            368u16 => Some(SendOpcodes::TrunkResult),
            369u16 => Some(SendOpcodes::StoreBankGetAllResult),
            370u16 => Some(SendOpcodes::StoreBankResult),
            371u16 => Some(SendOpcodes::RPSGame),
            372u16 => Some(SendOpcodes::Messenger),
            373u16 => Some(SendOpcodes::MiniRoom),
            374u16 => Some(SendOpcodes::Tournament),
            375u16 => Some(SendOpcodes::TournamentMatchTable),
            376u16 => Some(SendOpcodes::TournamentSetPrize),
            377u16 => Some(SendOpcodes::TournamentNoticeUEW),
            378u16 => Some(SendOpcodes::TournamentAvatarInfo),
            379u16 => Some(SendOpcodes::WeddingProgress),
            380u16 => Some(SendOpcodes::WeddingCremonyEnd),
            381u16 => Some(SendOpcodes::Parcel),
            382u16 => Some(SendOpcodes::CashShopChargeParamResult),
            383u16 => Some(SendOpcodes::CashShopQueryCashResult),
            384u16 => Some(SendOpcodes::CashShopCashItemResult),
            385u16 => Some(SendOpcodes::CashShopPurchaseExpChanged),
            386u16 => Some(SendOpcodes::CashShopGiftMateInfoResult),
            387u16 => Some(SendOpcodes::CashShopCheckDuplicatedIDResult),
            388u16 => Some(SendOpcodes::CashShopCheckNameChangePossibleResult),
            389u16 => Some(SendOpcodes::CashShopRegisterNewCharacterResult),
            390u16 => Some(SendOpcodes::CashShopCheckTransferWorldPossibleResult),
            391u16 => Some(SendOpcodes::CashShopGachaponStampItemResult),
            392u16 => Some(SendOpcodes::CashShopCashItemGachaponResult),
            393u16 => Some(SendOpcodes::CashShopCashGachaponOpenResult),
            394u16 => Some(SendOpcodes::ChangeShroomPointResult),
            395u16 => Some(SendOpcodes::CashShopOneADay),
            396u16 => Some(SendOpcodes::CashShopNoticeFreeCashItem),
            397u16 => Some(SendOpcodes::CashShopMemberShopResult),
            398u16 => Some(SendOpcodes::FuncKeyMappedInit),
            399u16 => Some(SendOpcodes::PetConsumeItemInit),
            400u16 => Some(SendOpcodes::PetConsumeMPItemInit),
            401u16 => Some(SendOpcodes::CheckSSN2OnCreateNewCharacterResult),
            402u16 => Some(SendOpcodes::CheckSPWOnCreateNewCharacterResult),
            403u16 => Some(SendOpcodes::FirstSSNOnCreateNewCharacterResult),
            405u16 => Some(SendOpcodes::ShroomTVUpdateMessage),
            406u16 => Some(SendOpcodes::ShroomTVClearMessage),
            407u16 => Some(SendOpcodes::ShroomTVSendMessageResult),
            408u16 => Some(SendOpcodes::BroadSetFlashChangeEvent),
            410u16 => Some(SendOpcodes::ITCChargeParamResult),
            411u16 => Some(SendOpcodes::ITCQueryCashResult),
            412u16 => Some(SendOpcodes::ITCNormalItemResult),
            413u16 => Some(SendOpcodes::CheckDuplicatedIDResultInCS),
            414u16 => Some(SendOpcodes::CreateNewCharacterResultInCS),
            415u16 => Some(SendOpcodes::CreateNewCharacterFailInCS),
            416u16 => Some(SendOpcodes::CharacterSale),
            417u16 => Some(SendOpcodes::GoldHammereS),
            418u16 => Some(SendOpcodes::GoldHammerResult),
            419u16 => Some(SendOpcodes::GoldHammereE),
            420u16 => Some(SendOpcodes::BattleRecordS),
            421u16 => Some(SendOpcodes::BattleRecordDotDamageInfo),
            422u16 => Some(SendOpcodes::BattleRecordRequestResult),
            425u16 => Some(SendOpcodes::ItemUpgradeResult),
            426u16 => Some(SendOpcodes::ItemUpgradeFail),
            429u16 => Some(SendOpcodes::VegaResult),
            430u16 => Some(SendOpcodes::VegaFail),
            432u16 => Some(SendOpcodes::LogoutGift),
            _ => None,
        }
    }

    /// Decoding the code of a value gives that value back.
    pub proof fn lemma_code_roundtrip(self)
        ensures
            SendOpcodes::of_code(self.code_of()) == Some(self),
    {
    }

    /// A code that decodes to a value is that value's code.
    #[verifier::rlimit(100)]
    #[verifier::spinoff_prover]
    pub proof fn lemma_decode_roundtrip(c: u16)
        ensures
            SendOpcodes::of_code(c) matches Some(v) ==> v.code_of() == c,
    {
    }
}

impl From<SendOpcodes> for u16 {
    fn from(v: SendOpcodes) -> (r: u16) {
        match v {
            SendOpcodes::CheckPasswordResult => 0,
            SendOpcodes::GuestIDLoginResult => 1,
            SendOpcodes::AccountInfoResult => 2,
            SendOpcodes::CheckUserLimitResult => 3,
            SendOpcodes::SetAccountResult => 4,
            SendOpcodes::ConfirmEULAResult => 5,
            SendOpcodes::CheckPinCodeResult => 6,
            SendOpcodes::UpdatePinCodeResult => 7,
            SendOpcodes::ViewAllCharResult => 8,
            SendOpcodes::SelectCharacterByVACResult => 9,
            SendOpcodes::WorldInformation => 10,
            SendOpcodes::SelectWorldResult => 11,
            SendOpcodes::SelectCharacterResult => 12,
            SendOpcodes::CheckDuplicatedIDResult => 13,
            SendOpcodes::CreateNewCharacterResult => 14,
            SendOpcodes::DeleteCharacterResult => 15,
            SendOpcodes::MigrateCommand => 16,
            SendOpcodes::AliveReq => 17,
            SendOpcodes::AuthenCodeChanged => 18,
            SendOpcodes::AuthenMessage => 19,
            SendOpcodes::SecurityPacket => 20,
            SendOpcodes::EnableSPWResult => 21,
            SendOpcodes::DeleteCharacterOTPRequest => 22,
            SendOpcodes::CheckCrcResult => 23,
            SendOpcodes::LatestConnectedWorld => 24,
            SendOpcodes::RecommendWorldMessage => 25,
            SendOpcodes::CheckExtraCharInfoResult => 26,
            SendOpcodes::CheckSPWResult => 27,
            SendOpcodes::InventoryOperation => 28,
            SendOpcodes::InventoryGrow => 29,
            SendOpcodes::StatChanged => 30,
            SendOpcodes::TemporaryStatSet => 31,
            SendOpcodes::TemporaryStatReset => 32,
            SendOpcodes::ForcedStatSet => 33,
            SendOpcodes::ForcedStatReset => 34,
            SendOpcodes::ChangeSkillRecordResult => 35,
            SendOpcodes::SkillUseResult => 36,
            SendOpcodes::GivePopularityResult => 37,
            SendOpcodes::Message => 38,
            SendOpcodes::SendOpenFullClientLink => 39,
            SendOpcodes::MemoResult => 40,
            SendOpcodes::MapTransferResult => 41,
            SendOpcodes::AntiMacroResult => 42,
            SendOpcodes::InitialQuizStart => 43,
            SendOpcodes::ClaimResult => 44,
            SendOpcodes::SetClaimSvrAvailableTime => 45,
            SendOpcodes::ClaimSvrStatusChanged => 46,
            SendOpcodes::SetTamingMobInfo => 47,
            SendOpcodes::QuestClear => 48,
            SendOpcodes::EntrustedShopCheckResult => 49,
            SendOpcodes::SkillLearnItemResult => 50,
            SendOpcodes::SkillResetItemResult => 51,
            SendOpcodes::GatherItemResult => 52,
            SendOpcodes::SortItemResult => 53,
            SendOpcodes::RemoteShopOpenResult => 54,
            SendOpcodes::SueCharacterResult => 55,
            SendOpcodes::MigrateToCashShopResult => 56,
            SendOpcodes::TradeMoneyLimit => 57,
            SendOpcodes::SetGender => 58,
            SendOpcodes::GuildBBS => 59,
            SendOpcodes::PetDeadMessage => 60,
            SendOpcodes::CharacterInfo => 61,
            SendOpcodes::PartyResult => 62,
            SendOpcodes::ExpeditionRequest => 63,
            SendOpcodes::ExpeditionNoti => 64,
            SendOpcodes::FriendResult => 65,
            SendOpcodes::GuildRequest => 66,
            SendOpcodes::GuildResult => 67,
            SendOpcodes::AllianceResult => 68,
            SendOpcodes::TownPortal => 69,
            SendOpcodes::OpenGate => 70,
            SendOpcodes::BroadcastMsg => 71,
            SendOpcodes::IncubatorResult => 72,
            SendOpcodes::ShopScannerResult => 73,
            SendOpcodes::ShopLinkResult => 74,
            SendOpcodes::MarriageRequest => 75,
            SendOpcodes::MarriageResult => 76,
            SendOpcodes::WeddingGiftResult => 77,
            SendOpcodes::MarriedPartnerMapTransfer => 78,
            SendOpcodes::CashPetFoodResult => 79,
            SendOpcodes::SetWeekEventMessage => 80,
            SendOpcodes::SetPotionDiscountRate => 81,
            SendOpcodes::BridleMobCatchFail => 82,
            SendOpcodes::ImitatedNPCResult => 83,
            SendOpcodes::ImitatedNPCData => 84,
            SendOpcodes::LimitedNPCDisableInfo => 85,
            SendOpcodes::MonsterBookSetCard => 86,
            SendOpcodes::MonsterBookSetCover => 87,
            SendOpcodes::HourChanged => 88,
            SendOpcodes::MiniMapOnOff => 89,
            SendOpcodes::ConsultAuthkeyUpdate => 90,
            SendOpcodes::ClassCompetitionAuthkeyUpdate => 91,
            SendOpcodes::WebBoardAuthkeyUpdate => 92,
            SendOpcodes::SessionValue => 93,
            SendOpcodes::PartyValue => 94,
            SendOpcodes::FieldSetVariable => 95,
            SendOpcodes::BonusExpRateChanged => 96,
            SendOpcodes::PotionDiscountRateChanged => 97,
            SendOpcodes::FamilyChartResult => 98,
            SendOpcodes::FamilyInfoResult => 99,
            SendOpcodes::FamilyResult => 100,
            SendOpcodes::FamilyJoinRequest => 101,
            SendOpcodes::FamilyJoinRequestResult => 102,
            SendOpcodes::FamilyJoinAccepted => 103,
            SendOpcodes::FamilyPrivilegeList => 104,
            SendOpcodes::FamilyFamousPointIncResult => 105,
            SendOpcodes::FamilyNotifyLoginOrLogout => 106,
            SendOpcodes::FamilySetPrivilege => 107,
            SendOpcodes::FamilySummonRequest => 108,
            SendOpcodes::NotifyLevelUp => 109,
            SendOpcodes::NotifyWedding => 110,
            SendOpcodes::NotifyJobChange => 111,
            SendOpcodes::IncRateChanged => 112,
            SendOpcodes::ShroomTVUseRes => 113,
            SendOpcodes::AvatarMegaphoneRes => 114,
            SendOpcodes::AvatarMegaphoneUpdateMessage => 115,
            SendOpcodes::AvatarMegaphoneClearMessage => 116,
            SendOpcodes::CancelNameChangeResult => 117,
            SendOpcodes::CancelTransferWorldResult => 118,
            SendOpcodes::DestroyShopResult => 119,
            SendOpcodes::FAKEGMNOTICE => 120,
            SendOpcodes::SuccessInUseGachaponBox => 121,
            SendOpcodes::NewYearCardRes => 122,
            SendOpcodes::RandomMorphRes => 123,
            SendOpcodes::CancelNameChangeByOther => 124,
            SendOpcodes::SetBuyEquipExt => 125,
            SendOpcodes::SetPassenserRequest => 126,
            SendOpcodes::ScriptProgressMessage => 127,
            SendOpcodes::DataCRCCheckFailed => 128,
            SendOpcodes::CakePieEventResult => 129,
            SendOpcodes::UpdateGMBoard => 130,
            SendOpcodes::ShowSlotMessage => 131,
            SendOpcodes::WildHunterInfo => 132,
            SendOpcodes::AccountMoreInfo => 133,
            SendOpcodes::FindFirend => 134,
            SendOpcodes::StageChange => 135,
            SendOpcodes::DragonBallBox => 136,
            SendOpcodes::AskUserWhetherUsePamsSong => 137,
            SendOpcodes::TransferChannel => 138,
            SendOpcodes::DisallowedDeliveryQuestList => 139,
            SendOpcodes::MacroSysDataInit => 140,
            SendOpcodes::SetField => 141,
            SendOpcodes::SetITC => 142,
            SendOpcodes::SetCashShop => 143,
            SendOpcodes::SetBackgroundEffect => 144,
            SendOpcodes::SetMapObjectVisible => 145,
            SendOpcodes::ClearBackgroundEffect => 146,
            SendOpcodes::TransferFieldReqIgnored => 147,
            SendOpcodes::TransferChannelReqIgnored => 148,
            SendOpcodes::FieldSpecificData => 149,
            SendOpcodes::GroupMessage => 150,
            SendOpcodes::Whisper => 151,
            SendOpcodes::CoupleMessage => 152,
            SendOpcodes::MobSummonItemUseResult => 153,
            SendOpcodes::FieldEffect => 154,
            SendOpcodes::FieldObstacleOnOff => 155,
            SendOpcodes::FieldObstacleOnOffStatus => 156,
            SendOpcodes::FieldObstacleAllReset => 157,
            SendOpcodes::BlowWeather => 158,
            SendOpcodes::PlayJukeBox => 159,
            SendOpcodes::AdminResult => 160,
            SendOpcodes::FieldQuiz => 161,
            SendOpcodes::Desc => 162,
            SendOpcodes::Clock => 163,
            SendOpcodes::CONTIMOVE => 164,
            SendOpcodes::CONTISTATE => 165,
            SendOpcodes::SetQuestClear => 166,
            SendOpcodes::SetQuestTime => 167,
            SendOpcodes::Warn => 168,
            SendOpcodes::SetObjectState => 169,
            SendOpcodes::DestroyClock => 170,
            SendOpcodes::ShowArenaResult => 171,
            SendOpcodes::StalkResult => 172,
            SendOpcodes::MassacreIncGauge => 173,
            SendOpcodes::MassacreResult => 174,
            SendOpcodes::QuickslotMappedInit => 175,
            SendOpcodes::FootHoldInfo => 176,
            SendOpcodes::RequestFootHoldInfo => 177,
            SendOpcodes::FieldKillCount => 178,
            SendOpcodes::UserEnterField => 179,
            SendOpcodes::UserLeaveField => 180,
            SendOpcodes::UserChat => 181,
            SendOpcodes::UserChatNLCPQ => 182,
            SendOpcodes::UserADBoard => 183,
            SendOpcodes::UserMiniRoomBalloon => 184,
            SendOpcodes::UserConsumeItemEffect => 185,
            SendOpcodes::UserItemUpgradeEffect => 186,
            SendOpcodes::UserItemHyperUpgradeEffect => 187,
            SendOpcodes::UserItemOptionUpgradeEffect => 188,
            SendOpcodes::UserItemReleaseEffect => 189,
            SendOpcodes::UserItemUnreleaseEffect => 190,
            SendOpcodes::UserHitByUser => 191,
            SendOpcodes::UserTeslaTriangle => 192,
            SendOpcodes::UserFollowCharacter => 193,
            SendOpcodes::UserShowPQReward => 194,
            SendOpcodes::UserSetPhase => 195,
            SendOpcodes::SetPortalUsable => 196,
            SendOpcodes::UserShowRecoverUpgradeCountEffect => 197,
            SendOpcodes::PetActivated => 198,
            SendOpcodes::PetEvol => 199,
            SendOpcodes::PetTransferField => 200,
            SendOpcodes::PetMove => 201,
            SendOpcodes::PetAction => 202,
            SendOpcodes::PetNameChanged => 203,
            SendOpcodes::PetLoadExceptionList => 204,
            SendOpcodes::PetActionCommand => 205,
            SendOpcodes::DragonEnterField => 206,
            SendOpcodes::DragonMove => 207,
            SendOpcodes::DragonLeaveField => 208,
            SendOpcodes::UserMove => 210,
            SendOpcodes::UserMeleeAttack => 211,
            SendOpcodes::UserShootAttack => 212,
            SendOpcodes::UserMagicAttack => 213,
            SendOpcodes::UserBodyAttack => 214,
            SendOpcodes::UserSkillPrepare => 215,
            SendOpcodes::UserMovingShootAttackPrepare => 216,
            SendOpcodes::UserSkillCancel => 217,
            SendOpcodes::UserHit => 218,
            SendOpcodes::UserEmotion => 219,
            SendOpcodes::UserSetActiveEffectItem => 220,
            SendOpcodes::UserShowUpgradeTombEffect => 221,
            SendOpcodes::UserSetActivePortableChair => 222,
            SendOpcodes::UserAvatarModified => 223,
            SendOpcodes::UserEffectRemote => 224,
            SendOpcodes::UserTemporaryStatSet => 225,
            SendOpcodes::UserTemporaryStatReset => 226,
            SendOpcodes::UserHP => 227,
            SendOpcodes::UserGuildNameChanged => 228,
            SendOpcodes::UserGuildMarkChanged => 229,
            SendOpcodes::UserThrowGrenade => 230,
            SendOpcodes::UserSitResult => 231,
            SendOpcodes::UserEmotionLocal => 232,
            SendOpcodes::UserEffectLocal => 233,
            SendOpcodes::UserTeleport => 234,
            SendOpcodes::Premium => 235,
            SendOpcodes::MesoGiveSucceeded => 236,
            SendOpcodes::MesoGiveFailed => 237,
            SendOpcodes::RandomMesobagSucceed => 238,
            SendOpcodes::RandomMesobagFailed => 239,
            SendOpcodes::FieldFadeInOut => 240,
            SendOpcodes::FieldFadeOutForce => 241,
            SendOpcodes::UserQuestResult => 242,
            SendOpcodes::NotifyHPDecByField => 243,
            SendOpcodes::UserPetSkillChanged => 244,
            SendOpcodes::UserBalloonMsg => 245,
            SendOpcodes::PlayEventSound => 246,
            SendOpcodes::PlayMinigameSound => 247,
            SendOpcodes::UserMakerResult => 248,
            SendOpcodes::UserOpenConsultBoard => 249,
            SendOpcodes::UserOpenClassCompetitionPage => 250,
            SendOpcodes::UserOpenUI => 251,
            SendOpcodes::UserOpenUIWithOption => 252,
            SendOpcodes::SetDirectionMode => 253,
            SendOpcodes::SetStandAloneMode => 254,
            SendOpcodes::UserHireTutor => 255,
            SendOpcodes::UserTutorMsg => 256,
            SendOpcodes::IncCombo => 257,
            SendOpcodes::UserRandomEmotion => 258,
            SendOpcodes::ResignQuestReturn => 259,
            SendOpcodes::PassMateName => 260,
            SendOpcodes::SetRadioSchedule => 261,
            SendOpcodes::UserOpenSkillGuide => 262,
            SendOpcodes::UserNoticeMsg => 263,
            SendOpcodes::UserChatMsg => 264,
            SendOpcodes::UserBuffzoneEffect => 265,
            SendOpcodes::UserGoToCommoditySN => 266,
            SendOpcodes::UserDamageMeter => 267,
            SendOpcodes::UserTimeBombAttack => 268,
            SendOpcodes::UserPassiveMove => 269,
            SendOpcodes::UserFollowCharacterFailed => 270,
            SendOpcodes::UserRequestVengeance => 271,
            SendOpcodes::UserRequestExJablin => 272,
            SendOpcodes::UserAskAPSPEvent => 273,
            SendOpcodes::QuestGuideResult => 274,
            SendOpcodes::UserDeliveryQuest => 275,
            SendOpcodes::SkillCooltimeSet => 276,
            SendOpcodes::SummonedEnterField => 278,
            SendOpcodes::SummonedLeaveField => 279,
            SendOpcodes::SummonedMove => 280,
            SendOpcodes::SummonedAttack => 281,
            SendOpcodes::SummonedSkill => 282,
            SendOpcodes::SummonedHit => 283,
            SendOpcodes::MobEnterField => 284,
            SendOpcodes::MobLeaveField => 285,
            SendOpcodes::MobChangeController => 286,
            SendOpcodes::MobMove => 287,
            SendOpcodes::MobCtrlAck => 288,
            SendOpcodes::MobCtrlHint => 289,
            SendOpcodes::MobStatSet => 290,
            SendOpcodes::MobStatReset => 291,
            SendOpcodes::MobSuspendReset => 292,
            SendOpcodes::MobAffected => 293,
            SendOpcodes::MobDamaged => 294,
            SendOpcodes::MobSpecialEffectBySkill => 295,
            SendOpcodes::MobHPChange => 296,
            SendOpcodes::MobCrcKeyChanged => 297,
            SendOpcodes::MobHPIndicator => 298,
            SendOpcodes::MobCatchEffect => 299,
            SendOpcodes::MobEffectByItem => 300,
            SendOpcodes::MobSpeaking => 301,
            SendOpcodes::MobChargeCount => 302,
            SendOpcodes::MobSkillDelay => 303,
            SendOpcodes::MobRequestResultEscortInfo => 304,
            SendOpcodes::MobEscortStopEndPermmision => 305,
            SendOpcodes::MobEscortStopSay => 306,
            SendOpcodes::MobEscortReturnBefore => 307,
            SendOpcodes::MobNextAttack => 308,
            SendOpcodes::MobAttackedByMob => 309,
            SendOpcodes::NpcEnterField => 311,
            SendOpcodes::NpcLeaveField => 312,
            SendOpcodes::NpcChangeController => 313,
            SendOpcodes::NpcMove => 314,
            SendOpcodes::NpcUpdateLimitedInfo => 315,
            SendOpcodes::NpcSpecialAction => 316,
            SendOpcodes::NpcSetScript => 317,
            SendOpcodes::EmployeeEnterField => 319,
            SendOpcodes::EmployeeLeaveField => 320,
            SendOpcodes::EmployeeMiniRoomBalloon => 321,
            SendOpcodes::DropEnterField => 322,
            SendOpcodes::DropReleaseAllFreeze => 323,
            SendOpcodes::DropLeaveField => 324,
            SendOpcodes::CreateMessgaeBoxFailed => 325,
            SendOpcodes::MessageBoxEnterField => 326,
            SendOpcodes::MessageBoxLeaveField => 327,
            SendOpcodes::AffectedAreaCreated => 328,
            SendOpcodes::AffectedAreaRemoved => 329,
            SendOpcodes::TownPortalCreated => 330,
            SendOpcodes::TownPortalRemoved => 331,
            SendOpcodes::OpenGateCreated => 332,
            SendOpcodes::OpenGateRemoved => 333,
            SendOpcodes::ReactorChangeState => 334,
            SendOpcodes::ReactorMove => 335,
            SendOpcodes::ReactorEnterField => 336,
            SendOpcodes::ReactorLeaveField => 337,
            SendOpcodes::SnowBallState => 338,
            SendOpcodes::SnowBallHit => 339,
            SendOpcodes::SnowBallMsg => 340,
            SendOpcodes::SnowBallTouch => 341,
            SendOpcodes::CoconutHit => 342,
            SendOpcodes::CoconutScore => 343,
            SendOpcodes::HealerMove => 344,
            SendOpcodes::PulleyStateChange => 345,
            SendOpcodes::MCarnivalEnter => 346,
            SendOpcodes::MCarnivalPersonalCP => 347,
            SendOpcodes::MCarnivalTeamCP => 348,
            SendOpcodes::MCarnivalResultSuccess => 349,
            SendOpcodes::MCarnivalResultFail => 350,
            SendOpcodes::MCarnivalDeath => 351,
            SendOpcodes::MCarnivalMemberOut => 352,
            SendOpcodes::MCarnivalGameResult => 353,
            SendOpcodes::ArenaScore => 354,
            SendOpcodes::BattlefieldEnter => 355,
            SendOpcodes::BattlefieldScore => 356,
            SendOpcodes::BattlefieldTeamChanged => 357,
            SendOpcodes::WitchtowerScore => 358,
            SendOpcodes::HontaleTimer => 359,
            SendOpcodes::ChaosZakumTimer => 360,
            SendOpcodes::HontailTimer => 361,
            SendOpcodes::ZakumTimer => 362,
            SendOpcodes::ScriptMessage => 363,
            SendOpcodes::OpenShopDlg => 364,
            SendOpcodes::ShopResult => 365,
            SendOpcodes::AdminShopResult => 366,
            SendOpcodes::AdminShopCommodity => 367,
            SendOpcodes::TrunkResult => 368,
            SendOpcodes::StoreBankGetAllResult => 369,
            SendOpcodes::StoreBankResult => 370,
            SendOpcodes::RPSGame => 371,
            SendOpcodes::Messenger => 372,
            SendOpcodes::MiniRoom => 373,
            SendOpcodes::Tournament => 374,
            SendOpcodes::TournamentMatchTable => 375,
            SendOpcodes::TournamentSetPrize => 376,
            SendOpcodes::TournamentNoticeUEW => 377,
            SendOpcodes::TournamentAvatarInfo => 378,
            SendOpcodes::WeddingProgress => 379,
            SendOpcodes::WeddingCremonyEnd => 380,
            SendOpcodes::Parcel => 381,
            SendOpcodes::CashShopChargeParamResult => 382,
            SendOpcodes::CashShopQueryCashResult => 383,
            SendOpcodes::CashShopCashItemResult => 384,
            SendOpcodes::CashShopPurchaseExpChanged => 385,
            SendOpcodes::CashShopGiftMateInfoResult => 386,
            SendOpcodes::CashShopCheckDuplicatedIDResult => 387,
            SendOpcodes::CashShopCheckNameChangePossibleResult => 388,
            SendOpcodes::CashShopRegisterNewCharacterResult => 389,
            SendOpcodes::CashShopCheckTransferWorldPossibleResult => 390,
            SendOpcodes::CashShopGachaponStampItemResult => 391,
            SendOpcodes::CashShopCashItemGachaponResult => 392,
            SendOpcodes::CashShopCashGachaponOpenResult => 393,
            SendOpcodes::ChangeShroomPointResult => 394,
            SendOpcodes::CashShopOneADay => 395,
            SendOpcodes::CashShopNoticeFreeCashItem => 396,
            SendOpcodes::CashShopMemberShopResult => 397,
            SendOpcodes::FuncKeyMappedInit => 398,
            SendOpcodes::PetConsumeItemInit => 399,
            SendOpcodes::PetConsumeMPItemInit => 400,
            SendOpcodes::CheckSSN2OnCreateNewCharacterResult => 401,
            SendOpcodes::CheckSPWOnCreateNewCharacterResult => 402,
            SendOpcodes::FirstSSNOnCreateNewCharacterResult => 403,
            SendOpcodes::ShroomTVUpdateMessage => 405,
            SendOpcodes::ShroomTVClearMessage => 406,
            SendOpcodes::ShroomTVSendMessageResult => 407,
            SendOpcodes::BroadSetFlashChangeEvent => 408,
            SendOpcodes::ITCChargeParamResult => 410,
            SendOpcodes::ITCQueryCashResult => 411,
            SendOpcodes::ITCNormalItemResult => 412,
            SendOpcodes::CheckDuplicatedIDResultInCS => 413,
            SendOpcodes::CreateNewCharacterResultInCS => 414,
            SendOpcodes::CreateNewCharacterFailInCS => 415,
            SendOpcodes::CharacterSale => 416,
            SendOpcodes::GoldHammereS => 417,
            SendOpcodes::GoldHammerResult => 418,
            SendOpcodes::GoldHammereE => 419,
            SendOpcodes::BattleRecordS => 420,
            SendOpcodes::BattleRecordDotDamageInfo => 421,
            SendOpcodes::BattleRecordRequestResult => 422,
            SendOpcodes::ItemUpgradeResult => 425,
            SendOpcodes::ItemUpgradeFail => 426,
            SendOpcodes::VegaResult => 429,
            SendOpcodes::VegaFail => 430,
            SendOpcodes::LogoutGift => 432,
        }
    }
}

impl FromSpecImpl<SendOpcodes> for u16 {
    open spec fn obeys_from_spec() -> bool {
        true
    }

    open spec fn from_spec(v: SendOpcodes) -> u16 {
        v.code_of()
    }
}

impl TryFrom<u16> for SendOpcodes {
    type Error = PacketError;

    fn try_from(c: u16) -> (r: Result<SendOpcodes, PacketError>) {
        match c {
            0 => Ok(SendOpcodes::CheckPasswordResult),
            1 => Ok(SendOpcodes::GuestIDLoginResult),
            2 => Ok(SendOpcodes::AccountInfoResult),
            3 => Ok(SendOpcodes::CheckUserLimitResult),
            4 => Ok(SendOpcodes::SetAccountResult),
            5 => Ok(SendOpcodes::ConfirmEULAResult),
            6 => Ok(SendOpcodes::CheckPinCodeResult),
            7 => Ok(SendOpcodes::UpdatePinCodeResult),
            8 => Ok(SendOpcodes::ViewAllCharResult),
            9 => Ok(SendOpcodes::SelectCharacterByVACResult),
            10 => Ok(SendOpcodes::WorldInformation),
            11 => Ok(SendOpcodes::SelectWorldResult),
            12 => Ok(SendOpcodes::SelectCharacterResult),
            13 => Ok(SendOpcodes::CheckDuplicatedIDResult),
            14 => Ok(SendOpcodes::CreateNewCharacterResult),
            15 => Ok(SendOpcodes::DeleteCharacterResult),
            16 => Ok(SendOpcodes::MigrateCommand),
            17 => Ok(SendOpcodes::AliveReq),
            18 => Ok(SendOpcodes::AuthenCodeChanged),
            19 => Ok(SendOpcodes::AuthenMessage),
            20 => Ok(SendOpcodes::SecurityPacket),
            21 => Ok(SendOpcodes::EnableSPWResult),
            22 => Ok(SendOpcodes::DeleteCharacterOTPRequest),
            23 => Ok(SendOpcodes::CheckCrcResult),
            24 => Ok(SendOpcodes::LatestConnectedWorld),
            25 => Ok(SendOpcodes::RecommendWorldMessage),
            26 => Ok(SendOpcodes::CheckExtraCharInfoResult),
            27 => Ok(SendOpcodes::CheckSPWResult),
            28 => Ok(SendOpcodes::InventoryOperation),
            29 => Ok(SendOpcodes::InventoryGrow),
            30 => Ok(SendOpcodes::StatChanged),
            31 => Ok(SendOpcodes::TemporaryStatSet),
            32 => Ok(SendOpcodes::TemporaryStatReset),
            33 => Ok(SendOpcodes::ForcedStatSet),
            34 => Ok(SendOpcodes::ForcedStatReset),
            35 => Ok(SendOpcodes::ChangeSkillRecordResult),
            36 => Ok(SendOpcodes::SkillUseResult),
            37 => Ok(SendOpcodes::GivePopularityResult),
            38 => Ok(SendOpcodes::Message),
            39 => Ok(SendOpcodes::SendOpenFullClientLink),
            40 => Ok(SendOpcodes::MemoResult),
            41 => Ok(SendOpcodes::MapTransferResult),
            42 => Ok(SendOpcodes::AntiMacroResult),
            43 => Ok(SendOpcodes::InitialQuizStart),
            44 => Ok(SendOpcodes::ClaimResult),
            45 => Ok(SendOpcodes::SetClaimSvrAvailableTime),
            46 => Ok(SendOpcodes::ClaimSvrStatusChanged),
            47 => Ok(SendOpcodes::SetTamingMobInfo),
            48 => Ok(SendOpcodes::QuestClear),
            49 => Ok(SendOpcodes::EntrustedShopCheckResult),
            50 => Ok(SendOpcodes::SkillLearnItemResult),
            51 => Ok(SendOpcodes::SkillResetItemResult),
            52 => Ok(SendOpcodes::GatherItemResult),
            53 => Ok(SendOpcodes::SortItemResult),
            54 => Ok(SendOpcodes::RemoteShopOpenResult),
            55 => Ok(SendOpcodes::SueCharacterResult),
            56 => Ok(SendOpcodes::MigrateToCashShopResult),
            57 => Ok(SendOpcodes::TradeMoneyLimit),
            58 => Ok(SendOpcodes::SetGender),
            59 => Ok(SendOpcodes::GuildBBS),
            60 => Ok(SendOpcodes::PetDeadMessage),
            61 => Ok(SendOpcodes::CharacterInfo),
            62 => Ok(SendOpcodes::PartyResult),
            63 => Ok(SendOpcodes::ExpeditionRequest),
            64 => Ok(SendOpcodes::ExpeditionNoti),
            65 => Ok(SendOpcodes::FriendResult),
            66 => Ok(SendOpcodes::GuildRequest),
            67 => Ok(SendOpcodes::GuildResult),
            68 => Ok(SendOpcodes::AllianceResult),
            69 => Ok(SendOpcodes::TownPortal),
            70 => Ok(SendOpcodes::OpenGate),
            71 => Ok(SendOpcodes::BroadcastMsg),
            72 => Ok(SendOpcodes::IncubatorResult),
            73 => Ok(SendOpcodes::ShopScannerResult),
            74 => Ok(SendOpcodes::ShopLinkResult),
            75 => Ok(SendOpcodes::MarriageRequest),
            76 => Ok(SendOpcodes::MarriageResult),
            77 => Ok(SendOpcodes::WeddingGiftResult),
            78 => Ok(SendOpcodes::MarriedPartnerMapTransfer),
            79 => Ok(SendOpcodes::CashPetFoodResult),
            80 => Ok(SendOpcodes::SetWeekEventMessage),
            81 => Ok(SendOpcodes::SetPotionDiscountRate),
            82 => Ok(SendOpcodes::BridleMobCatchFail),
            83 => Ok(SendOpcodes::ImitatedNPCResult),
            84 => Ok(SendOpcodes::ImitatedNPCData),
            85 => Ok(SendOpcodes::LimitedNPCDisableInfo),
            86 => Ok(SendOpcodes::MonsterBookSetCard),
            87 => Ok(SendOpcodes::MonsterBookSetCover),
            88 => Ok(SendOpcodes::HourChanged),
            89 => Ok(SendOpcodes::MiniMapOnOff),
            90 => Ok(SendOpcodes::ConsultAuthkeyUpdate),
            91 => Ok(SendOpcodes::ClassCompetitionAuthkeyUpdate),
            92 => Ok(SendOpcodes::WebBoardAuthkeyUpdate),
            93 => Ok(SendOpcodes::SessionValue),
            94 => Ok(SendOpcodes::PartyValue),
            95 => Ok(SendOpcodes::FieldSetVariable),
            96 => Ok(SendOpcodes::BonusExpRateChanged),
            97 => Ok(SendOpcodes::PotionDiscountRateChanged),
            98 => Ok(SendOpcodes::FamilyChartResult),
            99 => Ok(SendOpcodes::FamilyInfoResult),
            100 => Ok(SendOpcodes::FamilyResult),
            101 => Ok(SendOpcodes::FamilyJoinRequest),
            102 => Ok(SendOpcodes::FamilyJoinRequestResult),
            103 => Ok(SendOpcodes::FamilyJoinAccepted),
            104 => Ok(SendOpcodes::FamilyPrivilegeList),
            105 => Ok(SendOpcodes::FamilyFamousPointIncResult),
            106 => Ok(SendOpcodes::FamilyNotifyLoginOrLogout),
            107 => Ok(SendOpcodes::FamilySetPrivilege),
            108 => Ok(SendOpcodes::FamilySummonRequest),
            109 => Ok(SendOpcodes::NotifyLevelUp),
            110 => Ok(SendOpcodes::NotifyWedding),
            111 => Ok(SendOpcodes::NotifyJobChange),
            112 => Ok(SendOpcodes::IncRateChanged),
            113 => Ok(SendOpcodes::ShroomTVUseRes),
            114 => Ok(SendOpcodes::AvatarMegaphoneRes),
            115 => Ok(SendOpcodes::AvatarMegaphoneUpdateMessage),
            116 => Ok(SendOpcodes::AvatarMegaphoneClearMessage),
            117 => Ok(SendOpcodes::CancelNameChangeResult),
            118 => Ok(SendOpcodes::CancelTransferWorldResult),
            119 => Ok(SendOpcodes::DestroyShopResult),
            120 => Ok(SendOpcodes::FAKEGMNOTICE),
            121 => Ok(SendOpcodes::SuccessInUseGachaponBox),
            122 => Ok(SendOpcodes::NewYearCardRes),
            123 => Ok(SendOpcodes::RandomMorphRes),
            124 => Ok(SendOpcodes::CancelNameChangeByOther),
            125 => Ok(SendOpcodes::SetBuyEquipExt),
            126 => Ok(SendOpcodes::SetPassenserRequest),
            127 => Ok(SendOpcodes::ScriptProgressMessage),
            128 => Ok(SendOpcodes::DataCRCCheckFailed),
            129 => Ok(SendOpcodes::CakePieEventResult),
            130 => Ok(SendOpcodes::UpdateGMBoard),
            131 => Ok(SendOpcodes::ShowSlotMessage),
            132 => Ok(SendOpcodes::WildHunterInfo),
            133 => Ok(SendOpcodes::AccountMoreInfo),
            134 => Ok(SendOpcodes::FindFirend),
            135 => Ok(SendOpcodes::StageChange),
            136 => Ok(SendOpcodes::DragonBallBox),
            137 => Ok(SendOpcodes::AskUserWhetherUsePamsSong),
            138 => Ok(SendOpcodes::TransferChannel),
            139 => Ok(SendOpcodes::DisallowedDeliveryQuestList),
            140 => Ok(SendOpcodes::MacroSysDataInit),
            141 => Ok(SendOpcodes::SetField),
            142 => Ok(SendOpcodes::SetITC),
            143 => Ok(SendOpcodes::SetCashShop),
            144 => Ok(SendOpcodes::SetBackgroundEffect),
            145 => Ok(SendOpcodes::SetMapObjectVisible),
            146 => Ok(SendOpcodes::ClearBackgroundEffect),
            147 => Ok(SendOpcodes::TransferFieldReqIgnored),
            148 => Ok(SendOpcodes::TransferChannelReqIgnored),
            149 => Ok(SendOpcodes::FieldSpecificData),
            150 => Ok(SendOpcodes::GroupMessage),
            151 => Ok(SendOpcodes::Whisper),
            152 => Ok(SendOpcodes::CoupleMessage),
            153 => Ok(SendOpcodes::MobSummonItemUseResult),
            154 => Ok(SendOpcodes::FieldEffect),
            155 => Ok(SendOpcodes::FieldObstacleOnOff),
            156 => Ok(SendOpcodes::FieldObstacleOnOffStatus),
            157 => Ok(SendOpcodes::FieldObstacleAllReset),
            158 => Ok(SendOpcodes::BlowWeather),
            159 => Ok(SendOpcodes::PlayJukeBox),
            160 => Ok(SendOpcodes::AdminResult),
            161 => Ok(SendOpcodes::FieldQuiz),
            162 => Ok(SendOpcodes::Desc),
            163 => Ok(SendOpcodes::Clock),
            164 => Ok(SendOpcodes::CONTIMOVE),
            165 => Ok(SendOpcodes::CONTISTATE),
            166 => Ok(SendOpcodes::SetQuestClear),
            167 => Ok(SendOpcodes::SetQuestTime),
            168 => Ok(SendOpcodes::Warn),
            169 => Ok(SendOpcodes::SetObjectState),
            170 => Ok(SendOpcodes::DestroyClock),
            171 => Ok(SendOpcodes::ShowArenaResult),
            172 => Ok(SendOpcodes::StalkResult),
            173 => Ok(SendOpcodes::MassacreIncGauge),
            174 => Ok(SendOpcodes::MassacreResult),
            175 => Ok(SendOpcodes::QuickslotMappedInit),
            176 => Ok(SendOpcodes::FootHoldInfo),
            177 => Ok(SendOpcodes::RequestFootHoldInfo),
            178 => Ok(SendOpcodes::FieldKillCount),
            179 => Ok(SendOpcodes::UserEnterField),
            180 => Ok(SendOpcodes::UserLeaveField),
            181 => Ok(SendOpcodes::UserChat),
            182 => Ok(SendOpcodes::UserChatNLCPQ),
            183 => Ok(SendOpcodes::UserADBoard),
            184 => Ok(SendOpcodes::UserMiniRoomBalloon),
            185 => Ok(SendOpcodes::UserConsumeItemEffect),
            186 => Ok(SendOpcodes::UserItemUpgradeEffect),
            187 => Ok(SendOpcodes::UserItemHyperUpgradeEffect),
            188 => Ok(SendOpcodes::UserItemOptionUpgradeEffect),
            189 => Ok(SendOpcodes::UserItemReleaseEffect),
            190 => Ok(SendOpcodes::UserItemUnreleaseEffect),
            191 => Ok(SendOpcodes::UserHitByUser),
            192 => Ok(SendOpcodes::UserTeslaTriangle),
            193 => Ok(SendOpcodes::UserFollowCharacter),
            194 => Ok(SendOpcodes::UserShowPQReward),
            195 => Ok(SendOpcodes::UserSetPhase),
            196 => Ok(SendOpcodes::SetPortalUsable),
            197 => Ok(SendOpcodes::UserShowRecoverUpgradeCountEffect),
            198 => Ok(SendOpcodes::PetActivated),
            199 => Ok(SendOpcodes::PetEvol),
            200 => Ok(SendOpcodes::PetTransferField),
            201 => Ok(SendOpcodes::PetMove),
            202 => Ok(SendOpcodes::PetAction),
            203 => Ok(SendOpcodes::PetNameChanged),
            204 => Ok(SendOpcodes::PetLoadExceptionList),
            205 => Ok(SendOpcodes::PetActionCommand),
            206 => Ok(SendOpcodes::DragonEnterField),
            207 => Ok(SendOpcodes::DragonMove),
            208 => Ok(SendOpcodes::DragonLeaveField),
            210 => Ok(SendOpcodes::UserMove),
            211 => Ok(SendOpcodes::UserMeleeAttack),
            212 => Ok(SendOpcodes::UserShootAttack),
            213 => Ok(SendOpcodes::UserMagicAttack),
            214 => Ok(SendOpcodes::UserBodyAttack),
            215 => Ok(SendOpcodes::UserSkillPrepare),
            216 => Ok(SendOpcodes::UserMovingShootAttackPrepare),
            217 => Ok(SendOpcodes::UserSkillCancel),
            218 => Ok(SendOpcodes::UserHit),
            219 => Ok(SendOpcodes::UserEmotion),
            220 => Ok(SendOpcodes::UserSetActiveEffectItem),
            221 => Ok(SendOpcodes::UserShowUpgradeTombEffect),
            222 => Ok(SendOpcodes::UserSetActivePortableChair),
            223 => Ok(SendOpcodes::UserAvatarModified),
            224 => Ok(SendOpcodes::UserEffectRemote),
            225 => Ok(SendOpcodes::UserTemporaryStatSet),
            226 => Ok(SendOpcodes::UserTemporaryStatReset),
            227 => Ok(SendOpcodes::UserHP),
            228 => Ok(SendOpcodes::UserGuildNameChanged),
            229 => Ok(SendOpcodes::UserGuildMarkChanged),
            230 => Ok(SendOpcodes::UserThrowGrenade),
            231 => Ok(SendOpcodes::UserSitResult),
            232 => Ok(SendOpcodes::UserEmotionLocal),
            233 => Ok(SendOpcodes::UserEffectLocal),
            234 => Ok(SendOpcodes::UserTeleport),
            235 => Ok(SendOpcodes::Premium),
            236 => Ok(SendOpcodes::MesoGiveSucceeded),
            237 => Ok(SendOpcodes::MesoGiveFailed),
            238 => Ok(SendOpcodes::RandomMesobagSucceed),
            239 => Ok(SendOpcodes::RandomMesobagFailed),
            240 => Ok(SendOpcodes::FieldFadeInOut),
            241 => Ok(SendOpcodes::FieldFadeOutForce),
            242 => Ok(SendOpcodes::UserQuestResult),
            243 => Ok(SendOpcodes::NotifyHPDecByField),
            244 => Ok(SendOpcodes::UserPetSkillChanged),
            245 => Ok(SendOpcodes::UserBalloonMsg),
            246 => Ok(SendOpcodes::PlayEventSound),
            247 => Ok(SendOpcodes::PlayMinigameSound),
            248 => Ok(SendOpcodes::UserMakerResult),
            249 => Ok(SendOpcodes::UserOpenConsultBoard),
            250 => Ok(SendOpcodes::UserOpenClassCompetitionPage),
            251 => Ok(SendOpcodes::UserOpenUI),
            252 => Ok(SendOpcodes::UserOpenUIWithOption),
            253 => Ok(SendOpcodes::SetDirectionMode),
            254 => Ok(SendOpcodes::SetStandAloneMode),
            255 => Ok(SendOpcodes::UserHireTutor),
            256 => Ok(SendOpcodes::UserTutorMsg),
            257 => Ok(SendOpcodes::IncCombo),
            258 => Ok(SendOpcodes::UserRandomEmotion),
            259 => Ok(SendOpcodes::ResignQuestReturn),
            260 => Ok(SendOpcodes::PassMateName),
            261 => Ok(SendOpcodes::SetRadioSchedule),
            262 => Ok(SendOpcodes::UserOpenSkillGuide),
            263 => Ok(SendOpcodes::UserNoticeMsg),
            264 => Ok(SendOpcodes::UserChatMsg),
            265 => Ok(SendOpcodes::UserBuffzoneEffect),
            266 => Ok(SendOpcodes::UserGoToCommoditySN),
            267 => Ok(SendOpcodes::UserDamageMeter),
            268 => Ok(SendOpcodes::UserTimeBombAttack),
            269 => Ok(SendOpcodes::UserPassiveMove),
            270 => Ok(SendOpcodes::UserFollowCharacterFailed),
            271 => Ok(SendOpcodes::UserRequestVengeance),
            272 => Ok(SendOpcodes::UserRequestExJablin),
            273 => Ok(SendOpcodes::UserAskAPSPEvent),
            274 => Ok(SendOpcodes::QuestGuideResult),
            275 => Ok(SendOpcodes::UserDeliveryQuest),
            276 => Ok(SendOpcodes::SkillCooltimeSet),
            278 => Ok(SendOpcodes::SummonedEnterField),
            279 => Ok(SendOpcodes::SummonedLeaveField),
            280 => Ok(SendOpcodes::SummonedMove),
            281 => Ok(SendOpcodes::SummonedAttack),
            282 => Ok(SendOpcodes::SummonedSkill),
            283 => Ok(SendOpcodes::SummonedHit),
            284 => Ok(SendOpcodes::MobEnterField),
            285 => Ok(SendOpcodes::MobLeaveField),
            286 => Ok(SendOpcodes::MobChangeController),
            287 => Ok(SendOpcodes::MobMove),
            288 => Ok(SendOpcodes::MobCtrlAck),
            289 => Ok(SendOpcodes::MobCtrlHint),
            290 => Ok(SendOpcodes::MobStatSet),
            291 => Ok(SendOpcodes::MobStatReset),
            292 => Ok(SendOpcodes::MobSuspendReset),
            293 => Ok(SendOpcodes::MobAffected),
            294 => Ok(SendOpcodes::MobDamaged),
            295 => Ok(SendOpcodes::MobSpecialEffectBySkill),
            296 => Ok(SendOpcodes::MobHPChange),
            297 => Ok(SendOpcodes::MobCrcKeyChanged),
            298 => Ok(SendOpcodes::MobHPIndicator),
            299 => Ok(SendOpcodes::MobCatchEffect),
            300 => Ok(SendOpcodes::MobEffectByItem),
            301 => Ok(SendOpcodes::MobSpeaking),
            302 => Ok(SendOpcodes::MobChargeCount),
            303 => Ok(SendOpcodes::MobSkillDelay),
            304 => Ok(SendOpcodes::MobRequestResultEscortInfo),
            305 => Ok(SendOpcodes::MobEscortStopEndPermmision),
            306 => Ok(SendOpcodes::MobEscortStopSay),
            307 => Ok(SendOpcodes::MobEscortReturnBefore),
            308 => Ok(SendOpcodes::MobNextAttack),
            309 => Ok(SendOpcodes::MobAttackedByMob),
            311 => Ok(SendOpcodes::NpcEnterField),
            312 => Ok(SendOpcodes::NpcLeaveField),
            313 => Ok(SendOpcodes::NpcChangeController),
            314 => Ok(SendOpcodes::NpcMove),
            315 => Ok(SendOpcodes::NpcUpdateLimitedInfo),
            316 => Ok(SendOpcodes::NpcSpecialAction),
            317 => Ok(SendOpcodes::NpcSetScript),
            319 => Ok(SendOpcodes::EmployeeEnterField),
            320 => Ok(SendOpcodes::EmployeeLeaveField),
            321 => Ok(SendOpcodes::EmployeeMiniRoomBalloon),
            322 => Ok(SendOpcodes::DropEnterField),
            323 => Ok(SendOpcodes::DropReleaseAllFreeze),
            324 => Ok(SendOpcodes::DropLeaveField),
            325 => Ok(SendOpcodes::CreateMessgaeBoxFailed),
            326 => Ok(SendOpcodes::MessageBoxEnterField),
            327 => Ok(SendOpcodes::MessageBoxLeaveField),
            328 => Ok(SendOpcodes::AffectedAreaCreated),
            329 => Ok(SendOpcodes::AffectedAreaRemoved),
            330 => Ok(SendOpcodes::TownPortalCreated),
            331 => Ok(SendOpcodes::TownPortalRemoved),
            332 => Ok(SendOpcodes::OpenGateCreated),
            333 => Ok(SendOpcodes::OpenGateRemoved),
            334 => Ok(SendOpcodes::ReactorChangeState),
            335 => Ok(SendOpcodes::ReactorMove),
            336 => Ok(SendOpcodes::ReactorEnterField),
            337 => Ok(SendOpcodes::ReactorLeaveField),
            338 => Ok(SendOpcodes::SnowBallState),
            339 => Ok(SendOpcodes::SnowBallHit),
            340 => Ok(SendOpcodes::SnowBallMsg),
            341 => Ok(SendOpcodes::SnowBallTouch),
            342 => Ok(SendOpcodes::CoconutHit),
            343 => Ok(SendOpcodes::CoconutScore),
            344 => Ok(SendOpcodes::HealerMove),
            345 => Ok(SendOpcodes::PulleyStateChange),
            346 => Ok(SendOpcodes::MCarnivalEnter),
            347 => Ok(SendOpcodes::MCarnivalPersonalCP),
            348 => Ok(SendOpcodes::MCarnivalTeamCP),
            349 => Ok(SendOpcodes::MCarnivalResultSuccess),
            350 => Ok(SendOpcodes::MCarnivalResultFail),
            351 => Ok(SendOpcodes::MCarnivalDeath),
            352 => Ok(SendOpcodes::MCarnivalMemberOut),
            353 => Ok(SendOpcodes::MCarnivalGameResult),
            354 => Ok(SendOpcodes::ArenaScore),
            355 => Ok(SendOpcodes::BattlefieldEnter),
            356 => Ok(SendOpcodes::BattlefieldScore),
            357 => Ok(SendOpcodes::BattlefieldTeamChanged),
            358 => Ok(SendOpcodes::WitchtowerScore),
            359 => Ok(SendOpcodes::HontaleTimer),
            360 => Ok(SendOpcodes::ChaosZakumTimer),
            361 => Ok(SendOpcodes::HontailTimer),
            362 => Ok(SendOpcodes::ZakumTimer),
            363 => Ok(SendOpcodes::ScriptMessage),
            364 => Ok(SendOpcodes::OpenShopDlg),
            365 => Ok(SendOpcodes::ShopResult),
            366 => Ok(SendOpcodes::AdminShopResult),
            367 => Ok(SendOpcodes::AdminShopCommodity),
            368 => Ok(SendOpcodes::TrunkResult),
            369 => Ok(SendOpcodes::StoreBankGetAllResult),
            370 => Ok(SendOpcodes::StoreBankResult),
            371 => Ok(SendOpcodes::RPSGame),
            372 => Ok(SendOpcodes::Messenger),
            373 => Ok(SendOpcodes::MiniRoom),
            374 => Ok(SendOpcodes::Tournament),
            375 => Ok(SendOpcodes::TournamentMatchTable),
            376 => Ok(SendOpcodes::TournamentSetPrize),
            377 => Ok(SendOpcodes::TournamentNoticeUEW),
            378 => Ok(SendOpcodes::TournamentAvatarInfo),
            379 => Ok(SendOpcodes::WeddingProgress),
            380 => Ok(SendOpcodes::WeddingCremonyEnd),
            381 => Ok(SendOpcodes::Parcel),
            382 => Ok(SendOpcodes::CashShopChargeParamResult),
            383 => Ok(SendOpcodes::CashShopQueryCashResult),
            384 => Ok(SendOpcodes::CashShopCashItemResult),
            385 => Ok(SendOpcodes::CashShopPurchaseExpChanged),
            386 => Ok(SendOpcodes::CashShopGiftMateInfoResult),
            387 => Ok(SendOpcodes::CashShopCheckDuplicatedIDResult),
            388 => Ok(SendOpcodes::CashShopCheckNameChangePossibleResult),
            389 => Ok(SendOpcodes::CashShopRegisterNewCharacterResult),
            390 => Ok(SendOpcodes::CashShopCheckTransferWorldPossibleResult),
            391 => Ok(SendOpcodes::CashShopGachaponStampItemResult),
            392 => Ok(SendOpcodes::CashShopCashItemGachaponResult),
            393 => Ok(SendOpcodes::CashShopCashGachaponOpenResult),
            394 => Ok(SendOpcodes::ChangeShroomPointResult),
            395 => Ok(SendOpcodes::CashShopOneADay),
            396 => Ok(SendOpcodes::CashShopNoticeFreeCashItem),
            397 => Ok(SendOpcodes::CashShopMemberShopResult),
            398 => Ok(SendOpcodes::FuncKeyMappedInit),
            399 => Ok(SendOpcodes::PetConsumeItemInit),
            400 => Ok(SendOpcodes::PetConsumeMPItemInit),
            401 => Ok(SendOpcodes::CheckSSN2OnCreateNewCharacterResult),
            402 => Ok(SendOpcodes::CheckSPWOnCreateNewCharacterResult),
            403 => Ok(SendOpcodes::FirstSSNOnCreateNewCharacterResult),
            405 => Ok(SendOpcodes::ShroomTVUpdateMessage),
            406 => Ok(SendOpcodes::ShroomTVClearMessage),
            407 => Ok(SendOpcodes::ShroomTVSendMessageResult),
            408 => Ok(SendOpcodes::BroadSetFlashChangeEvent),
            410 => Ok(SendOpcodes::ITCChargeParamResult),
            411 => Ok(SendOpcodes::ITCQueryCashResult),
            412 => Ok(SendOpcodes::ITCNormalItemResult),
            413 => Ok(SendOpcodes::CheckDuplicatedIDResultInCS),
            414 => Ok(SendOpcodes::CreateNewCharacterResultInCS),
            415 => Ok(SendOpcodes::CreateNewCharacterFailInCS),
            416 => Ok(SendOpcodes::CharacterSale),
            417 => Ok(SendOpcodes::GoldHammereS),
            418 => Ok(SendOpcodes::GoldHammerResult),
            419 => Ok(SendOpcodes::GoldHammereE),
            420 => Ok(SendOpcodes::BattleRecordS),
            421 => Ok(SendOpcodes::BattleRecordDotDamageInfo),
            422 => Ok(SendOpcodes::BattleRecordRequestResult),
            425 => Ok(SendOpcodes::ItemUpgradeResult),
            426 => Ok(SendOpcodes::ItemUpgradeFail),
            429 => Ok(SendOpcodes::VegaResult),
            430 => Ok(SendOpcodes::VegaFail),
            432 => Ok(SendOpcodes::LogoutGift),
            _ => Err(PacketError::InvalidEnumPrimitive(c as u32)),
        }
    }
}

impl TryFromSpecImpl<u16> for SendOpcodes {
    open spec fn obeys_try_from_spec() -> bool {
        true
    }

    open spec fn try_from_spec(c: u16) -> Result<SendOpcodes, PacketError> {
        match SendOpcodes::of_code(c) {
            Some(v) => Ok(v),
            None => Err(PacketError::InvalidEnumPrimitive(c as u32)),
        }
    }
}

} // verus!

use shroom_proto95::drop::{DropEnterType, DropLeaveType, DropOwner};
use shroom_proto95::error::PacketError;
use shroom_proto95::field::{
    is_true, CakeEventEffect, DojangEffect, FieldEffectResp, FieldTransferData, NotificationList,
    PlusOneListIndex,
};
use shroom_proto95::inventory::{CharEquipSlot, UserSitReq, WhiteScrollFlag};
use shroom_proto95::item::ItemFlags;
use shroom_proto95::key_map::{FuncKey, FuncKeyMapInitResp, QuickSlotInitResp, FUNC_KEYS};
use shroom_proto95::login::{has_world_info, SetGenderReq, StartMode, WorldInfoResp, WorldItem, WorldState};
use shroom_proto95::mob::TagPoint;
use shroom_proto95::quest::{ConstantU8, UserQuestReq, UserQuestResultResp};
use shroom_proto95::secondary_stats::{CharSecondaryStatFlags, CharSecondaryTwoStatesFlags};
use shroom_proto95::shared::{Gender, OptionGender, ServerAddr};
use shroom_proto95::shop::{ShopBuy, ShopResultResp, ShopUserReq};

#[test]
fn option_gender_roundtrip() {
    for g in [OptionGender::Male, OptionGender::Female, OptionGender::Unset] {
        assert_eq!(OptionGender::from(g.as_option()), g);
        assert_eq!(g.is_set(), !g.is_unset());
        assert_eq!(g.is_set(), g.as_option().is_some());
        assert_eq!(Option::<Gender>::from(g), g.as_option());
    }
    for g in [None, Some(Gender::Male), Some(Gender::Female)] {
        assert_eq!(OptionGender::from(g).as_option(), g);
    }
    assert_eq!(OptionGender::default(), OptionGender::Male);
    assert_eq!(Gender::default(), Gender::Male);
    assert_eq!(u8::from(OptionGender::Unset), 10);
    assert_eq!(OptionGender::try_from(10u8), Ok(OptionGender::Unset));
    assert_eq!(
        OptionGender::try_from(2u8),
        Err(PacketError::InvalidEnumPrimitive(2))
    );
}

#[test]
fn server_addr_octets() {
    let a = ServerAddr::from([127, 0, 0, 1]);
    assert_eq!(<[u8; 4]>::from(a), [127, 0, 0, 1]);
}

#[test]
fn start_mode_and_world_list() {
    assert!(StartMode::Unknown1.has_system_info());
    assert!(!StartMode::WebStart.has_system_info());
    assert!(!has_world_info(&0xff));
    assert!(has_world_info(&0));
    let end = WorldInfoResp::end();
    assert_eq!(end.world_id, 0xff);
    assert!(end.world.is_none());
    let w = WorldInfoResp::world(
        3,
        WorldItem {
            name: "Scania".to_string(),
            state: WorldState::Hot,
            event_desc: String::new(),
            event_exp: 100,
            event_drop_rate: 100,
            block_char_creation: false,
            channels: vec![],
            balloons: vec![],
        },
    );
    assert_eq!(w.world_id, 3);
    assert_eq!(w.world.unwrap().name, "Scania");
    assert_eq!(SetGenderReq::set(Gender::Female).gender, Some(Gender::Female));
    assert_eq!(SetGenderReq::cancel().gender, None);
}

#[test]
fn equip_slots_and_sitting() {
    assert!(CharEquipSlot::Hat.can_swap(&CharEquipSlot::Hat));
    assert!(!CharEquipSlot::Ring1.can_swap(&CharEquipSlot::Ring2));
    assert_eq!(u8::from(CharEquipSlot::PetItem), 0x16);
    assert_eq!(CharEquipSlot::try_from(0x64u8), Ok(CharEquipSlot::Sticker));
    assert!(CharEquipSlot::try_from(0x34u8).is_err());
    assert_eq!(UserSitReq::get_up().seat_id, u16::MAX);
    assert_eq!(UserSitReq::seat(4).seat_id, 4);
    assert!(bool::from(WhiteScrollFlag::Used));
    assert!(!bool::from(WhiteScrollFlag::Unset));
}

#[test]
fn item_flags() {
    let mut f = ItemFlags::empty();
    assert_eq!(f.bits(), 0);
    f.insert(ItemFlags::Protected);
    f.insert(ItemFlags::Sandbox);
    assert!(f.contains(ItemFlags::Protected | ItemFlags::Sandbox));
    assert!(!f.contains(ItemFlags::PetCome));
    assert_eq!(ItemFlags::from_bits_truncate(0xFFFF).bits(), 0x3DF);
}

#[test]
fn secondary_stat_flags() {
    let all = CharSecondaryStatFlags::from_bits_truncate(u128::MAX);
    assert!(all.is_movement_affecting());
    assert!(all.has_swallow_stats());
    assert_eq!(all.to_two_state_flags().bits(), 0x3F << 0x7A);
    let speed = CharSecondaryStatFlags::from_bits_truncate(CharSecondaryStatFlags::Speed);
    assert!(!speed.is_movement_affecting());
    assert_eq!(speed.to_two_state_flags().bits(), 0);
    let dash = CharSecondaryStatFlags::from_bits_truncate(CharSecondaryStatFlags::DashJump);
    assert_eq!(
        dash.to_two_state_flags().bits(),
        CharSecondaryTwoStatesFlags::DashJump
    );
}

#[test]
fn notification_list() {
    let list = NotificationList::chat_banned("spam", &["a", "b"]);
    assert_eq!(list.0, vec!["spam".to_string(), "a".to_string(), "b".to_string()]);
    assert_eq!(list.ban_reason(), Some("spam"));
    assert_eq!(list.extra(), vec!["a", "b"]);
    let empty = NotificationList::default();
    assert_eq!(empty.ban_reason(), None);
    assert!(empty.extra().is_empty());
    assert_eq!(PlusOneListIndex(0).to_len(), 0);
    assert_eq!(PlusOneListIndex(2).to_len(), 3);
    assert_eq!(PlusOneListIndex::from_len(0).0, 0);
    assert_eq!(PlusOneListIndex::from_len(2).0, 1);
    assert_eq!(PlusOneListIndex::from_len(3).to_len(), 3);
    assert_eq!(PlusOneListIndex::from_len(70000).0, 69999u32 as u16);
}

#[test]
fn field_effects() {
    match CakeEventEffect::PieWin.into_effect() {
        FieldEffectResp::Screen(s) => assert_eq!(s, "event/5th/piewin"),
        _ => panic!("expected a screen effect"),
    }
    match DojangEffect::TimeOver.into_effect() {
        FieldEffectResp::Screen(s) => assert_eq!(s, "dojang/timeOver"),
        _ => panic!("expected a screen effect"),
    }
    assert_eq!(FieldEffectResp::Sound("x".to_string()).tag(), 4);
    let t = FieldTransferData {
        revive: false,
        map: 100,
        portal: 0,
        hp: 50,
        chase_target_pos: Some(TagPoint::new(1, 2)),
    };
    assert!(t.is_chase_enabled());
    assert!(is_true(&true));
}

#[test]
fn key_maps() {
    assert_eq!(FuncKeyMapInitResp::from(None).tag(), 1);
    match FuncKeyMapInitResp::from(Some([FuncKey::default(); FUNC_KEYS])) {
        FuncKeyMapInitResp::KeyMap(keys) => assert_eq!(keys[0], FuncKey { ty: 0, action_id: 0 }),
        FuncKeyMapInitResp::DefaultMap => panic!("expected the key map"),
    }
    assert_eq!(QuickSlotInitResp::from(Some([1; 8])), QuickSlotInitResp::KeyMap([1; 8]));
    assert_eq!(QuickSlotInitResp::from(None), QuickSlotInitResp::DefaultMap);
}

#[test]
fn quest_markers_and_tags() {
    assert!(ConstantU8::<1>::check(1).is_ok());
    assert_eq!(
        ConstantU8::<1>::check(3).unwrap_err(),
        PacketError::InvalidEnumDiscriminant(3)
    );
    assert_eq!(ConstantU8::<1>::check(1).unwrap().value(), 1);
    assert_eq!(UserQuestReq::ResignQuest(7).tag(), 3);
    assert_eq!(UserQuestResultResp::ResetTimer(2).tag(), 18);
    assert_eq!(UserQuestResultResp::FailedTimeOver(2).tag(), 17);
}

#[test]
fn shop_tags() {
    assert_eq!(ShopResultResp::ServerMsg(None).tag(), 0x13);
    assert_eq!(ShopResultResp::LimitLevelMore(3).tag(), 0xF);
    assert_eq!(
        ShopUserReq::Buy(ShopBuy {
            pos: 0,
            tmpl_id: 1,
            count: 1
        })
        .tag(),
        0
    );
    assert_eq!(ShopUserReq::Close.tag(), 3);
}

#[test]
fn drops() {
    assert!(DropEnterType::Create.has_start_pos());
    assert!(DropLeaveType::try_from(200u8).is_err());
    let (id, ty) = <(u32, u8)>::from(DropOwner::User(5));
    assert_eq!(DropOwner::try_from((id, ty)), Ok(DropOwner::User(5)));
}

use shroom_proto95::friend::{FriendList, FriendResultResp, PetActivateError, PetLocalActivateResult};

#[test]
fn friends_and_pets() {
    let empty = FriendList::empty();
    assert_eq!(empty.len, 0);
    assert!(empty.friends.is_empty() && empty.in_shop.is_empty());
    assert_eq!(FriendResultResp::Reset(FriendList::empty()).tag(), 0);
    assert_eq!(FriendResultResp::MaxFriends(50).tag(), 0xe);
    assert_eq!(
        PetLocalActivateResult::Failed(PetActivateError::CannotSummon).tag(),
        0
    );
    assert_eq!(u8::from(PetActivateError::CannotSummon), 4);
}

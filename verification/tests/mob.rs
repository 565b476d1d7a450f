use shroom_proto95::error::PacketError;
use shroom_proto95::mob::{
    none_fly_target_point, ActionDir, CarnivalTeam, FlyTargetPoint, MobAction, MobCtrlTy,
    MobMoveFlags, MobMoveReqHeader, MobSkillData, MobSummonType, TagPoint,
};

#[test]
fn action_dir() {
    let a = ActionDir {
        left: true,
        action: MobAction::NONE,
    };

    assert_eq!(a, ActionDir::try_from(u8::from(a)).unwrap());

    let a = ActionDir {
        left: false,
        action: MobAction::NONE,
    };
    assert_eq!(a, ActionDir::try_from(u8::from(a)).unwrap());
}

#[test]
fn action_dir_byte_packs_facing_in_low_bit() {
    let a = ActionDir {
        left: true,
        action: MobAction::SKILL1,
    };
    assert_eq!(u8::from(a), (0x16 << 1) | 1);
    let b = ActionDir::try_from(0x2Cu8).unwrap();
    assert!(!b.left);
    assert_eq!(b.action, MobAction::SKILL1);
}

#[test]
fn action_dir_rejects_unknown_action() {
    // 0x2C (44) is no action code
    assert_eq!(
        ActionDir::try_from(44u8 << 1),
        Err(PacketError::InvalidEnumPrimitive(88))
    );
}

#[test]
fn mob_action_code_roundtrip() {
    for c in 0u8..=255 {
        if let Ok(a) = MobAction::try_from(c) {
            assert_eq!(u8::from(a), c);
        }
    }
    assert_eq!(
        MobAction::try_from(0x50u8),
        Err(PacketError::InvalidEnumPrimitive(0x50))
    );
}

#[test]
fn skill_and_attack_slots() {
    assert_eq!(MobAction::from_skill(0), MobAction::SKILL1);
    assert_eq!(MobAction::from_skill(15), MobAction::SKILL16);
    assert_eq!(MobAction::SKILL3.skill_id(), Some(2));
    assert_eq!(MobAction::ATTACK1.skill_id(), None);
    assert!(MobAction::SKILLF.is_skill());
    assert!(!MobAction::MOVE.is_skill());
    assert_eq!(MobAction::from_attack(0), MobAction::ATTACK1);
    assert_eq!(MobAction::ATTACK8.attack_id(), Some(7));
    assert!(MobAction::ATTACKF.is_attack());
    assert!(MobAction::NONE.is_none());
    assert!(!MobAction::STAND.is_none());
}

#[test]
fn skill_data_roundtrip() {
    let v: u32 = 0x1234_5678;
    let d = MobSkillData::from(v);
    assert_eq!(u32::from(d), v);
}

#[test]
fn ctrl_type_none() {
    assert!(MobCtrlTy::NoCtrl.is_none());
    assert!(!MobCtrlTy::NoCtrl.is_not_none());
    assert_eq!(MobCtrlTy::try_from(0u8), Ok(MobCtrlTy::NoCtrl));
    assert!(CarnivalTeam::try_from(200u8).is_err());
}

#[test]
fn fly_target_roundtrip() {
    let none = none_fly_target_point();
    assert_eq!(FlyTargetPoint::from(none).0, None);
    let p = TagPoint::new(5, -7);
    let f = FlyTargetPoint::from(p);
    assert_eq!(f.0, Some(p));
    assert_eq!(TagPoint::from(f), p);
    assert_eq!(TagPoint::from(FlyTargetPoint(None)), none);
}

#[test]
fn move_flags() {
    let f = MobMoveFlags::from_bits_truncate(0xFF);
    assert_eq!(f.bits(), 0x1d);
    assert!(f.contains(MobMoveFlags::CAN_ATTACK | MobMoveFlags::RUSH_MOVE));
    assert!(!MobMoveFlags::from_bits_truncate(1).contains(MobMoveFlags::RUSH_MOVE));
}

#[test]
fn move_req_skill_data() {
    let hdr = MobMoveReqHeader {
        id: 1,
        ctrl_sn: 2,
        flag: MobMoveFlags::from_bits_truncate(0),
        action_dir: ActionDir {
            left: false,
            action: MobAction::SKILL2,
        },
        data: MobSkillData::from(7u32),
    };
    assert_eq!(hdr.get_skill_data(), Some(MobSkillData::from(7u32)));
    let hdr = MobMoveReqHeader {
        action_dir: ActionDir {
            left: false,
            action: MobAction::MOVE,
        },
        ..hdr
    };
    assert_eq!(hdr.get_skill_data(), None);
}

#[test]
fn summon_type_tags() {
    assert_eq!(MobSummonType::Effect(3).tag(), 0);
    assert_eq!(MobSummonType::Normal.tag(), -1);
    assert_eq!(MobSummonType::Delay.tag(), -5);
}

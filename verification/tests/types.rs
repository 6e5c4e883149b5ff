use veritas::il2cpp::Il2CppObject;
use veritas::types::{
    RPG_GameCore_AbilityProperty, RPG_GameCore_AttackType, RPG_GameCore_EntityType,
    RPG_GameCore_GameEntity, RPG_GameCore_TeamType, StageBudgetTool_EntityType,
    UnityEngine_ProBuilder_EntityType, RPG_Client_TextmapStatic, FixPoint, TextID,
};

#[test]
fn enum_values_round_trip() {
    for v in 0..194 {
        let p = RPG_GameCore_AbilityProperty::from_raw(v).unwrap();
        assert_eq!(p.raw(), v);
    }
    for v in 0..38 {
        assert_eq!(RPG_GameCore_EntityType::from_raw(v).unwrap().raw(), v);
    }
    for v in 0..14 {
        assert_eq!(RPG_GameCore_AttackType::from_raw(v).unwrap().raw(), v);
        assert_eq!(StageBudgetTool_EntityType::from_raw(v).unwrap().raw(), v);
    }
    for v in 0..6 {
        assert_eq!(RPG_GameCore_TeamType::from_raw(v).unwrap().raw(), v);
    }
    for v in 0..5 {
        assert_eq!(UnityEngine_ProBuilder_EntityType::from_raw(v).unwrap().raw(), v);
    }
}

#[test]
fn enum_values_of_known_variants() {
    assert_eq!(RPG_GameCore_AbilityProperty::from_raw(10), Some(RPG_GameCore_AbilityProperty::CurrentHP));
    assert_eq!(RPG_GameCore_AbilityProperty::Count.raw(), 193);
    assert_eq!(RPG_GameCore_EntityType::from_raw(32), Some(RPG_GameCore_EntityType::Servant));
    assert_eq!(RPG_GameCore_EntityType::None_.raw(), 0);
    assert_eq!(RPG_GameCore_TeamType::from_raw(1), Some(RPG_GameCore_TeamType::TeamLight));
    assert_eq!(RPG_GameCore_AttackType::TrueDamage.raw(), 13);
}

#[test]
fn enum_values_out_of_range() {
    assert_eq!(RPG_GameCore_AbilityProperty::from_raw(194), None);
    assert_eq!(RPG_GameCore_AbilityProperty::from_raw(-1), None);
    assert_eq!(RPG_GameCore_EntityType::from_raw(38), None);
    assert_eq!(RPG_GameCore_TeamType::from_raw(6), None);
    assert_eq!(RPG_GameCore_AttackType::from_raw(i32::MAX), None);
}

#[test]
fn handles_know_their_class() {
    assert_eq!(RPG_GameCore_GameEntity::class_name(), "RPG.GameCore.GameEntity");
    assert_eq!(RPG_Client_TextmapStatic::class_name(), "RPG.Client.TextmapStatic");
    assert!(RPG_GameCore_GameEntity(0).is_null());
    assert!(!RPG_GameCore_GameEntity(8).is_null());
    assert_eq!(RPG_GameCore_GameEntity(8).as_object(), Il2CppObject(8));
}

#[test]
fn plain_value_types() {
    let t = TextID { hash: -5, hash64: 7 };
    assert_eq!(t, TextID { hash: -5, hash64: 7 });
    assert_eq!(FixPoint { raw_value: 3 }.raw_value, 3);
}

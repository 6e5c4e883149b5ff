use veritas::dispatch::{
    damage_source, formation_team, is_player_side, lineup_event, unknown_monster,
    reports_combo_skill, reports_defeat, resolve_actual_owner, skill_source, stat_change_team,
    turn_owner_kind, DamageSource, SkillSource, TurnOwnerKind, damage_event, event_error,
    skill_event, stat_event, StatOwner,
};
use veritas::events::{Event, OnDamageEvent, OnStatChangeEvent, OnUseSkillEvent};
use veritas::models::Entity;
use veritas::helpers::{
    fixpoint_halves, get_character_color, get_skill_type_str, skill_of, stat_kind_of_property,
    stat_of_kind, StatKind,
};
use veritas::models::{apply_stat, Avatar, BattleStats, F64Bits, Skill, Stat, Team};
use veritas::text::u32_to_decimal;
use veritas::types::{
    RPG_GameCore_AbilityProperty as P, RPG_GameCore_AttackType as A, RPG_GameCore_EntityType as E,
    RPG_GameCore_GameEntity, RPG_GameCore_TeamType as T,
};

#[test]
fn skill_type_names() {
    let table = [
        (A::Unknown, "Talent"),
        (A::Normal, "Basic"),
        (A::BPSkill, "Skill"),
        (A::Ultra, "Ultimate"),
        (A::QTE, "QTE"),
        (A::DOT, "DOT"),
        (A::Pursued, "Pursued"),
        (A::Maze, "Technique"),
        (A::MazeNormal, "MazeNormal"),
        (A::Insert, "Follow-up"),
        (A::ElementDamage, "Elemental Damage"),
        (A::Level, "Level"),
        (A::Servant, "Servant"),
        (A::TrueDamage, "True Damage"),
    ];
    for (t, name) in table {
        assert_eq!(get_skill_type_str(t), name);
    }
}

#[test]
fn skill_without_attack_type_is_a_talent() {
    let s = skill_of("Stellaron".to_string(), None);
    assert_eq!(s.name, "Stellaron");
    assert_eq!(s.skill_type, "Talent");
    let u = skill_of("Burst".to_string(), Some(A::Ultra));
    assert_eq!(u.skill_type, "Ultimate");
    assert_eq!(u.to_display_string(), "[Ultimate] Burst");
}

#[test]
fn fixpoint_halves_split_the_raw_value() {
    assert_eq!(fixpoint_halves(0), (0, 0));
    assert_eq!(fixpoint_halves(0x0000_0003_8000_0000), (3, 0x8000_0000));
    assert_eq!(fixpoint_halves(-1), (u32::MAX, u32::MAX));
    let (hi, lo) = fixpoint_halves(0x0000_000A_4000_0000);
    assert_eq!(hi as f64 + lo as f64 / 4294967296.0, 10.25);
}

#[test]
fn reported_stats() {
    assert_eq!(stat_kind_of_property(P::CurrentHP), Some(StatKind::HP));
    assert_eq!(stat_kind_of_property(P::Attack), Some(StatKind::Attack));
    assert_eq!(stat_kind_of_property(P::Defence), Some(StatKind::Defense));
    assert_eq!(stat_kind_of_property(P::Speed), Some(StatKind::Speed));
    assert_eq!(stat_kind_of_property(P::ActionDelay), Some(StatKind::AV));
    assert_eq!(stat_kind_of_property(P::MaxHP), None);
    assert_eq!(stat_of_kind(StatKind::Speed, F64Bits(4)), Stat::Speed(F64Bits(4)));
}

#[test]
fn stat_changes_touch_one_stat() {
    let mut s = BattleStats::zero();
    apply_stat(&mut s, Stat::Defense(F64Bits(12)));
    assert_eq!(s.defense, F64Bits(12));
    assert_eq!(s.hp, F64Bits(0));
    apply_stat(&mut s, Stat::AV(F64Bits(3)));
    assert_eq!(s.av, F64Bits(3));
    assert_eq!(s.defense, F64Bits(12));
}

#[test]
fn character_colors_cycle() {
    assert_eq!(get_character_color(0), (255, 99, 132));
    assert_eq!(get_character_color(7), (102, 255, 102));
    assert_eq!(get_character_color(8), (255, 99, 132));
    assert_eq!(get_character_color(13), (255, 159, 64));
}

#[test]
fn actual_owner_falls_back_to_the_entity() {
    let e = RPG_GameCore_GameEntity(0x10);
    assert_eq!(resolve_actual_owner(Some(RPG_GameCore_GameEntity(0x20)), e), RPG_GameCore_GameEntity(0x20));
    assert_eq!(resolve_actual_owner(Some(RPG_GameCore_GameEntity(0)), e), e);
    assert_eq!(resolve_actual_owner(None, e), e);
}

#[test]
fn damage_and_skill_credit() {
    assert!(is_player_side(T::TeamLight));
    assert!(!is_player_side(T::TeamDark));
    assert_eq!(damage_source(T::TeamLight, E::Avatar), Some(DamageSource::Avatar));
    assert_eq!(damage_source(T::TeamLight, E::Servant), Some(DamageSource::Servant));
    assert_eq!(damage_source(T::TeamLight, E::Snapshot), Some(DamageSource::Snapshot));
    assert_eq!(damage_source(T::TeamLight, E::Monster), None);
    assert_eq!(damage_source(T::TeamDark, E::Avatar), None);
    assert_eq!(skill_source(T::TeamLight, E::BattleEvent), Some(SkillSource::BattleEvent));
    assert_eq!(skill_source(T::TeamLight, E::Avatar), Some(SkillSource::Avatar));
    assert_eq!(skill_source(T::TeamLight, E::Servant), Some(SkillSource::Servant));
    assert_eq!(skill_source(T::TeamLight, E::Snapshot), None);
    assert_eq!(skill_source(T::TeamNeutral, E::Avatar), None);
}

#[test]
fn turn_owner_and_sides() {
    assert_eq!(turn_owner_kind(E::Avatar), Some(TurnOwnerKind::Avatar));
    assert_eq!(turn_owner_kind(E::Monster), Some(TurnOwnerKind::Monster));
    assert_eq!(turn_owner_kind(E::Servant), Some(TurnOwnerKind::Servant));
    assert_eq!(turn_owner_kind(E::Prop), None);
    assert_eq!(stat_change_team(E::Avatar), Some(Team::Player));
    assert_eq!(stat_change_team(E::Monster), Some(Team::Enemy));
    assert_eq!(stat_change_team(E::Servant), None);
    assert_eq!(formation_team(T::TeamDark), Some(Team::Enemy));
    assert_eq!(formation_team(T::TeamLight), None);
    let m = unknown_monster(77);
    assert_eq!((m.id, m.name.as_str()), (77, "Monster"));
}

#[test]
fn defeats_and_combos_reported() {
    assert!(reports_defeat(false, E::Avatar));
    assert!(!reports_defeat(true, E::Avatar));
    assert!(!reports_defeat(false, E::Monster));
    assert!(reports_combo_skill(&Skill { name: "Follow".to_string(), skill_type: "Follow-up".to_string() }));
    assert!(!reports_combo_skill(&Skill { name: String::new(), skill_type: "Follow-up".to_string() }));
}

#[test]
fn lineup_errors_are_joined_by_line() {
    let avatars = vec![Avatar { id: 1, name: "A".to_string() }];
    let ok = lineup_event(avatars.clone(), &vec![]).unwrap();
    assert_eq!(ok.avatars.len(), 1);
    assert_eq!(ok.avatars[0].name, "A");
    let err = lineup_event(avatars, &vec!["first".to_string(), "second".to_string()]).unwrap_err();
    assert_eq!(err, "first\nsecond\n");
}

#[test]
fn decimal_text() {
    assert_eq!(u32_to_decimal(0), "0");
    assert_eq!(u32_to_decimal(1305), "1305");
    assert_eq!(u32_to_decimal(u32::MAX), "4294967295");
}

#[test]
fn event_errors_name_the_hook_and_the_actor() {
    assert_eq!(event_error("on_damage", "Servant", "null"), "on_damage Servant Event Error: null");
}

#[test]
fn damage_events_carry_the_attacker_or_the_error() {
    let dmg = F64Bits(2.5f64.to_bits());
    match damage_event("on_damage", DamageSource::Avatar, Ok(Avatar { id: 1, name: "A".to_string() }), dmg, "Basic") {
        Ok(Event::OnDamage(OnDamageEvent { attacker, damage, damage_type })) => {
            assert_eq!(attacker.id, 1);
            assert_eq!(damage, dmg);
            assert_eq!(damage_type, "Basic");
        },
        _ => panic!("wrong event"),
    }
    match damage_event("on_damage", DamageSource::Snapshot, Err("gone".to_string()), dmg, "DOT") {
        Err(m) => assert_eq!(m, "on_damage Snapshot Event Error: gone"),
        _ => panic!("should fail"),
    }
}

#[test]
fn skill_events_follow_source_and_combo() {
    let a = || Ok(Avatar { id: 3, name: "C".to_string() });
    let named = || Ok(Skill { name: "Strike".to_string(), skill_type: "Basic".to_string() });
    let unnamed = || Ok(Skill { name: String::new(), skill_type: "Talent".to_string() });
    match skill_event("on_use_skill", SkillSource::Avatar, false, named(), a()) {
        Some(Ok(Event::OnUseSkill(OnUseSkillEvent { avatar, skill }))) => {
            assert_eq!(avatar.id, 3);
            assert_eq!(skill.name, "Strike");
        },
        _ => panic!("wrong event"),
    }
    assert!(skill_event("on_combo", SkillSource::Avatar, true, unnamed(), a()).is_none());
    assert!(matches!(skill_event("on_combo", SkillSource::Servant, true, unnamed(), a()), Some(Ok(_))));
    match skill_event("on_combo", SkillSource::Avatar, true, Err("no data".to_string()), a()) {
        Some(Err(m)) => assert_eq!(m, "on_combo Avatar Combo Skill Event Error: no data"),
        _ => panic!("should fail"),
    }
    match skill_event("on_use_skill", SkillSource::BattleEvent, false, named(), Err("no caster".to_string())) {
        Some(Err(m)) => assert_eq!(m, "on_use_skill Summon Event Error: no caster"),
        _ => panic!("should fail"),
    }
}

#[test]
fn stat_events_by_owner() {
    let hp = Stat::HP(F64Bits(1));
    match stat_event("on_stat_change", StatOwner::Avatar(Ok(Avatar { id: 8, name: "H".to_string() })), hp) {
        Ok(Event::OnStatChange(OnStatChangeEvent { entity, stat })) => {
            assert_eq!(entity, Entity { uid: 8, team: Team::Player });
            assert_eq!(stat, hp);
        },
        _ => panic!("wrong event"),
    }
    match stat_event("on_stat_change", StatOwner::Monster(40), hp) {
        Ok(Event::OnStatChange(OnStatChangeEvent { entity, .. })) => assert_eq!(entity, Entity { uid: 40, team: Team::Enemy }),
        _ => panic!("wrong event"),
    }
    match stat_event("handle_hp_change", StatOwner::Avatar(Err("x".to_string())), hp) {
        Err(m) => assert_eq!(m, "handle_hp_change Avatar Event Error: x"),
        _ => panic!("should fail"),
    }
}

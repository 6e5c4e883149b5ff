use veritas::battle::{Arithmetic, BattleContext, BattleState, DamageUpdate, EventOutcome};
use veritas::events::{
    Event, OnBattleBeginEvent, OnDamageEvent, OnEntityDefeatedEvent, OnInitializeEnemyEvent,
    OnSetLineupEvent, OnStatChangeEvent, OnTurnBeginEvent, OnTurnEndEvent, OnUpdateCycleEvent,
    OnUpdateTeamFormationEvent, OnUpdateWaveEvent, OnUseSkillEvent,
};
use veritas::models::{Avatar, BattleEntity, BattleStats, Enemy, Entity, F64Bits, Skill, Stat, Stats, Team};
use veritas::packets::Packet;

fn bits(x: f64) -> F64Bits {
    F64Bits(x.to_bits())
}

fn avatar(id: u32, name: &str) -> Avatar {
    Avatar { id, name: name.to_string() }
}

fn no_arithmetic() -> Arithmetic {
    Arithmetic {
        damage: DamageUpdate { turn_damage: bits(0.0), real_time_damage: bits(0.0), total_damage: bits(0.0) },
        turn_total: bits(0.0),
        same_av_damages: None,
    }
}

fn with_lineup() -> BattleContext {
    let mut ctx = BattleContext::new();
    let lineup = vec![avatar(1001, "March"), avatar(1002, "Dan Heng"), avatar(1001, "March again")];
    ctx.handle_event(Ok(Event::OnSetBattleLineup(OnSetLineupEvent { avatars: lineup })), no_arithmetic());
    ctx
}

#[test]
fn new_context_is_empty_and_preparing() {
    let ctx = BattleContext::new();
    assert_eq!(ctx.state, BattleState::Preparing);
    assert_eq!(BattleState::default(), BattleState::Preparing);
    assert!(ctx.avatar_lineup.is_empty());
    assert_eq!(ctx.turn_count, 0);
    assert!(ctx.check_well_formed());
}

#[test]
fn lineup_sets_one_entity_and_damage_slot_per_avatar() {
    let ctx = with_lineup();
    assert_eq!(ctx.avatar_lineup.len(), 3);
    assert_eq!(ctx.battle_avatars.len(), 3);
    assert_eq!(ctx.battle_avatars[1].entity, Entity { uid: 1002, team: Team::Player });
    assert_eq!(ctx.real_time_damages, vec![bits(0.0); 3]);
    assert_eq!(ctx.current_turn_info.avatars_turn_damage, vec![bits(0.0); 3]);
    assert!(ctx.check_well_formed());
}

#[test]
fn lineup_packet_lists_the_avatars() {
    let mut ctx = BattleContext::new();
    let p = ctx.handle_on_set_lineup_event(OnSetLineupEvent { avatars: vec![avatar(5, "Kafka")] });
    match p {
        Packet::OnSetBattleLineup { avatars } => assert_eq!(avatars[0].name, "Kafka"),
        _ => panic!("wrong packet"),
    }
}

#[test]
fn lineup_resets_the_battle_record() {
    let mut ctx = with_lineup();
    ctx.handle_event(Ok(Event::OnUpdateWave(OnUpdateWaveEvent { wave: 2 })), no_arithmetic());
    ctx.handle_event(Ok(Event::OnTurnEnd(OnTurnEndEvent { monster_hps: vec![] })), no_arithmetic());
    assert_eq!(ctx.turn_count, 1);
    ctx.handle_event(Ok(Event::OnSetBattleLineup(OnSetLineupEvent { avatars: vec![avatar(7, "Bronya")] })), no_arithmetic());
    assert_eq!(ctx.turn_count, 0);
    assert_eq!(ctx.wave, 0);
    assert!(ctx.turn_history.is_empty());
    assert_eq!(ctx.battle_avatars.len(), 1);
}

#[test]
fn lineup_index_is_the_first_match() {
    let ctx = with_lineup();
    assert_eq!(ctx.find_lineup_index_by_avatar_id(1001), Some(0));
    assert_eq!(ctx.find_lineup_index_by_avatar_id(1002), Some(1));
    assert_eq!(ctx.find_lineup_index_by_avatar_id(9), None);
}

#[test]
fn battle_begin_and_end_change_the_state() {
    let mut ctx = with_lineup();
    let out = ctx.handle_event(
        Ok(Event::OnBattleBegin(OnBattleBeginEvent { max_waves: 3, max_cycles: 30, stage_id: 42 })),
        no_arithmetic(),
    );
    assert_eq!(ctx.state, BattleState::Started);
    assert_eq!(ctx.max_waves, 3);
    assert_eq!(ctx.stage_id, 0);
    match out {
        EventOutcome::Broadcast(Packet::OnBattleBegin { max_waves, max_cycles, stage_id }) => {
            assert_eq!((max_waves, max_cycles, stage_id), (3, 30, 42))
        },
        _ => panic!("wrong outcome"),
    }
    let end = ctx.handle_event(Ok(Event::OnBattleEnd), no_arithmetic());
    assert_eq!(ctx.state, BattleState::Ended);
    match end {
        EventOutcome::Broadcast(Packet::OnBattleEnd { avatars, turn_count, turn_history, .. }) => {
            assert_eq!(avatars.len(), 3);
            assert_eq!(turn_count, turn_history.len());
        },
        _ => panic!("wrong outcome"),
    }
}

#[test]
fn damage_records_the_sums_at_the_attackers_slot() {
    let mut ctx = with_lineup();
    let arithmetic = Arithmetic {
        damage: DamageUpdate { turn_damage: bits(100.0), real_time_damage: bits(150.0), total_damage: bits(200.0) },
        ..no_arithmetic()
    };
    let e = OnDamageEvent { attacker: avatar(1002, "Dan Heng"), damage: bits(100.0), damage_type: "Basic" };
    let out = ctx.handle_event(Ok(Event::OnDamage(e)), arithmetic);
    assert_eq!(ctx.current_turn_info.avatars_turn_damage, vec![bits(0.0), bits(100.0), bits(0.0)]);
    assert_eq!(ctx.real_time_damages, vec![bits(0.0), bits(150.0), bits(0.0)]);
    assert_eq!(ctx.total_damage, bits(200.0));
    match out {
        EventOutcome::Broadcast(Packet::OnDamage { attacker, damage, damage_type }) => {
            assert_eq!(attacker.id, 1002);
            assert_eq!(damage, bits(100.0));
            assert_eq!(damage_type, "Basic");
        },
        _ => panic!("wrong outcome"),
    }
}

#[test]
fn damage_from_outside_the_lineup_fails() {
    let mut ctx = with_lineup();
    let e = OnDamageEvent { attacker: avatar(42, "Stranger"), damage: bits(1.0), damage_type: "DOT" };
    match ctx.handle_event(Ok(Event::OnDamage(e)), no_arithmetic()) {
        EventOutcome::Failed(msg) => assert_eq!(msg, "Could not find avatar 42 in lineup"),
        _ => panic!("wrong outcome"),
    }
    assert_eq!(ctx.total_damage, bits(0.0));
}

#[test]
fn turn_begin_records_the_action_value() {
    let mut ctx = with_lineup();
    let e = OnTurnBeginEvent {
        action_value: bits(87.5),
        turn_owner: Some(avatar(1001, "March")),
        monster_hps: vec!["{\"hp\":10.0}".to_string()],
        extra_data: "{}".to_string(),
    };
    let out = ctx.handle_event(Ok(Event::OnTurnBegin(e)), no_arithmetic());
    assert_eq!(ctx.action_value, bits(87.5));
    assert_eq!(ctx.current_turn_info.action_value, bits(87.5));
    match out {
        EventOutcome::Broadcast(Packet::OnTurnBegin { monster_hps, turn_owner, .. }) => {
            assert_eq!(monster_hps.len(), 1);
            assert_eq!(turn_owner.unwrap().id, 1001);
        },
        _ => panic!("wrong outcome"),
    }
}

#[test]
fn turn_end_appends_and_merges_action_value_records() {
    let mut ctx = with_lineup();
    ctx.handle_event(Ok(Event::OnUpdateWave(OnUpdateWaveEvent { wave: 1 })), no_arithmetic());
    ctx.handle_event(Ok(Event::OnUpdateCycle(OnUpdateCycleEvent { cycle: 4 })), no_arithmetic());
    ctx.current_turn_info.avatars_turn_damage = vec![bits(1.0), bits(2.0), bits(3.0)];
    let first = Arithmetic { turn_total: bits(6.0), ..no_arithmetic() };
    let out = ctx.handle_event(Ok(Event::OnTurnEnd(OnTurnEndEvent { monster_hps: vec!["{}".to_string()] })), first);
    match out {
        EventOutcome::Broadcast(Packet::OnTurnEnd { avatars, avatars_damage, total_damage, action_value, turn_info }) => {
            assert_eq!(avatars.len(), 3);
            assert_eq!(avatars[1].name, "Dan Heng");
            assert_eq!(avatars_damage, vec![bits(1.0), bits(2.0), bits(3.0)]);
            assert_eq!(total_damage, bits(6.0));
            assert_eq!(action_value, bits(0.0));
            assert_eq!(turn_info.total_damage, bits(6.0));
            assert_eq!(turn_info.wave, 1);
            assert_eq!(turn_info.cycle, 4);
            assert_eq!(turn_info.avatars_turn_damage, vec![bits(1.0), bits(2.0), bits(3.0)]);
            assert_eq!(turn_info.monster_hps, vec!["{}".to_string()]);
        },
        _ => panic!("wrong outcome"),
    }
    assert_eq!(ctx.turn_count, 1);
    assert_eq!(ctx.turn_history.len(), 1);
    assert_eq!(ctx.av_history.len(), 1);
    assert_eq!(ctx.current_turn_info.avatars_turn_damage, vec![bits(0.0); 3]);
    let merged = Arithmetic {
        same_av_damages: Some(vec![bits(1.0), bits(2.0), bits(4.0)]),
        ..no_arithmetic()
    };
    ctx.handle_event(Ok(Event::OnTurnEnd(OnTurnEndEvent { monster_hps: vec![] })), merged);
    assert_eq!(ctx.turn_count, 2);
    assert_eq!(ctx.turn_history.len(), 2);
    assert_eq!(ctx.av_history.len(), 1);
    assert_eq!(ctx.av_history[0].avatars_turn_damage, vec![bits(1.0), bits(2.0), bits(4.0)]);
    assert!(ctx.check_well_formed());
}

#[test]
fn first_turn_end_appends_even_with_merged_damages() {
    let mut ctx = with_lineup();
    let merged = Arithmetic { same_av_damages: Some(vec![bits(9.0); 3]), ..no_arithmetic() };
    ctx.handle_event(Ok(Event::OnTurnEnd(OnTurnEndEvent { monster_hps: vec![] })), merged);
    assert_eq!(ctx.av_history.len(), 1);
    assert_eq!(ctx.av_history[0].avatars_turn_damage, vec![bits(0.0); 3]);
}

#[test]
fn same_cycle_is_skipped() {
    let mut ctx = with_lineup();
    match ctx.handle_event(Ok(Event::OnUpdateCycle(OnUpdateCycleEvent { cycle: 0 })), no_arithmetic()) {
        EventOutcome::Skipped => {},
        _ => panic!("should be skipped"),
    }
    match ctx.handle_event(Ok(Event::OnUpdateCycle(OnUpdateCycleEvent { cycle: 3 })), no_arithmetic()) {
        EventOutcome::Broadcast(Packet::OnUpdateCycle { cycle }) => assert_eq!(cycle, 3),
        _ => panic!("should be sent"),
    }
    match ctx.handle_event(Ok(Event::OnUpdateCycle(OnUpdateCycleEvent { cycle: 3 })), no_arithmetic()) {
        EventOutcome::Skipped => {},
        _ => panic!("should be skipped"),
    }
    assert_eq!(ctx.cycle, 3);
}

#[test]
fn stat_change_reaches_the_first_matching_entity_only() {
    let mut ctx = with_lineup();
    let e = OnStatChangeEvent { entity: Entity { uid: 1001, team: Team::Player }, stat: Stat::HP(bits(500.0)) };
    ctx.handle_event(Ok(Event::OnStatChange(e)), no_arithmetic());
    ctx.handle_event(Ok(Event::OnStatChange(e)), no_arithmetic());
    assert_eq!(ctx.battle_avatars[0].battle_stats.hp, bits(500.0));
    assert_eq!(ctx.battle_avatars[2].battle_stats.hp, bits(0.0));
    let unknown = OnStatChangeEvent { entity: Entity { uid: 1, team: Team::Enemy }, stat: Stat::Speed(bits(1.0)) };
    match ctx.handle_event(Ok(Event::OnStatChange(unknown)), no_arithmetic()) {
        EventOutcome::Broadcast(Packet::OnStatChange { entity, .. }) => assert_eq!(entity.uid, 1),
        _ => panic!("wrong outcome"),
    }
    assert!(ctx.battle_enemies.is_empty());
}

#[test]
fn enemies_are_initialized_with_their_base_hp() {
    let mut ctx = with_lineup();
    let enemy = Enemy {
        id: 300,
        uid: 17,
        name: "Voidranger".to_string(),
        base_stats: Stats { level: 80, hp: bits(12000.0) },
        game_entity_ptr: 0xABC,
    };
    ctx.handle_event(Ok(Event::OnInitializeEnemy(OnInitializeEnemyEvent { enemy })), no_arithmetic());
    assert_eq!(ctx.enemies.len(), 1);
    assert_eq!(ctx.battle_enemies[0].entity, Entity { uid: 17, team: Team::Enemy });
    assert_eq!(ctx.battle_enemies[0].battle_stats.hp, bits(12000.0));
    assert_eq!(ctx.battle_enemies[0].battle_stats.attack, bits(0.0));
    let hit = OnStatChangeEvent { entity: Entity { uid: 17, team: Team::Enemy }, stat: Stat::HP(bits(11000.0)) };
    ctx.handle_event(Ok(Event::OnStatChange(hit)), no_arithmetic());
    assert_eq!(ctx.battle_enemies[0].battle_stats.hp, bits(11000.0));
    assert!(ctx.check_well_formed());
}

#[test]
fn enemy_formation_becomes_the_enemy_lineup() {
    let mut ctx = with_lineup();
    let entities = vec![Entity { uid: 17, team: Team::Enemy }, Entity { uid: 18, team: Team::Enemy }];
    ctx.handle_event(
        Ok(Event::OnUpdateTeamFormation(OnUpdateTeamFormationEvent { entities, team: Team::Enemy })),
        no_arithmetic(),
    );
    assert_eq!(ctx.enemy_lineup.len(), 2);
    ctx.handle_event(
        Ok(Event::OnUpdateTeamFormation(OnUpdateTeamFormationEvent { entities: vec![], team: Team::Player })),
        no_arithmetic(),
    );
    assert_eq!(ctx.enemy_lineup.len(), 2);
}

#[test]
fn reports_pass_through() {
    let mut ctx = with_lineup();
    let skill = Skill { name: "Glacial Cascade".to_string(), skill_type: "Skill".to_string() };
    match ctx.handle_event(Ok(Event::OnUseSkill(OnUseSkillEvent { avatar: avatar(1001, "March"), skill })), no_arithmetic()) {
        EventOutcome::Broadcast(Packet::OnUseSkill { skill, .. }) => assert_eq!(skill.name, "Glacial Cascade"),
        _ => panic!("wrong outcome"),
    }
    let e = OnEntityDefeatedEvent { killer: avatar(1001, "March"), entity_defeated: avatar(300, "Monster") };
    match ctx.handle_event(Ok(Event::OnEntityDefeated(e)), no_arithmetic()) {
        EventOutcome::Broadcast(Packet::OnKill { attacker, entity_defeated }) => {
            assert_eq!(attacker.id, 1001);
            assert_eq!(entity_defeated.id, 300);
        },
        _ => panic!("wrong outcome"),
    }
}

#[test]
fn unreadable_events_become_error_packets() {
    let mut ctx = with_lineup();
    match ctx.handle_event(Err("on_damage Avatar Event Error: null".to_string()), no_arithmetic()) {
        EventOutcome::Broadcast(Packet::Error { msg }) => assert_eq!(msg, "on_damage Avatar Event Error: null"),
        _ => panic!("wrong outcome"),
    }
    assert_eq!(ctx.avatar_lineup.len(), 3);
}

#[test]
fn packet_names_and_stream() {
    let p = Packet::OnStatChange { entity: Entity { uid: 1, team: Team::Player }, stat: Stat::AV(bits(1.0)) };
    assert_eq!(p.name(), "OnStatChange");
    assert!(!p.goes_to_event_stream());
    let q = Packet::OnUpdateWave { wave: 1 };
    assert_eq!(q.name(), "OnUpdateWave");
    assert!(q.goes_to_event_stream());
    assert_eq!(Packet::Connected { version: "v".to_string() }.name(), "Connected");
    assert_eq!(Packet::Error { msg: String::new() }.name(), "Error");
    assert_eq!(Packet::Heartbeat {}.name(), "Heartbeat");
    assert!(Packet::Heartbeat {}.goes_to_event_stream());
    let kill = Packet::OnKill { attacker: avatar(1, "A"), entity_defeated: avatar(2, "B") };
    assert_eq!(kill.name(), "OnKill");
}

#[test]
fn broken_context_is_detected() {
    let mut ctx = with_lineup();
    ctx.real_time_damages.pop();
    assert!(!ctx.check_well_formed());
}

#[test]
fn stat_change_updates_entities_without_a_lineup() {
    let mut ctx = BattleContext::new();
    let zero = BattleStats::zero();
    let enemy = Entity { uid: 1, team: Team::Enemy };
    ctx.battle_avatars = vec![BattleEntity { entity: Entity { uid: 1, team: Team::Player }, battle_stats: zero }];
    ctx.battle_enemies = vec![BattleEntity { entity: enemy, battle_stats: zero }];
    let p = ctx.handle_on_stat_change_event(OnStatChangeEvent { entity: enemy, stat: Stat::HP(bits(500.0)) });
    match p {
        Packet::OnStatChange { entity, stat } => {
            assert_eq!(entity, enemy);
            assert_eq!(stat, Stat::HP(bits(500.0)));
        },
        _ => panic!("wrong packet"),
    }
    assert_eq!(ctx.battle_enemies[0].battle_stats.hp, bits(500.0));
    assert_eq!(ctx.battle_avatars[0].battle_stats, zero);
}

#[test]
fn repeated_cycle_is_skipped_on_any_context() {
    let mut ctx = BattleContext::new();
    ctx.turn_count = usize::MAX;
    ctx.real_time_damages.push(bits(1.0));
    let ev = || Ok(Event::OnUpdateCycle(OnUpdateCycleEvent { cycle: 7 }));
    match ctx.handle_event(ev(), no_arithmetic()) {
        EventOutcome::Broadcast(Packet::OnUpdateCycle { cycle }) => assert_eq!(cycle, 7),
        _ => panic!("should be sent"),
    }
    match ctx.handle_event(ev(), no_arithmetic()) {
        EventOutcome::Skipped => {},
        _ => panic!("should be skipped"),
    }
    assert_eq!(ctx.cycle, 7);
}

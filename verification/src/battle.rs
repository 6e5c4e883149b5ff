//! The battle context: what is known of the running battle, updated event by event,
//! and the packet each event produces.
//!
//! Sums of damage are real-number arithmetic; the caller computes them from this
//! context (see [`Arithmetic`]) and the context records them.
use vstd::prelude::*;
use vstd::string::*;
use crate::events::{
    Event, OnBattleBeginEvent, OnDamageEvent, OnEntityDefeatedEvent, OnInitializeEnemyEvent,
    OnSetLineupEvent, OnStatChangeEvent, OnTurnBeginEvent, OnTurnEndEvent, OnUpdateCycleEvent,
    OnUpdateTeamFormationEvent, OnUpdateWaveEvent, OnUseSkillEvent,
};
use crate::models::{
    apply_stat, clone_avatars, clone_entities, clone_reals, stats_after, turn_views, zero_reals, Avatar,
    BattleEntity, BattleStats, Enemy, Entity, F64Bits, Stat, Team, TurnInfo, TurnView,
};
use crate::packets::Packet;
use crate::text::{decimal, u32_to_decimal};

verus! {

/// Where the battle stands.
#[derive(Debug, Clone, Copy, PartialEq, Eq, Structural)]
pub enum BattleState {
    Preparing,
    Started,
    Ended,
}

impl Default for BattleState {
    fn default() -> (r: Self)
        ensures
            r == BattleState::Preparing,
    {
        BattleState::Preparing
    }
}

/// What is known of the running battle.
pub struct BattleContext {
    pub state: BattleState,
    pub avatar_lineup: Vec<Avatar>,
    /// One entry per lineup avatar, in lineup order.
    pub battle_avatars: Vec<BattleEntity>,
    pub enemies: Vec<Enemy>,
    pub enemy_lineup: Vec<Entity>,
    /// One entry per initialized enemy, in the order of `enemies`.
    pub battle_enemies: Vec<BattleEntity>,
    pub turn_history: Vec<TurnInfo>,
    /// Turn records with equal consecutive action values merged.
    pub av_history: Vec<TurnInfo>,
    pub last_wave_action_value: F64Bits,
    pub action_value: F64Bits,
    pub current_turn_info: TurnInfo,
    pub turn_count: usize,
    pub total_damage: F64Bits,
    /// Damage of the battle so far by lineup index.
    pub real_time_damages: Vec<F64Bits>,
    pub max_waves: u32,
    pub wave: u32,
    pub cycle: u32,
    pub stage_id: u32,
}

/// Results of the real-number arithmetic an event needs, computed by the caller from
/// the context before it hands the event over.
pub struct Arithmetic {
    /// For a damage event whose attacker stands at lineup index `k`: the current turn's
    /// damage of `k`, the real-time damage of `k` and the total damage, each with the
    /// event's damage added.
    pub damage: DamageUpdate,
    /// For a turn end: the sum of the current turn's damages, 0 when there are none.
    pub turn_total: F64Bits,
    /// For a turn end: when the last action-value record has the current turn's action
    /// value, that record's damages with the current turn's damages added.
    pub same_av_damages: Option<Vec<F64Bits>>,
}

/// The three damage sums that a damage event updates.
#[derive(Debug, Clone, Copy, PartialEq, Eq, Structural)]
pub struct DamageUpdate {
    pub turn_damage: F64Bits,
    pub real_time_damage: F64Bits,
    pub total_damage: F64Bits,
}

/// What to do after an event.
#[derive(Debug)]
pub enum EventOutcome {
    /// Send this packet to the clients.
    Broadcast(Packet),
    /// Nothing changed; nothing is sent.
    Skipped,
    /// The event could not be handled; nothing is sent.
    Failed(String),
}

/// The battle entity of a lineup avatar before any stat change.
pub open spec fn lineup_battle_entity(a: Avatar) -> BattleEntity {
    BattleEntity {
        entity: Entity { uid: a.id, team: Team::Player },
        battle_stats: BattleStats {
            hp: F64Bits(0),
            attack: F64Bits(0),
            defense: F64Bits(0),
            speed: F64Bits(0),
            av: F64Bits(0),
        },
    }
}

/// The battle entity of an enemy as it is initialized.
pub open spec fn enemy_battle_entity(e: Enemy) -> BattleEntity {
    BattleEntity {
        entity: Entity { uid: e.uid, team: Team::Enemy },
        battle_stats: BattleStats {
            hp: e.base_stats.hp,
            attack: F64Bits(0),
            defense: F64Bits(0),
            speed: F64Bits(0),
            av: F64Bits(0),
        },
    }
}

/// The record of a turn before anything happened in it.
pub open spec fn empty_turn() -> TurnView {
    TurnView {
        action_value: F64Bits(0),
        cycle: 0,
        wave: 0,
        avatars_turn_damage: Seq::empty(),
        total_damage: F64Bits(0),
        monster_hps: Seq::empty(),
    }
}

/// `n` zeros.
pub open spec fn zeros(n: nat) -> Seq<F64Bits> {
    Seq::new(n, |_i: int| F64Bits(0))
}

/// `k` is the first index of an avatar with id `id` in the lineup.
pub open spec fn is_first_lineup_index(lineup: Seq<Avatar>, id: u32, k: int) -> bool {
    &&& 0 <= k < lineup.len()
    &&& lineup[k].id == id
    &&& forall|j: int| 0 <= j < k ==> lineup[j].id != id
}

/// `k` is the first index of `entity` in a list of battle entities.
pub open spec fn is_first_entity_index(list: Seq<BattleEntity>, entity: Entity, k: int) -> bool {
    &&& 0 <= k < list.len()
    &&& list[k].entity == entity
    &&& forall|j: int| 0 <= j < k ==> list[j].entity != entity
}

/// A list of battle entities after a stat change of `entity`: the first entry of that
/// entity gets the new stat; without such an entry the list stays as it is.
pub open spec fn stat_changed(old_list: Seq<BattleEntity>, new_list: Seq<BattleEntity>, entity: Entity, stat: Stat) -> bool {
    &&& (forall|k: int| #[trigger] is_first_entity_index(old_list, entity, k) ==> new_list == old_list.update(
        k,
        BattleEntity { entity, battle_stats: stats_after(old_list[k].battle_stats, stat) },
    ))
    &&& (forall|k: int| 0 <= k < old_list.len() ==> old_list[k].entity != entity) ==> new_list
        == old_list
}

/// The message of a damage event whose attacker is not in the lineup.
pub open spec fn missing_avatar_message(id: u32) -> Seq<char> {
    "Could not find avatar "@ + decimal(id as nat) + " in lineup"@
}

/// Lineup, battle entities and enemies are the same.
pub open spec fn same_roster(a: BattleContext, b: BattleContext) -> bool {
    &&& a.avatar_lineup@ == b.avatar_lineup@
    &&& a.battle_avatars@ == b.battle_avatars@
    &&& a.enemies@ == b.enemies@
    &&& a.enemy_lineup@ == b.enemy_lineup@
    &&& a.battle_enemies@ == b.battle_enemies@
}

/// Turn records, damage and action values are the same.
pub open spec fn same_turns(a: BattleContext, b: BattleContext) -> bool {
    &&& a.turn_history@ == b.turn_history@
    &&& a.av_history@ == b.av_history@
    &&& a.current_turn_info@ == b.current_turn_info@
    &&& a.real_time_damages@ == b.real_time_damages@
    &&& a.turn_count == b.turn_count
    &&& a.total_damage == b.total_damage
    &&& a.action_value == b.action_value
    &&& a.last_wave_action_value == b.last_wave_action_value
}

/// Battle state, waves, cycle and stage are the same.
pub open spec fn same_progress(a: BattleContext, b: BattleContext) -> bool {
    &&& a.state == b.state
    &&& a.max_waves == b.max_waves
    &&& a.wave == b.wave
    &&& a.cycle == b.cycle
    &&& a.stage_id == b.stage_id
}

/// Nothing changed.
pub open spec fn unchanged(a: BattleContext, b: BattleContext) -> bool {
    same_roster(a, b) && same_turns(a, b) && same_progress(a, b)
}


/// An outcome read as the result of a handler: the packet sent or the failure.
pub open spec fn outcome_result(r: EventOutcome) -> Result<Packet, String> {
    match r {
        EventOutcome::Broadcast(p) => Ok(p),
        EventOutcome::Failed(m) => Err(m),
        EventOutcome::Skipped => Err(arbitrary()),
    }
}

/// The optional damages as a sequence.
pub open spec fn damages_view(d: Option<Vec<F64Bits>>) -> Option<Seq<F64Bits>> {
    match d {
        Some(v) => Some(v@),
        None => None,
    }
}

/// The battle begins: the state is started and the number of waves recorded.
pub open spec fn battle_began(pre: BattleContext, post: BattleContext, e: OnBattleBeginEvent, p: Packet) -> bool {
    &&& post.state == BattleState::Started
    &&& post.max_waves == e.max_waves
    &&& post.wave == pre.wave && post.cycle == pre.cycle && post.stage_id == pre.stage_id
    &&& same_roster(pre, post) && same_turns(pre, post)
    &&& p == (Packet::OnBattleBegin { max_waves: e.max_waves, max_cycles: e.max_cycles, stage_id: e.stage_id })
}

/// The lineup is set: a fresh battle record with one battle entity and one zero
/// damage slot per avatar.
pub open spec fn lineup_set(pre: BattleContext, post: BattleContext, avatars: Seq<Avatar>, p: Packet) -> bool {
    let n = avatars.len();
    &&& post.avatar_lineup@ == avatars
    &&& post.battle_avatars@ == avatars.map_values(|a: Avatar| lineup_battle_entity(a))
    &&& post.current_turn_info@ == (TurnView { avatars_turn_damage: zeros(n), ..empty_turn() })
    &&& post.real_time_damages@ == zeros(n)
    &&& post.turn_history@.len() == 0 && post.av_history@.len() == 0
    &&& post.enemies@.len() == 0 && post.battle_enemies@.len() == 0
    &&& post.enemy_lineup@ == pre.enemy_lineup@
    &&& post.turn_count == 0 && post.total_damage.0 == 0
    &&& post.last_wave_action_value.0 == 0 && post.action_value.0 == 0
    &&& post.state == pre.state
    &&& post.max_waves == 0 && post.wave == 0 && post.cycle == 0 && post.stage_id == 0
    &&& p matches Packet::OnSetBattleLineup { avatars: a } && a@ == avatars
}

/// A damage event: the attacker's damage slots and the total take the given sums;
/// an attacker missing from the lineup changes nothing and is an error.
pub open spec fn damage_handled(pre: BattleContext, post: BattleContext, e: OnDamageEvent, update: DamageUpdate, r: Result<Packet, String>) -> bool {
    &&& (forall|k: int| 0 <= k < pre.avatar_lineup@.len() ==> pre.avatar_lineup@[k].id != e.attacker.id)
        ==> (unchanged(pre, post) && (r matches Err(m) && m@ == missing_avatar_message(e.attacker.id)))
    &&& forall|k: int| #[trigger] is_first_lineup_index(pre.avatar_lineup@, e.attacker.id, k) ==> {
        &&& post.current_turn_info@ == (TurnView {
            avatars_turn_damage: pre.current_turn_info@.avatars_turn_damage.update(k, update.turn_damage),
            ..pre.current_turn_info@
        })
        &&& post.real_time_damages@ == pre.real_time_damages@.update(k, update.real_time_damage)
        &&& post.total_damage == update.total_damage
        &&& post.turn_history@ == pre.turn_history@ && post.av_history@ == pre.av_history@
        &&& post.turn_count == pre.turn_count && post.action_value == pre.action_value
        &&& post.last_wave_action_value == pre.last_wave_action_value
        &&& same_roster(pre, post) && same_progress(pre, post)
        &&& r == Ok::<Packet, String>(Packet::OnDamage { attacker: e.attacker, damage: e.damage, damage_type: e.damage_type })
    }
}

/// A turn begins: its action value is recorded.
pub open spec fn turn_began(pre: BattleContext, post: BattleContext, e: OnTurnBeginEvent, p: Packet) -> bool {
    &&& post.action_value == e.action_value
    &&& post.current_turn_info@ == (TurnView { action_value: e.action_value, ..pre.current_turn_info@ })
    &&& post.turn_history@ == pre.turn_history@ && post.av_history@ == pre.av_history@
    &&& post.real_time_damages@ == pre.real_time_damages@ && post.turn_count == pre.turn_count
    &&& post.total_damage == pre.total_damage && post.last_wave_action_value == pre.last_wave_action_value
    &&& same_roster(pre, post) && same_progress(pre, post)
    &&& p == (Packet::OnTurnBegin {
        action_value: e.action_value,
        turn_owner: e.turn_owner,
        monster_hps: e.monster_hps,
        extra_data: e.extra_data,
    })
}

/// The record of the turn that ends.
pub open spec fn finished_turn(pre: BattleContext, monster_hps: Seq<String>, total: F64Bits) -> TurnView {
    TurnView {
        cycle: pre.cycle,
        wave: pre.wave,
        total_damage: total,
        monster_hps,
        ..pre.current_turn_info@
    }
}

/// A turn ends: its record joins the turn history; it is merged into the last
/// action-value record when that has the same action value, else appended; the
/// current turn's damages go back to zero and the turn count goes up by one.
pub open spec fn turn_ended(pre: BattleContext, post: BattleContext, monster_hps: Seq<String>, total: F64Bits, same_av_damages: Option<Seq<F64Bits>>, p: Packet) -> bool {
    let done = finished_turn(pre, monster_hps, total);
    let last = pre.av_history@.len() - 1;
    &&& turn_views(post.turn_history@) == turn_views(pre.turn_history@).push(done)
    &&& turn_views(post.av_history@) == (if same_av_damages is Some && pre.av_history@.len() > 0 {
        turn_views(pre.av_history@).update(
            last,
            TurnView { avatars_turn_damage: same_av_damages->0, ..pre.av_history@[last]@ },
        )
    } else {
        turn_views(pre.av_history@).push(done)
    })
    &&& post.current_turn_info@ == (TurnView {
        cycle: pre.cycle,
        wave: pre.wave,
        avatars_turn_damage: zeros(pre.avatar_lineup@.len()),
        ..pre.current_turn_info@
    })
    &&& post.turn_count == pre.turn_count + 1
    &&& post.real_time_damages@ == pre.real_time_damages@ && post.total_damage == pre.total_damage
    &&& post.action_value == pre.action_value && post.last_wave_action_value == pre.last_wave_action_value
    &&& same_roster(pre, post) && same_progress(pre, post)
    &&& p matches Packet::OnTurnEnd { avatars, avatars_damage, total_damage, action_value, turn_info } && {
        &&& avatars@ == pre.avatar_lineup@
        &&& avatars_damage@ == pre.current_turn_info@.avatars_turn_damage
        &&& total_damage == total
        &&& action_value == pre.current_turn_info.action_value
        &&& turn_info@ == done
    }
}

/// The battle ends: the state is ended and the packet sums the battle up.
pub open spec fn battle_ended(pre: BattleContext, post: BattleContext, p: Packet) -> bool {
    &&& post.state == BattleState::Ended
    &&& post.max_waves == pre.max_waves && post.wave == pre.wave && post.cycle == pre.cycle
    &&& post.stage_id == pre.stage_id
    &&& same_roster(pre, post) && same_turns(pre, post)
    &&& p matches Packet::OnBattleEnd {
        avatars,
        turn_history,
        av_history,
        turn_count,
        total_damage,
        action_value,
        cycle,
        wave,
        stage_id,
    } && avatars@ == pre.avatar_lineup@ && turn_views(turn_history@) == turn_views(pre.turn_history@)
        && turn_views(av_history@) == turn_views(pre.av_history@) && turn_count == pre.turn_count
        && total_damage == pre.total_damage && action_value == pre.action_value
        && cycle == pre.cycle && wave == pre.wave && stage_id == pre.stage_id
}

/// Only the wave changes.
pub open spec fn wave_updated(pre: BattleContext, post: BattleContext, wave: u32, p: Packet) -> bool {
    &&& post.wave == wave
    &&& post.state == pre.state && post.max_waves == pre.max_waves && post.cycle == pre.cycle
    &&& post.stage_id == pre.stage_id
    &&& same_roster(pre, post) && same_turns(pre, post)
    &&& p == (Packet::OnUpdateWave { wave })
}

/// Only the cycle changes.
pub open spec fn cycle_updated(pre: BattleContext, post: BattleContext, cycle: u32, p: Packet) -> bool {
    &&& post.cycle == cycle
    &&& post.state == pre.state && post.max_waves == pre.max_waves && post.wave == pre.wave
    &&& post.stage_id == pre.stage_id
    &&& same_roster(pre, post) && same_turns(pre, post)
    &&& p == (Packet::OnUpdateCycle { cycle })
}

/// A stat change reaches the first battle entity of its side that is the entity.
pub open spec fn stat_change_handled(pre: BattleContext, post: BattleContext, e: OnStatChangeEvent, p: Packet) -> bool {
    &&& e.entity.team == Team::Player ==> (stat_changed(pre.battle_avatars@, post.battle_avatars@, e.entity, e.stat)
        && post.battle_enemies@ == pre.battle_enemies@)
    &&& e.entity.team == Team::Enemy ==> (stat_changed(pre.battle_enemies@, post.battle_enemies@, e.entity, e.stat)
        && post.battle_avatars@ == pre.battle_avatars@)
    &&& post.avatar_lineup@ == pre.avatar_lineup@ && post.enemies@ == pre.enemies@
    &&& post.enemy_lineup@ == pre.enemy_lineup@
    &&& same_turns(pre, post) && same_progress(pre, post)
    &&& p == (Packet::OnStatChange { entity: e.entity, stat: e.stat })
}

/// An enemy joins the enemies, with a battle entity whose hit points are its base
/// hit points.
pub open spec fn enemy_initialized(pre: BattleContext, post: BattleContext, enemy: Enemy, p: Packet) -> bool {
    &&& post.enemies@ == pre.enemies@.push(enemy)
    &&& post.battle_enemies@ == pre.battle_enemies@.push(enemy_battle_entity(enemy))
    &&& post.avatar_lineup@ == pre.avatar_lineup@ && post.battle_avatars@ == pre.battle_avatars@
    &&& post.enemy_lineup@ == pre.enemy_lineup@
    &&& same_turns(pre, post) && same_progress(pre, post)
    &&& p == (Packet::OnInitializeEnemy { enemy })
}

/// A formation of the enemy team becomes the enemy lineup; a formation of the
/// player team changes nothing.
pub open spec fn formation_updated(pre: BattleContext, post: BattleContext, entities: Seq<Entity>, team: Team, p: Packet) -> bool {
    &&& team == Team::Enemy ==> post.enemy_lineup@ == entities
    &&& team == Team::Player ==> post.enemy_lineup@ == pre.enemy_lineup@
    &&& post.avatar_lineup@ == pre.avatar_lineup@ && post.battle_avatars@ == pre.battle_avatars@
    &&& post.enemies@ == pre.enemies@ && post.battle_enemies@ == pre.battle_enemies@
    &&& same_turns(pre, post) && same_progress(pre, post)
    &&& p matches Packet::OnUpdateTeamFormation { entities: es, team: t } && es@ == entities && t == team
}

/// The battle entities of a lineup, in lineup order.
pub fn lineup_entities(lineup: &Vec<Avatar>) -> (r: Vec<BattleEntity>)
    ensures
        r@ == lineup@.map_values(|a: Avatar| lineup_battle_entity(a)),
{
    let mut r: Vec<BattleEntity> = Vec::new();
    let mut i: usize = 0;
    while i < lineup.len()
        invariant
            i <= lineup@.len(),
            r@ == lineup@.subrange(0, i as int).map_values(|a: Avatar| lineup_battle_entity(a)),
        decreases lineup@.len() - i,
    {
        r.push(BattleEntity {
            entity: Entity { uid: lineup[i].id, team: Team::Player },
            battle_stats: BattleStats::zero(),
        });
        i = i + 1;
        assert(r@ =~= lineup@.subrange(0, i as int).map_values(|a: Avatar| lineup_battle_entity(a)));
    }
    assert(lineup@.subrange(0, lineup@.len() as int) =~= lineup@);
    r
}

/// A copy of a vector of turn records.
pub fn clone_turns(v: &Vec<TurnInfo>) -> (r: Vec<TurnInfo>)
    ensures
        turn_views(r@) == turn_views(v@),
{
    let mut r: Vec<TurnInfo> = Vec::new();
    let mut i: usize = 0;
    while i < v.len()
        invariant
            i <= v@.len(),
            r@.len() == i,
            forall|j: int| 0 <= j < i ==> (#[trigger] r@[j])@ == v@[j]@,
        decreases v@.len() - i,
    {
        r.push(v[i].clone());
        i = i + 1;
    }
    assert(turn_views(r@) =~= turn_views(v@));
    r
}

/// Apply a stat change to the first battle entity in `list` that is `entity`.
pub fn update_first_entity(list: &mut Vec<BattleEntity>, entity: Entity, stat: Stat)
    ensures
        stat_changed(old(list)@, final(list)@, entity, stat),
        final(list)@.len() == old(list)@.len(),
        forall|i: int| 0 <= i < old(list)@.len() ==> (#[trigger] final(list)@[i]).entity == old(list)@[i].entity,
{
    let mut i: usize = 0;
    while i < list.len()
        invariant
            i <= list@.len(),
            list@ == old(list)@,
            forall|j: int| 0 <= j < i ==> list@[j].entity != entity,
        decreases list@.len() - i,
    {
        if list[i].entity == entity {
            let mut item = list[i];
            apply_stat(&mut item.battle_stats, stat);
            list.set(i, item);
            return;
        }
        i = i + 1;
    }
}


/// Setting a lineup gives every avatar, in lineup order, a player-side battle entity
/// with its avatar id and all stats zero.
pub proof fn lineup_avatars_start_as_fresh_players(pre: BattleContext, post: BattleContext, avatars: Seq<Avatar>, p: Packet)
    requires
        lineup_set(pre, post, avatars, p),
    ensures
        post.battle_avatars@.len() == avatars.len(),
        forall|i: int| 0 <= i < avatars.len() ==> (#[trigger] post.battle_avatars@[i]) == (BattleEntity {
            entity: Entity { uid: avatars[i].id, team: Team::Player },
            battle_stats: BattleStats { hp: F64Bits(0), attack: F64Bits(0), defense: F64Bits(0), speed: F64Bits(0), av: F64Bits(0) },
        }),
{
}

/// An initialized enemy joins the enemy side with its runtime id, its base hit points
/// and its other stats zero.
pub proof fn initialized_enemy_starts_at_base_hp(pre: BattleContext, post: BattleContext, enemy: Enemy, p: Packet)
    requires
        enemy_initialized(pre, post, enemy, p),
    ensures
        post.battle_enemies@.len() == pre.battle_enemies@.len() + 1,
        post.battle_enemies@.last() == (BattleEntity {
            entity: Entity { uid: enemy.uid, team: Team::Enemy },
            battle_stats: BattleStats { hp: enemy.base_stats.hp, attack: F64Bits(0), defense: F64Bits(0), speed: F64Bits(0), av: F64Bits(0) },
        }),
{
}

/// A turn end sends a record with one damage entry per lineup avatar, and afterwards
/// the turn count is still the number of turn records.
pub proof fn turn_end_records_lineup_damage(pre: BattleContext, post: BattleContext, monster_hps: Seq<String>, total: F64Bits, same_av_damages: Option<Seq<F64Bits>>, p: Packet)
    requires
        pre.wf(),
        turn_ended(pre, post, monster_hps, total, same_av_damages, p),
    ensures
        p matches Packet::OnTurnEnd { avatars, avatars_damage, turn_info, .. } && avatars_damage@.len() == avatars@.len()
            && turn_info.avatars_turn_damage@.len() == pre.avatar_lineup@.len(),
        post.turn_count == post.turn_history@.len(),
        post.turn_history@.len() == pre.turn_history@.len() + 1,
{
    assert(turn_views(post.turn_history@).len() == post.turn_history@.len());
}

/// The summary sent at the end of a battle counts exactly the turns it lists.
pub proof fn battle_end_counts_its_turns(pre: BattleContext, post: BattleContext, p: Packet)
    requires
        pre.wf(),
        battle_ended(pre, post, p),
    ensures
        p matches Packet::OnBattleEnd { turn_count, turn_history, .. } && turn_count == turn_history@.len(),
{
    if let Packet::OnBattleEnd { turn_history, .. } = p {
        assert(turn_views(turn_history@).len() == turn_history@.len());
        assert(turn_views(pre.turn_history@).len() == pre.turn_history@.len());
    }
}

/// An entity that occurs in a list has a first occurrence.
proof fn lemma_first_entity_exists(list: Seq<BattleEntity>, entity: Entity, k: int)
    requires
        0 <= k < list.len(),
        list[k].entity == entity,
    ensures
        exists|f: int| is_first_entity_index(list, entity, f),
    decreases k,
{
    if exists|j: int| 0 <= j < k && list[j].entity == entity {
        let j = choose|j: int| 0 <= j < k && list[j].entity == entity;
        lemma_first_entity_exists(list, entity, j);
    } else {
        assert(is_first_entity_index(list, entity, k));
    }
}

/// Applying the same stat change twice leaves the entities as applying it once.
pub proof fn stat_change_is_idempotent(l0: Seq<BattleEntity>, l1: Seq<BattleEntity>, l2: Seq<BattleEntity>, entity: Entity, stat: Stat)
    requires
        stat_changed(l0, l1, entity, stat),
        stat_changed(l1, l2, entity, stat),
    ensures
        l2 == l1,
{
    if exists|k: int| is_first_entity_index(l0, entity, k) {
        let k = choose|k: int| is_first_entity_index(l0, entity, k);
        assert(l1 == l0.update(k, BattleEntity { entity, battle_stats: stats_after(l0[k].battle_stats, stat) }));
        assert(is_first_entity_index(l1, entity, k));
        assert(l1[k].battle_stats == stats_after(l0[k].battle_stats, stat));
        assert(stats_after(l1[k].battle_stats, stat) == l1[k].battle_stats);
        assert(l2 =~= l1);
    } else {
        assert forall|k: int| 0 <= k < l0.len() implies l0[k].entity != entity by {
            if l0[k].entity == entity {
                lemma_first_entity_exists(l0, entity, k);
            }
        }
        assert(l1 == l0);
    }
}

/// A cycle reading that repeats the cycle of the context is skipped and changes
/// nothing; any other reading is recorded.
pub open spec fn cycle_event_handled(pre: BattleContext, post: BattleContext, cycle: u32, r: EventOutcome) -> bool {
    if cycle == pre.cycle {
        r is Skipped && unchanged(pre, post)
    } else {
        r matches EventOutcome::Broadcast(p) && cycle_updated(pre, post, cycle, p)
    }
}

/// The same cycle reported twice in a row is sent at most once: the second report
/// is skipped and leaves the context as it was.
pub proof fn repeated_cycle_is_skipped(a: BattleContext, b: BattleContext, c: BattleContext, cycle: u32, first: EventOutcome, second: EventOutcome)
    requires
        cycle_event_handled(a, b, cycle, first),
        cycle_event_handled(b, c, cycle, second),
    ensures
        second is Skipped,
        unchanged(b, c),
{
}

/// An avatar that occurs in a lineup has a first occurrence.
proof fn lemma_first_lineup_index_exists(lineup: Seq<Avatar>, id: u32, k: int)
    requires
        0 <= k < lineup.len(),
        lineup[k].id == id,
    ensures
        exists|f: int| is_first_lineup_index(lineup, id, f),
    decreases k,
{
    if exists|j: int| 0 <= j < k && lineup[j].id == id {
        let j = choose|j: int| 0 <= j < k && lineup[j].id == id;
        lemma_first_lineup_index_exists(lineup, id, j);
    } else {
        assert(is_first_lineup_index(lineup, id, k));
    }
}

/// Damage is recorded exactly for attackers of the current lineup: a damage event
/// succeeds, with the damage packet, if and only if its attacker is in the lineup.
pub proof fn damage_recorded_iff_attacker_in_lineup(pre: BattleContext, post: BattleContext, e: OnDamageEvent, update: DamageUpdate, r: Result<Packet, String>)
    requires
        damage_handled(pre, post, e, update, r),
    ensures
        r is Ok <==> exists|k: int| 0 <= k < pre.avatar_lineup@.len() && pre.avatar_lineup@[k].id == e.attacker.id,
        r is Ok ==> r == Ok::<Packet, String>(Packet::OnDamage { attacker: e.attacker, damage: e.damage, damage_type: e.damage_type }),
{
    if exists|k: int| 0 <= k < pre.avatar_lineup@.len() && pre.avatar_lineup@[k].id == e.attacker.id {
        let k = choose|k: int| 0 <= k < pre.avatar_lineup@.len() && pre.avatar_lineup@[k].id == e.attacker.id;
        lemma_first_lineup_index_exists(pre.avatar_lineup@, e.attacker.id, k);
        let f = choose|f: int| is_first_lineup_index(pre.avatar_lineup@, e.attacker.id, f);
        assert(is_first_lineup_index(pre.avatar_lineup@, e.attacker.id, f));
    }
}

impl BattleContext {
    /// The context's invariant: one turn record per turn counted; one battle entity per lineup avatar and per enemy,
    /// in the same order, and one damage slot per lineup avatar in the current turn,
    /// the real-time damages and every action-value record.
    pub open spec fn wf(&self) -> bool {
        let n = self.avatar_lineup@.len();
        &&& self.turn_count == self.turn_history@.len()
        &&& self.battle_avatars@.len() == n
        &&& forall|i: int| 0 <= i < n ==> (#[trigger] self.battle_avatars@[i]).entity == Entity {
            uid: self.avatar_lineup@[i].id,
            team: Team::Player,
        }
        &&& self.current_turn_info.avatars_turn_damage@.len() == n
        &&& self.real_time_damages@.len() == n
        &&& forall|i: int| 0 <= i < self.av_history@.len() ==> (#[trigger] self.av_history@[i]).avatars_turn_damage@.len() == n
        &&& self.battle_enemies@.len() == self.enemies@.len()
        &&& forall|i: int| 0 <= i < self.enemies@.len() ==> (#[trigger] self.battle_enemies@[i]).entity == Entity {
            uid: self.enemies@[i].uid,
            team: Team::Enemy,
        }
    }

    /// The context before any battle: preparing, with everything empty and zero.
    pub fn new() -> (r: Self)
        ensures
            r.wf(),
            r.state == BattleState::Preparing,
            r.avatar_lineup@.len() == 0,
            r.battle_avatars@.len() == 0,
            r.enemies@.len() == 0,
            r.enemy_lineup@.len() == 0,
            r.battle_enemies@.len() == 0,
            r.turn_history@.len() == 0,
            r.av_history@.len() == 0,
            r.last_wave_action_value.0 == 0,
            r.action_value.0 == 0,
            r.current_turn_info@ == empty_turn(),
            r.turn_count == 0,
            r.total_damage.0 == 0,
            r.real_time_damages@.len() == 0,
            r.max_waves == 0,
            r.wave == 0,
            r.cycle == 0,
            r.stage_id == 0,
    {
        BattleContext {
            state: BattleState::Preparing,
            avatar_lineup: Vec::new(),
            battle_avatars: Vec::new(),
            enemies: Vec::new(),
            enemy_lineup: Vec::new(),
            battle_enemies: Vec::new(),
            turn_history: Vec::new(),
            av_history: Vec::new(),
            last_wave_action_value: F64Bits(0),
            action_value: F64Bits(0),
            current_turn_info: TurnInfo::empty(),
            turn_count: 0,
            total_damage: F64Bits(0),
            real_time_damages: Vec::new(),
            max_waves: 0,
            wave: 0,
            cycle: 0,
            stage_id: 0,
        }
    }

    /// The first lineup index of the avatar with id `avatar_id`.
    pub fn find_lineup_index_by_avatar_id(&self, avatar_id: u32) -> (r: Option<usize>)
        ensures
            r is None <==> forall|k: int| 0 <= k < self.avatar_lineup@.len() ==> self.avatar_lineup@[k].id != avatar_id,
            r matches Some(k) ==> is_first_lineup_index(self.avatar_lineup@, avatar_id, k as int),
    {
        let mut i: usize = 0;
        while i < self.avatar_lineup.len()
            invariant
                i <= self.avatar_lineup@.len(),
                forall|j: int| 0 <= j < i ==> self.avatar_lineup@[j].id != avatar_id,
            decreases self.avatar_lineup@.len() - i,
        {
            if self.avatar_lineup[i].id == avatar_id {
                return Some(i);
            }
            i = i + 1;
        }
        None
    }

    /// Start a new battle record: turns, enemies, damage, action values, waves, cycle
    /// and stage go back to empty and zero. The lineup and the battle state stay.
    pub fn initialize_battle_context(&mut self)
        ensures
            final(self).current_turn_info@ == empty_turn(),
            final(self).turn_history@.len() == 0,
            final(self).av_history@.len() == 0,
            final(self).enemies@.len() == 0,
            final(self).battle_enemies@.len() == 0,
            final(self).turn_count == 0,
            final(self).total_damage.0 == 0,
            final(self).last_wave_action_value.0 == 0,
            final(self).action_value.0 == 0,
            final(self).max_waves == 0,
            final(self).wave == 0,
            final(self).cycle == 0,
            final(self).stage_id == 0,
            final(self).state == old(self).state,
            final(self).avatar_lineup@ == old(self).avatar_lineup@,
            final(self).battle_avatars@ == old(self).battle_avatars@,
            final(self).enemy_lineup@ == old(self).enemy_lineup@,
            final(self).real_time_damages@ == old(self).real_time_damages@,
    {
        self.current_turn_info = TurnInfo::empty();
        self.turn_history = Vec::new();
        self.av_history = Vec::new();
        self.enemies = Vec::new();
        self.battle_enemies = Vec::new();
        self.turn_count = 0;
        self.total_damage = F64Bits(0);
        self.last_wave_action_value = F64Bits(0);
        self.action_value = F64Bits(0);
        self.max_waves = 0;
        self.wave = 0;
        self.cycle = 0;
        self.stage_id = 0;
    }

    /// The battle begins.
    pub fn handle_on_battle_begin_event(&mut self, e: OnBattleBeginEvent) -> (p: Packet)
        ensures
            old(self).wf() ==> final(self).wf(),
            battle_began(*old(self), *final(self), e, p),
    {
        self.state = BattleState::Started;
        self.max_waves = e.max_waves;
        Packet::OnBattleBegin { max_waves: e.max_waves, max_cycles: e.max_cycles, stage_id: e.stage_id }
    }

    /// The lineup is set up; this starts a new battle record.
    pub fn handle_on_set_lineup_event(&mut self, e: OnSetLineupEvent) -> (p: Packet)
        ensures
            final(self).wf(),
            lineup_set(*old(self), *final(self), e.avatars@, p),
    {
        self.initialize_battle_context();
        let n = e.avatars.len();
        self.current_turn_info.avatars_turn_damage = zero_reals(n);
        self.real_time_damages = zero_reals(n);
        let battle_avatars = lineup_entities(&e.avatars);
        self.avatar_lineup = e.avatars;
        self.battle_avatars = battle_avatars;
        proof {
            assert(self.current_turn_info@ == (TurnView { avatars_turn_damage: zeros(n as nat), ..empty_turn() }));
            assert forall|i: int| 0 <= i < self.avatar_lineup@.len() implies (#[trigger] self.battle_avatars@[i]).entity
                == (Entity { uid: self.avatar_lineup@[i].id, team: Team::Player }) by {}
        }
        Packet::OnSetBattleLineup { avatars: clone_avatars(&self.avatar_lineup) }
    }

    /// An avatar deals damage; `update` holds the three sums with the damage added.
    pub fn handle_on_damage_event(&mut self, e: OnDamageEvent, update: &DamageUpdate) -> (r: Result<Packet, String>)
        requires
            old(self).wf(),
        ensures
            final(self).wf(),
            damage_handled(*old(self), *final(self), e, *update, r),
    {
        match self.find_lineup_index_by_avatar_id(e.attacker.id) {
            None => {
                let mut msg = String::from_str("Could not find avatar ");
                let id_text = u32_to_decimal(e.attacker.id);
                msg.append(id_text.as_str());
                msg.append(" in lineup");
                Err(msg)
            },
            Some(k) => {
                self.current_turn_info.avatars_turn_damage.set(k, update.turn_damage);
                self.real_time_damages.set(k, update.real_time_damage);
                self.total_damage = update.total_damage;
                Ok(Packet::OnDamage { attacker: e.attacker, damage: e.damage, damage_type: e.damage_type })
            },
        }
    }

    /// A turn begins.
    pub fn handle_on_turn_begin_event(&mut self, e: OnTurnBeginEvent) -> (p: Packet)
        ensures
            old(self).wf() ==> final(self).wf(),
            turn_began(*old(self), *final(self), e, p),
    {
        self.action_value = e.action_value;
        self.current_turn_info.action_value = e.action_value;
        Packet::OnTurnBegin {
            action_value: e.action_value,
            turn_owner: e.turn_owner,
            monster_hps: e.monster_hps,
            extra_data: e.extra_data,
        }
    }

    /// A turn ends; `turn_total` is the sum of the turn's damages and `same_av_damages`
    /// the merged damages when the last action-value record has this turn's action value.
    pub fn handle_on_turn_end_event(&mut self, e: OnTurnEndEvent, turn_total: F64Bits, same_av_damages: Option<Vec<F64Bits>>) -> (p: Packet)
        requires
            old(self).wf(),
            old(self).turn_count < usize::MAX,
            same_av_damages matches Some(d) ==> d@.len() == old(self).avatar_lineup@.len(),
        ensures
            final(self).wf(),
            turn_ended(*old(self), *final(self), e.monster_hps@, turn_total, damages_view(same_av_damages), p),
    {
        let ghost pre = *self;
        self.current_turn_info.wave = self.wave;
        self.current_turn_info.cycle = self.cycle;
        let mut turn_info = self.current_turn_info.clone();
        turn_info.monster_hps = e.monster_hps;
        turn_info.total_damage = turn_total;
        let ghost done = finished_turn(pre, e.monster_hps@, turn_total);
        assert(turn_info@ == done);
        self.turn_history.push(turn_info.clone());
        assert(turn_views(self.turn_history@) =~= turn_views(pre.turn_history@).push(done));
        let history_len = self.av_history.len();
        match same_av_damages {
            Some(d) if history_len > 0 => {
                let last = self.av_history.pop();
                match last {
                    Some(mut last_turn) => {
                        let ghost last_view = last_turn@;
                        last_turn.avatars_turn_damage = d;
                        self.av_history.push(last_turn);
                        assert(turn_views(self.av_history@) =~= turn_views(pre.av_history@).update(
                            history_len - 1,
                            TurnView { avatars_turn_damage: d@, ..last_view },
                        ));
                    },
                    None => {},
                }
            },
            _ => {
                self.av_history.push(turn_info.clone());
                assert(turn_views(self.av_history@) =~= turn_views(pre.av_history@).push(done));
            },
        }
        self.current_turn_info.avatars_turn_damage = zero_reals(self.avatar_lineup.len());
        self.turn_count = self.turn_count + 1;
        Packet::OnTurnEnd {
            avatars: clone_avatars(&self.avatar_lineup),
            avatars_damage: clone_reals(&turn_info.avatars_turn_damage),
            total_damage: turn_total,
            action_value: turn_info.action_value,
            turn_info,
        }
    }

    /// An avatar defeats an entity: it is reported as a kill whose attacker is the killer.
    pub fn handle_on_entity_defeated_event(&mut self, e: OnEntityDefeatedEvent) -> (p: Packet)
        ensures
            unchanged(*old(self), *final(self)),
            p == (Packet::OnKill { attacker: e.killer, entity_defeated: e.entity_defeated }),
    {
        Packet::OnKill { attacker: e.killer, entity_defeated: e.entity_defeated }
    }

    /// The battle ends.
    pub fn handle_on_battle_end_event(&mut self) -> (p: Packet)
        ensures
            old(self).wf() ==> final(self).wf(),
            battle_ended(*old(self), *final(self), p),
    {
        self.state = BattleState::Ended;
        Packet::OnBattleEnd {
            avatars: clone_avatars(&self.avatar_lineup),
            turn_history: clone_turns(&self.turn_history),
            av_history: clone_turns(&self.av_history),
            turn_count: self.turn_count,
            total_damage: self.total_damage,
            action_value: self.action_value,
            cycle: self.cycle,
            wave: self.wave,
            stage_id: self.stage_id,
        }
    }

    /// An avatar uses a skill.
    pub fn handle_on_use_skill_event(&mut self, e: OnUseSkillEvent) -> (p: Packet)
        ensures
            unchanged(*old(self), *final(self)),
            p == (Packet::OnUseSkill { avatar: e.avatar, skill: e.skill }),
    {
        Packet::OnUseSkill { avatar: e.avatar, skill: e.skill }
    }

    /// The wave changes.
    pub fn handle_on_update_wave_event(&mut self, e: OnUpdateWaveEvent) -> (p: Packet)
        ensures
            old(self).wf() ==> final(self).wf(),
            wave_updated(*old(self), *final(self), e.wave, p),
    {
        self.wave = e.wave;
        Packet::OnUpdateWave { wave: e.wave }
    }

    /// The cycle changes.
    pub fn handle_on_update_cycle_event(&mut self, e: OnUpdateCycleEvent) -> (p: Packet)
        ensures
            old(self).wf() ==> final(self).wf(),
            cycle_updated(*old(self), *final(self), e.cycle, p),
    {
        self.cycle = e.cycle;
        Packet::OnUpdateCycle { cycle: e.cycle }
    }

    /// A stat of an entity changes.
    pub fn handle_on_stat_change_event(&mut self, e: OnStatChangeEvent) -> (p: Packet)
        ensures
            old(self).wf() ==> final(self).wf(),
            stat_change_handled(*old(self), *final(self), e, p),
    {
        match e.entity.team {
            Team::Player => update_first_entity(&mut self.battle_avatars, e.entity, e.stat),
            Team::Enemy => update_first_entity(&mut self.battle_enemies, e.entity, e.stat),
        }
        Packet::OnStatChange { entity: e.entity, stat: e.stat }
    }

    /// An enemy is initialized.
    pub fn handle_on_initialize_enemy_event(&mut self, e: OnInitializeEnemyEvent) -> (p: Packet)
        ensures
            old(self).wf() ==> final(self).wf(),
            enemy_initialized(*old(self), *final(self), e.enemy, p),
    {
        self.enemies.push(e.enemy.clone());
        let mut stats = BattleStats::zero();
        stats.hp = e.enemy.base_stats.hp;
        self.battle_enemies.push(BattleEntity {
            entity: Entity { uid: e.enemy.uid, team: Team::Enemy },
            battle_stats: stats,
        });
        Packet::OnInitializeEnemy { enemy: e.enemy }
    }

    /// A team's formation changes.
    pub fn handle_on_update_team_formation_event(&mut self, e: OnUpdateTeamFormationEvent) -> (p: Packet)
        ensures
            old(self).wf() ==> final(self).wf(),
            formation_updated(*old(self), *final(self), e.entities@, e.team, p),
    {
        match e.team {
            Team::Player => {},
            Team::Enemy => {
                self.enemy_lineup = clone_entities(&e.entities);
            },
        }
        Packet::OnUpdateTeamFormation { entities: e.entities, team: e.team }
    }

    /// Handle one event: update the context and say what to send. An event that
    /// could not be read is sent as an error packet; a cycle that did not change is
    /// skipped; a damage event from an avatar outside the lineup fails.
    pub fn handle_event(&mut self, event: Result<Event, String>, arithmetic: Arithmetic) -> (r: EventOutcome)
        requires
            event matches Ok(Event::OnDamage(_)) ==> old(self).wf(),
            event matches Ok(Event::OnTurnEnd(_)) ==> {
                &&& old(self).wf()
                &&& old(self).turn_count < usize::MAX
                &&& arithmetic.same_av_damages matches Some(d) ==> d@.len() == old(self).avatar_lineup@.len()
            },
        ensures
            old(self).wf() ==> final(self).wf(),
            event matches Err(m) ==> (unchanged(*old(self), *final(self))
                && (r matches EventOutcome::Broadcast(Packet::Error { msg }) && msg == m)),
            event matches Ok(Event::OnBattleBegin(e)) ==> (r matches EventOutcome::Broadcast(p)
                && battle_began(*old(self), *final(self), e, p)),
            event matches Ok(Event::OnSetBattleLineup(e)) ==> (r matches EventOutcome::Broadcast(p)
                && lineup_set(*old(self), *final(self), e.avatars@, p)),
            event matches Ok(Event::OnDamage(e)) ==> damage_handled(
                *old(self),
                *final(self),
                e,
                arithmetic.damage,
                outcome_result(r),
            ) && !(r is Skipped),
            event matches Ok(Event::OnTurnBegin(e)) ==> (r matches EventOutcome::Broadcast(p)
                && turn_began(*old(self), *final(self), e, p)),
            event matches Ok(Event::OnTurnEnd(e)) ==> (r matches EventOutcome::Broadcast(p)
                && turn_ended(*old(self), *final(self), e.monster_hps@, arithmetic.turn_total, damages_view(arithmetic.same_av_damages), p)),
            event matches Ok(Event::OnEntityDefeated(e)) ==> (unchanged(*old(self), *final(self))
                && r == EventOutcome::Broadcast(Packet::OnKill { attacker: e.killer, entity_defeated: e.entity_defeated })),
            event matches Ok(Event::OnBattleEnd) ==> (r matches EventOutcome::Broadcast(p)
                && battle_ended(*old(self), *final(self), p)),
            event matches Ok(Event::OnUseSkill(e)) ==> (unchanged(*old(self), *final(self))
                && r == EventOutcome::Broadcast(Packet::OnUseSkill { avatar: e.avatar, skill: e.skill })),
            event matches Ok(Event::OnUpdateWave(e)) ==> (r matches EventOutcome::Broadcast(p)
                && wave_updated(*old(self), *final(self), e.wave, p)),
            event matches Ok(Event::OnUpdateCycle(e)) ==> cycle_event_handled(*old(self), *final(self), e.cycle, r),
            event matches Ok(Event::OnStatChange(e)) ==> (r matches EventOutcome::Broadcast(p)
                && stat_change_handled(*old(self), *final(self), e, p)),
            event matches Ok(Event::OnInitializeEnemy(e)) ==> (r matches EventOutcome::Broadcast(p)
                && enemy_initialized(*old(self), *final(self), e.enemy, p)),
            event matches Ok(Event::OnUpdateTeamFormation(e)) ==> (r matches EventOutcome::Broadcast(p)
                && formation_updated(*old(self), *final(self), e.entities@, e.team, p)),
    {
        match event {
            Ok(event) => match event {
                Event::OnBattleBegin(e) => EventOutcome::Broadcast(self.handle_on_battle_begin_event(e)),
                Event::OnSetBattleLineup(e) => EventOutcome::Broadcast(self.handle_on_set_lineup_event(e)),
                Event::OnDamage(e) => match self.handle_on_damage_event(e, &arithmetic.damage) {
                    Ok(p) => EventOutcome::Broadcast(p),
                    Err(m) => EventOutcome::Failed(m),
                },
                Event::OnTurnBegin(e) => EventOutcome::Broadcast(self.handle_on_turn_begin_event(e)),
                Event::OnTurnEnd(e) => EventOutcome::Broadcast(
                    self.handle_on_turn_end_event(e, arithmetic.turn_total, arithmetic.same_av_damages),
                ),
                Event::OnEntityDefeated(e) => EventOutcome::Broadcast(self.handle_on_entity_defeated_event(e)),
                Event::OnBattleEnd => EventOutcome::Broadcast(self.handle_on_battle_end_event()),
                Event::OnUseSkill(e) => EventOutcome::Broadcast(self.handle_on_use_skill_event(e)),
                Event::OnUpdateWave(e) => EventOutcome::Broadcast(self.handle_on_update_wave_event(e)),
                Event::OnUpdateCycle(e) => {
                    if e.cycle == self.cycle {
                        return EventOutcome::Skipped;
                    }
                    EventOutcome::Broadcast(self.handle_on_update_cycle_event(e))
                },
                Event::OnStatChange(e) => EventOutcome::Broadcast(self.handle_on_stat_change_event(e)),
                Event::OnInitializeEnemy(e) => EventOutcome::Broadcast(self.handle_on_initialize_enemy_event(e)),
                Event::OnUpdateTeamFormation(e) => EventOutcome::Broadcast(
                    self.handle_on_update_team_formation_event(e),
                ),
            },
            Err(msg) => EventOutcome::Broadcast(Packet::Error { msg }),
        }
    }

    /// Whether the context satisfies its invariant.
    pub fn check_well_formed(&self) -> (r: bool)
        ensures
            r == self.wf(),
    {
        let n = self.avatar_lineup.len();
        if self.turn_count != self.turn_history.len() || self.battle_avatars.len() != n
            || self.current_turn_info.avatars_turn_damage.len() != n
            || self.real_time_damages.len() != n || self.battle_enemies.len() != self.enemies.len() {
            return false;
        }
        let mut i: usize = 0;
        while i < n
            invariant
                n == self.avatar_lineup@.len(),
                n == self.battle_avatars@.len(),
                i <= n,
                forall|j: int| 0 <= j < i ==> (#[trigger] self.battle_avatars@[j]).entity == (Entity {
                    uid: self.avatar_lineup@[j].id,
                    team: Team::Player,
                }),
            decreases n - i,
        {
            let expected = Entity { uid: self.avatar_lineup[i].id, team: Team::Player };
            if self.battle_avatars[i].entity != expected {
                return false;
            }
            i = i + 1;
        }
        let mut h: usize = 0;
        while h < self.av_history.len()
            invariant
                n == self.avatar_lineup@.len(),
                h <= self.av_history@.len(),
                forall|j: int| 0 <= j < h ==> (#[trigger] self.av_history@[j]).avatars_turn_damage@.len() == n,
            decreases self.av_history@.len() - h,
        {
            if self.av_history[h].avatars_turn_damage.len() != n {
                return false;
            }
            h = h + 1;
        }
        let m = self.enemies.len();
        let mut k: usize = 0;
        while k < m
            invariant
                m == self.enemies@.len(),
                m == self.battle_enemies@.len(),
                k <= m,
                forall|j: int| 0 <= j < k ==> (#[trigger] self.battle_enemies@[j]).entity == (Entity {
                    uid: self.enemies@[j].uid,
                    team: Team::Enemy,
                }),
            decreases m - k,
        {
            let expected = Entity { uid: self.enemies[k].uid, team: Team::Enemy };
            if self.battle_enemies[k].entity != expected {
                return false;
            }
            k = k + 1;
        }
        true
    }
}

} // verus!

//! Battle events reported by the game hooks.
use vstd::prelude::*;
use crate::models::{Avatar, Enemy, Entity, F64Bits, Skill, Stat, Team};

verus! {

/// The battle begins.
#[derive(Debug, Clone, Copy, PartialEq, Eq, Structural)]
pub struct OnBattleBeginEvent {
    pub max_waves: u32,
    pub max_cycles: u32,
    pub stage_id: u32,
}

/// The battle lineup is set up.
#[derive(Debug)]
pub struct OnSetLineupEvent {
    pub avatars: Vec<Avatar>,
}

/// An avatar deals damage.
#[derive(Debug)]
pub struct OnDamageEvent {
    pub attacker: Avatar,
    pub damage: F64Bits,
    pub damage_type: &'static str,
}

/// An entity's turn begins.
#[derive(Debug)]
pub struct OnTurnBeginEvent {
    pub action_value: F64Bits,
    pub turn_owner: Option<Avatar>,
    /// The monsters' hit points as JSON texts.
    pub monster_hps: Vec<String>,
    /// Extra data about the turn owner as a JSON text.
    pub extra_data: String,
}

/// An entity's turn ends.
#[derive(Debug)]
pub struct OnTurnEndEvent {
    /// The monsters' hit points as JSON texts.
    pub monster_hps: Vec<String>,
}

/// An avatar kills an enemy.
#[derive(Debug)]
pub struct OnKillEvent {
    pub attacker: Avatar,
}

/// An entity is defeated.
#[derive(Debug)]
pub struct OnEntityDefeatedEvent {
    pub killer: Avatar,
    pub entity_defeated: Avatar,
}

/// An avatar uses a skill.
#[derive(Debug)]
pub struct OnUseSkillEvent {
    pub avatar: Avatar,
    pub skill: Skill,
}

/// The wave changes.
#[derive(Debug, Clone, Copy, PartialEq, Eq, Structural)]
pub struct OnUpdateWaveEvent {
    pub wave: u32,
}

/// The cycle counter is read.
#[derive(Debug, Clone, Copy, PartialEq, Eq, Structural)]
pub struct OnUpdateCycleEvent {
    pub cycle: u32,
}

/// A stat of an entity changes.
#[derive(Debug, Clone, Copy, PartialEq, Eq, Structural)]
pub struct OnStatChangeEvent {
    pub entity: Entity,
    pub stat: Stat,
}

/// An enemy is initialized.
#[derive(Debug)]
pub struct OnInitializeEnemyEvent {
    pub enemy: Enemy,
}

/// A team's formation changes.
#[derive(Debug)]
pub struct OnUpdateTeamFormationEvent {
    pub entities: Vec<Entity>,
    pub team: Team,
}

/// A battle event.
#[derive(Debug)]
pub enum Event {
    OnBattleBegin(OnBattleBeginEvent),
    OnSetBattleLineup(OnSetLineupEvent),
    OnDamage(OnDamageEvent),
    OnTurnBegin(OnTurnBeginEvent),
    OnTurnEnd(OnTurnEndEvent),
    OnEntityDefeated(OnEntityDefeatedEvent),
    OnBattleEnd,
    OnUseSkill(OnUseSkillEvent),
    OnUpdateWave(OnUpdateWaveEvent),
    OnUpdateCycle(OnUpdateCycleEvent),
    OnStatChange(OnStatChangeEvent),
    OnInitializeEnemy(OnInitializeEnemyEvent),
    OnUpdateTeamFormation(OnUpdateTeamFormationEvent),
}

} // verus!

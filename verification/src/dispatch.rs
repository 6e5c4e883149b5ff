//! Decisions the game hooks take on what they read: whose action an event is, which
//! side an entity is on, and whether an event is reported at all.
use vstd::prelude::*;
use vstd::string::*;
use crate::events::{Event, OnDamageEvent, OnSetLineupEvent, OnStatChangeEvent, OnUseSkillEvent};
use crate::models::{Avatar, Entity, F64Bits, Skill, Stat, Team};
use crate::types::{RPG_GameCore_EntityType, RPG_GameCore_GameEntity, RPG_GameCore_TeamType};

verus! {

/// The entity an action is credited to: the actual owner the game reports, unless the
/// game reported none or a null one, in which case the acting entity itself.
pub fn resolve_actual_owner(actual_owner: Option<RPG_GameCore_GameEntity>, entity: RPG_GameCore_GameEntity) -> (r: RPG_GameCore_GameEntity)
    ensures
        r == (match actual_owner {
            Some(o) => if o.0 != 0 {
                o
            } else {
                entity
            },
            None => entity,
        }),
{
    match actual_owner {
        Some(o) => {
            if o.0 != 0 {
                o
            } else {
                entity
            }
        },
        None => entity,
    }
}

/// Whether a team is the player's side.
pub fn is_player_side(team: RPG_GameCore_TeamType) -> (r: bool)
    ensures
        r == (team == RPG_GameCore_TeamType::TeamLight),
{
    match team {
        RPG_GameCore_TeamType::TeamLight => true,
        _ => false,
    }
}

/// Through whom damage reaches an avatar.
#[derive(Debug, Clone, Copy, PartialEq, Eq, Structural)]
pub enum DamageSource {
    /// The damage owner is the avatar.
    Avatar,
    /// The damage owner is a servant; its summoner is the avatar.
    Servant,
    /// The damage owner is a snapshot; the summoner of the attacker's character data
    /// is the avatar.
    Snapshot,
}

/// Who damage is credited to: only damage of the player's side counts, by the kind
/// of the damage owner.
pub fn damage_source(attacker_team: RPG_GameCore_TeamType, owner_type: RPG_GameCore_EntityType) -> (r: Option<DamageSource>)
    ensures
        attacker_team != RPG_GameCore_TeamType::TeamLight ==> r is None,
        attacker_team == RPG_GameCore_TeamType::TeamLight ==> r == (match owner_type {
            RPG_GameCore_EntityType::Avatar => Some(DamageSource::Avatar),
            RPG_GameCore_EntityType::Servant => Some(DamageSource::Servant),
            RPG_GameCore_EntityType::Snapshot => Some(DamageSource::Snapshot),
            _ => None,
        }),
{
    if !is_player_side(attacker_team) {
        return None;
    }
    match owner_type {
        RPG_GameCore_EntityType::Avatar => Some(DamageSource::Avatar),
        RPG_GameCore_EntityType::Servant => Some(DamageSource::Servant),
        RPG_GameCore_EntityType::Snapshot => Some(DamageSource::Snapshot),
        _ => None,
    }
}

/// Through whom a skill use reaches an avatar.
#[derive(Debug, Clone, Copy, PartialEq, Eq, Structural)]
pub enum SkillSource {
    /// The skill owner is the avatar.
    Avatar,
    /// The skill owner is a servant; its summoner is the avatar.
    Servant,
    /// The skill owner is a battle event; its source caster is the avatar.
    BattleEvent,
}

/// Who a skill use is credited to: only skills of the player's side count, by the
/// kind of the skill owner.
pub fn skill_source(owner_team: RPG_GameCore_TeamType, owner_type: RPG_GameCore_EntityType) -> (r: Option<SkillSource>)
    ensures
        owner_team != RPG_GameCore_TeamType::TeamLight ==> r is None,
        owner_team == RPG_GameCore_TeamType::TeamLight ==> r == (match owner_type {
            RPG_GameCore_EntityType::Avatar => Some(SkillSource::Avatar),
            RPG_GameCore_EntityType::Servant => Some(SkillSource::Servant),
            RPG_GameCore_EntityType::BattleEvent => Some(SkillSource::BattleEvent),
            _ => None,
        }),
{
    if !is_player_side(owner_team) {
        return None;
    }
    match owner_type {
        RPG_GameCore_EntityType::Avatar => Some(SkillSource::Avatar),
        RPG_GameCore_EntityType::Servant => Some(SkillSource::Servant),
        RPG_GameCore_EntityType::BattleEvent => Some(SkillSource::BattleEvent),
        _ => None,
    }
}

/// The kind of entity whose turn begins.
#[derive(Debug, Clone, Copy, PartialEq, Eq, Structural)]
pub enum TurnOwnerKind {
    Avatar,
    Monster,
    Servant,
}

/// The kind of a turn owner; other entities are reported without an owner.
pub fn turn_owner_kind(entity_type: RPG_GameCore_EntityType) -> (r: Option<TurnOwnerKind>)
    ensures
        r == (match entity_type {
            RPG_GameCore_EntityType::Avatar => Some(TurnOwnerKind::Avatar),
            RPG_GameCore_EntityType::Monster => Some(TurnOwnerKind::Monster),
            RPG_GameCore_EntityType::Servant => Some(TurnOwnerKind::Servant),
            _ => None,
        }),
{
    match entity_type {
        RPG_GameCore_EntityType::Avatar => Some(TurnOwnerKind::Avatar),
        RPG_GameCore_EntityType::Monster => Some(TurnOwnerKind::Monster),
        RPG_GameCore_EntityType::Servant => Some(TurnOwnerKind::Servant),
        _ => None,
    }
}

/// The stand-in for a monster whose name could not be read.
pub fn unknown_monster(id: u32) -> (r: Avatar)
    ensures
        r.id == id,
        r.name@ == "Monster"@,
{
    Avatar { id, name: String::from_str("Monster") }
}

/// The side whose stat changes are reported for an entity: avatars are the player's,
/// monsters the enemy's; other entities are not reported.
pub fn stat_change_team(entity_type: RPG_GameCore_EntityType) -> (r: Option<Team>)
    ensures
        r == (match entity_type {
            RPG_GameCore_EntityType::Avatar => Some(Team::Player),
            RPG_GameCore_EntityType::Monster => Some(Team::Enemy),
            _ => None,
        }),
{
    match entity_type {
        RPG_GameCore_EntityType::Avatar => Some(Team::Player),
        RPG_GameCore_EntityType::Monster => Some(Team::Enemy),
        _ => None,
    }
}

/// The side of a team formation that is reported: only the dark team's, as the
/// enemy formation.
pub fn formation_team(team: RPG_GameCore_TeamType) -> (r: Option<Team>)
    ensures
        r == (if team == RPG_GameCore_TeamType::TeamDark {
            Some(Team::Enemy)
        } else {
            None
        }),
{
    match team {
        RPG_GameCore_TeamType::TeamDark => Some(Team::Enemy),
        _ => None,
    }
}

/// Whether a defeat is reported: when the defeated entity is not waiting in limbo to
/// be healed and the killer is an avatar.
pub fn reports_defeat(limbo_wait_heal: bool, killer_type: RPG_GameCore_EntityType) -> (r: bool)
    ensures
        r == (!limbo_wait_heal && killer_type == RPG_GameCore_EntityType::Avatar),
{
    !limbo_wait_heal && match killer_type {
        RPG_GameCore_EntityType::Avatar => true,
        _ => false,
    }
}

/// Whether a follow-up skill is reported: only when it has a name.
pub fn reports_combo_skill(skill: &Skill) -> (r: bool)
    ensures
        r == (skill.name@.len() != 0),
{
    !skill.name.as_str().is_empty()
}

/// The error text of a lineup that could not be read: each message followed by a
/// line break.
pub open spec fn joined_errors(errors: Seq<String>) -> Seq<char>
    decreases errors.len(),
{
    if errors.len() == 0 {
        Seq::empty()
    } else {
        joined_errors(errors.drop_last()) + errors.last()@ + "\n"@
    }
}

/// The lineup event from the avatars read and the errors met while reading them:
/// the event when there were no errors, otherwise all error messages.
pub fn lineup_event(avatars: Vec<Avatar>, errors: &Vec<String>) -> (r: Result<OnSetLineupEvent, String>)
    ensures
        errors@.len() == 0 ==> (r matches Ok(e) && e.avatars@ == avatars@),
        errors@.len() != 0 ==> (r matches Err(m) && m@ == joined_errors(errors@)),
{
    if errors.len() == 0 {
        return Ok(OnSetLineupEvent { avatars });
    }
    let mut text = String::new();
    let mut i: usize = 0;
    while i < errors.len()
        invariant
            i <= errors@.len(),
            text@ == joined_errors(errors@.subrange(0, i as int)),
        decreases errors@.len() - i,
    {
        text.append(errors[i].as_str());
        text.append("\n");
        assert(errors@.subrange(0, i + 1).drop_last() =~= errors@.subrange(0, i as int));
        i = i + 1;
    }
    assert(errors@.subrange(0, errors@.len() as int) =~= errors@);
    Err(text)
}

/// The text of an event that could not be made: "hook kind Event Error: message".
pub open spec fn event_error_text(hook: Seq<char>, kind: Seq<char>, message: Seq<char>) -> Seq<char> {
    hook + " "@ + kind + " Event Error: "@ + message
}

/// The text of a skill event whose skill could not be read: "hook kind Skill Event
/// Error: message".
pub open spec fn skill_error_text(hook: Seq<char>, kind: Seq<char>, message: Seq<char>) -> Seq<char> {
    hook + " "@ + kind + " Skill Event Error: "@ + message
}

/// The error text of an event that could not be made, in the hook `hook`, for an
/// actor of kind `kind`.
pub fn event_error(hook: &str, kind: &str, message: &str) -> (r: String)
    ensures
        r@ == event_error_text(hook@, kind@, message@),
{
    let mut text = String::from_str(hook);
    text.append(" ");
    text.append(kind);
    text.append(" Event Error: ");
    text.append(message);
    text
}

/// How damage reaches an avatar, as error messages name it.
pub open spec fn damage_source_text(source: DamageSource) -> Seq<char> {
    match source {
        DamageSource::Avatar => "Avatar"@,
        DamageSource::Servant => "Servant"@,
        DamageSource::Snapshot => "Snapshot"@,
    }
}

fn damage_source_str(source: DamageSource) -> (r: &'static str)
    ensures
        r@ == damage_source_text(source),
{
    match source {
        DamageSource::Avatar => "Avatar",
        DamageSource::Servant => "Servant",
        DamageSource::Snapshot => "Snapshot",
    }
}

/// The damage event of a hook, given the avatar the damage was credited to or the
/// error met while reading it.
pub fn damage_event(hook: &str, source: DamageSource, attacker: Result<Avatar, String>, damage: F64Bits, damage_type: &'static str) -> (r: Result<Event, String>)
    ensures
        match attacker {
            Ok(a) => r == Ok::<Event, String>(Event::OnDamage(OnDamageEvent { attacker: a, damage, damage_type })),
            Err(m) => r matches Err(t) && t@ == event_error_text(hook@, damage_source_text(source), m@),
        },
{
    match attacker {
        Ok(a) => Ok(Event::OnDamage(OnDamageEvent { attacker: a, damage, damage_type })),
        Err(m) => Err(event_error(hook, damage_source_str(source), m.as_str())),
    }
}

/// How a skill reaches an avatar, as error messages name it.
pub open spec fn skill_source_text(source: SkillSource) -> Seq<char> {
    match source {
        SkillSource::Avatar => "Avatar"@,
        SkillSource::Servant => "Servant"@,
        SkillSource::BattleEvent => "Summon"@,
    }
}

/// How a skill whose data could not be read is named in error messages; an avatar's
/// follow-up skill is an "Avatar Combo" skill.
pub open spec fn skill_error_kind(source: SkillSource, combo: bool) -> Seq<char> {
    match source {
        SkillSource::Avatar => if combo {
            "Avatar Combo"@
        } else {
            "Avatar"@
        },
        SkillSource::Servant => "Servant"@,
        SkillSource::BattleEvent => "Summon"@,
    }
}

/// The skill-use event of a hook (`combo` for follow-up skills), given the skill read
/// and the avatar the skill was credited to, or the errors met while reading them.
/// The avatar is not looked at when the skill could not be read. A follow-up skill
/// of an avatar that has no name is not reported.
pub fn skill_event(hook: &str, source: SkillSource, combo: bool, skill: Result<Skill, String>, avatar: Result<Avatar, String>) -> (r: Option<Result<Event, String>>)
    ensures
        match skill {
            Err(m) => r matches Some(Err(t)) && t@ == skill_error_text(hook@, skill_error_kind(source, combo), m@),
            Ok(sk) => match avatar {
                Err(m) => r matches Some(Err(t)) && t@ == event_error_text(hook@, skill_source_text(source), m@),
                Ok(a) => if combo && source == SkillSource::Avatar && sk.name@.len() == 0 {
                    r is None
                } else {
                    r == Some(Ok::<Event, String>(Event::OnUseSkill(OnUseSkillEvent { avatar: a, skill: sk })))
                },
            },
        },
{
    match skill {
        Err(m) => {
            let kind = match source {
                SkillSource::Avatar => if combo {
                    "Avatar Combo"
                } else {
                    "Avatar"
                },
                SkillSource::Servant => "Servant",
                SkillSource::BattleEvent => "Summon",
            };
            let mut text = String::from_str(hook);
            text.append(" ");
            text.append(kind);
            text.append(" Skill Event Error: ");
            text.append(m.as_str());
            Some(Err(text))
        },
        Ok(sk) => match avatar {
            Err(m) => {
                let kind = match source {
                    SkillSource::Avatar => "Avatar",
                    SkillSource::Servant => "Servant",
                    SkillSource::BattleEvent => "Summon",
                };
                Some(Err(event_error(hook, kind, m.as_str())))
            },
            Ok(a) => {
                let is_avatar = match source {
                    SkillSource::Avatar => true,
                    _ => false,
                };
                if combo && is_avatar && !reports_combo_skill(&sk) {
                    None
                } else {
                    Some(Ok(Event::OnUseSkill(OnUseSkillEvent { avatar: a, skill: sk })))
                }
            },
        },
    }
}

/// Whose stat changed: an avatar, with the result of reading it, or a monster by its
/// runtime id.
#[derive(Debug)]
pub enum StatOwner {
    Avatar(Result<Avatar, String>),
    Monster(u32),
}

/// The stat-change event of a hook: an avatar's change is reported on the player's
/// side by avatar id, a monster's on the enemy's side by runtime id.
pub fn stat_event(hook: &str, owner: StatOwner, stat: Stat) -> (r: Result<Event, String>)
    ensures
        match owner {
            StatOwner::Avatar(Ok(a)) => r == Ok::<Event, String>(Event::OnStatChange(OnStatChangeEvent {
                entity: Entity { uid: a.id, team: Team::Player },
                stat,
            })),
            StatOwner::Avatar(Err(m)) => r matches Err(t) && t@ == event_error_text(hook@, "Avatar"@, m@),
            StatOwner::Monster(uid) => r == Ok::<Event, String>(Event::OnStatChange(OnStatChangeEvent {
                entity: Entity { uid, team: Team::Enemy },
                stat,
            })),
        },
{
    match owner {
        StatOwner::Avatar(Ok(a)) => Ok(Event::OnStatChange(OnStatChangeEvent {
            entity: Entity { uid: a.id, team: Team::Player },
            stat,
        })),
        StatOwner::Avatar(Err(m)) => Err(event_error(hook, "Avatar", m.as_str())),
        StatOwner::Monster(uid) => Ok(Event::OnStatChange(OnStatChangeEvent {
            entity: Entity { uid, team: Team::Enemy },
            stat,
        })),
    }
}

} // verus!

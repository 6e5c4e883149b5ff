//! Readings of game values: skill types, fixed-point halves, stats and colors.
use vstd::prelude::*;
use crate::models::{F64Bits, Skill, Stat};
use vstd::string::*;
use crate::types::{RPG_GameCore_AbilityProperty, RPG_GameCore_AttackType};

verus! {

/// The name under which an attack type is reported.
pub open spec fn skill_type_text(attack_type: RPG_GameCore_AttackType) -> Seq<char> {
    match attack_type {
        RPG_GameCore_AttackType::Unknown => "Talent"@,
        RPG_GameCore_AttackType::Normal => "Basic"@,
        RPG_GameCore_AttackType::BPSkill => "Skill"@,
        RPG_GameCore_AttackType::Ultra => "Ultimate"@,
        RPG_GameCore_AttackType::QTE => "QTE"@,
        RPG_GameCore_AttackType::DOT => "DOT"@,
        RPG_GameCore_AttackType::Pursued => "Pursued"@,
        RPG_GameCore_AttackType::Maze => "Technique"@,
        RPG_GameCore_AttackType::MazeNormal => "MazeNormal"@,
        RPG_GameCore_AttackType::Insert => "Follow-up"@,
        RPG_GameCore_AttackType::ElementDamage => "Elemental Damage"@,
        RPG_GameCore_AttackType::Level => "Level"@,
        RPG_GameCore_AttackType::Servant => "Servant"@,
        RPG_GameCore_AttackType::TrueDamage => "True Damage"@,
    }
}

/// The name each stored attack-type value is reported under: 0 is a talent, 1 a
/// basic attack, 2 a skill, 3 an ultimate, and so on in the game's declaration order.
pub proof fn attack_types_are_named_by_stored_value()
    ensures
        skill_type_text(RPG_GameCore_AttackType::from_raw_value(0)->0) == "Talent"@,
        skill_type_text(RPG_GameCore_AttackType::from_raw_value(1)->0) == "Basic"@,
        skill_type_text(RPG_GameCore_AttackType::from_raw_value(2)->0) == "Skill"@,
        skill_type_text(RPG_GameCore_AttackType::from_raw_value(3)->0) == "Ultimate"@,
        skill_type_text(RPG_GameCore_AttackType::from_raw_value(4)->0) == "QTE"@,
        skill_type_text(RPG_GameCore_AttackType::from_raw_value(5)->0) == "DOT"@,
        skill_type_text(RPG_GameCore_AttackType::from_raw_value(6)->0) == "Pursued"@,
        skill_type_text(RPG_GameCore_AttackType::from_raw_value(7)->0) == "Technique"@,
        skill_type_text(RPG_GameCore_AttackType::from_raw_value(8)->0) == "MazeNormal"@,
        skill_type_text(RPG_GameCore_AttackType::from_raw_value(9)->0) == "Follow-up"@,
        skill_type_text(RPG_GameCore_AttackType::from_raw_value(10)->0) == "Elemental Damage"@,
        skill_type_text(RPG_GameCore_AttackType::from_raw_value(11)->0) == "Level"@,
        skill_type_text(RPG_GameCore_AttackType::from_raw_value(12)->0) == "Servant"@,
        skill_type_text(RPG_GameCore_AttackType::from_raw_value(13)->0) == "True Damage"@,
{
}

/// The name under which an attack type is reported.
pub fn get_skill_type_str(attack_type: RPG_GameCore_AttackType) -> (r: &'static str)
    ensures
        r@ == skill_type_text(attack_type),
{
    match attack_type {
        RPG_GameCore_AttackType::Unknown => "Talent",
        RPG_GameCore_AttackType::Normal => "Basic",
        RPG_GameCore_AttackType::BPSkill => "Skill",
        RPG_GameCore_AttackType::Ultra => "Ultimate",
        RPG_GameCore_AttackType::QTE => "QTE",
        RPG_GameCore_AttackType::DOT => "DOT",
        RPG_GameCore_AttackType::Pursued => "Pursued",
        RPG_GameCore_AttackType::Maze => "Technique",
        RPG_GameCore_AttackType::MazeNormal => "MazeNormal",
        RPG_GameCore_AttackType::Insert => "Follow-up",
        RPG_GameCore_AttackType::ElementDamage => "Elemental Damage",
        RPG_GameCore_AttackType::Level => "Level",
        RPG_GameCore_AttackType::Servant => "Servant",
        RPG_GameCore_AttackType::TrueDamage => "True Damage",
    }
}

/// A skill from its name and its attack type; a skill whose attack type could not be
/// read is reported as a talent.
pub fn skill_of(name: String, attack_type: Option<RPG_GameCore_AttackType>) -> (r: Skill)
    ensures
        r.name == name,
        r.skill_type@ == skill_type_text(
            match attack_type {
                Some(t) => t,
                None => RPG_GameCore_AttackType::Unknown,
            },
        ),
{
    let t = match attack_type {
        Some(t) => t,
        None => RPG_GameCore_AttackType::Unknown,
    };
    Skill { name, skill_type: String::from_str(get_skill_type_str(t)) }
}

/// The integer and fraction halves of a 32.32 fixed-point value: the raw value, read
/// as unsigned, is `integer * 2^32 + fraction`.
pub fn fixpoint_halves(raw_value: i64) -> (r: (u32, u32))
    ensures
        r.0 as int * 0x1_0000_0000 + r.1 as int == raw_value as u64 as int,
{
    let bits = raw_value as u64;
    let hi = ((bits & 0xFFFF_FFFF_0000_0000u64) >> 32u64) as u32;
    let lo = (bits & 0x0000_0000_FFFF_FFFFu64) as u32;
    assert(((bits & 0xFFFF_FFFF_0000_0000u64) >> 32u64) as u32 as int * 0x1_0000_0000
        + (bits & 0x0000_0000_FFFF_FFFFu64) as u32 as int == bits as int) by (bit_vector);
    (hi, lo)
}

/// The stat that a change of an ability property reports.
#[derive(Debug, Clone, Copy, PartialEq, Eq, Structural)]
pub enum StatKind {
    HP,
    Attack,
    Defense,
    Speed,
    AV,
}

/// The stat reported for a change of `property`: current hit points, attack, defence,
/// speed and action delay are reported; other properties are not.
pub fn stat_kind_of_property(property: RPG_GameCore_AbilityProperty) -> (r: Option<StatKind>)
    ensures
        r == (match property {
            RPG_GameCore_AbilityProperty::CurrentHP => Some(StatKind::HP),
            RPG_GameCore_AbilityProperty::Attack => Some(StatKind::Attack),
            RPG_GameCore_AbilityProperty::Defence => Some(StatKind::Defense),
            RPG_GameCore_AbilityProperty::Speed => Some(StatKind::Speed),
            RPG_GameCore_AbilityProperty::ActionDelay => Some(StatKind::AV),
            _ => None,
        }),
{
    match property {
        RPG_GameCore_AbilityProperty::CurrentHP => Some(StatKind::HP),
        RPG_GameCore_AbilityProperty::Attack => Some(StatKind::Attack),
        RPG_GameCore_AbilityProperty::Defence => Some(StatKind::Defense),
        RPG_GameCore_AbilityProperty::Speed => Some(StatKind::Speed),
        RPG_GameCore_AbilityProperty::ActionDelay => Some(StatKind::AV),
        _ => None,
    }
}

/// The stat change of a kind with a value.
pub fn stat_of_kind(kind: StatKind, value: F64Bits) -> (r: Stat)
    ensures
        r == (match kind {
            StatKind::HP => Stat::HP(value),
            StatKind::Attack => Stat::Attack(value),
            StatKind::Defense => Stat::Defense(value),
            StatKind::Speed => Stat::Speed(value),
            StatKind::AV => Stat::AV(value),
        }),
{
    match kind {
        StatKind::HP => Stat::HP(value),
        StatKind::Attack => Stat::Attack(value),
        StatKind::Defense => Stat::Defense(value),
        StatKind::Speed => Stat::Speed(value),
        StatKind::AV => Stat::AV(value),
    }
}

/// The color table of the lineup, as red, green and blue.
pub open spec fn character_colors() -> Seq<(u8, u8, u8)> {
    seq![
        (255u8, 99u8, 132u8),
        (54u8, 162u8, 235u8),
        (255u8, 206u8, 86u8),
        (75u8, 192u8, 192u8),
        (153u8, 102u8, 255u8),
        (255u8, 159u8, 64u8),
        (231u8, 233u8, 237u8),
        (102u8, 255u8, 102u8),
    ]
}

/// The color of the avatar at a lineup index: the table is used round-robin.
pub fn get_character_color(index: usize) -> (r: (u8, u8, u8))
    ensures
        r == character_colors()[(index % 8) as int],
{
    let colors: [(u8, u8, u8); 8] = [
        (255, 99, 132),
        (54, 162, 235),
        (255, 206, 86),
        (75, 192, 192),
        (153, 102, 255),
        (255, 159, 64),
        (231, 233, 237),
        (102, 255, 102),
    ];
    let r = colors[index % 8];
    assert(colors@ =~= character_colors());
    r
}

} // verus!

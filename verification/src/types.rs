//! Handles of the game's managed classes and the game's enumerations.
//!
//! A handle is the address of a managed object. The enumerations carry the numeric
//! values the game stores for them; `from_raw` reads such a value back safely.
use vstd::prelude::*;
use crate::il2cpp::Il2CppObject;

verus! {

/// A text identifier of the game's text map.
#[derive(Debug, Clone, Copy, PartialEq, Eq, Structural)]
pub struct TextID {
    pub hash: i32,
    pub hash64: u64,
}

/// A 32.32 fixed-point number as the game stores it.
#[derive(Debug, Clone, Copy, PartialEq, Eq, Structural)]
pub struct FixPoint {
    pub raw_value: i64,
}

/// The game enumeration `RPG_GameCore_TeamType`; each variant stands for the value its position gives.
#[derive(Debug, Clone, Copy, PartialEq, Eq, Structural)]
pub enum RPG_GameCore_TeamType {
    TeamUnknow,
    TeamLight,
    TeamDark,
    TeamNeutral,
    TeamNPC,
    Count,
}

impl RPG_GameCore_TeamType {
    /// The numeric value the game uses for this variant.
    pub open spec fn raw_value(self) -> i32 {
        match self {
            Self::TeamUnknow => 0,
            Self::TeamLight => 1,
            Self::TeamDark => 2,
            Self::TeamNeutral => 3,
            Self::TeamNPC => 4,
            Self::Count => 5,
        }
    }

    /// The numeric value the game uses for this variant.
    pub fn raw(&self) -> (r: i32)
        ensures
            r == self.raw_value(),
    {
        match self {
            Self::TeamUnknow => 0,
            Self::TeamLight => 1,
            Self::TeamDark => 2,
            Self::TeamNeutral => 3,
            Self::TeamNPC => 4,
            Self::Count => 5,
        }
    }

    /// The variant for a numeric value, if any.
    pub open spec fn from_raw_value(value: i32) -> Option<Self> {
        match value {
            0 => Some(Self::TeamUnknow),
            1 => Some(Self::TeamLight),
            2 => Some(Self::TeamDark),
            3 => Some(Self::TeamNeutral),
            4 => Some(Self::TeamNPC),
            5 => Some(Self::Count),
            _ => None,
        }
    }

    /// The variant for a numeric value, or `None` outside 0..6.
    pub fn from_raw(value: i32) -> (r: Option<Self>)
        ensures
            r == Self::from_raw_value(value),
            r is Some <==> 0 <= value < 6,
    {
        match value {
            0 => Some(Self::TeamUnknow),
            1 => Some(Self::TeamLight),
            2 => Some(Self::TeamDark),
            3 => Some(Self::TeamNeutral),
            4 => Some(Self::TeamNPC),
            5 => Some(Self::Count),
            _ => None,
        }
    }
    /// Reading back the value of a variant gives the variant; every value read back
    /// lies in 0..6.
    pub proof fn lemma_raw_round_trip(self)
        ensures
            Self::from_raw_value(self.raw_value()) == Some(self),
            0 <= self.raw_value() < 6,
    {
    }

    /// The value the game stores for each variant is the one the game declares for
    /// it, and reading that value gives the variant back.
    pub proof fn stored_values_are_declared()
        ensures
            Self::TeamUnknow.raw_value() == 0,
            Self::from_raw_value(0) == Some(Self::TeamUnknow),
            Self::TeamLight.raw_value() == 1,
            Self::from_raw_value(1) == Some(Self::TeamLight),
            Self::TeamDark.raw_value() == 2,
            Self::from_raw_value(2) == Some(Self::TeamDark),
            Self::TeamNeutral.raw_value() == 3,
            Self::from_raw_value(3) == Some(Self::TeamNeutral),
            Self::TeamNPC.raw_value() == 4,
            Self::from_raw_value(4) == Some(Self::TeamNPC),
            Self::Count.raw_value() == 5,
            Self::from_raw_value(5) == Some(Self::Count),
    {
    }
}
/// The game enumeration `UnityEngine_ProBuilder_EntityType`; each variant stands for the value its position gives.
#[derive(Debug, Clone, Copy, PartialEq, Eq, Structural)]
pub enum UnityEngine_ProBuilder_EntityType {
    Detail,
    Occluder,
    Trigger,
    Collider,
    Mover,
}

impl UnityEngine_ProBuilder_EntityType {
    /// The numeric value the game uses for this variant.
    pub open spec fn raw_value(self) -> i32 {
        match self {
            Self::Detail => 0,
            Self::Occluder => 1,
            Self::Trigger => 2,
            Self::Collider => 3,
            Self::Mover => 4,
        }
    }

    /// The numeric value the game uses for this variant.
    pub fn raw(&self) -> (r: i32)
        ensures
            r == self.raw_value(),
    {
        match self {
            Self::Detail => 0,
            Self::Occluder => 1,
            Self::Trigger => 2,
            Self::Collider => 3,
            Self::Mover => 4,
        }
    }

    /// The variant for a numeric value, if any.
    pub open spec fn from_raw_value(value: i32) -> Option<Self> {
        match value {
            0 => Some(Self::Detail),
            1 => Some(Self::Occluder),
            2 => Some(Self::Trigger),
            3 => Some(Self::Collider),
            4 => Some(Self::Mover),
            _ => None,
        }
    }

    /// The variant for a numeric value, or `None` outside 0..5.
    pub fn from_raw(value: i32) -> (r: Option<Self>)
        ensures
            r == Self::from_raw_value(value),
            r is Some <==> 0 <= value < 5,
    {
        match value {
            0 => Some(Self::Detail),
            1 => Some(Self::Occluder),
            2 => Some(Self::Trigger),
            3 => Some(Self::Collider),
            4 => Some(Self::Mover),
            _ => None,
        }
    }
    /// Reading back the value of a variant gives the variant; every value read back
    /// lies in 0..5.
    pub proof fn lemma_raw_round_trip(self)
        ensures
            Self::from_raw_value(self.raw_value()) == Some(self),
            0 <= self.raw_value() < 5,
    {
    }

    /// The value the game stores for each variant is the one the game declares for
    /// it, and reading that value gives the variant back.
    pub proof fn stored_values_are_declared()
        ensures
            Self::Detail.raw_value() == 0,
            Self::from_raw_value(0) == Some(Self::Detail),
            Self::Occluder.raw_value() == 1,
            Self::from_raw_value(1) == Some(Self::Occluder),
            Self::Trigger.raw_value() == 2,
            Self::from_raw_value(2) == Some(Self::Trigger),
            Self::Collider.raw_value() == 3,
            Self::from_raw_value(3) == Some(Self::Collider),
            Self::Mover.raw_value() == 4,
            Self::from_raw_value(4) == Some(Self::Mover),
    {
    }
}
/// The game enumeration `RPG_GameCore_AbilityProperty`; each variant stands for the value its position gives.
#[derive(Debug, Clone, Copy, PartialEq, Eq, Structural)]
pub enum RPG_GameCore_AbilityProperty {
    Unknow,
    MaxHP,
    BaseHP,
    HPAddedRatio,
    HPDelta,
    HPConvert,
    DirtyHPDelta,
    DirtyHPRatio,
    RallyHP,
    NegativeHP,
    CurrentHP,
    MaxSP,
    CurrentSP,
    MaxSpecialSP,
    CurrentSpecialSP,
    AdditionalBP,
    Attack,
    BaseAttack,
    AttackAddedRatio,
    AttackDelta,
    AttackConvert,
    Defence,
    BaseDefence,
    DefenceAddedRatio,
    DefenceDelta,
    DefenceConvert,
    DefenceOverride,
    Level,
    Promotion,
    Rank,
    Speed,
    BaseSpeed,
    SpeedAddedRatio,
    SpeedDelta,
    SpeedConvert,
    SpeedOverride,
    ActionDelay,
    ActionDelayAddedRatio,
    ActionDelayAddAttenuation,
    MaxStance,
    CurrentStance,
    Level_AllDamageAddedRatio,
    AllDamageTypeAddedRatio,
    AllDamageReduce,
    DotDamageAddedRatio,
    FatigueRatio,
    CriticalChance,
    CriticalChanceBase,
    CriticalChanceConvert,
    CriticalDamage,
    CriticalDamageBase,
    CriticalDamageConvert,
    CriticalResistance,
    PhysicalAddedRatio,
    FireAddedRatio,
    IceAddedRatio,
    ThunderAddedRatio,
    QuantumAddedRatio,
    ImaginaryAddedRatio,
    WindAddedRatio,
    PhysicalResistance,
    FireResistance,
    IceResistance,
    ThunderResistance,
    QuantumResistance,
    ImaginaryResistance,
    WindResistance,
    PhysicalResistanceBase,
    FireResistanceBase,
    IceResistanceBase,
    ThunderResistanceBase,
    QuantumResistanceBase,
    ImaginaryResistanceBase,
    WindResistanceBase,
    PhysicalResistanceDelta,
    FireResistanceDelta,
    IceResistanceDelta,
    ThunderResistanceDelta,
    QuantumResistanceDelta,
    ImaginaryResistanceDelta,
    WindResistanceDelta,
    AllDamageTypeResistance,
    PhysicalPenetrate,
    FirePenetrate,
    IcePenetrate,
    ThunderPenetrate,
    QuantumPenetrate,
    ImaginaryPenetrate,
    WindPenetrate,
    AllDamageTypePenetrate,
    PhysicalTakenRatio,
    FireTakenRatio,
    IceTakenRatio,
    ThunderTakenRatio,
    QuantumTakenRatio,
    ImaginaryTakenRatio,
    WindTakenRatio,
    AllDamageTypeTakenRatio,
    Monster_DamageTakenRatio,
    PhysicalAbsorb,
    FireAbsorb,
    IceAbsorb,
    ThunderAbsorb,
    QuantumAbsorb,
    ImaginaryAbsorb,
    WindAbsorb,
    MinimumFatigueRatio,
    ForceStanceBreakRatio,
    StanceBreakAddedRatio,
    StanceBreakResistance,
    StanceBreakTakenRatio,
    PhysicalStanceBreakTakenRatio,
    FireStanceBreakTakenRatio,
    IceStanceBreakTakenRatio,
    ThunderStanceBreakTakenRatio,
    WindStanceBreakTakenRatio,
    QuantumStanceBreakTakenRatio,
    ImaginaryStanceBreakTakenRatio,
    StanceWeakAddedRatio,
    StanceDefaultAddedRatio,
    HealRatio,
    HealRatioBase,
    HealRatioConvert,
    HealTakenRatio,
    Shield,
    MaxShield,
    ShieldAddedRatio,
    ShieldTakenRatio,
    StatusProbability,
    StatusProbabilityBase,
    StatusProbabilityConvert,
    StatusResistance,
    StatusResistanceBase,
    StatusResistanceConvert,
    SPRatio,
    SPRatioBase,
    SPRatioConvert,
    SPRatioOverride,
    BreakDamageAddedRatio,
    BreakDamageAddedRatioBase,
    BreakDamageAddedRatioConvert,
    BreakDamageExtraAddedRatio,
    PhysicalStanceBreakResistance,
    FireStanceBreakResistance,
    IceStanceBreakResistance,
    ThunderStanceBreakResistance,
    WindStanceBreakResistance,
    QuantumStanceBreakResistance,
    ImaginaryStanceBreakResistance,
    AggroBase,
    AggroAddedRatio,
    AggroDelta,
    RelicValueExtraAdditionRatio,
    EquipValueExtraAdditionRatio,
    EquipExtraRank,
    AvatarExtraRank,
    Combo,
    NormalBattleCount,
    ExtraAttackAddedRatio1,
    ExtraAttackAddedRatio2,
    ExtraAttackAddedRatio3,
    ExtraAttackAddedRatio4,
    ExtraDefenceAddedRatio1,
    ExtraDefenceAddedRatio2,
    ExtraDefenceAddedRatio3,
    ExtraDefenceAddedRatio4,
    ExtraHPAddedRatio1,
    ExtraHPAddedRatio2,
    ExtraHPAddedRatio3,
    ExtraHPAddedRatio4,
    ExtraHealAddedRatio,
    ExtraAllDamageTypeAddedRatio1,
    ExtraAllDamageTypeAddedRatio2,
    ExtraAllDamageTypeAddedRatio3,
    ExtraAllDamageTypeAddedRatio4,
    ExtraAllDamageReduce,
    ExtraShieldAddedRatio,
    ExtraSpeedAddedRatio1,
    ExtraSpeedAddedRatio2,
    ExtraSpeedAddedRatio3,
    ExtraSpeedAddedRatio4,
    ExtraLuckChance,
    ExtraLuckDamage,
    ExtraFrontPowerBase,
    ExtraFrontPowerAddedRatio1,
    ExtraFrontPowerAddedRatio2,
    ExtraBackPowerBase,
    ExtraBackPowerAddedRatio1,
    ExtraBackPowerAddedRatio2,
    ExtraUltraDamageAddedRatio1,
    ExtraSkillDamageAddedRatio1,
    ExtraNormalDamageAddedRatio1,
    ExtraInsertDamageAddedRatio1,
    Count,
}

impl RPG_GameCore_AbilityProperty {
    /// The numeric value the game uses for this variant.
    pub open spec fn raw_value(self) -> i32 {
        match self {
            Self::Unknow => 0,
            Self::MaxHP => 1,
            Self::BaseHP => 2,
            Self::HPAddedRatio => 3,
            Self::HPDelta => 4,
            Self::HPConvert => 5,
            Self::DirtyHPDelta => 6,
            Self::DirtyHPRatio => 7,
            Self::RallyHP => 8,
            Self::NegativeHP => 9,
            Self::CurrentHP => 10,
            Self::MaxSP => 11,
            Self::CurrentSP => 12,
            Self::MaxSpecialSP => 13,
            Self::CurrentSpecialSP => 14,
            Self::AdditionalBP => 15,
            Self::Attack => 16,
            Self::BaseAttack => 17,
            Self::AttackAddedRatio => 18,
            Self::AttackDelta => 19,
            Self::AttackConvert => 20,
            Self::Defence => 21,
            Self::BaseDefence => 22,
            Self::DefenceAddedRatio => 23,
            Self::DefenceDelta => 24,
            Self::DefenceConvert => 25,
            Self::DefenceOverride => 26,
            Self::Level => 27,
            Self::Promotion => 28,
            Self::Rank => 29,
            Self::Speed => 30,
            Self::BaseSpeed => 31,
            Self::SpeedAddedRatio => 32,
            Self::SpeedDelta => 33,
            Self::SpeedConvert => 34,
            Self::SpeedOverride => 35,
            Self::ActionDelay => 36,
            Self::ActionDelayAddedRatio => 37,
            Self::ActionDelayAddAttenuation => 38,
            Self::MaxStance => 39,
            Self::CurrentStance => 40,
            Self::Level_AllDamageAddedRatio => 41,
            Self::AllDamageTypeAddedRatio => 42,
            Self::AllDamageReduce => 43,
            Self::DotDamageAddedRatio => 44,
            Self::FatigueRatio => 45,
            Self::CriticalChance => 46,
            Self::CriticalChanceBase => 47,
            Self::CriticalChanceConvert => 48,
            Self::CriticalDamage => 49,
            Self::CriticalDamageBase => 50,
            Self::CriticalDamageConvert => 51,
            Self::CriticalResistance => 52,
            Self::PhysicalAddedRatio => 53,
            Self::FireAddedRatio => 54,
            Self::IceAddedRatio => 55,
            Self::ThunderAddedRatio => 56,
            Self::QuantumAddedRatio => 57,
            Self::ImaginaryAddedRatio => 58,
            Self::WindAddedRatio => 59,
            Self::PhysicalResistance => 60,
            Self::FireResistance => 61,
            Self::IceResistance => 62,
            Self::ThunderResistance => 63,
            Self::QuantumResistance => 64,
            Self::ImaginaryResistance => 65,
            Self::WindResistance => 66,
            Self::PhysicalResistanceBase => 67,
            Self::FireResistanceBase => 68,
            Self::IceResistanceBase => 69,
            Self::ThunderResistanceBase => 70,
            Self::QuantumResistanceBase => 71,
            Self::ImaginaryResistanceBase => 72,
            Self::WindResistanceBase => 73,
            Self::PhysicalResistanceDelta => 74,
            Self::FireResistanceDelta => 75,
            Self::IceResistanceDelta => 76,
            Self::ThunderResistanceDelta => 77,
            Self::QuantumResistanceDelta => 78,
            Self::ImaginaryResistanceDelta => 79,
            Self::WindResistanceDelta => 80,
            Self::AllDamageTypeResistance => 81,
            Self::PhysicalPenetrate => 82,
            Self::FirePenetrate => 83,
            Self::IcePenetrate => 84,
            Self::ThunderPenetrate => 85,
            Self::QuantumPenetrate => 86,
            Self::ImaginaryPenetrate => 87,
            Self::WindPenetrate => 88,
            Self::AllDamageTypePenetrate => 89,
            Self::PhysicalTakenRatio => 90,
            Self::FireTakenRatio => 91,
            Self::IceTakenRatio => 92,
            Self::ThunderTakenRatio => 93,
            Self::QuantumTakenRatio => 94,
            Self::ImaginaryTakenRatio => 95,
            Self::WindTakenRatio => 96,
            Self::AllDamageTypeTakenRatio => 97,
            Self::Monster_DamageTakenRatio => 98,
            Self::PhysicalAbsorb => 99,
            Self::FireAbsorb => 100,
            Self::IceAbsorb => 101,
            Self::ThunderAbsorb => 102,
            Self::QuantumAbsorb => 103,
            Self::ImaginaryAbsorb => 104,
            Self::WindAbsorb => 105,
            Self::MinimumFatigueRatio => 106,
            Self::ForceStanceBreakRatio => 107,
            Self::StanceBreakAddedRatio => 108,
            Self::StanceBreakResistance => 109,
            Self::StanceBreakTakenRatio => 110,
            Self::PhysicalStanceBreakTakenRatio => 111,
            Self::FireStanceBreakTakenRatio => 112,
            Self::IceStanceBreakTakenRatio => 113,
            Self::ThunderStanceBreakTakenRatio => 114,
            Self::WindStanceBreakTakenRatio => 115,
            Self::QuantumStanceBreakTakenRatio => 116,
            Self::ImaginaryStanceBreakTakenRatio => 117,
            Self::StanceWeakAddedRatio => 118,
            Self::StanceDefaultAddedRatio => 119,
            Self::HealRatio => 120,
            Self::HealRatioBase => 121,
            Self::HealRatioConvert => 122,
            Self::HealTakenRatio => 123,
            Self::Shield => 124,
            Self::MaxShield => 125,
            Self::ShieldAddedRatio => 126,
            Self::ShieldTakenRatio => 127,
            Self::StatusProbability => 128,
            Self::StatusProbabilityBase => 129,
            Self::StatusProbabilityConvert => 130,
            Self::StatusResistance => 131,
            Self::StatusResistanceBase => 132,
            Self::StatusResistanceConvert => 133,
            Self::SPRatio => 134,
            Self::SPRatioBase => 135,
            Self::SPRatioConvert => 136,
            Self::SPRatioOverride => 137,
            Self::BreakDamageAddedRatio => 138,
            Self::BreakDamageAddedRatioBase => 139,
            Self::BreakDamageAddedRatioConvert => 140,
            Self::BreakDamageExtraAddedRatio => 141,
            Self::PhysicalStanceBreakResistance => 142,
            Self::FireStanceBreakResistance => 143,
            Self::IceStanceBreakResistance => 144,
            Self::ThunderStanceBreakResistance => 145,
            Self::WindStanceBreakResistance => 146,
            Self::QuantumStanceBreakResistance => 147,
            Self::ImaginaryStanceBreakResistance => 148,
            Self::AggroBase => 149,
            Self::AggroAddedRatio => 150,
            Self::AggroDelta => 151,
            Self::RelicValueExtraAdditionRatio => 152,
            Self::EquipValueExtraAdditionRatio => 153,
            Self::EquipExtraRank => 154,
            Self::AvatarExtraRank => 155,
            Self::Combo => 156,
            Self::NormalBattleCount => 157,
            Self::ExtraAttackAddedRatio1 => 158,
            Self::ExtraAttackAddedRatio2 => 159,
            Self::ExtraAttackAddedRatio3 => 160,
            Self::ExtraAttackAddedRatio4 => 161,
            Self::ExtraDefenceAddedRatio1 => 162,
            Self::ExtraDefenceAddedRatio2 => 163,
            Self::ExtraDefenceAddedRatio3 => 164,
            Self::ExtraDefenceAddedRatio4 => 165,
            Self::ExtraHPAddedRatio1 => 166,
            Self::ExtraHPAddedRatio2 => 167,
            Self::ExtraHPAddedRatio3 => 168,
            Self::ExtraHPAddedRatio4 => 169,
            Self::ExtraHealAddedRatio => 170,
            Self::ExtraAllDamageTypeAddedRatio1 => 171,
            Self::ExtraAllDamageTypeAddedRatio2 => 172,
            Self::ExtraAllDamageTypeAddedRatio3 => 173,
            Self::ExtraAllDamageTypeAddedRatio4 => 174,
            Self::ExtraAllDamageReduce => 175,
            Self::ExtraShieldAddedRatio => 176,
            Self::ExtraSpeedAddedRatio1 => 177,
            Self::ExtraSpeedAddedRatio2 => 178,
            Self::ExtraSpeedAddedRatio3 => 179,
            Self::ExtraSpeedAddedRatio4 => 180,
            Self::ExtraLuckChance => 181,
            Self::ExtraLuckDamage => 182,
            Self::ExtraFrontPowerBase => 183,
            Self::ExtraFrontPowerAddedRatio1 => 184,
            Self::ExtraFrontPowerAddedRatio2 => 185,
            Self::ExtraBackPowerBase => 186,
            Self::ExtraBackPowerAddedRatio1 => 187,
            Self::ExtraBackPowerAddedRatio2 => 188,
            Self::ExtraUltraDamageAddedRatio1 => 189,
            Self::ExtraSkillDamageAddedRatio1 => 190,
            Self::ExtraNormalDamageAddedRatio1 => 191,
            Self::ExtraInsertDamageAddedRatio1 => 192,
            Self::Count => 193,
        }
    }

    /// The numeric value the game uses for this variant.
    pub fn raw(&self) -> (r: i32)
        ensures
            r == self.raw_value(),
    {
        match self {
            Self::Unknow => 0,
            Self::MaxHP => 1,
            Self::BaseHP => 2,
            Self::HPAddedRatio => 3,
            Self::HPDelta => 4,
            Self::HPConvert => 5,
            Self::DirtyHPDelta => 6,
            Self::DirtyHPRatio => 7,
            Self::RallyHP => 8,
            Self::NegativeHP => 9,
            Self::CurrentHP => 10,
            Self::MaxSP => 11,
            Self::CurrentSP => 12,
            Self::MaxSpecialSP => 13,
            Self::CurrentSpecialSP => 14,
            Self::AdditionalBP => 15,
            Self::Attack => 16,
            Self::BaseAttack => 17,
            Self::AttackAddedRatio => 18,
            Self::AttackDelta => 19,
            Self::AttackConvert => 20,
            Self::Defence => 21,
            Self::BaseDefence => 22,
            Self::DefenceAddedRatio => 23,
            Self::DefenceDelta => 24,
            Self::DefenceConvert => 25,
            Self::DefenceOverride => 26,
            Self::Level => 27,
            Self::Promotion => 28,
            Self::Rank => 29,
            Self::Speed => 30,
            Self::BaseSpeed => 31,
            Self::SpeedAddedRatio => 32,
            Self::SpeedDelta => 33,
            Self::SpeedConvert => 34,
            Self::SpeedOverride => 35,
            Self::ActionDelay => 36,
            Self::ActionDelayAddedRatio => 37,
            Self::ActionDelayAddAttenuation => 38,
            Self::MaxStance => 39,
            Self::CurrentStance => 40,
            Self::Level_AllDamageAddedRatio => 41,
            Self::AllDamageTypeAddedRatio => 42,
            Self::AllDamageReduce => 43,
            Self::DotDamageAddedRatio => 44,
            Self::FatigueRatio => 45,
            Self::CriticalChance => 46,
            Self::CriticalChanceBase => 47,
            Self::CriticalChanceConvert => 48,
            Self::CriticalDamage => 49,
            Self::CriticalDamageBase => 50,
            Self::CriticalDamageConvert => 51,
            Self::CriticalResistance => 52,
            Self::PhysicalAddedRatio => 53,
            Self::FireAddedRatio => 54,
            Self::IceAddedRatio => 55,
            Self::ThunderAddedRatio => 56,
            Self::QuantumAddedRatio => 57,
            Self::ImaginaryAddedRatio => 58,
            Self::WindAddedRatio => 59,
            Self::PhysicalResistance => 60,
            Self::FireResistance => 61,
            Self::IceResistance => 62,
            Self::ThunderResistance => 63,
            Self::QuantumResistance => 64,
            Self::ImaginaryResistance => 65,
            Self::WindResistance => 66,
            Self::PhysicalResistanceBase => 67,
            Self::FireResistanceBase => 68,
            Self::IceResistanceBase => 69,
            Self::ThunderResistanceBase => 70,
            Self::QuantumResistanceBase => 71,
            Self::ImaginaryResistanceBase => 72,
            Self::WindResistanceBase => 73,
            Self::PhysicalResistanceDelta => 74,
            Self::FireResistanceDelta => 75,
            Self::IceResistanceDelta => 76,
            Self::ThunderResistanceDelta => 77,
            Self::QuantumResistanceDelta => 78,
            Self::ImaginaryResistanceDelta => 79,
            Self::WindResistanceDelta => 80,
            Self::AllDamageTypeResistance => 81,
            Self::PhysicalPenetrate => 82,
            Self::FirePenetrate => 83,
            Self::IcePenetrate => 84,
            Self::ThunderPenetrate => 85,
            Self::QuantumPenetrate => 86,
            Self::ImaginaryPenetrate => 87,
            Self::WindPenetrate => 88,
            Self::AllDamageTypePenetrate => 89,
            Self::PhysicalTakenRatio => 90,
            Self::FireTakenRatio => 91,
            Self::IceTakenRatio => 92,
            Self::ThunderTakenRatio => 93,
            Self::QuantumTakenRatio => 94,
            Self::ImaginaryTakenRatio => 95,
            Self::WindTakenRatio => 96,
            Self::AllDamageTypeTakenRatio => 97,
            Self::Monster_DamageTakenRatio => 98,
            Self::PhysicalAbsorb => 99,
            Self::FireAbsorb => 100,
            Self::IceAbsorb => 101,
            Self::ThunderAbsorb => 102,
            Self::QuantumAbsorb => 103,
            Self::ImaginaryAbsorb => 104,
            Self::WindAbsorb => 105,
            Self::MinimumFatigueRatio => 106,
            Self::ForceStanceBreakRatio => 107,
            Self::StanceBreakAddedRatio => 108,
            Self::StanceBreakResistance => 109,
            Self::StanceBreakTakenRatio => 110,
            Self::PhysicalStanceBreakTakenRatio => 111,
            Self::FireStanceBreakTakenRatio => 112,
            Self::IceStanceBreakTakenRatio => 113,
            Self::ThunderStanceBreakTakenRatio => 114,
            Self::WindStanceBreakTakenRatio => 115,
            Self::QuantumStanceBreakTakenRatio => 116,
            Self::ImaginaryStanceBreakTakenRatio => 117,
            Self::StanceWeakAddedRatio => 118,
            Self::StanceDefaultAddedRatio => 119,
            Self::HealRatio => 120,
            Self::HealRatioBase => 121,
            Self::HealRatioConvert => 122,
            Self::HealTakenRatio => 123,
            Self::Shield => 124,
            Self::MaxShield => 125,
            Self::ShieldAddedRatio => 126,
            Self::ShieldTakenRatio => 127,
            Self::StatusProbability => 128,
            Self::StatusProbabilityBase => 129,
            Self::StatusProbabilityConvert => 130,
            Self::StatusResistance => 131,
            Self::StatusResistanceBase => 132,
            Self::StatusResistanceConvert => 133,
            Self::SPRatio => 134,
            Self::SPRatioBase => 135,
            Self::SPRatioConvert => 136,
            Self::SPRatioOverride => 137,
            Self::BreakDamageAddedRatio => 138,
            Self::BreakDamageAddedRatioBase => 139,
            Self::BreakDamageAddedRatioConvert => 140,
            Self::BreakDamageExtraAddedRatio => 141,
            Self::PhysicalStanceBreakResistance => 142,
            Self::FireStanceBreakResistance => 143,
            Self::IceStanceBreakResistance => 144,
            Self::ThunderStanceBreakResistance => 145,
            Self::WindStanceBreakResistance => 146,
            Self::QuantumStanceBreakResistance => 147,
            Self::ImaginaryStanceBreakResistance => 148,
            Self::AggroBase => 149,
            Self::AggroAddedRatio => 150,
            Self::AggroDelta => 151,
            Self::RelicValueExtraAdditionRatio => 152,
            Self::EquipValueExtraAdditionRatio => 153,
            Self::EquipExtraRank => 154,
            Self::AvatarExtraRank => 155,
            Self::Combo => 156,
            Self::NormalBattleCount => 157,
            Self::ExtraAttackAddedRatio1 => 158,
            Self::ExtraAttackAddedRatio2 => 159,
            Self::ExtraAttackAddedRatio3 => 160,
            Self::ExtraAttackAddedRatio4 => 161,
            Self::ExtraDefenceAddedRatio1 => 162,
            Self::ExtraDefenceAddedRatio2 => 163,
            Self::ExtraDefenceAddedRatio3 => 164,
            Self::ExtraDefenceAddedRatio4 => 165,
            Self::ExtraHPAddedRatio1 => 166,
            Self::ExtraHPAddedRatio2 => 167,
            Self::ExtraHPAddedRatio3 => 168,
            Self::ExtraHPAddedRatio4 => 169,
            Self::ExtraHealAddedRatio => 170,
            Self::ExtraAllDamageTypeAddedRatio1 => 171,
            Self::ExtraAllDamageTypeAddedRatio2 => 172,
            Self::ExtraAllDamageTypeAddedRatio3 => 173,
            Self::ExtraAllDamageTypeAddedRatio4 => 174,
            Self::ExtraAllDamageReduce => 175,
            Self::ExtraShieldAddedRatio => 176,
            Self::ExtraSpeedAddedRatio1 => 177,
            Self::ExtraSpeedAddedRatio2 => 178,
            Self::ExtraSpeedAddedRatio3 => 179,
            Self::ExtraSpeedAddedRatio4 => 180,
            Self::ExtraLuckChance => 181,
            Self::ExtraLuckDamage => 182,
            Self::ExtraFrontPowerBase => 183,
            Self::ExtraFrontPowerAddedRatio1 => 184,
            Self::ExtraFrontPowerAddedRatio2 => 185,
            Self::ExtraBackPowerBase => 186,
            Self::ExtraBackPowerAddedRatio1 => 187,
            Self::ExtraBackPowerAddedRatio2 => 188,
            Self::ExtraUltraDamageAddedRatio1 => 189,
            Self::ExtraSkillDamageAddedRatio1 => 190,
            Self::ExtraNormalDamageAddedRatio1 => 191,
            Self::ExtraInsertDamageAddedRatio1 => 192,
            Self::Count => 193,
        }
    }

    /// The variant for a numeric value, if any.
    pub open spec fn from_raw_value(value: i32) -> Option<Self> {
        match value {
            0 => Some(Self::Unknow),
            1 => Some(Self::MaxHP),
            2 => Some(Self::BaseHP),
            3 => Some(Self::HPAddedRatio),
            4 => Some(Self::HPDelta),
            5 => Some(Self::HPConvert),
            6 => Some(Self::DirtyHPDelta),
            7 => Some(Self::DirtyHPRatio),
            8 => Some(Self::RallyHP),
            9 => Some(Self::NegativeHP),
            10 => Some(Self::CurrentHP),
            11 => Some(Self::MaxSP),
            12 => Some(Self::CurrentSP),
            13 => Some(Self::MaxSpecialSP),
            14 => Some(Self::CurrentSpecialSP),
            15 => Some(Self::AdditionalBP),
            16 => Some(Self::Attack),
            17 => Some(Self::BaseAttack),
            18 => Some(Self::AttackAddedRatio),
            19 => Some(Self::AttackDelta),
            20 => Some(Self::AttackConvert),
            21 => Some(Self::Defence),
            22 => Some(Self::BaseDefence),
            23 => Some(Self::DefenceAddedRatio),
            24 => Some(Self::DefenceDelta),
            25 => Some(Self::DefenceConvert),
            26 => Some(Self::DefenceOverride),
            27 => Some(Self::Level),
            28 => Some(Self::Promotion),
            29 => Some(Self::Rank),
            30 => Some(Self::Speed),
            31 => Some(Self::BaseSpeed),
            32 => Some(Self::SpeedAddedRatio),
            33 => Some(Self::SpeedDelta),
            34 => Some(Self::SpeedConvert),
            35 => Some(Self::SpeedOverride),
            36 => Some(Self::ActionDelay),
            37 => Some(Self::ActionDelayAddedRatio),
            38 => Some(Self::ActionDelayAddAttenuation),
            39 => Some(Self::MaxStance),
            40 => Some(Self::CurrentStance),
            41 => Some(Self::Level_AllDamageAddedRatio),
            42 => Some(Self::AllDamageTypeAddedRatio),
            43 => Some(Self::AllDamageReduce),
            44 => Some(Self::DotDamageAddedRatio),
            45 => Some(Self::FatigueRatio),
            46 => Some(Self::CriticalChance),
            47 => Some(Self::CriticalChanceBase),
            48 => Some(Self::CriticalChanceConvert),
            49 => Some(Self::CriticalDamage),
            50 => Some(Self::CriticalDamageBase),
            51 => Some(Self::CriticalDamageConvert),
            52 => Some(Self::CriticalResistance),
            53 => Some(Self::PhysicalAddedRatio),
            54 => Some(Self::FireAddedRatio),
            55 => Some(Self::IceAddedRatio),
            56 => Some(Self::ThunderAddedRatio),
            57 => Some(Self::QuantumAddedRatio),
            58 => Some(Self::ImaginaryAddedRatio),
            59 => Some(Self::WindAddedRatio),
            60 => Some(Self::PhysicalResistance),
            61 => Some(Self::FireResistance),
            62 => Some(Self::IceResistance),
            63 => Some(Self::ThunderResistance),
            64 => Some(Self::QuantumResistance),
            65 => Some(Self::ImaginaryResistance),
            66 => Some(Self::WindResistance),
            67 => Some(Self::PhysicalResistanceBase),
            68 => Some(Self::FireResistanceBase),
            69 => Some(Self::IceResistanceBase),
            70 => Some(Self::ThunderResistanceBase),
            71 => Some(Self::QuantumResistanceBase),
            72 => Some(Self::ImaginaryResistanceBase),
            73 => Some(Self::WindResistanceBase),
            74 => Some(Self::PhysicalResistanceDelta),
            75 => Some(Self::FireResistanceDelta),
            76 => Some(Self::IceResistanceDelta),
            77 => Some(Self::ThunderResistanceDelta),
            78 => Some(Self::QuantumResistanceDelta),
            79 => Some(Self::ImaginaryResistanceDelta),
            80 => Some(Self::WindResistanceDelta),
            81 => Some(Self::AllDamageTypeResistance),
            82 => Some(Self::PhysicalPenetrate),
            83 => Some(Self::FirePenetrate),
            84 => Some(Self::IcePenetrate),
            85 => Some(Self::ThunderPenetrate),
            86 => Some(Self::QuantumPenetrate),
            87 => Some(Self::ImaginaryPenetrate),
            88 => Some(Self::WindPenetrate),
            89 => Some(Self::AllDamageTypePenetrate),
            90 => Some(Self::PhysicalTakenRatio),
            91 => Some(Self::FireTakenRatio),
            92 => Some(Self::IceTakenRatio),
            93 => Some(Self::ThunderTakenRatio),
            94 => Some(Self::QuantumTakenRatio),
            95 => Some(Self::ImaginaryTakenRatio),
            96 => Some(Self::WindTakenRatio),
            97 => Some(Self::AllDamageTypeTakenRatio),
            98 => Some(Self::Monster_DamageTakenRatio),
            99 => Some(Self::PhysicalAbsorb),
            100 => Some(Self::FireAbsorb),
            101 => Some(Self::IceAbsorb),
            102 => Some(Self::ThunderAbsorb),
            103 => Some(Self::QuantumAbsorb),
            104 => Some(Self::ImaginaryAbsorb),
            105 => Some(Self::WindAbsorb),
            106 => Some(Self::MinimumFatigueRatio),
            107 => Some(Self::ForceStanceBreakRatio),
            108 => Some(Self::StanceBreakAddedRatio),
            109 => Some(Self::StanceBreakResistance),
            110 => Some(Self::StanceBreakTakenRatio),
            111 => Some(Self::PhysicalStanceBreakTakenRatio),
            112 => Some(Self::FireStanceBreakTakenRatio),
            113 => Some(Self::IceStanceBreakTakenRatio),
            114 => Some(Self::ThunderStanceBreakTakenRatio),
            115 => Some(Self::WindStanceBreakTakenRatio),
            116 => Some(Self::QuantumStanceBreakTakenRatio),
            117 => Some(Self::ImaginaryStanceBreakTakenRatio),
            118 => Some(Self::StanceWeakAddedRatio),
            119 => Some(Self::StanceDefaultAddedRatio),
            120 => Some(Self::HealRatio),
            121 => Some(Self::HealRatioBase),
            122 => Some(Self::HealRatioConvert),
            123 => Some(Self::HealTakenRatio),
            124 => Some(Self::Shield),
            125 => Some(Self::MaxShield),
            126 => Some(Self::ShieldAddedRatio),
            127 => Some(Self::ShieldTakenRatio),
            128 => Some(Self::StatusProbability),
            129 => Some(Self::StatusProbabilityBase),
            130 => Some(Self::StatusProbabilityConvert),
            131 => Some(Self::StatusResistance),
            132 => Some(Self::StatusResistanceBase),
            133 => Some(Self::StatusResistanceConvert),
            134 => Some(Self::SPRatio),
            135 => Some(Self::SPRatioBase),
            136 => Some(Self::SPRatioConvert),
            137 => Some(Self::SPRatioOverride),
            138 => Some(Self::BreakDamageAddedRatio),
            139 => Some(Self::BreakDamageAddedRatioBase),
            140 => Some(Self::BreakDamageAddedRatioConvert),
            141 => Some(Self::BreakDamageExtraAddedRatio),
            142 => Some(Self::PhysicalStanceBreakResistance),
            143 => Some(Self::FireStanceBreakResistance),
            144 => Some(Self::IceStanceBreakResistance),
            145 => Some(Self::ThunderStanceBreakResistance),
            146 => Some(Self::WindStanceBreakResistance),
            147 => Some(Self::QuantumStanceBreakResistance),
            148 => Some(Self::ImaginaryStanceBreakResistance),
            149 => Some(Self::AggroBase),
            150 => Some(Self::AggroAddedRatio),
            151 => Some(Self::AggroDelta),
            152 => Some(Self::RelicValueExtraAdditionRatio),
            153 => Some(Self::EquipValueExtraAdditionRatio),
            154 => Some(Self::EquipExtraRank),
            155 => Some(Self::AvatarExtraRank),
            156 => Some(Self::Combo),
            157 => Some(Self::NormalBattleCount),
            158 => Some(Self::ExtraAttackAddedRatio1),
            159 => Some(Self::ExtraAttackAddedRatio2),
            160 => Some(Self::ExtraAttackAddedRatio3),
            161 => Some(Self::ExtraAttackAddedRatio4),
            162 => Some(Self::ExtraDefenceAddedRatio1),
            163 => Some(Self::ExtraDefenceAddedRatio2),
            164 => Some(Self::ExtraDefenceAddedRatio3),
            165 => Some(Self::ExtraDefenceAddedRatio4),
            166 => Some(Self::ExtraHPAddedRatio1),
            167 => Some(Self::ExtraHPAddedRatio2),
            168 => Some(Self::ExtraHPAddedRatio3),
            169 => Some(Self::ExtraHPAddedRatio4),
            170 => Some(Self::ExtraHealAddedRatio),
            171 => Some(Self::ExtraAllDamageTypeAddedRatio1),
            172 => Some(Self::ExtraAllDamageTypeAddedRatio2),
            173 => Some(Self::ExtraAllDamageTypeAddedRatio3),
            174 => Some(Self::ExtraAllDamageTypeAddedRatio4),
            175 => Some(Self::ExtraAllDamageReduce),
            176 => Some(Self::ExtraShieldAddedRatio),
            177 => Some(Self::ExtraSpeedAddedRatio1),
            178 => Some(Self::ExtraSpeedAddedRatio2),
            179 => Some(Self::ExtraSpeedAddedRatio3),
            180 => Some(Self::ExtraSpeedAddedRatio4),
            181 => Some(Self::ExtraLuckChance),
            182 => Some(Self::ExtraLuckDamage),
            183 => Some(Self::ExtraFrontPowerBase),
            184 => Some(Self::ExtraFrontPowerAddedRatio1),
            185 => Some(Self::ExtraFrontPowerAddedRatio2),
            186 => Some(Self::ExtraBackPowerBase),
            187 => Some(Self::ExtraBackPowerAddedRatio1),
            188 => Some(Self::ExtraBackPowerAddedRatio2),
            189 => Some(Self::ExtraUltraDamageAddedRatio1),
            190 => Some(Self::ExtraSkillDamageAddedRatio1),
            191 => Some(Self::ExtraNormalDamageAddedRatio1),
            192 => Some(Self::ExtraInsertDamageAddedRatio1),
            193 => Some(Self::Count),
            _ => None,
        }
    }

    /// The variant for a numeric value, or `None` outside 0..194.
    pub fn from_raw(value: i32) -> (r: Option<Self>)
        ensures
            r == Self::from_raw_value(value),
            r is Some <==> 0 <= value < 194,
    {
        match value {
            0 => Some(Self::Unknow),
            1 => Some(Self::MaxHP),
            2 => Some(Self::BaseHP),
            3 => Some(Self::HPAddedRatio),
            4 => Some(Self::HPDelta),
            5 => Some(Self::HPConvert),
            6 => Some(Self::DirtyHPDelta),
            7 => Some(Self::DirtyHPRatio),
            8 => Some(Self::RallyHP),
            9 => Some(Self::NegativeHP),
            10 => Some(Self::CurrentHP),
            11 => Some(Self::MaxSP),
            12 => Some(Self::CurrentSP),
            13 => Some(Self::MaxSpecialSP),
            14 => Some(Self::CurrentSpecialSP),
            15 => Some(Self::AdditionalBP),
            16 => Some(Self::Attack),
            17 => Some(Self::BaseAttack),
            18 => Some(Self::AttackAddedRatio),
            19 => Some(Self::AttackDelta),
            20 => Some(Self::AttackConvert),
            21 => Some(Self::Defence),
            22 => Some(Self::BaseDefence),
            23 => Some(Self::DefenceAddedRatio),
            24 => Some(Self::DefenceDelta),
            25 => Some(Self::DefenceConvert),
            26 => Some(Self::DefenceOverride),
            27 => Some(Self::Level),
            28 => Some(Self::Promotion),
            29 => Some(Self::Rank),
            30 => Some(Self::Speed),
            31 => Some(Self::BaseSpeed),
            32 => Some(Self::SpeedAddedRatio),
            33 => Some(Self::SpeedDelta),
            34 => Some(Self::SpeedConvert),
            35 => Some(Self::SpeedOverride),
            36 => Some(Self::ActionDelay),
            37 => Some(Self::ActionDelayAddedRatio),
            38 => Some(Self::ActionDelayAddAttenuation),
            39 => Some(Self::MaxStance),
            40 => Some(Self::CurrentStance),
            41 => Some(Self::Level_AllDamageAddedRatio),
            42 => Some(Self::AllDamageTypeAddedRatio),
            43 => Some(Self::AllDamageReduce),
            44 => Some(Self::DotDamageAddedRatio),
            45 => Some(Self::FatigueRatio),
            46 => Some(Self::CriticalChance),
            47 => Some(Self::CriticalChanceBase),
            48 => Some(Self::CriticalChanceConvert),
            49 => Some(Self::CriticalDamage),
            50 => Some(Self::CriticalDamageBase),
            51 => Some(Self::CriticalDamageConvert),
            52 => Some(Self::CriticalResistance),
            53 => Some(Self::PhysicalAddedRatio),
            54 => Some(Self::FireAddedRatio),
            55 => Some(Self::IceAddedRatio),
            56 => Some(Self::ThunderAddedRatio),
            57 => Some(Self::QuantumAddedRatio),
            58 => Some(Self::ImaginaryAddedRatio),
            59 => Some(Self::WindAddedRatio),
            60 => Some(Self::PhysicalResistance),
            61 => Some(Self::FireResistance),
            62 => Some(Self::IceResistance),
            63 => Some(Self::ThunderResistance),
            64 => Some(Self::QuantumResistance),
            65 => Some(Self::ImaginaryResistance),
            66 => Some(Self::WindResistance),
            67 => Some(Self::PhysicalResistanceBase),
            68 => Some(Self::FireResistanceBase),
            69 => Some(Self::IceResistanceBase),
            70 => Some(Self::ThunderResistanceBase),
            71 => Some(Self::QuantumResistanceBase),
            72 => Some(Self::ImaginaryResistanceBase),
            73 => Some(Self::WindResistanceBase),
            74 => Some(Self::PhysicalResistanceDelta),
            75 => Some(Self::FireResistanceDelta),
            76 => Some(Self::IceResistanceDelta),
            77 => Some(Self::ThunderResistanceDelta),
            78 => Some(Self::QuantumResistanceDelta),
            79 => Some(Self::ImaginaryResistanceDelta),
            80 => Some(Self::WindResistanceDelta),
            81 => Some(Self::AllDamageTypeResistance),
            82 => Some(Self::PhysicalPenetrate),
            83 => Some(Self::FirePenetrate),
            84 => Some(Self::IcePenetrate),
            85 => Some(Self::ThunderPenetrate),
            86 => Some(Self::QuantumPenetrate),
            87 => Some(Self::ImaginaryPenetrate),
            88 => Some(Self::WindPenetrate),
            89 => Some(Self::AllDamageTypePenetrate),
            90 => Some(Self::PhysicalTakenRatio),
            91 => Some(Self::FireTakenRatio),
            92 => Some(Self::IceTakenRatio),
            93 => Some(Self::ThunderTakenRatio),
            94 => Some(Self::QuantumTakenRatio),
            95 => Some(Self::ImaginaryTakenRatio),
            96 => Some(Self::WindTakenRatio),
            97 => Some(Self::AllDamageTypeTakenRatio),
            98 => Some(Self::Monster_DamageTakenRatio),
            99 => Some(Self::PhysicalAbsorb),
            100 => Some(Self::FireAbsorb),
            101 => Some(Self::IceAbsorb),
            102 => Some(Self::ThunderAbsorb),
            103 => Some(Self::QuantumAbsorb),
            104 => Some(Self::ImaginaryAbsorb),
            105 => Some(Self::WindAbsorb),
            106 => Some(Self::MinimumFatigueRatio),
            107 => Some(Self::ForceStanceBreakRatio),
            108 => Some(Self::StanceBreakAddedRatio),
            109 => Some(Self::StanceBreakResistance),
            110 => Some(Self::StanceBreakTakenRatio),
            111 => Some(Self::PhysicalStanceBreakTakenRatio),
            112 => Some(Self::FireStanceBreakTakenRatio),
            113 => Some(Self::IceStanceBreakTakenRatio),
            114 => Some(Self::ThunderStanceBreakTakenRatio),
            115 => Some(Self::WindStanceBreakTakenRatio),
            116 => Some(Self::QuantumStanceBreakTakenRatio),
            117 => Some(Self::ImaginaryStanceBreakTakenRatio),
            118 => Some(Self::StanceWeakAddedRatio),
            119 => Some(Self::StanceDefaultAddedRatio),
            120 => Some(Self::HealRatio),
            121 => Some(Self::HealRatioBase),
            122 => Some(Self::HealRatioConvert),
            123 => Some(Self::HealTakenRatio),
            124 => Some(Self::Shield),
            125 => Some(Self::MaxShield),
            126 => Some(Self::ShieldAddedRatio),
            127 => Some(Self::ShieldTakenRatio),
            128 => Some(Self::StatusProbability),
            129 => Some(Self::StatusProbabilityBase),
            130 => Some(Self::StatusProbabilityConvert),
            131 => Some(Self::StatusResistance),
            132 => Some(Self::StatusResistanceBase),
            133 => Some(Self::StatusResistanceConvert),
            134 => Some(Self::SPRatio),
            135 => Some(Self::SPRatioBase),
            136 => Some(Self::SPRatioConvert),
            137 => Some(Self::SPRatioOverride),
            138 => Some(Self::BreakDamageAddedRatio),
            139 => Some(Self::BreakDamageAddedRatioBase),
            140 => Some(Self::BreakDamageAddedRatioConvert),
            141 => Some(Self::BreakDamageExtraAddedRatio),
            142 => Some(Self::PhysicalStanceBreakResistance),
            143 => Some(Self::FireStanceBreakResistance),
            144 => Some(Self::IceStanceBreakResistance),
            145 => Some(Self::ThunderStanceBreakResistance),
            146 => Some(Self::WindStanceBreakResistance),
            147 => Some(Self::QuantumStanceBreakResistance),
            148 => Some(Self::ImaginaryStanceBreakResistance),
            149 => Some(Self::AggroBase),
            150 => Some(Self::AggroAddedRatio),
            151 => Some(Self::AggroDelta),
            152 => Some(Self::RelicValueExtraAdditionRatio),
            153 => Some(Self::EquipValueExtraAdditionRatio),
            154 => Some(Self::EquipExtraRank),
            155 => Some(Self::AvatarExtraRank),
            156 => Some(Self::Combo),
            157 => Some(Self::NormalBattleCount),
            158 => Some(Self::ExtraAttackAddedRatio1),
            159 => Some(Self::ExtraAttackAddedRatio2),
            160 => Some(Self::ExtraAttackAddedRatio3),
            161 => Some(Self::ExtraAttackAddedRatio4),
            162 => Some(Self::ExtraDefenceAddedRatio1),
            163 => Some(Self::ExtraDefenceAddedRatio2),
            164 => Some(Self::ExtraDefenceAddedRatio3),
            165 => Some(Self::ExtraDefenceAddedRatio4),
            166 => Some(Self::ExtraHPAddedRatio1),
            167 => Some(Self::ExtraHPAddedRatio2),
            168 => Some(Self::ExtraHPAddedRatio3),
            169 => Some(Self::ExtraHPAddedRatio4),
            170 => Some(Self::ExtraHealAddedRatio),
            171 => Some(Self::ExtraAllDamageTypeAddedRatio1),
            172 => Some(Self::ExtraAllDamageTypeAddedRatio2),
            173 => Some(Self::ExtraAllDamageTypeAddedRatio3),
            174 => Some(Self::ExtraAllDamageTypeAddedRatio4),
            175 => Some(Self::ExtraAllDamageReduce),
            176 => Some(Self::ExtraShieldAddedRatio),
            177 => Some(Self::ExtraSpeedAddedRatio1),
            178 => Some(Self::ExtraSpeedAddedRatio2),
            179 => Some(Self::ExtraSpeedAddedRatio3),
            180 => Some(Self::ExtraSpeedAddedRatio4),
            181 => Some(Self::ExtraLuckChance),
            182 => Some(Self::ExtraLuckDamage),
            183 => Some(Self::ExtraFrontPowerBase),
            184 => Some(Self::ExtraFrontPowerAddedRatio1),
            185 => Some(Self::ExtraFrontPowerAddedRatio2),
            186 => Some(Self::ExtraBackPowerBase),
            187 => Some(Self::ExtraBackPowerAddedRatio1),
            188 => Some(Self::ExtraBackPowerAddedRatio2),
            189 => Some(Self::ExtraUltraDamageAddedRatio1),
            190 => Some(Self::ExtraSkillDamageAddedRatio1),
            191 => Some(Self::ExtraNormalDamageAddedRatio1),
            192 => Some(Self::ExtraInsertDamageAddedRatio1),
            193 => Some(Self::Count),
            _ => None,
        }
    }
    /// Reading back the value of a variant gives the variant; every value read back
    /// lies in 0..194.
    pub proof fn lemma_raw_round_trip(self)
        ensures
            Self::from_raw_value(self.raw_value()) == Some(self),
            0 <= self.raw_value() < 194,
    {
    }

    /// The value the game stores for each variant is the one the game declares for
    /// it, and reading that value gives the variant back.
    pub proof fn stored_values_are_declared()
        ensures
            Self::Unknow.raw_value() == 0,
            Self::from_raw_value(0) == Some(Self::Unknow),
            Self::MaxHP.raw_value() == 1,
            Self::from_raw_value(1) == Some(Self::MaxHP),
            Self::BaseHP.raw_value() == 2,
            Self::from_raw_value(2) == Some(Self::BaseHP),
            Self::HPAddedRatio.raw_value() == 3,
            Self::from_raw_value(3) == Some(Self::HPAddedRatio),
            Self::HPDelta.raw_value() == 4,
            Self::from_raw_value(4) == Some(Self::HPDelta),
            Self::HPConvert.raw_value() == 5,
            Self::from_raw_value(5) == Some(Self::HPConvert),
            Self::DirtyHPDelta.raw_value() == 6,
            Self::from_raw_value(6) == Some(Self::DirtyHPDelta),
            Self::DirtyHPRatio.raw_value() == 7,
            Self::from_raw_value(7) == Some(Self::DirtyHPRatio),
            Self::RallyHP.raw_value() == 8,
            Self::from_raw_value(8) == Some(Self::RallyHP),
            Self::NegativeHP.raw_value() == 9,
            Self::from_raw_value(9) == Some(Self::NegativeHP),
            Self::CurrentHP.raw_value() == 10,
            Self::from_raw_value(10) == Some(Self::CurrentHP),
            Self::MaxSP.raw_value() == 11,
            Self::from_raw_value(11) == Some(Self::MaxSP),
            Self::CurrentSP.raw_value() == 12,
            Self::from_raw_value(12) == Some(Self::CurrentSP),
            Self::MaxSpecialSP.raw_value() == 13,
            Self::from_raw_value(13) == Some(Self::MaxSpecialSP),
            Self::CurrentSpecialSP.raw_value() == 14,
            Self::from_raw_value(14) == Some(Self::CurrentSpecialSP),
            Self::AdditionalBP.raw_value() == 15,
            Self::from_raw_value(15) == Some(Self::AdditionalBP),
            Self::Attack.raw_value() == 16,
            Self::from_raw_value(16) == Some(Self::Attack),
            Self::BaseAttack.raw_value() == 17,
            Self::from_raw_value(17) == Some(Self::BaseAttack),
            Self::AttackAddedRatio.raw_value() == 18,
            Self::from_raw_value(18) == Some(Self::AttackAddedRatio),
            Self::AttackDelta.raw_value() == 19,
            Self::from_raw_value(19) == Some(Self::AttackDelta),
            Self::AttackConvert.raw_value() == 20,
            Self::from_raw_value(20) == Some(Self::AttackConvert),
            Self::Defence.raw_value() == 21,
            Self::from_raw_value(21) == Some(Self::Defence),
            Self::BaseDefence.raw_value() == 22,
            Self::from_raw_value(22) == Some(Self::BaseDefence),
            Self::DefenceAddedRatio.raw_value() == 23,
            Self::from_raw_value(23) == Some(Self::DefenceAddedRatio),
            Self::DefenceDelta.raw_value() == 24,
            Self::from_raw_value(24) == Some(Self::DefenceDelta),
            Self::DefenceConvert.raw_value() == 25,
            Self::from_raw_value(25) == Some(Self::DefenceConvert),
            Self::DefenceOverride.raw_value() == 26,
            Self::from_raw_value(26) == Some(Self::DefenceOverride),
            Self::Level.raw_value() == 27,
            Self::from_raw_value(27) == Some(Self::Level),
            Self::Promotion.raw_value() == 28,
            Self::from_raw_value(28) == Some(Self::Promotion),
            Self::Rank.raw_value() == 29,
            Self::from_raw_value(29) == Some(Self::Rank),
            Self::Speed.raw_value() == 30,
            Self::from_raw_value(30) == Some(Self::Speed),
            Self::BaseSpeed.raw_value() == 31,
            Self::from_raw_value(31) == Some(Self::BaseSpeed),
            Self::SpeedAddedRatio.raw_value() == 32,
            Self::from_raw_value(32) == Some(Self::SpeedAddedRatio),
            Self::SpeedDelta.raw_value() == 33,
            Self::from_raw_value(33) == Some(Self::SpeedDelta),
            Self::SpeedConvert.raw_value() == 34,
            Self::from_raw_value(34) == Some(Self::SpeedConvert),
            Self::SpeedOverride.raw_value() == 35,
            Self::from_raw_value(35) == Some(Self::SpeedOverride),
            Self::ActionDelay.raw_value() == 36,
            Self::from_raw_value(36) == Some(Self::ActionDelay),
            Self::ActionDelayAddedRatio.raw_value() == 37,
            Self::from_raw_value(37) == Some(Self::ActionDelayAddedRatio),
            Self::ActionDelayAddAttenuation.raw_value() == 38,
            Self::from_raw_value(38) == Some(Self::ActionDelayAddAttenuation),
            Self::MaxStance.raw_value() == 39,
            Self::from_raw_value(39) == Some(Self::MaxStance),
            Self::CurrentStance.raw_value() == 40,
            Self::from_raw_value(40) == Some(Self::CurrentStance),
            Self::Level_AllDamageAddedRatio.raw_value() == 41,
            Self::from_raw_value(41) == Some(Self::Level_AllDamageAddedRatio),
            Self::AllDamageTypeAddedRatio.raw_value() == 42,
            Self::from_raw_value(42) == Some(Self::AllDamageTypeAddedRatio),
            Self::AllDamageReduce.raw_value() == 43,
            Self::from_raw_value(43) == Some(Self::AllDamageReduce),
            Self::DotDamageAddedRatio.raw_value() == 44,
            Self::from_raw_value(44) == Some(Self::DotDamageAddedRatio),
            Self::FatigueRatio.raw_value() == 45,
            Self::from_raw_value(45) == Some(Self::FatigueRatio),
            Self::CriticalChance.raw_value() == 46,
            Self::from_raw_value(46) == Some(Self::CriticalChance),
            Self::CriticalChanceBase.raw_value() == 47,
            Self::from_raw_value(47) == Some(Self::CriticalChanceBase),
            Self::CriticalChanceConvert.raw_value() == 48,
            Self::from_raw_value(48) == Some(Self::CriticalChanceConvert),
            Self::CriticalDamage.raw_value() == 49,
            Self::from_raw_value(49) == Some(Self::CriticalDamage),
            Self::CriticalDamageBase.raw_value() == 50,
            Self::from_raw_value(50) == Some(Self::CriticalDamageBase),
            Self::CriticalDamageConvert.raw_value() == 51,
            Self::from_raw_value(51) == Some(Self::CriticalDamageConvert),
            Self::CriticalResistance.raw_value() == 52,
            Self::from_raw_value(52) == Some(Self::CriticalResistance),
            Self::PhysicalAddedRatio.raw_value() == 53,
            Self::from_raw_value(53) == Some(Self::PhysicalAddedRatio),
            Self::FireAddedRatio.raw_value() == 54,
            Self::from_raw_value(54) == Some(Self::FireAddedRatio),
            Self::IceAddedRatio.raw_value() == 55,
            Self::from_raw_value(55) == Some(Self::IceAddedRatio),
            Self::ThunderAddedRatio.raw_value() == 56,
            Self::from_raw_value(56) == Some(Self::ThunderAddedRatio),
            Self::QuantumAddedRatio.raw_value() == 57,
            Self::from_raw_value(57) == Some(Self::QuantumAddedRatio),
            Self::ImaginaryAddedRatio.raw_value() == 58,
            Self::from_raw_value(58) == Some(Self::ImaginaryAddedRatio),
            Self::WindAddedRatio.raw_value() == 59,
            Self::from_raw_value(59) == Some(Self::WindAddedRatio),
            Self::PhysicalResistance.raw_value() == 60,
            Self::from_raw_value(60) == Some(Self::PhysicalResistance),
            Self::FireResistance.raw_value() == 61,
            Self::from_raw_value(61) == Some(Self::FireResistance),
            Self::IceResistance.raw_value() == 62,
            Self::from_raw_value(62) == Some(Self::IceResistance),
            Self::ThunderResistance.raw_value() == 63,
            Self::from_raw_value(63) == Some(Self::ThunderResistance),
            Self::QuantumResistance.raw_value() == 64,
            Self::from_raw_value(64) == Some(Self::QuantumResistance),
            Self::ImaginaryResistance.raw_value() == 65,
            Self::from_raw_value(65) == Some(Self::ImaginaryResistance),
            Self::WindResistance.raw_value() == 66,
            Self::from_raw_value(66) == Some(Self::WindResistance),
            Self::PhysicalResistanceBase.raw_value() == 67,
            Self::from_raw_value(67) == Some(Self::PhysicalResistanceBase),
            Self::FireResistanceBase.raw_value() == 68,
            Self::from_raw_value(68) == Some(Self::FireResistanceBase),
            Self::IceResistanceBase.raw_value() == 69,
            Self::from_raw_value(69) == Some(Self::IceResistanceBase),
            Self::ThunderResistanceBase.raw_value() == 70,
            Self::from_raw_value(70) == Some(Self::ThunderResistanceBase),
            Self::QuantumResistanceBase.raw_value() == 71,
            Self::from_raw_value(71) == Some(Self::QuantumResistanceBase),
            Self::ImaginaryResistanceBase.raw_value() == 72,
            Self::from_raw_value(72) == Some(Self::ImaginaryResistanceBase),
            Self::WindResistanceBase.raw_value() == 73,
            Self::from_raw_value(73) == Some(Self::WindResistanceBase),
            Self::PhysicalResistanceDelta.raw_value() == 74,
            Self::from_raw_value(74) == Some(Self::PhysicalResistanceDelta),
            Self::FireResistanceDelta.raw_value() == 75,
            Self::from_raw_value(75) == Some(Self::FireResistanceDelta),
            Self::IceResistanceDelta.raw_value() == 76,
            Self::from_raw_value(76) == Some(Self::IceResistanceDelta),
            Self::ThunderResistanceDelta.raw_value() == 77,
            Self::from_raw_value(77) == Some(Self::ThunderResistanceDelta),
            Self::QuantumResistanceDelta.raw_value() == 78,
            Self::from_raw_value(78) == Some(Self::QuantumResistanceDelta),
            Self::ImaginaryResistanceDelta.raw_value() == 79,
            Self::from_raw_value(79) == Some(Self::ImaginaryResistanceDelta),
            Self::WindResistanceDelta.raw_value() == 80,
            Self::from_raw_value(80) == Some(Self::WindResistanceDelta),
            Self::AllDamageTypeResistance.raw_value() == 81,
            Self::from_raw_value(81) == Some(Self::AllDamageTypeResistance),
            Self::PhysicalPenetrate.raw_value() == 82,
            Self::from_raw_value(82) == Some(Self::PhysicalPenetrate),
            Self::FirePenetrate.raw_value() == 83,
            Self::from_raw_value(83) == Some(Self::FirePenetrate),
            Self::IcePenetrate.raw_value() == 84,
            Self::from_raw_value(84) == Some(Self::IcePenetrate),
            Self::ThunderPenetrate.raw_value() == 85,
            Self::from_raw_value(85) == Some(Self::ThunderPenetrate),
            Self::QuantumPenetrate.raw_value() == 86,
            Self::from_raw_value(86) == Some(Self::QuantumPenetrate),
            Self::ImaginaryPenetrate.raw_value() == 87,
            Self::from_raw_value(87) == Some(Self::ImaginaryPenetrate),
            Self::WindPenetrate.raw_value() == 88,
            Self::from_raw_value(88) == Some(Self::WindPenetrate),
            Self::AllDamageTypePenetrate.raw_value() == 89,
            Self::from_raw_value(89) == Some(Self::AllDamageTypePenetrate),
            Self::PhysicalTakenRatio.raw_value() == 90,
            Self::from_raw_value(90) == Some(Self::PhysicalTakenRatio),
            Self::FireTakenRatio.raw_value() == 91,
            Self::from_raw_value(91) == Some(Self::FireTakenRatio),
            Self::IceTakenRatio.raw_value() == 92,
            Self::from_raw_value(92) == Some(Self::IceTakenRatio),
            Self::ThunderTakenRatio.raw_value() == 93,
            Self::from_raw_value(93) == Some(Self::ThunderTakenRatio),
            Self::QuantumTakenRatio.raw_value() == 94,
            Self::from_raw_value(94) == Some(Self::QuantumTakenRatio),
            Self::ImaginaryTakenRatio.raw_value() == 95,
            Self::from_raw_value(95) == Some(Self::ImaginaryTakenRatio),
            Self::WindTakenRatio.raw_value() == 96,
            Self::from_raw_value(96) == Some(Self::WindTakenRatio),
            Self::AllDamageTypeTakenRatio.raw_value() == 97,
            Self::from_raw_value(97) == Some(Self::AllDamageTypeTakenRatio),
            Self::Monster_DamageTakenRatio.raw_value() == 98,
            Self::from_raw_value(98) == Some(Self::Monster_DamageTakenRatio),
            Self::PhysicalAbsorb.raw_value() == 99,
            Self::from_raw_value(99) == Some(Self::PhysicalAbsorb),
            Self::FireAbsorb.raw_value() == 100,
            Self::from_raw_value(100) == Some(Self::FireAbsorb),
            Self::IceAbsorb.raw_value() == 101,
            Self::from_raw_value(101) == Some(Self::IceAbsorb),
            Self::ThunderAbsorb.raw_value() == 102,
            Self::from_raw_value(102) == Some(Self::ThunderAbsorb),
            Self::QuantumAbsorb.raw_value() == 103,
            Self::from_raw_value(103) == Some(Self::QuantumAbsorb),
            Self::ImaginaryAbsorb.raw_value() == 104,
            Self::from_raw_value(104) == Some(Self::ImaginaryAbsorb),
            Self::WindAbsorb.raw_value() == 105,
            Self::from_raw_value(105) == Some(Self::WindAbsorb),
            Self::MinimumFatigueRatio.raw_value() == 106,
            Self::from_raw_value(106) == Some(Self::MinimumFatigueRatio),
            Self::ForceStanceBreakRatio.raw_value() == 107,
            Self::from_raw_value(107) == Some(Self::ForceStanceBreakRatio),
            Self::StanceBreakAddedRatio.raw_value() == 108,
            Self::from_raw_value(108) == Some(Self::StanceBreakAddedRatio),
            Self::StanceBreakResistance.raw_value() == 109,
            Self::from_raw_value(109) == Some(Self::StanceBreakResistance),
            Self::StanceBreakTakenRatio.raw_value() == 110,
            Self::from_raw_value(110) == Some(Self::StanceBreakTakenRatio),
            Self::PhysicalStanceBreakTakenRatio.raw_value() == 111,
            Self::from_raw_value(111) == Some(Self::PhysicalStanceBreakTakenRatio),
            Self::FireStanceBreakTakenRatio.raw_value() == 112,
            Self::from_raw_value(112) == Some(Self::FireStanceBreakTakenRatio),
            Self::IceStanceBreakTakenRatio.raw_value() == 113,
            Self::from_raw_value(113) == Some(Self::IceStanceBreakTakenRatio),
            Self::ThunderStanceBreakTakenRatio.raw_value() == 114,
            Self::from_raw_value(114) == Some(Self::ThunderStanceBreakTakenRatio),
            Self::WindStanceBreakTakenRatio.raw_value() == 115,
            Self::from_raw_value(115) == Some(Self::WindStanceBreakTakenRatio),
            Self::QuantumStanceBreakTakenRatio.raw_value() == 116,
            Self::from_raw_value(116) == Some(Self::QuantumStanceBreakTakenRatio),
            Self::ImaginaryStanceBreakTakenRatio.raw_value() == 117,
            Self::from_raw_value(117) == Some(Self::ImaginaryStanceBreakTakenRatio),
            Self::StanceWeakAddedRatio.raw_value() == 118,
            Self::from_raw_value(118) == Some(Self::StanceWeakAddedRatio),
            Self::StanceDefaultAddedRatio.raw_value() == 119,
            Self::from_raw_value(119) == Some(Self::StanceDefaultAddedRatio),
            Self::HealRatio.raw_value() == 120,
            Self::from_raw_value(120) == Some(Self::HealRatio),
            Self::HealRatioBase.raw_value() == 121,
            Self::from_raw_value(121) == Some(Self::HealRatioBase),
            Self::HealRatioConvert.raw_value() == 122,
            Self::from_raw_value(122) == Some(Self::HealRatioConvert),
            Self::HealTakenRatio.raw_value() == 123,
            Self::from_raw_value(123) == Some(Self::HealTakenRatio),
            Self::Shield.raw_value() == 124,
            Self::from_raw_value(124) == Some(Self::Shield),
            Self::MaxShield.raw_value() == 125,
            Self::from_raw_value(125) == Some(Self::MaxShield),
            Self::ShieldAddedRatio.raw_value() == 126,
            Self::from_raw_value(126) == Some(Self::ShieldAddedRatio),
            Self::ShieldTakenRatio.raw_value() == 127,
            Self::from_raw_value(127) == Some(Self::ShieldTakenRatio),
            Self::StatusProbability.raw_value() == 128,
            Self::from_raw_value(128) == Some(Self::StatusProbability),
            Self::StatusProbabilityBase.raw_value() == 129,
            Self::from_raw_value(129) == Some(Self::StatusProbabilityBase),
            Self::StatusProbabilityConvert.raw_value() == 130,
            Self::from_raw_value(130) == Some(Self::StatusProbabilityConvert),
            Self::StatusResistance.raw_value() == 131,
            Self::from_raw_value(131) == Some(Self::StatusResistance),
            Self::StatusResistanceBase.raw_value() == 132,
            Self::from_raw_value(132) == Some(Self::StatusResistanceBase),
            Self::StatusResistanceConvert.raw_value() == 133,
            Self::from_raw_value(133) == Some(Self::StatusResistanceConvert),
            Self::SPRatio.raw_value() == 134,
            Self::from_raw_value(134) == Some(Self::SPRatio),
            Self::SPRatioBase.raw_value() == 135,
            Self::from_raw_value(135) == Some(Self::SPRatioBase),
            Self::SPRatioConvert.raw_value() == 136,
            Self::from_raw_value(136) == Some(Self::SPRatioConvert),
            Self::SPRatioOverride.raw_value() == 137,
            Self::from_raw_value(137) == Some(Self::SPRatioOverride),
            Self::BreakDamageAddedRatio.raw_value() == 138,
            Self::from_raw_value(138) == Some(Self::BreakDamageAddedRatio),
            Self::BreakDamageAddedRatioBase.raw_value() == 139,
            Self::from_raw_value(139) == Some(Self::BreakDamageAddedRatioBase),
            Self::BreakDamageAddedRatioConvert.raw_value() == 140,
            Self::from_raw_value(140) == Some(Self::BreakDamageAddedRatioConvert),
            Self::BreakDamageExtraAddedRatio.raw_value() == 141,
            Self::from_raw_value(141) == Some(Self::BreakDamageExtraAddedRatio),
            Self::PhysicalStanceBreakResistance.raw_value() == 142,
            Self::from_raw_value(142) == Some(Self::PhysicalStanceBreakResistance),
            Self::FireStanceBreakResistance.raw_value() == 143,
            Self::from_raw_value(143) == Some(Self::FireStanceBreakResistance),
            Self::IceStanceBreakResistance.raw_value() == 144,
            Self::from_raw_value(144) == Some(Self::IceStanceBreakResistance),
            Self::ThunderStanceBreakResistance.raw_value() == 145,
            Self::from_raw_value(145) == Some(Self::ThunderStanceBreakResistance),
            Self::WindStanceBreakResistance.raw_value() == 146,
            Self::from_raw_value(146) == Some(Self::WindStanceBreakResistance),
            Self::QuantumStanceBreakResistance.raw_value() == 147,
            Self::from_raw_value(147) == Some(Self::QuantumStanceBreakResistance),
            Self::ImaginaryStanceBreakResistance.raw_value() == 148,
            Self::from_raw_value(148) == Some(Self::ImaginaryStanceBreakResistance),
            Self::AggroBase.raw_value() == 149,
            Self::from_raw_value(149) == Some(Self::AggroBase),
            Self::AggroAddedRatio.raw_value() == 150,
            Self::from_raw_value(150) == Some(Self::AggroAddedRatio),
            Self::AggroDelta.raw_value() == 151,
            Self::from_raw_value(151) == Some(Self::AggroDelta),
            Self::RelicValueExtraAdditionRatio.raw_value() == 152,
            Self::from_raw_value(152) == Some(Self::RelicValueExtraAdditionRatio),
            Self::EquipValueExtraAdditionRatio.raw_value() == 153,
            Self::from_raw_value(153) == Some(Self::EquipValueExtraAdditionRatio),
            Self::EquipExtraRank.raw_value() == 154,
            Self::from_raw_value(154) == Some(Self::EquipExtraRank),
            Self::AvatarExtraRank.raw_value() == 155,
            Self::from_raw_value(155) == Some(Self::AvatarExtraRank),
            Self::Combo.raw_value() == 156,
            Self::from_raw_value(156) == Some(Self::Combo),
            Self::NormalBattleCount.raw_value() == 157,
            Self::from_raw_value(157) == Some(Self::NormalBattleCount),
            Self::ExtraAttackAddedRatio1.raw_value() == 158,
            Self::from_raw_value(158) == Some(Self::ExtraAttackAddedRatio1),
            Self::ExtraAttackAddedRatio2.raw_value() == 159,
            Self::from_raw_value(159) == Some(Self::ExtraAttackAddedRatio2),
            Self::ExtraAttackAddedRatio3.raw_value() == 160,
            Self::from_raw_value(160) == Some(Self::ExtraAttackAddedRatio3),
            Self::ExtraAttackAddedRatio4.raw_value() == 161,
            Self::from_raw_value(161) == Some(Self::ExtraAttackAddedRatio4),
            Self::ExtraDefenceAddedRatio1.raw_value() == 162,
            Self::from_raw_value(162) == Some(Self::ExtraDefenceAddedRatio1),
            Self::ExtraDefenceAddedRatio2.raw_value() == 163,
            Self::from_raw_value(163) == Some(Self::ExtraDefenceAddedRatio2),
            Self::ExtraDefenceAddedRatio3.raw_value() == 164,
            Self::from_raw_value(164) == Some(Self::ExtraDefenceAddedRatio3),
            Self::ExtraDefenceAddedRatio4.raw_value() == 165,
            Self::from_raw_value(165) == Some(Self::ExtraDefenceAddedRatio4),
            Self::ExtraHPAddedRatio1.raw_value() == 166,
            Self::from_raw_value(166) == Some(Self::ExtraHPAddedRatio1),
            Self::ExtraHPAddedRatio2.raw_value() == 167,
            Self::from_raw_value(167) == Some(Self::ExtraHPAddedRatio2),
            Self::ExtraHPAddedRatio3.raw_value() == 168,
            Self::from_raw_value(168) == Some(Self::ExtraHPAddedRatio3),
            Self::ExtraHPAddedRatio4.raw_value() == 169,
            Self::from_raw_value(169) == Some(Self::ExtraHPAddedRatio4),
            Self::ExtraHealAddedRatio.raw_value() == 170,
            Self::from_raw_value(170) == Some(Self::ExtraHealAddedRatio),
            Self::ExtraAllDamageTypeAddedRatio1.raw_value() == 171,
            Self::from_raw_value(171) == Some(Self::ExtraAllDamageTypeAddedRatio1),
            Self::ExtraAllDamageTypeAddedRatio2.raw_value() == 172,
            Self::from_raw_value(172) == Some(Self::ExtraAllDamageTypeAddedRatio2),
            Self::ExtraAllDamageTypeAddedRatio3.raw_value() == 173,
            Self::from_raw_value(173) == Some(Self::ExtraAllDamageTypeAddedRatio3),
            Self::ExtraAllDamageTypeAddedRatio4.raw_value() == 174,
            Self::from_raw_value(174) == Some(Self::ExtraAllDamageTypeAddedRatio4),
            Self::ExtraAllDamageReduce.raw_value() == 175,
            Self::from_raw_value(175) == Some(Self::ExtraAllDamageReduce),
            Self::ExtraShieldAddedRatio.raw_value() == 176,
            Self::from_raw_value(176) == Some(Self::ExtraShieldAddedRatio),
            Self::ExtraSpeedAddedRatio1.raw_value() == 177,
            Self::from_raw_value(177) == Some(Self::ExtraSpeedAddedRatio1),
            Self::ExtraSpeedAddedRatio2.raw_value() == 178,
            Self::from_raw_value(178) == Some(Self::ExtraSpeedAddedRatio2),
            Self::ExtraSpeedAddedRatio3.raw_value() == 179,
            Self::from_raw_value(179) == Some(Self::ExtraSpeedAddedRatio3),
            Self::ExtraSpeedAddedRatio4.raw_value() == 180,
            Self::from_raw_value(180) == Some(Self::ExtraSpeedAddedRatio4),
            Self::ExtraLuckChance.raw_value() == 181,
            Self::from_raw_value(181) == Some(Self::ExtraLuckChance),
            Self::ExtraLuckDamage.raw_value() == 182,
            Self::from_raw_value(182) == Some(Self::ExtraLuckDamage),
            Self::ExtraFrontPowerBase.raw_value() == 183,
            Self::from_raw_value(183) == Some(Self::ExtraFrontPowerBase),
            Self::ExtraFrontPowerAddedRatio1.raw_value() == 184,
            Self::from_raw_value(184) == Some(Self::ExtraFrontPowerAddedRatio1),
            Self::ExtraFrontPowerAddedRatio2.raw_value() == 185,
            Self::from_raw_value(185) == Some(Self::ExtraFrontPowerAddedRatio2),
            Self::ExtraBackPowerBase.raw_value() == 186,
            Self::from_raw_value(186) == Some(Self::ExtraBackPowerBase),
            Self::ExtraBackPowerAddedRatio1.raw_value() == 187,
            Self::from_raw_value(187) == Some(Self::ExtraBackPowerAddedRatio1),
            Self::ExtraBackPowerAddedRatio2.raw_value() == 188,
            Self::from_raw_value(188) == Some(Self::ExtraBackPowerAddedRatio2),
            Self::ExtraUltraDamageAddedRatio1.raw_value() == 189,
            Self::from_raw_value(189) == Some(Self::ExtraUltraDamageAddedRatio1),
            Self::ExtraSkillDamageAddedRatio1.raw_value() == 190,
            Self::from_raw_value(190) == Some(Self::ExtraSkillDamageAddedRatio1),
            Self::ExtraNormalDamageAddedRatio1.raw_value() == 191,
            Self::from_raw_value(191) == Some(Self::ExtraNormalDamageAddedRatio1),
            Self::ExtraInsertDamageAddedRatio1.raw_value() == 192,
            Self::from_raw_value(192) == Some(Self::ExtraInsertDamageAddedRatio1),
            Self::Count.raw_value() == 193,
            Self::from_raw_value(193) == Some(Self::Count),
    {
    }
}
/// The game enumeration `RPG_GameCore_EntityType`; each variant stands for the value its position gives.
#[derive(Debug, Clone, Copy, PartialEq, Eq, Structural)]
pub enum RPG_GameCore_EntityType {
    None_,
    Avatar,
    Monster,
    LocalPlayer,
    NPC,
    NPCMonster,
    StoryCharacter,
    Prop,
    Mission,
    LevelEntity,
    Neutral,
    AtmoNpc,
    BattleEvent,
    TutorialEntity,
    Team,
    Partner,
    LevelGraph,
    Snapshot,
    TeamFormation,
    Model,
    UICamera,
    District,
    GlobalShield,
    CustomData,
    Simple,
    PuzzleGameObjectProp,
    PerformanceLevelGraph,
    Group,
    ChessCharacter,
    ChessTerrain,
    SummonUnit,
    LittleGameInstance,
    Servant,
    PreviewShow,
    LittleGameContainer,
    LittleGameViewProxy,
    GridFightBackend,
    DummyEntity,
}

impl RPG_GameCore_EntityType {
    /// The numeric value the game uses for this variant.
    pub open spec fn raw_value(self) -> i32 {
        match self {
            Self::None_ => 0,
            Self::Avatar => 1,
            Self::Monster => 2,
            Self::LocalPlayer => 3,
            Self::NPC => 4,
            Self::NPCMonster => 5,
            Self::StoryCharacter => 6,
            Self::Prop => 7,
            Self::Mission => 8,
            Self::LevelEntity => 9,
            Self::Neutral => 10,
            Self::AtmoNpc => 11,
            Self::BattleEvent => 12,
            Self::TutorialEntity => 13,
            Self::Team => 14,
            Self::Partner => 15,
            Self::LevelGraph => 16,
            Self::Snapshot => 17,
            Self::TeamFormation => 18,
            Self::Model => 19,
            Self::UICamera => 20,
            Self::District => 21,
            Self::GlobalShield => 22,
            Self::CustomData => 23,
            Self::Simple => 24,
            Self::PuzzleGameObjectProp => 25,
            Self::PerformanceLevelGraph => 26,
            Self::Group => 27,
            Self::ChessCharacter => 28,
            Self::ChessTerrain => 29,
            Self::SummonUnit => 30,
            Self::LittleGameInstance => 31,
            Self::Servant => 32,
            Self::PreviewShow => 33,
            Self::LittleGameContainer => 34,
            Self::LittleGameViewProxy => 35,
            Self::GridFightBackend => 36,
            Self::DummyEntity => 37,
        }
    }

    /// The numeric value the game uses for this variant.
    pub fn raw(&self) -> (r: i32)
        ensures
            r == self.raw_value(),
    {
        match self {
            Self::None_ => 0,
            Self::Avatar => 1,
            Self::Monster => 2,
            Self::LocalPlayer => 3,
            Self::NPC => 4,
            Self::NPCMonster => 5,
            Self::StoryCharacter => 6,
            Self::Prop => 7,
            Self::Mission => 8,
            Self::LevelEntity => 9,
            Self::Neutral => 10,
            Self::AtmoNpc => 11,
            Self::BattleEvent => 12,
            Self::TutorialEntity => 13,
            Self::Team => 14,
            Self::Partner => 15,
            Self::LevelGraph => 16,
            Self::Snapshot => 17,
            Self::TeamFormation => 18,
            Self::Model => 19,
            Self::UICamera => 20,
            Self::District => 21,
            Self::GlobalShield => 22,
            Self::CustomData => 23,
            Self::Simple => 24,
            Self::PuzzleGameObjectProp => 25,
            Self::PerformanceLevelGraph => 26,
            Self::Group => 27,
            Self::ChessCharacter => 28,
            Self::ChessTerrain => 29,
            Self::SummonUnit => 30,
            Self::LittleGameInstance => 31,
            Self::Servant => 32,
            Self::PreviewShow => 33,
            Self::LittleGameContainer => 34,
            Self::LittleGameViewProxy => 35,
            Self::GridFightBackend => 36,
            Self::DummyEntity => 37,
        }
    }

    /// The variant for a numeric value, if any.
    pub open spec fn from_raw_value(value: i32) -> Option<Self> {
        match value {
            0 => Some(Self::None_),
            1 => Some(Self::Avatar),
            2 => Some(Self::Monster),
            3 => Some(Self::LocalPlayer),
            4 => Some(Self::NPC),
            5 => Some(Self::NPCMonster),
            6 => Some(Self::StoryCharacter),
            7 => Some(Self::Prop),
            8 => Some(Self::Mission),
            9 => Some(Self::LevelEntity),
            10 => Some(Self::Neutral),
            11 => Some(Self::AtmoNpc),
            12 => Some(Self::BattleEvent),
            13 => Some(Self::TutorialEntity),
            14 => Some(Self::Team),
            15 => Some(Self::Partner),
            16 => Some(Self::LevelGraph),
            17 => Some(Self::Snapshot),
            18 => Some(Self::TeamFormation),
            19 => Some(Self::Model),
            20 => Some(Self::UICamera),
            21 => Some(Self::District),
            22 => Some(Self::GlobalShield),
            23 => Some(Self::CustomData),
            24 => Some(Self::Simple),
            25 => Some(Self::PuzzleGameObjectProp),
            26 => Some(Self::PerformanceLevelGraph),
            27 => Some(Self::Group),
            28 => Some(Self::ChessCharacter),
            29 => Some(Self::ChessTerrain),
            30 => Some(Self::SummonUnit),
            31 => Some(Self::LittleGameInstance),
            32 => Some(Self::Servant),
            33 => Some(Self::PreviewShow),
            34 => Some(Self::LittleGameContainer),
            35 => Some(Self::LittleGameViewProxy),
            36 => Some(Self::GridFightBackend),
            37 => Some(Self::DummyEntity),
            _ => None,
        }
    }

    /// The variant for a numeric value, or `None` outside 0..38.
    pub fn from_raw(value: i32) -> (r: Option<Self>)
        ensures
            r == Self::from_raw_value(value),
            r is Some <==> 0 <= value < 38,
    {
        match value {
            0 => Some(Self::None_),
            1 => Some(Self::Avatar),
            2 => Some(Self::Monster),
            3 => Some(Self::LocalPlayer),
            4 => Some(Self::NPC),
            5 => Some(Self::NPCMonster),
            6 => Some(Self::StoryCharacter),
            7 => Some(Self::Prop),
            8 => Some(Self::Mission),
            9 => Some(Self::LevelEntity),
            10 => Some(Self::Neutral),
            11 => Some(Self::AtmoNpc),
            12 => Some(Self::BattleEvent),
            13 => Some(Self::TutorialEntity),
            14 => Some(Self::Team),
            15 => Some(Self::Partner),
            16 => Some(Self::LevelGraph),
            17 => Some(Self::Snapshot),
            18 => Some(Self::TeamFormation),
            19 => Some(Self::Model),
            20 => Some(Self::UICamera),
            21 => Some(Self::District),
            22 => Some(Self::GlobalShield),
            23 => Some(Self::CustomData),
            24 => Some(Self::Simple),
            25 => Some(Self::PuzzleGameObjectProp),
            26 => Some(Self::PerformanceLevelGraph),
            27 => Some(Self::Group),
            28 => Some(Self::ChessCharacter),
            29 => Some(Self::ChessTerrain),
            30 => Some(Self::SummonUnit),
            31 => Some(Self::LittleGameInstance),
            32 => Some(Self::Servant),
            33 => Some(Self::PreviewShow),
            34 => Some(Self::LittleGameContainer),
            35 => Some(Self::LittleGameViewProxy),
            36 => Some(Self::GridFightBackend),
            37 => Some(Self::DummyEntity),
            _ => None,
        }
    }
    /// Reading back the value of a variant gives the variant; every value read back
    /// lies in 0..38.
    pub proof fn lemma_raw_round_trip(self)
        ensures
            Self::from_raw_value(self.raw_value()) == Some(self),
            0 <= self.raw_value() < 38,
    {
    }

    /// The value the game stores for each variant is the one the game declares for
    /// it, and reading that value gives the variant back.
    pub proof fn stored_values_are_declared()
        ensures
            Self::None_.raw_value() == 0,
            Self::from_raw_value(0) == Some(Self::None_),
            Self::Avatar.raw_value() == 1,
            Self::from_raw_value(1) == Some(Self::Avatar),
            Self::Monster.raw_value() == 2,
            Self::from_raw_value(2) == Some(Self::Monster),
            Self::LocalPlayer.raw_value() == 3,
            Self::from_raw_value(3) == Some(Self::LocalPlayer),
            Self::NPC.raw_value() == 4,
            Self::from_raw_value(4) == Some(Self::NPC),
            Self::NPCMonster.raw_value() == 5,
            Self::from_raw_value(5) == Some(Self::NPCMonster),
            Self::StoryCharacter.raw_value() == 6,
            Self::from_raw_value(6) == Some(Self::StoryCharacter),
            Self::Prop.raw_value() == 7,
            Self::from_raw_value(7) == Some(Self::Prop),
            Self::Mission.raw_value() == 8,
            Self::from_raw_value(8) == Some(Self::Mission),
            Self::LevelEntity.raw_value() == 9,
            Self::from_raw_value(9) == Some(Self::LevelEntity),
            Self::Neutral.raw_value() == 10,
            Self::from_raw_value(10) == Some(Self::Neutral),
            Self::AtmoNpc.raw_value() == 11,
            Self::from_raw_value(11) == Some(Self::AtmoNpc),
            Self::BattleEvent.raw_value() == 12,
            Self::from_raw_value(12) == Some(Self::BattleEvent),
            Self::TutorialEntity.raw_value() == 13,
            Self::from_raw_value(13) == Some(Self::TutorialEntity),
            Self::Team.raw_value() == 14,
            Self::from_raw_value(14) == Some(Self::Team),
            Self::Partner.raw_value() == 15,
            Self::from_raw_value(15) == Some(Self::Partner),
            Self::LevelGraph.raw_value() == 16,
            Self::from_raw_value(16) == Some(Self::LevelGraph),
            Self::Snapshot.raw_value() == 17,
            Self::from_raw_value(17) == Some(Self::Snapshot),
            Self::TeamFormation.raw_value() == 18,
            Self::from_raw_value(18) == Some(Self::TeamFormation),
            Self::Model.raw_value() == 19,
            Self::from_raw_value(19) == Some(Self::Model),
            Self::UICamera.raw_value() == 20,
            Self::from_raw_value(20) == Some(Self::UICamera),
            Self::District.raw_value() == 21,
            Self::from_raw_value(21) == Some(Self::District),
            Self::GlobalShield.raw_value() == 22,
            Self::from_raw_value(22) == Some(Self::GlobalShield),
            Self::CustomData.raw_value() == 23,
            Self::from_raw_value(23) == Some(Self::CustomData),
            Self::Simple.raw_value() == 24,
            Self::from_raw_value(24) == Some(Self::Simple),
            Self::PuzzleGameObjectProp.raw_value() == 25,
            Self::from_raw_value(25) == Some(Self::PuzzleGameObjectProp),
            Self::PerformanceLevelGraph.raw_value() == 26,
            Self::from_raw_value(26) == Some(Self::PerformanceLevelGraph),
            Self::Group.raw_value() == 27,
            Self::from_raw_value(27) == Some(Self::Group),
            Self::ChessCharacter.raw_value() == 28,
            Self::from_raw_value(28) == Some(Self::ChessCharacter),
            Self::ChessTerrain.raw_value() == 29,
            Self::from_raw_value(29) == Some(Self::ChessTerrain),
            Self::SummonUnit.raw_value() == 30,
            Self::from_raw_value(30) == Some(Self::SummonUnit),
            Self::LittleGameInstance.raw_value() == 31,
            Self::from_raw_value(31) == Some(Self::LittleGameInstance),
            Self::Servant.raw_value() == 32,
            Self::from_raw_value(32) == Some(Self::Servant),
            Self::PreviewShow.raw_value() == 33,
            Self::from_raw_value(33) == Some(Self::PreviewShow),
            Self::LittleGameContainer.raw_value() == 34,
            Self::from_raw_value(34) == Some(Self::LittleGameContainer),
            Self::LittleGameViewProxy.raw_value() == 35,
            Self::from_raw_value(35) == Some(Self::LittleGameViewProxy),
            Self::GridFightBackend.raw_value() == 36,
            Self::from_raw_value(36) == Some(Self::GridFightBackend),
            Self::DummyEntity.raw_value() == 37,
            Self::from_raw_value(37) == Some(Self::DummyEntity),
    {
    }
}
/// The game enumeration `StageBudgetTool_EntityType`; each variant stands for the value its position gives.
#[derive(Debug, Clone, Copy, PartialEq, Eq, Structural)]
pub enum StageBudgetTool_EntityType {
    Prpp_S,
    Prop_A,
    Prop_B,
    Prop_C,
    Prop_D,
    Monster_1,
    Monster_2,
    Monster_3,
    Monster_4,
    Monster_5,
    NPC,
    NPC_Avatar,
    NPC_Special,
    NPC_Monster,
}

impl StageBudgetTool_EntityType {
    /// The numeric value the game uses for this variant.
    pub open spec fn raw_value(self) -> i32 {
        match self {
            Self::Prpp_S => 0,
            Self::Prop_A => 1,
            Self::Prop_B => 2,
            Self::Prop_C => 3,
            Self::Prop_D => 4,
            Self::Monster_1 => 5,
            Self::Monster_2 => 6,
            Self::Monster_3 => 7,
            Self::Monster_4 => 8,
            Self::Monster_5 => 9,
            Self::NPC => 10,
            Self::NPC_Avatar => 11,
            Self::NPC_Special => 12,
            Self::NPC_Monster => 13,
        }
    }

    /// The numeric value the game uses for this variant.
    pub fn raw(&self) -> (r: i32)
        ensures
            r == self.raw_value(),
    {
        match self {
            Self::Prpp_S => 0,
            Self::Prop_A => 1,
            Self::Prop_B => 2,
            Self::Prop_C => 3,
            Self::Prop_D => 4,
            Self::Monster_1 => 5,
            Self::Monster_2 => 6,
            Self::Monster_3 => 7,
            Self::Monster_4 => 8,
            Self::Monster_5 => 9,
            Self::NPC => 10,
            Self::NPC_Avatar => 11,
            Self::NPC_Special => 12,
            Self::NPC_Monster => 13,
        }
    }

    /// The variant for a numeric value, if any.
    pub open spec fn from_raw_value(value: i32) -> Option<Self> {
        match value {
            0 => Some(Self::Prpp_S),
            1 => Some(Self::Prop_A),
            2 => Some(Self::Prop_B),
            3 => Some(Self::Prop_C),
            4 => Some(Self::Prop_D),
            5 => Some(Self::Monster_1),
            6 => Some(Self::Monster_2),
            7 => Some(Self::Monster_3),
            8 => Some(Self::Monster_4),
            9 => Some(Self::Monster_5),
            10 => Some(Self::NPC),
            11 => Some(Self::NPC_Avatar),
            12 => Some(Self::NPC_Special),
            13 => Some(Self::NPC_Monster),
            _ => None,
        }
    }

    /// The variant for a numeric value, or `None` outside 0..14.
    pub fn from_raw(value: i32) -> (r: Option<Self>)
        ensures
            r == Self::from_raw_value(value),
            r is Some <==> 0 <= value < 14,
    {
        match value {
            0 => Some(Self::Prpp_S),
            1 => Some(Self::Prop_A),
            2 => Some(Self::Prop_B),
            3 => Some(Self::Prop_C),
            4 => Some(Self::Prop_D),
            5 => Some(Self::Monster_1),
            6 => Some(Self::Monster_2),
            7 => Some(Self::Monster_3),
            8 => Some(Self::Monster_4),
            9 => Some(Self::Monster_5),
            10 => Some(Self::NPC),
            11 => Some(Self::NPC_Avatar),
            12 => Some(Self::NPC_Special),
            13 => Some(Self::NPC_Monster),
            _ => None,
        }
    }
    /// Reading back the value of a variant gives the variant; every value read back
    /// lies in 0..14.
    pub proof fn lemma_raw_round_trip(self)
        ensures
            Self::from_raw_value(self.raw_value()) == Some(self),
            0 <= self.raw_value() < 14,
    {
    }

    /// The value the game stores for each variant is the one the game declares for
    /// it, and reading that value gives the variant back.
    pub proof fn stored_values_are_declared()
        ensures
            Self::Prpp_S.raw_value() == 0,
            Self::from_raw_value(0) == Some(Self::Prpp_S),
            Self::Prop_A.raw_value() == 1,
            Self::from_raw_value(1) == Some(Self::Prop_A),
            Self::Prop_B.raw_value() == 2,
            Self::from_raw_value(2) == Some(Self::Prop_B),
            Self::Prop_C.raw_value() == 3,
            Self::from_raw_value(3) == Some(Self::Prop_C),
            Self::Prop_D.raw_value() == 4,
            Self::from_raw_value(4) == Some(Self::Prop_D),
            Self::Monster_1.raw_value() == 5,
            Self::from_raw_value(5) == Some(Self::Monster_1),
            Self::Monster_2.raw_value() == 6,
            Self::from_raw_value(6) == Some(Self::Monster_2),
            Self::Monster_3.raw_value() == 7,
            Self::from_raw_value(7) == Some(Self::Monster_3),
            Self::Monster_4.raw_value() == 8,
            Self::from_raw_value(8) == Some(Self::Monster_4),
            Self::Monster_5.raw_value() == 9,
            Self::from_raw_value(9) == Some(Self::Monster_5),
            Self::NPC.raw_value() == 10,
            Self::from_raw_value(10) == Some(Self::NPC),
            Self::NPC_Avatar.raw_value() == 11,
            Self::from_raw_value(11) == Some(Self::NPC_Avatar),
            Self::NPC_Special.raw_value() == 12,
            Self::from_raw_value(12) == Some(Self::NPC_Special),
            Self::NPC_Monster.raw_value() == 13,
            Self::from_raw_value(13) == Some(Self::NPC_Monster),
    {
    }
}
/// The game enumeration `RPG_GameCore_AttackType`; each variant stands for the value its position gives.
#[derive(Debug, Clone, Copy, PartialEq, Eq, Structural)]
pub enum RPG_GameCore_AttackType {
    Unknown,
    Normal,
    BPSkill,
    Ultra,
    QTE,
    DOT,
    Pursued,
    Maze,
    MazeNormal,
    Insert,
    ElementDamage,
    Level,
    Servant,
    TrueDamage,
}

impl RPG_GameCore_AttackType {
    /// The numeric value the game uses for this variant.
    pub open spec fn raw_value(self) -> i32 {
        match self {
            Self::Unknown => 0,
            Self::Normal => 1,
            Self::BPSkill => 2,
            Self::Ultra => 3,
            Self::QTE => 4,
            Self::DOT => 5,
            Self::Pursued => 6,
            Self::Maze => 7,
            Self::MazeNormal => 8,
            Self::Insert => 9,
            Self::ElementDamage => 10,
            Self::Level => 11,
            Self::Servant => 12,
            Self::TrueDamage => 13,
        }
    }

    /// The numeric value the game uses for this variant.
    pub fn raw(&self) -> (r: i32)
        ensures
            r == self.raw_value(),
    {
        match self {
            Self::Unknown => 0,
            Self::Normal => 1,
            Self::BPSkill => 2,
            Self::Ultra => 3,
            Self::QTE => 4,
            Self::DOT => 5,
            Self::Pursued => 6,
            Self::Maze => 7,
            Self::MazeNormal => 8,
            Self::Insert => 9,
            Self::ElementDamage => 10,
            Self::Level => 11,
            Self::Servant => 12,
            Self::TrueDamage => 13,
        }
    }

    /// The variant for a numeric value, if any.
    pub open spec fn from_raw_value(value: i32) -> Option<Self> {
        match value {
            0 => Some(Self::Unknown),
            1 => Some(Self::Normal),
            2 => Some(Self::BPSkill),
            3 => Some(Self::Ultra),
            4 => Some(Self::QTE),
            5 => Some(Self::DOT),
            6 => Some(Self::Pursued),
            7 => Some(Self::Maze),
            8 => Some(Self::MazeNormal),
            9 => Some(Self::Insert),
            10 => Some(Self::ElementDamage),
            11 => Some(Self::Level),
            12 => Some(Self::Servant),
            13 => Some(Self::TrueDamage),
            _ => None,
        }
    }

    /// The variant for a numeric value, or `None` outside 0..14.
    pub fn from_raw(value: i32) -> (r: Option<Self>)
        ensures
            r == Self::from_raw_value(value),
            r is Some <==> 0 <= value < 14,
    {
        match value {
            0 => Some(Self::Unknown),
            1 => Some(Self::Normal),
            2 => Some(Self::BPSkill),
            3 => Some(Self::Ultra),
            4 => Some(Self::QTE),
            5 => Some(Self::DOT),
            6 => Some(Self::Pursued),
            7 => Some(Self::Maze),
            8 => Some(Self::MazeNormal),
            9 => Some(Self::Insert),
            10 => Some(Self::ElementDamage),
            11 => Some(Self::Level),
            12 => Some(Self::Servant),
            13 => Some(Self::TrueDamage),
            _ => None,
        }
    }
    /// Reading back the value of a variant gives the variant; every value read back
    /// lies in 0..14.
    pub proof fn lemma_raw_round_trip(self)
        ensures
            Self::from_raw_value(self.raw_value()) == Some(self),
            0 <= self.raw_value() < 14,
    {
    }

    /// The value the game stores for each variant is the one the game declares for
    /// it, and reading that value gives the variant back.
    pub proof fn stored_values_are_declared()
        ensures
            Self::Unknown.raw_value() == 0,
            Self::from_raw_value(0) == Some(Self::Unknown),
            Self::Normal.raw_value() == 1,
            Self::from_raw_value(1) == Some(Self::Normal),
            Self::BPSkill.raw_value() == 2,
            Self::from_raw_value(2) == Some(Self::BPSkill),
            Self::Ultra.raw_value() == 3,
            Self::from_raw_value(3) == Some(Self::Ultra),
            Self::QTE.raw_value() == 4,
            Self::from_raw_value(4) == Some(Self::QTE),
            Self::DOT.raw_value() == 5,
            Self::from_raw_value(5) == Some(Self::DOT),
            Self::Pursued.raw_value() == 6,
            Self::from_raw_value(6) == Some(Self::Pursued),
            Self::Maze.raw_value() == 7,
            Self::from_raw_value(7) == Some(Self::Maze),
            Self::MazeNormal.raw_value() == 8,
            Self::from_raw_value(8) == Some(Self::MazeNormal),
            Self::Insert.raw_value() == 9,
            Self::from_raw_value(9) == Some(Self::Insert),
            Self::ElementDamage.raw_value() == 10,
            Self::from_raw_value(10) == Some(Self::ElementDamage),
            Self::Level.raw_value() == 11,
            Self::from_raw_value(11) == Some(Self::Level),
            Self::Servant.raw_value() == 12,
            Self::from_raw_value(12) == Some(Self::Servant),
            Self::TrueDamage.raw_value() == 13,
            Self::from_raw_value(13) == Some(Self::TrueDamage),
    {
    }
}
/// Handle of a managed `OLHMAHMMBNN`.
#[derive(Debug, Clone, Copy, PartialEq, Eq, Structural)]
pub struct OLHMAHMMBNN(pub usize);

impl OLHMAHMMBNN {
    /// The managed class name the runtime knows this class by.
    pub fn class_name() -> (r: &'static str)
        ensures
            r@ == "OLHMAHMMBNN"@,
    {
        "OLHMAHMMBNN"
    }

    /// Whether this is the null reference.
    pub fn is_null(&self) -> (r: bool)
        ensures
            r == (self.0 == 0),
    {
        self.0 == 0
    }

    /// This handle seen as a managed object.
    pub fn as_object(&self) -> (r: Il2CppObject)
        ensures
            r.0 == self.0,
    {
        Il2CppObject(self.0)
    }
}

/// Handle of a managed `EDJEDBLFIKE`.
#[derive(Debug, Clone, Copy, PartialEq, Eq, Structural)]
pub struct EDJEDBLFIKE(pub usize);

impl EDJEDBLFIKE {
    /// The managed class name the runtime knows this class by.
    pub fn class_name() -> (r: &'static str)
        ensures
            r@ == "EDJEDBLFIKE"@,
    {
        "EDJEDBLFIKE"
    }

    /// Whether this is the null reference.
    pub fn is_null(&self) -> (r: bool)
        ensures
            r == (self.0 == 0),
    {
        self.0 == 0
    }

    /// This handle seen as a managed object.
    pub fn as_object(&self) -> (r: Il2CppObject)
        ensures
            r.0 == self.0,
    {
        Il2CppObject(self.0)
    }
}

/// Handle of a managed `RPG.GameCore.BattleLineupData`.
#[derive(Debug, Clone, Copy, PartialEq, Eq, Structural)]
pub struct RPG_GameCore_BattleLineupData(pub usize);

impl RPG_GameCore_BattleLineupData {
    /// The managed class name the runtime knows this class by.
    pub fn class_name() -> (r: &'static str)
        ensures
            r@ == "RPG.GameCore.BattleLineupData"@,
    {
        "RPG.GameCore.BattleLineupData"
    }

    /// Whether this is the null reference.
    pub fn is_null(&self) -> (r: bool)
        ensures
            r == (self.0 == 0),
    {
        self.0 == 0
    }

    /// This handle seen as a managed object.
    pub fn as_object(&self) -> (r: Il2CppObject)
        ensures
            r.0 == self.0,
    {
        Il2CppObject(self.0)
    }
}

/// Handle of a managed `RPG.GameCore.TurnBasedGameMode`.
#[derive(Debug, Clone, Copy, PartialEq, Eq, Structural)]
pub struct RPG_GameCore_TurnBasedGameMode(pub usize);

impl RPG_GameCore_TurnBasedGameMode {
    /// The managed class name the runtime knows this class by.
    pub fn class_name() -> (r: &'static str)
        ensures
            r@ == "RPG.GameCore.TurnBasedGameMode"@,
    {
        "RPG.GameCore.TurnBasedGameMode"
    }

    /// Whether this is the null reference.
    pub fn is_null(&self) -> (r: bool)
        ensures
            r == (self.0 == 0),
    {
        self.0 == 0
    }

    /// This handle seen as a managed object.
    pub fn as_object(&self) -> (r: Il2CppObject)
        ensures
            r.0 == self.0,
    {
        Il2CppObject(self.0)
    }
}

/// Handle of a managed `RPG.GameCore.TurnBasedAbilityComponent`.
#[derive(Debug, Clone, Copy, PartialEq, Eq, Structural)]
pub struct RPG_GameCore_TurnBasedAbilityComponent(pub usize);

impl RPG_GameCore_TurnBasedAbilityComponent {
    /// The managed class name the runtime knows this class by.
    pub fn class_name() -> (r: &'static str)
        ensures
            r@ == "RPG.GameCore.TurnBasedAbilityComponent"@,
    {
        "RPG.GameCore.TurnBasedAbilityComponent"
    }

    /// Whether this is the null reference.
    pub fn is_null(&self) -> (r: bool)
        ensures
            r == (self.0 == 0),
    {
        self.0 == 0
    }

    /// This handle seen as a managed object.
    pub fn as_object(&self) -> (r: Il2CppObject)
        ensures
            r.0 == self.0,
    {
        Il2CppObject(self.0)
    }
}

/// Handle of a managed `RPG.GameCore.CharacterConfig`.
#[derive(Debug, Clone, Copy, PartialEq, Eq, Structural)]
pub struct RPG_GameCore_CharacterConfig(pub usize);

impl RPG_GameCore_CharacterConfig {
    /// The managed class name the runtime knows this class by.
    pub fn class_name() -> (r: &'static str)
        ensures
            r@ == "RPG.GameCore.CharacterConfig"@,
    {
        "RPG.GameCore.CharacterConfig"
    }

    /// Whether this is the null reference.
    pub fn is_null(&self) -> (r: bool)
        ensures
            r == (self.0 == 0),
    {
        self.0 == 0
    }

    /// This handle seen as a managed object.
    pub fn as_object(&self) -> (r: Il2CppObject)
        ensures
            r.0 == self.0,
    {
        Il2CppObject(self.0)
    }
}

/// Handle of a managed `RPG.GameCore.TeamFormationComponent`.
#[derive(Debug, Clone, Copy, PartialEq, Eq, Structural)]
pub struct RPG_GameCore_TeamFormationComponent(pub usize);

impl RPG_GameCore_TeamFormationComponent {
    /// The managed class name the runtime knows this class by.
    pub fn class_name() -> (r: &'static str)
        ensures
            r@ == "RPG.GameCore.TeamFormationComponent"@,
    {
        "RPG.GameCore.TeamFormationComponent"
    }

    /// Whether this is the null reference.
    pub fn is_null(&self) -> (r: bool)
        ensures
            r == (self.0 == 0),
    {
        self.0 == 0
    }

    /// This handle seen as a managed object.
    pub fn as_object(&self) -> (r: Il2CppObject)
        ensures
            r.0 == self.0,
    {
        Il2CppObject(self.0)
    }
}

/// Handle of a managed `RPG.Client.AvatarServantData`.
#[derive(Debug, Clone, Copy, PartialEq, Eq, Structural)]
pub struct RPG_Client_AvatarServantData(pub usize);

impl RPG_Client_AvatarServantData {
    /// The managed class name the runtime knows this class by.
    pub fn class_name() -> (r: &'static str)
        ensures
            r@ == "RPG.Client.AvatarServantData"@,
    {
        "RPG.Client.AvatarServantData"
    }

    /// Whether this is the null reference.
    pub fn is_null(&self) -> (r: bool)
        ensures
            r == (self.0 == 0),
    {
        self.0 == 0
    }

    /// This handle seen as a managed object.
    pub fn as_object(&self) -> (r: Il2CppObject)
        ensures
            r.0 == self.0,
    {
        Il2CppObject(self.0)
    }
}

/// Handle of a managed `RPG.GameCore.MonsterRowData`.
#[derive(Debug, Clone, Copy, PartialEq, Eq, Structural)]
pub struct RPG_GameCore_MonsterRowData(pub usize);

impl RPG_GameCore_MonsterRowData {
    /// The managed class name the runtime knows this class by.
    pub fn class_name() -> (r: &'static str)
        ensures
            r@ == "RPG.GameCore.MonsterRowData"@,
    {
        "RPG.GameCore.MonsterRowData"
    }

    /// Whether this is the null reference.
    pub fn is_null(&self) -> (r: bool)
        ensures
            r == (self.0 == 0),
    {
        self.0 == 0
    }

    /// This handle seen as a managed object.
    pub fn as_object(&self) -> (r: Il2CppObject)
        ensures
            r.0 == self.0,
    {
        Il2CppObject(self.0)
    }
}

/// Handle of a managed `RPG.GameCore.BattleEventSkillRowData`.
#[derive(Debug, Clone, Copy, PartialEq, Eq, Structural)]
pub struct RPG_GameCore_BattleEventSkillRowData(pub usize);

impl RPG_GameCore_BattleEventSkillRowData {
    /// The managed class name the runtime knows this class by.
    pub fn class_name() -> (r: &'static str)
        ensures
            r@ == "RPG.GameCore.BattleEventSkillRowData"@,
    {
        "RPG.GameCore.BattleEventSkillRowData"
    }

    /// Whether this is the null reference.
    pub fn is_null(&self) -> (r: bool)
        ensures
            r == (self.0 == 0),
    {
        self.0 == 0
    }

    /// This handle seen as a managed object.
    pub fn as_object(&self) -> (r: Il2CppObject)
        ensures
            r.0 == self.0,
    {
        Il2CppObject(self.0)
    }
}

/// Handle of a managed `RPG.Client.AvatarData`.
#[derive(Debug, Clone, Copy, PartialEq, Eq, Structural)]
pub struct RPG_Client_AvatarData(pub usize);

impl RPG_Client_AvatarData {
    /// The managed class name the runtime knows this class by.
    pub fn class_name() -> (r: &'static str)
        ensures
            r@ == "RPG.Client.AvatarData"@,
    {
        "RPG.Client.AvatarData"
    }

    /// Whether this is the null reference.
    pub fn is_null(&self) -> (r: bool)
        ensures
            r == (self.0 == 0),
    {
        self.0 == 0
    }

    /// This handle seen as a managed object.
    pub fn as_object(&self) -> (r: Il2CppObject)
        ensures
            r.0 == self.0,
    {
        Il2CppObject(self.0)
    }
}

/// Handle of a managed `RPG.GameCore.MonsterRow`.
#[derive(Debug, Clone, Copy, PartialEq, Eq, Structural)]
pub struct RPG_GameCore_MonsterRow(pub usize);

impl RPG_GameCore_MonsterRow {
    /// The managed class name the runtime knows this class by.
    pub fn class_name() -> (r: &'static str)
        ensures
            r@ == "RPG.GameCore.MonsterRow"@,
    {
        "RPG.GameCore.MonsterRow"
    }

    /// Whether this is the null reference.
    pub fn is_null(&self) -> (r: bool)
        ensures
            r == (self.0 == 0),
    {
        self.0 == 0
    }

    /// This handle seen as a managed object.
    pub fn as_object(&self) -> (r: Il2CppObject)
        ensures
            r.0 == self.0,
    {
        Il2CppObject(self.0)
    }
}

/// Handle of a managed `RPG.GameCore.AvatarSkillRowData`.
#[derive(Debug, Clone, Copy, PartialEq, Eq, Structural)]
pub struct RPG_GameCore_AvatarSkillRowData(pub usize);

impl RPG_GameCore_AvatarSkillRowData {
    /// The managed class name the runtime knows this class by.
    pub fn class_name() -> (r: &'static str)
        ensures
            r@ == "RPG.GameCore.AvatarSkillRowData"@,
    {
        "RPG.GameCore.AvatarSkillRowData"
    }

    /// Whether this is the null reference.
    pub fn is_null(&self) -> (r: bool)
        ensures
            r == (self.0 == 0),
    {
        self.0 == 0
    }

    /// This handle seen as a managed object.
    pub fn as_object(&self) -> (r: Il2CppObject)
        ensures
            r.0 == self.0,
    {
        Il2CppObject(self.0)
    }
}

/// Handle of a managed `RPG.GameCore.MonsterDataComponent`.
#[derive(Debug, Clone, Copy, PartialEq, Eq, Structural)]
pub struct RPG_GameCore_MonsterDataComponent(pub usize);

impl RPG_GameCore_MonsterDataComponent {
    /// The managed class name the runtime knows this class by.
    pub fn class_name() -> (r: &'static str)
        ensures
            r@ == "RPG.GameCore.MonsterDataComponent"@,
    {
        "RPG.GameCore.MonsterDataComponent"
    }

    /// Whether this is the null reference.
    pub fn is_null(&self) -> (r: bool)
        ensures
            r == (self.0 == 0),
    {
        self.0 == 0
    }

    /// This handle seen as a managed object.
    pub fn as_object(&self) -> (r: Il2CppObject)
        ensures
            r.0 == self.0,
    {
        Il2CppObject(self.0)
    }
}

/// Handle of a managed `RPG.GameCore.ServantSkillRowData`.
#[derive(Debug, Clone, Copy, PartialEq, Eq, Structural)]
pub struct RPG_GameCore_ServantSkillRowData(pub usize);

impl RPG_GameCore_ServantSkillRowData {
    /// The managed class name the runtime knows this class by.
    pub fn class_name() -> (r: &'static str)
        ensures
            r@ == "RPG.GameCore.ServantSkillRowData"@,
    {
        "RPG.GameCore.ServantSkillRowData"
    }

    /// Whether this is the null reference.
    pub fn is_null(&self) -> (r: bool)
        ensures
            r == (self.0 == 0),
    {
        self.0 == 0
    }

    /// This handle seen as a managed object.
    pub fn as_object(&self) -> (r: Il2CppObject)
        ensures
            r.0 == self.0,
    {
        Il2CppObject(self.0)
    }
}

/// Handle of a managed `RPG.GameCore.GameComponentBase`.
#[derive(Debug, Clone, Copy, PartialEq, Eq, Structural)]
pub struct RPG_GameCore_GameComponentBase(pub usize);

impl RPG_GameCore_GameComponentBase {
    /// The managed class name the runtime knows this class by.
    pub fn class_name() -> (r: &'static str)
        ensures
            r@ == "RPG.GameCore.GameComponentBase"@,
    {
        "RPG.GameCore.GameComponentBase"
    }

    /// Whether this is the null reference.
    pub fn is_null(&self) -> (r: bool)
        ensures
            r == (self.0 == 0),
    {
        self.0 == 0
    }

    /// This handle seen as a managed object.
    pub fn as_object(&self) -> (r: Il2CppObject)
        ensures
            r.0 == self.0,
    {
        Il2CppObject(self.0)
    }
}

/// Handle of a managed `RPG.GameCore.SkillCharacterComponent`.
#[derive(Debug, Clone, Copy, PartialEq, Eq, Structural)]
pub struct RPG_GameCore_SkillCharacterComponent(pub usize);

impl RPG_GameCore_SkillCharacterComponent {
    /// The managed class name the runtime knows this class by.
    pub fn class_name() -> (r: &'static str)
        ensures
            r@ == "RPG.GameCore.SkillCharacterComponent"@,
    {
        "RPG.GameCore.SkillCharacterComponent"
    }

    /// Whether this is the null reference.
    pub fn is_null(&self) -> (r: bool)
        ensures
            r == (self.0 == 0),
    {
        self.0 == 0
    }

    /// This handle seen as a managed object.
    pub fn as_object(&self) -> (r: Il2CppObject)
        ensures
            r.0 == self.0,
    {
        Il2CppObject(self.0)
    }
}

/// Handle of a managed `RPG.GameCore.BattleEventDataComponent`.
#[derive(Debug, Clone, Copy, PartialEq, Eq, Structural)]
pub struct RPG_GameCore_BattleEventDataComponent(pub usize);

impl RPG_GameCore_BattleEventDataComponent {
    /// The managed class name the runtime knows this class by.
    pub fn class_name() -> (r: &'static str)
        ensures
            r@ == "RPG.GameCore.BattleEventDataComponent"@,
    {
        "RPG.GameCore.BattleEventDataComponent"
    }

    /// Whether this is the null reference.
    pub fn is_null(&self) -> (r: bool)
        ensures
            r == (self.0 == 0),
    {
        self.0 == 0
    }

    /// This handle seen as a managed object.
    pub fn as_object(&self) -> (r: Il2CppObject)
        ensures
            r.0 == self.0,
    {
        Il2CppObject(self.0)
    }
}

/// Handle of a managed `RPG.GameCore.SkillData`.
#[derive(Debug, Clone, Copy, PartialEq, Eq, Structural)]
pub struct RPG_GameCore_SkillData(pub usize);

impl RPG_GameCore_SkillData {
    /// The managed class name the runtime knows this class by.
    pub fn class_name() -> (r: &'static str)
        ensures
            r@ == "RPG.GameCore.SkillData"@,
    {
        "RPG.GameCore.SkillData"
    }

    /// Whether this is the null reference.
    pub fn is_null(&self) -> (r: bool)
        ensures
            r == (self.0 == 0),
    {
        self.0 == 0
    }

    /// This handle seen as a managed object.
    pub fn as_object(&self) -> (r: Il2CppObject)
        ensures
            r.0 == self.0,
    {
        Il2CppObject(self.0)
    }
}

/// Handle of a managed `RPG.GameCore.AbilityConfig`.
#[derive(Debug, Clone, Copy, PartialEq, Eq, Structural)]
pub struct RPG_GameCore_AbilityConfig(pub usize);

impl RPG_GameCore_AbilityConfig {
    /// The managed class name the runtime knows this class by.
    pub fn class_name() -> (r: &'static str)
        ensures
            r@ == "RPG.GameCore.AbilityConfig"@,
    {
        "RPG.GameCore.AbilityConfig"
    }

    /// Whether this is the null reference.
    pub fn is_null(&self) -> (r: bool)
        ensures
            r == (self.0 == 0),
    {
        self.0 == 0
    }

    /// This handle seen as a managed object.
    pub fn as_object(&self) -> (r: Il2CppObject)
        ensures
            r.0 == self.0,
    {
        Il2CppObject(self.0)
    }
}

/// Handle of a managed `RPG.GameCore.LineUpCharacter`.
#[derive(Debug, Clone, Copy, PartialEq, Eq, Structural)]
pub struct RPG_GameCore_LineUpCharacter(pub usize);

impl RPG_GameCore_LineUpCharacter {
    /// The managed class name the runtime knows this class by.
    pub fn class_name() -> (r: &'static str)
        ensures
            r@ == "RPG.GameCore.LineUpCharacter"@,
    {
        "RPG.GameCore.LineUpCharacter"
    }

    /// Whether this is the null reference.
    pub fn is_null(&self) -> (r: bool)
        ensures
            r == (self.0 == 0),
    {
        self.0 == 0
    }

    /// This handle seen as a managed object.
    pub fn as_object(&self) -> (r: Il2CppObject)
        ensures
            r.0 == self.0,
    {
        Il2CppObject(self.0)
    }
}

/// Handle of a managed `RPG.Client.TextID`.
#[derive(Debug, Clone, Copy, PartialEq, Eq, Structural)]
pub struct RPG_Client_TextID(pub usize);

impl RPG_Client_TextID {
    /// The managed class name the runtime knows this class by.
    pub fn class_name() -> (r: &'static str)
        ensures
            r@ == "RPG.Client.TextID"@,
    {
        "RPG.Client.TextID"
    }

    /// Whether this is the null reference.
    pub fn is_null(&self) -> (r: bool)
        ensures
            r == (self.0 == 0),
    {
        self.0 == 0
    }

    /// This handle seen as a managed object.
    pub fn as_object(&self) -> (r: Il2CppObject)
        ensures
            r.0 == self.0,
    {
        Il2CppObject(self.0)
    }
}

/// Handle of a managed `RPG.GameCore.CharacterDataComponent`.
#[derive(Debug, Clone, Copy, PartialEq, Eq, Structural)]
pub struct RPG_GameCore_CharacterDataComponent(pub usize);

impl RPG_GameCore_CharacterDataComponent {
    /// The managed class name the runtime knows this class by.
    pub fn class_name() -> (r: &'static str)
        ensures
            r@ == "RPG.GameCore.CharacterDataComponent"@,
    {
        "RPG.GameCore.CharacterDataComponent"
    }

    /// Whether this is the null reference.
    pub fn is_null(&self) -> (r: bool)
        ensures
            r == (self.0 == 0),
    {
        self.0 == 0
    }

    /// This handle seen as a managed object.
    pub fn as_object(&self) -> (r: Il2CppObject)
        ensures
            r.0 == self.0,
    {
        Il2CppObject(self.0)
    }
}

/// Handle of a managed `RPG.GameCore.FixPoint`.
#[derive(Debug, Clone, Copy, PartialEq, Eq, Structural)]
pub struct RPG_GameCore_FixPoint(pub usize);

impl RPG_GameCore_FixPoint {
    /// The managed class name the runtime knows this class by.
    pub fn class_name() -> (r: &'static str)
        ensures
            r@ == "RPG.GameCore.FixPoint"@,
    {
        "RPG.GameCore.FixPoint"
    }

    /// Whether this is the null reference.
    pub fn is_null(&self) -> (r: bool)
        ensures
            r == (self.0 == 0),
    {
        self.0 == 0
    }

    /// This handle seen as a managed object.
    pub fn as_object(&self) -> (r: Il2CppObject)
        ensures
            r.0 == self.0,
    {
        Il2CppObject(self.0)
    }
}

/// Handle of a managed `NOPBAAAGGLA`.
#[derive(Debug, Clone, Copy, PartialEq, Eq, Structural)]
pub struct NOPBAAAGGLA(pub usize);

impl NOPBAAAGGLA {
    /// The managed class name the runtime knows this class by.
    pub fn class_name() -> (r: &'static str)
        ensures
            r@ == "NOPBAAAGGLA"@,
    {
        "NOPBAAAGGLA"
    }

    /// Whether this is the null reference.
    pub fn is_null(&self) -> (r: bool)
        ensures
            r == (self.0 == 0),
    {
        self.0 == 0
    }

    /// This handle seen as a managed object.
    pub fn as_object(&self) -> (r: Il2CppObject)
        ensures
            r.0 == self.0,
    {
        Il2CppObject(self.0)
    }
}

/// Handle of a managed `RPG.GameCore.BattleInstance`.
#[derive(Debug, Clone, Copy, PartialEq, Eq, Structural)]
pub struct RPG_GameCore_BattleInstance(pub usize);

impl RPG_GameCore_BattleInstance {
    /// The managed class name the runtime knows this class by.
    pub fn class_name() -> (r: &'static str)
        ensures
            r@ == "RPG.GameCore.BattleInstance"@,
    {
        "RPG.GameCore.BattleInstance"
    }

    /// Whether this is the null reference.
    pub fn is_null(&self) -> (r: bool)
        ensures
            r == (self.0 == 0),
    {
        self.0 == 0
    }

    /// This handle seen as a managed object.
    pub fn as_object(&self) -> (r: Il2CppObject)
        ensures
            r.0 == self.0,
    {
        Il2CppObject(self.0)
    }
}

/// Handle of a managed `RPG.GameCore.GameEntity`.
#[derive(Debug, Clone, Copy, PartialEq, Eq, Structural)]
pub struct RPG_GameCore_GameEntity(pub usize);

impl RPG_GameCore_GameEntity {
    /// The managed class name the runtime knows this class by.
    pub fn class_name() -> (r: &'static str)
        ensures
            r@ == "RPG.GameCore.GameEntity"@,
    {
        "RPG.GameCore.GameEntity"
    }

    /// Whether this is the null reference.
    pub fn is_null(&self) -> (r: bool)
        ensures
            r == (self.0 == 0),
    {
        self.0 == 0
    }

    /// This handle seen as a managed object.
    pub fn as_object(&self) -> (r: Il2CppObject)
        ensures
            r.0 == self.0,
    {
        Il2CppObject(self.0)
    }
}

/// Handle of a managed `RPG.Client.ModuleManager`.
#[derive(Debug, Clone, Copy, PartialEq, Eq, Structural)]
pub struct RPG_Client_ModuleManager(pub usize);

impl RPG_Client_ModuleManager {
    /// The managed class name the runtime knows this class by.
    pub fn class_name() -> (r: &'static str)
        ensures
            r@ == "RPG.Client.ModuleManager"@,
    {
        "RPG.Client.ModuleManager"
    }

    /// Whether this is the null reference.
    pub fn is_null(&self) -> (r: bool)
        ensures
            r == (self.0 == 0),
    {
        self.0 == 0
    }

    /// This handle seen as a managed object.
    pub fn as_object(&self) -> (r: Il2CppObject)
        ensures
            r.0 == self.0,
    {
        Il2CppObject(self.0)
    }
}

/// Handle of a managed `MMNDIEBMDNL`.
#[derive(Debug, Clone, Copy, PartialEq, Eq, Structural)]
pub struct MMNDIEBMDNL(pub usize);

impl MMNDIEBMDNL {
    /// The managed class name the runtime knows this class by.
    pub fn class_name() -> (r: &'static str)
        ensures
            r@ == "MMNDIEBMDNL"@,
    {
        "MMNDIEBMDNL"
    }

    /// Whether this is the null reference.
    pub fn is_null(&self) -> (r: bool)
        ensures
            r == (self.0 == 0),
    {
        self.0 == 0
    }

    /// This handle seen as a managed object.
    pub fn as_object(&self) -> (r: Il2CppObject)
        ensures
            r.0 == self.0,
    {
        Il2CppObject(self.0)
    }
}

/// Handle of a managed `RPG.GameCore.ICharacterSkillRowData`.
#[derive(Debug, Clone, Copy, PartialEq, Eq, Structural)]
pub struct RPG_GameCore_ICharacterSkillRowData(pub usize);

impl RPG_GameCore_ICharacterSkillRowData {
    /// The managed class name the runtime knows this class by.
    pub fn class_name() -> (r: &'static str)
        ensures
            r@ == "RPG.GameCore.ICharacterSkillRowData"@,
    {
        "RPG.GameCore.ICharacterSkillRowData"
    }

    /// Whether this is the null reference.
    pub fn is_null(&self) -> (r: bool)
        ensures
            r == (self.0 == 0),
    {
        self.0 == 0
    }

    /// This handle seen as a managed object.
    pub fn as_object(&self) -> (r: Il2CppObject)
        ensures
            r.0 == self.0,
    {
        Il2CppObject(self.0)
    }
}

/// Handle of a managed `RPG.Client.AvatarModule`.
#[derive(Debug, Clone, Copy, PartialEq, Eq, Structural)]
pub struct RPG_Client_AvatarModule(pub usize);

impl RPG_Client_AvatarModule {
    /// The managed class name the runtime knows this class by.
    pub fn class_name() -> (r: &'static str)
        ensures
            r@ == "RPG.Client.AvatarModule"@,
    {
        "RPG.Client.AvatarModule"
    }

    /// Whether this is the null reference.
    pub fn is_null(&self) -> (r: bool)
        ensures
            r == (self.0 == 0),
    {
        self.0 == 0
    }

    /// This handle seen as a managed object.
    pub fn as_object(&self) -> (r: Il2CppObject)
        ensures
            r.0 == self.0,
    {
        Il2CppObject(self.0)
    }
}

/// Handle of a managed `RPG.GameCore.GameWorld`.
#[derive(Debug, Clone, Copy, PartialEq, Eq, Structural)]
pub struct RPG_GameCore_GameWorld(pub usize);

impl RPG_GameCore_GameWorld {
    /// The managed class name the runtime knows this class by.
    pub fn class_name() -> (r: &'static str)
        ensures
            r@ == "RPG.GameCore.GameWorld"@,
    {
        "RPG.GameCore.GameWorld"
    }

    /// Whether this is the null reference.
    pub fn is_null(&self) -> (r: bool)
        ensures
            r == (self.0 == 0),
    {
        self.0 == 0
    }

    /// This handle seen as a managed object.
    pub fn as_object(&self) -> (r: Il2CppObject)
        ensures
            r.0 == self.0,
    {
        Il2CppObject(self.0)
    }
}

/// Handle of a managed `RPG.GameCore.EntityManager`.
#[derive(Debug, Clone, Copy, PartialEq, Eq, Structural)]
pub struct RPG_GameCore_EntityManager(pub usize);

impl RPG_GameCore_EntityManager {
    /// The managed class name the runtime knows this class by.
    pub fn class_name() -> (r: &'static str)
        ensures
            r@ == "RPG.GameCore.EntityManager"@,
    {
        "RPG.GameCore.EntityManager"
    }

    /// Whether this is the null reference.
    pub fn is_null(&self) -> (r: bool)
        ensures
            r == (self.0 == 0),
    {
        self.0 == 0
    }

    /// This handle seen as a managed object.
    pub fn as_object(&self) -> (r: Il2CppObject)
        ensures
            r.0 == self.0,
    {
        Il2CppObject(self.0)
    }
}

/// Handle of a managed `RPG.Client.GlobalVars`.
#[derive(Debug, Clone, Copy, PartialEq, Eq, Structural)]
pub struct RPG_Client_GlobalVars(pub usize);

impl RPG_Client_GlobalVars {
    /// The managed class name the runtime knows this class by.
    pub fn class_name() -> (r: &'static str)
        ensures
            r@ == "RPG.Client.GlobalVars"@,
    {
        "RPG.Client.GlobalVars"
    }

    /// Whether this is the null reference.
    pub fn is_null(&self) -> (r: bool)
        ensures
            r == (self.0 == 0),
    {
        self.0 == 0
    }

    /// This handle seen as a managed object.
    pub fn as_object(&self) -> (r: Il2CppObject)
        ensures
            r.0 == self.0,
    {
        Il2CppObject(self.0)
    }
}

/// Handle of a managed `RPG.Client.TextmapStatic`.
#[derive(Debug, Clone, Copy, PartialEq, Eq, Structural)]
pub struct RPG_Client_TextmapStatic(pub usize);

impl RPG_Client_TextmapStatic {
    /// The managed class name the runtime knows this class by.
    pub fn class_name() -> (r: &'static str)
        ensures
            r@ == "RPG.Client.TextmapStatic"@,
    {
        "RPG.Client.TextmapStatic"
    }

    /// Whether this is the null reference.
    pub fn is_null(&self) -> (r: bool)
        ensures
            r == (self.0 == 0),
    {
        self.0 == 0
    }

    /// This handle seen as a managed object.
    pub fn as_object(&self) -> (r: Il2CppObject)
        ensures
            r.0 == self.0,
    {
        Il2CppObject(self.0)
    }
}

/// Handle of a managed `RPG.Client.UIGameEntityUtils`.
#[derive(Debug, Clone, Copy, PartialEq, Eq, Structural)]
pub struct RPG_Client_UIGameEntityUtils(pub usize);

impl RPG_Client_UIGameEntityUtils {
    /// The managed class name the runtime knows this class by.
    pub fn class_name() -> (r: &'static str)
        ensures
            r@ == "RPG.Client.UIGameEntityUtils"@,
    {
        "RPG.Client.UIGameEntityUtils"
    }

    /// Whether this is the null reference.
    pub fn is_null(&self) -> (r: bool)
        ensures
            r == (self.0 == 0),
    {
        self.0 == 0
    }

    /// This handle seen as a managed object.
    pub fn as_object(&self) -> (r: Il2CppObject)
        ensures
            r.0 == self.0,
    {
        Il2CppObject(self.0)
    }
}

/// Handle of a managed `RPG.GameCore.AbilityStatic`.
#[derive(Debug, Clone, Copy, PartialEq, Eq, Structural)]
pub struct RPG_GameCore_AbilityStatic(pub usize);

impl RPG_GameCore_AbilityStatic {
    /// The managed class name the runtime knows this class by.
    pub fn class_name() -> (r: &'static str)
        ensures
            r@ == "RPG.GameCore.AbilityStatic"@,
    {
        "RPG.GameCore.AbilityStatic"
    }

    /// Whether this is the null reference.
    pub fn is_null(&self) -> (r: bool)
        ensures
            r == (self.0 == 0),
    {
        self.0 == 0
    }

    /// This handle seen as a managed object.
    pub fn as_object(&self) -> (r: Il2CppObject)
        ensures
            r.0 == self.0,
    {
        Il2CppObject(self.0)
    }
}

/// Handle of a managed `MiHoYo.SDK.Win.MiHoYoSDKDll`.
#[derive(Debug, Clone, Copy, PartialEq, Eq, Structural)]
pub struct MiHoYo_SDK_Win_MiHoYoSDKDll(pub usize);

impl MiHoYo_SDK_Win_MiHoYoSDKDll {
    /// The managed class name the runtime knows this class by.
    pub fn class_name() -> (r: &'static str)
        ensures
            r@ == "MiHoYo.SDK.Win.MiHoYoSDKDll"@,
    {
        "MiHoYo.SDK.Win.MiHoYoSDKDll"
    }

    /// Whether this is the null reference.
    pub fn is_null(&self) -> (r: bool)
        ensures
            r == (self.0 == 0),
    {
        self.0 == 0
    }

    /// This handle seen as a managed object.
    pub fn as_object(&self) -> (r: Il2CppObject)
        ensures
            r.0 == self.0,
    {
        Il2CppObject(self.0)
    }
}

/// Handle of a managed `UnityEngine.Application`.
#[derive(Debug, Clone, Copy, PartialEq, Eq, Structural)]
pub struct UnityEngine_Application(pub usize);

impl UnityEngine_Application {
    /// The managed class name the runtime knows this class by.
    pub fn class_name() -> (r: &'static str)
        ensures
            r@ == "UnityEngine.Application"@,
    {
        "UnityEngine.Application"
    }

    /// Whether this is the null reference.
    pub fn is_null(&self) -> (r: bool)
        ensures
            r == (self.0 == 0),
    {
        self.0 == 0
    }

    /// This handle seen as a managed object.
    pub fn as_object(&self) -> (r: Il2CppObject)
        ensures
            r.0 == self.0,
    {
        Il2CppObject(self.0)
    }
}

/// Handle of a managed `DMFMLMJKKHB`.
#[derive(Debug, Clone, Copy, PartialEq, Eq, Structural)]
pub struct DMFMLMJKKHB(pub usize);

impl DMFMLMJKKHB {
    /// The managed class name the runtime knows this class by.
    pub fn class_name() -> (r: &'static str)
        ensures
            r@ == "DMFMLMJKKHB"@,
    {
        "DMFMLMJKKHB"
    }

    /// Whether this is the null reference.
    pub fn is_null(&self) -> (r: bool)
        ensures
            r == (self.0 == 0),
    {
        self.0 == 0
    }

    /// This handle seen as a managed object.
    pub fn as_object(&self) -> (r: Il2CppObject)
        ensures
            r.0 == self.0,
    {
        Il2CppObject(self.0)
    }
}

/// Handle of a managed `RPG.Client.BattleAssetPreload`.
#[derive(Debug, Clone, Copy, PartialEq, Eq, Structural)]
pub struct RPG_Client_BattleAssetPreload(pub usize);

impl RPG_Client_BattleAssetPreload {
    /// The managed class name the runtime knows this class by.
    pub fn class_name() -> (r: &'static str)
        ensures
            r@ == "RPG.Client.BattleAssetPreload"@,
    {
        "RPG.Client.BattleAssetPreload"
    }

    /// Whether this is the null reference.
    pub fn is_null(&self) -> (r: bool)
        ensures
            r == (self.0 == 0),
    {
        self.0 == 0
    }

    /// This handle seen as a managed object.
    pub fn as_object(&self) -> (r: Il2CppObject)
        ensures
            r.0 == self.0,
    {
        Il2CppObject(self.0)
    }
}

/// Handle of a managed `RPG.GameCore.ServantDataComponent`.
#[derive(Debug, Clone, Copy, PartialEq, Eq, Structural)]
pub struct RPG_GameCore_ServantDataComponent(pub usize);

impl RPG_GameCore_ServantDataComponent {
    /// The managed class name the runtime knows this class by.
    pub fn class_name() -> (r: &'static str)
        ensures
            r@ == "RPG.GameCore.ServantDataComponent"@,
    {
        "RPG.GameCore.ServantDataComponent"
    }

    /// Whether this is the null reference.
    pub fn is_null(&self) -> (r: bool)
        ensures
            r == (self.0 == 0),
    {
        self.0 == 0
    }

    /// This handle seen as a managed object.
    pub fn as_object(&self) -> (r: Il2CppObject)
        ensures
            r.0 == self.0,
    {
        Il2CppObject(self.0)
    }
}

/// Handle of a managed `RPG.GameCore.ServantRowData`.
#[derive(Debug, Clone, Copy, PartialEq, Eq, Structural)]
pub struct RPG_GameCore_ServantRowData(pub usize);

impl RPG_GameCore_ServantRowData {
    /// The managed class name the runtime knows this class by.
    pub fn class_name() -> (r: &'static str)
        ensures
            r@ == "RPG.GameCore.ServantRowData"@,
    {
        "RPG.GameCore.ServantRowData"
    }

    /// Whether this is the null reference.
    pub fn is_null(&self) -> (r: bool)
        ensures
            r == (self.0 == 0),
    {
        self.0 == 0
    }

    /// This handle seen as a managed object.
    pub fn as_object(&self) -> (r: Il2CppObject)
        ensures
            r.0 == self.0,
    {
        Il2CppObject(self.0)
    }
}

/// Handle of a managed `RPG.GameCore.AvatarServantRow`.
#[derive(Debug, Clone, Copy, PartialEq, Eq, Structural)]
pub struct RPG_GameCore_AvatarServantRow(pub usize);

impl RPG_GameCore_AvatarServantRow {
    /// The managed class name the runtime knows this class by.
    pub fn class_name() -> (r: &'static str)
        ensures
            r@ == "RPG.GameCore.AvatarServantRow"@,
    {
        "RPG.GameCore.AvatarServantRow"
    }

    /// Whether this is the null reference.
    pub fn is_null(&self) -> (r: bool)
        ensures
            r == (self.0 == 0),
    {
        self.0 == 0
    }

    /// This handle seen as a managed object.
    pub fn as_object(&self) -> (r: Il2CppObject)
        ensures
            r.0 == self.0,
    {
        Il2CppObject(self.0)
    }
}

/// Handle of a managed `RPG.GameCore.AbilityComponent`.
#[derive(Debug, Clone, Copy, PartialEq, Eq, Structural)]
pub struct RPG_GameCore_AbilityComponent(pub usize);

impl RPG_GameCore_AbilityComponent {
    /// The managed class name the runtime knows this class by.
    pub fn class_name() -> (r: &'static str)
        ensures
            r@ == "RPG.GameCore.AbilityComponent"@,
    {
        "RPG.GameCore.AbilityComponent"
    }

    /// Whether this is the null reference.
    pub fn is_null(&self) -> (r: bool)
        ensures
            r == (self.0 == 0),
    {
        self.0 == 0
    }

    /// This handle seen as a managed object.
    pub fn as_object(&self) -> (r: Il2CppObject)
        ensures
            r.0 == self.0,
    {
        Il2CppObject(self.0)
    }
}

/// Handle of a managed `RPG.GameCore.StatusExcelTable`.
#[derive(Debug, Clone, Copy, PartialEq, Eq, Structural)]
pub struct RPG_GameCore_StatusExcelTable(pub usize);

impl RPG_GameCore_StatusExcelTable {
    /// The managed class name the runtime knows this class by.
    pub fn class_name() -> (r: &'static str)
        ensures
            r@ == "RPG.GameCore.StatusExcelTable"@,
    {
        "RPG.GameCore.StatusExcelTable"
    }

    /// Whether this is the null reference.
    pub fn is_null(&self) -> (r: bool)
        ensures
            r == (self.0 == 0),
    {
        self.0 == 0
    }

    /// This handle seen as a managed object.
    pub fn as_object(&self) -> (r: Il2CppObject)
        ensures
            r.0 == self.0,
    {
        Il2CppObject(self.0)
    }
}

/// Handle of a managed `RPG.GameCore.StatusRow`.
#[derive(Debug, Clone, Copy, PartialEq, Eq, Structural)]
pub struct RPG_GameCore_StatusRow(pub usize);

impl RPG_GameCore_StatusRow {
    /// The managed class name the runtime knows this class by.
    pub fn class_name() -> (r: &'static str)
        ensures
            r@ == "RPG.GameCore.StatusRow"@,
    {
        "RPG.GameCore.StatusRow"
    }

    /// Whether this is the null reference.
    pub fn is_null(&self) -> (r: bool)
        ensures
            r == (self.0 == 0),
    {
        self.0 == 0
    }

    /// This handle seen as a managed object.
    pub fn as_object(&self) -> (r: Il2CppObject)
        ensures
            r.0 == self.0,
    {
        Il2CppObject(self.0)
    }
}

/// Handle of a managed `RPG.GameCore.TurnBasedModifierInstance`.
#[derive(Debug, Clone, Copy, PartialEq, Eq, Structural)]
pub struct RPG_GameCore_TurnBasedModifierInstance(pub usize);

impl RPG_GameCore_TurnBasedModifierInstance {
    /// The managed class name the runtime knows this class by.
    pub fn class_name() -> (r: &'static str)
        ensures
            r@ == "RPG.GameCore.TurnBasedModifierInstance"@,
    {
        "RPG.GameCore.TurnBasedModifierInstance"
    }

    /// Whether this is the null reference.
    pub fn is_null(&self) -> (r: bool)
        ensures
            r == (self.0 == 0),
    {
        self.0 == 0
    }

    /// This handle seen as a managed object.
    pub fn as_object(&self) -> (r: Il2CppObject)
        ensures
            r.0 == self.0,
    {
        Il2CppObject(self.0)
    }
}

} // verus!

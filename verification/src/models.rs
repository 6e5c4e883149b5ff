//! The battle data model: avatars, entities, stats, turns, events and packets.
//!
//! Real numbers (damage, action values, stats) are carried as the bit patterns of
//! their `f64` values; this library moves them and never computes with them.
use vstd::prelude::*;
use vstd::string::*;

verus! {

/// The IEEE-754 bit pattern of an `f64` value.
#[derive(Debug, Clone, Copy, PartialEq, Eq, Structural)]
pub struct F64Bits(pub u64);

impl F64Bits {
    /// The bit pattern of `0.0`.
    pub fn zero() -> (r: F64Bits)
        ensures
            r.0 == 0,
    {
        F64Bits(0)
    }
}

/// A copy of a vector of strings.
pub fn clone_strings(v: &Vec<String>) -> (r: Vec<String>)
    ensures
        r@ == v@,
{
    let mut r: Vec<String> = Vec::new();
    let mut i: usize = 0;
    while i < v.len()
        invariant
            i <= v@.len(),
            r@ == v@.subrange(0, i as int),
        decreases v@.len() - i,
    {
        r.push(v[i].clone());
        i = i + 1;
        assert(r@ =~= v@.subrange(0, i as int));
    }
    assert(r@ =~= v@);
    r
}

/// A copy of a vector of real-number bit patterns.
pub fn clone_reals(v: &Vec<F64Bits>) -> (r: Vec<F64Bits>)
    ensures
        r@ == v@,
{
    let mut r: Vec<F64Bits> = Vec::new();
    let mut i: usize = 0;
    while i < v.len()
        invariant
            i <= v@.len(),
            r@ == v@.subrange(0, i as int),
        decreases v@.len() - i,
    {
        r.push(v[i]);
        i = i + 1;
        assert(r@ =~= v@.subrange(0, i as int));
    }
    assert(r@ =~= v@);
    r
}

/// `n` zeros.
pub fn zero_reals(n: usize) -> (r: Vec<F64Bits>)
    ensures
        r@ == Seq::new(n as nat, |_i: int| F64Bits(0)),
{
    let mut r: Vec<F64Bits> = Vec::new();
    let mut i: usize = 0;
    while i < n
        invariant
            i <= n,
            r@ == Seq::new(i as nat, |_i: int| F64Bits(0)),
        decreases n - i,
    {
        r.push(F64Bits::zero());
        i = i + 1;
        assert(r@ =~= Seq::new(i as nat, |_i: int| F64Bits(0)));
    }
    r
}

/// A playable character or, where the game reports one, a monster.
#[derive(Debug)]
pub struct Avatar {
    pub id: u32,
    pub name: String,
}

impl Clone for Avatar {
    fn clone(&self) -> (r: Self)
        ensures
            r == *self,
    {
        Avatar { id: self.id, name: self.name.clone() }
    }
}

impl Avatar {
    /// How an avatar is shown: its name.
    pub fn to_display_string(&self) -> (r: String)
        ensures
            r@ == self.name@,
    {
        self.name.clone()
    }
}

/// A copy of a vector of avatars.
pub fn clone_avatars(v: &Vec<Avatar>) -> (r: Vec<Avatar>)
    ensures
        r@ == v@,
{
    let mut r: Vec<Avatar> = Vec::new();
    let mut i: usize = 0;
    while i < v.len()
        invariant
            i <= v@.len(),
            r@ == v@.subrange(0, i as int),
        decreases v@.len() - i,
    {
        r.push(v[i].clone());
        i = i + 1;
        assert(r@ =~= v@.subrange(0, i as int));
    }
    assert(r@ =~= v@);
    r
}

/// The side an entity fights on.
#[derive(Debug, Clone, Copy, PartialEq, Eq, Structural)]
pub enum Team {
    Player,
    Enemy,
}

/// An entity in battle: its runtime id and its side.
#[derive(Debug, Clone, Copy, PartialEq, Eq, Structural)]
pub struct Entity {
    pub uid: u32,
    pub team: Team,
}

/// A copy of a vector of entities.
pub fn clone_entities(v: &Vec<Entity>) -> (r: Vec<Entity>)
    ensures
        r@ == v@,
{
    let mut r: Vec<Entity> = Vec::new();
    let mut i: usize = 0;
    while i < v.len()
        invariant
            i <= v@.len(),
            r@ == v@.subrange(0, i as int),
        decreases v@.len() - i,
    {
        r.push(v[i]);
        i = i + 1;
        assert(r@ =~= v@.subrange(0, i as int));
    }
    assert(r@ =~= v@);
    r
}

/// The live stats of an entity in battle.
#[derive(Debug, Clone, Copy, PartialEq, Eq, Structural)]
pub struct BattleStats {
    pub hp: F64Bits,
    pub attack: F64Bits,
    pub defense: F64Bits,
    pub speed: F64Bits,
    pub av: F64Bits,
}

impl BattleStats {
    /// All stats zero.
    pub fn zero() -> (r: BattleStats)
        ensures
            r == (BattleStats { hp: F64Bits(0), attack: F64Bits(0), defense: F64Bits(0), speed: F64Bits(0), av: F64Bits(0) }),
    {
        BattleStats {
            hp: F64Bits(0),
            attack: F64Bits(0),
            defense: F64Bits(0),
            speed: F64Bits(0),
            av: F64Bits(0),
        }
    }
}

/// Base stats of an enemy.
#[derive(Debug, Clone, Copy, PartialEq, Eq, Structural)]
pub struct Stats {
    pub level: u32,
    pub hp: F64Bits,
}

/// An enemy as it is initialized in battle.
#[derive(Debug)]
pub struct Enemy {
    pub id: u32,
    pub uid: u32,
    pub name: String,
    pub base_stats: Stats,
    pub game_entity_ptr: usize,
}

impl Clone for Enemy {
    fn clone(&self) -> (r: Self)
        ensures
            r == *self,
    {
        Enemy {
            id: self.id,
            uid: self.uid,
            name: self.name.clone(),
            base_stats: self.base_stats,
            game_entity_ptr: self.game_entity_ptr,
        }
    }
}

/// An entity in battle with its live stats.
#[derive(Debug, Clone, Copy, PartialEq, Eq, Structural)]
pub struct BattleEntity {
    pub entity: Entity,
    pub battle_stats: BattleStats,
}

/// A change of one stat.
#[derive(Debug, Clone, Copy, PartialEq, Eq, Structural)]
pub enum Stat {
    HP(F64Bits),
    Attack(F64Bits),
    Defense(F64Bits),
    Speed(F64Bits),
    AV(F64Bits),
}

/// The stats after a stat change.
pub open spec fn stats_after(stats: BattleStats, stat: Stat) -> BattleStats {
    match stat {
        Stat::HP(v) => BattleStats { hp: v, ..stats },
        Stat::Attack(v) => BattleStats { attack: v, ..stats },
        Stat::Defense(v) => BattleStats { defense: v, ..stats },
        Stat::Speed(v) => BattleStats { speed: v, ..stats },
        Stat::AV(v) => BattleStats { av: v, ..stats },
    }
}

/// Each stat change writes the stat of its own name and keeps the other four: hit
/// points, attack, defense, speed and action value in turn.
pub proof fn stat_change_sets_its_own_stat(s: BattleStats, v: F64Bits)
    ensures
        stats_after(s, Stat::HP(v)) == (BattleStats { hp: v, attack: s.attack, defense: s.defense, speed: s.speed, av: s.av }),
        stats_after(s, Stat::Attack(v)) == (BattleStats { hp: s.hp, attack: v, defense: s.defense, speed: s.speed, av: s.av }),
        stats_after(s, Stat::Defense(v)) == (BattleStats { hp: s.hp, attack: s.attack, defense: v, speed: s.speed, av: s.av }),
        stats_after(s, Stat::Speed(v)) == (BattleStats { hp: s.hp, attack: s.attack, defense: s.defense, speed: v, av: s.av }),
        stats_after(s, Stat::AV(v)) == (BattleStats { hp: s.hp, attack: s.attack, defense: s.defense, speed: s.speed, av: v }),
{
}

/// Apply a stat change to a set of stats.
pub fn apply_stat(stats: &mut BattleStats, stat: Stat)
    ensures
        *final(stats) == stats_after(*old(stats), stat),
{
    match stat {
        Stat::HP(v) => stats.hp = v,
        Stat::Attack(v) => stats.attack = v,
        Stat::Defense(v) => stats.defense = v,
        Stat::Speed(v) => stats.speed = v,
        Stat::AV(v) => stats.av = v,
    }
}

/// A skill: its name and the kind of attack it is.
#[derive(Debug)]
pub struct Skill {
    pub name: String,
    pub skill_type: String,
}

impl Clone for Skill {
    fn clone(&self) -> (r: Self)
        ensures
            r == *self,
    {
        Skill { name: self.name.clone(), skill_type: self.skill_type.clone() }
    }
}

impl Skill {
    /// How a skill is shown: "[type] name".
    pub fn to_display_string(&self) -> (r: String)
        ensures
            r@ == "["@ + self.skill_type@ + "] "@ + self.name@,
    {
        let mut s = String::from_str("[");
        s.append(self.skill_type.as_str());
        s.append("] ");
        s.append(self.name.as_str());
        s
    }
}

/// What happened in one turn.
#[derive(Debug)]
pub struct TurnInfo {
    pub action_value: F64Bits,
    pub cycle: u32,
    pub wave: u32,
    /// Damage dealt by each avatar of the lineup, in lineup order.
    pub avatars_turn_damage: Vec<F64Bits>,
    pub total_damage: F64Bits,
    /// The monsters' hit points as JSON texts.
    pub monster_hps: Vec<String>,
}

/// What a turn record says, with its vectors as sequences.
pub struct TurnView {
    pub action_value: F64Bits,
    pub cycle: u32,
    pub wave: u32,
    pub avatars_turn_damage: Seq<F64Bits>,
    pub total_damage: F64Bits,
    pub monster_hps: Seq<String>,
}

impl View for TurnInfo {
    type V = TurnView;

    open spec fn view(&self) -> TurnView {
        TurnView {
            action_value: self.action_value,
            cycle: self.cycle,
            wave: self.wave,
            avatars_turn_damage: self.avatars_turn_damage@,
            total_damage: self.total_damage,
            monster_hps: self.monster_hps@,
        }
    }
}

/// The views of a sequence of turn records.
pub open spec fn turn_views(h: Seq<TurnInfo>) -> Seq<TurnView> {
    h.map_values(|t: TurnInfo| t@)
}

impl Clone for TurnInfo {
    fn clone(&self) -> (r: Self)
        ensures
            r@ == self@,
    {
        TurnInfo {
            action_value: self.action_value,
            cycle: self.cycle,
            wave: self.wave,
            avatars_turn_damage: clone_reals(&self.avatars_turn_damage),
            total_damage: self.total_damage,
            monster_hps: clone_strings(&self.monster_hps),
        }
    }
}

impl TurnInfo {
    /// The turn information before any turn: everything zero and empty.
    pub fn empty() -> (r: TurnInfo)
        ensures
            r@ == (TurnView {
                action_value: F64Bits(0),
                cycle: 0,
                wave: 0,
                avatars_turn_damage: Seq::empty(),
                total_damage: F64Bits(0),
                monster_hps: Seq::empty(),
            }),
    {
        TurnInfo {
            action_value: F64Bits(0),
            cycle: 0,
            wave: 0,
            avatars_turn_damage: Vec::new(),
            total_damage: F64Bits(0),
            monster_hps: Vec::new(),
        }
    }
}

} // verus!

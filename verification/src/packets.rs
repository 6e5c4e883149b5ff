//! Packets dispatched to clients.
use vstd::prelude::*;
use crate::models::{Avatar, Enemy, Entity, F64Bits, Skill, Stat, Team, TurnInfo};

verus! {

/// A packet dispatched to clients.
#[derive(Debug)]
pub enum Packet {
    Connected { version: String },
    /// Sent every second while the server runs.
    Heartbeat {},
    Error { msg: String },
    OnBattleBegin { max_waves: u32, max_cycles: u32, stage_id: u32 },
    OnSetBattleLineup { avatars: Vec<Avatar> },
    OnDamage { attacker: Avatar, damage: F64Bits, damage_type: &'static str },
    OnTurnBegin {
        action_value: F64Bits,
        turn_owner: Option<Avatar>,
        monster_hps: Vec<String>,
        extra_data: String,
    },
    /// A turn ends: the lineup, each avatar's damage in the turn, the turn's total
    /// damage and action value, and the full record of the turn.
    OnTurnEnd {
        avatars: Vec<Avatar>,
        avatars_damage: Vec<F64Bits>,
        total_damage: F64Bits,
        action_value: F64Bits,
        turn_info: TurnInfo,
    },
    /// An avatar (`attacker`) kills an enemy (`entity_defeated`).
    OnKill { attacker: Avatar, entity_defeated: Avatar },
    OnUseSkill { avatar: Avatar, skill: Skill },
    OnUpdateWave { wave: u32 },
    OnUpdateCycle { cycle: u32 },
    OnStatChange { entity: Entity, stat: Stat },
    OnUpdateTeamFormation { entities: Vec<Entity>, team: Team },
    OnInitializeEnemy { enemy: Enemy },
    OnBattleEnd {
        avatars: Vec<Avatar>,
        turn_history: Vec<TurnInfo>,
        av_history: Vec<TurnInfo>,
        turn_count: usize,
        total_damage: F64Bits,
        action_value: F64Bits,
        cycle: u32,
        wave: u32,
        stage_id: u32,
    },
}

/// The event type name under which a packet is sent: the name of its variant.
pub open spec fn packet_name(p: Packet) -> Seq<char> {
    match p {
        Packet::Connected { .. } => "Connected"@,
        Packet::Heartbeat { .. } => "Heartbeat"@,
        Packet::Error { .. } => "Error"@,
        Packet::OnBattleBegin { .. } => "OnBattleBegin"@,
        Packet::OnSetBattleLineup { .. } => "OnSetBattleLineup"@,
        Packet::OnDamage { .. } => "OnDamage"@,
        Packet::OnTurnBegin { .. } => "OnTurnBegin"@,
        Packet::OnTurnEnd { .. } => "OnTurnEnd"@,
        Packet::OnKill { .. } => "OnKill"@,
        Packet::OnUseSkill { .. } => "OnUseSkill"@,
        Packet::OnUpdateWave { .. } => "OnUpdateWave"@,
        Packet::OnUpdateCycle { .. } => "OnUpdateCycle"@,
        Packet::OnStatChange { .. } => "OnStatChange"@,
        Packet::OnUpdateTeamFormation { .. } => "OnUpdateTeamFormation"@,
        Packet::OnInitializeEnemy { .. } => "OnInitializeEnemy"@,
        Packet::OnBattleEnd { .. } => "OnBattleEnd"@,
    }
}

/// Every packet is sent under the name of its variant.
pub proof fn packets_are_named_by_variant(p: Packet)
    ensures
        p is Connected ==> packet_name(p) == "Connected"@,
        p is Heartbeat ==> packet_name(p) == "Heartbeat"@,
        p is Error ==> packet_name(p) == "Error"@,
        p is OnBattleBegin ==> packet_name(p) == "OnBattleBegin"@,
        p is OnSetBattleLineup ==> packet_name(p) == "OnSetBattleLineup"@,
        p is OnDamage ==> packet_name(p) == "OnDamage"@,
        p is OnTurnBegin ==> packet_name(p) == "OnTurnBegin"@,
        p is OnTurnEnd ==> packet_name(p) == "OnTurnEnd"@,
        p is OnKill ==> packet_name(p) == "OnKill"@,
        p is OnUseSkill ==> packet_name(p) == "OnUseSkill"@,
        p is OnUpdateWave ==> packet_name(p) == "OnUpdateWave"@,
        p is OnUpdateCycle ==> packet_name(p) == "OnUpdateCycle"@,
        p is OnStatChange ==> packet_name(p) == "OnStatChange"@,
        p is OnUpdateTeamFormation ==> packet_name(p) == "OnUpdateTeamFormation"@,
        p is OnInitializeEnemy ==> packet_name(p) == "OnInitializeEnemy"@,
        p is OnBattleEnd ==> packet_name(p) == "OnBattleEnd"@,
{
}

/// The length and the third character of each packet's name.
proof fn lemma_name_keys(p: Packet)
    ensures
        p is Connected ==> packet_name(p).len() == 9 && packet_name(p)[2] == 'n',
        p is Heartbeat ==> packet_name(p).len() == 9 && packet_name(p)[2] == 'a',
        p is Error ==> packet_name(p).len() == 5 && packet_name(p)[2] == 'r',
        p is OnBattleBegin ==> packet_name(p).len() == 13 && packet_name(p)[2] == 'B',
        p is OnSetBattleLineup ==> packet_name(p).len() == 17 && packet_name(p)[2] == 'S',
        p is OnDamage ==> packet_name(p).len() == 8 && packet_name(p)[2] == 'D',
        p is OnTurnBegin ==> packet_name(p).len() == 11 && packet_name(p)[2] == 'T',
        p is OnTurnEnd ==> packet_name(p).len() == 9 && packet_name(p)[2] == 'T',
        p is OnKill ==> packet_name(p).len() == 6 && packet_name(p)[2] == 'K',
        p is OnUseSkill ==> packet_name(p).len() == 10 && packet_name(p)[2] == 'U',
        p is OnUpdateWave ==> packet_name(p).len() == 12 && packet_name(p)[2] == 'U',
        p is OnUpdateCycle ==> packet_name(p).len() == 13 && packet_name(p)[2] == 'U',
        p is OnStatChange ==> packet_name(p).len() == 12 && packet_name(p)[2] == 'S',
        p is OnUpdateTeamFormation ==> packet_name(p).len() == 21 && packet_name(p)[2] == 'U',
        p is OnInitializeEnemy ==> packet_name(p).len() == 17 && packet_name(p)[2] == 'I',
        p is OnBattleEnd ==> packet_name(p).len() == 11 && packet_name(p)[2] == 'B',
{
    reveal_strlit("Connected");
    reveal_strlit("Heartbeat");
    reveal_strlit("Error");
    reveal_strlit("OnBattleBegin");
    reveal_strlit("OnSetBattleLineup");
    reveal_strlit("OnDamage");
    reveal_strlit("OnTurnBegin");
    reveal_strlit("OnTurnEnd");
    reveal_strlit("OnKill");
    reveal_strlit("OnUseSkill");
    reveal_strlit("OnUpdateWave");
    reveal_strlit("OnUpdateCycle");
    reveal_strlit("OnStatChange");
    reveal_strlit("OnUpdateTeamFormation");
    reveal_strlit("OnInitializeEnemy");
    reveal_strlit("OnBattleEnd");
}

/// Packets of different variants are sent under different names: a client can tell
/// every kind of packet by its name.
pub proof fn packet_names_are_distinct(p: Packet, q: Packet)
    requires
        packet_name(p) == packet_name(q),
    ensures
        p is Connected <==> q is Connected,
        p is Heartbeat <==> q is Heartbeat,
        p is Error <==> q is Error,
        p is OnBattleBegin <==> q is OnBattleBegin,
        p is OnSetBattleLineup <==> q is OnSetBattleLineup,
        p is OnDamage <==> q is OnDamage,
        p is OnTurnBegin <==> q is OnTurnBegin,
        p is OnTurnEnd <==> q is OnTurnEnd,
        p is OnKill <==> q is OnKill,
        p is OnUseSkill <==> q is OnUseSkill,
        p is OnUpdateWave <==> q is OnUpdateWave,
        p is OnUpdateCycle <==> q is OnUpdateCycle,
        p is OnStatChange <==> q is OnStatChange,
        p is OnUpdateTeamFormation <==> q is OnUpdateTeamFormation,
        p is OnInitializeEnemy <==> q is OnInitializeEnemy,
        p is OnBattleEnd <==> q is OnBattleEnd,
{
    // No two names agree in both their length and their third character.
    lemma_name_keys(p);
    lemma_name_keys(q);
}

impl Packet {
    /// The event type name under which this packet is sent.
    pub fn name(&self) -> (r: &'static str)
        ensures
            r@ == packet_name(*self),
    {
        match self {
            Packet::Connected { .. } => "Connected",
            Packet::Heartbeat { .. } => "Heartbeat",
            Packet::Error { .. } => "Error",
            Packet::OnBattleBegin { .. } => "OnBattleBegin",
            Packet::OnSetBattleLineup { .. } => "OnSetBattleLineup",
            Packet::OnDamage { .. } => "OnDamage",
            Packet::OnTurnBegin { .. } => "OnTurnBegin",
            Packet::OnTurnEnd { .. } => "OnTurnEnd",
            Packet::OnKill { .. } => "OnKill",
            Packet::OnUseSkill { .. } => "OnUseSkill",
            Packet::OnUpdateWave { .. } => "OnUpdateWave",
            Packet::OnUpdateCycle { .. } => "OnUpdateCycle",
            Packet::OnStatChange { .. } => "OnStatChange",
            Packet::OnUpdateTeamFormation { .. } => "OnUpdateTeamFormation",
            Packet::OnInitializeEnemy { .. } => "OnInitializeEnemy",
            Packet::OnBattleEnd { .. } => "OnBattleEnd",
        }
    }

    /// Whether the packet also goes to the event stream: every packet but stat changes,
    /// which are only sent to socket clients.
    pub fn goes_to_event_stream(&self) -> (r: bool)
        ensures
            r == !(*self is OnStatChange),
    {
        match self {
            Packet::OnStatChange { .. } => false,
            _ => true,
        }
    }
}

} // verus!

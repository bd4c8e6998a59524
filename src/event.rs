//! The telemetry event model.
use vstd::prelude::*;

verus! {

/// The kind of a telemetry event; codes outside the known set are `Unknown`.
#[derive(Clone, Copy, Debug, PartialEq, Eq, Structural)]
pub enum ActionType {
    LogPlayerTakeDamage,
    LogPlayerAttack,
    LogPlayerMakeGroggy,
    LogArmorDestroy,
    LogPlayerKillV2,
    LogMatchDefinition,
    LogPlayerCreate,
    LogItemEquip,
    LogItemPickupFromCarepackage,
    LogItemPickupFromLootbox,
    Unknown,
}

/// The kind that an event code denotes.
pub open spec fn action_of(code: Seq<char>) -> ActionType {
    if code == "LogPlayerTakeDamage"@ {
        ActionType::LogPlayerTakeDamage
    } else if code == "LogPlayerAttack"@ {
        ActionType::LogPlayerAttack
    } else if code == "LogPlayerMakeGroggy"@ {
        ActionType::LogPlayerMakeGroggy
    } else if code == "LogArmorDestroy"@ {
        ActionType::LogArmorDestroy
    } else if code == "LogPlayerKillV2"@ {
        ActionType::LogPlayerKillV2
    } else if code == "LogMatchDefinition"@ {
        ActionType::LogMatchDefinition
    } else if code == "LogPlayerCreate"@ {
        ActionType::LogPlayerCreate
    } else if code == "LogItemEquip"@ {
        ActionType::LogItemEquip
    } else if code == "LogItemPickupFromCarepackage"@ {
        ActionType::LogItemPickupFromCarepackage
    } else if code == "LogItemPickupFromLootbox"@ {
        ActionType::LogItemPickupFromLootbox
    } else {
        ActionType::Unknown
    }
}

fn is_code(code: &String, lit: &str) -> (r: bool)
    ensures
        r == (code@ == lit@),
{
    *code == String::from_str(lit)
}

impl ActionType {
    /// Classifies an event code; an unrecognised code gives `Unknown`, never a failure.
    pub fn from_code(code: &String) -> (r: ActionType)
        ensures
            r == action_of(code@),
    {
        if is_code(code, "LogPlayerTakeDamage") {
            ActionType::LogPlayerTakeDamage
        } else if is_code(code, "LogPlayerAttack") {
            ActionType::LogPlayerAttack
        } else if is_code(code, "LogPlayerMakeGroggy") {
            ActionType::LogPlayerMakeGroggy
        } else if is_code(code, "LogArmorDestroy") {
            ActionType::LogArmorDestroy
        } else if is_code(code, "LogPlayerKillV2") {
            ActionType::LogPlayerKillV2
        } else if is_code(code, "LogMatchDefinition") {
            ActionType::LogMatchDefinition
        } else if is_code(code, "LogPlayerCreate") {
            ActionType::LogPlayerCreate
        } else if is_code(code, "LogItemEquip") {
            ActionType::LogItemEquip
        } else if is_code(code, "LogItemPickupFromCarepackage") {
            ActionType::LogItemPickupFromCarepackage
        } else if is_code(code, "LogItemPickupFromLootbox") {
            ActionType::LogItemPickupFromLootbox
        } else {
            ActionType::Unknown
        }
    }
}

/// A point in engine units (centimetres).
#[derive(Clone, Copy, Debug, PartialEq, Eq, Structural)]
pub struct Location {
    pub x: i32,
    pub y: i32,
    pub z: i32,
}

/// A combatant as an event shows it.
#[derive(Clone, Debug)]
pub struct Target {
    pub name: String,
    pub team_id: i32,
    pub location: Location,
}

/// The weapon of an attack and its attachments.
#[derive(Clone, Debug)]
pub struct AttackWeapon {
    pub weapon: String,
    pub attachments: Vec<String>,
}

/// Supplemental damage information of a kill, finish or knockdown.
#[derive(Clone, Debug)]
pub struct DamageInfo {
    pub damage_reason: String,
    pub damage_type_category: String,
    pub weapon: String,
    pub attachments: Vec<String>,
}

/// One telemetry event; fields that its kind does not carry are `None`.
#[derive(Clone, Debug)]
pub struct Event {
    pub action: ActionType,
    pub attack_id: Option<i32>,
    pub event_time: Option<String>,
    pub weapon: Option<AttackWeapon>,
    pub fire_weapon_stack_count: Option<i32>,
    pub attacker: Option<Target>,
    pub victim: Option<Target>,
    pub dbno_maker: Option<Target>,
    pub finisher: Option<Target>,
    pub killer: Option<Target>,
    pub character: Option<Target>,
    pub damage_reason: Option<String>,
    pub damage_type_category: Option<String>,
    pub damage_causer_name: Option<String>,
    pub dbno_damage_info: Option<DamageInfo>,
    pub finish_damage_info: Option<DamageInfo>,
    pub killer_damage_info: Option<DamageInfo>,
    pub item_id: Option<String>,
}

/// The instant that an RFC 3339 timestamp denotes, in milliseconds since the
/// Unix epoch, or `None` where the text is no such timestamp.
pub uninterp spec fn rfc3339_millis(s: Seq<char>) -> Option<i64>;

/// Relies on chrono's `DateTime::parse_from_rfc3339` and `timestamp_millis`:
/// the parsed instant depends on the text alone.
#[verifier::external_body]
pub(crate) fn parse_rfc3339_millis(s: &String) -> (r: Option<i64>)
    ensures
        r == rfc3339_millis(s@),
{
    match chrono::DateTime::parse_from_rfc3339(s.as_str()) {
        Ok(d) => Some(d.timestamp_millis()),
        Err(_) => None,
    }
}

/// The instant of an event, where its timestamp is present and well formed.
pub open spec fn event_millis(e: Event) -> Option<i64> {
    match e.event_time {
        Some(s) => rfc3339_millis(s@),
        None => None,
    }
}

/// Parses the timestamp of each event.
pub fn event_times(events: &Vec<Event>) -> (r: Vec<Option<i64>>)
    ensures
        r@.len() == events@.len(),
        forall|k: int| 0 <= k < events@.len() ==> #[trigger] r@[k] == event_millis(events@[k]),
{
    let mut r: Vec<Option<i64>> = Vec::new();
    let mut i: usize = 0;
    while i < events.len()
        invariant
            i <= events@.len(),
            r@.len() == i,
            forall|k: int| 0 <= k < i ==> #[trigger] r@[k] == event_millis(events@[k]),
        decreases events@.len() - i,
    {
        let t = match &events[i].event_time {
            Some(s) => parse_rfc3339_millis(s),
            None => None,
        };
        r.push(t);
        i = i + 1;
    }
    r
}

} // verus!

//! The correlation engine: armor state, distance, bullet speed, weapon
//! back-fill and name normalisation for the events that concern the roster.
use vstd::prelude::*;
use crate::event::{ActionType, AttackWeapon, DamageInfo, Event, Target, event_millis, event_times};
use crate::geometry::{distance, is_floor_sqrt, lemma_floor_sqrt_unique, sq_dist};
use crate::squad::{contains_name, name_in};
use crate::vocab::{
    Table, WeaponClass, class_max_speed, class_of, default_speed_of, first_index, has_code,
    lemma_first_index_from,
    lookup_class, lookup_default_speed, position_of, translate, translate_all, translated,
};

verus! {

/// The lookup tables that enrichment reads.
pub struct Tables {
    pub weapons: Table,
    pub damage_types: Table,
    pub attachments: Table,
    pub armors: Table,
    pub hit_locations: Table,
    pub maps: Table,
    pub classes: Vec<(String, WeaponClass)>,
    /// Default bullet speeds, in hundredths of a metre per second.
    pub default_speeds: Vec<(String, u64)>,
}

/// An armor slot: the item worn, or "bare" where none is.
#[derive(Clone, Debug)]
pub struct Armor {
    pub item: String,
    pub intact: bool,
}

/// What enrichment derives for one event of the combat log.
#[derive(Clone, Debug)]
pub struct Enrichment {
    /// Position of the event in the telemetry.
    pub index: usize,
    pub helmet: Armor,
    pub vest: Armor,
    pub victim_helmet: Armor,
    pub victim_vest: Armor,
    /// In engine units (centimetres).
    pub distance: Option<u64>,
    /// In hundredths of a metre per second.
    pub bullet_speed: Option<u64>,
    /// The originating attack's weapon, where the event named none.
    pub backfilled_weapon: Option<AttackWeapon>,
    /// The originating attack's stack count, where the event had none.
    pub backfilled_stack_count: Option<i32>,
    pub damage_causer_name: Option<String>,
    pub damage_type_category: Option<String>,
    pub damage_reason: Option<String>,
    pub killer_damage_info: Option<DamageInfo>,
    pub finish_damage_info: Option<DamageInfo>,
    pub dbno_damage_info: Option<DamageInfo>,
    /// Milliseconds since the match definition.
    pub match_time_ms: Option<i64>,
}

/// Whether `s` holds `p` as a contiguous part.
pub open spec fn has_infix(s: Seq<char>, p: Seq<char>) -> bool {
    exists|k: int| 0 <= k <= s.len() - p.len() && #[trigger] s.subrange(k, k + p.len()) == p
}

/// Relies on std's `str::contains`: whether the pattern matches a part of the text.
#[verifier::external_body]
fn str_contains(s: &String, p: &str) -> (r: bool)
    ensures
        r == has_infix(s@, p@),
{
    s.as_str().contains(p)
}

pub open spec fn bare_name() -> Seq<char> {
    "bare"@
}

pub open spec fn helmet_word() -> Seq<char> {
    "Helmet"@
}

pub open spec fn vest_word() -> Seq<char> {
    "Vest"@
}

pub open spec fn is_equip_kind(a: ActionType) -> bool {
    a == ActionType::LogItemEquip || a == ActionType::LogItemPickupFromCarepackage || a
        == ActionType::LogItemPickupFromLootbox
}

/// The armor name that `e` puts on its actor, where `e` equips a known armor item.
pub open spec fn equip_name(e: Event, armors: Seq<(String, String)>) -> Option<Seq<char>> {
    if is_equip_kind(e.action) && e.character is Some && e.item_id is Some && has_code(
        armors,
        e.item_id->0@,
    ) {
        Some(translated(armors, e.item_id->0@))
    } else {
        None
    }
}

/// Whether event `j` equips actor `n`, not later than `t`, with armor whose name holds `kw`.
pub open spec fn qualifies(
    events: Seq<Event>,
    times: Seq<Option<i64>>,
    armors: Seq<(String, String)>,
    kw: Seq<char>,
    n: Seq<char>,
    t: i64,
    j: int,
) -> bool {
    &&& equip_name(events[j], armors) is Some
    &&& has_infix(equip_name(events[j], armors)->0, kw)
    &&& events[j].character->0.name@ == n
    &&& times[j] is Some
    &&& times[j]->0 <= t
}

/// Among the first `m` events, the qualifying equip with the latest time;
/// of equal times the later event.
pub open spec fn latest_equip(
    events: Seq<Event>,
    times: Seq<Option<i64>>,
    armors: Seq<(String, String)>,
    kw: Seq<char>,
    n: Seq<char>,
    t: i64,
    m: int,
) -> Option<int>
    decreases m,
{
    if m <= 0 {
        None
    } else {
        let b = latest_equip(events, times, armors, kw, n, t, m - 1);
        if qualifies(events, times, armors, kw, n, t, m - 1) && (b is None || times[b->0]->0
            <= times[m - 1]->0) {
            Some(m - 1)
        } else {
            b
        }
    }
}

proof fn lemma_latest_equip_qualifies(
    events: Seq<Event>,
    times: Seq<Option<i64>>,
    armors: Seq<(String, String)>,
    kw: Seq<char>,
    n: Seq<char>,
    t: i64,
    m: int,
)
    ensures
        latest_equip(events, times, armors, kw, n, t, m) matches Some(j) ==> 0 <= j < m && qualifies(
            events,
            times,
            armors,
            kw,
            n,
            t,
            j,
        ),
    decreases m,
{
    if m > 0 {
        lemma_latest_equip_qualifies(events, times, armors, kw, n, t, m - 1);
    }
}

/// What `latest_equip` picks, stated directly: none where no equip among
/// the first `m` qualifies; otherwise a qualifying equip that no qualifying
/// equip follows in time, and of equal times the one latest in the telemetry.
pub proof fn lemma_latest_equip_is_latest(
    events: Seq<Event>,
    times: Seq<Option<i64>>,
    armors: Seq<(String, String)>,
    kw: Seq<char>,
    n: Seq<char>,
    t: i64,
    m: int,
)
    requires
        0 <= m <= events.len(),
    ensures
        match latest_equip(events, times, armors, kw, n, t, m) {
            None => forall|k: int| 0 <= k < m ==> !#[trigger] qualifies(events, times, armors, kw, n, t, k),
            Some(j) => {
                &&& 0 <= j < m
                &&& qualifies(events, times, armors, kw, n, t, j)
                &&& forall|k: int|
                    0 <= k < m && #[trigger] qualifies(events, times, armors, kw, n, t, k) ==> times[k]->0
                        < times[j]->0 || (times[k]->0 == times[j]->0 && k <= j)
            },
        },
    decreases m,
{
    if m > 0 {
        lemma_latest_equip_is_latest(events, times, armors, kw, n, t, m - 1);
        lemma_latest_equip_qualifies(events, times, armors, kw, n, t, m - 1);
    }
}

/// The armor that `actor` wears in the slot named by `kw` at time `t`.
pub open spec fn slot_item(
    events: Seq<Event>,
    times: Seq<Option<i64>>,
    armors: Seq<(String, String)>,
    kw: Seq<char>,
    actor: Option<Target>,
    t: i64,
) -> Seq<char> {
    match actor {
        None => bare_name(),
        Some(a) => match latest_equip(events, times, armors, kw, a.name@, t, events.len() as int) {
            Some(j) => equip_name(events[j], armors)->0,
            None => bare_name(),
        },
    }
}

/// Whether `e` is an event of the combat log: damage or armor destruction
/// whose attacker or victim is a roster player, or a kill in which a roster
/// player takes any part.
pub open spec fn is_subject(e: Event, roster: Seq<String>) -> bool {
    if e.action == ActionType::LogPlayerTakeDamage || e.action == ActionType::LogArmorDestroy {
        party_in(e.attacker, roster) || party_in(e.victim, roster)
    } else if e.action == ActionType::LogPlayerKillV2 {
        party_in(e.attacker, roster) || party_in(e.victim, roster) || party_in(e.dbno_maker, roster)
            || party_in(e.finisher, roster) || party_in(e.killer, roster)
    } else {
        false
    }
}

pub open spec fn party_in(p: Option<Target>, roster: Seq<String>) -> bool {
    p is Some && name_in(roster, p->0.name@)
}

/// The positions of the combat log's events among the first `m`, in order.
pub open spec fn subject_indices(events: Seq<Event>, roster: Seq<String>, m: int) -> Seq<int>
    decreases m,
{
    if m <= 0 {
        Seq::empty()
    } else if is_subject(events[m - 1], roster) {
        subject_indices(events, roster, m - 1).push(m - 1)
    } else {
        subject_indices(events, roster, m - 1)
    }
}

/// Whether bullet speed may be derived for event `i`: its armor is
/// reconstructed and it has a victim.
pub open spec fn correlated(events: Seq<Event>, times: Seq<Option<i64>>, i: int) -> bool {
    armor_ready(events, times, i) && events[i].victim is Some
}

/// Whether armor is reconstructed for event `i`: its attack id is known and
/// not -1, and its time is known.
pub open spec fn armor_ready(events: Seq<Event>, times: Seq<Option<i64>>, i: int) -> bool {
    &&& events[i].attack_id is Some
    &&& events[i].attack_id->0 != -1
    &&& times[i] is Some
}

/// The first attack event at or after `j` with attack id `a`.
pub open spec fn first_attack_from(events: Seq<Event>, a: i32, j: int) -> Option<int>
    decreases events.len() - j,
{
    if j < 0 || j >= events.len() {
        None
    } else if events[j].action == ActionType::LogPlayerAttack && events[j].attack_id == Some(a) {
        Some(j)
    } else {
        first_attack_from(events, a, j + 1)
    }
}

/// The originating attack of attack id `a`.
pub open spec fn attack_of(events: Seq<Event>, a: i32) -> Option<int> {
    first_attack_from(events, a, 0)
}

/// The distance between two points, in centimetres, rounded down.
pub open spec fn dist(a: Target, b: Target) -> int {
    choose|r: int| is_floor_sqrt(r, sq_dist(a.location, b.location))
}

/// Where bullet speed can be derived for event `i`: the attacker-victim
/// distance and the travel time in milliseconds, both non-zero.
pub open spec fn speed_inputs(events: Seq<Event>, times: Seq<Option<i64>>, i: int) -> Option<
    (int, int),
> {
    let e = events[i];
    if !correlated(events, times, i) {
        None
    } else {
        match attack_of(events, e.attack_id->0) {
            None => None,
            Some(k) => match times[k] {
                None => None,
                Some(tk) => {
                    let el = if times[i]->0 >= tk {
                        times[i]->0 - tk
                    } else {
                        tk - times[i]->0
                    };
                    match e.attacker {
                        None => None,
                        Some(at) => {
                            let d = dist(at, e.victim->0);
                            if el == 0 || d == 0 {
                                None
                            } else {
                                Some((d, el as int))
                            }
                        },
                    }
                },
            },
        }
    }
}

/// A derived speed, bounded by the class of the causing weapon: a speed above
/// the class's maximum gives way to the weapon's default speed.
pub open spec fn clamped_speed(raw: int, causer: Option<String>, tables: Tables) -> Option<u64> {
    match causer {
        None => Some(raw as u64),
        Some(c) => {
            let w = translated(tables.weapons@, c@);
            match class_of(tables.classes@, w) {
                Some(cl) => if raw > class_max_speed(cl) * 100 {
                    default_speed_of(tables.default_speeds@, w)
                } else {
                    Some(raw as u64)
                },
                None => Some(raw as u64),
            }
        },
    }
}

pub open spec fn distance_of(events: Seq<Event>, times: Seq<Option<i64>>, i: int) -> Option<int> {
    match speed_inputs(events, times, i) {
        Some((d, _el)) => Some(d),
        None => if events[i].finisher is Some && events[i].victim is Some {
            Some(dist(events[i].finisher->0, events[i].victim->0))
        } else {
            None
        },
    }
}

pub open spec fn speed_of(events: Seq<Event>, times: Seq<Option<i64>>, tables: Tables, i: int) -> Option<u64> {
    match speed_inputs(events, times, i) {
        Some((d, el)) => clamped_speed(d * 1000 / el, events[i].damage_causer_name, tables),
        None => None,
    }
}

pub open spec fn opt_view(o: Option<String>) -> Option<Seq<char>> {
    match o {
        Some(s) => Some(s@),
        None => None,
    }
}

pub open spec fn opt_translated(t: Seq<(String, String)>, o: Option<String>) -> Option<Seq<char>> {
    match o {
        Some(s) => Some(translated(t, s@)),
        None => None,
    }
}

/// `out` holds each element of `codes` translated by `t`.
pub open spec fn all_translated(t: Seq<(String, String)>, codes: Seq<String>, out: Seq<String>) -> bool {
    out.len() == codes.len() && forall|k: int| 0 <= k < codes.len() ==> #[trigger] out[k]@
        == translated(t, codes[k]@)
}

/// `out` is `inp` with its weapon, damage type and attachments translated.
pub open spec fn info_translated(out: Option<DamageInfo>, inp: Option<DamageInfo>, tables: Tables) -> bool {
    match (out, inp) {
        (None, None) => true,
        (Some(o), Some(x)) => {
            &&& o.damage_reason@ == x.damage_reason@
            &&& o.damage_type_category@ == translated(tables.damage_types@, x.damage_type_category@)
            &&& o.weapon@ == translated(tables.weapons@, x.weapon@)
            &&& all_translated(tables.attachments@, x.attachments@, o.attachments@)
        },
        _ => false,
    }
}

/// The weapon back-filled onto event `i` from its originating attack.
pub open spec fn backfill_source(events: Seq<Event>, i: int) -> Option<int> {
    let e = events[i];
    if e.attack_id is Some && e.attack_id->0 != -1 {
        attack_of(events, e.attack_id->0)
    } else {
        None
    }
}

pub open spec fn weapon_backfilled(out: Option<AttackWeapon>, events: Seq<Event>, tables: Tables, i: int) -> bool {
    match backfill_source(events, i) {
        Some(k) if events[i].weapon is None && events[k].weapon is Some => {
            let w = events[k].weapon->0;
            &&& out is Some
            &&& out->0.weapon@ == translated(tables.weapons@, w.weapon@)
            &&& all_translated(tables.attachments@, w.attachments@, out->0.attachments@)
        },
        _ => out is None,
    }
}

pub open spec fn stack_backfilled(events: Seq<Event>, i: int) -> Option<i32> {
    match backfill_source(events, i) {
        Some(k) if events[i].fire_weapon_stack_count is None => events[k].fire_weapon_stack_count,
        _ => None,
    }
}

/// The first match definition event at or after `j`.
pub open spec fn first_definition_from(events: Seq<Event>, j: int) -> Option<int>
    decreases events.len() - j,
{
    if j < 0 || j >= events.len() {
        None
    } else if events[j].action == ActionType::LogMatchDefinition {
        Some(j)
    } else {
        first_definition_from(events, j + 1)
    }
}

/// The time at which the match starts: that of its first match definition.
pub open spec fn match_start(events: Seq<Event>, times: Seq<Option<i64>>) -> Option<i64> {
    match first_definition_from(events, 0) {
        Some(j) => times[j],
        None => None,
    }
}

pub open spec fn match_time(events: Seq<Event>, times: Seq<Option<i64>>, i: int) -> Option<i64> {
    match (times[i], match_start(events, times)) {
        (Some(t), Some(s)) => if i64::MIN <= t - s <= i64::MAX {
            Some((t - s) as i64)
        } else {
            None
        },
        _ => None,
    }
}

pub open spec fn armor_slot(
    events: Seq<Event>,
    times: Seq<Option<i64>>,
    armors: Seq<(String, String)>,
    kw: Seq<char>,
    actor: Option<Target>,
    i: int,
) -> Seq<char> {
    if armor_ready(events, times, i) {
        slot_item(events, times, armors, kw, actor, times[i]->0)
    } else {
        bare_name()
    }
}

/// Everything that enrichment derives for event `i`.
pub open spec fn enrichment_of(
    x: Enrichment,
    events: Seq<Event>,
    times: Seq<Option<i64>>,
    tables: Tables,
    i: int,
) -> bool {
    let e = events[i];
    let a = tables.armors@;
    &&& x.index == i
    &&& x.helmet.item@ == armor_slot(events, times, a, helmet_word(), e.attacker, i)
    &&& x.vest.item@ == armor_slot(events, times, a, vest_word(), e.attacker, i)
    &&& x.victim_helmet.item@ == armor_slot(events, times, a, helmet_word(), e.victim, i)
    &&& x.victim_vest.item@ == armor_slot(events, times, a, vest_word(), e.victim, i)
    &&& x.helmet.intact && x.vest.intact && x.victim_helmet.intact && x.victim_vest.intact
    &&& match distance_of(events, times, i) {
        Some(d) => x.distance == Some(d as u64),
        None => x.distance is None,
    }
    &&& x.bullet_speed == speed_of(events, times, tables, i)
    &&& weapon_backfilled(x.backfilled_weapon, events, tables, i)
    &&& x.backfilled_stack_count == stack_backfilled(events, i)
    &&& opt_view(x.damage_causer_name) == opt_translated(tables.weapons@, e.damage_causer_name)
    &&& opt_view(x.damage_type_category) == opt_translated(tables.damage_types@, e.damage_type_category)
    &&& opt_view(x.damage_reason) == opt_translated(tables.hit_locations@, e.damage_reason)
    &&& info_translated(x.killer_damage_info, e.killer_damage_info, tables)
    &&& info_translated(x.finish_damage_info, e.finish_damage_info, tables)
    &&& info_translated(x.dbno_damage_info, e.dbno_damage_info, tables)
    &&& x.match_time_ms == match_time(events, times, i)
}

pub open spec fn opt_int(o: Option<usize>) -> Option<int> {
    match o {
        Some(b) => Some(b as int),
        None => None,
    }
}

/// The distance between two combatants, in centimetres, rounded down.
fn dist_of(a: &Target, b: &Target) -> (r: u64)
    ensures
        r as int == dist(*a, *b),
        r < 0x4_0000_0000,
{
    let r = distance(&a.location, &b.location);
    proof {
        let n = sq_dist(a.location, b.location);
        assert(is_floor_sqrt(r as int, n));
        lemma_floor_sqrt_unique(r as int, dist(*a, *b), n);
    }
    r
}

/// For each event, the armor name that it equips, if any.
fn equip_names(events: &Vec<Event>, armors: &Table) -> (r: Vec<Option<String>>)
    ensures
        r@.len() == events@.len(),
        forall|j: int| 0 <= j < events@.len() ==> opt_view(#[trigger] r@[j]) == equip_name(events@[j], armors@),
{
    let mut r: Vec<Option<String>> = Vec::new();
    let mut i: usize = 0;
    while i < events.len()
        invariant
            i <= events@.len(),
            r@.len() == i,
            forall|j: int| 0 <= j < i ==> opt_view(#[trigger] r@[j]) == equip_name(events@[j], armors@),
        decreases events@.len() - i,
    {
        let e = &events[i];
        let mut name: Option<String> = None;
        if e.action == ActionType::LogItemEquip || e.action == ActionType::LogItemPickupFromCarepackage
            || e.action == ActionType::LogItemPickupFromLootbox {
            if let Some(_c) = &e.character {
                if let Some(item) = &e.item_id {
                    proof {
                        lemma_first_index_from(armors@, item@, 0);
                    }
                    match position_of(armors, item) {
                        Some(p) => {
                            assert(armors@[p as int].0@ == item@);
                            name = Some(armors[p].1.clone());
                        },
                        None => {},
                    }
                }
            }
        }
        r.push(name);
        i = i + 1;
    }
    r
}

/// For each equipped armor name, whether it holds `kw`.
fn slot_flags(names: &Vec<Option<String>>, kw: &str) -> (r: Vec<bool>)
    ensures
        r@.len() == names@.len(),
        forall|j: int|
            0 <= j < names@.len() ==> #[trigger] r@[j] == (names@[j] is Some && has_infix(
                names@[j]->0@,
                kw@,
            )),
{
    let mut r: Vec<bool> = Vec::new();
    let mut i: usize = 0;
    while i < names.len()
        invariant
            i <= names@.len(),
            r@.len() == i,
            forall|j: int|
                0 <= j < i ==> #[trigger] r@[j] == (names@[j] is Some && has_infix(names@[j]->0@, kw@)),
        decreases names@.len() - i,
    {
        let f = match &names[i] {
            Some(s) => str_contains(s, kw),
            None => false,
        };
        r.push(f);
        i = i + 1;
    }
    r
}

/// The latest qualifying equip of `actor` not later than `t`.
fn latest_slot(
    events: &Vec<Event>,
    times: &Vec<Option<i64>>,
    names: &Vec<Option<String>>,
    flags: &Vec<bool>,
    actor: &String,
    t: i64,
    Ghost(armors): Ghost<Seq<(String, String)>>,
    Ghost(kw): Ghost<Seq<char>>,
) -> (r: Option<usize>)
    requires
        times@.len() == events@.len(),
        names@.len() == events@.len(),
        flags@.len() == events@.len(),
        forall|j: int| 0 <= j < events@.len() ==> opt_view(#[trigger] names@[j]) == equip_name(events@[j], armors),
        forall|j: int|
            0 <= j < events@.len() ==> #[trigger] flags@[j] == (names@[j] is Some && has_infix(
                names@[j]->0@,
                kw,
            )),
    ensures
        opt_int(r) == latest_equip(events@, times@, armors, kw, actor@, t, events@.len() as int),
        r matches Some(b) ==> b < events@.len(),
{
    let mut best: Option<usize> = None;
    let mut best_t: i64 = 0;
    let mut j: usize = 0;
    while j < events.len()
        invariant
            j <= events@.len(),
            times@.len() == events@.len(),
            names@.len() == events@.len(),
            flags@.len() == events@.len(),
            forall|k: int| 0 <= k < events@.len() ==> opt_view(#[trigger] names@[k]) == equip_name(events@[k], armors),
            forall|k: int|
                0 <= k < events@.len() ==> #[trigger] flags@[k] == (names@[k] is Some && has_infix(
                    names@[k]->0@,
                    kw,
                )),
            opt_int(best) == latest_equip(events@, times@, armors, kw, actor@, t, j as int),
            best matches Some(b) ==> b < j && times@[b as int] == Some(best_t),
        decreases events@.len() - j,
    {
        assert(flags@[j as int] == (names@[j as int] is Some && has_infix(names@[j as int]->0@, kw)));
        assert(opt_view(names@[j as int]) == equip_name(events@[j as int], armors));
        let q = if flags[j] {
            match times[j] {
                Some(tj) => if tj <= t {
                    match &events[j].character {
                        Some(c) => c.name == *actor,
                        None => false,
                    }
                } else {
                    false
                },
                None => false,
            }
        } else {
            false
        };
        assert(q == qualifies(events@, times@, armors, kw, actor@, t, j as int));
        if q {
            let tj: i64 = match times[j] {
                Some(v) => v,
                None => 0,
            };
            let better = match best {
                Some(_b) => best_t <= tj,
                None => true,
            };
            if better {
                best = Some(j);
                best_t = tj;
            }
        }
        j = j + 1;
    }
    best
}

fn bare() -> (r: Armor)
    ensures
        r.item@ == bare_name(),
        r.intact,
{
    Armor { item: String::from_str("bare"), intact: true }
}

/// The armor of `actor` in the slot whose names hold `kw`, at time `t`.
fn slot_armor(
    events: &Vec<Event>,
    times: &Vec<Option<i64>>,
    names: &Vec<Option<String>>,
    flags: &Vec<bool>,
    actor: &Option<Target>,
    t: i64,
    Ghost(armors): Ghost<Seq<(String, String)>>,
    Ghost(kw): Ghost<Seq<char>>,
) -> (r: Armor)
    requires
        times@.len() == events@.len(),
        names@.len() == events@.len(),
        flags@.len() == events@.len(),
        forall|j: int| 0 <= j < events@.len() ==> opt_view(#[trigger] names@[j]) == equip_name(events@[j], armors),
        forall|j: int|
            0 <= j < events@.len() ==> #[trigger] flags@[j] == (names@[j] is Some && has_infix(
                names@[j]->0@,
                kw,
            )),
    ensures
        r.item@ == slot_item(events@, times@, armors, kw, *actor, t),
        r.intact,
{
    match actor {
        None => bare(),
        Some(a) => {
            match latest_slot(events, times, names, flags, &a.name, t, Ghost(armors), Ghost(kw)) {
                Some(j) => {
                    proof {
                        lemma_latest_equip_qualifies(events@, times@, armors, kw, a.name@, t, events@.len() as int);
                    }
                    assert(opt_view(names@[j as int]) == equip_name(events@[j as int], armors));
                    match &names[j] {
                        Some(s) => Armor { item: s.clone(), intact: true },
                        None => bare(),
                    }
                },
                None => bare(),
            }
        },
    }
}

/// The first attack event with attack id `a`.
fn find_attack(events: &Vec<Event>, a: i32) -> (r: Option<usize>)
    ensures
        opt_int(r) == attack_of(events@, a),
        r matches Some(k) ==> k < events@.len(),
{
    let mut j: usize = 0;
    while j < events.len()
        invariant
            j <= events@.len(),
            attack_of(events@, a) == first_attack_from(events@, a, j as int),
        decreases events@.len() - j,
    {
        if events[j].action == ActionType::LogPlayerAttack && events[j].attack_id == Some(a) {
            return Some(j);
        }
        j = j + 1;
    }
    None
}

/// The first match definition event.
fn find_definition(events: &Vec<Event>) -> (r: Option<usize>)
    ensures
        opt_int(r) == first_definition_from(events@, 0),
        r matches Some(k) ==> k < events@.len(),
{
    let mut j: usize = 0;
    while j < events.len()
        invariant
            j <= events@.len(),
            first_definition_from(events@, 0) == first_definition_from(events@, j as int),
        decreases events@.len() - j,
    {
        if events[j].action == ActionType::LogMatchDefinition {
            return Some(j);
        }
        j = j + 1;
    }
    None
}

/// Bounds a derived bullet speed (hundredths of m/s) by the class of the
/// causing weapon: above the class maximum, the weapon's default speed
/// replaces it.
pub fn clamp_speed(raw: u64, causer: &Option<String>, tables: &Tables) -> (r: Option<u64>)
    ensures
        r == clamped_speed(raw as int, *causer, *tables),
{
    match causer {
        None => Some(raw),
        Some(c) => {
            let w = translate(&tables.weapons, c);
            match lookup_class(&tables.classes, &w) {
                Some(cl) => {
                    if raw > cl.max_speed() * 100 {
                        lookup_default_speed(&tables.default_speeds, &w)
                    } else {
                        Some(raw)
                    }
                },
                None => Some(raw),
            }
        },
    }
}

fn translate_opt(t: &Table, o: &Option<String>) -> (r: Option<String>)
    ensures
        opt_view(r) == opt_translated(t@, *o),
{
    match o {
        Some(s) => Some(translate(t, s)),
        None => None,
    }
}

fn translate_info(tables: &Tables, o: &Option<DamageInfo>) -> (r: Option<DamageInfo>)
    ensures
        info_translated(r, *o, *tables),
{
    match o {
        Some(x) => Some(
            DamageInfo {
                damage_reason: x.damage_reason.clone(),
                damage_type_category: translate(&tables.damage_types, &x.damage_type_category),
                weapon: translate(&tables.weapons, &x.weapon),
                attachments: translate_all(&tables.attachments, &x.attachments),
            },
        ),
        None => None,
    }
}

/// Derives the enrichment of event `i`.
fn enrich_one(
    events: &Vec<Event>,
    times: &Vec<Option<i64>>,
    tables: &Tables,
    names: &Vec<Option<String>>,
    helmets: &Vec<bool>,
    vests: &Vec<bool>,
    start: Option<i64>,
    i: usize,
) -> (r: Enrichment)
    requires
        i < events@.len(),
        times@.len() == events@.len(),
        names@.len() == events@.len(),
        helmets@.len() == events@.len(),
        vests@.len() == events@.len(),
        start == match_start(events@, times@),
        forall|j: int|
            0 <= j < events@.len() ==> opt_view(#[trigger] names@[j]) == equip_name(events@[j], tables.armors@),
        forall|j: int|
            0 <= j < events@.len() ==> #[trigger] helmets@[j] == (names@[j] is Some && has_infix(
                names@[j]->0@,
                helmet_word(),
            )),
        forall|j: int|
            0 <= j < events@.len() ==> #[trigger] vests@[j] == (names@[j] is Some && has_infix(
                names@[j]->0@,
                vest_word(),
            )),
    ensures
        enrichment_of(r, events@, times@, *tables, i as int),
{
    let e = &events[i];
    let ghost armors = tables.armors@;
    let ti: i64 = match times[i] {
        Some(v) => v,
        None => 0,
    };
    let attack_k: Option<usize> = match e.attack_id {
        Some(a) => if a != -1 {
            find_attack(events, a)
        } else {
            None
        },
        None => None,
    };
    let ready = match (e.attack_id, times[i]) {
        (Some(a), Some(_t)) => a != -1,
        _ => false,
    };
    assert(ready == armor_ready(events@, times@, i as int));
    let corr = ready && e.victim.is_some();
    assert(corr == correlated(events@, times@, i as int));
    let mut helmet = bare();
    let mut vest = bare();
    let mut victim_helmet = bare();
    let mut victim_vest = bare();
    let mut dist_out: Option<u64> = None;
    let mut speed_out: Option<u64> = None;
    if ready {
        proof {
            reveal_strlit("Helmet");
            reveal_strlit("Vest");
        }
        helmet = slot_armor(events, times, names, helmets, &e.attacker, ti, Ghost(armors), Ghost(helmet_word()));
        vest = slot_armor(events, times, names, vests, &e.attacker, ti, Ghost(armors), Ghost(vest_word()));
        victim_helmet = slot_armor(events, times, names, helmets, &e.victim, ti, Ghost(armors), Ghost(helmet_word()));
        victim_vest = slot_armor(events, times, names, vests, &e.victim, ti, Ghost(armors), Ghost(vest_word()));
    }
    if let (Some(f), Some(victim)) = (&e.finisher, &e.victim) {
        dist_out = Some(dist_of(f, victim));
    }
    if corr {
        if let Some(victim) = &e.victim {
            if let Some(k) = attack_k {
                if let Some(tk) = times[k] {
                    let el: u128 = if ti >= tk {
                        (ti as i128 - tk as i128) as u128
                    } else {
                        (tk as i128 - ti as i128) as u128
                    };
                    if let Some(at) = &e.attacker {
                        let d = dist_of(at, victim);
                        if el != 0 && d != 0 {
                            dist_out = Some(d);
                            let x: u128 = d as u128 * 1000;
                            let raw: u128 = x / el;
                            assert(raw <= x) by (nonlinear_arith)
                                requires
                                    el >= 1,
                                    raw == x / el,
                                    x >= 0,
                            ;
                            speed_out = clamp_speed(raw as u64, &e.damage_causer_name, tables);
                        }
                    }
                }
            }
        }
    }
    let mut backfilled_weapon: Option<AttackWeapon> = None;
    let mut backfilled_stack_count: Option<i32> = None;
    if let Some(k) = attack_k {
        if e.weapon.is_none() {
            if let Some(w) = &events[k].weapon {
                backfilled_weapon = Some(
                    AttackWeapon {
                        weapon: translate(&tables.weapons, &w.weapon),
                        attachments: translate_all(&tables.attachments, &w.attachments),
                    },
                );
            }
        }
        if e.fire_weapon_stack_count.is_none() {
            backfilled_stack_count = events[k].fire_weapon_stack_count;
        }
    }
    let match_time_ms = match (times[i], start) {
        (Some(t), Some(s)) => t.checked_sub(s),
        _ => None,
    };
    Enrichment {
        index: i,
        helmet,
        vest,
        victim_helmet,
        victim_vest,
        distance: dist_out,
        bullet_speed: speed_out,
        backfilled_weapon,
        backfilled_stack_count,
        damage_causer_name: translate_opt(&tables.weapons, &e.damage_causer_name),
        damage_type_category: translate_opt(&tables.damage_types, &e.damage_type_category),
        damage_reason: translate_opt(&tables.hit_locations, &e.damage_reason),
        killer_damage_info: translate_info(tables, &e.killer_damage_info),
        finish_damage_info: translate_info(tables, &e.finish_damage_info),
        dbno_damage_info: translate_info(tables, &e.dbno_damage_info),
        match_time_ms,
    }
}

fn party_is_roster(p: &Option<Target>, roster: &Vec<String>) -> (r: bool)
    ensures
        r == party_in(*p, roster@),
{
    match p {
        Some(t) => contains_name(roster, &t.name),
        None => false,
    }
}

/// Whether `e` belongs in the combat log of the roster.
pub fn is_subject_event(e: &Event, roster: &Vec<String>) -> (r: bool)
    ensures
        r == is_subject(*e, roster@),
{
    if e.action == ActionType::LogPlayerTakeDamage || e.action == ActionType::LogArmorDestroy {
        party_is_roster(&e.attacker, roster) || party_is_roster(&e.victim, roster)
    } else if e.action == ActionType::LogPlayerKillV2 {
        party_is_roster(&e.attacker, roster) || party_is_roster(&e.victim, roster)
            || party_is_roster(&e.dbno_maker, roster) || party_is_roster(&e.finisher, roster)
            || party_is_roster(&e.killer, roster)
    } else {
        false
    }
}

/// The enriched combat log, given the parsed time of each event: one
/// enrichment per event that concerns the roster, in telemetry order.
pub fn enrich_with_times(
    events: &Vec<Event>,
    times: &Vec<Option<i64>>,
    roster: &Vec<String>,
    tables: &Tables,
) -> (r: Vec<Enrichment>)
    requires
        times@.len() == events@.len(),
    ensures
        r@.len() == subject_indices(events@, roster@, events@.len() as int).len(),
        forall|k: int|
            0 <= k < r@.len() ==> #[trigger] r@[k].index as int == subject_indices(
                events@,
                roster@,
                events@.len() as int,
            )[k],
        forall|k: int|
            0 <= k < r@.len() ==> enrichment_of(#[trigger] r@[k], events@, times@, *tables, r@[k].index as int),
        forall|k: int|
            0 <= k < r@.len() && events@[#[trigger] r@[k].index as int].attack_id == Some(-1i32)
                ==> r@[k].bullet_speed is None,
{
    let names = equip_names(events, &tables.armors);
    let helmets = slot_flags(&names, "Helmet");
    let vests = slot_flags(&names, "Vest");
    proof {
        reveal_strlit("Helmet");
        reveal_strlit("Vest");
    }
    let start: Option<i64> = match find_definition(events) {
        Some(j) => times[j],
        None => None,
    };
    let mut r: Vec<Enrichment> = Vec::new();
    let mut i: usize = 0;
    while i < events.len()
        invariant
            i <= events@.len(),
            times@.len() == events@.len(),
            names@.len() == events@.len(),
            helmets@.len() == events@.len(),
            vests@.len() == events@.len(),
            start == match_start(events@, times@),
            forall|j: int|
                0 <= j < events@.len() ==> opt_view(#[trigger] names@[j]) == equip_name(events@[j], tables.armors@),
            forall|j: int|
                0 <= j < events@.len() ==> #[trigger] helmets@[j] == (names@[j] is Some && has_infix(
                    names@[j]->0@,
                    helmet_word(),
                )),
            forall|j: int|
                0 <= j < events@.len() ==> #[trigger] vests@[j] == (names@[j] is Some && has_infix(
                    names@[j]->0@,
                    vest_word(),
                )),
            r@.len() == subject_indices(events@, roster@, i as int).len(),
            forall|k: int|
                0 <= k < r@.len() ==> #[trigger] r@[k].index as int == subject_indices(events@, roster@, i as int)[k],
            forall|k: int|
                0 <= k < r@.len() ==> enrichment_of(#[trigger] r@[k], events@, times@, *tables, r@[k].index as int),
        decreases events@.len() - i,
    {
        if is_subject_event(&events[i], roster) {
            let x = enrich_one(events, times, tables, &names, &helmets, &vests, start, i);
            r.push(x);
        }
        i = i + 1;
    }
    r
}

/// The parsed time of each event.
pub open spec fn times_of(events: Seq<Event>) -> Seq<Option<i64>> {
    Seq::new(events.len(), |k: int| event_millis(events[k]))
}

/// The enriched combat log of the roster: one enrichment per event that
/// concerns it, in telemetry order.
pub fn enrich(events: &Vec<Event>, roster: &Vec<String>, tables: &Tables) -> (r: Vec<Enrichment>)
    ensures
        r@.len() == subject_indices(events@, roster@, events@.len() as int).len(),
        forall|k: int|
            0 <= k < r@.len() ==> #[trigger] r@[k].index as int == subject_indices(
                events@,
                roster@,
                events@.len() as int,
            )[k],
        forall|k: int|
            0 <= k < r@.len() ==> enrichment_of(
                #[trigger] r@[k],
                events@,
                times_of(events@),
                *tables,
                r@[k].index as int,
            ),
{
    let times = event_times(events);
    assert(times@ =~= times_of(events@));
    enrich_with_times(events, &times, roster, tables)
}

/// Every armor slot of an enriched event is either "bare" or the name of an
/// armor item of the table.
pub proof fn lemma_armor_never_empty(
    events: Seq<Event>,
    times: Seq<Option<i64>>,
    armors: Seq<(String, String)>,
    kw: Seq<char>,
    actor: Option<Target>,
    i: int,
)
    ensures
        armor_slot(events, times, armors, kw, actor, i) == bare_name() || exists|j: int|
            0 <= j < armors.len() && armor_slot(events, times, armors, kw, actor, i) == #[trigger] armors[j].1@,
{
    if armor_ready(events, times, i) {
        if let Some(a) = actor {
            let t = times[i]->0;
            lemma_latest_equip_qualifies(events, times, armors, kw, a.name@, t, events.len() as int);
            if let Some(j) = latest_equip(events, times, armors, kw, a.name@, t, events.len() as int) {
                let code = events[j].item_id->0@;
                lemma_first_index_from(armors, code, 0);
                let p = first_index(armors, code)->0;
                assert(armor_slot(events, times, armors, kw, actor, i) == armors[p].1@);
            }
        }
    }
}

/// An event whose attack id is -1 never has a bullet speed derived.
pub proof fn lemma_direct_events_have_no_speed(
    events: Seq<Event>,
    times: Seq<Option<i64>>,
    tables: Tables,
    i: int,
)
    requires
        events[i].attack_id == Some(-1i32),
    ensures
        speed_of(events, times, tables, i) is None,
{
}

} // verus!

use squad_telemetry::correlate::{Tables, enrich, is_subject_event};
use squad_telemetry::event::{ActionType, AttackWeapon, DamageInfo, Event, Location, Target, event_times};
use squad_telemetry::history::{AppendOutcome, HistoryStore, MatchSummary};
use squad_telemetry::kills::{ParticipantStats, count_direct_kills, merge_kills};
use squad_telemetry::pipeline::{MatchOverview, process_match, roster_players, summarize};
use squad_telemetry::squad::full_squad;

fn s(x: &str) -> String {
    x.to_string()
}

fn blank(action: ActionType, time: &str) -> Event {
    Event {
        action,
        attack_id: None,
        event_time: Some(s(time)),
        weapon: None,
        fire_weapon_stack_count: None,
        attacker: None,
        victim: None,
        dbno_maker: None,
        finisher: None,
        killer: None,
        character: None,
        damage_reason: None,
        damage_type_category: None,
        damage_causer_name: None,
        dbno_damage_info: None,
        finish_damage_info: None,
        killer_damage_info: None,
        item_id: None,
    }
}

fn target(name: &str, team: i32, x: i32) -> Target {
    Target { name: s(name), team_id: team, location: Location { x, y: 0, z: 0 } }
}

fn create(name: &str, team: i32) -> Event {
    let mut e = blank(ActionType::LogPlayerCreate, "2024-05-01T11:59:00.000Z");
    e.character = Some(target(name, team, 0));
    e
}

fn kill(finisher: &str, attack_id: i32) -> Event {
    let mut e = blank(ActionType::LogPlayerKillV2, "2024-05-01T12:10:00.000Z");
    e.attack_id = Some(attack_id);
    e.finisher = Some(target(finisher, 1, 0));
    e.victim = Some(target("enemy", 9, 100));
    e
}

fn equip(who: &str, item: &str, time: &str) -> Event {
    let mut e = blank(ActionType::LogItemEquip, time);
    e.character = Some(target(who, 1, 0));
    e.item_id = Some(s(item));
    e
}

fn stats(name: &str, kills: usize) -> ParticipantStats {
    ParticipantStats {
        name: s(name),
        player_id: s("account.x"),
        kills,
        dbnos: 2,
        assists: 1,
        boosts: 3,
        damage_dealt_centi: 12345,
        death_type: s("byplayer"),
        ride_distance_centi: 0,
        kill_place: 4,
        win_place: 7,
    }
}

fn summary(id: &str) -> MatchSummary {
    MatchSummary { id: s(id), date: s("d"), game_mode: s("squad-fpp"), map_name: s("Erangel"), squad: Vec::new() }
}

fn definition() -> Event {
    blank(ActionType::LogMatchDefinition, "2024-05-01T12:00:00.000Z")
}

#[test]
fn full_squad_is_every_member_of_a_roster_team() {
    let roster = vec![s("me")];
    let events = vec![create("me", 1), create("mate", 1), create("other", 2), create("mate2", 1)];
    let mut r = full_squad(&events, &roster);
    r.sort();
    assert_eq!(r, vec![s("mate"), s("mate2"), s("me")]);
}

#[test]
fn full_squad_is_empty_without_roster_players() {
    let roster = vec![s("me")];
    let events = vec![create("a", 1), create("b", 2)];
    assert!(full_squad(&events, &roster).is_empty());
}

#[test]
fn only_direct_kills_count() {
    let events = vec![kill("me", -1), kill("me", 12), kill("me", -1), kill("mate", -1)];
    assert_eq!(count_direct_kills(&events, &s("me")), 2);
    assert_eq!(count_direct_kills(&events, &s("mate")), 1);
    assert_eq!(count_direct_kills(&events, &s("nobody")), 0);
}

#[test]
fn merged_squad_kills_sum_to_direct_squad_kills() {
    let events = vec![kill("me", -1), kill("mate", 3), kill("mate", -1), kill("enemy", -1), kill("me", -1)];
    let squad = vec![s("me"), s("mate")];
    let all = vec![stats("me", 9), stats("enemy", 9), stats("mate", 9)];
    let m = merge_kills(&all, &squad, &events);
    assert_eq!(m.len(), 2);
    assert_eq!(m[0].name, "me");
    assert_eq!(m[0].kills, 2);
    assert_eq!(m[1].name, "mate");
    assert_eq!(m[1].kills, 1);
    assert_eq!(m[0].dbnos, 2);
    assert_eq!(m[0].damage_dealt_centi, 12345);
    let total: usize = m.iter().map(|x| x.kills).sum();
    assert_eq!(total, 3);
    let again = merge_kills(&m, &squad, &events);
    let total_again: usize = again.iter().map(|x| x.kills).sum();
    assert_eq!(total_again, 3);
}

#[test]
fn appending_the_same_id_twice_changes_once() {
    let mut h = HistoryStore::new();
    assert_eq!(h.append_if_new(summary("a")), AppendOutcome::Appended { evicted: None });
    assert_eq!(h.append_if_new(summary("a")), AppendOutcome::Duplicate);
    assert_eq!(h.len(), 1);
    assert!(h.contains(&s("a")));
    assert!(!h.contains(&s("b")));
}

#[test]
fn history_evicts_the_oldest_beyond_capacity() {
    let mut h = HistoryStore::new();
    for k in 0..30 {
        let out = h.append_if_new(summary(&format!("m{}", k)));
        assert_eq!(out, AppendOutcome::Appended { evicted: None });
    }
    assert_eq!(h.len(), 30);
    let out = h.append_if_new(summary("m30"));
    assert_eq!(out, AppendOutcome::Appended { evicted: Some(s("m0")) });
    assert_eq!(h.len(), 30);
    assert_eq!(h.entries()[0].id, "m1");
    assert_eq!(h.entries()[29].id, "m30");
    assert!(!h.contains(&s("m0")));
}

#[test]
fn loading_keeps_the_newest_summaries() {
    let all: Vec<MatchSummary> = (0..35).map(|k| summary(&format!("m{}", k))).collect();
    let h = HistoryStore::load(all);
    assert_eq!(h.len(), 30);
    assert_eq!(h.entries()[0].id, "m5");
    let small = HistoryStore::load(vec![summary("x")]);
    assert_eq!(small.len(), 1);
}

#[test]
fn timestamps_parse_to_milliseconds() {
    let mut bad = definition();
    bad.event_time = Some(s("not a time"));
    let mut none = definition();
    none.event_time = None;
    let t = event_times(&vec![definition(), bad, none]);
    assert_eq!(t, vec![Some(1714564800000), None, None]);
}

fn damage(attack_id: i32, time: &str) -> Event {
    let mut e = blank(ActionType::LogPlayerTakeDamage, time);
    e.attack_id = Some(attack_id);
    e.attacker = Some(target("me", 1, 0));
    e.victim = Some(target("enemy", 9, 10_000));
    e.damage_causer_name = Some(s("WeapHK416_C"));
    e.damage_type_category = Some(s("Damage_Gun"));
    e.damage_reason = Some(s("HeadShot"));
    e
}

fn attack(attack_id: i32, time: &str) -> Event {
    let mut e = blank(ActionType::LogPlayerAttack, time);
    e.attack_id = Some(attack_id);
    e.attacker = Some(target("me", 1, 0));
    e.fire_weapon_stack_count = Some(42);
    e.weapon = Some(AttackWeapon {
        weapon: s("WeapHK416_C"),
        attachments: vec![s("Item_Attach_Weapon_Upper_ACOG_01_C"), s("Item_Attach_Weapon_Odd_C")],
    });
    e
}

#[test]
fn armor_is_the_latest_equip_not_after_the_event() {
    let roster = vec![s("me")];
    let events = vec![
        definition(),
        equip("enemy", "Item_Head_E_01_Lv1_C", "2024-05-01T12:00:01.000Z"),
        equip("enemy", "Item_Head_F_02_Lv2_C", "2024-05-01T12:00:05.000Z"),
        equip("enemy", "Item_Head_G_01_Lv3_C", "2024-05-01T12:00:20.000Z"),
        equip("enemy", "Item_Armor_E_01_Lv1_C", "2024-05-01T12:00:02.000Z"),
        equip("me", "Item_Unknown_Hat_C", "2024-05-01T12:00:02.000Z"),
        attack(7, "2024-05-01T12:00:09.800Z"),
        damage(7, "2024-05-01T12:00:10.000Z"),
    ];
    let r = enrich(&events, &roster, &Tables::standard());
    assert_eq!(r.len(), 1);
    let x = &r[0];
    assert_eq!(x.index, 7);
    assert_eq!(x.victim_helmet.item, "Military Helmet (Level 2)");
    assert_eq!(x.victim_vest.item, "Police Vest (Level 1)");
    assert_eq!(x.helmet.item, "bare");
    assert_eq!(x.vest.item, "bare");
    assert!(x.helmet.intact && x.victim_helmet.intact);
    assert_eq!(x.match_time_ms, Some(10_000));
}

#[test]
fn an_old_equip_still_counts_without_a_later_one() {
    let roster = vec![s("me")];
    let events = vec![
        equip("enemy", "Item_Armor_C_01_Lv3_C", "2024-05-01T11:00:00.000Z"),
        attack(3, "2024-05-01T12:00:09.800Z"),
        damage(3, "2024-05-01T12:00:10.000Z"),
    ];
    let r = enrich(&events, &roster, &Tables::standard());
    assert_eq!(r[0].victim_vest.item, "Military Vest (Level 3)");
    assert_eq!(r[0].match_time_ms, None);
}

#[test]
fn speed_distance_and_weapon_are_derived() {
    let roster = vec![s("me")];
    let events = vec![definition(), attack(7, "2024-05-01T12:00:09.800Z"), damage(7, "2024-05-01T12:00:10.000Z")];
    let r = enrich(&events, &roster, &Tables::standard());
    let x = &r[0];
    // 100 m in 0.2 s: 500 m/s, plausible for an assault rifle
    assert_eq!(x.distance, Some(10_000));
    assert_eq!(x.bullet_speed, Some(50_000));
    let w = x.backfilled_weapon.as_ref().unwrap();
    assert_eq!(w.weapon, "M416");
    assert_eq!(w.attachments, vec![s("4x ACOG Scope"), s("Unknown")]);
    assert_eq!(x.backfilled_stack_count, Some(42));
    assert_eq!(x.damage_causer_name, Some(s("M416")));
    assert_eq!(x.damage_type_category, Some(s("Gun")));
    assert_eq!(x.damage_reason, Some(s("Head")));
}

#[test]
fn implausible_speed_uses_the_default() {
    let roster = vec![s("me")];
    let mut d = damage(7, "2024-05-01T12:00:10.000Z");
    d.damage_causer_name = Some(s("WeapM1911_C"));
    let events = vec![attack(7, "2024-05-01T12:00:09.950Z"), d];
    let r = enrich(&events, &roster, &Tables::standard());
    // 100 m in 0.05 s: 2000 m/s, too fast for a pistol
    assert_eq!(r[0].bullet_speed, Some(25_000));
    assert_eq!(r[0].damage_causer_name, Some(s("P1911")));
}

#[test]
fn zero_travel_time_gives_no_speed() {
    let roster = vec![s("me")];
    let events = vec![attack(7, "2024-05-01T12:00:10.000Z"), damage(7, "2024-05-01T12:00:10.000Z")];
    let r = enrich(&events, &roster, &Tables::standard());
    assert_eq!(r[0].bullet_speed, None);
    assert_eq!(r[0].distance, None);
}

#[test]
fn direct_attack_id_leaves_armor_bare_and_speed_absent() {
    let roster = vec![s("me")];
    let events = vec![
        equip("enemy", "Item_Head_E_01_Lv1_C", "2024-05-01T12:00:01.000Z"),
        attack(-1, "2024-05-01T12:00:09.800Z"),
        damage(-1, "2024-05-01T12:00:10.000Z"),
    ];
    let r = enrich(&events, &roster, &Tables::standard());
    assert_eq!(r.len(), 1);
    assert_eq!(r[0].bullet_speed, None);
    assert_eq!(r[0].distance, None);
    assert_eq!(r[0].victim_helmet.item, "bare");
    assert!(r[0].backfilled_weapon.is_none());
}

#[test]
fn kill_distance_is_from_finisher_to_victim() {
    let roster = vec![s("me")];
    let mut k = kill("me", 5);
    k.finisher = Some(target("me", 1, 0));
    k.victim = Some(target("enemy", 9, 100));
    k.finish_damage_info = Some(DamageInfo {
        damage_reason: s("TorsoShot"),
        damage_type_category: s("Damage_Gun"),
        weapon: s("WeapAKM_Typo_C"),
        attachments: vec![s("Item_Attach_Weapon_Upper_DotSight_01_C")],
    });
    let r = enrich(&vec![k], &roster, &Tables::standard());
    assert_eq!(r[0].distance, Some(100));
    let info = r[0].finish_damage_info.as_ref().unwrap();
    assert_eq!(info.weapon, "Unknown");
    assert_eq!(info.damage_type_category, "Gun");
    assert_eq!(info.damage_reason, "TorsoShot");
    assert_eq!(info.attachments, vec![s("Red Dot Sight")]);
}

#[test]
fn only_roster_damage_and_kills_are_subjects() {
    let roster = vec![s("me")];
    let mut other = damage(1, "2024-05-01T12:00:10.000Z");
    other.attacker = Some(target("x", 3, 0));
    other.victim = Some(target("y", 4, 0));
    assert!(!is_subject_event(&other, &roster));
    assert!(is_subject_event(&damage(1, "2024-05-01T12:00:10.000Z"), &roster));
    assert!(!is_subject_event(&attack(1, "2024-05-01T12:00:10.000Z"), &roster));
    assert!(is_subject_event(&kill("me", -1), &roster));
    let mut only_killer = damage(1, "2024-05-01T12:00:10.000Z");
    only_killer.attacker = None;
    only_killer.victim = None;
    only_killer.killer = Some(target("me", 1, 0));
    assert!(!is_subject_event(&only_killer, &roster));
    let mut armor_hit = blank(ActionType::LogArmorDestroy, "2024-05-01T12:00:10.000Z");
    armor_hit.victim = Some(target("me", 1, 0));
    assert!(is_subject_event(&armor_hit, &roster));
    let mut by_knocker = kill("other", -1);
    by_knocker.dbno_maker = Some(target("me", 1, 0));
    assert!(is_subject_event(&by_knocker, &roster));
}

#[test]
fn new_match_gives_summary_and_log_once() {
    let roster = roster_players();
    let events = vec![
        create("E1_Duderino", 1),
        create("keken_viikset", 1),
        create("HlGHLANDER", 1),
        create("bold_moves_bob", 1),
        definition(),
        kill("E1_Duderino", -1),
    ];
    let overview = MatchOverview {
        id: s("match-1"),
        created_at: s("2024-05-01T11:58:00Z"),
        game_mode: s("squad-fpp"),
        map_code: s("Desert_Main"),
        participants: vec![
            stats("E1_Duderino", 5),
            stats("keken_viikset", 5),
            stats("HlGHLANDER", 5),
            stats("bold_moves_bob", 5),
            stats("stranger", 5),
        ],
    };
    let tables = Tables::standard();
    let mut store = HistoryStore::new();
    let first = process_match(&mut store, &overview, &events, &roster, &tables);
    let first = first.expect("a new match");
    assert_eq!(first.evicted, None);
    assert_eq!(first.log.len(), 1);
    assert_eq!(first.log[0].index, 5);
    assert_eq!(store.len(), 1);
    let sum = &store.entries()[0];
    assert_eq!(sum.id, "match-1");
    assert_eq!(sum.map_name, "Miramar");
    assert_eq!(sum.squad.len(), 4);
    assert_eq!(sum.squad[0].name, "E1_Duderino");
    assert_eq!(sum.squad[0].kills, 1);
    assert_eq!(sum.squad[1].kills, 0);
    let second = process_match(&mut store, &overview, &events, &roster, &tables);
    assert!(second.is_none());
    assert_eq!(store.len(), 1);
}

#[test]
fn summary_of_unknown_map_says_unknown() {
    let roster = vec![s("me")];
    let overview = MatchOverview {
        id: s("m"),
        created_at: s("t"),
        game_mode: s("solo"),
        map_code: s("Moon_Main"),
        participants: vec![stats("me", 3)],
    };
    let sum = summarize(&overview, &vec![create("me", 2)], &roster, &Tables::standard());
    assert_eq!(sum.map_name, "Unknown");
    assert_eq!(sum.squad.len(), 1);
    assert_eq!(sum.squad[0].kills, 0);
}

#[test]
fn direct_kill_has_finisher_distance() {
    let roster = vec![s("me")];
    let mut k = kill("me", -1);
    k.finisher = Some(target("me", 1, 0));
    k.victim = Some(target("enemy", 9, 100));
    let r = enrich(&vec![k], &roster, &Tables::standard());
    assert_eq!(r.len(), 1);
    assert_eq!(r[0].distance, Some(100));
    assert_eq!(r[0].bullet_speed, None);
    assert_eq!(r[0].victim_helmet.item, "bare");
}

#[test]
fn attacker_armor_is_folded_without_a_victim() {
    let roster = vec![s("me")];
    let mut d = damage(4, "2024-05-01T12:00:10.000Z");
    d.victim = None;
    let events = vec![equip("me", "Item_Head_G_01_Lv3_C", "2024-05-01T12:00:01.000Z"), d];
    let r = enrich(&events, &roster, &Tables::standard());
    assert_eq!(r.len(), 1);
    assert_eq!(r[0].helmet.item, "Spetsnaz Helmet (Level 3)");
    assert_eq!(r[0].victim_helmet.item, "bare");
    assert_eq!(r[0].distance, None);
    assert_eq!(r[0].bullet_speed, None);
}

#[test]
fn equal_times_favour_the_later_equip() {
    let roster = vec![s("me")];
    let events = vec![
        equip("enemy", "Item_Head_E_01_Lv1_C", "2024-05-01T12:00:05.000Z"),
        equip("enemy", "Item_Head_F_02_Lv2_C", "2024-05-01T12:00:05.000Z"),
        equip("enemy", "Item_Head_G_01_Lv3_C", "2024-05-01T12:00:01.000Z"),
        damage(2, "2024-05-01T12:00:10.000Z"),
    ];
    let r = enrich(&events, &roster, &Tables::standard());
    assert_eq!(r[0].victim_helmet.item, "Military Helmet (Level 2)");
}

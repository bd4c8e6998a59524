use squad_telemetry::correlate::{Tables, clamp_speed};
use squad_telemetry::event::{ActionType, Location};
use squad_telemetry::geometry::distance;
use squad_telemetry::pipeline::{collect_match_ids, combine_user_ids, make_player_id_url, player_id_merge};
use squad_telemetry::vocab::{WeaponClass, lookup_class, map_names, translate, translate_all, weapons};

fn s(x: &str) -> String {
    x.to_string()
}

#[test]
fn known_codes_translate_to_their_names() {
    let t = weapons();
    assert_eq!(translate(&t, &s("WeapHK416_C")), "M416");
    assert_eq!(translate(&map_names(), &s("Baltic_Main")), "Erangel");
}

#[test]
fn unknown_codes_translate_to_unknown() {
    assert_eq!(translate(&weapons(), &s("WeapNoSuchGun_C")), "Unknown");
    assert_eq!(translate(&Vec::new(), &s("")), "Unknown");
}

#[test]
fn translation_is_deterministic() {
    let t = weapons();
    let a = translate(&t, &s("WeapAWM_C"));
    let b = translate(&t, &s("WeapAWM_C"));
    assert_eq!(a, b);
    assert_eq!(a, "AWM");
}

#[test]
fn first_entry_of_a_code_wins() {
    let t = vec![(s("k"), s("first")), (s("k"), s("second"))];
    assert_eq!(translate(&t, &s("k")), "first");
}

#[test]
fn translate_all_keeps_order() {
    let t = vec![(s("a"), s("A")), (s("b"), s("B"))];
    let r = translate_all(&t, &vec![s("b"), s("z"), s("a")]);
    assert_eq!(r, vec![s("B"), s("Unknown"), s("A")]);
}

#[test]
fn weapon_classes_are_looked_up() {
    let t = squad_telemetry::vocab::weapon_classes();
    assert_eq!(lookup_class(&t, &s("P1911")), Some(WeaponClass::Pistol));
    assert_eq!(lookup_class(&t, &s("Pan")), None);
    assert_eq!(WeaponClass::Pistol.max_speed(), 500);
    assert_eq!(WeaponClass::HpSniper.max_speed(), 1500);
    assert_eq!(WeaponClass::Shotgun.max_speed(), 700);
    assert_eq!(WeaponClass::Lmg.max_speed(), 1000);
}

#[test]
fn action_codes_classify() {
    assert_eq!(ActionType::from_code(&s("LogPlayerKillV2")), ActionType::LogPlayerKillV2);
    assert_eq!(ActionType::from_code(&s("LogItemPickupFromLootbox")), ActionType::LogItemPickupFromLootbox);
    assert_eq!(ActionType::from_code(&s("LogSomethingNew")), ActionType::Unknown);
    assert_eq!(ActionType::from_code(&s("")), ActionType::Unknown);
}

#[test]
fn distance_of_hundred_units_is_one_metre() {
    let a = Location { x: 0, y: 0, z: 0 };
    let b = Location { x: 100, y: 0, z: 0 };
    let d = distance(&a, &b);
    assert_eq!(d, 100);
    assert_eq!(d as f64 * 0.01, 1.0);
}

#[test]
fn distance_is_euclidean_and_rounded_down() {
    let a = Location { x: 1, y: 2, z: 3 };
    let b = Location { x: 4, y: 6, z: 3 };
    assert_eq!(distance(&a, &b), 5);
    let c = Location { x: 0, y: 0, z: 0 };
    let e = Location { x: 1, y: 1, z: 1 };
    assert_eq!(distance(&c, &e), 1);
    let far = Location { x: i32::MIN, y: i32::MIN, z: i32::MIN };
    let near = Location { x: i32::MAX, y: i32::MAX, z: i32::MAX };
    assert_eq!(distance(&far, &near), 7439101571);
}

#[test]
fn implausible_pistol_speed_gives_way_to_default() {
    let t = Tables::standard();
    // 2000 m/s from a P1911 (a pistol, at most 500 m/s)
    assert_eq!(clamp_speed(200_000, &Some(s("WeapM1911_C")), &t), Some(25_000));
}

#[test]
fn plausible_speed_is_kept() {
    let t = Tables::standard();
    assert_eq!(clamp_speed(40_000, &Some(s("WeapM1911_C")), &t), Some(40_000));
    assert_eq!(clamp_speed(50_000, &Some(s("WeapM1911_C")), &t), Some(50_000));
    assert_eq!(clamp_speed(9_000_000, &Some(s("WeapUnknown_C")), &t), Some(9_000_000));
    assert_eq!(clamp_speed(9_000_000, &None, &t), Some(9_000_000));
}

#[test]
fn ids_join_with_encoded_commas() {
    assert_eq!(combine_user_ids(vec![s("a"), s("bc"), s("d")]), "a%2Cbc%2Cd");
    assert_eq!(combine_user_ids(vec![s("only")]), "only");
    assert_eq!(combine_user_ids(Vec::new()), "");
}

#[test]
fn roster_url_lists_all_players() {
    assert_eq!(player_id_merge(), "E1_Duderino%2Ckeken_viikset%2CHlGHLANDER%2Cbold_moves_bob");
    assert_eq!(
        make_player_id_url(),
        "https://api.pubg.com/shards/steam/players?filter[playerNames]=E1_Duderino%2Ckeken_viikset%2CHlGHLANDER%2Cbold_moves_bob"
    );
}

#[test]
fn match_ids_are_flattened_in_order() {
    let r = collect_match_ids(&vec![vec![s("m1"), s("m2")], vec![], vec![s("m3")]]);
    assert_eq!(r, vec![s("m1"), s("m2"), s("m3")]);
}


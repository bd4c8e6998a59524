//! Static lookup tables from internal game codes to readable names.
use vstd::prelude::*;

verus! {

/// A lookup table: pairs of (internal code, value), searched front to back.
pub type Table = Vec<(String, String)>;

/// The first position at or after `i` whose code equals `code`.
pub open spec fn first_index_from<V>(t: Seq<(String, V)>, code: Seq<char>, i: int) -> Option<int>
    decreases t.len() - i,
{
    if i < 0 || i >= t.len() {
        None
    } else if t[i].0@ == code {
        Some(i)
    } else {
        first_index_from(t, code, i + 1)
    }
}

/// The first position of `code` in the table, if any.
pub open spec fn first_index<V>(t: Seq<(String, V)>, code: Seq<char>) -> Option<int> {
    first_index_from(t, code, 0)
}

/// Whether the table holds an entry for `code`.
pub open spec fn has_code<V>(t: Seq<(String, V)>, code: Seq<char>) -> bool {
    exists|j: int| 0 <= j < t.len() && #[trigger] t[j].0@ == code
}

/// The sentinel name of a code that no table knows.
pub open spec fn unknown_name() -> Seq<char> {
    "Unknown"@
}

/// The readable name of `code` in `t`: the value of its first entry, else "Unknown".
pub open spec fn translated(t: Seq<(String, String)>, code: Seq<char>) -> Seq<char> {
    match first_index(t, code) {
        Some(j) => t[j].1@,
        None => unknown_name(),
    }
}

/// What `first_index_from` returns: the first matching position, or none at all.
pub proof fn lemma_first_index_from<V>(t: Seq<(String, V)>, code: Seq<char>, i: int)
    requires
        0 <= i <= t.len(),
    ensures
        match first_index_from(t, code, i) {
            Some(j) => i <= j < t.len() && t[j].0@ == code
                && forall|k: int| i <= k < j ==> #[trigger] t[k].0@ != code,
            None => forall|k: int| i <= k < t.len() ==> #[trigger] t[k].0@ != code,
        },
    decreases t.len() - i,
{
    if i < t.len() && t[i].0@ != code {
        lemma_first_index_from(t, code, i + 1);
    }
}

/// A code that the table does not hold always translates to "Unknown";
/// a code that it holds translates to the value of its first entry.
pub proof fn lemma_translate_total(t: Seq<(String, String)>, code: Seq<char>)
    ensures
        !has_code(t, code) ==> translated(t, code) == unknown_name(),
        has_code(t, code) ==> exists|j: int|
            0 <= j < t.len() && t[j].0@ == code && translated(t, code) == #[trigger] t[j].1@,
{
    lemma_first_index_from(t, code, 0);
    if let Some(j) = first_index(t, code) {
        assert(t[j].0@ == code && translated(t, code) == t[j].1@);
    }
}

/// Position of the first entry of `code` in `t`.
pub fn position_of<V>(t: &Vec<(String, V)>, code: &String) -> (r: Option<usize>)
    ensures
        match r {
            Some(j) => j < t@.len() && first_index(t@, code@) == Some(j as int),
            None => first_index(t@, code@) is None,
        },
{
    let mut i: usize = 0;
    while i < t.len()
        invariant
            i <= t.len(),
            first_index(t@, code@) == first_index_from(t@, code@, i as int),
        decreases t.len() - i,
    {
        if t[i].0 == *code {
            return Some(i);
        }
        i = i + 1;
    }
    None
}

/// The readable name of `code`, or "Unknown" where the table lacks it.
pub fn translate(t: &Table, code: &String) -> (r: String)
    ensures
        r@ == translated(t@, code@),
{
    match position_of(t, code) {
        Some(j) => t[j].1.clone(),
        None => String::from_str("Unknown"),
    }
}

/// `translate` applied to each element of `codes`.
pub fn translate_all(t: &Table, codes: &Vec<String>) -> (r: Vec<String>)
    ensures
        r@.len() == codes@.len(),
        forall|k: int| 0 <= k < codes@.len() ==> #[trigger] r@[k]@ == translated(t@, codes@[k]@),
{
    let mut r: Vec<String> = Vec::new();
    let mut i: usize = 0;
    while i < codes.len()
        invariant
            i <= codes@.len(),
            r@.len() == i,
            forall|k: int| 0 <= k < i ==> #[trigger] r@[k]@ == translated(t@, codes@[k]@),
        decreases codes@.len() - i,
    {
        let name = translate(t, &codes[i]);
        r.push(name);
        i = i + 1;
    }
    r
}

/// The codes and values of a table, as text.
pub open spec fn pairs<V>(t: Seq<(String, V)>) -> Seq<(Seq<char>, V)> {
    Seq::new(t.len(), |k: int| (t[k].0@, t[k].1))
}

/// The codes and names of a table, as text.
pub open spec fn name_pairs(t: Seq<(String, String)>) -> Seq<(Seq<char>, Seq<char>)> {
    Seq::new(t.len(), |k: int| (t[k].0@, t[k].1@))
}

/// The weapon table's contents.
pub open spec fn weapon_pairs() -> Seq<(Seq<char>, Seq<char>)> {
    seq![
        ("WeapHK416_C"@, "M416"@),
        ("WeapAK47_C"@, "AKM"@),
        ("WeapBerylM762_C"@, "Beryl M762"@),
        ("WeapSCAR-L_C"@, "SCAR-L"@),
        ("WeapM16A4_C"@, "M16A4"@),
        ("WeapUMP_C"@, "UMP45"@),
        ("WeapVector_C"@, "Vector"@),
        ("WeapM1911_C"@, "P1911"@),
        ("WeapG18_C"@, "P18C"@),
        ("WeapNagantM1895_C"@, "R1895"@),
        ("WeapSKS_C"@, "SKS"@),
        ("WeapMini14_C"@, "Mini 14"@),
        ("WeapM249_C"@, "M249"@),
        ("WeapDP28_C"@, "DP-28"@),
        ("WeapKar98k_C"@, "Kar98k"@),
        ("WeapM24_C"@, "M24"@),
        ("WeapAWM_C"@, "AWM"@),
        ("WeapSaiga12_C"@, "S12K"@),
        ("WeapBerreta686_C"@, "S686"@),
        ("WeapWinchester_C"@, "S1897"@),
    ]
}

fn entry(code: &str, name: &str) -> (r: (String, String))
    ensures
        r.0@ == code@,
        r.1@ == name@,
{
    (String::from_str(code), String::from_str(name))
}

/// Weapon item codes and their names.
pub fn weapons() -> (r: Table)
    ensures
        name_pairs(r@) == weapon_pairs(),
{
    let r = vec![
        entry("WeapHK416_C", "M416"),
        entry("WeapAK47_C", "AKM"),
        entry("WeapBerylM762_C", "Beryl M762"),
        entry("WeapSCAR-L_C", "SCAR-L"),
        entry("WeapM16A4_C", "M16A4"),
        entry("WeapUMP_C", "UMP45"),
        entry("WeapVector_C", "Vector"),
        entry("WeapM1911_C", "P1911"),
        entry("WeapG18_C", "P18C"),
        entry("WeapNagantM1895_C", "R1895"),
        entry("WeapSKS_C", "SKS"),
        entry("WeapMini14_C", "Mini 14"),
        entry("WeapM249_C", "M249"),
        entry("WeapDP28_C", "DP-28"),
        entry("WeapKar98k_C", "Kar98k"),
        entry("WeapM24_C", "M24"),
        entry("WeapAWM_C", "AWM"),
        entry("WeapSaiga12_C", "S12K"),
        entry("WeapBerreta686_C", "S686"),
        entry("WeapWinchester_C", "S1897"),
    ];
    assert(name_pairs(r@) =~= weapon_pairs());
    r
}

/// The damage-type table's contents.
pub open spec fn damage_type_pairs() -> Seq<(Seq<char>, Seq<char>)> {
    seq![
        ("Damage_Gun"@, "Gun"@),
        ("Damage_Melee"@, "Melee"@),
        ("Damage_Punch"@, "Punch"@),
        ("Damage_Explosion_Grenade"@, "Grenade"@),
        ("Damage_VehicleHit"@, "Vehicle"@),
        ("Damage_Drown"@, "Drowning"@),
        ("Damage_Groggy"@, "Bleed out"@),
        ("Damage_BlueZone"@, "Blue zone"@),
        ("Damage_Fall"@, "Falling"@),
    ]
}

/// Damage-type category codes and their names.
pub fn damage_types() -> (r: Table)
    ensures
        name_pairs(r@) == damage_type_pairs(),
{
    let r = vec![
        entry("Damage_Gun", "Gun"),
        entry("Damage_Melee", "Melee"),
        entry("Damage_Punch", "Punch"),
        entry("Damage_Explosion_Grenade", "Grenade"),
        entry("Damage_VehicleHit", "Vehicle"),
        entry("Damage_Drown", "Drowning"),
        entry("Damage_Groggy", "Bleed out"),
        entry("Damage_BlueZone", "Blue zone"),
        entry("Damage_Fall", "Falling"),
    ];
    assert(name_pairs(r@) =~= damage_type_pairs());
    r
}

/// The attachment table's contents.
pub open spec fn attachment_pairs() -> Seq<(Seq<char>, Seq<char>)> {
    seq![
        ("Item_Attach_Weapon_Upper_DotSight_01_C"@, "Red Dot Sight"@),
        ("Item_Attach_Weapon_Upper_Holosight_C"@, "Holographic Sight"@),
        ("Item_Attach_Weapon_Upper_ACOG_01_C"@, "4x ACOG Scope"@),
        ("Item_Attach_Weapon_Muzzle_Compensator_Large_C"@, "Compensator (AR)"@),
        ("Item_Attach_Weapon_Muzzle_Suppressor_Large_C"@, "Suppressor (AR)"@),
        ("Item_Attach_Weapon_Magazine_ExtendedQuickDraw_Large_C"@, "Extended QuickDraw Mag (AR)"@),
        ("Item_Attach_Weapon_Lower_Foregrip_C"@, "Vertical Foregrip"@),
        ("Item_Attach_Weapon_Stock_AR_Composite_C"@, "Tactical Stock"@),
    ]
}

/// Weapon attachment codes and their names.
pub fn attachments() -> (r: Table)
    ensures
        name_pairs(r@) == attachment_pairs(),
{
    let r = vec![
        entry("Item_Attach_Weapon_Upper_DotSight_01_C", "Red Dot Sight"),
        entry("Item_Attach_Weapon_Upper_Holosight_C", "Holographic Sight"),
        entry("Item_Attach_Weapon_Upper_ACOG_01_C", "4x ACOG Scope"),
        entry("Item_Attach_Weapon_Muzzle_Compensator_Large_C", "Compensator (AR)"),
        entry("Item_Attach_Weapon_Muzzle_Suppressor_Large_C", "Suppressor (AR)"),
        entry("Item_Attach_Weapon_Magazine_ExtendedQuickDraw_Large_C", "Extended QuickDraw Mag (AR)"),
        entry("Item_Attach_Weapon_Lower_Foregrip_C", "Vertical Foregrip"),
        entry("Item_Attach_Weapon_Stock_AR_Composite_C", "Tactical Stock"),
    ];
    assert(name_pairs(r@) =~= attachment_pairs());
    r
}

/// The armor table's contents.
pub open spec fn armor_pairs() -> Seq<(Seq<char>, Seq<char>)> {
    seq![
        ("Item_Head_E_01_Lv1_C"@, "Motorcycle Helmet (Level 1)"@),
        ("Item_Head_F_02_Lv2_C"@, "Military Helmet (Level 2)"@),
        ("Item_Head_G_01_Lv3_C"@, "Spetsnaz Helmet (Level 3)"@),
        ("Item_Armor_E_01_Lv1_C"@, "Police Vest (Level 1)"@),
        ("Item_Armor_D_01_Lv2_C"@, "Police Vest (Level 2)"@),
        ("Item_Armor_C_01_Lv3_C"@, "Military Vest (Level 3)"@),
    ]
}

/// Armor item codes and their names; helmet names hold "Helmet", vest names "Vest".
pub fn armors() -> (r: Table)
    ensures
        name_pairs(r@) == armor_pairs(),
{
    let r = vec![
        entry("Item_Head_E_01_Lv1_C", "Motorcycle Helmet (Level 1)"),
        entry("Item_Head_F_02_Lv2_C", "Military Helmet (Level 2)"),
        entry("Item_Head_G_01_Lv3_C", "Spetsnaz Helmet (Level 3)"),
        entry("Item_Armor_E_01_Lv1_C", "Police Vest (Level 1)"),
        entry("Item_Armor_D_01_Lv2_C", "Police Vest (Level 2)"),
        entry("Item_Armor_C_01_Lv3_C", "Military Vest (Level 3)"),
    ];
    assert(name_pairs(r@) =~= armor_pairs());
    r
}

/// The map table's contents.
pub open spec fn map_pairs() -> Seq<(Seq<char>, Seq<char>)> {
    seq![
        ("Baltic_Main"@, "Erangel"@),
        ("Desert_Main"@, "Miramar"@),
        ("Savage_Main"@, "Sanhok"@),
        ("DihorOtok_Main"@, "Vikendi"@),
        ("Summerland_Main"@, "Karakin"@),
        ("Tiger_Main"@, "Taego"@),
        ("Kiki_Main"@, "Deston"@),
        ("Neon_Main"@, "Rondo"@),
    ]
}

/// Map codes and their names.
pub fn map_names() -> (r: Table)
    ensures
        name_pairs(r@) == map_pairs(),
{
    let r = vec![
        entry("Baltic_Main", "Erangel"),
        entry("Desert_Main", "Miramar"),
        entry("Savage_Main", "Sanhok"),
        entry("DihorOtok_Main", "Vikendi"),
        entry("Summerland_Main", "Karakin"),
        entry("Tiger_Main", "Taego"),
        entry("Kiki_Main", "Deston"),
        entry("Neon_Main", "Rondo"),
    ];
    assert(name_pairs(r@) =~= map_pairs());
    r
}

/// The hit-location table's contents.
pub open spec fn hit_location_pairs() -> Seq<(Seq<char>, Seq<char>)> {
    seq![
        ("HeadShot"@, "Head"@),
        ("TorsoShot"@, "Torso"@),
        ("ArmShot"@, "Arm"@),
        ("LegShot"@, "Leg"@),
        ("PelvisShot"@, "Pelvis"@),
        ("NonSpecific"@, "Non specific"@),
        ("None"@, "None"@),
    ]
}

/// Hit-location codes (damage reasons) and their names.
pub fn hit_locations() -> (r: Table)
    ensures
        name_pairs(r@) == hit_location_pairs(),
{
    let r = vec![
        entry("HeadShot", "Head"),
        entry("TorsoShot", "Torso"),
        entry("ArmShot", "Arm"),
        entry("LegShot", "Leg"),
        entry("PelvisShot", "Pelvis"),
        entry("NonSpecific", "Non specific"),
        entry("None", "None"),
    ];
    assert(name_pairs(r@) =~= hit_location_pairs());
    r
}

/// The class of a weapon, which bounds the speed of its bullets.
#[derive(Clone, Copy, Debug, PartialEq, Eq, Structural)]
pub enum WeaponClass {
    Smg,
    Pistol,
    Dmr,
    Lmg,
    AssaultRifle,
    HpSniper,
    Shotgun,
}

/// The largest plausible bullet speed of a class, in metres per second.
pub open spec fn class_max_speed(c: WeaponClass) -> u64 {
    match c {
        WeaponClass::Smg | WeaponClass::Pistol => 500,
        WeaponClass::Dmr | WeaponClass::Lmg | WeaponClass::AssaultRifle => 1000,
        WeaponClass::HpSniper => 1500,
        WeaponClass::Shotgun => 700,
    }
}

impl WeaponClass {
    /// The largest plausible bullet speed of this class, in metres per second.
    pub fn max_speed(&self) -> (r: u64)
        ensures
            r == class_max_speed(*self),
    {
        match self {
            WeaponClass::Smg | WeaponClass::Pistol => 500,
            WeaponClass::Dmr | WeaponClass::Lmg | WeaponClass::AssaultRifle => 1000,
            WeaponClass::HpSniper => 1500,
            WeaponClass::Shotgun => 700,
        }
    }
}

fn class_entry(name: &str, c: WeaponClass) -> (r: (String, WeaponClass))
    ensures
        r.0@ == name@,
        r.1 == c,
{
    (String::from_str(name), c)
}

/// The weapon-class table's contents.
pub open spec fn class_pairs() -> Seq<(Seq<char>, WeaponClass)> {
    seq![
        ("M416"@, WeaponClass::AssaultRifle),
        ("AKM"@, WeaponClass::AssaultRifle),
        ("Beryl M762"@, WeaponClass::AssaultRifle),
        ("SCAR-L"@, WeaponClass::AssaultRifle),
        ("M16A4"@, WeaponClass::AssaultRifle),
        ("UMP45"@, WeaponClass::Smg),
        ("Vector"@, WeaponClass::Smg),
        ("P1911"@, WeaponClass::Pistol),
        ("P18C"@, WeaponClass::Pistol),
        ("R1895"@, WeaponClass::Pistol),
        ("SKS"@, WeaponClass::Dmr),
        ("Mini 14"@, WeaponClass::Dmr),
        ("M249"@, WeaponClass::Lmg),
        ("DP-28"@, WeaponClass::Lmg),
        ("Kar98k"@, WeaponClass::HpSniper),
        ("M24"@, WeaponClass::HpSniper),
        ("AWM"@, WeaponClass::HpSniper),
        ("S12K"@, WeaponClass::Shotgun),
        ("S686"@, WeaponClass::Shotgun),
        ("S1897"@, WeaponClass::Shotgun),
    ]
}

/// Weapon names and their classes; a weapon missing here is unclassified.
pub fn weapon_classes() -> (r: Vec<(String, WeaponClass)>)
    ensures
        pairs(r@) == class_pairs(),
{
    let r = vec![
        class_entry("M416", WeaponClass::AssaultRifle),
        class_entry("AKM", WeaponClass::AssaultRifle),
        class_entry("Beryl M762", WeaponClass::AssaultRifle),
        class_entry("SCAR-L", WeaponClass::AssaultRifle),
        class_entry("M16A4", WeaponClass::AssaultRifle),
        class_entry("UMP45", WeaponClass::Smg),
        class_entry("Vector", WeaponClass::Smg),
        class_entry("P1911", WeaponClass::Pistol),
        class_entry("P18C", WeaponClass::Pistol),
        class_entry("R1895", WeaponClass::Pistol),
        class_entry("SKS", WeaponClass::Dmr),
        class_entry("Mini 14", WeaponClass::Dmr),
        class_entry("M249", WeaponClass::Lmg),
        class_entry("DP-28", WeaponClass::Lmg),
        class_entry("Kar98k", WeaponClass::HpSniper),
        class_entry("M24", WeaponClass::HpSniper),
        class_entry("AWM", WeaponClass::HpSniper),
        class_entry("S12K", WeaponClass::Shotgun),
        class_entry("S686", WeaponClass::Shotgun),
        class_entry("S1897", WeaponClass::Shotgun),
    ];
    assert(pairs(r@) =~= class_pairs());
    r
}

fn speed_entry(name: &str, speed: u64) -> (r: (String, u64))
    ensures
        r.0@ == name@,
        r.1 == speed,
{
    (String::from_str(name), speed)
}

/// The default-speed table's contents.
pub open spec fn speed_pairs() -> Seq<(Seq<char>, u64)> {
    seq![
        ("M416"@, 88000),
        ("AKM"@, 71500),
        ("Beryl M762"@, 71500),
        ("SCAR-L"@, 87000),
        ("M16A4"@, 90000),
        ("UMP45"@, 30000),
        ("Vector"@, 30000),
        ("P1911"@, 25000),
        ("P18C"@, 37500),
        ("R1895"@, 33000),
        ("SKS"@, 80000),
        ("Mini 14"@, 99000),
        ("M249"@, 91500),
        ("DP-28"@, 71500),
        ("Kar98k"@, 76000),
        ("M24"@, 79000),
        ("AWM"@, 94500),
        ("S12K"@, 35000),
        ("S686"@, 36000),
        ("S1897"@, 36000),
    ]
}

/// Weapon names and the default speed of their bullets, in hundredths of a
/// metre per second.
pub fn default_bullet_speeds() -> (r: Vec<(String, u64)>)
    ensures
        pairs(r@) == speed_pairs(),
{
    let r = vec![
        speed_entry("M416", 88000),
        speed_entry("AKM", 71500),
        speed_entry("Beryl M762", 71500),
        speed_entry("SCAR-L", 87000),
        speed_entry("M16A4", 90000),
        speed_entry("UMP45", 30000),
        speed_entry("Vector", 30000),
        speed_entry("P1911", 25000),
        speed_entry("P18C", 37500),
        speed_entry("R1895", 33000),
        speed_entry("SKS", 80000),
        speed_entry("Mini 14", 99000),
        speed_entry("M249", 91500),
        speed_entry("DP-28", 71500),
        speed_entry("Kar98k", 76000),
        speed_entry("M24", 79000),
        speed_entry("AWM", 94500),
        speed_entry("S12K", 35000),
        speed_entry("S686", 36000),
        speed_entry("S1897", 36000),
    ];
    assert(pairs(r@) =~= speed_pairs());
    r
}

/// The class of a weapon name, if the table classifies it.
pub open spec fn class_of(t: Seq<(String, WeaponClass)>, name: Seq<char>) -> Option<WeaponClass> {
    match first_index(t, name) {
        Some(j) => Some(t[j].1),
        None => None,
    }
}

/// The tabulated default speed of a weapon name, if any.
pub open spec fn default_speed_of(t: Seq<(String, u64)>, name: Seq<char>) -> Option<u64> {
    match first_index(t, name) {
        Some(j) => Some(t[j].1),
        None => None,
    }
}

/// Looks up the class of a weapon name.
pub fn lookup_class(t: &Vec<(String, WeaponClass)>, name: &String) -> (r: Option<WeaponClass>)
    ensures
        r == class_of(t@, name@),
{
    match position_of(t, name) {
        Some(j) => Some(t[j].1),
        None => None,
    }
}

/// Looks up the default bullet speed of a weapon name.
pub fn lookup_default_speed(t: &Vec<(String, u64)>, name: &String) -> (r: Option<u64>)
    ensures
        r == default_speed_of(t@, name@),
{
    match position_of(t, name) {
        Some(j) => Some(t[j].1),
        None => None,
    }
}

} // verus!

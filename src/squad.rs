//! Squad resolution: which players share a team with a roster player.
use vstd::prelude::*;
use crate::event::{ActionType, Event};

verus! {

/// Whether some element of `names` reads `n`.
pub open spec fn name_in(names: Seq<String>, n: Seq<char>) -> bool {
    exists|k: int| 0 <= k < names.len() && #[trigger] names[k]@ == n
}

/// Whether `names` holds `n`.
pub fn contains_name(names: &Vec<String>, n: &String) -> (r: bool)
    ensures
        r == name_in(names@, n@),
{
    let mut i: usize = 0;
    while i < names.len()
        invariant
            i <= names@.len(),
            forall|k: int| 0 <= k < i ==> #[trigger] names@[k]@ != n@,
        decreases names@.len() - i,
    {
        if names[i] == *n {
            return true;
        }
        i = i + 1;
    }
    false
}

/// Whether `e` creates a player (and so carries its name and team).
pub open spec fn is_creation(e: Event) -> bool {
    e.action == ActionType::LogPlayerCreate && e.character is Some
}

/// Whether `e` creates a roster player on team `t`.
pub open spec fn creates_roster_on(e: Event, roster: Seq<String>, t: i32) -> bool {
    is_creation(e) && e.character->0.team_id == t && name_in(roster, e.character->0.name@)
}

/// Whether team `t` holds at least one roster player.
pub open spec fn team_has_roster(events: Seq<Event>, roster: Seq<String>, t: i32) -> bool {
    exists|i: int| 0 <= i < events.len() && #[trigger] creates_roster_on(events[i], roster, t)
}

/// Whether `e` creates player `n` on a team that holds a roster player.
pub open spec fn creates_squad_member(
    events: Seq<Event>,
    roster: Seq<String>,
    e: Event,
    n: Seq<char>,
) -> bool {
    is_creation(e) && e.character->0.name@ == n && team_has_roster(
        events,
        roster,
        e.character->0.team_id,
    )
}

/// Whether `n` belongs to the full squad: created on a team with a roster player.
pub open spec fn in_full_squad(events: Seq<Event>, roster: Seq<String>, n: Seq<char>) -> bool {
    exists|i: int|
        0 <= i < events.len() && #[trigger] creates_squad_member(events, roster, events[i], n)
}

fn contains_team(teams: &Vec<i32>, t: i32) -> (r: bool)
    ensures
        r == teams@.contains(t),
{
    let mut i: usize = 0;
    while i < teams.len()
        invariant
            i <= teams@.len(),
            forall|k: int| 0 <= k < i ==> teams@[k] != t,
        decreases teams@.len() - i,
    {
        if teams[i] == t {
            return true;
        }
        i = i + 1;
    }
    false
}

/// The teams that hold a roster player.
fn roster_teams(events: &Vec<Event>, roster: &Vec<String>) -> (r: Vec<i32>)
    ensures
        forall|t: i32| r@.contains(t) <==> team_has_roster(events@, roster@, t),
{
    let mut r: Vec<i32> = Vec::new();
    let mut i: usize = 0;
    while i < events.len()
        invariant
            i <= events@.len(),
            forall|t: i32|
                r@.contains(t) <==> exists|j: int|
                    0 <= j < i && #[trigger] creates_roster_on(events@[j], roster@, t),
        decreases events@.len() - i,
    {
        let e = &events[i];
        if e.action == ActionType::LogPlayerCreate {
            if let Some(c) = &e.character {
                if contains_name(roster, &c.name) {
                    let ghost old_r = r@;
                    r.push(c.team_id);
                    assert forall|t: i32|
                        r@.contains(t) <==> exists|j: int|
                            0 <= j < i + 1 && #[trigger] creates_roster_on(
                                events@[j],
                                roster@,
                                t,
                            ) by {
                        if exists|j: int|
                            0 <= j < i + 1 && #[trigger] creates_roster_on(events@[j], roster@, t) {
                            let j = choose|j: int|
                                0 <= j < i + 1 && #[trigger] creates_roster_on(
                                    events@[j],
                                    roster@,
                                    t,
                                );
                            if j == i {
                                assert(r@[r@.len() - 1] == t);
                            } else {
                                assert(old_r.contains(t));
                                let k = choose|k: int| 0 <= k < old_r.len() && old_r[k] == t;
                                assert(r@[k] == t);
                            }
                        }
                        if r@.contains(t) {
                            let k = choose|k: int| 0 <= k < r@.len() && r@[k] == t;
                            if k == old_r.len() {
                                assert(creates_roster_on(events@[i as int], roster@, t));
                            } else {
                                assert(old_r[k] == t);
                                assert(old_r.contains(t));
                            }
                        }
                    }
                }
            }
        }
        i = i + 1;
    }
    r
}

/// The full squad: the name of every player created on a team that holds a
/// roster player, once per creation event.
pub fn full_squad(events: &Vec<Event>, roster: &Vec<String>) -> (r: Vec<String>)
    ensures
        forall|n: Seq<char>| name_in(r@, n) <==> in_full_squad(events@, roster@, n),
{
    let teams = roster_teams(events, roster);
    let mut r: Vec<String> = Vec::new();
    let mut i: usize = 0;
    while i < events.len()
        invariant
            i <= events@.len(),
            forall|t: i32| teams@.contains(t) <==> team_has_roster(events@, roster@, t),
            forall|n: Seq<char>|
                name_in(r@, n) <==> exists|j: int|
                    0 <= j < i && #[trigger] creates_squad_member(events@, roster@, events@[j], n),
        decreases events@.len() - i,
    {
        let e = &events[i];
        if e.action == ActionType::LogPlayerCreate {
            if let Some(c) = &e.character {
                if contains_team(&teams, c.team_id) {
                    let ghost old_r = r@;
                    r.push(c.name.clone());
                    assert forall|n: Seq<char>|
                        name_in(r@, n) <==> exists|j: int|
                            0 <= j < i + 1 && #[trigger] creates_squad_member(
                                events@,
                                roster@,
                                events@[j],
                                n,
                            ) by {
                        if exists|j: int|
                            0 <= j < i + 1 && #[trigger] creates_squad_member(
                                events@,
                                roster@,
                                events@[j],
                                n,
                            ) {
                            let j = choose|j: int|
                                0 <= j < i + 1 && #[trigger] creates_squad_member(
                                    events@,
                                    roster@,
                                    events@[j],
                                    n,
                                );
                            if j == i {
                                assert(r@[r@.len() - 1]@ == n);
                            } else {
                                assert(name_in(old_r, n));
                                let k = choose|k: int| 0 <= k < old_r.len() && #[trigger] old_r[k]@ == n;
                                assert(r@[k]@ == n);
                            }
                        }
                        if name_in(r@, n) {
                            let k = choose|k: int| 0 <= k < r@.len() && #[trigger] r@[k]@ == n;
                            if k == old_r.len() {
                                assert(creates_squad_member(events@, roster@, events@[i as int], n));
                            } else {
                                assert(old_r[k]@ == n);
                                assert(name_in(old_r, n));
                            }
                        }
                    }
                }
            }
        }
        i = i + 1;
    }
    r
}

} // verus!

//! Kill attribution: squad kill counts re-derived from the telemetry.
use vstd::prelude::*;
use crate::event::{ActionType, Event};
use crate::squad::{name_in, contains_name};

verus! {

/// One participant's stat block as the match overview reports it.
/// Fractional quantities are held in hundredths.
#[derive(Clone, Debug)]
pub struct ParticipantStats {
    pub name: String,
    pub player_id: String,
    pub kills: usize,
    pub dbnos: i32,
    pub assists: i32,
    pub boosts: i32,
    pub damage_dealt_centi: i64,
    pub death_type: String,
    pub ride_distance_centi: i64,
    pub kill_place: i32,
    pub win_place: i32,
}

/// Whether `e` is a direct kill (attack id -1) finished by the player `n`.
pub open spec fn direct_kill_by(e: Event, n: Seq<char>) -> bool {
    e.action == ActionType::LogPlayerKillV2 && e.attack_id == Some(-1i32) && e.finisher is Some
        && e.finisher->0.name@ == n
}

/// The number of direct kills that `n` finished.
pub open spec fn kill_count(events: Seq<Event>, n: Seq<char>) -> nat
    decreases events.len(),
{
    if events.len() == 0 {
        0
    } else {
        kill_count(events.drop_last(), n) + if direct_kill_by(events.last(), n) {
            1nat
        } else {
            0nat
        }
    }
}

/// A stat block with its kills replaced by the direct kills of its player.
pub open spec fn recount(s: ParticipantStats, events: Seq<Event>) -> ParticipantStats {
    ParticipantStats { kills: kill_count(events, s.name@) as usize, ..s }
}

/// The stat blocks of squad members, in their order, each recounted.
pub open spec fn merged(
    stats: Seq<ParticipantStats>,
    squad: Seq<String>,
    events: Seq<Event>,
) -> Seq<ParticipantStats>
    decreases stats.len(),
{
    if stats.len() == 0 {
        Seq::empty()
    } else {
        let rest = merged(stats.drop_last(), squad, events);
        if name_in(squad, stats.last().name@) {
            rest.push(recount(stats.last(), events))
        } else {
            rest
        }
    }
}

proof fn lemma_kill_count_bound(events: Seq<Event>, n: Seq<char>)
    ensures
        kill_count(events, n) <= events.len(),
    decreases events.len(),
{
    if events.len() > 0 {
        lemma_kill_count_bound(events.drop_last(), n);
    }
}

/// Counts the direct kills that the player `n` finished.
pub fn count_direct_kills(events: &Vec<Event>, n: &String) -> (r: usize)
    ensures
        r == kill_count(events@, n@),
{
    let mut r: usize = 0;
    let mut i: usize = 0;
    while i < events.len()
        invariant
            i <= events@.len(),
            r == kill_count(events@.take(i as int), n@),
            r <= i,
        decreases events@.len() - i,
    {
        assert(events@.take(i as int + 1).drop_last() =~= events@.take(i as int));
        let e = &events[i];
        if e.action == ActionType::LogPlayerKillV2 && e.attack_id == Some(-1i32) {
            if let Some(f) = &e.finisher {
                if f.name == *n {
                    r = r + 1;
                }
            }
        }
        i = i + 1;
    }
    assert(events@.take(events@.len() as int) =~= events@);
    r
}

/// Copies a stat block, with `kills` in place of its kill count.
fn with_kills(s: &ParticipantStats, kills: usize) -> (r: ParticipantStats)
    ensures
        r == (ParticipantStats { kills, ..*s }),
{
    ParticipantStats {
        name: s.name.clone(),
        player_id: s.player_id.clone(),
        kills,
        dbnos: s.dbnos,
        assists: s.assists,
        boosts: s.boosts,
        damage_dealt_centi: s.damage_dealt_centi,
        death_type: s.death_type.clone(),
        ride_distance_centi: s.ride_distance_centi,
        kill_place: s.kill_place,
        win_place: s.win_place,
    }
}

/// Keeps the stat blocks of squad members, in order, and sets each one's kills
/// to the number of direct kills (attack id -1) that the player finished; the
/// reported kill counts are discarded.
pub fn merge_kills(stats: &Vec<ParticipantStats>, squad: &Vec<String>, events: &Vec<Event>) -> (r:
    Vec<ParticipantStats>)
    ensures
        r@ == merged(stats@, squad@, events@),
{
    let mut r: Vec<ParticipantStats> = Vec::new();
    let mut i: usize = 0;
    while i < stats.len()
        invariant
            i <= stats@.len(),
            r@ == merged(stats@.take(i as int), squad@, events@),
        decreases stats@.len() - i,
    {
        assert(stats@.take(i as int + 1).drop_last() =~= stats@.take(i as int));
        let s = &stats[i];
        if contains_name(squad, &s.name) {
            let k = count_direct_kills(events, &s.name);
            r.push(with_kills(s, k));
        }
        i = i + 1;
    }
    assert(stats@.take(stats@.len() as int) =~= stats@);
    r
}

/// The sum of the kills of the stat blocks.
pub open spec fn total_kills(ss: Seq<ParticipantStats>) -> int
    decreases ss.len(),
{
    if ss.len() == 0 {
        0
    } else {
        total_kills(ss.drop_last()) + ss.last().kills
    }
}

/// The names of the stat blocks are pairwise distinct.
pub open spec fn distinct_names(ss: Seq<ParticipantStats>) -> bool {
    forall|a: int, b: int|
        0 <= a < ss.len() && 0 <= b < ss.len() && a != b ==> #[trigger] ss[a].name@
            != #[trigger] ss[b].name@
}

/// Whether some stat block belongs to the player `n`.
pub open spec fn has_player(ss: Seq<ParticipantStats>, n: Seq<char>) -> bool {
    exists|k: int| 0 <= k < ss.len() && #[trigger] ss[k].name@ == n
}

/// Whether `e` is a direct kill finished by a player of `ss`.
pub open spec fn direct_kill_in(e: Event, ss: Seq<ParticipantStats>) -> bool {
    e.action == ActionType::LogPlayerKillV2 && e.attack_id == Some(-1i32) && e.finisher is Some
        && has_player(ss, e.finisher->0.name@)
}

/// The number of direct kills finished by players of `ss`.
pub open spec fn squad_kill_events(events: Seq<Event>, ss: Seq<ParticipantStats>) -> nat
    decreases events.len(),
{
    if events.len() == 0 {
        0
    } else {
        squad_kill_events(events.drop_last(), ss) + if direct_kill_in(events.last(), ss) {
            1nat
        } else {
            0nat
        }
    }
}

/// The sum over `ss` of each player's direct kills.
pub open spec fn sum_counts(ss: Seq<ParticipantStats>, events: Seq<Event>) -> int
    decreases ss.len(),
{
    if ss.len() == 0 {
        0
    } else {
        sum_counts(ss.drop_last(), events) + kill_count(events, ss.last().name@)
    }
}

/// How many players of `ss` finished `e` as a direct kill.
pub open spec fn hits(ss: Seq<ParticipantStats>, e: Event) -> int
    decreases ss.len(),
{
    if ss.len() == 0 {
        0
    } else {
        hits(ss.drop_last(), e) + if direct_kill_by(e, ss.last().name@) {
            1int
        } else {
            0int
        }
    }
}

proof fn lemma_hits(ss: Seq<ParticipantStats>, e: Event)
    requires
        distinct_names(ss),
    ensures
        hits(ss, e) == if direct_kill_in(e, ss) {
            1int
        } else {
            0int
        },
    decreases ss.len(),
{
    if ss.len() > 0 {
        let init = ss.drop_last();
        assert(distinct_names(init)) by {
            assert forall|a: int, b: int|
                0 <= a < init.len() && 0 <= b < init.len() && a != b implies #[trigger] init[a].name@
                    != #[trigger] init[b].name@ by {
                assert(init[a] == ss[a] && init[b] == ss[b]);
            }
        }
        lemma_hits(init, e);
        if direct_kill_in(e, ss) {
            let k = choose|k: int| 0 <= k < ss.len() && #[trigger] ss[k].name@ == e.finisher->0.name@;
            if k == ss.len() - 1 {
                assert(!direct_kill_in(e, init)) by {
                    if direct_kill_in(e, init) {
                        let k2 = choose|k2: int|
                            0 <= k2 < init.len() && #[trigger] init[k2].name@ == e.finisher->0.name@;
                        assert(ss[k2].name@ == ss[k].name@);
                    }
                }
            } else {
                assert(init[k].name@ == e.finisher->0.name@);
                assert(direct_kill_in(e, init));
                assert(ss[k].name@ != ss.last().name@);
            }
        } else {
            assert(!direct_kill_in(e, init)) by {
                if direct_kill_in(e, init) {
                    let k2 = choose|k2: int|
                        0 <= k2 < init.len() && #[trigger] init[k2].name@ == e.finisher->0.name@;
                    assert(ss[k2].name@ == e.finisher->0.name@);
                }
            }
            if direct_kill_by(e, ss.last().name@) {
                assert(ss[ss.len() - 1].name@ == e.finisher->0.name@);
            }
        }
    }
}

proof fn lemma_sum_counts_step(ss: Seq<ParticipantStats>, events: Seq<Event>)
    requires
        events.len() > 0,
    ensures
        sum_counts(ss, events) == sum_counts(ss, events.drop_last()) + hits(ss, events.last()),
    decreases ss.len(),
{
    if ss.len() > 0 {
        lemma_sum_counts_step(ss.drop_last(), events);
    }
}

proof fn lemma_sum_counts(ss: Seq<ParticipantStats>, events: Seq<Event>)
    requires
        distinct_names(ss),
    ensures
        sum_counts(ss, events) == squad_kill_events(events, ss),
    decreases events.len(),
{
    if events.len() == 0 {
        lemma_sum_counts_empty(ss, events);
    } else {
        lemma_sum_counts(ss, events.drop_last());
        lemma_sum_counts_step(ss, events);
        lemma_hits(ss, events.last());
    }
}

proof fn lemma_sum_counts_empty(ss: Seq<ParticipantStats>, events: Seq<Event>)
    requires
        events.len() == 0,
    ensures
        sum_counts(ss, events) == 0,
    decreases ss.len(),
{
    if ss.len() > 0 {
        lemma_sum_counts_empty(ss.drop_last(), events);
    }
}

proof fn lemma_merged_facts(stats: Seq<ParticipantStats>, squad: Seq<String>, events: Seq<Event>)
    requires
        distinct_names(stats),
        events.len() <= usize::MAX,
    ensures
        distinct_names(merged(stats, squad, events)),
        forall|k: int|
            0 <= k < merged(stats, squad, events).len() ==> has_player(
                stats,
                #[trigger] merged(stats, squad, events)[k].name@,
            ),
        total_kills(merged(stats, squad, events)) == sum_counts(merged(stats, squad, events), events),
    decreases stats.len(),
{
    if stats.len() > 0 {
        let init = stats.drop_last();
        assert(distinct_names(init)) by {
            assert forall|a: int, b: int|
                0 <= a < init.len() && 0 <= b < init.len() && a != b implies #[trigger] init[a].name@
                    != #[trigger] init[b].name@ by {
                assert(init[a] == stats[a] && init[b] == stats[b]);
            }
        }
        lemma_merged_facts(init, squad, events);
        let rest = merged(init, squad, events);
        assert forall|k: int| 0 <= k < rest.len() implies has_player(stats, #[trigger] rest[k].name@) by {
            assert(has_player(init, rest[k].name@));
            let j = choose|j: int| 0 <= j < init.len() && #[trigger] init[j].name@ == rest[k].name@;
            assert(stats[j].name@ == rest[k].name@);
        }
        if name_in(squad, stats.last().name@) {
            let x = recount(stats.last(), events);
            let m = rest.push(x);
            assert(m.drop_last() =~= rest);
            lemma_kill_count_bound(events, x.name@);
            assert(m.last() == x);
            assert(x.kills == kill_count(events, x.name@));
            assert forall|a: int, b: int|
                0 <= a < m.len() && 0 <= b < m.len() && a != b implies #[trigger] m[a].name@
                    != #[trigger] m[b].name@ by {
                if a == m.len() - 1 || b == m.len() - 1 {
                    let o = if a == m.len() - 1 { b } else { a };
                    assert(has_player(init, rest[o].name@));
                    let j = choose|j: int| 0 <= j < init.len() && #[trigger] init[j].name@ == rest[o].name@;
                    assert(stats[j].name@ != stats[stats.len() - 1].name@);
                } else {
                    assert(m[a] == rest[a] && m[b] == rest[b]);
                }
            }
            assert forall|k: int| 0 <= k < m.len() implies has_player(stats, #[trigger] m[k].name@) by {
                if k == m.len() - 1 {
                    assert(stats[stats.len() - 1].name@ == m[k].name@);
                } else {
                    assert(m[k] == rest[k]);
                }
            }
        }
    }
}

/// Merging the kills of a squad whose players are distinct gives a kill total
/// equal to the number of direct kills (attack id -1) that the squad's
/// players finished.
pub proof fn lemma_squad_kills_total(
    stats: Seq<ParticipantStats>,
    squad: Seq<String>,
    events: Seq<Event>,
)
    requires
        distinct_names(stats),
        events.len() <= usize::MAX,
    ensures
        total_kills(merged(stats, squad, events)) == squad_kill_events(
            events,
            merged(stats, squad, events),
        ),
{
    lemma_merged_facts(stats, squad, events);
    lemma_sum_counts(merged(stats, squad, events), events);
}

/// Merging the kills twice over the same telemetry gives what merging once gives.
pub proof fn lemma_merge_idempotent(
    stats: Seq<ParticipantStats>,
    squad: Seq<String>,
    events: Seq<Event>,
)
    ensures
        merged(merged(stats, squad, events), squad, events) == merged(stats, squad, events),
    decreases stats.len(),
{
    if stats.len() > 0 {
        lemma_merge_idempotent(stats.drop_last(), squad, events);
        let rest = merged(stats.drop_last(), squad, events);
        if name_in(squad, stats.last().name@) {
            let x = recount(stats.last(), events);
            assert(rest.push(x).drop_last() =~= rest);
            assert(recount(x, events) == x);
        }
    }
}

} // verus!

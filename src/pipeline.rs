//! One match from overview and telemetry to summary and combat log.
use vstd::prelude::*;
use crate::correlate::{Enrichment, Tables, enrich, enrichment_of, subject_indices, times_of};
use crate::event::Event;
use crate::history::{HISTORY_CAPACITY, HistoryStore, MatchSummary, has_id};
use crate::kills::{ParticipantStats, merge_kills, merged, recount};
use crate::squad::{full_squad, in_full_squad, name_in};
use crate::vocab::{
    armor_pairs, armors, attachment_pairs, attachments, class_pairs, damage_type_pairs, damage_types,
    default_bullet_speeds, hit_location_pairs, hit_locations, map_names, map_pairs, name_pairs, pairs,
    speed_pairs, translate, translated, weapon_classes, weapon_pairs, weapons,
};

verus! {

/// The names of the players whose matches are followed.
pub open spec fn roster_names() -> Seq<Seq<char>> {
    seq!["E1_Duderino"@, "keken_viikset"@, "HlGHLANDER"@, "bold_moves_bob"@]
}

/// The players whose matches are followed.
pub fn roster_players() -> (r: Vec<String>)
    ensures
        views(r@) == roster_names(),
{
    let r = vec![
        String::from_str("E1_Duderino"),
        String::from_str("keken_viikset"),
        String::from_str("HlGHLANDER"),
        String::from_str("bold_moves_bob"),
    ];
    assert(views(r@) =~= roster_names());
    r
}

/// The separator of ids in a request's filter: an encoded comma.
pub open spec fn id_separator() -> Seq<char> {
    "%2C"@
}

/// The ids joined by the separator.
pub open spec fn joined(ids: Seq<Seq<char>>) -> Seq<char>
    decreases ids.len(),
{
    if ids.len() == 0 {
        Seq::empty()
    } else if ids.len() == 1 {
        ids[0]
    } else {
        joined(ids.drop_last()) + id_separator() + ids.last()
    }
}

pub open spec fn views(ids: Seq<String>) -> Seq<Seq<char>> {
    Seq::new(ids.len(), |k: int| ids[k]@)
}

/// Joins the ids with encoded commas, for a request's filter.
pub fn combine_user_ids(player_ids: Vec<String>) -> (r: String)
    ensures
        r@ == joined(views(player_ids@)),
{
    let mut r = String::new();
    let mut i: usize = 0;
    while i < player_ids.len()
        invariant
            i <= player_ids@.len(),
            r@ == joined(views(player_ids@).take(i as int)),
        decreases player_ids@.len() - i,
    {
        let ghost before = views(player_ids@).take(i as int);
        assert(views(player_ids@).take(i as int + 1).drop_last() =~= before);
        if i > 0 {
            r.append("%2C");
        }
        r.append(player_ids[i].as_str());
        proof {
            reveal_strlit("%2C");
            if i == 0 {
                assert(r@ =~= joined(views(player_ids@).take(1)));
            }
        }
        i = i + 1;
    }
    assert(views(player_ids@).take(player_ids@.len() as int) =~= views(player_ids@));
    r
}

/// The roster's names joined with encoded commas.
pub fn player_id_merge() -> (r: String)
    ensures
        r@ == joined(roster_names()),
{
    let names = roster_players();
    combine_user_ids(names)
}

/// The address of the request for the roster's player records.
pub open spec fn players_url_prefix() -> Seq<char> {
    "https://api.pubg.com/shards/steam/players?filter[playerNames]="@
}

/// The request address for the roster's player records.
pub fn make_player_id_url() -> (r: String)
    ensures
        r@ == players_url_prefix() + joined(roster_names()),
{
    let mut url = String::from_str("https://api.pubg.com/shards/steam/players?filter[playerNames]=");
    let ids = player_id_merge();
    url.append(ids.as_str());
    url
}

impl Tables {
    /// The standard lookup tables.
    pub fn standard() -> (r: Tables)
        ensures
            name_pairs(r.weapons@) == weapon_pairs(),
            name_pairs(r.damage_types@) == damage_type_pairs(),
            name_pairs(r.attachments@) == attachment_pairs(),
            name_pairs(r.armors@) == armor_pairs(),
            name_pairs(r.hit_locations@) == hit_location_pairs(),
            name_pairs(r.maps@) == map_pairs(),
            pairs(r.classes@) == class_pairs(),
            pairs(r.default_speeds@) == speed_pairs(),
    {
        Tables {
            weapons: weapons(),
            damage_types: damage_types(),
            attachments: attachments(),
            armors: armors(),
            hit_locations: hit_locations(),
            maps: map_names(),
            classes: weapon_classes(),
            default_speeds: default_bullet_speeds(),
        }
    }
}

/// What the match overview reports that the summary needs.
#[derive(Clone, Debug)]
pub struct MatchOverview {
    pub id: String,
    pub created_at: String,
    pub game_mode: String,
    pub map_code: String,
    pub participants: Vec<ParticipantStats>,
}

/// The result of processing a new match.
#[derive(Clone, Debug)]
pub struct ProcessedMatch {
    /// The enriched combat log of the roster.
    pub log: Vec<Enrichment>,
    /// The id of the summary that left the history, whose cached entries are stale.
    pub evicted: Option<String>,
}

/// The stat blocks of the full squad, in order, each recounted.
pub open spec fn squad_stats(
    stats: Seq<ParticipantStats>,
    events: Seq<Event>,
    roster: Seq<String>,
) -> Seq<ParticipantStats>
    decreases stats.len(),
{
    if stats.len() == 0 {
        Seq::empty()
    } else {
        let rest = squad_stats(stats.drop_last(), events, roster);
        if in_full_squad(events, roster, stats.last().name@) {
            rest.push(recount(stats.last(), events))
        } else {
            rest
        }
    }
}

proof fn lemma_merged_squad(
    stats: Seq<ParticipantStats>,
    squad: Seq<String>,
    events: Seq<Event>,
    roster: Seq<String>,
)
    requires
        forall|n: Seq<char>| name_in(squad, n) <==> in_full_squad(events, roster, n),
    ensures
        merged(stats, squad, events) == squad_stats(stats, events, roster),
    decreases stats.len(),
{
    if stats.len() > 0 {
        lemma_merged_squad(stats.drop_last(), squad, events, roster);
    }
}

/// Whether `s` is the summary of the match: its overview with the map's
/// readable name and the full squad's recounted stat blocks.
pub open spec fn is_summary_of(
    s: MatchSummary,
    overview: MatchOverview,
    events: Seq<Event>,
    roster: Seq<String>,
    tables: Tables,
) -> bool {
    &&& s.id == overview.id
    &&& s.date == overview.created_at
    &&& s.game_mode == overview.game_mode
    &&& s.map_name@ == translated(tables.maps@, overview.map_code@)
    &&& s.squad@ == squad_stats(overview.participants@, events, roster)
}

/// Builds the summary of a match.
pub fn summarize(
    overview: &MatchOverview,
    events: &Vec<Event>,
    roster: &Vec<String>,
    tables: &Tables,
) -> (r: MatchSummary)
    ensures
        is_summary_of(r, *overview, events@, roster@, *tables),
{
    let squad = full_squad(events, roster);
    let stats = merge_kills(&overview.participants, &squad, events);
    proof {
        lemma_merged_squad(overview.participants@, squad@, events@, roster@);
    }
    MatchSummary {
        id: overview.id.clone(),
        date: overview.created_at.clone(),
        game_mode: overview.game_mode.clone(),
        map_name: translate(&tables.maps, &overview.map_code),
        squad: stats,
    }
}

/// Processes one match: a match whose id the history already holds is left
/// alone and gives `None`; a new one has its summary appended to the history
/// and gives its enriched combat log, with the id of any summary evicted.
pub fn process_match(
    store: &mut HistoryStore,
    overview: &MatchOverview,
    events: &Vec<Event>,
    roster: &Vec<String>,
    tables: &Tables,
) -> (r: Option<ProcessedMatch>)
    requires
        old(store).wf(),
    ensures
        final(store).wf(),
        has_id(old(store)@, overview.id@) ==> r is None && final(store)@ == old(store)@,
        !has_id(old(store)@, overview.id@) ==> {
            &&& r is Some
            &&& final(store)@.len() > 0
            &&& is_summary_of(final(store)@.last(), *overview, events@, roster@, *tables)
            &&& old(store)@.len() < HISTORY_CAPACITY ==> final(store)@.drop_last() == old(store)@
                && r->0.evicted is None
            &&& old(store)@.len() >= HISTORY_CAPACITY ==> final(store)@.drop_last()
                == old(store)@.drop_first() && r->0.evicted == Some(old(store)@[0].id)
            &&& r->0.log@.len() == subject_indices(events@, roster@, events@.len() as int).len()
            &&& forall|k: int|
                0 <= k < r->0.log@.len() ==> #[trigger] r->0.log@[k].index as int
                    == subject_indices(events@, roster@, events@.len() as int)[k]
            &&& forall|k: int|
                0 <= k < r->0.log@.len() ==> enrichment_of(
                    #[trigger] r->0.log@[k],
                    events@,
                    times_of(events@),
                    *tables,
                    r->0.log@[k].index as int,
                )
        },
{
    if store.contains(&overview.id) {
        return None;
    }
    let summary = summarize(overview, events, roster, tables);
    let ghost h = store@;
    let ghost s = summary;
    let outcome = store.append_if_new(summary);
    assert(!has_id(h, s.id@));
    assert(store@.drop_last() =~= if h.len() < HISTORY_CAPACITY { h } else { h.drop_first() });
    let evicted = match outcome {
        crate::history::AppendOutcome::Appended { evicted } => evicted,
        crate::history::AppendOutcome::Duplicate => None,
    };
    let log = enrich(events, roster, tables);
    Some(ProcessedMatch { log, evicted })
}

/// The match ids of each player record, in order, as one list.
pub open spec fn flattened(ids: Seq<Vec<String>>) -> Seq<String>
    decreases ids.len(),
{
    if ids.len() == 0 {
        Seq::empty()
    } else {
        flattened(ids.drop_last()) + ids.last()@
    }
}

/// Gathers the match ids of all player records into one list, in order.
pub fn collect_match_ids(per_player: &Vec<Vec<String>>) -> (r: Vec<String>)
    ensures
        r@ == flattened(per_player@),
{
    let mut r: Vec<String> = Vec::new();
    let mut i: usize = 0;
    while i < per_player.len()
        invariant
            i <= per_player@.len(),
            r@ == flattened(per_player@.take(i as int)),
        decreases per_player@.len() - i,
    {
        assert(per_player@.take(i as int + 1).drop_last() =~= per_player@.take(i as int));
        let ids = &per_player[i];
        let ghost before = r@;
        let mut j: usize = 0;
        while j < ids.len()
            invariant
                j <= ids@.len(),
                r@ == before + ids@.take(j as int),
            decreases ids@.len() - j,
        {
            r.push(ids[j].clone());
            assert(r@ =~= before + ids@.take(j as int + 1));
            j = j + 1;
        }
        assert(ids@.take(ids@.len() as int) =~= ids@);
        i = i + 1;
    }
    assert(per_player@.take(per_player@.len() as int) =~= per_player@);
    r
}

} // verus!

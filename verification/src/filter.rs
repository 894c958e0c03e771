//! The meaning of the optional filters.
//!
//! Each list operation narrows its table by the conjunction of its present
//! filters and by nothing else.  The spec functions here say which rows pass;
//! the executable functions select exactly those rows, and the lemmas state
//! the laws the selection obeys: absent filters keep everything, present
//! filters conjoin, and a matching row is kept exactly as often as it occurs
//! — in particular the two-sided team-participation filter never duplicates
//! a game.

use vstd::prelude::*;

use crate::records::{Game, TeamGameStat, TeamSeasonStat};

verus! {

/// The text of an optional filter argument, if present.
pub open spec fn spec_opt_text_view(o: Option<String>) -> Option<Seq<char>> {
    match o {
        Some(s) => Some(s@),
        None => None,
    }
}

/// Whether a game satisfies the conjunction of the optional season filter
/// and the optional team-participation filter (the team appears as home or
/// as away).
pub open spec fn spec_game_matches(g: Game, season: Option<i32>, team_uid: Option<Seq<char>>) -> bool {
    (match season {
        Some(s) => g.season == s,
        None => true,
    }) && (match team_uid {
        Some(t) => (g.home_team_uid matches Some(h) && h@ == t) || (g.away_team_uid matches Some(a)
            && a@ == t),
        None => true,
    })
}

/// Whether a season statistic satisfies the conjunction of the optional
/// season and team filters.
pub open spec fn spec_season_stat_matches(
    s: TeamSeasonStat,
    season: Option<i32>,
    team_uid: Option<Seq<char>>,
) -> bool {
    (match season {
        Some(v) => s.season == v,
        None => true,
    }) && (match team_uid {
        Some(t) => s.team_uid@ == t,
        None => true,
    })
}

/// Whether a game statistic satisfies the conjunction of the optional game
/// and team filters.
pub open spec fn spec_game_stat_matches(
    s: TeamGameStat,
    game_uid: Option<Seq<char>>,
    team_uid: Option<Seq<char>>,
) -> bool {
    (match game_uid {
        Some(gu) => s.game_uid@ == gu,
        None => true,
    }) && (match team_uid {
        Some(t) => s.team_uid@ == t,
        None => true,
    })
}

/// The games that pass the filters, in table order.
pub open spec fn spec_matching_games(
    games: Seq<Game>,
    season: Option<i32>,
    team_uid: Option<Seq<char>>,
) -> Seq<Game>
    decreases games.len(),
{
    if games.len() == 0 {
        Seq::<Game>::empty()
    } else {
        let rest = spec_matching_games(games.drop_last(), season, team_uid);
        if spec_game_matches(games.last(), season, team_uid) {
            rest.push(games.last())
        } else {
            rest
        }
    }
}

/// The season statistics that pass the filters, in table order.
pub open spec fn spec_matching_season_stats(
    stats: Seq<TeamSeasonStat>,
    season: Option<i32>,
    team_uid: Option<Seq<char>>,
) -> Seq<TeamSeasonStat>
    decreases stats.len(),
{
    if stats.len() == 0 {
        Seq::<TeamSeasonStat>::empty()
    } else {
        let rest = spec_matching_season_stats(stats.drop_last(), season, team_uid);
        if spec_season_stat_matches(stats.last(), season, team_uid) {
            rest.push(stats.last())
        } else {
            rest
        }
    }
}

/// The game statistics that pass the filters, in table order.
pub open spec fn spec_matching_game_stats(
    stats: Seq<TeamGameStat>,
    game_uid: Option<Seq<char>>,
    team_uid: Option<Seq<char>>,
) -> Seq<TeamGameStat>
    decreases stats.len(),
{
    if stats.len() == 0 {
        Seq::<TeamGameStat>::empty()
    } else {
        let rest = spec_matching_game_stats(stats.drop_last(), game_uid, team_uid);
        if spec_game_stat_matches(stats.last(), game_uid, team_uid) {
            rest.push(stats.last())
        } else {
            rest
        }
    }
}

/// Decides [`spec_game_matches`].
pub fn game_passes(g: &Game, season: &Option<i32>, team_uid: &Option<String>) -> (r: bool)
    ensures
        r == spec_game_matches(*g, *season, spec_opt_text_view(*team_uid)),
{
    let season_ok = match season {
        Some(s) => g.season == *s,
        None => true,
    };
    let team_ok = match team_uid {
        Some(t) => {
            let home = match &g.home_team_uid {
                Some(h) => h.eq(t),
                None => false,
            };
            let away = match &g.away_team_uid {
                Some(a) => a.eq(t),
                None => false,
            };
            home || away
        },
        None => true,
    };
    season_ok && team_ok
}

/// Decides [`spec_season_stat_matches`].
pub fn season_stat_passes(s: &TeamSeasonStat, season: &Option<i32>, team_uid: &Option<String>) -> (r:
    bool)
    ensures
        r == spec_season_stat_matches(*s, *season, spec_opt_text_view(*team_uid)),
{
    let season_ok = match season {
        Some(v) => s.season == *v,
        None => true,
    };
    let team_ok = match team_uid {
        Some(t) => s.team_uid.eq(t),
        None => true,
    };
    season_ok && team_ok
}

/// Decides [`spec_game_stat_matches`].
pub fn game_stat_passes(s: &TeamGameStat, game_uid: &Option<String>, team_uid: &Option<String>) -> (r:
    bool)
    ensures
        r == spec_game_stat_matches(*s, spec_opt_text_view(*game_uid), spec_opt_text_view(*team_uid)),
{
    let game_ok = match game_uid {
        Some(gu) => s.game_uid.eq(gu),
        None => true,
    };
    let team_ok = match team_uid {
        Some(t) => s.team_uid.eq(t),
        None => true,
    };
    game_ok && team_ok
}

/// Keeps exactly the games that pass the filters, in order.
pub fn filter_games(games: Vec<Game>, season: &Option<i32>, team_uid: &Option<String>) -> (r: Vec<
    Game,
>)
    ensures
        r@ == spec_matching_games(games@, *season, spec_opt_text_view(*team_uid)),
        forall|i: int|
            0 <= i < r@.len() ==> #[trigger] spec_game_matches(
                r@[i],
                *season,
                spec_opt_text_view(*team_uid),
            ),
{
    let ghost t = spec_opt_text_view(*team_uid);
    let mut out: Vec<Game> = Vec::new();
    let mut i: usize = 0;
    while i < games.len()
        invariant
            t == spec_opt_text_view(*team_uid),
            0 <= i <= games.len(),
            out@ == spec_matching_games(games@.take(i as int), *season, t),
            forall|j: int| 0 <= j < out@.len() ==> #[trigger] spec_game_matches(out@[j], *season, t),
        decreases games.len() - i,
    {
        proof {
            assert(games@.take(i + 1).drop_last() =~= games@.take(i as int));
            assert(games@.take(i + 1).last() == games@[i as int]);
            assert(spec_matching_games(games@.take(i + 1), *season, t) == (if spec_game_matches(games@[i as int], *season, t) {
                spec_matching_games(games@.take(i as int), *season, t).push(games@[i as int])
            } else {
                spec_matching_games(games@.take(i as int), *season, t)
            }));
        }
        if game_passes(&games[i], season, team_uid) {
            out.push(games[i].clone());
        }
        i = i + 1;
    }
    proof {
        assert(games@.take(games@.len() as int) =~= games@);
    }
    out
}

/// Keeps exactly the season statistics that pass the filters, in order.
pub fn filter_season_stats(
    stats: Vec<TeamSeasonStat>,
    season: &Option<i32>,
    team_uid: &Option<String>,
) -> (r: Vec<TeamSeasonStat>)
    ensures
        r@ == spec_matching_season_stats(stats@, *season, spec_opt_text_view(*team_uid)),
        forall|i: int|
            0 <= i < r@.len() ==> #[trigger] spec_season_stat_matches(
                r@[i],
                *season,
                spec_opt_text_view(*team_uid),
            ),
{
    let ghost t = spec_opt_text_view(*team_uid);
    let mut out: Vec<TeamSeasonStat> = Vec::new();
    let mut i: usize = 0;
    while i < stats.len()
        invariant
            t == spec_opt_text_view(*team_uid),
            0 <= i <= stats.len(),
            out@ == spec_matching_season_stats(stats@.take(i as int), *season, t),
            forall|j: int|
                0 <= j < out@.len() ==> #[trigger] spec_season_stat_matches(out@[j], *season, t),
        decreases stats.len() - i,
    {
        proof {
            assert(stats@.take(i + 1).drop_last() =~= stats@.take(i as int));
            assert(stats@.take(i + 1).last() == stats@[i as int]);
            assert(spec_matching_season_stats(stats@.take(i + 1), *season, t) == (if spec_season_stat_matches(stats@[i as int], *season, t) {
                spec_matching_season_stats(stats@.take(i as int), *season, t).push(stats@[i as int])
            } else {
                spec_matching_season_stats(stats@.take(i as int), *season, t)
            }));
        }
        if season_stat_passes(&stats[i], season, team_uid) {
            out.push(stats[i].clone());
        }
        i = i + 1;
    }
    proof {
        assert(stats@.take(stats@.len() as int) =~= stats@);
    }
    out
}

/// Keeps exactly the game statistics that pass the filters, in order.
pub fn filter_game_stats(
    stats: Vec<TeamGameStat>,
    game_uid: &Option<String>,
    team_uid: &Option<String>,
) -> (r: Vec<TeamGameStat>)
    ensures
        r@ == spec_matching_game_stats(
            stats@,
            spec_opt_text_view(*game_uid),
            spec_opt_text_view(*team_uid),
        ),
        forall|i: int|
            0 <= i < r@.len() ==> #[trigger] spec_game_stat_matches(
                r@[i],
                spec_opt_text_view(*game_uid),
                spec_opt_text_view(*team_uid),
            ),
{
    let ghost gu = spec_opt_text_view(*game_uid);
    let ghost t = spec_opt_text_view(*team_uid);
    let mut out: Vec<TeamGameStat> = Vec::new();
    let mut i: usize = 0;
    while i < stats.len()
        invariant
            gu == spec_opt_text_view(*game_uid),
            t == spec_opt_text_view(*team_uid),
            0 <= i <= stats.len(),
            out@ == spec_matching_game_stats(stats@.take(i as int), gu, t),
            forall|j: int|
                0 <= j < out@.len() ==> #[trigger] spec_game_stat_matches(out@[j], gu, t),
        decreases stats.len() - i,
    {
        proof {
            assert(stats@.take(i + 1).drop_last() =~= stats@.take(i as int));
            assert(stats@.take(i + 1).last() == stats@[i as int]);
            assert(spec_matching_game_stats(stats@.take(i + 1), gu, t) == (if spec_game_stat_matches(stats@[i as int], gu, t) {
                spec_matching_game_stats(stats@.take(i as int), gu, t).push(stats@[i as int])
            } else {
                spec_matching_game_stats(stats@.take(i as int), gu, t)
            }));
        }
        if game_stat_passes(&stats[i], game_uid, team_uid) {
            out.push(stats[i].clone());
        }
        i = i + 1;
    }
    proof {
        assert(stats@.take(stats@.len() as int) =~= stats@);
    }
    out
}

/// Absent filters narrow nothing: with neither filter given, every game of
/// the table is kept, unchanged and in order.
pub proof fn lemma_absent_filters_keep_all(games: Seq<Game>)
    ensures
        spec_matching_games(games, None, None) == games,
    decreases games.len(),
{
    if games.len() == 0 {
        assert(spec_matching_games(games, None, None) =~= games);
    } else {
        lemma_absent_filters_keep_all(games.drop_last());
        assert(spec_matching_games(games, None, None) =~= games);
    }
}

/// The two game filters conjoin: a game passes both present filters exactly
/// when it passes each of them alone.
pub proof fn lemma_game_filters_conjoin(g: Game, season: i32, team_uid: Seq<char>)
    ensures
        spec_game_matches(g, Some(season), Some(team_uid)) <==> (spec_game_matches(
            g,
            Some(season),
            None,
        ) && spec_game_matches(g, None, Some(team_uid))),
{
}

/// A game that passes the filters is kept exactly as often as it occurs in
/// the table, and one that fails them is not kept at all.  In particular a
/// game whose home and away sides both equal the team filter still counts
/// once per table row: the two-sided participation filter never duplicates.
pub proof fn lemma_matching_games_count(
    games: Seq<Game>,
    season: Option<i32>,
    team_uid: Option<Seq<char>>,
    g: Game,
)
    ensures
        spec_matching_games(games, season, team_uid).to_multiset().count(g) == if spec_game_matches(
            g,
            season,
            team_uid,
        ) {
            games.to_multiset().count(g)
        } else {
            0
        },
    decreases games.len(),
{
    broadcast use vstd::seq_lib::group_to_multiset_ensures;
    broadcast use vstd::multiset::group_multiset_axioms;
    broadcast use vstd::multiset::group_multiset_properties;

    if games.len() == 0 {
        assert(!games.contains(g));
        assert(!spec_matching_games(games, season, team_uid).contains(g));
    } else {
        let d = games.drop_last();
        let l = games.last();
        lemma_matching_games_count(d, season, team_uid, g);
        assert(games =~= d.push(l));
        assert(d.push(l).to_multiset() =~= d.to_multiset().insert(l));
        let rest = spec_matching_games(d, season, team_uid);
        if spec_game_matches(l, season, team_uid) {
            assert(spec_matching_games(games, season, team_uid) == rest.push(l));
            assert(rest.push(l).to_multiset() =~= rest.to_multiset().insert(l));
        }
    }
}

} // verus!

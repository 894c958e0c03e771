//! Decoding of result rows into typed records.
//!
//! A column either holds a value of its declared kind, or — where the data
//! model declares it optional — a null; anything else is a decode failure.
//! A row decodes as a whole or not at all, and a result set decodes as a
//! whole or not at all: one bad row discards the entire result.

use vstd::prelude::*;

use crate::records::{Game, Team, TeamGameStat, TeamSeasonStat};
use crate::sqlval::SqlValue;

verus! {

/// A required text column: text or nothing.
pub open spec fn spec_req_text(v: SqlValue) -> Option<String> {
    match v {
        SqlValue::Text(s) => Some(s),
        _ => None,
    }
}

/// An optional text column: null decodes to an absent field.
pub open spec fn spec_opt_text(v: SqlValue) -> Option<Option<String>> {
    match v {
        SqlValue::Null => Some(None),
        SqlValue::Text(s) => Some(Some(s)),
        _ => None,
    }
}

/// A required integer column, narrowed to `i32`; out-of-range integers fail.
pub open spec fn spec_req_i32(v: SqlValue) -> Option<i32> {
    match v {
        SqlValue::Int(i) => if i32::MIN <= i && i <= i32::MAX {
            Some(i as i32)
        } else {
            None
        },
        _ => None,
    }
}

/// An optional integer column, narrowed to `i32`.
pub open spec fn spec_opt_i32(v: SqlValue) -> Option<Option<i32>> {
    match v {
        SqlValue::Null => Some(None),
        SqlValue::Int(i) => if i32::MIN <= i && i <= i32::MAX {
            Some(Some(i as i32))
        } else {
            None
        },
        _ => None,
    }
}

/// An optional real column, carried as the stored value's raw bits.
pub open spec fn spec_opt_real(v: SqlValue) -> Option<Option<u64>> {
    match v {
        SqlValue::Null => Some(None),
        SqlValue::Real(b) => Some(Some(b)),
        _ => None,
    }
}

fn req_text(v: &SqlValue) -> (r: Option<String>)
    ensures
        r == spec_req_text(*v),
{
    match v {
        SqlValue::Text(s) => Some(s.clone()),
        _ => None,
    }
}

fn opt_text(v: &SqlValue) -> (r: Option<Option<String>>)
    ensures
        r == spec_opt_text(*v),
{
    match v {
        SqlValue::Null => Some(None),
        SqlValue::Text(s) => Some(Some(s.clone())),
        _ => None,
    }
}

fn req_i32(v: &SqlValue) -> (r: Option<i32>)
    ensures
        r == spec_req_i32(*v),
{
    match v {
        SqlValue::Int(i) => if i32::MIN as i64 <= *i && *i <= i32::MAX as i64 {
            Some(*i as i32)
        } else {
            None
        },
        _ => None,
    }
}

fn opt_i32(v: &SqlValue) -> (r: Option<Option<i32>>)
    ensures
        r == spec_opt_i32(*v),
{
    match v {
        SqlValue::Null => Some(None),
        SqlValue::Int(i) => if i32::MIN as i64 <= *i && *i <= i32::MAX as i64 {
            Some(Some(*i as i32))
        } else {
            None
        },
        _ => None,
    }
}

fn opt_real(v: &SqlValue) -> (r: Option<Option<u64>>)
    ensures
        r == spec_opt_real(*v),
{
    match v {
        SqlValue::Null => Some(None),
        SqlValue::Real(b) => Some(Some(*b)),
        _ => None,
    }
}

/// How a `teams` row decodes, column by column in projection order.
pub open spec fn spec_team_of_row(row: Seq<SqlValue>) -> Option<Team> {
    if row.len() != 8 {
        None
    } else {
        match (spec_req_text(row[0]), spec_opt_text(row[1]), spec_req_text(row[2]), spec_opt_text(
            row[3],
        ), spec_opt_text(row[4]), spec_opt_i32(row[5]), spec_opt_text(row[6]), spec_opt_text(
            row[7],
        )) {
            (
                Some(team_uid),
                Some(city),
                Some(name),
                Some(abbreviation),
                Some(stadium_name),
                Some(stadium_capacity),
                Some(conference),
                Some(division),
            ) => Some(
                Team {
                    team_uid,
                    city,
                    name,
                    abbreviation,
                    stadium_name,
                    stadium_capacity,
                    conference,
                    division,
                },
            ),
            _ => None,
        }
    }
}

/// Decodes one `teams` row, exactly as [`spec_team_of_row`] says.
pub fn team_of_row(row: &Vec<SqlValue>) -> (r: Option<Team>)
    ensures
        r == spec_team_of_row(row@),
{
    if row.len() != 8 {
        return None;
    }
    let team_uid = match req_text(&row[0]) {
        Some(x) => x,
        None => {
            return None;
        },
    };
    let city = match opt_text(&row[1]) {
        Some(x) => x,
        None => {
            return None;
        },
    };
    let name = match req_text(&row[2]) {
        Some(x) => x,
        None => {
            return None;
        },
    };
    let abbreviation = match opt_text(&row[3]) {
        Some(x) => x,
        None => {
            return None;
        },
    };
    let stadium_name = match opt_text(&row[4]) {
        Some(x) => x,
        None => {
            return None;
        },
    };
    let stadium_capacity = match opt_i32(&row[5]) {
        Some(x) => x,
        None => {
            return None;
        },
    };
    let conference = match opt_text(&row[6]) {
        Some(x) => x,
        None => {
            return None;
        },
    };
    let division = match opt_text(&row[7]) {
        Some(x) => x,
        None => {
            return None;
        },
    };
    Some(
        Team {
            team_uid,
            city,
            name,
            abbreviation,
            stadium_name,
            stadium_capacity,
            conference,
            division,
        },
    )
}

/// How a `games` row decodes, column by column in projection order.
pub open spec fn spec_game_of_row(row: Seq<SqlValue>) -> Option<Game> {
    if row.len() != 14 {
        None
    } else {
        match (spec_req_text(row[0]), spec_req_i32(row[1]), spec_opt_real(row[2]), spec_opt_text(
            row[3],
        ), spec_opt_text(row[4]), spec_opt_text(row[5]), spec_opt_text(row[6]), spec_opt_text(
            row[7],
        ), spec_opt_i32(row[8]), spec_opt_i32(row[9]), spec_opt_i32(row[10]), spec_opt_real(
            row[11],
        ), spec_opt_text(row[12]), spec_opt_i32(row[13])) {
            (
                Some(game_uid),
                Some(season),
                Some(week),
                Some(game_type),
                Some(home_team_uid),
                Some(away_team_uid),
                Some(game_datetime),
                Some(venue),
                Some(home_score),
                Some(away_score),
                Some(overtime),
                Some(weather_temp),
                Some(weather_condition),
                Some(attendance),
            ) => Some(
                Game {
                    game_uid,
                    season,
                    week,
                    game_type,
                    home_team_uid,
                    away_team_uid,
                    game_datetime,
                    venue,
                    home_score,
                    away_score,
                    overtime,
                    weather_temp,
                    weather_condition,
                    attendance,
                },
            ),
            _ => None,
        }
    }
}

/// Decodes one `games` row, exactly as [`spec_game_of_row`] says.
pub fn game_of_row(row: &Vec<SqlValue>) -> (r: Option<Game>)
    ensures
        r == spec_game_of_row(row@),
{
    if row.len() != 14 {
        return None;
    }
    let game_uid = match req_text(&row[0]) {
        Some(x) => x,
        None => {
            return None;
        },
    };
    let season = match req_i32(&row[1]) {
        Some(x) => x,
        None => {
            return None;
        },
    };
    let week = match opt_real(&row[2]) {
        Some(x) => x,
        None => {
            return None;
        },
    };
    let game_type = match opt_text(&row[3]) {
        Some(x) => x,
        None => {
            return None;
        },
    };
    let home_team_uid = match opt_text(&row[4]) {
        Some(x) => x,
        None => {
            return None;
        },
    };
    let away_team_uid = match opt_text(&row[5]) {
        Some(x) => x,
        None => {
            return None;
        },
    };
    let game_datetime = match opt_text(&row[6]) {
        Some(x) => x,
        None => {
            return None;
        },
    };
    let venue = match opt_text(&row[7]) {
        Some(x) => x,
        None => {
            return None;
        },
    };
    let home_score = match opt_i32(&row[8]) {
        Some(x) => x,
        None => {
            return None;
        },
    };
    let away_score = match opt_i32(&row[9]) {
        Some(x) => x,
        None => {
            return None;
        },
    };
    let overtime = match opt_i32(&row[10]) {
        Some(x) => x,
        None => {
            return None;
        },
    };
    let weather_temp = match opt_real(&row[11]) {
        Some(x) => x,
        None => {
            return None;
        },
    };
    let weather_condition = match opt_text(&row[12]) {
        Some(x) => x,
        None => {
            return None;
        },
    };
    let attendance = match opt_i32(&row[13]) {
        Some(x) => x,
        None => {
            return None;
        },
    };
    Some(
        Game {
            game_uid,
            season,
            week,
            game_type,
            home_team_uid,
            away_team_uid,
            game_datetime,
            venue,
            home_score,
            away_score,
            overtime,
            weather_temp,
            weather_condition,
            attendance,
        },
    )
}

/// How a `team_game_stats` row decodes, column by column in projection order.
pub open spec fn spec_team_game_stat_of_row(row: Seq<SqlValue>) -> Option<TeamGameStat> {
    if row.len() != 10 {
        None
    } else {
        match (spec_req_text(row[0]), spec_req_text(row[1]), spec_req_text(row[2]), spec_opt_i32(
            row[3],
        ), spec_opt_i32(row[4]), spec_opt_i32(row[5]), spec_opt_i32(row[6]), spec_opt_i32(
            row[7],
        ), spec_opt_i32(row[8]), spec_opt_i32(row[9])) {
            (
                Some(stat_uid),
                Some(game_uid),
                Some(team_uid),
                Some(is_home_team),
                Some(total_yards),
                Some(passing_yards),
                Some(rushing_yards),
                Some(first_downs),
                Some(turnovers),
                Some(penalties),
            ) => Some(
                TeamGameStat {
                    stat_uid,
                    game_uid,
                    team_uid,
                    is_home_team,
                    total_yards,
                    passing_yards,
                    rushing_yards,
                    first_downs,
                    turnovers,
                    penalties,
                },
            ),
            _ => None,
        }
    }
}

/// Decodes one `team_game_stats` row, exactly as
/// [`spec_team_game_stat_of_row`] says.
pub fn team_game_stat_of_row(row: &Vec<SqlValue>) -> (r: Option<TeamGameStat>)
    ensures
        r == spec_team_game_stat_of_row(row@),
{
    if row.len() != 10 {
        return None;
    }
    let stat_uid = match req_text(&row[0]) {
        Some(x) => x,
        None => {
            return None;
        },
    };
    let game_uid = match req_text(&row[1]) {
        Some(x) => x,
        None => {
            return None;
        },
    };
    let team_uid = match req_text(&row[2]) {
        Some(x) => x,
        None => {
            return None;
        },
    };
    let is_home_team = match opt_i32(&row[3]) {
        Some(x) => x,
        None => {
            return None;
        },
    };
    let total_yards = match opt_i32(&row[4]) {
        Some(x) => x,
        None => {
            return None;
        },
    };
    let passing_yards = match opt_i32(&row[5]) {
        Some(x) => x,
        None => {
            return None;
        },
    };
    let rushing_yards = match opt_i32(&row[6]) {
        Some(x) => x,
        None => {
            return None;
        },
    };
    let first_downs = match opt_i32(&row[7]) {
        Some(x) => x,
        None => {
            return None;
        },
    };
    let turnovers = match opt_i32(&row[8]) {
        Some(x) => x,
        None => {
            return None;
        },
    };
    let penalties = match opt_i32(&row[9]) {
        Some(x) => x,
        None => {
            return None;
        },
    };
    Some(
        TeamGameStat {
            stat_uid,
            game_uid,
            team_uid,
            is_home_team,
            total_yards,
            passing_yards,
            rushing_yards,
            first_downs,
            turnovers,
            penalties,
        },
    )
}

/// How a `team_season_stats` row decodes, column by column in projection
/// order.
pub open spec fn spec_team_season_stat_of_row(row: Seq<SqlValue>) -> Option<TeamSeasonStat> {
    if row.len() != 7 {
        None
    } else {
        match (spec_req_text(row[0]), spec_req_text(row[1]), spec_req_i32(row[2]), spec_opt_i32(
            row[3],
        ), spec_opt_i32(row[4]), spec_opt_i32(row[5]), spec_opt_real(row[6])) {
            (
                Some(stat_uid),
                Some(team_uid),
                Some(season),
                Some(wins),
                Some(losses),
                Some(ties),
                Some(win_percentage),
            ) => Some(
                TeamSeasonStat { stat_uid, team_uid, season, wins, losses, ties, win_percentage },
            ),
            _ => None,
        }
    }
}

/// Decodes one `team_season_stats` row, exactly as
/// [`spec_team_season_stat_of_row`] says.
pub fn team_season_stat_of_row(row: &Vec<SqlValue>) -> (r: Option<TeamSeasonStat>)
    ensures
        r == spec_team_season_stat_of_row(row@),
{
    if row.len() != 7 {
        return None;
    }
    let stat_uid = match req_text(&row[0]) {
        Some(x) => x,
        None => {
            return None;
        },
    };
    let team_uid = match req_text(&row[1]) {
        Some(x) => x,
        None => {
            return None;
        },
    };
    let season = match req_i32(&row[2]) {
        Some(x) => x,
        None => {
            return None;
        },
    };
    let wins = match opt_i32(&row[3]) {
        Some(x) => x,
        None => {
            return None;
        },
    };
    let losses = match opt_i32(&row[4]) {
        Some(x) => x,
        None => {
            return None;
        },
    };
    let ties = match opt_i32(&row[5]) {
        Some(x) => x,
        None => {
            return None;
        },
    };
    let win_percentage = match opt_real(&row[6]) {
        Some(x) => x,
        None => {
            return None;
        },
    };
    Some(TeamSeasonStat { stat_uid, team_uid, season, wins, losses, ties, win_percentage })
}

/// How a whole `teams` result set decodes: every row in order, or nothing
/// at all if any row fails.
pub open spec fn spec_map_team_rows(rows: Seq<Vec<SqlValue>>) -> Option<Seq<Team>>
    decreases rows.len(),
{
    if rows.len() == 0 {
        Some(Seq::<Team>::empty())
    } else {
        match (spec_map_team_rows(rows.drop_last()), spec_team_of_row(rows.last()@)) {
            (Some(ts), Some(t)) => Some(ts.push(t)),
            _ => None,
        }
    }
}

/// A `teams` result set with a failing prefix fails as a whole.
proof fn lemma_map_team_rows_prefix_none(rows: Seq<Vec<SqlValue>>, i: int)
    requires
        0 <= i <= rows.len(),
        spec_map_team_rows(rows.take(i)) is None,
    ensures
        spec_map_team_rows(rows) is None,
    decreases rows.len() - i,
{
    if i == rows.len() {
        assert(rows.take(i) =~= rows);
    } else {
        assert(rows.take(i + 1).drop_last() =~= rows.take(i));
        assert(rows.take(i + 1).last() == rows[i]);
        lemma_map_team_rows_prefix_none(rows, i + 1);
    }
}

/// Decodes every `teams` row, or fails as a whole.
pub fn map_team_rows(rows: &Vec<Vec<SqlValue>>) -> (r: Option<Vec<Team>>)
    ensures
        match r {
            Some(ts) => spec_map_team_rows(rows@) == Some(ts@),
            None => spec_map_team_rows(rows@) is None,
        },
{
    let mut out: Vec<Team> = Vec::new();
    let mut i: usize = 0;
    while i < rows.len()
        invariant
            0 <= i <= rows.len(),
            spec_map_team_rows(rows@.take(i as int)) == Some(out@),
        decreases rows.len() - i,
    {
        proof {
            assert(rows@.take(i + 1).drop_last() =~= rows@.take(i as int));
            assert(rows@.take(i + 1).last() == rows@[i as int]);
        }
        match team_of_row(&rows[i]) {
            Some(t) => {
                proof {
                    assert(spec_map_team_rows(rows@.take(i + 1)) == Some(out@.push(t)));
                }
                out.push(t);
            },
            None => {
                proof {
                    assert(spec_map_team_rows(rows@.take(i + 1)) is None);
                    lemma_map_team_rows_prefix_none(rows@, i + 1);
                }
                return None;
            },
        }
        i = i + 1;
    }
    proof {
        assert(rows@.take(rows@.len() as int) =~= rows@);
    }
    Some(out)
}

/// How a whole `games` result set decodes: every row in order, or nothing
/// at all if any row fails.
pub open spec fn spec_map_game_rows(rows: Seq<Vec<SqlValue>>) -> Option<Seq<Game>>
    decreases rows.len(),
{
    if rows.len() == 0 {
        Some(Seq::<Game>::empty())
    } else {
        match (spec_map_game_rows(rows.drop_last()), spec_game_of_row(rows.last()@)) {
            (Some(ts), Some(t)) => Some(ts.push(t)),
            _ => None,
        }
    }
}

/// A `games` result set with a failing prefix fails as a whole.
proof fn lemma_map_game_rows_prefix_none(rows: Seq<Vec<SqlValue>>, i: int)
    requires
        0 <= i <= rows.len(),
        spec_map_game_rows(rows.take(i)) is None,
    ensures
        spec_map_game_rows(rows) is None,
    decreases rows.len() - i,
{
    if i == rows.len() {
        assert(rows.take(i) =~= rows);
    } else {
        assert(rows.take(i + 1).drop_last() =~= rows.take(i));
        assert(rows.take(i + 1).last() == rows[i]);
        lemma_map_game_rows_prefix_none(rows, i + 1);
    }
}

/// Decodes every `games` row, or fails as a whole.
pub fn map_game_rows(rows: &Vec<Vec<SqlValue>>) -> (r: Option<Vec<Game>>)
    ensures
        match r {
            Some(ts) => spec_map_game_rows(rows@) == Some(ts@),
            None => spec_map_game_rows(rows@) is None,
        },
{
    let mut out: Vec<Game> = Vec::new();
    let mut i: usize = 0;
    while i < rows.len()
        invariant
            0 <= i <= rows.len(),
            spec_map_game_rows(rows@.take(i as int)) == Some(out@),
        decreases rows.len() - i,
    {
        proof {
            assert(rows@.take(i + 1).drop_last() =~= rows@.take(i as int));
            assert(rows@.take(i + 1).last() == rows@[i as int]);
        }
        match game_of_row(&rows[i]) {
            Some(t) => {
                proof {
                    assert(spec_map_game_rows(rows@.take(i + 1)) == Some(out@.push(t)));
                }
                out.push(t);
            },
            None => {
                proof {
                    assert(spec_map_game_rows(rows@.take(i + 1)) is None);
                    lemma_map_game_rows_prefix_none(rows@, i + 1);
                }
                return None;
            },
        }
        i = i + 1;
    }
    proof {
        assert(rows@.take(rows@.len() as int) =~= rows@);
    }
    Some(out)
}

/// How a whole `team_game_stats` result set decodes: every row in order, or nothing
/// at all if any row fails.
pub open spec fn spec_map_team_game_stat_rows(rows: Seq<Vec<SqlValue>>) -> Option<Seq<TeamGameStat>>
    decreases rows.len(),
{
    if rows.len() == 0 {
        Some(Seq::<TeamGameStat>::empty())
    } else {
        match (spec_map_team_game_stat_rows(rows.drop_last()), spec_team_game_stat_of_row(rows.last()@)) {
            (Some(ts), Some(t)) => Some(ts.push(t)),
            _ => None,
        }
    }
}

/// A `team_game_stats` result set with a failing prefix fails as a whole.
proof fn lemma_map_team_game_stat_rows_prefix_none(rows: Seq<Vec<SqlValue>>, i: int)
    requires
        0 <= i <= rows.len(),
        spec_map_team_game_stat_rows(rows.take(i)) is None,
    ensures
        spec_map_team_game_stat_rows(rows) is None,
    decreases rows.len() - i,
{
    if i == rows.len() {
        assert(rows.take(i) =~= rows);
    } else {
        assert(rows.take(i + 1).drop_last() =~= rows.take(i));
        assert(rows.take(i + 1).last() == rows[i]);
        lemma_map_team_game_stat_rows_prefix_none(rows, i + 1);
    }
}

/// Decodes every `team_game_stats` row, or fails as a whole.
pub fn map_team_game_stat_rows(rows: &Vec<Vec<SqlValue>>) -> (r: Option<Vec<TeamGameStat>>)
    ensures
        match r {
            Some(ts) => spec_map_team_game_stat_rows(rows@) == Some(ts@),
            None => spec_map_team_game_stat_rows(rows@) is None,
        },
{
    let mut out: Vec<TeamGameStat> = Vec::new();
    let mut i: usize = 0;
    while i < rows.len()
        invariant
            0 <= i <= rows.len(),
            spec_map_team_game_stat_rows(rows@.take(i as int)) == Some(out@),
        decreases rows.len() - i,
    {
        proof {
            assert(rows@.take(i + 1).drop_last() =~= rows@.take(i as int));
            assert(rows@.take(i + 1).last() == rows@[i as int]);
        }
        match team_game_stat_of_row(&rows[i]) {
            Some(t) => {
                proof {
                    assert(spec_map_team_game_stat_rows(rows@.take(i + 1)) == Some(out@.push(t)));
                }
                out.push(t);
            },
            None => {
                proof {
                    assert(spec_map_team_game_stat_rows(rows@.take(i + 1)) is None);
                    lemma_map_team_game_stat_rows_prefix_none(rows@, i + 1);
                }
                return None;
            },
        }
        i = i + 1;
    }
    proof {
        assert(rows@.take(rows@.len() as int) =~= rows@);
    }
    Some(out)
}

/// How a whole `team_season_stats` result set decodes: every row in order, or nothing
/// at all if any row fails.
pub open spec fn spec_map_team_season_stat_rows(rows: Seq<Vec<SqlValue>>) -> Option<Seq<TeamSeasonStat>>
    decreases rows.len(),
{
    if rows.len() == 0 {
        Some(Seq::<TeamSeasonStat>::empty())
    } else {
        match (spec_map_team_season_stat_rows(rows.drop_last()), spec_team_season_stat_of_row(rows.last()@)) {
            (Some(ts), Some(t)) => Some(ts.push(t)),
            _ => None,
        }
    }
}

/// A `team_season_stats` result set with a failing prefix fails as a whole.
proof fn lemma_map_team_season_stat_rows_prefix_none(rows: Seq<Vec<SqlValue>>, i: int)
    requires
        0 <= i <= rows.len(),
        spec_map_team_season_stat_rows(rows.take(i)) is None,
    ensures
        spec_map_team_season_stat_rows(rows) is None,
    decreases rows.len() - i,
{
    if i == rows.len() {
        assert(rows.take(i) =~= rows);
    } else {
        assert(rows.take(i + 1).drop_last() =~= rows.take(i));
        assert(rows.take(i + 1).last() == rows[i]);
        lemma_map_team_season_stat_rows_prefix_none(rows, i + 1);
    }
}

/// Decodes every `team_season_stats` row, or fails as a whole.
pub fn map_team_season_stat_rows(rows: &Vec<Vec<SqlValue>>) -> (r: Option<Vec<TeamSeasonStat>>)
    ensures
        match r {
            Some(ts) => spec_map_team_season_stat_rows(rows@) == Some(ts@),
            None => spec_map_team_season_stat_rows(rows@) is None,
        },
{
    let mut out: Vec<TeamSeasonStat> = Vec::new();
    let mut i: usize = 0;
    while i < rows.len()
        invariant
            0 <= i <= rows.len(),
            spec_map_team_season_stat_rows(rows@.take(i as int)) == Some(out@),
        decreases rows.len() - i,
    {
        proof {
            assert(rows@.take(i + 1).drop_last() =~= rows@.take(i as int));
            assert(rows@.take(i + 1).last() == rows@[i as int]);
        }
        match team_season_stat_of_row(&rows[i]) {
            Some(t) => {
                proof {
                    assert(spec_map_team_season_stat_rows(rows@.take(i + 1)) == Some(out@.push(t)));
                }
                out.push(t);
            },
            None => {
                proof {
                    assert(spec_map_team_season_stat_rows(rows@.take(i + 1)) is None);
                    lemma_map_team_season_stat_rows_prefix_none(rows@, i + 1);
                }
                return None;
            },
        }
        i = i + 1;
    }
    proof {
        assert(rows@.take(rows@.len() as int) =~= rows@);
    }
    Some(out)
}

/// A null stored in an optional `teams` column surfaces as an absent field,
/// never as a default or sentinel — and an absent field comes only from a
/// stored null.
pub proof fn lemma_team_null_roundtrip(row: Seq<SqlValue>, t: Team)
    requires
        spec_team_of_row(row) == Some(t),
    ensures
        row[1] is Null <==> t.city is None,
        row[3] is Null <==> t.abbreviation is None,
        row[4] is Null <==> t.stadium_name is None,
        row[5] is Null <==> t.stadium_capacity is None,
        row[6] is Null <==> t.conference is None,
        row[7] is Null <==> t.division is None,
{
}

/// A null stored in an optional `games` column surfaces as an absent field,
/// never as a default or sentinel — and an absent field comes only from a
/// stored null.
pub proof fn lemma_game_null_roundtrip(row: Seq<SqlValue>, g: Game)
    requires
        spec_game_of_row(row) == Some(g),
    ensures
        row[2] is Null <==> g.week is None,
        row[3] is Null <==> g.game_type is None,
        row[4] is Null <==> g.home_team_uid is None,
        row[5] is Null <==> g.away_team_uid is None,
        row[6] is Null <==> g.game_datetime is None,
        row[7] is Null <==> g.venue is None,
        row[8] is Null <==> g.home_score is None,
        row[9] is Null <==> g.away_score is None,
        row[10] is Null <==> g.overtime is None,
        row[11] is Null <==> g.weather_temp is None,
        row[12] is Null <==> g.weather_condition is None,
        row[13] is Null <==> g.attendance is None,
{
}

/// A null stored in an optional `team_game_stats` column surfaces as an
/// absent field, never as a default or sentinel — and an absent field comes
/// only from a stored null.
pub proof fn lemma_team_game_stat_null_roundtrip(row: Seq<SqlValue>, s: TeamGameStat)
    requires
        spec_team_game_stat_of_row(row) == Some(s),
    ensures
        row[3] is Null <==> s.is_home_team is None,
        row[4] is Null <==> s.total_yards is None,
        row[5] is Null <==> s.passing_yards is None,
        row[6] is Null <==> s.rushing_yards is None,
        row[7] is Null <==> s.first_downs is None,
        row[8] is Null <==> s.turnovers is None,
        row[9] is Null <==> s.penalties is None,
{
}

/// A null stored in an optional `team_season_stats` column surfaces as an
/// absent field, never as a default or sentinel — and an absent field comes
/// only from a stored null.
pub proof fn lemma_team_season_stat_null_roundtrip(row: Seq<SqlValue>, s: TeamSeasonStat)
    requires
        spec_team_season_stat_of_row(row) == Some(s),
    ensures
        row[3] is Null <==> s.wins is None,
        row[4] is Null <==> s.losses is None,
        row[5] is Null <==> s.ties is None,
        row[6] is Null <==> s.win_percentage is None,
{
}

/// A null is accepted in every optional `teams` column: a row that decodes
/// keeps decoding when any optional column is made null.
pub proof fn lemma_team_accepts_null(row: Seq<SqlValue>, k: int)
    requires
        spec_team_of_row(row) is Some,
        k == 1 || k == 3 || k == 4 || k == 5 || k == 6 || k == 7,
    ensures
        spec_team_of_row(row.update(k, SqlValue::Null)) is Some,
{
}

/// A null is accepted in every optional `games` column: a row that decodes
/// keeps decoding when any optional column is made null.
pub proof fn lemma_game_accepts_null(row: Seq<SqlValue>, k: int)
    requires
        spec_game_of_row(row) is Some,
        2 <= k <= 13,
    ensures
        spec_game_of_row(row.update(k, SqlValue::Null)) is Some,
{
}

/// A null is accepted in every optional `team_game_stats` column: a row that
/// decodes keeps decoding when any optional column is made null.
pub proof fn lemma_team_game_stat_accepts_null(row: Seq<SqlValue>, k: int)
    requires
        spec_team_game_stat_of_row(row) is Some,
        3 <= k <= 9,
    ensures
        spec_team_game_stat_of_row(row.update(k, SqlValue::Null)) is Some,
{
}

/// A null is accepted in every optional `team_season_stats` column: a row
/// that decodes keeps decoding when any optional column is made null.
pub proof fn lemma_team_season_stat_accepts_null(row: Seq<SqlValue>, k: int)
    requires
        spec_team_season_stat_of_row(row) is Some,
        3 <= k <= 6,
    ensures
        spec_team_season_stat_of_row(row.update(k, SqlValue::Null)) is Some,
{
}

} // verus!

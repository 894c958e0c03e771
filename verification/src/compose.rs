//! Composition of the four filtered `SELECT` statements.
//!
//! Each present filter appends exactly one `AND` clause, in the fixed order
//! of the function's parameters, and contributes its bound values in the same
//! order; an absent filter contributes neither.  Every statement ends in a
//! fixed `ORDER BY`.  The contracts pin the produced text and the bound
//! parameter list exactly, for every filter combination.

use vstd::prelude::*;
use vstd::string::StringExecFns;

use crate::sqlval::BindValue;

verus! {

/// The `teams` statement: no filters, fixed sort.
pub open spec fn teams_sql_text() -> Seq<char> {
    "SELECT team_uid, city, name, abbreviation, stadium_name, stadium_capacity, conference, division FROM teams ORDER BY conference, division, name"@
}

/// The `games` statement for the given filter combination.
pub open spec fn games_sql_text(has_season: bool, has_team: bool) -> Seq<char> {
    "SELECT game_uid, season, week, game_type, home_team_uid, away_team_uid, game_datetime, venue, home_score, away_score, overtime, weather_temp, weather_condition, attendance FROM games WHERE 1=1"@
        + (if has_season {
            " AND season = ?"@
        } else {
            Seq::<char>::empty()
        })
        + (if has_team {
            " AND (home_team_uid = ? OR away_team_uid = ?)"@
        } else {
            Seq::<char>::empty()
        }) + " ORDER BY game_datetime DESC"@
}

/// The parameters bound to the `games` statement, in placeholder order: the
/// season once, then the team token twice (once per side of the
/// participation disjunction).
pub open spec fn games_params(season: Option<i32>, team_uid: Option<String>) -> Seq<BindValue> {
    (match season {
        Some(s) => seq![BindValue::Int(s as i64)],
        None => Seq::<BindValue>::empty(),
    })
        + (match team_uid {
        Some(t) => seq![BindValue::Text(t), BindValue::Text(t)],
        None => Seq::<BindValue>::empty(),
    })
}

/// The `team_season_stats` statement for the given filter combination.
pub open spec fn season_stats_sql_text(has_season: bool, has_team: bool) -> Seq<char> {
    "SELECT stat_uid, team_uid, season, wins, losses, ties, win_percentage FROM team_season_stats WHERE 1=1"@
        + (if has_season {
            " AND season = ?"@
        } else {
            Seq::<char>::empty()
        })
        + (if has_team {
            " AND team_uid = ?"@
        } else {
            Seq::<char>::empty()
        }) + " ORDER BY season DESC, win_percentage DESC"@
}

/// The parameters bound to the `team_season_stats` statement.
pub open spec fn season_stats_params(season: Option<i32>, team_uid: Option<String>) -> Seq<
    BindValue,
> {
    (match season {
        Some(s) => seq![BindValue::Int(s as i64)],
        None => Seq::<BindValue>::empty(),
    })
        + (match team_uid {
        Some(t) => seq![BindValue::Text(t)],
        None => Seq::<BindValue>::empty(),
    })
}

/// The `team_game_stats` statement for the given filter combination.
pub open spec fn game_stats_sql_text(has_game: bool, has_team: bool) -> Seq<char> {
    "SELECT stat_uid, game_uid, team_uid, is_home_team, total_yards, passing_yards, rushing_yards, first_downs, turnovers, penalties FROM team_game_stats WHERE 1=1"@
        + (if has_game {
            " AND game_uid = ?"@
        } else {
            Seq::<char>::empty()
        })
        + (if has_team {
            " AND team_uid = ?"@
        } else {
            Seq::<char>::empty()
        }) + " ORDER BY game_uid DESC"@
}

/// The parameters bound to the `team_game_stats` statement.
pub open spec fn game_stats_params(game_uid: Option<String>, team_uid: Option<String>) -> Seq<
    BindValue,
> {
    (match game_uid {
        Some(g) => seq![BindValue::Text(g)],
        None => Seq::<BindValue>::empty(),
    })
        + (match team_uid {
        Some(t) => seq![BindValue::Text(t)],
        None => Seq::<BindValue>::empty(),
    })
}

/// The trivial validation statement a fresh connection must answer.
pub open spec fn probe_sql_text() -> Seq<char> {
    "SELECT 1"@
}

/// The reference-table row-count statement the health check runs.
pub open spec fn count_sql_text() -> Seq<char> {
    "SELECT COUNT(*) FROM games"@
}

/// Composes the connection-validation probe statement.
pub fn probe_query() -> (r: String)
    ensures
        r@ == probe_sql_text(),
{
    "SELECT 1".to_owned()
}

/// Composes the reference-table row-count statement.
pub fn count_query() -> (r: String)
    ensures
        r@ == count_sql_text(),
{
    "SELECT COUNT(*) FROM games".to_owned()
}

/// Composes the unfiltered, fixed-order `teams` statement.
pub fn teams_query() -> (r: (String, Vec<BindValue>))
    ensures
        r.0@ == teams_sql_text(),
        r.1@ == Seq::<BindValue>::empty(),
{
    let sql =
        "SELECT team_uid, city, name, abbreviation, stadium_name, stadium_capacity, conference, division FROM teams ORDER BY conference, division, name".to_owned();
    let params: Vec<BindValue> = Vec::new();
    (sql, params)
}

/// Composes the `games` statement: one clause and one binding per present
/// filter, the team filter binding its token twice.
pub fn games_query(season: &Option<i32>, team_uid: &Option<String>) -> (r: (String, Vec<
    BindValue,
>))
    ensures
        r.0@ == games_sql_text(season.is_some(), team_uid.is_some()),
        r.1@ == games_params(*season, *team_uid),
{
    let mut sql =
        "SELECT game_uid, season, week, game_type, home_team_uid, away_team_uid, game_datetime, venue, home_score, away_score, overtime, weather_temp, weather_condition, attendance FROM games WHERE 1=1".to_owned();
    let mut params: Vec<BindValue> = Vec::new();
    if let Some(s) = season {
        sql.append(" AND season = ?");
        params.push(BindValue::Int(*s as i64));
    }
    if let Some(t) = team_uid {
        sql.append(" AND (home_team_uid = ? OR away_team_uid = ?)");
        params.push(BindValue::Text(t.clone()));
        params.push(BindValue::Text(t.clone()));
    }
    sql.append(" ORDER BY game_datetime DESC");
    proof {
        assert(sql@ =~= games_sql_text(season.is_some(), team_uid.is_some()));
        assert(params@ =~= games_params(*season, *team_uid));
    }
    (sql, params)
}

/// Composes the `team_season_stats` statement: one clause and one binding per
/// present filter.
pub fn season_stats_query(season: &Option<i32>, team_uid: &Option<String>) -> (r: (String, Vec<
    BindValue,
>))
    ensures
        r.0@ == season_stats_sql_text(season.is_some(), team_uid.is_some()),
        r.1@ == season_stats_params(*season, *team_uid),
{
    let mut sql =
        "SELECT stat_uid, team_uid, season, wins, losses, ties, win_percentage FROM team_season_stats WHERE 1=1".to_owned();
    let mut params: Vec<BindValue> = Vec::new();
    if let Some(s) = season {
        sql.append(" AND season = ?");
        params.push(BindValue::Int(*s as i64));
    }
    if let Some(t) = team_uid {
        sql.append(" AND team_uid = ?");
        params.push(BindValue::Text(t.clone()));
    }
    sql.append(" ORDER BY season DESC, win_percentage DESC");
    proof {
        assert(sql@ =~= season_stats_sql_text(season.is_some(), team_uid.is_some()));
        assert(params@ =~= season_stats_params(*season, *team_uid));
    }
    (sql, params)
}

/// Composes the `team_game_stats` statement: one clause and one binding per
/// present filter.
pub fn game_stats_query(game_uid: &Option<String>, team_uid: &Option<String>) -> (r: (String, Vec<
    BindValue,
>))
    ensures
        r.0@ == game_stats_sql_text(game_uid.is_some(), team_uid.is_some()),
        r.1@ == game_stats_params(*game_uid, *team_uid),
{
    let mut sql =
        "SELECT stat_uid, game_uid, team_uid, is_home_team, total_yards, passing_yards, rushing_yards, first_downs, turnovers, penalties FROM team_game_stats WHERE 1=1".to_owned();
    let mut params: Vec<BindValue> = Vec::new();
    if let Some(g) = game_uid {
        sql.append(" AND game_uid = ?");
        params.push(BindValue::Text(g.clone()));
    }
    if let Some(t) = team_uid {
        sql.append(" AND team_uid = ?");
        params.push(BindValue::Text(t.clone()));
    }
    sql.append(" ORDER BY game_uid DESC");
    proof {
        assert(sql@ =~= game_stats_sql_text(game_uid.is_some(), team_uid.is_some()));
        assert(params@ =~= game_stats_params(*game_uid, *team_uid));
    }
    (sql, params)
}

} // verus!

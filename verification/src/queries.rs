//! The exposed operations: the four list queries and the health check.
//!
//! Each operation is stateless and one-shot: open a connection, compose one
//! filtered statement, run it, decode the rows, select exactly the matching
//! records, and release the connection.  The step from engine rows to the
//! returned result is a verified function per operation (decode wholly or
//! fail with a fixed message, then select); failures of the list operations
//! are flattened to a single message string.  The health check instead folds
//! every failure into its human-readable answer and never fails: its choice
//! of diagnosis is a verified function of the probe outcome.

use vstd::prelude::*;
use vstd::string::StringExecFns;

use crate::compose::{
    count_query, game_stats_query, games_query, probe_query, season_stats_query, teams_query,
};
use crate::db::{file_exists, open_connection, run_query};
use crate::filter::{
    filter_game_stats, filter_games, filter_season_stats, spec_game_matches,
    spec_game_stat_matches, spec_matching_game_stats, spec_matching_games,
    spec_matching_season_stats, spec_opt_text_view, spec_season_stat_matches,
};
use crate::records::{Game, Team, TeamGameStat, TeamSeasonStat};
use crate::rowmap::{
    map_game_rows, map_team_game_stat_rows, map_team_rows, map_team_season_stat_rows,
    spec_map_game_rows, spec_map_team_game_stat_rows, spec_map_team_rows,
    spec_map_team_season_stat_rows,
};
use crate::sqlval::{BindValue, SqlValue};
use crate::textnum::{i64_to_text, spec_i64_text};

verus! {

/// The diagnosis when the database file is missing, naming the path.
pub open spec fn spec_missing_msg(path: Seq<char>) -> Seq<char> {
    "Database file not found at: "@ + path
}

/// The diagnosis when a connection could not be opened or validated,
/// quoting the engine's error text.
pub open spec fn spec_conn_err_msg(err: Seq<char>) -> Seq<char> {
    "Database connection error: "@ + err
}

/// The diagnosis when the reference-table query failed, quoting the engine's
/// error text.
pub open spec fn spec_query_err_msg(err: Seq<char>) -> Seq<char> {
    "Error querying games: "@ + err
}

/// The healthy diagnosis, quoting the reference table's row count.
pub open spec fn spec_count_msg(n: int) -> Seq<char> {
    "Database connected successfully. Games count: "@ + spec_i64_text(n)
}

/// Why connection bootstrap failed.
pub enum DbError {
    /// No file is present at the configured path; the payload is that path.
    NotFound(String),
    /// The engine could not open or validate the connection; the payload is
    /// the engine's error text.
    ConnectionFailed(String),
}

impl DbError {
    /// The flattened message a caller of the list operations sees.
    pub open spec fn spec_message(self) -> Seq<char> {
        match self {
            DbError::NotFound(p) => spec_missing_msg(p@),
            DbError::ConnectionFailed(e) => e@,
        }
    }

    /// Renders the flattened message, exactly as [`DbError::spec_message`]
    /// says.
    pub fn message(&self) -> (r: String)
        ensures
            r@ == self.spec_message(),
    {
        match self {
            DbError::NotFound(p) => missing_message(p.as_str()),
            DbError::ConnectionFailed(e) => e.clone(),
        }
    }
}

/// Renders the missing-file diagnosis, exactly as [`spec_missing_msg`] says.
pub fn missing_message(path: &str) -> (r: String)
    ensures
        r@ == spec_missing_msg(path@),
{
    let mut s = "Database file not found at: ".to_owned();
    s.append(path);
    proof {
        assert(s@ =~= spec_missing_msg(path@));
    }
    s
}

/// Renders the connection-failure diagnosis, exactly as
/// [`spec_conn_err_msg`] says.
pub fn conn_error_message(err: &str) -> (r: String)
    ensures
        r@ == spec_conn_err_msg(err@),
{
    let mut s = "Database connection error: ".to_owned();
    s.append(err);
    proof {
        assert(s@ =~= spec_conn_err_msg(err@));
    }
    s
}

/// Renders the failed-query diagnosis, exactly as [`spec_query_err_msg`]
/// says.
pub fn query_error_message(err: &str) -> (r: String)
    ensures
        r@ == spec_query_err_msg(err@),
{
    let mut s = "Error querying games: ".to_owned();
    s.append(err);
    proof {
        assert(s@ =~= spec_query_err_msg(err@));
    }
    s
}

/// Renders the healthy diagnosis, exactly as [`spec_count_msg`] says.
pub fn count_message(n: i64) -> (r: String)
    ensures
        r@ == spec_count_msg(n as int),
{
    let mut s = "Database connected successfully. Games count: ".to_owned();
    let t = i64_to_text(n);
    s.append(t.as_str());
    proof {
        assert(s@ =~= spec_count_msg(n as int));
    }
    s
}

/// Obtains a validated connection: the file must be present, the engine must
/// open it, and it must answer the probe statement of
/// [`crate::compose::probe_sql_text`].  A missing file is reported as
/// [`DbError::NotFound`] naming the configured path; everything else as
/// [`DbError::ConnectionFailed`] wrapping the engine's error text.
pub fn get_db_connection(db_path: &str) -> (r: Result<rusqlite::Connection, DbError>)
    ensures
        r matches Err(e) ==> (e matches DbError::NotFound(p) ==> p@ == db_path@),
{
    if !file_exists(db_path) {
        return Err(DbError::NotFound(db_path.to_owned()));
    }
    let conn = match open_connection(db_path) {
        Ok(c) => c,
        Err(e) => {
            return Err(DbError::ConnectionFailed(e));
        },
    };
    let probe = probe_query();
    let no_params: Vec<BindValue> = Vec::new();
    match run_query(&conn, &probe, &no_params) {
        Ok(_) => Ok(conn),
        Err(e) => Err(DbError::ConnectionFailed(e)),
    }
}

/// Turns a `teams` result set into the operation's answer: every row decodes
/// and is returned in order, or the whole call fails with the fixed decode
/// message naming the query.
pub fn teams_from_rows(rows: &Vec<Vec<SqlValue>>) -> (r: Result<Vec<Team>, String>)
    ensures
        spec_map_team_rows(rows@) matches Some(ds) ==> (r matches Ok(ts) && ts@ == ds),
        spec_map_team_rows(rows@) is None ==> (r matches Err(m) && m@
            == "Row decode error in teams query"@),
        r matches Ok(ts) ==> spec_map_team_rows(rows@) == Some(ts@),
{
    match map_team_rows(rows) {
        Some(teams) => Ok(teams),
        None => Err("Row decode error in teams query".to_owned()),
    }
}

/// Turns a `games` result set into the operation's answer: every row decodes
/// and exactly the rows matching the filters are returned in order, or the
/// whole call fails with the fixed decode message naming the query.
pub fn games_from_rows(
    rows: &Vec<Vec<SqlValue>>,
    season: &Option<i32>,
    team_uid: &Option<String>,
) -> (r: Result<Vec<Game>, String>)
    ensures
        spec_map_game_rows(rows@) matches Some(ds) ==> (r matches Ok(gs) && gs@
            == spec_matching_games(ds, *season, spec_opt_text_view(*team_uid))),
        spec_map_game_rows(rows@) is None ==> (r matches Err(m) && m@
            == "Row decode error in games query"@),
        r matches Ok(gs) ==> exists|ds: Seq<Game>|
            spec_map_game_rows(rows@) == Some(ds) && gs@ == spec_matching_games(
                ds,
                *season,
                spec_opt_text_view(*team_uid),
            ),
        r matches Ok(gs) ==> forall|i: int|
            0 <= i < gs@.len() ==> #[trigger] spec_game_matches(
                gs@[i],
                *season,
                spec_opt_text_view(*team_uid),
            ),
{
    match map_game_rows(rows) {
        Some(decoded) => {
            proof {
                assert(spec_map_game_rows(rows@) == Some(decoded@));
            }
            Ok(filter_games(decoded, season, team_uid))
        },
        None => Err("Row decode error in games query".to_owned()),
    }
}

/// Turns a `team_season_stats` result set into the operation's answer:
/// every row decodes and exactly the rows matching the filters are returned
/// in order, or the whole call fails with the fixed decode message naming
/// the query.
pub fn season_stats_from_rows(
    rows: &Vec<Vec<SqlValue>>,
    season: &Option<i32>,
    team_uid: &Option<String>,
) -> (r: Result<Vec<TeamSeasonStat>, String>)
    ensures
        spec_map_team_season_stat_rows(rows@) matches Some(ds) ==> (r matches Ok(ss) && ss@
            == spec_matching_season_stats(ds, *season, spec_opt_text_view(*team_uid))),
        spec_map_team_season_stat_rows(rows@) is None ==> (r matches Err(m) && m@
            == "Row decode error in team season stats query"@),
        r matches Ok(ss) ==> exists|ds: Seq<TeamSeasonStat>|
            spec_map_team_season_stat_rows(rows@) == Some(ds) && ss@ == spec_matching_season_stats(
                ds,
                *season,
                spec_opt_text_view(*team_uid),
            ),
        r matches Ok(ss) ==> forall|i: int|
            0 <= i < ss@.len() ==> #[trigger] spec_season_stat_matches(
                ss@[i],
                *season,
                spec_opt_text_view(*team_uid),
            ),
{
    match map_team_season_stat_rows(rows) {
        Some(decoded) => {
            proof {
                assert(spec_map_team_season_stat_rows(rows@) == Some(decoded@));
            }
            Ok(filter_season_stats(decoded, season, team_uid))
        },
        None => Err("Row decode error in team season stats query".to_owned()),
    }
}

/// Turns a `team_game_stats` result set into the operation's answer: every
/// row decodes and exactly the rows matching the filters are returned in
/// order, or the whole call fails with the fixed decode message naming the
/// query.
pub fn game_stats_from_rows(
    rows: &Vec<Vec<SqlValue>>,
    game_uid: &Option<String>,
    team_uid: &Option<String>,
) -> (r: Result<Vec<TeamGameStat>, String>)
    ensures
        spec_map_team_game_stat_rows(rows@) matches Some(ds) ==> (r matches Ok(ss) && ss@
            == spec_matching_game_stats(
            ds,
            spec_opt_text_view(*game_uid),
            spec_opt_text_view(*team_uid),
        )),
        spec_map_team_game_stat_rows(rows@) is None ==> (r matches Err(m) && m@
            == "Row decode error in team game stats query"@),
        r matches Ok(ss) ==> exists|ds: Seq<TeamGameStat>|
            spec_map_team_game_stat_rows(rows@) == Some(ds) && ss@ == spec_matching_game_stats(
                ds,
                spec_opt_text_view(*game_uid),
                spec_opt_text_view(*team_uid),
            ),
        r matches Ok(ss) ==> forall|i: int|
            0 <= i < ss@.len() ==> #[trigger] spec_game_stat_matches(
                ss@[i],
                spec_opt_text_view(*game_uid),
                spec_opt_text_view(*team_uid),
            ),
{
    match map_team_game_stat_rows(rows) {
        Some(decoded) => {
            proof {
                assert(spec_map_team_game_stat_rows(rows@) == Some(decoded@));
            }
            Ok(filter_game_stats(decoded, game_uid, team_uid))
        },
        None => Err("Row decode error in team game stats query".to_owned()),
    }
}

/// Lists every team, sorted by conference, division and name (the statement's
/// fixed `ORDER BY`): on success, the answer is exactly the full decoding of
/// some result set; it fails with a flattened message if the connection
/// cannot be obtained, the statement fails, or any row does not decode.
pub fn get_teams(db_path: &str) -> (r: Result<Vec<Team>, String>)
    ensures
        r matches Ok(ts) ==> exists|rows: Seq<Vec<SqlValue>>|
            #[trigger] spec_map_team_rows(rows) == Some(ts@),
{
    let conn = match get_db_connection(db_path) {
        Ok(c) => c,
        Err(e) => {
            return Err(e.message());
        },
    };
    let (sql, params) = teams_query();
    let rows = match run_query(&conn, &sql, &params) {
        Ok(rs) => rs,
        Err(e) => {
            return Err(e);
        },
    };
    teams_from_rows(&rows)
}

/// Lists games, newest first (the statement's fixed `ORDER BY`): on success,
/// the answer is exactly the matching selection from the full decoding of
/// some result set — every returned game is from the requested season, and
/// the requested team plays in it as home or as away.
pub fn get_games(db_path: &str, season: Option<i32>, team_uid: Option<String>) -> (r: Result<
    Vec<Game>,
    String,
>)
    ensures
        r matches Ok(games) ==> exists|rows: Seq<Vec<SqlValue>>, ds: Seq<Game>|
            #![trigger spec_map_game_rows(rows), spec_matching_games(ds, season, spec_opt_text_view(team_uid))]
            spec_map_game_rows(rows) == Some(ds) && games@ == spec_matching_games(
                ds,
                season,
                spec_opt_text_view(team_uid),
            ),
        r matches Ok(games) ==> forall|i: int|
            0 <= i < games@.len() ==> #[trigger] spec_game_matches(
                games@[i],
                season,
                spec_opt_text_view(team_uid),
            ),
{
    let conn = match get_db_connection(db_path) {
        Ok(c) => c,
        Err(e) => {
            return Err(e.message());
        },
    };
    let (sql, params) = games_query(&season, &team_uid);
    let rows = match run_query(&conn, &sql, &params) {
        Ok(rs) => rs,
        Err(e) => {
            return Err(e);
        },
    };
    let r = games_from_rows(&rows, &season, &team_uid);
    proof {
        match &r {
            Ok(gs) => {
                let ds = choose|ds: Seq<Game>|
                    spec_map_game_rows(rows@) == Some(ds) && gs@ == spec_matching_games(
                        ds,
                        season,
                        spec_opt_text_view(team_uid),
                    );
                assert(spec_map_game_rows(rows@) == Some(ds) && gs@ == spec_matching_games(
                    ds,
                    season,
                    spec_opt_text_view(team_uid),
                ));
            },
            Err(_) => {},
        }
    }
    r
}

/// Lists season statistics, newest season first then by win percentage (the
/// statement's fixed `ORDER BY`): on success, the answer is exactly the
/// matching selection from the full decoding of some result set — every
/// returned record is from the requested season and team.
pub fn get_team_season_stats(db_path: &str, season: Option<i32>, team_uid: Option<String>) -> (r:
    Result<Vec<TeamSeasonStat>, String>)
    ensures
        r matches Ok(stats) ==> exists|rows: Seq<Vec<SqlValue>>, ds: Seq<TeamSeasonStat>|
            #![trigger spec_map_team_season_stat_rows(rows), spec_matching_season_stats(ds, season, spec_opt_text_view(team_uid))]
            spec_map_team_season_stat_rows(rows) == Some(ds) && stats@
                == spec_matching_season_stats(ds, season, spec_opt_text_view(team_uid)),
        r matches Ok(stats) ==> forall|i: int|
            0 <= i < stats@.len() ==> #[trigger] spec_season_stat_matches(
                stats@[i],
                season,
                spec_opt_text_view(team_uid),
            ),
{
    let conn = match get_db_connection(db_path) {
        Ok(c) => c,
        Err(e) => {
            return Err(e.message());
        },
    };
    let (sql, params) = season_stats_query(&season, &team_uid);
    let rows = match run_query(&conn, &sql, &params) {
        Ok(rs) => rs,
        Err(e) => {
            return Err(e);
        },
    };
    let r = season_stats_from_rows(&rows, &season, &team_uid);
    proof {
        match &r {
            Ok(ss) => {
                let ds = choose|ds: Seq<TeamSeasonStat>|
                    spec_map_team_season_stat_rows(rows@) == Some(ds) && ss@
                        == spec_matching_season_stats(ds, season, spec_opt_text_view(team_uid));
                assert(spec_map_team_season_stat_rows(rows@) == Some(ds) && ss@
                    == spec_matching_season_stats(ds, season, spec_opt_text_view(team_uid)));
            },
            Err(_) => {},
        }
    }
    r
}

/// Lists per-game statistics, by game identifier descending (the statement's
/// fixed `ORDER BY`): on success, the answer is exactly the matching
/// selection from the full decoding of some result set — every returned
/// record belongs to the requested game and team.
pub fn get_team_game_stats(db_path: &str, game_uid: Option<String>, team_uid: Option<String>) -> (r:
    Result<Vec<TeamGameStat>, String>)
    ensures
        r matches Ok(stats) ==> exists|rows: Seq<Vec<SqlValue>>, ds: Seq<TeamGameStat>|
            #![trigger spec_map_team_game_stat_rows(rows), spec_matching_game_stats(ds, spec_opt_text_view(game_uid), spec_opt_text_view(team_uid))]
            spec_map_team_game_stat_rows(rows) == Some(ds) && stats@
                == spec_matching_game_stats(
                ds,
                spec_opt_text_view(game_uid),
                spec_opt_text_view(team_uid),
            ),
        r matches Ok(stats) ==> forall|i: int|
            0 <= i < stats@.len() ==> #[trigger] spec_game_stat_matches(
                stats@[i],
                spec_opt_text_view(game_uid),
                spec_opt_text_view(team_uid),
            ),
{
    let conn = match get_db_connection(db_path) {
        Ok(c) => c,
        Err(e) => {
            return Err(e.message());
        },
    };
    let (sql, params) = game_stats_query(&game_uid, &team_uid);
    let rows = match run_query(&conn, &sql, &params) {
        Ok(rs) => rs,
        Err(e) => {
            return Err(e);
        },
    };
    let r = game_stats_from_rows(&rows, &game_uid, &team_uid);
    proof {
        match &r {
            Ok(ss) => {
                let ds = choose|ds: Seq<TeamGameStat>|
                    spec_map_team_game_stat_rows(rows@) == Some(ds) && ss@
                        == spec_matching_game_stats(
                        ds,
                        spec_opt_text_view(game_uid),
                        spec_opt_text_view(team_uid),
                    );
                assert(spec_map_team_game_stat_rows(rows@) == Some(ds) && ss@
                    == spec_matching_game_stats(
                    ds,
                    spec_opt_text_view(game_uid),
                    spec_opt_text_view(team_uid),
                ));
            },
            Err(_) => {},
        }
    }
    r
}

/// The single row count the reference-table probe returns, if the result has
/// the expected one-row, one-integer-column shape.
pub open spec fn spec_count_of_rows(rows: Seq<Vec<SqlValue>>) -> Option<i64> {
    if rows.len() >= 1 && rows[0]@.len() == 1 && rows[0]@[0] is Int {
        Some(rows[0]@[0]->Int_0)
    } else {
        None
    }
}

fn count_of_rows(rows: &Vec<Vec<SqlValue>>) -> (r: Option<i64>)
    ensures
        r == spec_count_of_rows(rows@),
{
    if rows.len() == 0 {
        return None;
    }
    let first = &rows[0];
    if first.len() != 1 {
        return None;
    }
    match &first[0] {
        SqlValue::Int(n) => Some(*n),
        _ => None,
    }
}

/// What the health check's probing observed, in the order it probes: each
/// later outcome presupposes the earlier stages succeeded.
pub enum ProbeOutcome {
    /// No file is present at the configured path.
    FileMissing,
    /// The connection could not be opened or validated.
    OpenFailed(DbError),
    /// The reference-table statement failed; the payload is engine text.
    CountFailed(String),
    /// The reference-table statement answered with these rows.
    CountRows(Vec<Vec<SqlValue>>),
}

/// The diagnosis each probe outcome earns: the missing-file message naming
/// the path, the connection message quoting the failure's flattened text,
/// the query message quoting the engine text, and for an answered probe the
/// healthy count message — or the query message if the answer does not have
/// the one-row, one-integer shape.
pub open spec fn spec_diagnosis(path: Seq<char>, o: ProbeOutcome) -> Seq<char> {
    match o {
        ProbeOutcome::FileMissing => spec_missing_msg(path),
        ProbeOutcome::OpenFailed(e) => spec_conn_err_msg(e.spec_message()),
        ProbeOutcome::CountFailed(e) => spec_query_err_msg(e@),
        ProbeOutcome::CountRows(rows) => match spec_count_of_rows(rows@) {
            Some(n) => spec_count_msg(n as int),
            None => spec_query_err_msg("unexpected result shape"@),
        },
    }
}

/// Chooses and renders the diagnosis for a probe outcome, exactly as
/// [`spec_diagnosis`] says.
pub fn render_diagnosis(db_path: &str, o: &ProbeOutcome) -> (r: String)
    ensures
        r@ == spec_diagnosis(db_path@, *o),
{
    match o {
        ProbeOutcome::FileMissing => missing_message(db_path),
        ProbeOutcome::OpenFailed(e) => {
            let m = e.message();
            conn_error_message(m.as_str())
        },
        ProbeOutcome::CountFailed(e) => query_error_message(e.as_str()),
        ProbeOutcome::CountRows(rows) => match count_of_rows(rows) {
            Some(n) => count_message(n),
            None => query_error_message("unexpected result shape"),
        },
    }
}

/// Diagnoses connectivity and always answers in-band, never with an error:
/// the answer is the diagnosis of the probe outcome that occurred — the
/// missing-file diagnosis naming the configured path, a connection diagnosis
/// quoting the failure's text, a query diagnosis quoting the engine's error
/// text, or the healthy diagnosis quoting the reference table's row count.
pub fn test_db_connection(db_path: &str) -> (r: String)
    ensures
        exists|o: ProbeOutcome| r@ == #[trigger] spec_diagnosis(db_path@, o),
        r@ == spec_missing_msg(db_path@) || (exists|e: Seq<char>| r@ == spec_conn_err_msg(e)) || (
        exists|e: Seq<char>| r@ == spec_query_err_msg(e)) || (exists|n: int|
            r@ == spec_count_msg(n)),
{
    let outcome: ProbeOutcome = if !file_exists(db_path) {
        ProbeOutcome::FileMissing
    } else {
        match get_db_connection(db_path) {
            Err(e) => ProbeOutcome::OpenFailed(e),
            Ok(conn) => {
                let count_sql = count_query();
                let no_params: Vec<BindValue> = Vec::new();
                match run_query(&conn, &count_sql, &no_params) {
                    Ok(rows) => ProbeOutcome::CountRows(rows),
                    Err(e) => ProbeOutcome::CountFailed(e),
                }
            },
        }
    };
    let r = render_diagnosis(db_path, &outcome);
    proof {
        assert(r@ == spec_diagnosis(db_path@, outcome));
        match outcome {
            ProbeOutcome::FileMissing => {
                assert(r@ == spec_missing_msg(db_path@));
            },
            ProbeOutcome::OpenFailed(e) => {
                assert(r@ == spec_conn_err_msg(e.spec_message()));
            },
            ProbeOutcome::CountFailed(e) => {
                assert(r@ == spec_query_err_msg(e@));
            },
            ProbeOutcome::CountRows(rows) => {
                match spec_count_of_rows(rows@) {
                    Some(n) => {
                        assert(r@ == spec_count_msg(n as int));
                    },
                    None => {
                        assert(r@ == spec_query_err_msg("unexpected result shape"@));
                    },
                }
            },
        }
    }
    r
}

/// Every diagnosis the health check can answer quotes its payload verbatim
/// as its final segment: the missing-file answer the configured path, the
/// two error answers the engine's error text, and the healthy answer the
/// decimal row count.
pub proof fn lemma_diagnosis_quotes_payload(payload: Seq<char>, n: int)
    ensures
        spec_missing_msg(payload).subrange(
            spec_missing_msg(payload).len() - payload.len(),
            spec_missing_msg(payload).len() as int,
        ) == payload,
        spec_conn_err_msg(payload).subrange(
            spec_conn_err_msg(payload).len() - payload.len(),
            spec_conn_err_msg(payload).len() as int,
        ) == payload,
        spec_query_err_msg(payload).subrange(
            spec_query_err_msg(payload).len() - payload.len(),
            spec_query_err_msg(payload).len() as int,
        ) == payload,
        spec_count_msg(n).subrange(
            spec_count_msg(n).len() - spec_i64_text(n).len(),
            spec_count_msg(n).len() as int,
        ) == spec_i64_text(n),
{
    assert(spec_missing_msg(payload).subrange(
        spec_missing_msg(payload).len() - payload.len(),
        spec_missing_msg(payload).len() as int,
    ) =~= payload);
    assert(spec_conn_err_msg(payload).subrange(
        spec_conn_err_msg(payload).len() - payload.len(),
        spec_conn_err_msg(payload).len() as int,
    ) =~= payload);
    assert(spec_query_err_msg(payload).subrange(
        spec_query_err_msg(payload).len() - payload.len(),
        spec_query_err_msg(payload).len() as int,
    ) =~= payload);
    assert(spec_count_msg(n).subrange(
        spec_count_msg(n).len() - spec_i64_text(n).len(),
        spec_count_msg(n).len() as int,
    ) =~= spec_i64_text(n));
}

} // verus!

use next_top_model::queries::{
    get_db_connection, get_games, get_team_game_stats, get_team_season_stats, get_teams,
    test_db_connection,
};
use rusqlite::Connection;

/// Builds a fresh fixture database at `path`, dropping any leftover tables
/// from an earlier run, and runs `fill` on it.
fn fixture(path: &str, fill: &str) {
    let conn = Connection::open(path).expect("fixture database should open");
    conn.execute_batch(
        "DROP TABLE IF EXISTS teams;
         DROP TABLE IF EXISTS games;
         DROP TABLE IF EXISTS team_season_stats;
         DROP TABLE IF EXISTS team_game_stats;
         CREATE TABLE teams (
             team_uid TEXT, city TEXT, name TEXT, abbreviation TEXT,
             stadium_name TEXT, stadium_capacity INTEGER, conference TEXT, division TEXT
         );
         CREATE TABLE games (
             game_uid TEXT, season INTEGER, week REAL, game_type TEXT,
             home_team_uid TEXT, away_team_uid TEXT, game_datetime TEXT, venue TEXT,
             home_score INTEGER, away_score INTEGER, overtime INTEGER,
             weather_temp REAL, weather_condition TEXT, attendance INTEGER
         );
         CREATE TABLE team_season_stats (
             stat_uid TEXT, team_uid TEXT, season INTEGER,
             wins INTEGER, losses INTEGER, ties INTEGER, win_percentage REAL
         );
         CREATE TABLE team_game_stats (
             stat_uid TEXT, game_uid TEXT, team_uid TEXT, is_home_team INTEGER,
             total_yards INTEGER, passing_yards INTEGER, rushing_yards INTEGER,
             first_downs INTEGER, turnovers INTEGER, penalties INTEGER
         );",
    )
    .expect("fixture schema should build");
    conn.execute_batch(fill).expect("fixture rows should insert");
}

#[test]
fn teams_come_back_sorted_regardless_of_insertion_order() {
    let path = "/tmp/next_top_model_fixture_teams_sorted.db";
    fixture(
        path,
        "INSERT INTO teams VALUES ('T3', 'C', 'Zulu',  NULL, NULL, NULL, 'NFC', 'North');
         INSERT INTO teams VALUES ('T1', 'A', 'Alpha', NULL, NULL, NULL, 'AFC', 'East');
         INSERT INTO teams VALUES ('T4', 'D', 'Alpha', NULL, NULL, NULL, 'NFC', 'North');
         INSERT INTO teams VALUES ('T2', 'B', 'Mike',  NULL, NULL, NULL, 'AFC', 'West');",
    );
    let teams = get_teams(path).expect("healthy fixture should list teams");
    let keys: Vec<(Option<&str>, Option<&str>, &str)> = teams
        .iter()
        .map(|t| (t.conference.as_deref(), t.division.as_deref(), t.name.as_str()))
        .collect();
    assert_eq!(
        keys,
        vec![
            (Some("AFC"), Some("East"), "Alpha"),
            (Some("AFC"), Some("West"), "Mike"),
            (Some("NFC"), Some("North"), "Alpha"),
            (Some("NFC"), Some("North"), "Zulu"),
        ]
    );
}

#[test]
fn teams_surface_nulls_as_absent_fields() {
    let path = "/tmp/next_top_model_fixture_teams_nulls.db";
    fixture(
        path,
        "INSERT INTO teams VALUES ('T1', NULL, 'Alpha', NULL, NULL, NULL, NULL, NULL);",
    );
    let teams = get_teams(path).expect("nulls in optional columns should decode");
    assert_eq!(teams.len(), 1);
    assert_eq!(teams[0].team_uid, "T1");
    assert_eq!(teams[0].city, None);
    assert_eq!(teams[0].abbreviation, None);
    assert_eq!(teams[0].stadium_name, None);
    assert_eq!(teams[0].stadium_capacity, None);
    assert_eq!(teams[0].conference, None);
    assert_eq!(teams[0].division, None);
}

#[test]
fn teams_with_null_name_fail_as_a_whole() {
    let path = "/tmp/next_top_model_fixture_teams_badrow.db";
    fixture(
        path,
        "INSERT INTO teams VALUES ('T1', NULL, 'Alpha', NULL, NULL, NULL, NULL, NULL);
         INSERT INTO teams VALUES ('T2', NULL, NULL,    NULL, NULL, NULL, NULL, NULL);",
    );
    let err = get_teams(path).expect_err("a null required column must fail the call");
    assert_eq!(err, "Row decode error in teams query");
}

const GAMES_FIXTURE: &str = "
    INSERT INTO games VALUES ('G1', 2023, 1.0, 'REG', 'TEAM_A', 'TEAM_B', '2023-09-10T13:00:00', NULL, 21, 14, 0, 18.5, 'Clear', 60000);
    INSERT INTO games VALUES ('G2', 2023, 9.0, 'REG', 'TEAM_C', 'TEAM_A', '2023-11-05T13:00:00', NULL, 10, 27, 0, NULL, NULL, NULL);
    INSERT INTO games VALUES ('G3', 2022, 4.0, 'REG', 'TEAM_A', 'TEAM_C', '2022-10-02T13:00:00', NULL, NULL, NULL, NULL, NULL, NULL, NULL);
";

#[test]
fn unfiltered_games_return_all_rows_newest_first() {
    let path = "/tmp/next_top_model_fixture_games_all.db";
    fixture(path, GAMES_FIXTURE);
    let games = get_games(path, None, None).expect("healthy fixture should list games");
    let uids: Vec<&str> = games.iter().map(|g| g.game_uid.as_str()).collect();
    assert_eq!(uids, vec!["G2", "G1", "G3"]);
}

#[test]
fn season_filter_returns_exactly_the_matching_rows_newest_first() {
    let path = "/tmp/next_top_model_fixture_games_season.db";
    fixture(path, GAMES_FIXTURE);
    let games = get_games(path, Some(2023), None).expect("healthy fixture should list games");
    let uids: Vec<&str> = games.iter().map(|g| g.game_uid.as_str()).collect();
    assert_eq!(uids, vec!["G2", "G1"]);
}

#[test]
fn team_filter_matches_home_and_away_each_once() {
    let path = "/tmp/next_top_model_fixture_games_team.db";
    fixture(
        path,
        "INSERT INTO games VALUES ('G1', 2023, NULL, NULL, 'TEAM_A', 'TEAM_B', '2023-09-10T13:00:00', NULL, NULL, NULL, NULL, NULL, NULL, NULL);
         INSERT INTO games VALUES ('G2', 2023, NULL, NULL, 'TEAM_C', 'TEAM_A', '2023-11-05T13:00:00', NULL, NULL, NULL, NULL, NULL, NULL, NULL);
         INSERT INTO games VALUES ('G3', 2023, NULL, NULL, 'TEAM_B', 'TEAM_C', '2023-12-03T13:00:00', NULL, NULL, NULL, NULL, NULL, NULL, NULL);",
    );
    let games =
        get_games(path, None, Some(String::from("TEAM_A"))).expect("fixture should list games");
    let uids: Vec<&str> = games.iter().map(|g| g.game_uid.as_str()).collect();
    assert_eq!(uids, vec!["G2", "G1"]);
}

#[test]
fn team_on_both_sides_of_one_game_is_returned_once() {
    let path = "/tmp/next_top_model_fixture_games_both_sides.db";
    fixture(
        path,
        "INSERT INTO games VALUES ('G1', 2023, NULL, NULL, 'TEAM_A', 'TEAM_A', '2023-09-10T13:00:00', NULL, NULL, NULL, NULL, NULL, NULL, NULL);
         INSERT INTO games VALUES ('G2', 2023, NULL, NULL, 'TEAM_B', 'TEAM_C', '2023-11-05T13:00:00', NULL, NULL, NULL, NULL, NULL, NULL, NULL);",
    );
    let games =
        get_games(path, None, Some(String::from("TEAM_A"))).expect("fixture should list games");
    let uids: Vec<&str> = games.iter().map(|g| g.game_uid.as_str()).collect();
    assert_eq!(uids, vec!["G1"]);
}

#[test]
fn both_game_filters_conjoin() {
    let path = "/tmp/next_top_model_fixture_games_both_filters.db";
    fixture(path, GAMES_FIXTURE);
    let games = get_games(path, Some(2022), Some(String::from("TEAM_A")))
        .expect("fixture should list games");
    let uids: Vec<&str> = games.iter().map(|g| g.game_uid.as_str()).collect();
    assert_eq!(uids, vec!["G3"]);
}

#[test]
fn game_real_columns_round_trip_as_bits() {
    let path = "/tmp/next_top_model_fixture_games_reals.db";
    fixture(path, GAMES_FIXTURE);
    let games = get_games(path, None, None).expect("fixture should list games");
    let g1 = games.iter().find(|g| g.game_uid == "G1").expect("G1 present");
    assert_eq!(g1.week, Some(1.0f64.to_bits()));
    assert_eq!(g1.weather_temp, Some(18.5f64.to_bits()));
    let g3 = games.iter().find(|g| g.game_uid == "G3").expect("G3 present");
    assert_eq!(g3.week, Some(4.0f64.to_bits()));
    assert_eq!(g3.weather_temp, None);
    assert_eq!(g3.home_score, None);
}

#[test]
fn season_stats_filter_and_sort() {
    let path = "/tmp/next_top_model_fixture_season_stats.db";
    fixture(
        path,
        "INSERT INTO team_season_stats VALUES ('S1', 'TEAM_A', 2023, 12, 5, 0, 0.706);
         INSERT INTO team_season_stats VALUES ('S2', 'TEAM_B', 2023, 9, 8, 0, 0.529);
         INSERT INTO team_season_stats VALUES ('S3', 'TEAM_A', 2022, 8, 9, NULL, 0.471);",
    );
    let all = get_team_season_stats(path, None, None).expect("fixture should list stats");
    let uids: Vec<&str> = all.iter().map(|s| s.stat_uid.as_str()).collect();
    assert_eq!(uids, vec!["S1", "S2", "S3"]);

    let team_a = get_team_season_stats(path, None, Some(String::from("TEAM_A")))
        .expect("fixture should list stats");
    let uids: Vec<&str> = team_a.iter().map(|s| s.stat_uid.as_str()).collect();
    assert_eq!(uids, vec!["S1", "S3"]);
    assert_eq!(team_a[0].win_percentage, Some(0.706f64.to_bits()));
    assert_eq!(team_a[1].ties, None);

    let narrowed = get_team_season_stats(path, Some(2023), Some(String::from("TEAM_A")))
        .expect("fixture should list stats");
    assert_eq!(narrowed.len(), 1);
    assert_eq!(narrowed[0].stat_uid, "S1");
}

#[test]
fn game_stats_filter_and_sort() {
    let path = "/tmp/next_top_model_fixture_game_stats.db";
    fixture(
        path,
        "INSERT INTO team_game_stats VALUES ('S1', 'G1', 'TEAM_A', 1, 350, 250, 100, 20, 1, 5);
         INSERT INTO team_game_stats VALUES ('S2', 'G1', 'TEAM_B', 0, 280, NULL, NULL, 15, NULL, 7);
         INSERT INTO team_game_stats VALUES ('S3', 'G2', 'TEAM_A', 0, 310, 200, 110, 18, 0, 3);",
    );
    let by_game = get_team_game_stats(path, Some(String::from("G1")), None)
        .expect("fixture should list stats");
    let uids: Vec<&str> = by_game.iter().map(|s| s.stat_uid.as_str()).collect();
    assert_eq!(uids, vec!["S1", "S2"]);

    let by_both = get_team_game_stats(path, Some(String::from("G1")), Some(String::from("TEAM_B")))
        .expect("fixture should list stats");
    assert_eq!(by_both.len(), 1);
    assert_eq!(by_both[0].stat_uid, "S2");
    assert_eq!(by_both[0].passing_yards, None);
    assert_eq!(by_both[0].penalties, Some(7));
}

#[test]
fn list_operations_report_a_missing_file() {
    let path = "/tmp/next_top_model_no_such_database_here.db";
    let err = get_games(path, None, None).expect_err("a missing file must fail the call");
    assert_eq!(err, "Database file not found at: /tmp/next_top_model_no_such_database_here.db");
    assert!(get_db_connection(path).is_err());
}

#[test]
fn health_check_reports_a_missing_file_in_band() {
    let status = test_db_connection("/tmp/next_top_model_no_such_database_either.db");
    assert_eq!(
        status,
        "Database file not found at: /tmp/next_top_model_no_such_database_either.db"
    );
}

#[test]
fn health_check_reports_an_unreachable_file_in_band() {
    // `/tmp` exists but is a directory, which the engine cannot open.
    let status = test_db_connection("/tmp");
    assert!(
        status.starts_with("Database connection error: "),
        "unexpected status: {}",
        status
    );
}

#[test]
fn health_check_reports_the_row_count_when_healthy() {
    let path = "/tmp/next_top_model_fixture_health.db";
    fixture(path, GAMES_FIXTURE);
    let status = test_db_connection(path);
    assert_eq!(status, "Database connected successfully. Games count: 3");
}

use next_top_model::compose::{
    count_query, game_stats_query, games_query, probe_query, season_stats_query, teams_query,
};
use next_top_model::sqlval::BindValue;

#[test]
fn probe_and_count_statements_are_fixed() {
    assert_eq!(probe_query(), "SELECT 1");
    assert_eq!(count_query(), "SELECT COUNT(*) FROM games");
}

const GAMES_BASE: &str = "SELECT game_uid, season, week, game_type, home_team_uid, away_team_uid, game_datetime, venue, home_score, away_score, overtime, weather_temp, weather_condition, attendance FROM games WHERE 1=1";
const GAMES_ORDER: &str = " ORDER BY game_datetime DESC";

#[test]
fn teams_statement_is_fixed() {
    let (sql, params) = teams_query();
    assert_eq!(
        sql,
        "SELECT team_uid, city, name, abbreviation, stadium_name, stadium_capacity, conference, division FROM teams ORDER BY conference, division, name"
    );
    assert!(params.is_empty());
}

#[test]
fn games_statement_without_filters_adds_no_predicate() {
    let (sql, params) = games_query(&None, &None);
    assert_eq!(sql, format!("{}{}", GAMES_BASE, GAMES_ORDER));
    assert!(params.is_empty());
}

#[test]
fn games_statement_with_season_only() {
    let (sql, params) = games_query(&Some(2023), &None);
    assert_eq!(sql, format!("{} AND season = ?{}", GAMES_BASE, GAMES_ORDER));
    assert_eq!(params, vec![BindValue::Int(2023)]);
}

#[test]
fn games_statement_with_team_only_binds_twice() {
    let (sql, params) = games_query(&None, &Some(String::from("TEAM_A")));
    assert_eq!(
        sql,
        format!("{} AND (home_team_uid = ? OR away_team_uid = ?){}", GAMES_BASE, GAMES_ORDER)
    );
    assert_eq!(
        params,
        vec![
            BindValue::Text(String::from("TEAM_A")),
            BindValue::Text(String::from("TEAM_A")),
        ]
    );
}

#[test]
fn games_statement_with_both_filters_in_declaration_order() {
    let (sql, params) = games_query(&Some(2022), &Some(String::from("TEAM_B")));
    assert_eq!(
        sql,
        format!(
            "{} AND season = ? AND (home_team_uid = ? OR away_team_uid = ?){}",
            GAMES_BASE, GAMES_ORDER
        )
    );
    assert_eq!(
        params,
        vec![
            BindValue::Int(2022),
            BindValue::Text(String::from("TEAM_B")),
            BindValue::Text(String::from("TEAM_B")),
        ]
    );
}

#[test]
fn season_stats_statement_all_combinations() {
    let base = "SELECT stat_uid, team_uid, season, wins, losses, ties, win_percentage FROM team_season_stats WHERE 1=1";
    let order = " ORDER BY season DESC, win_percentage DESC";

    let (sql, params) = season_stats_query(&None, &None);
    assert_eq!(sql, format!("{}{}", base, order));
    assert!(params.is_empty());

    let (sql, params) = season_stats_query(&Some(2021), &None);
    assert_eq!(sql, format!("{} AND season = ?{}", base, order));
    assert_eq!(params, vec![BindValue::Int(2021)]);

    let (sql, params) = season_stats_query(&None, &Some(String::from("TEAM_C")));
    assert_eq!(sql, format!("{} AND team_uid = ?{}", base, order));
    assert_eq!(params, vec![BindValue::Text(String::from("TEAM_C"))]);

    let (sql, params) = season_stats_query(&Some(2021), &Some(String::from("TEAM_C")));
    assert_eq!(sql, format!("{} AND season = ? AND team_uid = ?{}", base, order));
    assert_eq!(
        params,
        vec![BindValue::Int(2021), BindValue::Text(String::from("TEAM_C"))]
    );
}

#[test]
fn game_stats_statement_all_combinations() {
    let base = "SELECT stat_uid, game_uid, team_uid, is_home_team, total_yards, passing_yards, rushing_yards, first_downs, turnovers, penalties FROM team_game_stats WHERE 1=1";
    let order = " ORDER BY game_uid DESC";

    let (sql, params) = game_stats_query(&None, &None);
    assert_eq!(sql, format!("{}{}", base, order));
    assert!(params.is_empty());

    let (sql, params) = game_stats_query(&Some(String::from("G1")), &None);
    assert_eq!(sql, format!("{} AND game_uid = ?{}", base, order));
    assert_eq!(params, vec![BindValue::Text(String::from("G1"))]);

    let (sql, params) = game_stats_query(&None, &Some(String::from("TEAM_D")));
    assert_eq!(sql, format!("{} AND team_uid = ?{}", base, order));
    assert_eq!(params, vec![BindValue::Text(String::from("TEAM_D"))]);

    let (sql, params) = game_stats_query(&Some(String::from("G1")), &Some(String::from("TEAM_D")));
    assert_eq!(sql, format!("{} AND game_uid = ? AND team_uid = ?{}", base, order));
    assert_eq!(
        params,
        vec![
            BindValue::Text(String::from("G1")),
            BindValue::Text(String::from("TEAM_D")),
        ]
    );
}

use next_top_model::filter::{filter_game_stats, filter_games, filter_season_stats};
use next_top_model::records::{Game, TeamGameStat, TeamSeasonStat};

fn game(uid: &str, season: i32, home: Option<&str>, away: Option<&str>) -> Game {
    Game {
        game_uid: String::from(uid),
        season,
        week: None,
        game_type: None,
        home_team_uid: home.map(String::from),
        away_team_uid: away.map(String::from),
        game_datetime: None,
        venue: None,
        home_score: None,
        away_score: None,
        overtime: None,
        weather_temp: None,
        weather_condition: None,
        attendance: None,
    }
}

fn fixture() -> Vec<Game> {
    vec![
        game("G1", 2023, Some("TEAM_A"), Some("TEAM_B")),
        game("G2", 2023, Some("TEAM_C"), Some("TEAM_A")),
        game("G3", 2022, Some("TEAM_A"), Some("TEAM_C")),
        game("G4", 2023, Some("TEAM_B"), Some("TEAM_C")),
    ]
}

fn uids(games: &[Game]) -> Vec<&str> {
    games.iter().map(|g| g.game_uid.as_str()).collect()
}

#[test]
fn no_filters_keep_every_row() {
    let all = filter_games(fixture(), &None, &None);
    assert_eq!(uids(&all), vec!["G1", "G2", "G3", "G4"]);
}

#[test]
fn season_filter_alone() {
    let out = filter_games(fixture(), &Some(2023), &None);
    assert_eq!(uids(&out), vec!["G1", "G2", "G4"]);
}

#[test]
fn team_filter_alone_matches_home_or_away() {
    let out = filter_games(fixture(), &None, &Some(String::from("TEAM_A")));
    assert_eq!(uids(&out), vec!["G1", "G2", "G3"]);
}

#[test]
fn both_filters_conjoin() {
    let out = filter_games(fixture(), &Some(2023), &Some(String::from("TEAM_A")));
    assert_eq!(uids(&out), vec!["G1", "G2"]);
}

#[test]
fn team_on_both_sides_is_kept_once() {
    let mut rows = fixture();
    rows.push(game("G5", 2023, Some("TEAM_A"), Some("TEAM_A")));
    let out = filter_games(rows, &None, &Some(String::from("TEAM_A")));
    assert_eq!(uids(&out), vec!["G1", "G2", "G3", "G5"]);
}

#[test]
fn absent_team_in_game_never_matches() {
    let rows = vec![game("G6", 2023, None, None)];
    let out = filter_games(rows, &None, &Some(String::from("TEAM_A")));
    assert!(out.is_empty());
}

fn season_stat(uid: &str, team: &str, season: i32) -> TeamSeasonStat {
    TeamSeasonStat {
        stat_uid: String::from(uid),
        team_uid: String::from(team),
        season,
        wins: None,
        losses: None,
        ties: None,
        win_percentage: None,
    }
}

#[test]
fn season_stats_filters_conjoin() {
    let rows = vec![
        season_stat("S1", "TEAM_A", 2023),
        season_stat("S2", "TEAM_B", 2023),
        season_stat("S3", "TEAM_A", 2022),
    ];
    let out = filter_season_stats(rows, &Some(2023), &Some(String::from("TEAM_A")));
    assert_eq!(out.len(), 1);
    assert_eq!(out[0].stat_uid, "S1");
}

fn game_stat(uid: &str, game: &str, team: &str) -> TeamGameStat {
    TeamGameStat {
        stat_uid: String::from(uid),
        game_uid: String::from(game),
        team_uid: String::from(team),
        is_home_team: None,
        total_yards: None,
        passing_yards: None,
        rushing_yards: None,
        first_downs: None,
        turnovers: None,
        penalties: None,
    }
}

#[test]
fn game_stats_filters_conjoin() {
    let rows = vec![
        game_stat("S1", "G1", "TEAM_A"),
        game_stat("S2", "G1", "TEAM_B"),
        game_stat("S3", "G2", "TEAM_A"),
    ];
    let out = filter_game_stats(rows, &Some(String::from("G1")), &Some(String::from("TEAM_A")));
    assert_eq!(out.len(), 1);
    assert_eq!(out[0].stat_uid, "S1");

    let by_game = filter_game_stats(
        vec![
            game_stat("S1", "G1", "TEAM_A"),
            game_stat("S2", "G1", "TEAM_B"),
            game_stat("S3", "G2", "TEAM_A"),
        ],
        &Some(String::from("G1")),
        &None,
    );
    assert_eq!(by_game.len(), 2);
}

//! The four record kinds a query can return.
//!
//! Each record is a direct projection of one table row.  Identifiers and
//! foreign keys are opaque string tokens; most non-key fields are nullable in
//! storage and therefore optional here.  Columns whose stored type is a real
//! number are carried as the raw IEEE-754 bit pattern of the stored value, in
//! a `u64`, without interpretation: this layer never computes on them.

use vstd::prelude::*;

verus! {

/// One row of the `teams` table.
#[derive(Debug, PartialEq)]
pub struct Team {
    pub team_uid: String,
    pub city: Option<String>,
    pub name: String,
    pub abbreviation: Option<String>,
    pub stadium_name: Option<String>,
    pub stadium_capacity: Option<i32>,
    pub conference: Option<String>,
    pub division: Option<String>,
}

/// One row of the `games` table.  `week` and `weather_temp` hold the raw bits
/// of the stored real value.
#[derive(Debug, PartialEq)]
pub struct Game {
    pub game_uid: String,
    pub season: i32,
    pub week: Option<u64>,
    pub game_type: Option<String>,
    pub home_team_uid: Option<String>,
    pub away_team_uid: Option<String>,
    pub game_datetime: Option<String>,
    pub venue: Option<String>,
    pub home_score: Option<i32>,
    pub away_score: Option<i32>,
    pub overtime: Option<i32>,
    pub weather_temp: Option<u64>,
    pub weather_condition: Option<String>,
    pub attendance: Option<i32>,
}

/// One row of the `team_game_stats` table.
#[derive(Debug, PartialEq)]
pub struct TeamGameStat {
    pub stat_uid: String,
    pub game_uid: String,
    pub team_uid: String,
    pub is_home_team: Option<i32>,
    pub total_yards: Option<i32>,
    pub passing_yards: Option<i32>,
    pub rushing_yards: Option<i32>,
    pub first_downs: Option<i32>,
    pub turnovers: Option<i32>,
    pub penalties: Option<i32>,
}

/// One row of the `team_season_stats` table.  `win_percentage` holds the raw
/// bits of the stored real value.
#[derive(Debug, PartialEq)]
pub struct TeamSeasonStat {
    pub stat_uid: String,
    pub team_uid: String,
    pub season: i32,
    pub wins: Option<i32>,
    pub losses: Option<i32>,
    pub ties: Option<i32>,
    pub win_percentage: Option<u64>,
}

impl Clone for Team {
    /// A clone is the same record.
    fn clone(&self) -> (res: Self)
        ensures
            res == *self,
    {
        Team {
            team_uid: self.team_uid.clone(),
            city: self.city.clone(),
            name: self.name.clone(),
            abbreviation: self.abbreviation.clone(),
            stadium_name: self.stadium_name.clone(),
            stadium_capacity: self.stadium_capacity,
            conference: self.conference.clone(),
            division: self.division.clone(),
        }
    }
}

impl Clone for Game {
    /// A clone is the same record.
    fn clone(&self) -> (res: Self)
        ensures
            res == *self,
    {
        Game {
            game_uid: self.game_uid.clone(),
            season: self.season,
            week: self.week,
            game_type: self.game_type.clone(),
            home_team_uid: self.home_team_uid.clone(),
            away_team_uid: self.away_team_uid.clone(),
            game_datetime: self.game_datetime.clone(),
            venue: self.venue.clone(),
            home_score: self.home_score,
            away_score: self.away_score,
            overtime: self.overtime,
            weather_temp: self.weather_temp,
            weather_condition: self.weather_condition.clone(),
            attendance: self.attendance,
        }
    }
}

impl Clone for TeamGameStat {
    /// A clone is the same record.
    fn clone(&self) -> (res: Self)
        ensures
            res == *self,
    {
        TeamGameStat {
            stat_uid: self.stat_uid.clone(),
            game_uid: self.game_uid.clone(),
            team_uid: self.team_uid.clone(),
            is_home_team: self.is_home_team,
            total_yards: self.total_yards,
            passing_yards: self.passing_yards,
            rushing_yards: self.rushing_yards,
            first_downs: self.first_downs,
            turnovers: self.turnovers,
            penalties: self.penalties,
        }
    }
}

impl Clone for TeamSeasonStat {
    /// A clone is the same record.
    fn clone(&self) -> (res: Self)
        ensures
            res == *self,
    {
        TeamSeasonStat {
            stat_uid: self.stat_uid.clone(),
            team_uid: self.team_uid.clone(),
            season: self.season,
            wins: self.wins,
            losses: self.losses,
            ties: self.ties,
            win_percentage: self.win_percentage,
        }
    }
}

} // verus!

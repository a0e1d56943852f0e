//! The canonical records one daily scoreboard document decodes to, their
//! mathematical views, and the projection of one game to a match summary.
//!
//! Home and away sides are structurally identical but kept as distinct types:
//! the wire format encodes the roles positionally, and the records preserve
//! that distinction rather than collapse the two into one type with a flag.
//!
//! The fields `seed`, `in_bonus`, `player_slug` and `team` (of the odds
//! record) are polymorphic on the wire: they hold whatever JSON value was
//! received, untouched. The `odds` field is a JSON number kept exactly as
//! received.

use vstd::prelude::*;

use crate::json::JsonNumber;
use crate::json::JsonV;
use crate::json::JsonValue;
use crate::json::NumV;

verus! {

/// Feed provenance of one document.
#[derive(Debug, Clone, PartialEq)]
pub struct Meta {
    pub version: i64,
    pub request: String,
    pub time: String,
    pub code: i64,
}

/// View of `Meta`.
#[verifier::ext_equal]
pub struct MetaV {
    pub version: i64,
    pub request: Seq<char>,
    pub time: Seq<char>,
    pub code: i64,
}

/// Per-period score of the home side.
#[derive(Debug, Clone, PartialEq)]
pub struct Period {
    pub period: i64,
    pub period_type: String,
    pub score: i64,
}

/// View of `Period` and of `Period2`.
#[verifier::ext_equal]
pub struct PeriodV {
    pub period: i64,
    pub period_type: Seq<char>,
    pub score: i64,
}

/// Per-period score of the away side.
#[derive(Debug, Clone, PartialEq)]
pub struct Period2 {
    pub period: i64,
    pub period_type: String,
    pub score: i64,
}

/// The home side of one game.
#[derive(Debug, Clone, PartialEq)]
pub struct HomeTeam {
    pub team_id: i64,
    pub team_name: String,
    pub team_city: String,
    pub team_tricode: String,
    pub wins: i64,
    pub losses: i64,
    pub score: i64,
    pub seed: JsonValue,
    pub in_bonus: JsonValue,
    pub timeouts_remaining: i64,
    pub periods: Vec<Period>,
}

/// View of `HomeTeam` and of `AwayTeam`.
#[verifier::ext_equal]
pub struct TeamV {
    pub team_id: i64,
    pub team_name: Seq<char>,
    pub team_city: Seq<char>,
    pub team_tricode: Seq<char>,
    pub wins: i64,
    pub losses: i64,
    pub score: i64,
    pub seed: JsonV,
    pub in_bonus: JsonV,
    pub timeouts_remaining: i64,
    pub periods: Seq<PeriodV>,
}

/// The away side of one game.
#[derive(Debug, Clone, PartialEq)]
pub struct AwayTeam {
    pub team_id: i64,
    pub team_name: String,
    pub team_city: String,
    pub team_tricode: String,
    pub wins: i64,
    pub losses: i64,
    pub score: i64,
    pub seed: JsonValue,
    pub in_bonus: JsonValue,
    pub timeouts_remaining: i64,
    pub periods: Vec<Period2>,
}

/// Statistical leader of the home side.
#[derive(Debug, Clone, PartialEq)]
pub struct HomeLeaders {
    pub person_id: i64,
    pub name: String,
    pub jersey_num: String,
    pub position: String,
    pub team_tricode: String,
    pub player_slug: JsonValue,
    pub points: i64,
    pub rebounds: i64,
    pub assists: i64,
}

/// View of `HomeLeaders` and of `AwayLeaders`.
#[verifier::ext_equal]
pub struct LeaderV {
    pub person_id: i64,
    pub name: Seq<char>,
    pub jersey_num: Seq<char>,
    pub position: Seq<char>,
    pub team_tricode: Seq<char>,
    pub player_slug: JsonV,
    pub points: i64,
    pub rebounds: i64,
    pub assists: i64,
}

/// Statistical leader of the away side.
#[derive(Debug, Clone, PartialEq)]
pub struct AwayLeaders {
    pub person_id: i64,
    pub name: String,
    pub jersey_num: String,
    pub position: String,
    pub team_tricode: String,
    pub player_slug: JsonValue,
    pub points: i64,
    pub rebounds: i64,
    pub assists: i64,
}

/// The two statistical leaders of one game.
#[derive(Debug, Clone, PartialEq)]
pub struct GameLeaders {
    pub home_leaders: HomeLeaders,
    pub away_leaders: AwayLeaders,
}

/// View of `GameLeaders`.
#[verifier::ext_equal]
pub struct GameLeadersV {
    pub home_leaders: LeaderV,
    pub away_leaders: LeaderV,
}

/// Betting line of one game. `suspended` is an integer flag kept exactly as
/// received, never coerced to a boolean.
#[derive(Debug, Clone, PartialEq)]
pub struct PbOdds {
    pub team: JsonValue,
    pub odds: JsonNumber,
    pub suspended: i64,
}

/// View of `PbOdds`.
#[verifier::ext_equal]
pub struct PbOddsV {
    pub team: JsonV,
    pub odds: NumV,
    pub suspended: i64,
}

/// One game of the day.
#[derive(Debug, Clone, PartialEq)]
pub struct Game {
    pub game_id: String,
    pub game_code: String,
    pub game_status: i64,
    pub game_status_text: String,
    pub period: i64,
    pub game_clock: String,
    pub game_time_utc: String,
    pub game_et: String,
    pub regulation_periods: i64,
    pub if_necessary: bool,
    pub series_game_number: String,
    pub series_text: String,
    pub home_team: HomeTeam,
    pub away_team: AwayTeam,
    pub game_leaders: GameLeaders,
    pub pb_odds: PbOdds,
}

/// View of `Game`.
#[verifier::ext_equal]
pub struct GameV {
    pub game_id: Seq<char>,
    pub game_code: Seq<char>,
    pub game_status: i64,
    pub game_status_text: Seq<char>,
    pub period: i64,
    pub game_clock: Seq<char>,
    pub game_time_utc: Seq<char>,
    pub game_et: Seq<char>,
    pub regulation_periods: i64,
    pub if_necessary: bool,
    pub series_game_number: Seq<char>,
    pub series_text: Seq<char>,
    pub home_team: TeamV,
    pub away_team: TeamV,
    pub game_leaders: GameLeadersV,
    pub pb_odds: PbOddsV,
}

/// The day's scoreboard: the games in feed order.
#[derive(Debug, Clone, PartialEq)]
pub struct Scoreboard {
    pub game_date: String,
    pub league_id: String,
    pub league_name: String,
    pub games: Vec<Game>,
}

/// View of `Scoreboard`.
#[verifier::ext_equal]
pub struct ScoreboardV {
    pub game_date: Seq<char>,
    pub league_id: Seq<char>,
    pub league_name: Seq<char>,
    pub games: Seq<GameV>,
}

/// The root record one document decodes to.
#[derive(Debug, Clone, PartialEq)]
pub struct DailyGames {
    pub meta: Meta,
    pub scoreboard: Scoreboard,
}

/// View of `DailyGames`.
#[verifier::ext_equal]
pub struct DailyGamesV {
    pub meta: MetaV,
    pub scoreboard: ScoreboardV,
}

/// The minimal summary of one game: identity and team names.
#[derive(Debug, Clone, PartialEq)]
pub struct Match {
    pub game_id: String,
    pub home_team_id: i64,
    pub home_team_name: String,
    pub away_team_id: i64,
    pub away_team_name: String,
}

/// View of `Match`.
#[verifier::ext_equal]
pub struct MatchV {
    pub game_id: Seq<char>,
    pub home_team_id: i64,
    pub home_team_name: Seq<char>,
    pub away_team_id: i64,
    pub away_team_name: Seq<char>,
}

/// View of a list of home-side period entries.
pub open spec fn periods_view(s: Seq<Period>) -> Seq<PeriodV> {
    Seq::new(s.len(), |i: int| if 0 <= i < s.len() { s[i]@ } else { PeriodV::zeroed() })
}

/// View of a list of away-side period entries.
pub open spec fn periods2_view(s: Seq<Period2>) -> Seq<PeriodV> {
    Seq::new(s.len(), |i: int| if 0 <= i < s.len() { s[i]@ } else { PeriodV::zeroed() })
}

/// View of a list of games.
pub open spec fn games_view(s: Seq<Game>) -> Seq<GameV> {
    Seq::new(s.len(), |i: int| if 0 <= i < s.len() { s[i]@ } else { GameV::zeroed() })
}

impl View for Meta {
    type V = MetaV;

    open spec fn view(&self) -> MetaV {
        MetaV {
            version: self.version,
            request: self.request@,
            time: self.time@,
            code: self.code,
        }
    }
}

impl View for Period {
    type V = PeriodV;

    open spec fn view(&self) -> PeriodV {
        PeriodV { period: self.period, period_type: self.period_type@, score: self.score }
    }
}

impl View for Period2 {
    type V = PeriodV;

    open spec fn view(&self) -> PeriodV {
        PeriodV { period: self.period, period_type: self.period_type@, score: self.score }
    }
}

impl View for HomeTeam {
    type V = TeamV;

    open spec fn view(&self) -> TeamV {
        TeamV {
            team_id: self.team_id,
            team_name: self.team_name@,
            team_city: self.team_city@,
            team_tricode: self.team_tricode@,
            wins: self.wins,
            losses: self.losses,
            score: self.score,
            seed: self.seed@,
            in_bonus: self.in_bonus@,
            timeouts_remaining: self.timeouts_remaining,
            periods: periods_view(self.periods@),
        }
    }
}

impl View for AwayTeam {
    type V = TeamV;

    open spec fn view(&self) -> TeamV {
        TeamV {
            team_id: self.team_id,
            team_name: self.team_name@,
            team_city: self.team_city@,
            team_tricode: self.team_tricode@,
            wins: self.wins,
            losses: self.losses,
            score: self.score,
            seed: self.seed@,
            in_bonus: self.in_bonus@,
            timeouts_remaining: self.timeouts_remaining,
            periods: periods2_view(self.periods@),
        }
    }
}

impl View for HomeLeaders {
    type V = LeaderV;

    open spec fn view(&self) -> LeaderV {
        LeaderV {
            person_id: self.person_id,
            name: self.name@,
            jersey_num: self.jersey_num@,
            position: self.position@,
            team_tricode: self.team_tricode@,
            player_slug: self.player_slug@,
            points: self.points,
            rebounds: self.rebounds,
            assists: self.assists,
        }
    }
}

impl View for AwayLeaders {
    type V = LeaderV;

    open spec fn view(&self) -> LeaderV {
        LeaderV {
            person_id: self.person_id,
            name: self.name@,
            jersey_num: self.jersey_num@,
            position: self.position@,
            team_tricode: self.team_tricode@,
            player_slug: self.player_slug@,
            points: self.points,
            rebounds: self.rebounds,
            assists: self.assists,
        }
    }
}

impl View for GameLeaders {
    type V = GameLeadersV;

    open spec fn view(&self) -> GameLeadersV {
        GameLeadersV { home_leaders: self.home_leaders@, away_leaders: self.away_leaders@ }
    }
}

impl View for PbOdds {
    type V = PbOddsV;

    open spec fn view(&self) -> PbOddsV {
        PbOddsV { team: self.team@, odds: self.odds@, suspended: self.suspended }
    }
}

impl View for Game {
    type V = GameV;

    open spec fn view(&self) -> GameV {
        GameV {
            game_id: self.game_id@,
            game_code: self.game_code@,
            game_status: self.game_status,
            game_status_text: self.game_status_text@,
            period: self.period,
            game_clock: self.game_clock@,
            game_time_utc: self.game_time_utc@,
            game_et: self.game_et@,
            regulation_periods: self.regulation_periods,
            if_necessary: self.if_necessary,
            series_game_number: self.series_game_number@,
            series_text: self.series_text@,
            home_team: self.home_team@,
            away_team: self.away_team@,
            game_leaders: self.game_leaders@,
            pb_odds: self.pb_odds@,
        }
    }
}

impl View for Scoreboard {
    type V = ScoreboardV;

    open spec fn view(&self) -> ScoreboardV {
        ScoreboardV {
            game_date: self.game_date@,
            league_id: self.league_id@,
            league_name: self.league_name@,
            games: games_view(self.games@),
        }
    }
}

impl View for DailyGames {
    type V = DailyGamesV;

    open spec fn view(&self) -> DailyGamesV {
        DailyGamesV { meta: self.meta@, scoreboard: self.scoreboard@ }
    }
}

impl View for Match {
    type V = MatchV;

    open spec fn view(&self) -> MatchV {
        MatchV {
            game_id: self.game_id@,
            home_team_id: self.home_team_id,
            home_team_name: self.home_team_name@,
            away_team_id: self.away_team_id,
            away_team_name: self.away_team_name@,
        }
    }
}

impl MetaV {
    /// The record a document without a `meta` object decodes to.
    pub open spec fn zeroed() -> MetaV {
        MetaV { version: 0, request: Seq::empty(), time: Seq::empty(), code: 0 }
    }
}

impl PeriodV {
    /// The record a period entry without fields decodes to.
    pub open spec fn zeroed() -> PeriodV {
        PeriodV { period: 0, period_type: Seq::empty(), score: 0 }
    }
}

impl TeamV {
    /// The record a game without this team object decodes to.
    pub open spec fn zeroed() -> TeamV {
        TeamV {
            team_id: 0,
            team_name: Seq::empty(),
            team_city: Seq::empty(),
            team_tricode: Seq::empty(),
            wins: 0,
            losses: 0,
            score: 0,
            seed: JsonV::Null,
            in_bonus: JsonV::Null,
            timeouts_remaining: 0,
            periods: Seq::empty(),
        }
    }
}

impl LeaderV {
    /// The record a leaders object without this side decodes to.
    pub open spec fn zeroed() -> LeaderV {
        LeaderV {
            person_id: 0,
            name: Seq::empty(),
            jersey_num: Seq::empty(),
            position: Seq::empty(),
            team_tricode: Seq::empty(),
            player_slug: JsonV::Null,
            points: 0,
            rebounds: 0,
            assists: 0,
        }
    }
}

impl GameLeadersV {
    /// The record a game without a `gameLeaders` object decodes to.
    pub open spec fn zeroed() -> GameLeadersV {
        GameLeadersV { home_leaders: LeaderV::zeroed(), away_leaders: LeaderV::zeroed() }
    }
}

impl PbOddsV {
    /// The record a game without a `pbOdds` object decodes to.
    pub open spec fn zeroed() -> PbOddsV {
        PbOddsV { team: JsonV::Null, odds: NumV::Int(0), suspended: 0 }
    }
}

impl GameV {
    /// The record an empty game object decodes to.
    pub open spec fn zeroed() -> GameV {
        GameV {
            game_id: Seq::empty(),
            game_code: Seq::empty(),
            game_status: 0,
            game_status_text: Seq::empty(),
            period: 0,
            game_clock: Seq::empty(),
            game_time_utc: Seq::empty(),
            game_et: Seq::empty(),
            regulation_periods: 0,
            if_necessary: false,
            series_game_number: Seq::empty(),
            series_text: Seq::empty(),
            home_team: TeamV::zeroed(),
            away_team: TeamV::zeroed(),
            game_leaders: GameLeadersV::zeroed(),
            pb_odds: PbOddsV::zeroed(),
        }
    }
}

impl ScoreboardV {
    /// The record a document without a `scoreboard` object decodes to.
    pub open spec fn zeroed() -> ScoreboardV {
        ScoreboardV {
            game_date: Seq::empty(),
            league_id: Seq::empty(),
            league_name: Seq::empty(),
            games: Seq::empty(),
        }
    }
}

impl DailyGamesV {
    /// The record an empty document object decodes to.
    pub open spec fn zeroed() -> DailyGamesV {
        DailyGamesV { meta: MetaV::zeroed(), scoreboard: ScoreboardV::zeroed() }
    }
}

impl Default for Meta {
    fn default() -> (d: Meta)
        ensures
            d@ == MetaV::zeroed(),
    {
        Meta { version: 0, request: String::new(), time: String::new(), code: 0 }
    }
}

impl Default for Period {
    fn default() -> (d: Period)
        ensures
            d@ == PeriodV::zeroed(),
    {
        Period { period: 0, period_type: String::new(), score: 0 }
    }
}

impl Default for Period2 {
    fn default() -> (d: Period2)
        ensures
            d@ == PeriodV::zeroed(),
    {
        Period2 { period: 0, period_type: String::new(), score: 0 }
    }
}

impl Default for HomeTeam {
    fn default() -> (d: HomeTeam)
        ensures
            d@ == TeamV::zeroed(),
    {
        let d = HomeTeam {
            team_id: 0,
            team_name: String::new(),
            team_city: String::new(),
            team_tricode: String::new(),
            wins: 0,
            losses: 0,
            score: 0,
            seed: JsonValue::Null,
            in_bonus: JsonValue::Null,
            timeouts_remaining: 0,
            periods: Vec::new(),
        };
        proof {
            assert(d@.periods =~= Seq::<PeriodV>::empty());
        }
        d
    }
}

impl Default for AwayTeam {
    fn default() -> (d: AwayTeam)
        ensures
            d@ == TeamV::zeroed(),
    {
        let d = AwayTeam {
            team_id: 0,
            team_name: String::new(),
            team_city: String::new(),
            team_tricode: String::new(),
            wins: 0,
            losses: 0,
            score: 0,
            seed: JsonValue::Null,
            in_bonus: JsonValue::Null,
            timeouts_remaining: 0,
            periods: Vec::new(),
        };
        proof {
            assert(d@.periods =~= Seq::<PeriodV>::empty());
        }
        d
    }
}

impl Default for HomeLeaders {
    fn default() -> (d: HomeLeaders)
        ensures
            d@ == LeaderV::zeroed(),
    {
        HomeLeaders {
            person_id: 0,
            name: String::new(),
            jersey_num: String::new(),
            position: String::new(),
            team_tricode: String::new(),
            player_slug: JsonValue::Null,
            points: 0,
            rebounds: 0,
            assists: 0,
        }
    }
}

impl Default for AwayLeaders {
    fn default() -> (d: AwayLeaders)
        ensures
            d@ == LeaderV::zeroed(),
    {
        AwayLeaders {
            person_id: 0,
            name: String::new(),
            jersey_num: String::new(),
            position: String::new(),
            team_tricode: String::new(),
            player_slug: JsonValue::Null,
            points: 0,
            rebounds: 0,
            assists: 0,
        }
    }
}

impl Default for GameLeaders {
    fn default() -> (d: GameLeaders)
        ensures
            d@ == GameLeadersV::zeroed(),
    {
        GameLeaders { home_leaders: HomeLeaders::default(), away_leaders: AwayLeaders::default() }
    }
}

impl Default for PbOdds {
    fn default() -> (d: PbOdds)
        ensures
            d@ == PbOddsV::zeroed(),
    {
        PbOdds { team: JsonValue::Null, odds: JsonNumber::Int(0), suspended: 0 }
    }
}

impl Default for Game {
    fn default() -> (d: Game)
        ensures
            d@ == GameV::zeroed(),
    {
        Game {
            game_id: String::new(),
            game_code: String::new(),
            game_status: 0,
            game_status_text: String::new(),
            period: 0,
            game_clock: String::new(),
            game_time_utc: String::new(),
            game_et: String::new(),
            regulation_periods: 0,
            if_necessary: false,
            series_game_number: String::new(),
            series_text: String::new(),
            home_team: HomeTeam::default(),
            away_team: AwayTeam::default(),
            game_leaders: GameLeaders::default(),
            pb_odds: PbOdds::default(),
        }
    }
}

impl Default for Scoreboard {
    fn default() -> (d: Scoreboard)
        ensures
            d@ == ScoreboardV::zeroed(),
    {
        let d = Scoreboard {
            game_date: String::new(),
            league_id: String::new(),
            league_name: String::new(),
            games: Vec::new(),
        };
        proof {
            assert(d@.games =~= Seq::<GameV>::empty());
        }
        d
    }
}

impl Default for DailyGames {
    fn default() -> (d: DailyGames)
        ensures
            d@ == DailyGamesV::zeroed(),
    {
        DailyGames { meta: Meta::default(), scoreboard: Scoreboard::default() }
    }
}

/// What the match summary of a game is: identity copied, each side's display
/// name the city and the name joined with one space.
pub open spec fn match_of(g: GameV) -> MatchV {
    MatchV {
        game_id: g.game_id,
        home_team_id: g.home_team.team_id,
        home_team_name: g.home_team.team_city + " "@ + g.home_team.team_name,
        away_team_id: g.away_team.team_id,
        away_team_name: g.away_team.team_city + " "@ + g.away_team.team_name,
    }
}

impl Match {
    /// Projects one game to its match summary. Total: every game a decode
    /// produced, and any other, has exactly one summary, determined by the
    /// game alone.
    pub fn from_game(game: Game) -> (m: Match)
        ensures
            m@ == match_of(game@),
    {
        let mut home_team_name = game.home_team.team_city;
        home_team_name.append(" ");
        home_team_name.append(game.home_team.team_name.as_str());
        let mut away_team_name = game.away_team.team_city;
        away_team_name.append(" ");
        away_team_name.append(game.away_team.team_name.as_str());
        Match {
            game_id: game.game_id,
            home_team_id: game.home_team.team_id,
            home_team_name,
            away_team_id: game.away_team.team_id,
            away_team_name,
        }
    }
}

} // verus!

//! The document decoder: from a JSON tree to the canonical records.
//!
//! The schema is permissive about presence and strict about types: a field
//! absent from the wire takes its type's zero value, while a field present
//! with an incompatible type fails the whole decode with the path of the
//! offending field. The polymorphic fields (`seed`, `inBonus`, `playerSlug`,
//! `team` of the odds object) accept any JSON value and keep it as received.
//!
//! Every `spec_decode_*` function is the meaning of a decode; the executable
//! decoders are proved to return exactly what those functions say.

use vstd::prelude::*;
use vstd::string::StringExecFns;

use crate::json::JsonNumber;
use crate::json::JsonV;
use crate::json::JsonValue;
use crate::json::NumV;
use crate::json::kv_view;
use crate::json::json_clone;
use crate::json::json_view;
use crate::json::obj_get;
use crate::json::obj_get_ref;
use crate::json::arr_view;
use crate::model::AwayLeaders;
use crate::model::AwayTeam;
use crate::model::GameLeaders;
use crate::model::GameLeadersV;
use crate::model::HomeLeaders;
use crate::model::HomeTeam;
use crate::model::LeaderV;
use crate::model::Meta;
use crate::model::MetaV;
use crate::model::PbOdds;
use crate::model::PbOddsV;
use crate::model::Period;
use crate::model::Period2;
use crate::model::PeriodV;
use crate::model::TeamV;
use crate::model::periods2_view;
use crate::model::periods_view;
use crate::model::Game;
use crate::model::GameV;
use crate::model::Scoreboard;
use crate::model::ScoreboardV;
use crate::model::DailyGames;
use crate::model::DailyGamesV;
use crate::model::games_view;

verus! {

/// One step of the path to a field: a key of an object, or an index of an
/// array.
#[derive(Debug, Clone, PartialEq)]
pub enum PathSeg {
    Field(String),
    Item(usize),
}

/// View of `PathSeg`.
#[verifier::ext_equal]
pub enum SegV {
    Field(Seq<char>),
    Item(int),
}

impl View for PathSeg {
    type V = SegV;

    open spec fn view(&self) -> SegV {
        match self {
            PathSeg::Field(k) => SegV::Field(k@),
            PathSeg::Item(i) => SegV::Item(*i as int),
        }
    }
}

/// View of a path.
pub open spec fn path_view(p: Seq<PathSeg>) -> Seq<SegV> {
    Seq::new(
        p.len(),
        |i: int|
            if 0 <= i < p.len() {
                p[i]@
            } else {
                SegV::Item(0)
            },
    )
}

/// Why a decode failed: the text is not a well-formed document, or a
/// strictly-typed field holds an incompatible value, named by its path.
#[derive(Debug, Clone, PartialEq)]
pub enum DecodeError {
    Parse,
    TypeMismatch(Vec<PathSeg>),
}

/// View of `DecodeError`.
#[verifier::ext_equal]
pub enum DecodeErrV {
    Parse,
    TypeMismatch(Seq<SegV>),
}

impl View for DecodeError {
    type V = DecodeErrV;

    open spec fn view(&self) -> DecodeErrV {
        match self {
            DecodeError::Parse => DecodeErrV::Parse,
            DecodeError::TypeMismatch(p) => DecodeErrV::TypeMismatch(path_view(p@)),
        }
    }
}

/// A strict integer field: absent means zero; a non-integer value is a
/// mismatch at that key.
pub open spec fn field_i64(o: Seq<(Seq<char>, JsonV)>, key: Seq<char>) -> Result<i64, Seq<SegV>> {
    match obj_get(o, key) {
        Option::None => Ok(0),
        Option::Some(JsonV::Num(NumV::Int(i))) => Ok(i),
        Option::Some(_) => Err(seq![SegV::Field(key)]),
    }
}

/// A strict string field: absent means the empty string.
pub open spec fn field_string(o: Seq<(Seq<char>, JsonV)>, key: Seq<char>) -> Result<
    Seq<char>,
    Seq<SegV>,
> {
    match obj_get(o, key) {
        Option::None => Ok(Seq::empty()),
        Option::Some(JsonV::Str(s)) => Ok(s),
        Option::Some(_) => Err(seq![SegV::Field(key)]),
    }
}

/// A strict boolean field: absent means false.
pub open spec fn field_bool(o: Seq<(Seq<char>, JsonV)>, key: Seq<char>) -> Result<
    bool,
    Seq<SegV>,
> {
    match obj_get(o, key) {
        Option::None => Ok(false),
        Option::Some(JsonV::Bool(b)) => Ok(b),
        Option::Some(_) => Err(seq![SegV::Field(key)]),
    }
}

/// A strict numeric field: absent means zero; any JSON number is accepted.
pub open spec fn field_num(o: Seq<(Seq<char>, JsonV)>, key: Seq<char>) -> Result<
    NumV,
    Seq<SegV>,
> {
    match obj_get(o, key) {
        Option::None => Ok(NumV::Int(0)),
        Option::Some(JsonV::Num(n)) => Ok(n),
        Option::Some(_) => Err(seq![SegV::Field(key)]),
    }
}

/// A polymorphic field: whatever stands there is kept; absent means null.
/// Never a mismatch.
pub open spec fn field_any(o: Seq<(Seq<char>, JsonV)>, key: Seq<char>) -> JsonV {
    match obj_get(o, key) {
        Option::None => JsonV::Null,
        Option::Some(v) => v,
    }
}

/// What decoding a `meta` object means.
pub open spec fn spec_decode_meta(v: JsonV) -> Result<MetaV, Seq<SegV>> {
    match v {
        JsonV::Obj(o) => {
            let version = field_i64(o, "version"@);
            let request = field_string(o, "request"@);
            let time = field_string(o, "time"@);
            let code = field_i64(o, "code"@);
            if version is Err {
                Err(version->Err_0)
            } else if request is Err {
                Err(request->Err_0)
            } else if time is Err {
                Err(time->Err_0)
            } else if code is Err {
                Err(code->Err_0)
            } else {
                Ok(
                    MetaV {
                        version: version->Ok_0,
                        request: request->Ok_0,
                        time: time->Ok_0,
                        code: code->Ok_0,
                    },
                )
            }
        },
        _ => Err(Seq::empty()),
    }
}

/// What decoding one period entry means.
pub open spec fn spec_decode_period(v: JsonV) -> Result<PeriodV, Seq<SegV>> {
    match v {
        JsonV::Obj(o) => {
            let period = field_i64(o, "period"@);
            let period_type = field_string(o, "periodType"@);
            let score = field_i64(o, "score"@);
            if period is Err {
                Err(period->Err_0)
            } else if period_type is Err {
                Err(period_type->Err_0)
            } else if score is Err {
                Err(score->Err_0)
            } else {
                Ok(
                    PeriodV {
                        period: period->Ok_0,
                        period_type: period_type->Ok_0,
                        score: score->Ok_0,
                    },
                )
            }
        },
        _ => Err(Seq::empty()),
    }
}

/// What decoding a period list means: the entries in wire order; the first
/// failing entry names the path, from index `i` on.
pub open spec fn spec_decode_periods(a: Seq<JsonV>, i: int) -> Result<Seq<PeriodV>, Seq<SegV>>
    decreases a.len() - i,
{
    if i < 0 || i >= a.len() {
        Ok(Seq::empty())
    } else {
        match spec_decode_period(a[i]) {
            Ok(per) => match spec_decode_periods(a, i + 1) {
                Ok(rest) => Ok(seq![per] + rest),
                Err(e) => Err(e),
            },
            Err(p) => Err(seq![SegV::Item(i)] + p),
        }
    }
}

/// What decoding one team object means: either side of a game.
pub open spec fn spec_decode_team(v: JsonV) -> Result<TeamV, Seq<SegV>> {
    match v {
        JsonV::Obj(o) => {
            let team_id = field_i64(o, "teamId"@);
            let team_name = field_string(o, "teamName"@);
            let team_city = field_string(o, "teamCity"@);
            let team_tricode = field_string(o, "teamTricode"@);
            let wins = field_i64(o, "wins"@);
            let losses = field_i64(o, "losses"@);
            let score = field_i64(o, "score"@);
            let seed = field_any(o, "seed"@);
            let in_bonus = field_any(o, "inBonus"@);
            let timeouts_remaining = field_i64(o, "timeoutsRemaining"@);
            let periods = match obj_get(o, "periods"@) {
                Option::None => Ok(Seq::<PeriodV>::empty()),
                Option::Some(JsonV::Arr(a)) => match spec_decode_periods(a, 0) {
                    Ok(ps) => Ok(ps),
                    Err(p) => Err(seq![SegV::Field("periods"@)] + p),
                },
                Option::Some(_) => Err(seq![SegV::Field("periods"@)]),
            };
            if team_id is Err {
                Err(team_id->Err_0)
            } else if team_name is Err {
                Err(team_name->Err_0)
            } else if team_city is Err {
                Err(team_city->Err_0)
            } else if team_tricode is Err {
                Err(team_tricode->Err_0)
            } else if wins is Err {
                Err(wins->Err_0)
            } else if losses is Err {
                Err(losses->Err_0)
            } else if score is Err {
                Err(score->Err_0)
            } else if timeouts_remaining is Err {
                Err(timeouts_remaining->Err_0)
            } else if periods is Err {
                Err(periods->Err_0)
            } else {
                Ok(
                    TeamV {
                        team_id: team_id->Ok_0,
                        team_name: team_name->Ok_0,
                        team_city: team_city->Ok_0,
                        team_tricode: team_tricode->Ok_0,
                        wins: wins->Ok_0,
                        losses: losses->Ok_0,
                        score: score->Ok_0,
                        seed: seed,
                        in_bonus: in_bonus,
                        timeouts_remaining: timeouts_remaining->Ok_0,
                        periods: periods->Ok_0,
                    },
                )
            }
        },
        _ => Err(Seq::empty()),
    }
}

/// What decoding one leader record means.
pub open spec fn spec_decode_leader(v: JsonV) -> Result<LeaderV, Seq<SegV>> {
    match v {
        JsonV::Obj(o) => {
            let person_id = field_i64(o, "personId"@);
            let name = field_string(o, "name"@);
            let jersey_num = field_string(o, "jerseyNum"@);
            let position = field_string(o, "position"@);
            let team_tricode = field_string(o, "teamTricode"@);
            let player_slug = field_any(o, "playerSlug"@);
            let points = field_i64(o, "points"@);
            let rebounds = field_i64(o, "rebounds"@);
            let assists = field_i64(o, "assists"@);
            if person_id is Err {
                Err(person_id->Err_0)
            } else if name is Err {
                Err(name->Err_0)
            } else if jersey_num is Err {
                Err(jersey_num->Err_0)
            } else if position is Err {
                Err(position->Err_0)
            } else if team_tricode is Err {
                Err(team_tricode->Err_0)
            } else if points is Err {
                Err(points->Err_0)
            } else if rebounds is Err {
                Err(rebounds->Err_0)
            } else if assists is Err {
                Err(assists->Err_0)
            } else {
                Ok(
                    LeaderV {
                        person_id: person_id->Ok_0,
                        name: name->Ok_0,
                        jersey_num: jersey_num->Ok_0,
                        position: position->Ok_0,
                        team_tricode: team_tricode->Ok_0,
                        player_slug: player_slug,
                        points: points->Ok_0,
                        rebounds: rebounds->Ok_0,
                        assists: assists->Ok_0,
                    },
                )
            }
        },
        _ => Err(Seq::empty()),
    }
}

/// What decoding the `gameLeaders` object means.
pub open spec fn spec_decode_leaders(v: JsonV) -> Result<GameLeadersV, Seq<SegV>> {
    match v {
        JsonV::Obj(o) => {
            let home_leaders = match obj_get(o, "homeLeaders"@) {
                Option::None => Ok(LeaderV::zeroed()),
                Option::Some(w) => match spec_decode_leader(w) {
                    Ok(l) => Ok(l),
                    Err(p) => Err(seq![SegV::Field("homeLeaders"@)] + p),
                },
            };
            let away_leaders = match obj_get(o, "awayLeaders"@) {
                Option::None => Ok(LeaderV::zeroed()),
                Option::Some(w) => match spec_decode_leader(w) {
                    Ok(l) => Ok(l),
                    Err(p) => Err(seq![SegV::Field("awayLeaders"@)] + p),
                },
            };
            if home_leaders is Err {
                Err(home_leaders->Err_0)
            } else if away_leaders is Err {
                Err(away_leaders->Err_0)
            } else {
                Ok(
                    GameLeadersV {
                        home_leaders: home_leaders->Ok_0,
                        away_leaders: away_leaders->Ok_0,
                    },
                )
            }
        },
        _ => Err(Seq::empty()),
    }
}

/// What decoding the `pbOdds` object means.
pub open spec fn spec_decode_pb_odds(v: JsonV) -> Result<PbOddsV, Seq<SegV>> {
    match v {
        JsonV::Obj(o) => {
            let team = field_any(o, "team"@);
            let odds = field_num(o, "odds"@);
            let suspended = field_i64(o, "suspended"@);
            if odds is Err {
                Err(odds->Err_0)
            } else if suspended is Err {
                Err(suspended->Err_0)
            } else {
                Ok(PbOddsV { team: team, odds: odds->Ok_0, suspended: suspended->Ok_0 })
            }
        },
        _ => Err(Seq::empty()),
    }
}

/// What decoding one game object means.
pub open spec fn spec_decode_game(v: JsonV) -> Result<GameV, Seq<SegV>> {
    match v {
        JsonV::Obj(o) => {
            let game_id = field_string(o, "gameId"@);
            let game_code = field_string(o, "gameCode"@);
            let game_status = field_i64(o, "gameStatus"@);
            let game_status_text = field_string(o, "gameStatusText"@);
            let period = field_i64(o, "period"@);
            let game_clock = field_string(o, "gameClock"@);
            let game_time_utc = field_string(o, "gameTimeUTC"@);
            let game_et = field_string(o, "gameEt"@);
            let regulation_periods = field_i64(o, "regulationPeriods"@);
            let if_necessary = field_bool(o, "ifNecessary"@);
            let series_game_number = field_string(o, "seriesGameNumber"@);
            let series_text = field_string(o, "seriesText"@);
            let home_team = match obj_get(o, "homeTeam"@) {
                Option::None => Ok(TeamV::zeroed()),
                Option::Some(w) => match spec_decode_team(w) {
                    Ok(t) => Ok(t),
                    Err(p) => Err(seq![SegV::Field("homeTeam"@)] + p),
                },
            };
            let away_team = match obj_get(o, "awayTeam"@) {
                Option::None => Ok(TeamV::zeroed()),
                Option::Some(w) => match spec_decode_team(w) {
                    Ok(t) => Ok(t),
                    Err(p) => Err(seq![SegV::Field("awayTeam"@)] + p),
                },
            };
            let game_leaders = match obj_get(o, "gameLeaders"@) {
                Option::None => Ok(GameLeadersV::zeroed()),
                Option::Some(w) => match spec_decode_leaders(w) {
                    Ok(l) => Ok(l),
                    Err(p) => Err(seq![SegV::Field("gameLeaders"@)] + p),
                },
            };
            let pb_odds = match obj_get(o, "pbOdds"@) {
                Option::None => Ok(PbOddsV::zeroed()),
                Option::Some(w) => match spec_decode_pb_odds(w) {
                    Ok(x) => Ok(x),
                    Err(p) => Err(seq![SegV::Field("pbOdds"@)] + p),
                },
            };
            if game_id is Err {
                Err(game_id->Err_0)
            } else if game_code is Err {
                Err(game_code->Err_0)
            } else if game_status is Err {
                Err(game_status->Err_0)
            } else if game_status_text is Err {
                Err(game_status_text->Err_0)
            } else if period is Err {
                Err(period->Err_0)
            } else if game_clock is Err {
                Err(game_clock->Err_0)
            } else if game_time_utc is Err {
                Err(game_time_utc->Err_0)
            } else if game_et is Err {
                Err(game_et->Err_0)
            } else if regulation_periods is Err {
                Err(regulation_periods->Err_0)
            } else if if_necessary is Err {
                Err(if_necessary->Err_0)
            } else if series_game_number is Err {
                Err(series_game_number->Err_0)
            } else if series_text is Err {
                Err(series_text->Err_0)
            } else if home_team is Err {
                Err(home_team->Err_0)
            } else if away_team is Err {
                Err(away_team->Err_0)
            } else if game_leaders is Err {
                Err(game_leaders->Err_0)
            } else if pb_odds is Err {
                Err(pb_odds->Err_0)
            } else {
                Ok(
                    GameV {
                        game_id: game_id->Ok_0,
                        game_code: game_code->Ok_0,
                        game_status: game_status->Ok_0,
                        game_status_text: game_status_text->Ok_0,
                        period: period->Ok_0,
                        game_clock: game_clock->Ok_0,
                        game_time_utc: game_time_utc->Ok_0,
                        game_et: game_et->Ok_0,
                        regulation_periods: regulation_periods->Ok_0,
                        if_necessary: if_necessary->Ok_0,
                        series_game_number: series_game_number->Ok_0,
                        series_text: series_text->Ok_0,
                        home_team: home_team->Ok_0,
                        away_team: away_team->Ok_0,
                        game_leaders: game_leaders->Ok_0,
                        pb_odds: pb_odds->Ok_0,
                    },
                )
            }
        },
        _ => Err(Seq::empty()),
    }
}

/// What decoding the game list means: the games in feed order; the first
/// failing game names the path, from index `i` on.
pub open spec fn spec_decode_games(a: Seq<JsonV>, i: int) -> Result<Seq<GameV>, Seq<SegV>>
    decreases a.len() - i,
{
    if i < 0 || i >= a.len() {
        Ok(Seq::empty())
    } else {
        match spec_decode_game(a[i]) {
            Ok(g) => match spec_decode_games(a, i + 1) {
                Ok(rest) => Ok(seq![g] + rest),
                Err(e) => Err(e),
            },
            Err(p) => Err(seq![SegV::Item(i)] + p),
        }
    }
}

/// What decoding the `scoreboard` object means.
pub open spec fn spec_decode_scoreboard(v: JsonV) -> Result<ScoreboardV, Seq<SegV>> {
    match v {
        JsonV::Obj(o) => {
            let game_date = field_string(o, "gameDate"@);
            let league_id = field_string(o, "leagueId"@);
            let league_name = field_string(o, "leagueName"@);
            let games = match obj_get(o, "games"@) {
                Option::None => Ok(Seq::<GameV>::empty()),
                Option::Some(JsonV::Arr(a)) => match spec_decode_games(a, 0) {
                    Ok(gs) => Ok(gs),
                    Err(p) => Err(seq![SegV::Field("games"@)] + p),
                },
                Option::Some(_) => Err(seq![SegV::Field("games"@)]),
            };
            if game_date is Err {
                Err(game_date->Err_0)
            } else if league_id is Err {
                Err(league_id->Err_0)
            } else if league_name is Err {
                Err(league_name->Err_0)
            } else if games is Err {
                Err(games->Err_0)
            } else {
                Ok(
                    ScoreboardV {
                        game_date: game_date->Ok_0,
                        league_id: league_id->Ok_0,
                        league_name: league_name->Ok_0,
                        games: games->Ok_0,
                    },
                )
            }
        },
        _ => Err(Seq::empty()),
    }
}

/// What decoding a whole document's tree means.
pub open spec fn spec_decode_daily_games(v: JsonV) -> Result<DailyGamesV, Seq<SegV>> {
    match v {
        JsonV::Obj(o) => {
            let meta = match obj_get(o, "meta"@) {
                Option::None => Ok(MetaV::zeroed()),
                Option::Some(w) => match spec_decode_meta(w) {
                    Ok(m) => Ok(m),
                    Err(p) => Err(seq![SegV::Field("meta"@)] + p),
                },
            };
            let scoreboard = match obj_get(o, "scoreboard"@) {
                Option::None => Ok(ScoreboardV::zeroed()),
                Option::Some(w) => match spec_decode_scoreboard(w) {
                    Ok(s) => Ok(s),
                    Err(p) => Err(seq![SegV::Field("scoreboard"@)] + p),
                },
            };
            if meta is Err {
                Err(meta->Err_0)
            } else if scoreboard is Err {
                Err(scoreboard->Err_0)
            } else {
                Ok(DailyGamesV { meta: meta->Ok_0, scoreboard: scoreboard->Ok_0 })
            }
        },
        _ => Err(Seq::empty()),
    }
}

/// A path of one step: the key of the mismatching field.
fn field_err(key: &String) -> (p: Vec<PathSeg>)
    ensures
        path_view(p@) == seq![SegV::Field(key@)],
{
    let mut p: Vec<PathSeg> = Vec::new();
    p.push(PathSeg::Field(key.clone()));
    proof {
        assert(path_view(p@) =~= seq![SegV::Field(key@)]);
    }
    p
}

/// Reads a strict integer field.
fn get_i64(o: &Vec<(String, JsonValue)>, key: &String) -> (r: Result<i64, Vec<PathSeg>>)
    ensures
        match r {
            Ok(i) => field_i64(kv_view(o@), key@) == Ok::<i64, Seq<SegV>>(i),
            Err(p) => field_i64(kv_view(o@), key@) == Err::<i64, Seq<SegV>>(path_view(p@)),
        },
{
    match obj_get_ref(o, key) {
        Option::None => Ok(0),
        Option::Some(JsonValue::Num(JsonNumber::Int(i))) => Ok(*i),
        Option::Some(_) => Err(field_err(key)),
    }
}

/// Reads a strict string field.
fn get_string(o: &Vec<(String, JsonValue)>, key: &String) -> (r: Result<String, Vec<PathSeg>>)
    ensures
        match r {
            Ok(s) => field_string(kv_view(o@), key@) == Ok::<Seq<char>, Seq<SegV>>(s@),
            Err(p) => field_string(kv_view(o@), key@) == Err::<Seq<char>, Seq<SegV>>(path_view(p@)),
        },
{
    match obj_get_ref(o, key) {
        Option::None => Ok(String::new()),
        Option::Some(JsonValue::Str(s)) => Ok(s.clone()),
        Option::Some(_) => Err(field_err(key)),
    }
}

/// Reads a strict boolean field.
fn get_bool(o: &Vec<(String, JsonValue)>, key: &String) -> (r: Result<bool, Vec<PathSeg>>)
    ensures
        match r {
            Ok(b) => field_bool(kv_view(o@), key@) == Ok::<bool, Seq<SegV>>(b),
            Err(p) => field_bool(kv_view(o@), key@) == Err::<bool, Seq<SegV>>(path_view(p@)),
        },
{
    match obj_get_ref(o, key) {
        Option::None => Ok(false),
        Option::Some(JsonValue::Bool(b)) => Ok(*b),
        Option::Some(_) => Err(field_err(key)),
    }
}

/// Reads a strict numeric field.
fn get_num(o: &Vec<(String, JsonValue)>, key: &String) -> (r: Result<JsonNumber, Vec<PathSeg>>)
    ensures
        match r {
            Ok(n) => field_num(kv_view(o@), key@) == Ok::<NumV, Seq<SegV>>(n@),
            Err(p) => field_num(kv_view(o@), key@) == Err::<NumV, Seq<SegV>>(path_view(p@)),
        },
{
    match obj_get_ref(o, key) {
        Option::None => Ok(JsonNumber::Int(0)),
        Option::Some(JsonValue::Num(n)) => Ok(n.clone()),
        Option::Some(_) => Err(field_err(key)),
    }
}

/// Reads a polymorphic field, keeping the value as received.
fn get_any(o: &Vec<(String, JsonValue)>, key: &String) -> (r: JsonValue)
    ensures
        r@ == field_any(kv_view(o@), key@),
{
    match obj_get_ref(o, key) {
        Option::None => JsonValue::Null,
        Option::Some(v) => json_clone(v),
    }
}

/// Prefixes a key step to a path.
fn prefix_field(key: &String, p: Vec<PathSeg>) -> (r: Vec<PathSeg>)
    ensures
        path_view(r@) == seq![SegV::Field(key@)] + path_view(p@),
{
    let ghost p0 = p@;
    let mut r: Vec<PathSeg> = Vec::new();
    r.push(PathSeg::Field(key.clone()));
    let mut rest = p;
    r.append(&mut rest);
    proof {
        assert(path_view(r@) =~= seq![SegV::Field(key@)] + path_view(p0));
    }
    r
}

/// Prefixes an index step to a path.
fn prefix_item(idx: usize, p: Vec<PathSeg>) -> (r: Vec<PathSeg>)
    ensures
        path_view(r@) == seq![SegV::Item(idx as int)] + path_view(p@),
{
    let ghost p0 = p@;
    let mut r: Vec<PathSeg> = Vec::new();
    r.push(PathSeg::Item(idx));
    let mut rest = p;
    r.append(&mut rest);
    proof {
        assert(path_view(r@) =~= seq![SegV::Item(idx as int)] + path_view(p0));
    }
    r
}

/// The empty path: the mismatch is the value itself.
fn empty_path() -> (p: Vec<PathSeg>)
    ensures
        path_view(p@) == Seq::<SegV>::empty(),
{
    let p: Vec<PathSeg> = Vec::new();
    proof {
        assert(path_view(p@) =~= Seq::<SegV>::empty());
    }
    p
}

/// Decodes one home-side period entry.
pub fn decode_period(v: &JsonValue) -> (r: Result<Period, Vec<PathSeg>>)
    ensures
        match r {
            Ok(x) => spec_decode_period(v@) == Ok::<PeriodV, Seq<SegV>>(x@),
            Err(p) => spec_decode_period(v@) == Err::<PeriodV, Seq<SegV>>(path_view(p@)),
        },
{
    let o = match v {
        JsonValue::Obj(o) => o,
        _ => {
            return Err(empty_path());
        },
    };
    let period = match get_i64(o, &String::from_str("period")) {
        Ok(x) => x,
        Err(p) => return Err(p),
    };
    let period_type = match get_string(o, &String::from_str("periodType")) {
        Ok(x) => x,
        Err(p) => return Err(p),
    };
    let score = match get_i64(o, &String::from_str("score")) {
        Ok(x) => x,
        Err(p) => return Err(p),
    };
    Ok(Period { period, period_type, score })
}

/// Decodes one away-side period entry.
pub fn decode_period2(v: &JsonValue) -> (r: Result<Period2, Vec<PathSeg>>)
    ensures
        match r {
            Ok(x) => spec_decode_period(v@) == Ok::<PeriodV, Seq<SegV>>(x@),
            Err(p) => spec_decode_period(v@) == Err::<PeriodV, Seq<SegV>>(path_view(p@)),
        },
{
    let o = match v {
        JsonValue::Obj(o) => o,
        _ => {
            return Err(empty_path());
        },
    };
    let period = match get_i64(o, &String::from_str("period")) {
        Ok(x) => x,
        Err(p) => return Err(p),
    };
    let period_type = match get_string(o, &String::from_str("periodType")) {
        Ok(x) => x,
        Err(p) => return Err(p),
    };
    let score = match get_i64(o, &String::from_str("score")) {
        Ok(x) => x,
        Err(p) => return Err(p),
    };
    Ok(Period2 { period, period_type, score })
}

/// Decodes a home-side period list.
pub fn decode_periods(a: &Vec<JsonValue>) -> (r: Result<Vec<Period>, Vec<PathSeg>>)
    ensures
        match r {
            Ok(ps) => spec_decode_periods(arr_view(a@), 0) == Ok::<Seq<PeriodV>, Seq<SegV>>(
                periods_view(ps@),
            ),
            Err(p) => spec_decode_periods(arr_view(a@), 0) == Err::<Seq<PeriodV>, Seq<SegV>>(
                path_view(p@),
            ),
        },
{
    let ghost av = arr_view(a@);
    let mut out: Vec<Period> = Vec::new();
    let mut i: usize = 0;
    proof {
        assert(periods_view(out@) =~= Seq::<PeriodV>::empty());
    }
    while i < a.len()
        invariant
            i <= a.len(),
            av == arr_view(a@),
            av.len() == a@.len(),
            out@.len() == i,
            spec_decode_periods(av, 0) == (match spec_decode_periods(av, i as int) {
                Ok(rest) => Ok::<Seq<PeriodV>, Seq<SegV>>(periods_view(out@) + rest),
                Err(e) => Err::<Seq<PeriodV>, Seq<SegV>>(e),
            }),
        decreases a.len() - i,
    {
        let ghost out0 = out@;
        proof {
            assert(av[i as int] == json_view(a@[i as int]));
        }
        match decode_period(&a[i]) {
            Ok(per) => {
                out.push(per);
                proof {
                    assert(periods_view(out@) =~= periods_view(out0) + seq![per@]);
                    if spec_decode_periods(av, i as int + 1) is Ok {
                        let rest = spec_decode_periods(av, i as int + 1)->Ok_0;
                        assert(periods_view(out0) + (seq![per@] + rest) =~= periods_view(out@)
                            + rest);
                    }
                }
            },
            Err(p) => {
                return Err(prefix_item(i, p));
            },
        }
        i = i + 1;
    }
    proof {
        assert(spec_decode_periods(av, i as int) == Ok::<Seq<PeriodV>, Seq<SegV>>(
            Seq::<PeriodV>::empty(),
        ));
        assert(periods_view(out@) + Seq::<PeriodV>::empty() =~= periods_view(out@));
    }
    Ok(out)
}

/// Decodes an away-side period list.
pub fn decode_periods2(a: &Vec<JsonValue>) -> (r: Result<Vec<Period2>, Vec<PathSeg>>)
    ensures
        match r {
            Ok(ps) => spec_decode_periods(arr_view(a@), 0) == Ok::<Seq<PeriodV>, Seq<SegV>>(
                periods2_view(ps@),
            ),
            Err(p) => spec_decode_periods(arr_view(a@), 0) == Err::<Seq<PeriodV>, Seq<SegV>>(
                path_view(p@),
            ),
        },
{
    let ghost av = arr_view(a@);
    let mut out: Vec<Period2> = Vec::new();
    let mut i: usize = 0;
    proof {
        assert(periods2_view(out@) =~= Seq::<PeriodV>::empty());
    }
    while i < a.len()
        invariant
            i <= a.len(),
            av == arr_view(a@),
            av.len() == a@.len(),
            out@.len() == i,
            spec_decode_periods(av, 0) == (match spec_decode_periods(av, i as int) {
                Ok(rest) => Ok::<Seq<PeriodV>, Seq<SegV>>(periods2_view(out@) + rest),
                Err(e) => Err::<Seq<PeriodV>, Seq<SegV>>(e),
            }),
        decreases a.len() - i,
    {
        let ghost out0 = out@;
        proof {
            assert(av[i as int] == json_view(a@[i as int]));
        }
        match decode_period2(&a[i]) {
            Ok(per) => {
                out.push(per);
                proof {
                    assert(periods2_view(out@) =~= periods2_view(out0) + seq![per@]);
                    if spec_decode_periods(av, i as int + 1) is Ok {
                        let rest = spec_decode_periods(av, i as int + 1)->Ok_0;
                        assert(periods2_view(out0) + (seq![per@] + rest) =~= periods2_view(out@)
                            + rest);
                    }
                }
            },
            Err(p) => {
                return Err(prefix_item(i, p));
            },
        }
        i = i + 1;
    }
    proof {
        assert(spec_decode_periods(av, i as int) == Ok::<Seq<PeriodV>, Seq<SegV>>(
            Seq::<PeriodV>::empty(),
        ));
        assert(periods2_view(out@) + Seq::<PeriodV>::empty() =~= periods2_view(out@));
    }
    Ok(out)
}

/// Decodes the home side of a game.
pub fn decode_home_team(v: &JsonValue) -> (r: Result<HomeTeam, Vec<PathSeg>>)
    ensures
        match r {
            Ok(t) => spec_decode_team(v@) == Ok::<TeamV, Seq<SegV>>(t@),
            Err(p) => spec_decode_team(v@) == Err::<TeamV, Seq<SegV>>(path_view(p@)),
        },
{
    let o = match v {
        JsonValue::Obj(o) => o,
        _ => {
            return Err(empty_path());
        },
    };
    let team_id = match get_i64(o, &String::from_str("teamId")) {
        Ok(x) => x,
        Err(p) => return Err(p),
    };
    let team_name = match get_string(o, &String::from_str("teamName")) {
        Ok(x) => x,
        Err(p) => return Err(p),
    };
    let team_city = match get_string(o, &String::from_str("teamCity")) {
        Ok(x) => x,
        Err(p) => return Err(p),
    };
    let team_tricode = match get_string(o, &String::from_str("teamTricode")) {
        Ok(x) => x,
        Err(p) => return Err(p),
    };
    let wins = match get_i64(o, &String::from_str("wins")) {
        Ok(x) => x,
        Err(p) => return Err(p),
    };
    let losses = match get_i64(o, &String::from_str("losses")) {
        Ok(x) => x,
        Err(p) => return Err(p),
    };
    let score = match get_i64(o, &String::from_str("score")) {
        Ok(x) => x,
        Err(p) => return Err(p),
    };
    let seed = get_any(o, &String::from_str("seed"));
    let in_bonus = get_any(o, &String::from_str("inBonus"));
    let timeouts_remaining = match get_i64(o, &String::from_str("timeoutsRemaining")) {
        Ok(x) => x,
        Err(p) => return Err(p),
    };
    let key_periods = String::from_str("periods");
    let periods: Vec<Period> = match obj_get_ref(o, &key_periods) {
        Option::None => Vec::new(),
        Option::Some(JsonValue::Arr(a)) => match decode_periods(a) {
            Ok(ps) => ps,
            Err(p) => return Err(prefix_field(&key_periods, p)),
        },
        Option::Some(_) => return Err(field_err(&key_periods)),
    };
    proof {
        assert(periods_view(Seq::<Period>::empty()) =~= Seq::<PeriodV>::empty());
    }
    Ok(
        HomeTeam {
            team_id,
            team_name,
            team_city,
            team_tricode,
            wins,
            losses,
            score,
            seed,
            in_bonus,
            timeouts_remaining,
            periods,
        },
    )
}

/// Decodes the away side of a game.
pub fn decode_away_team(v: &JsonValue) -> (r: Result<AwayTeam, Vec<PathSeg>>)
    ensures
        match r {
            Ok(t) => spec_decode_team(v@) == Ok::<TeamV, Seq<SegV>>(t@),
            Err(p) => spec_decode_team(v@) == Err::<TeamV, Seq<SegV>>(path_view(p@)),
        },
{
    let o = match v {
        JsonValue::Obj(o) => o,
        _ => {
            return Err(empty_path());
        },
    };
    let team_id = match get_i64(o, &String::from_str("teamId")) {
        Ok(x) => x,
        Err(p) => return Err(p),
    };
    let team_name = match get_string(o, &String::from_str("teamName")) {
        Ok(x) => x,
        Err(p) => return Err(p),
    };
    let team_city = match get_string(o, &String::from_str("teamCity")) {
        Ok(x) => x,
        Err(p) => return Err(p),
    };
    let team_tricode = match get_string(o, &String::from_str("teamTricode")) {
        Ok(x) => x,
        Err(p) => return Err(p),
    };
    let wins = match get_i64(o, &String::from_str("wins")) {
        Ok(x) => x,
        Err(p) => return Err(p),
    };
    let losses = match get_i64(o, &String::from_str("losses")) {
        Ok(x) => x,
        Err(p) => return Err(p),
    };
    let score = match get_i64(o, &String::from_str("score")) {
        Ok(x) => x,
        Err(p) => return Err(p),
    };
    let seed = get_any(o, &String::from_str("seed"));
    let in_bonus = get_any(o, &String::from_str("inBonus"));
    let timeouts_remaining = match get_i64(o, &String::from_str("timeoutsRemaining")) {
        Ok(x) => x,
        Err(p) => return Err(p),
    };
    let key_periods = String::from_str("periods");
    let periods: Vec<Period2> = match obj_get_ref(o, &key_periods) {
        Option::None => Vec::new(),
        Option::Some(JsonValue::Arr(a)) => match decode_periods2(a) {
            Ok(ps) => ps,
            Err(p) => return Err(prefix_field(&key_periods, p)),
        },
        Option::Some(_) => return Err(field_err(&key_periods)),
    };
    proof {
        assert(periods2_view(Seq::<Period2>::empty()) =~= Seq::<PeriodV>::empty());
    }
    Ok(
        AwayTeam {
            team_id,
            team_name,
            team_city,
            team_tricode,
            wins,
            losses,
            score,
            seed,
            in_bonus,
            timeouts_remaining,
            periods,
        },
    )
}

/// Decodes the home side's leader record.
pub fn decode_home_leaders(v: &JsonValue) -> (r: Result<HomeLeaders, Vec<PathSeg>>)
    ensures
        match r {
            Ok(l) => spec_decode_leader(v@) == Ok::<LeaderV, Seq<SegV>>(l@),
            Err(p) => spec_decode_leader(v@) == Err::<LeaderV, Seq<SegV>>(path_view(p@)),
        },
{
    let o = match v {
        JsonValue::Obj(o) => o,
        _ => {
            return Err(empty_path());
        },
    };
    let person_id = match get_i64(o, &String::from_str("personId")) {
        Ok(x) => x,
        Err(p) => return Err(p),
    };
    let name = match get_string(o, &String::from_str("name")) {
        Ok(x) => x,
        Err(p) => return Err(p),
    };
    let jersey_num = match get_string(o, &String::from_str("jerseyNum")) {
        Ok(x) => x,
        Err(p) => return Err(p),
    };
    let position = match get_string(o, &String::from_str("position")) {
        Ok(x) => x,
        Err(p) => return Err(p),
    };
    let team_tricode = match get_string(o, &String::from_str("teamTricode")) {
        Ok(x) => x,
        Err(p) => return Err(p),
    };
    let player_slug = get_any(o, &String::from_str("playerSlug"));
    let points = match get_i64(o, &String::from_str("points")) {
        Ok(x) => x,
        Err(p) => return Err(p),
    };
    let rebounds = match get_i64(o, &String::from_str("rebounds")) {
        Ok(x) => x,
        Err(p) => return Err(p),
    };
    let assists = match get_i64(o, &String::from_str("assists")) {
        Ok(x) => x,
        Err(p) => return Err(p),
    };
    Ok(
        HomeLeaders {
            person_id,
            name,
            jersey_num,
            position,
            team_tricode,
            player_slug,
            points,
            rebounds,
            assists,
        },
    )
}

/// Decodes the away side's leader record.
pub fn decode_away_leaders(v: &JsonValue) -> (r: Result<AwayLeaders, Vec<PathSeg>>)
    ensures
        match r {
            Ok(l) => spec_decode_leader(v@) == Ok::<LeaderV, Seq<SegV>>(l@),
            Err(p) => spec_decode_leader(v@) == Err::<LeaderV, Seq<SegV>>(path_view(p@)),
        },
{
    let o = match v {
        JsonValue::Obj(o) => o,
        _ => {
            return Err(empty_path());
        },
    };
    let person_id = match get_i64(o, &String::from_str("personId")) {
        Ok(x) => x,
        Err(p) => return Err(p),
    };
    let name = match get_string(o, &String::from_str("name")) {
        Ok(x) => x,
        Err(p) => return Err(p),
    };
    let jersey_num = match get_string(o, &String::from_str("jerseyNum")) {
        Ok(x) => x,
        Err(p) => return Err(p),
    };
    let position = match get_string(o, &String::from_str("position")) {
        Ok(x) => x,
        Err(p) => return Err(p),
    };
    let team_tricode = match get_string(o, &String::from_str("teamTricode")) {
        Ok(x) => x,
        Err(p) => return Err(p),
    };
    let player_slug = get_any(o, &String::from_str("playerSlug"));
    let points = match get_i64(o, &String::from_str("points")) {
        Ok(x) => x,
        Err(p) => return Err(p),
    };
    let rebounds = match get_i64(o, &String::from_str("rebounds")) {
        Ok(x) => x,
        Err(p) => return Err(p),
    };
    let assists = match get_i64(o, &String::from_str("assists")) {
        Ok(x) => x,
        Err(p) => return Err(p),
    };
    Ok(
        AwayLeaders {
            person_id,
            name,
            jersey_num,
            position,
            team_tricode,
            player_slug,
            points,
            rebounds,
            assists,
        },
    )
}

/// Decodes the `gameLeaders` object.
pub fn decode_game_leaders(v: &JsonValue) -> (r: Result<GameLeaders, Vec<PathSeg>>)
    ensures
        match r {
            Ok(l) => spec_decode_leaders(v@) == Ok::<GameLeadersV, Seq<SegV>>(l@),
            Err(p) => spec_decode_leaders(v@) == Err::<GameLeadersV, Seq<SegV>>(path_view(p@)),
        },
{
    let o = match v {
        JsonValue::Obj(o) => o,
        _ => {
            return Err(empty_path());
        },
    };
    let key_home = String::from_str("homeLeaders");
    let home_leaders = match obj_get_ref(o, &key_home) {
        Option::None => HomeLeaders::default(),
        Option::Some(w) => match decode_home_leaders(w) {
            Ok(l) => l,
            Err(p) => return Err(prefix_field(&key_home, p)),
        },
    };
    let key_away = String::from_str("awayLeaders");
    let away_leaders = match obj_get_ref(o, &key_away) {
        Option::None => AwayLeaders::default(),
        Option::Some(w) => match decode_away_leaders(w) {
            Ok(l) => l,
            Err(p) => return Err(prefix_field(&key_away, p)),
        },
    };
    Ok(GameLeaders { home_leaders, away_leaders })
}

/// Decodes the `pbOdds` object.
pub fn decode_pb_odds(v: &JsonValue) -> (r: Result<PbOdds, Vec<PathSeg>>)
    ensures
        match r {
            Ok(x) => spec_decode_pb_odds(v@) == Ok::<PbOddsV, Seq<SegV>>(x@),
            Err(p) => spec_decode_pb_odds(v@) == Err::<PbOddsV, Seq<SegV>>(path_view(p@)),
        },
{
    let o = match v {
        JsonValue::Obj(o) => o,
        _ => {
            return Err(empty_path());
        },
    };
    let team = get_any(o, &String::from_str("team"));
    let odds = match get_num(o, &String::from_str("odds")) {
        Ok(x) => x,
        Err(p) => return Err(p),
    };
    let suspended = match get_i64(o, &String::from_str("suspended")) {
        Ok(x) => x,
        Err(p) => return Err(p),
    };
    Ok(PbOdds { team, odds, suspended })
}

/// Decodes a `meta` object.
pub fn decode_meta(v: &JsonValue) -> (r: Result<Meta, Vec<PathSeg>>)
    ensures
        match r {
            Ok(m) => spec_decode_meta(v@) == Ok::<MetaV, Seq<SegV>>(m@),
            Err(p) => spec_decode_meta(v@) == Err::<MetaV, Seq<SegV>>(path_view(p@)),
        },
{
    let o = match v {
        JsonValue::Obj(o) => o,
        _ => {
            let p: Vec<PathSeg> = Vec::new();
            proof {
                assert(path_view(p@) =~= Seq::<SegV>::empty());
            }
            return Err(p);
        },
    };
    let version = match get_i64(o, &String::from_str("version")) {
        Ok(x) => x,
        Err(p) => return Err(p),
    };
    let request = match get_string(o, &String::from_str("request")) {
        Ok(x) => x,
        Err(p) => return Err(p),
    };
    let time = match get_string(o, &String::from_str("time")) {
        Ok(x) => x,
        Err(p) => return Err(p),
    };
    let code = match get_i64(o, &String::from_str("code")) {
        Ok(x) => x,
        Err(p) => return Err(p),
    };
    Ok(Meta { version, request, time, code })
}

/// Decodes one game object.
pub fn decode_game(v: &JsonValue) -> (r: Result<Game, Vec<PathSeg>>)
    ensures
        match r {
            Ok(g) => spec_decode_game(v@) == Ok::<GameV, Seq<SegV>>(g@),
            Err(p) => spec_decode_game(v@) == Err::<GameV, Seq<SegV>>(path_view(p@)),
        },
{
    let o = match v {
        JsonValue::Obj(o) => o,
        _ => {
            return Err(empty_path());
        },
    };
    let game_id = match get_string(o, &String::from_str("gameId")) {
        Ok(x) => x,
        Err(p) => return Err(p),
    };
    let game_code = match get_string(o, &String::from_str("gameCode")) {
        Ok(x) => x,
        Err(p) => return Err(p),
    };
    let game_status = match get_i64(o, &String::from_str("gameStatus")) {
        Ok(x) => x,
        Err(p) => return Err(p),
    };
    let game_status_text = match get_string(o, &String::from_str("gameStatusText")) {
        Ok(x) => x,
        Err(p) => return Err(p),
    };
    let period = match get_i64(o, &String::from_str("period")) {
        Ok(x) => x,
        Err(p) => return Err(p),
    };
    let game_clock = match get_string(o, &String::from_str("gameClock")) {
        Ok(x) => x,
        Err(p) => return Err(p),
    };
    let game_time_utc = match get_string(o, &String::from_str("gameTimeUTC")) {
        Ok(x) => x,
        Err(p) => return Err(p),
    };
    let game_et = match get_string(o, &String::from_str("gameEt")) {
        Ok(x) => x,
        Err(p) => return Err(p),
    };
    let regulation_periods = match get_i64(o, &String::from_str("regulationPeriods")) {
        Ok(x) => x,
        Err(p) => return Err(p),
    };
    let if_necessary = match get_bool(o, &String::from_str("ifNecessary")) {
        Ok(x) => x,
        Err(p) => return Err(p),
    };
    let series_game_number = match get_string(o, &String::from_str("seriesGameNumber")) {
        Ok(x) => x,
        Err(p) => return Err(p),
    };
    let series_text = match get_string(o, &String::from_str("seriesText")) {
        Ok(x) => x,
        Err(p) => return Err(p),
    };
    let key_home = String::from_str("homeTeam");
    let home_team = match obj_get_ref(o, &key_home) {
        Option::None => HomeTeam::default(),
        Option::Some(w) => match decode_home_team(w) {
            Ok(t) => t,
            Err(p) => return Err(prefix_field(&key_home, p)),
        },
    };
    let key_away = String::from_str("awayTeam");
    let away_team = match obj_get_ref(o, &key_away) {
        Option::None => AwayTeam::default(),
        Option::Some(w) => match decode_away_team(w) {
            Ok(t) => t,
            Err(p) => return Err(prefix_field(&key_away, p)),
        },
    };
    let key_leaders = String::from_str("gameLeaders");
    let game_leaders = match obj_get_ref(o, &key_leaders) {
        Option::None => GameLeaders::default(),
        Option::Some(w) => match decode_game_leaders(w) {
            Ok(l) => l,
            Err(p) => return Err(prefix_field(&key_leaders, p)),
        },
    };
    let key_odds = String::from_str("pbOdds");
    let pb_odds = match obj_get_ref(o, &key_odds) {
        Option::None => PbOdds::default(),
        Option::Some(w) => match decode_pb_odds(w) {
            Ok(x) => x,
            Err(p) => return Err(prefix_field(&key_odds, p)),
        },
    };
    Ok(
        Game {
            game_id,
            game_code,
            game_status,
            game_status_text,
            period,
            game_clock,
            game_time_utc,
            game_et,
            regulation_periods,
            if_necessary,
            series_game_number,
            series_text,
            home_team,
            away_team,
            game_leaders,
            pb_odds,
        },
    )
}

/// Decodes the game list.
pub fn decode_games(a: &Vec<JsonValue>) -> (r: Result<Vec<Game>, Vec<PathSeg>>)
    ensures
        match r {
            Ok(gs) => spec_decode_games(arr_view(a@), 0) == Ok::<Seq<GameV>, Seq<SegV>>(
                games_view(gs@),
            ),
            Err(p) => spec_decode_games(arr_view(a@), 0) == Err::<Seq<GameV>, Seq<SegV>>(
                path_view(p@),
            ),
        },
{
    let ghost av = arr_view(a@);
    let mut out: Vec<Game> = Vec::new();
    let mut i: usize = 0;
    proof {
        assert(games_view(out@) =~= Seq::<GameV>::empty());
    }
    while i < a.len()
        invariant
            i <= a.len(),
            av == arr_view(a@),
            av.len() == a@.len(),
            out@.len() == i,
            spec_decode_games(av, 0) == (match spec_decode_games(av, i as int) {
                Ok(rest) => Ok::<Seq<GameV>, Seq<SegV>>(games_view(out@) + rest),
                Err(e) => Err::<Seq<GameV>, Seq<SegV>>(e),
            }),
        decreases a.len() - i,
    {
        let ghost out0 = out@;
        proof {
            assert(av[i as int] == json_view(a@[i as int]));
        }
        match decode_game(&a[i]) {
            Ok(g) => {
                out.push(g);
                proof {
                    assert(games_view(out@) =~= games_view(out0) + seq![g@]);
                    if spec_decode_games(av, i as int + 1) is Ok {
                        let rest = spec_decode_games(av, i as int + 1)->Ok_0;
                        assert(games_view(out0) + (seq![g@] + rest) =~= games_view(out@) + rest);
                    }
                }
            },
            Err(p) => {
                return Err(prefix_item(i, p));
            },
        }
        i = i + 1;
    }
    proof {
        assert(spec_decode_games(av, i as int) == Ok::<Seq<GameV>, Seq<SegV>>(
            Seq::<GameV>::empty(),
        ));
        assert(games_view(out@) + Seq::<GameV>::empty() =~= games_view(out@));
    }
    Ok(out)
}

/// Decodes the `scoreboard` object.
pub fn decode_scoreboard(v: &JsonValue) -> (r: Result<Scoreboard, Vec<PathSeg>>)
    ensures
        match r {
            Ok(s) => spec_decode_scoreboard(v@) == Ok::<ScoreboardV, Seq<SegV>>(s@),
            Err(p) => spec_decode_scoreboard(v@) == Err::<ScoreboardV, Seq<SegV>>(path_view(p@)),
        },
{
    let o = match v {
        JsonValue::Obj(o) => o,
        _ => {
            return Err(empty_path());
        },
    };
    let game_date = match get_string(o, &String::from_str("gameDate")) {
        Ok(x) => x,
        Err(p) => return Err(p),
    };
    let league_id = match get_string(o, &String::from_str("leagueId")) {
        Ok(x) => x,
        Err(p) => return Err(p),
    };
    let league_name = match get_string(o, &String::from_str("leagueName")) {
        Ok(x) => x,
        Err(p) => return Err(p),
    };
    let key_games = String::from_str("games");
    let games: Vec<Game> = match obj_get_ref(o, &key_games) {
        Option::None => Vec::new(),
        Option::Some(JsonValue::Arr(a)) => match decode_games(a) {
            Ok(gs) => gs,
            Err(p) => return Err(prefix_field(&key_games, p)),
        },
        Option::Some(_) => return Err(field_err(&key_games)),
    };
    proof {
        assert(games_view(Seq::<Game>::empty()) =~= Seq::<GameV>::empty());
    }
    Ok(Scoreboard { game_date, league_id, league_name, games })
}

/// Decodes a whole document's tree to the root record.
pub fn decode_daily_games(v: &JsonValue) -> (r: Result<DailyGames, Vec<PathSeg>>)
    ensures
        match r {
            Ok(d) => spec_decode_daily_games(v@) == Ok::<DailyGamesV, Seq<SegV>>(d@),
            Err(p) => spec_decode_daily_games(v@) == Err::<DailyGamesV, Seq<SegV>>(path_view(p@)),
        },
{
    let o = match v {
        JsonValue::Obj(o) => o,
        _ => {
            return Err(empty_path());
        },
    };
    let key_meta = String::from_str("meta");
    let meta = match obj_get_ref(o, &key_meta) {
        Option::None => Meta::default(),
        Option::Some(w) => match decode_meta(w) {
            Ok(m) => m,
            Err(p) => return Err(prefix_field(&key_meta, p)),
        },
    };
    let key_scoreboard = String::from_str("scoreboard");
    let scoreboard = match obj_get_ref(o, &key_scoreboard) {
        Option::None => Scoreboard::default(),
        Option::Some(w) => match decode_scoreboard(w) {
            Ok(s) => s,
            Err(p) => return Err(prefix_field(&key_scoreboard, p)),
        },
    };
    Ok(DailyGames { meta, scoreboard })
}

} // verus!

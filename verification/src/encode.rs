//! The document encoder: from the canonical records back to the JSON tree
//! with the wire's key names, every key present, in schema order.
//!
//! Together with the decoder this closes the round trip: what a record
//! encodes to decodes back to the same record (see `laws`).

use vstd::prelude::*;
use vstd::string::StringExecFns;

use crate::json::JsonNumber;
use crate::json::JsonV;
use crate::json::JsonValue;
use crate::json::NumV;
use crate::json::arr_view;
use crate::json::json_clone;
use crate::json::json_view;
use crate::json::kv_view;
use crate::model::AwayLeaders;
use crate::model::AwayTeam;
use crate::model::DailyGames;
use crate::model::DailyGamesV;
use crate::model::Game;
use crate::model::GameLeaders;
use crate::model::GameLeadersV;
use crate::model::GameV;
use crate::model::HomeLeaders;
use crate::model::HomeTeam;
use crate::model::LeaderV;
use crate::model::Meta;
use crate::model::MetaV;
use crate::model::PbOdds;
use crate::model::PbOddsV;
use crate::model::Period;
use crate::model::Period2;
use crate::model::PeriodV;
use crate::model::Scoreboard;
use crate::model::ScoreboardV;
use crate::model::TeamV;
use crate::model::games_view;
use crate::model::periods2_view;
use crate::model::periods_view;

verus! {

/// The wire tree of a `meta` record.
pub open spec fn spec_encode_meta(m: MetaV) -> JsonV {
    JsonV::Obj(
        seq![
            ("version"@, JsonV::Num(NumV::Int(m.version))),
            ("request"@, JsonV::Str(m.request)),
            ("time"@, JsonV::Str(m.time)),
            ("code"@, JsonV::Num(NumV::Int(m.code))),
        ],
    )
}

/// The wire tree of one period entry.
pub open spec fn spec_encode_period(p: PeriodV) -> JsonV {
    JsonV::Obj(
        seq![
            ("period"@, JsonV::Num(NumV::Int(p.period))),
            ("periodType"@, JsonV::Str(p.period_type)),
            ("score"@, JsonV::Num(NumV::Int(p.score))),
        ],
    )
}

/// The wire trees of a period list, in order.
pub open spec fn spec_encode_periods(s: Seq<PeriodV>) -> Seq<JsonV> {
    Seq::new(s.len(), |i: int| spec_encode_period(s[i]))
}

/// The wire tree of one team record.
pub open spec fn spec_encode_team(t: TeamV) -> JsonV {
    JsonV::Obj(
        seq![
            ("teamId"@, JsonV::Num(NumV::Int(t.team_id))),
            ("teamName"@, JsonV::Str(t.team_name)),
            ("teamCity"@, JsonV::Str(t.team_city)),
            ("teamTricode"@, JsonV::Str(t.team_tricode)),
            ("wins"@, JsonV::Num(NumV::Int(t.wins))),
            ("losses"@, JsonV::Num(NumV::Int(t.losses))),
            ("score"@, JsonV::Num(NumV::Int(t.score))),
            ("seed"@, t.seed),
            ("inBonus"@, t.in_bonus),
            ("timeoutsRemaining"@, JsonV::Num(NumV::Int(t.timeouts_remaining))),
            ("periods"@, JsonV::Arr(spec_encode_periods(t.periods))),
        ],
    )
}

/// The wire tree of one leader record.
pub open spec fn spec_encode_leader(l: LeaderV) -> JsonV {
    JsonV::Obj(
        seq![
            ("personId"@, JsonV::Num(NumV::Int(l.person_id))),
            ("name"@, JsonV::Str(l.name)),
            ("jerseyNum"@, JsonV::Str(l.jersey_num)),
            ("position"@, JsonV::Str(l.position)),
            ("teamTricode"@, JsonV::Str(l.team_tricode)),
            ("playerSlug"@, l.player_slug),
            ("points"@, JsonV::Num(NumV::Int(l.points))),
            ("rebounds"@, JsonV::Num(NumV::Int(l.rebounds))),
            ("assists"@, JsonV::Num(NumV::Int(l.assists))),
        ],
    )
}

/// The wire tree of the `gameLeaders` object.
pub open spec fn spec_encode_leaders(l: GameLeadersV) -> JsonV {
    JsonV::Obj(
        seq![
            ("homeLeaders"@, spec_encode_leader(l.home_leaders)),
            ("awayLeaders"@, spec_encode_leader(l.away_leaders)),
        ],
    )
}

/// The wire tree of the `pbOdds` object.
pub open spec fn spec_encode_pb_odds(o: PbOddsV) -> JsonV {
    JsonV::Obj(
        seq![
            ("team"@, o.team),
            ("odds"@, JsonV::Num(o.odds)),
            ("suspended"@, JsonV::Num(NumV::Int(o.suspended))),
        ],
    )
}

/// The wire tree of one game.
pub open spec fn spec_encode_game(g: GameV) -> JsonV {
    JsonV::Obj(
        seq![
            ("gameId"@, JsonV::Str(g.game_id)),
            ("gameCode"@, JsonV::Str(g.game_code)),
            ("gameStatus"@, JsonV::Num(NumV::Int(g.game_status))),
            ("gameStatusText"@, JsonV::Str(g.game_status_text)),
            ("period"@, JsonV::Num(NumV::Int(g.period))),
            ("gameClock"@, JsonV::Str(g.game_clock)),
            ("gameTimeUTC"@, JsonV::Str(g.game_time_utc)),
            ("gameEt"@, JsonV::Str(g.game_et)),
            ("regulationPeriods"@, JsonV::Num(NumV::Int(g.regulation_periods))),
            ("ifNecessary"@, JsonV::Bool(g.if_necessary)),
            ("seriesGameNumber"@, JsonV::Str(g.series_game_number)),
            ("seriesText"@, JsonV::Str(g.series_text)),
            ("homeTeam"@, spec_encode_team(g.home_team)),
            ("awayTeam"@, spec_encode_team(g.away_team)),
            ("gameLeaders"@, spec_encode_leaders(g.game_leaders)),
            ("pbOdds"@, spec_encode_pb_odds(g.pb_odds)),
        ],
    )
}

/// The wire trees of the game list, in order.
pub open spec fn spec_encode_games(s: Seq<GameV>) -> Seq<JsonV> {
    Seq::new(s.len(), |i: int| spec_encode_game(s[i]))
}

/// The wire tree of the `scoreboard` object.
pub open spec fn spec_encode_scoreboard(s: ScoreboardV) -> JsonV {
    JsonV::Obj(
        seq![
            ("gameDate"@, JsonV::Str(s.game_date)),
            ("leagueId"@, JsonV::Str(s.league_id)),
            ("leagueName"@, JsonV::Str(s.league_name)),
            ("games"@, JsonV::Arr(spec_encode_games(s.games))),
        ],
    )
}

/// The wire tree of a whole document.
pub open spec fn spec_encode_daily_games(d: DailyGamesV) -> JsonV {
    JsonV::Obj(
        seq![
            ("meta"@, spec_encode_meta(d.meta)),
            ("scoreboard"@, spec_encode_scoreboard(d.scoreboard)),
        ],
    )
}

/// Encodes a `meta` record.
pub fn encode_meta(m: &Meta) -> (r: JsonValue)
    ensures
        r@ == spec_encode_meta(m@),
{
    let mut out: Vec<(String, JsonValue)> = Vec::new();
    out.push((String::from_str("version"), JsonValue::Num(JsonNumber::Int(m.version))));
    out.push((String::from_str("request"), JsonValue::Str(m.request.clone())));
    out.push((String::from_str("time"), JsonValue::Str(m.time.clone())));
    out.push((String::from_str("code"), JsonValue::Num(JsonNumber::Int(m.code))));
    let r = JsonValue::Obj(out);
    proof {
        let kv = kv_view(out@);
        assert(kv[0].0 == "version"@);
        assert(kv[0].1 == JsonV::Num(NumV::Int(m.version)));
        assert(kv[1].0 == "request"@);
        assert(kv[1].1 == JsonV::Str(m.request@));
        assert(kv[2].0 == "time"@);
        assert(kv[2].1 == JsonV::Str(m.time@));
        assert(kv[3].0 == "code"@);
        assert(kv[3].1 == JsonV::Num(NumV::Int(m.code)));
        assert(kv =~= spec_encode_meta(m@)->Obj_0);
        assert(r@ == spec_encode_meta(m@));
    }
    r
}

/// Encodes one home-side period entry.
pub fn encode_period(p: &Period) -> (r: JsonValue)
    ensures
        r@ == spec_encode_period(p@),
{
    let mut out: Vec<(String, JsonValue)> = Vec::new();
    out.push((String::from_str("period"), JsonValue::Num(JsonNumber::Int(p.period))));
    out.push((String::from_str("periodType"), JsonValue::Str(p.period_type.clone())));
    out.push((String::from_str("score"), JsonValue::Num(JsonNumber::Int(p.score))));
    let r = JsonValue::Obj(out);
    proof {
        let kv = kv_view(out@);
        assert(kv[0].0 == "period"@);
        assert(kv[0].1 == JsonV::Num(NumV::Int(p.period)));
        assert(kv[1].0 == "periodType"@);
        assert(kv[1].1 == JsonV::Str(p.period_type@));
        assert(kv[2].0 == "score"@);
        assert(kv[2].1 == JsonV::Num(NumV::Int(p.score)));
        assert(kv =~= spec_encode_period(p@)->Obj_0);
        assert(r@ == spec_encode_period(p@));
    }
    r
}

/// Encodes one away-side period entry.
pub fn encode_period2(p: &Period2) -> (r: JsonValue)
    ensures
        r@ == spec_encode_period(p@),
{
    let mut out: Vec<(String, JsonValue)> = Vec::new();
    out.push((String::from_str("period"), JsonValue::Num(JsonNumber::Int(p.period))));
    out.push((String::from_str("periodType"), JsonValue::Str(p.period_type.clone())));
    out.push((String::from_str("score"), JsonValue::Num(JsonNumber::Int(p.score))));
    let r = JsonValue::Obj(out);
    proof {
        let kv = kv_view(out@);
        assert(kv[0].0 == "period"@);
        assert(kv[0].1 == JsonV::Num(NumV::Int(p.period)));
        assert(kv[1].0 == "periodType"@);
        assert(kv[1].1 == JsonV::Str(p.period_type@));
        assert(kv[2].0 == "score"@);
        assert(kv[2].1 == JsonV::Num(NumV::Int(p.score)));
        assert(kv =~= spec_encode_period(p@)->Obj_0);
        assert(r@ == spec_encode_period(p@));
    }
    r
}

/// Encodes a home-side period list.
pub fn encode_periods(ps: &Vec<Period>) -> (r: Vec<JsonValue>)
    ensures
        arr_view(r@) == spec_encode_periods(periods_view(ps@)),
{
    let mut out: Vec<JsonValue> = Vec::new();
    let mut i: usize = 0;
    while i < ps.len()
        invariant
            i <= ps.len(),
            out@.len() == i,
            forall|j: int| 0 <= j < i ==> json_view(out@[j]) == spec_encode_period(ps@[j]@),
        decreases ps.len() - i,
    {
        out.push(encode_period(&ps[i]));
        i = i + 1;
    }
    proof {
        assert(arr_view(out@) =~= spec_encode_periods(periods_view(ps@)));
    }
    out
}

/// Encodes an away-side period list.
pub fn encode_periods2(ps: &Vec<Period2>) -> (r: Vec<JsonValue>)
    ensures
        arr_view(r@) == spec_encode_periods(periods2_view(ps@)),
{
    let mut out: Vec<JsonValue> = Vec::new();
    let mut i: usize = 0;
    while i < ps.len()
        invariant
            i <= ps.len(),
            out@.len() == i,
            forall|j: int| 0 <= j < i ==> json_view(out@[j]) == spec_encode_period(ps@[j]@),
        decreases ps.len() - i,
    {
        out.push(encode_period2(&ps[i]));
        i = i + 1;
    }
    proof {
        assert(arr_view(out@) =~= spec_encode_periods(periods2_view(ps@)));
    }
    out
}

/// Encodes the home side of a game.
pub fn encode_home_team(t: &HomeTeam) -> (r: JsonValue)
    ensures
        r@ == spec_encode_team(t@),
{
    let mut out: Vec<(String, JsonValue)> = Vec::new();
    out.push((String::from_str("teamId"), JsonValue::Num(JsonNumber::Int(t.team_id))));
    out.push((String::from_str("teamName"), JsonValue::Str(t.team_name.clone())));
    out.push((String::from_str("teamCity"), JsonValue::Str(t.team_city.clone())));
    out.push((String::from_str("teamTricode"), JsonValue::Str(t.team_tricode.clone())));
    out.push((String::from_str("wins"), JsonValue::Num(JsonNumber::Int(t.wins))));
    out.push((String::from_str("losses"), JsonValue::Num(JsonNumber::Int(t.losses))));
    out.push((String::from_str("score"), JsonValue::Num(JsonNumber::Int(t.score))));
    out.push((String::from_str("seed"), json_clone(&t.seed)));
    out.push((String::from_str("inBonus"), json_clone(&t.in_bonus)));
    out.push(
        (
            String::from_str("timeoutsRemaining"),
            JsonValue::Num(JsonNumber::Int(t.timeouts_remaining)),
        ),
    );
    out.push((String::from_str("periods"), JsonValue::Arr(encode_periods(&t.periods))));
    let r = JsonValue::Obj(out);
    proof {
        let kv = kv_view(out@);
        assert(kv[0].0 == "teamId"@);
        assert(kv[0].1 == JsonV::Num(NumV::Int(t.team_id)));
        assert(kv[1].0 == "teamName"@);
        assert(kv[1].1 == JsonV::Str(t.team_name@));
        assert(kv[2].0 == "teamCity"@);
        assert(kv[2].1 == JsonV::Str(t.team_city@));
        assert(kv[3].0 == "teamTricode"@);
        assert(kv[3].1 == JsonV::Str(t.team_tricode@));
        assert(kv[4].0 == "wins"@);
        assert(kv[4].1 == JsonV::Num(NumV::Int(t.wins)));
        assert(kv[5].0 == "losses"@);
        assert(kv[5].1 == JsonV::Num(NumV::Int(t.losses)));
        assert(kv[6].0 == "score"@);
        assert(kv[6].1 == JsonV::Num(NumV::Int(t.score)));
        assert(kv[7].0 == "seed"@);
        assert(kv[7].1 == t.seed@);
        assert(kv[8].0 == "inBonus"@);
        assert(kv[8].1 == t.in_bonus@);
        assert(kv[9].0 == "timeoutsRemaining"@);
        assert(kv[9].1 == JsonV::Num(NumV::Int(t.timeouts_remaining)));
        assert(kv[10].0 == "periods"@);
        assert(kv[10].1 == JsonV::Arr(spec_encode_periods(periods_view(t.periods@))));
        assert(kv =~= spec_encode_team(t@)->Obj_0);
        assert(r@ == spec_encode_team(t@));
    }
    r
}

/// Encodes the away side of a game.
pub fn encode_away_team(t: &AwayTeam) -> (r: JsonValue)
    ensures
        r@ == spec_encode_team(t@),
{
    let mut out: Vec<(String, JsonValue)> = Vec::new();
    out.push((String::from_str("teamId"), JsonValue::Num(JsonNumber::Int(t.team_id))));
    out.push((String::from_str("teamName"), JsonValue::Str(t.team_name.clone())));
    out.push((String::from_str("teamCity"), JsonValue::Str(t.team_city.clone())));
    out.push((String::from_str("teamTricode"), JsonValue::Str(t.team_tricode.clone())));
    out.push((String::from_str("wins"), JsonValue::Num(JsonNumber::Int(t.wins))));
    out.push((String::from_str("losses"), JsonValue::Num(JsonNumber::Int(t.losses))));
    out.push((String::from_str("score"), JsonValue::Num(JsonNumber::Int(t.score))));
    out.push((String::from_str("seed"), json_clone(&t.seed)));
    out.push((String::from_str("inBonus"), json_clone(&t.in_bonus)));
    out.push(
        (
            String::from_str("timeoutsRemaining"),
            JsonValue::Num(JsonNumber::Int(t.timeouts_remaining)),
        ),
    );
    out.push((String::from_str("periods"), JsonValue::Arr(encode_periods2(&t.periods))));
    let r = JsonValue::Obj(out);
    proof {
        let kv = kv_view(out@);
        assert(kv[0].0 == "teamId"@);
        assert(kv[0].1 == JsonV::Num(NumV::Int(t.team_id)));
        assert(kv[1].0 == "teamName"@);
        assert(kv[1].1 == JsonV::Str(t.team_name@));
        assert(kv[2].0 == "teamCity"@);
        assert(kv[2].1 == JsonV::Str(t.team_city@));
        assert(kv[3].0 == "teamTricode"@);
        assert(kv[3].1 == JsonV::Str(t.team_tricode@));
        assert(kv[4].0 == "wins"@);
        assert(kv[4].1 == JsonV::Num(NumV::Int(t.wins)));
        assert(kv[5].0 == "losses"@);
        assert(kv[5].1 == JsonV::Num(NumV::Int(t.losses)));
        assert(kv[6].0 == "score"@);
        assert(kv[6].1 == JsonV::Num(NumV::Int(t.score)));
        assert(kv[7].0 == "seed"@);
        assert(kv[7].1 == t.seed@);
        assert(kv[8].0 == "inBonus"@);
        assert(kv[8].1 == t.in_bonus@);
        assert(kv[9].0 == "timeoutsRemaining"@);
        assert(kv[9].1 == JsonV::Num(NumV::Int(t.timeouts_remaining)));
        assert(kv[10].0 == "periods"@);
        assert(kv[10].1 == JsonV::Arr(spec_encode_periods(periods2_view(t.periods@))));
        assert(kv =~= spec_encode_team(t@)->Obj_0);
        assert(r@ == spec_encode_team(t@));
    }
    r
}

/// Encodes the home side's leader record.
pub fn encode_home_leaders(l: &HomeLeaders) -> (r: JsonValue)
    ensures
        r@ == spec_encode_leader(l@),
{
    let mut out: Vec<(String, JsonValue)> = Vec::new();
    out.push((String::from_str("personId"), JsonValue::Num(JsonNumber::Int(l.person_id))));
    out.push((String::from_str("name"), JsonValue::Str(l.name.clone())));
    out.push((String::from_str("jerseyNum"), JsonValue::Str(l.jersey_num.clone())));
    out.push((String::from_str("position"), JsonValue::Str(l.position.clone())));
    out.push((String::from_str("teamTricode"), JsonValue::Str(l.team_tricode.clone())));
    out.push((String::from_str("playerSlug"), json_clone(&l.player_slug)));
    out.push((String::from_str("points"), JsonValue::Num(JsonNumber::Int(l.points))));
    out.push((String::from_str("rebounds"), JsonValue::Num(JsonNumber::Int(l.rebounds))));
    out.push((String::from_str("assists"), JsonValue::Num(JsonNumber::Int(l.assists))));
    let r = JsonValue::Obj(out);
    proof {
        let kv = kv_view(out@);
        assert(kv[0].0 == "personId"@);
        assert(kv[0].1 == JsonV::Num(NumV::Int(l.person_id)));
        assert(kv[1].0 == "name"@);
        assert(kv[1].1 == JsonV::Str(l.name@));
        assert(kv[2].0 == "jerseyNum"@);
        assert(kv[2].1 == JsonV::Str(l.jersey_num@));
        assert(kv[3].0 == "position"@);
        assert(kv[3].1 == JsonV::Str(l.position@));
        assert(kv[4].0 == "teamTricode"@);
        assert(kv[4].1 == JsonV::Str(l.team_tricode@));
        assert(kv[5].0 == "playerSlug"@);
        assert(kv[5].1 == l.player_slug@);
        assert(kv[6].0 == "points"@);
        assert(kv[6].1 == JsonV::Num(NumV::Int(l.points)));
        assert(kv[7].0 == "rebounds"@);
        assert(kv[7].1 == JsonV::Num(NumV::Int(l.rebounds)));
        assert(kv[8].0 == "assists"@);
        assert(kv[8].1 == JsonV::Num(NumV::Int(l.assists)));
        assert(kv =~= spec_encode_leader(l@)->Obj_0);
        assert(r@ == spec_encode_leader(l@));
    }
    r
}

/// Encodes the away side's leader record.
pub fn encode_away_leaders(l: &AwayLeaders) -> (r: JsonValue)
    ensures
        r@ == spec_encode_leader(l@),
{
    let mut out: Vec<(String, JsonValue)> = Vec::new();
    out.push((String::from_str("personId"), JsonValue::Num(JsonNumber::Int(l.person_id))));
    out.push((String::from_str("name"), JsonValue::Str(l.name.clone())));
    out.push((String::from_str("jerseyNum"), JsonValue::Str(l.jersey_num.clone())));
    out.push((String::from_str("position"), JsonValue::Str(l.position.clone())));
    out.push((String::from_str("teamTricode"), JsonValue::Str(l.team_tricode.clone())));
    out.push((String::from_str("playerSlug"), json_clone(&l.player_slug)));
    out.push((String::from_str("points"), JsonValue::Num(JsonNumber::Int(l.points))));
    out.push((String::from_str("rebounds"), JsonValue::Num(JsonNumber::Int(l.rebounds))));
    out.push((String::from_str("assists"), JsonValue::Num(JsonNumber::Int(l.assists))));
    let r = JsonValue::Obj(out);
    proof {
        let kv = kv_view(out@);
        assert(kv[0].0 == "personId"@);
        assert(kv[0].1 == JsonV::Num(NumV::Int(l.person_id)));
        assert(kv[1].0 == "name"@);
        assert(kv[1].1 == JsonV::Str(l.name@));
        assert(kv[2].0 == "jerseyNum"@);
        assert(kv[2].1 == JsonV::Str(l.jersey_num@));
        assert(kv[3].0 == "position"@);
        assert(kv[3].1 == JsonV::Str(l.position@));
        assert(kv[4].0 == "teamTricode"@);
        assert(kv[4].1 == JsonV::Str(l.team_tricode@));
        assert(kv[5].0 == "playerSlug"@);
        assert(kv[5].1 == l.player_slug@);
        assert(kv[6].0 == "points"@);
        assert(kv[6].1 == JsonV::Num(NumV::Int(l.points)));
        assert(kv[7].0 == "rebounds"@);
        assert(kv[7].1 == JsonV::Num(NumV::Int(l.rebounds)));
        assert(kv[8].0 == "assists"@);
        assert(kv[8].1 == JsonV::Num(NumV::Int(l.assists)));
        assert(kv =~= spec_encode_leader(l@)->Obj_0);
        assert(r@ == spec_encode_leader(l@));
    }
    r
}

/// Encodes the `gameLeaders` object.
pub fn encode_game_leaders(l: &GameLeaders) -> (r: JsonValue)
    ensures
        r@ == spec_encode_leaders(l@),
{
    let mut out: Vec<(String, JsonValue)> = Vec::new();
    out.push((String::from_str("homeLeaders"), encode_home_leaders(&l.home_leaders)));
    out.push((String::from_str("awayLeaders"), encode_away_leaders(&l.away_leaders)));
    let r = JsonValue::Obj(out);
    proof {
        let kv = kv_view(out@);
        assert(kv[0].0 == "homeLeaders"@);
        assert(kv[0].1 == spec_encode_leader(l.home_leaders@));
        assert(kv[1].0 == "awayLeaders"@);
        assert(kv[1].1 == spec_encode_leader(l.away_leaders@));
        assert(kv =~= spec_encode_leaders(l@)->Obj_0);
        assert(r@ == spec_encode_leaders(l@));
    }
    r
}

/// Encodes the `pbOdds` object.
pub fn encode_pb_odds(o: &PbOdds) -> (r: JsonValue)
    ensures
        r@ == spec_encode_pb_odds(o@),
{
    let mut out: Vec<(String, JsonValue)> = Vec::new();
    out.push((String::from_str("team"), json_clone(&o.team)));
    out.push((String::from_str("odds"), JsonValue::Num(o.odds.clone())));
    out.push((String::from_str("suspended"), JsonValue::Num(JsonNumber::Int(o.suspended))));
    let r = JsonValue::Obj(out);
    proof {
        let kv = kv_view(out@);
        assert(kv[0].0 == "team"@);
        assert(kv[0].1 == o.team@);
        assert(kv[1].0 == "odds"@);
        assert(kv[1].1 == JsonV::Num(o.odds@));
        assert(kv[2].0 == "suspended"@);
        assert(kv[2].1 == JsonV::Num(NumV::Int(o.suspended)));
        assert(kv =~= spec_encode_pb_odds(o@)->Obj_0);
        assert(r@ == spec_encode_pb_odds(o@));
    }
    r
}

/// Encodes one game.
pub fn encode_game(g: &Game) -> (r: JsonValue)
    ensures
        r@ == spec_encode_game(g@),
{
    let mut out: Vec<(String, JsonValue)> = Vec::new();
    out.push((String::from_str("gameId"), JsonValue::Str(g.game_id.clone())));
    out.push((String::from_str("gameCode"), JsonValue::Str(g.game_code.clone())));
    out.push((String::from_str("gameStatus"), JsonValue::Num(JsonNumber::Int(g.game_status))));
    out.push((String::from_str("gameStatusText"), JsonValue::Str(g.game_status_text.clone())));
    out.push((String::from_str("period"), JsonValue::Num(JsonNumber::Int(g.period))));
    out.push((String::from_str("gameClock"), JsonValue::Str(g.game_clock.clone())));
    out.push((String::from_str("gameTimeUTC"), JsonValue::Str(g.game_time_utc.clone())));
    out.push((String::from_str("gameEt"), JsonValue::Str(g.game_et.clone())));
    out.push(
        (
            String::from_str("regulationPeriods"),
            JsonValue::Num(JsonNumber::Int(g.regulation_periods)),
        ),
    );
    out.push((String::from_str("ifNecessary"), JsonValue::Bool(g.if_necessary)));
    out.push((String::from_str("seriesGameNumber"), JsonValue::Str(g.series_game_number.clone())));
    out.push((String::from_str("seriesText"), JsonValue::Str(g.series_text.clone())));
    out.push((String::from_str("homeTeam"), encode_home_team(&g.home_team)));
    out.push((String::from_str("awayTeam"), encode_away_team(&g.away_team)));
    out.push((String::from_str("gameLeaders"), encode_game_leaders(&g.game_leaders)));
    out.push((String::from_str("pbOdds"), encode_pb_odds(&g.pb_odds)));
    let r = JsonValue::Obj(out);
    proof {
        let kv = kv_view(out@);
        assert(kv[0].0 == "gameId"@);
        assert(kv[0].1 == JsonV::Str(g.game_id@));
        assert(kv[1].0 == "gameCode"@);
        assert(kv[1].1 == JsonV::Str(g.game_code@));
        assert(kv[2].0 == "gameStatus"@);
        assert(kv[2].1 == JsonV::Num(NumV::Int(g.game_status)));
        assert(kv[3].0 == "gameStatusText"@);
        assert(kv[3].1 == JsonV::Str(g.game_status_text@));
        assert(kv[4].0 == "period"@);
        assert(kv[4].1 == JsonV::Num(NumV::Int(g.period)));
        assert(kv[5].0 == "gameClock"@);
        assert(kv[5].1 == JsonV::Str(g.game_clock@));
        assert(kv[6].0 == "gameTimeUTC"@);
        assert(kv[6].1 == JsonV::Str(g.game_time_utc@));
        assert(kv[7].0 == "gameEt"@);
        assert(kv[7].1 == JsonV::Str(g.game_et@));
        assert(kv[8].0 == "regulationPeriods"@);
        assert(kv[8].1 == JsonV::Num(NumV::Int(g.regulation_periods)));
        assert(kv[9].0 == "ifNecessary"@);
        assert(kv[9].1 == JsonV::Bool(g.if_necessary));
        assert(kv[10].0 == "seriesGameNumber"@);
        assert(kv[10].1 == JsonV::Str(g.series_game_number@));
        assert(kv[11].0 == "seriesText"@);
        assert(kv[11].1 == JsonV::Str(g.series_text@));
        assert(kv[12].0 == "homeTeam"@);
        assert(kv[12].1 == spec_encode_team(g.home_team@));
        assert(kv[13].0 == "awayTeam"@);
        assert(kv[13].1 == spec_encode_team(g.away_team@));
        assert(kv[14].0 == "gameLeaders"@);
        assert(kv[14].1 == spec_encode_leaders(g.game_leaders@));
        assert(kv[15].0 == "pbOdds"@);
        assert(kv[15].1 == spec_encode_pb_odds(g.pb_odds@));
        assert(kv =~= spec_encode_game(g@)->Obj_0);
        assert(r@ == spec_encode_game(g@));
    }
    r
}

/// Encodes the game list.
pub fn encode_games(gs: &Vec<Game>) -> (r: Vec<JsonValue>)
    ensures
        arr_view(r@) == spec_encode_games(games_view(gs@)),
{
    let mut out: Vec<JsonValue> = Vec::new();
    let mut i: usize = 0;
    while i < gs.len()
        invariant
            i <= gs.len(),
            out@.len() == i,
            forall|j: int| 0 <= j < i ==> json_view(out@[j]) == spec_encode_game(gs@[j]@),
        decreases gs.len() - i,
    {
        out.push(encode_game(&gs[i]));
        i = i + 1;
    }
    proof {
        assert(arr_view(out@) =~= spec_encode_games(games_view(gs@)));
    }
    out
}

/// Encodes the `scoreboard` object.
pub fn encode_scoreboard(s: &Scoreboard) -> (r: JsonValue)
    ensures
        r@ == spec_encode_scoreboard(s@),
{
    let mut out: Vec<(String, JsonValue)> = Vec::new();
    out.push((String::from_str("gameDate"), JsonValue::Str(s.game_date.clone())));
    out.push((String::from_str("leagueId"), JsonValue::Str(s.league_id.clone())));
    out.push((String::from_str("leagueName"), JsonValue::Str(s.league_name.clone())));
    out.push((String::from_str("games"), JsonValue::Arr(encode_games(&s.games))));
    let r = JsonValue::Obj(out);
    proof {
        let kv = kv_view(out@);
        assert(kv[0].0 == "gameDate"@);
        assert(kv[0].1 == JsonV::Str(s.game_date@));
        assert(kv[1].0 == "leagueId"@);
        assert(kv[1].1 == JsonV::Str(s.league_id@));
        assert(kv[2].0 == "leagueName"@);
        assert(kv[2].1 == JsonV::Str(s.league_name@));
        assert(kv[3].0 == "games"@);
        assert(kv[3].1 == JsonV::Arr(spec_encode_games(games_view(s.games@))));
        assert(kv =~= spec_encode_scoreboard(s@)->Obj_0);
        assert(r@ == spec_encode_scoreboard(s@));
    }
    r
}

/// Encodes a whole document to its wire tree.
pub fn encode_daily_games(d: &DailyGames) -> (r: JsonValue)
    ensures
        r@ == spec_encode_daily_games(d@),
{
    let mut out: Vec<(String, JsonValue)> = Vec::new();
    out.push((String::from_str("meta"), encode_meta(&d.meta)));
    out.push((String::from_str("scoreboard"), encode_scoreboard(&d.scoreboard)));
    let r = JsonValue::Obj(out);
    proof {
        let kv = kv_view(out@);
        assert(kv[0].0 == "meta"@);
        assert(kv[0].1 == spec_encode_meta(d.meta@));
        assert(kv[1].0 == "scoreboard"@);
        assert(kv[1].1 == spec_encode_scoreboard(d.scoreboard@));
        assert(kv =~= spec_encode_daily_games(d@)->Obj_0);
        assert(r@ == spec_encode_daily_games(d@));
    }
    r
}

} // verus!

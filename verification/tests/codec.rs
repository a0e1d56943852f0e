use daily_games::DailyGames;
use daily_games::DecodeError;
use daily_games::JsonNumber;
use daily_games::JsonValue;
use daily_games::PathSeg;
use daily_games::decode_document;
use daily_games::encode_document;
use daily_games::remove_quotes;

fn full_doc() -> String {
    r#"{"meta":{"version":1,"request":"req","time":"t0","code":200},"scoreboard":{"gameDate":"2024-01-02","leagueId":"00","leagueName":"L","games":[{"gameId":"0022300001","gameCode":"20240102/MIABOS","gameStatus":2,"gameStatusText":"Q2","period":2,"gameClock":"PT05M30.00S","gameTimeUTC":"2024-01-02T00:00:00Z","gameEt":"2024-01-01T19:00:00-05:00","regulationPeriods":4,"ifNecessary":false,"seriesGameNumber":"","seriesText":"","homeTeam":{"teamId":1,"teamName":"Celtics","teamCity":"Boston","teamTricode":"BOS","wins":10,"losses":2,"score":55,"seed":1,"inBonus":"1","timeoutsRemaining":6,"periods":[{"period":1,"periodType":"REGULAR","score":30},{"period":2,"periodType":"REGULAR","score":25}]},"awayTeam":{"teamId":2,"teamName":"Heat","teamCity":"Miami","teamTricode":"MIA","wins":8,"losses":4,"score":50,"seed":null,"inBonus":false,"timeoutsRemaining":7,"periods":[{"period":1,"periodType":"REGULAR","score":26}]},"gameLeaders":{"homeLeaders":{"personId":100,"name":"A B","jerseyNum":"0","position":"G","teamTricode":"BOS","playerSlug":"a-b","points":20,"rebounds":5,"assists":7},"awayLeaders":{"personId":200,"name":"C D","jerseyNum":"13","position":"F","teamTricode":"MIA","playerSlug":null,"points":18,"rebounds":8,"assists":3}},"pbOdds":{"team":null,"odds":1.5,"suspended":0}}]}}"#
    .to_string()
}

#[test]
fn decodes_full_document() {
    let d = decode_document(&full_doc()).unwrap();
    assert_eq!(d.meta.version, 1);
    assert_eq!(d.meta.request, "req");
    assert_eq!(d.meta.time, "t0");
    assert_eq!(d.meta.code, 200);
    assert_eq!(d.scoreboard.game_date, "2024-01-02");
    assert_eq!(d.scoreboard.games.len(), 1);
    let g = &d.scoreboard.games[0];
    assert_eq!(g.game_id, "0022300001");
    assert_eq!(g.game_status, 2);
    assert_eq!(g.period, 2);
    assert_eq!(g.game_time_utc, "2024-01-02T00:00:00Z");
    assert!(!g.if_necessary);
    assert_eq!(g.home_team.team_id, 1);
    assert_eq!(g.home_team.periods.len(), 2);
    assert_eq!(g.home_team.periods[1].score, 25);
    assert_eq!(g.away_team.periods.len(), 1);
    assert_eq!(g.away_team.periods[0].period_type, "REGULAR");
    assert_eq!(g.home_team.seed, JsonValue::Num(JsonNumber::Int(1)));
    assert_eq!(g.home_team.in_bonus, JsonValue::Str("1".to_string()));
    assert_eq!(g.away_team.seed, JsonValue::Null);
    assert_eq!(g.away_team.in_bonus, JsonValue::Bool(false));
    assert_eq!(g.game_leaders.home_leaders.points, 20);
    assert_eq!(g.game_leaders.away_leaders.player_slug, JsonValue::Null);
    assert_eq!(g.pb_odds.team, JsonValue::Null);
    assert_eq!(g.pb_odds.odds, JsonNumber::Dec("1.5".to_string()));
    assert_eq!(g.pb_odds.suspended, 0);
}

#[test]
fn round_trip_document() {
    let d1 = decode_document(&full_doc()).unwrap();
    let text = encode_document(&d1);
    let d2 = decode_document(&text).unwrap();
    assert_eq!(d1, d2);
}

#[test]
fn round_trip_of_defaults() {
    let d1 = DailyGames::default();
    let text = encode_document(&d1);
    let d2 = decode_document(&text).unwrap();
    assert_eq!(d1, d2);
}

#[test]
fn empty_document_decodes_to_defaults() {
    let d = decode_document("{}").unwrap();
    assert_eq!(d, DailyGames::default());
}

#[test]
fn missing_field_takes_zero_value() {
    let with_field =
        r#"{"meta":{"version":0,"request":"r","time":"t","code":7},"scoreboard":{}}"#;
    let without_field = r#"{"meta":{"request":"r","time":"t","code":7},"scoreboard":{}}"#;
    let d1 = decode_document(with_field).unwrap();
    let d2 = decode_document(without_field).unwrap();
    assert_eq!(d1, d2);
    assert_eq!(d2.meta.version, 0);
}

#[test]
fn missing_nested_records_take_defaults() {
    let doc = r#"{"scoreboard":{"games":[{"gameId":"g1"}]}}"#;
    let d = decode_document(doc).unwrap();
    assert_eq!(d.meta, daily_games::Meta::default());
    let g = &d.scoreboard.games[0];
    assert_eq!(g.game_id, "g1");
    assert_eq!(g.home_team, daily_games::HomeTeam::default());
    assert_eq!(g.away_team, daily_games::AwayTeam::default());
    assert_eq!(g.game_leaders, daily_games::GameLeaders::default());
    assert_eq!(g.pb_odds, daily_games::PbOdds::default());
}

#[test]
fn malformed_text_is_a_parse_error() {
    assert_eq!(decode_document("not a document"), Err(DecodeError::Parse));
    assert_eq!(decode_document(r#"{"meta":"#), Err(DecodeError::Parse));
}

fn mismatch(path: Vec<PathSeg>) -> DecodeError {
    DecodeError::TypeMismatch(path)
}

fn field(k: &str) -> PathSeg {
    PathSeg::Field(k.to_string())
}

#[test]
fn string_where_integer_is_a_type_mismatch() {
    let doc = r#"{"scoreboard":{"games":[{"homeTeam":{"teamId":"1610612738"}}]}}"#;
    assert_eq!(
        decode_document(doc),
        Err(mismatch(vec![
            field("scoreboard"),
            field("games"),
            PathSeg::Item(0),
            field("homeTeam"),
            field("teamId"),
        ])),
    );
}

#[test]
fn mismatches_name_the_offending_field() {
    assert_eq!(
        decode_document(r#"{"meta":{"version":true}}"#),
        Err(mismatch(vec![field("meta"), field("version")])),
    );
    assert_eq!(
        decode_document(r#"{"meta":{"request":5}}"#),
        Err(mismatch(vec![field("meta"), field("request")])),
    );
    assert_eq!(
        decode_document(r#"{"scoreboard":{"games":[{"ifNecessary":1}]}}"#),
        Err(mismatch(vec![
            field("scoreboard"),
            field("games"),
            PathSeg::Item(0),
            field("ifNecessary"),
        ])),
    );
    assert_eq!(
        decode_document(r#"{"scoreboard":{"games":[{"pbOdds":{"odds":"1.5"}}]}}"#),
        Err(mismatch(vec![
            field("scoreboard"),
            field("games"),
            PathSeg::Item(0),
            field("pbOdds"),
            field("odds"),
        ])),
    );
    assert_eq!(
        decode_document(r#"{"scoreboard":{"games":[{"awayTeam":{"periods":7}}]}}"#),
        Err(mismatch(vec![
            field("scoreboard"),
            field("games"),
            PathSeg::Item(0),
            field("awayTeam"),
            field("periods"),
        ])),
    );
    assert_eq!(
        decode_document(r#"{"scoreboard":{"games":[{"homeTeam":{"periods":[{"score":[]}]}}]}}"#),
        Err(mismatch(vec![
            field("scoreboard"),
            field("games"),
            PathSeg::Item(0),
            field("homeTeam"),
            field("periods"),
            PathSeg::Item(0),
            field("score"),
        ])),
    );
    assert_eq!(
        decode_document(r#"{"scoreboard":{"games":"none"}}"#),
        Err(mismatch(vec![field("scoreboard"), field("games")])),
    );
    assert_eq!(
        decode_document(r#"{"meta":[]}"#),
        Err(mismatch(vec![field("meta")])),
    );
    assert_eq!(decode_document("[]"), Err(mismatch(vec![])));
}

#[test]
fn a_fractional_number_where_integer_is_a_type_mismatch() {
    assert_eq!(
        decode_document(r#"{"meta":{"code":2.5}}"#),
        Err(mismatch(vec![field("meta"), field("code")])),
    );
}

#[test]
fn polymorphic_fields_tolerate_every_wire_type() {
    let cases: Vec<(&str, JsonValue)> = vec![
        ("null", JsonValue::Null),
        ("3", JsonValue::Num(JsonNumber::Int(3))),
        (r#""PI""#, JsonValue::Str("PI".to_string())),
        ("true", JsonValue::Bool(true)),
    ];
    for (wire, expected) in cases {
        let doc = format!(
            r#"{{"scoreboard":{{"games":[{{"homeTeam":{{"seed":{v},"inBonus":{v}}},"awayTeam":{{"seed":{v},"inBonus":{v}}},"gameLeaders":{{"homeLeaders":{{"playerSlug":{v}}},"awayLeaders":{{"playerSlug":{v}}}}},"pbOdds":{{"team":{v}}}}}]}}}}"#,
            v = wire,
        );
        let d = decode_document(&doc).unwrap();
        let g = &d.scoreboard.games[0];
        assert_eq!(g.home_team.seed, expected);
        assert_eq!(g.home_team.in_bonus, expected);
        assert_eq!(g.away_team.seed, expected);
        assert_eq!(g.away_team.in_bonus, expected);
        assert_eq!(g.game_leaders.home_leaders.player_slug, expected);
        assert_eq!(g.game_leaders.away_leaders.player_slug, expected);
        assert_eq!(g.pb_odds.team, expected);
    }
}

#[test]
fn irregular_game_time_key_maps_to_the_canonical_field() {
    let doc = r#"{"scoreboard":{"games":[{"gameTimeUTC":"2024-01-02T00:00:00Z","gameEt":"7pm"}]}}"#;
    let d = decode_document(doc).unwrap();
    let g = &d.scoreboard.games[0];
    assert_eq!(g.game_time_utc, "2024-01-02T00:00:00Z");
    assert_eq!(g.game_et, "7pm");
}

#[test]
fn unknown_keys_are_ignored() {
    let doc = r#"{"extra":1,"meta":{"version":9,"futureField":"x"},"scoreboard":{"games":[{"gameTimeUtc":"wrong casing"}]}}"#;
    let d = decode_document(doc).unwrap();
    assert_eq!(d.meta.version, 9);
    assert_eq!(d.scoreboard.games[0].game_time_utc, "");
}

#[test]
fn encoding_renders_every_schema_key() {
    let text = encode_document(&DailyGames::default());
    assert_eq!(
        text,
        r#"{"meta":{"code":0,"request":"","time":"","version":0},"scoreboard":{"gameDate":"","games":[],"leagueId":"","leagueName":""}}"#,
    );
}

#[test]
fn remove_quotes_strips_stray_quotes() {
    assert_eq!(remove_quotes("\"7:30 pm ET\""), "7:30 pm ET");
    assert_eq!(remove_quotes("say \"hey\" twice"), "say hey twice");
    assert_eq!(remove_quotes("untouched text"), "untouched text");
    assert_eq!(remove_quotes("\"\""), "");
    assert_eq!(remove_quotes(""), "");
}

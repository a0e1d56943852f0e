use daily_games::Match;
use daily_games::decode_document;

fn scenario_doc() -> &'static str {
    r#"{"scoreboard":{"games":[{"gameId":"0022300001","homeTeam":{"teamId":1,"teamCity":"Boston","teamName":"Celtics"},"awayTeam":{"teamId":2,"teamCity":"Miami","teamName":"Heat"}}]}}"#
}

#[test]
fn projects_identity_and_joined_names() {
    let d = decode_document(scenario_doc()).unwrap();
    let m = Match::from_game(d.scoreboard.games[0].clone());
    assert_eq!(m.game_id, "0022300001");
    assert_eq!(m.home_team_id, 1);
    assert_eq!(m.home_team_name, "Boston Celtics");
    assert_eq!(m.away_team_id, 2);
    assert_eq!(m.away_team_name, "Miami Heat");
}

#[test]
fn projection_is_deterministic() {
    let d = decode_document(scenario_doc()).unwrap();
    let g = &d.scoreboard.games[0];
    let m1 = Match::from_game(g.clone());
    let m2 = Match::from_game(g.clone());
    assert_eq!(m1, m2);
}

#[test]
fn projection_joins_names_literally() {
    let doc = r#"{"scoreboard":{"games":[{"gameId":"g","homeTeam":{"teamId":3,"teamCity":"  Los Angeles","teamName":"Lakers "},"awayTeam":{"teamId":4,"teamCity":"","teamName":""}}]}}"#;
    let d = decode_document(doc).unwrap();
    let m = Match::from_game(d.scoreboard.games[0].clone());
    assert_eq!(m.home_team_name, "  Los Angeles Lakers ");
    assert_eq!(m.away_team_name, " ");
}

//! The laws this library states of itself, proved once and for all: the
//! round trip (decoding what a record encodes to yields the record back),
//! and the projection's field equations.

use vstd::prelude::*;

use crate::decode::SegV;
use crate::decode::spec_decode_daily_games;
use crate::decode::spec_decode_game;
use crate::decode::spec_decode_games;
use crate::decode::spec_decode_leader;
use crate::decode::spec_decode_leaders;
use crate::decode::spec_decode_meta;
use crate::decode::spec_decode_pb_odds;
use crate::decode::spec_decode_period;
use crate::decode::spec_decode_periods;
use crate::decode::spec_decode_scoreboard;
use crate::decode::spec_decode_team;
use crate::encode::spec_encode_daily_games;
use crate::encode::spec_encode_game;
use crate::encode::spec_encode_games;
use crate::encode::spec_encode_leader;
use crate::encode::spec_encode_leaders;
use crate::encode::spec_encode_meta;
use crate::encode::spec_encode_pb_odds;
use crate::encode::spec_encode_period;
use crate::encode::spec_encode_periods;
use crate::encode::spec_encode_scoreboard;
use crate::encode::spec_encode_team;
use crate::json::JsonV;
use crate::json::obj_get;
use crate::json::remove_key;
use crate::json::NumV;
use crate::model::DailyGamesV;
use crate::model::GameLeadersV;
use crate::model::GameV;
use crate::model::LeaderV;
use crate::model::MetaV;
use crate::model::PbOddsV;
use crate::model::PeriodV;
use crate::model::ScoreboardV;
use crate::model::TeamV;
use crate::model::match_of;

verus! {

/// Looking a key up finds the pair at `i` when no earlier pair has that key.
pub proof fn lemma_obj_get_at(o: Seq<(Seq<char>, JsonV)>, k: Seq<char>, i: int)
    requires
        0 <= i < o.len(),
        o[i].0 == k,
        forall|j: int| 0 <= j < i ==> o[j].0 != k,
    ensures
        obj_get(o, k) == Some(o[i].1),
    decreases i,
{
    if i > 0 {
        assert(o[0].0 != k);
        let o2 = o.drop_first();
        assert(o2[i - 1] == o[i]);
        assert forall|j: int| 0 <= j < i - 1 implies o2[j].0 != k by {
            assert(o2[j] == o[j + 1]);
        }
        lemma_obj_get_at(o2, k, i - 1);
    }
}

/// Round trip of a `meta` record.
pub proof fn lemma_round_trip_meta(m: MetaV)
    ensures
        spec_decode_meta(spec_encode_meta(m)) == Ok::<MetaV, Seq<SegV>>(m),
{
    reveal_strlit("code");
    reveal_strlit("request");
    reveal_strlit("time");
    reveal_strlit("version");
    assert("version"@ != "request"@) by {
        assert("version"@[0] == 'v');
        assert("request"@[0] == 'r');
    }
    assert("version"@ != "time"@) by {
        assert("version"@.len() == 7);
        assert("time"@.len() == 4);
    }
    assert("version"@ != "code"@) by {
        assert("version"@.len() == 7);
        assert("code"@.len() == 4);
    }
    assert("request"@ != "time"@) by {
        assert("request"@.len() == 7);
        assert("time"@.len() == 4);
    }
    assert("request"@ != "code"@) by {
        assert("request"@.len() == 7);
        assert("code"@.len() == 4);
    }
    assert("time"@ != "code"@) by {
        assert("time"@[0] == 't');
        assert("code"@[0] == 'c');
    }
    let o = spec_encode_meta(m)->Obj_0;
    lemma_obj_get_at(o, "version"@, 0);
    assert forall|j: int| 0 <= j < 1 implies o[j].0 != "request"@ by {
        if j == 0 {
        }
    }
    lemma_obj_get_at(o, "request"@, 1);
    assert forall|j: int| 0 <= j < 2 implies o[j].0 != "time"@ by {
        if j == 0 {
        } else {
        }
    }
    lemma_obj_get_at(o, "time"@, 2);
    assert forall|j: int| 0 <= j < 3 implies o[j].0 != "code"@ by {
        if j == 0 {
        } else if j == 1 {
        } else {
        }
    }
    lemma_obj_get_at(o, "code"@, 3);
    assert(spec_decode_meta(spec_encode_meta(m))->Ok_0 =~= m);
}

/// Round trip of one period entry.
pub proof fn lemma_round_trip_period(p: PeriodV)
    ensures
        spec_decode_period(spec_encode_period(p)) == Ok::<PeriodV, Seq<SegV>>(p),
{
    reveal_strlit("period");
    reveal_strlit("periodType");
    reveal_strlit("score");
    assert("period"@ != "periodType"@) by {
        assert("period"@.len() == 6);
        assert("periodType"@.len() == 10);
    }
    assert("period"@ != "score"@) by {
        assert("period"@.len() == 6);
        assert("score"@.len() == 5);
    }
    assert("periodType"@ != "score"@) by {
        assert("periodType"@.len() == 10);
        assert("score"@.len() == 5);
    }
    let o = spec_encode_period(p)->Obj_0;
    lemma_obj_get_at(o, "period"@, 0);
    assert forall|j: int| 0 <= j < 1 implies o[j].0 != "periodType"@ by {
        if j == 0 {
        }
    }
    lemma_obj_get_at(o, "periodType"@, 1);
    assert forall|j: int| 0 <= j < 2 implies o[j].0 != "score"@ by {
        if j == 0 {
        } else {
        }
    }
    lemma_obj_get_at(o, "score"@, 2);
    assert(spec_decode_period(spec_encode_period(p))->Ok_0 =~= p);
}

/// Round trip of a period list, from index `i` on.
pub proof fn lemma_round_trip_periods(s: Seq<PeriodV>, i: int)
    requires
        0 <= i <= s.len(),
    ensures
        spec_decode_periods(spec_encode_periods(s), i) == Ok::<Seq<PeriodV>, Seq<SegV>>(s.skip(i)),
    decreases s.len() - i,
{
    let a = spec_encode_periods(s);
    if i >= s.len() {
        assert(s.skip(i) =~= Seq::<PeriodV>::empty());
    } else {
        lemma_round_trip_period(s[i]);
        lemma_round_trip_periods(s, i + 1);
        assert(seq![s[i]] + s.skip(i + 1) =~= s.skip(i));
    }
}

/// Round trip of one team record.
pub proof fn lemma_round_trip_team(t: TeamV)
    ensures
        spec_decode_team(spec_encode_team(t)) == Ok::<TeamV, Seq<SegV>>(t),
{
    reveal_strlit("inBonus");
    reveal_strlit("losses");
    reveal_strlit("periods");
    reveal_strlit("score");
    reveal_strlit("seed");
    reveal_strlit("teamCity");
    reveal_strlit("teamId");
    reveal_strlit("teamName");
    reveal_strlit("teamTricode");
    reveal_strlit("timeoutsRemaining");
    reveal_strlit("wins");
    assert("teamId"@ != "teamName"@) by {
        assert("teamId"@.len() == 6);
        assert("teamName"@.len() == 8);
    }
    assert("teamId"@ != "teamCity"@) by {
        assert("teamId"@.len() == 6);
        assert("teamCity"@.len() == 8);
    }
    assert("teamId"@ != "teamTricode"@) by {
        assert("teamId"@.len() == 6);
        assert("teamTricode"@.len() == 11);
    }
    assert("teamId"@ != "wins"@) by {
        assert("teamId"@.len() == 6);
        assert("wins"@.len() == 4);
    }
    assert("teamId"@ != "losses"@) by {
        assert("teamId"@[0] == 't');
        assert("losses"@[0] == 'l');
    }
    assert("teamId"@ != "score"@) by {
        assert("teamId"@.len() == 6);
        assert("score"@.len() == 5);
    }
    assert("teamId"@ != "seed"@) by {
        assert("teamId"@.len() == 6);
        assert("seed"@.len() == 4);
    }
    assert("teamId"@ != "inBonus"@) by {
        assert("teamId"@.len() == 6);
        assert("inBonus"@.len() == 7);
    }
    assert("teamId"@ != "timeoutsRemaining"@) by {
        assert("teamId"@.len() == 6);
        assert("timeoutsRemaining"@.len() == 17);
    }
    assert("teamId"@ != "periods"@) by {
        assert("teamId"@.len() == 6);
        assert("periods"@.len() == 7);
    }
    assert("teamName"@ != "teamCity"@) by {
        assert("teamName"@[4] == 'N');
        assert("teamCity"@[4] == 'C');
    }
    assert("teamName"@ != "teamTricode"@) by {
        assert("teamName"@.len() == 8);
        assert("teamTricode"@.len() == 11);
    }
    assert("teamName"@ != "wins"@) by {
        assert("teamName"@.len() == 8);
        assert("wins"@.len() == 4);
    }
    assert("teamName"@ != "losses"@) by {
        assert("teamName"@.len() == 8);
        assert("losses"@.len() == 6);
    }
    assert("teamName"@ != "score"@) by {
        assert("teamName"@.len() == 8);
        assert("score"@.len() == 5);
    }
    assert("teamName"@ != "seed"@) by {
        assert("teamName"@.len() == 8);
        assert("seed"@.len() == 4);
    }
    assert("teamName"@ != "inBonus"@) by {
        assert("teamName"@.len() == 8);
        assert("inBonus"@.len() == 7);
    }
    assert("teamName"@ != "timeoutsRemaining"@) by {
        assert("teamName"@.len() == 8);
        assert("timeoutsRemaining"@.len() == 17);
    }
    assert("teamName"@ != "periods"@) by {
        assert("teamName"@.len() == 8);
        assert("periods"@.len() == 7);
    }
    assert("teamCity"@ != "teamTricode"@) by {
        assert("teamCity"@.len() == 8);
        assert("teamTricode"@.len() == 11);
    }
    assert("teamCity"@ != "wins"@) by {
        assert("teamCity"@.len() == 8);
        assert("wins"@.len() == 4);
    }
    assert("teamCity"@ != "losses"@) by {
        assert("teamCity"@.len() == 8);
        assert("losses"@.len() == 6);
    }
    assert("teamCity"@ != "score"@) by {
        assert("teamCity"@.len() == 8);
        assert("score"@.len() == 5);
    }
    assert("teamCity"@ != "seed"@) by {
        assert("teamCity"@.len() == 8);
        assert("seed"@.len() == 4);
    }
    assert("teamCity"@ != "inBonus"@) by {
        assert("teamCity"@.len() == 8);
        assert("inBonus"@.len() == 7);
    }
    assert("teamCity"@ != "timeoutsRemaining"@) by {
        assert("teamCity"@.len() == 8);
        assert("timeoutsRemaining"@.len() == 17);
    }
    assert("teamCity"@ != "periods"@) by {
        assert("teamCity"@.len() == 8);
        assert("periods"@.len() == 7);
    }
    assert("teamTricode"@ != "wins"@) by {
        assert("teamTricode"@.len() == 11);
        assert("wins"@.len() == 4);
    }
    assert("teamTricode"@ != "losses"@) by {
        assert("teamTricode"@.len() == 11);
        assert("losses"@.len() == 6);
    }
    assert("teamTricode"@ != "score"@) by {
        assert("teamTricode"@.len() == 11);
        assert("score"@.len() == 5);
    }
    assert("teamTricode"@ != "seed"@) by {
        assert("teamTricode"@.len() == 11);
        assert("seed"@.len() == 4);
    }
    assert("teamTricode"@ != "inBonus"@) by {
        assert("teamTricode"@.len() == 11);
        assert("inBonus"@.len() == 7);
    }
    assert("teamTricode"@ != "timeoutsRemaining"@) by {
        assert("teamTricode"@.len() == 11);
        assert("timeoutsRemaining"@.len() == 17);
    }
    assert("teamTricode"@ != "periods"@) by {
        assert("teamTricode"@.len() == 11);
        assert("periods"@.len() == 7);
    }
    assert("wins"@ != "losses"@) by {
        assert("wins"@.len() == 4);
        assert("losses"@.len() == 6);
    }
    assert("wins"@ != "score"@) by {
        assert("wins"@.len() == 4);
        assert("score"@.len() == 5);
    }
    assert("wins"@ != "seed"@) by {
        assert("wins"@[0] == 'w');
        assert("seed"@[0] == 's');
    }
    assert("wins"@ != "inBonus"@) by {
        assert("wins"@.len() == 4);
        assert("inBonus"@.len() == 7);
    }
    assert("wins"@ != "timeoutsRemaining"@) by {
        assert("wins"@.len() == 4);
        assert("timeoutsRemaining"@.len() == 17);
    }
    assert("wins"@ != "periods"@) by {
        assert("wins"@.len() == 4);
        assert("periods"@.len() == 7);
    }
    assert("losses"@ != "score"@) by {
        assert("losses"@.len() == 6);
        assert("score"@.len() == 5);
    }
    assert("losses"@ != "seed"@) by {
        assert("losses"@.len() == 6);
        assert("seed"@.len() == 4);
    }
    assert("losses"@ != "inBonus"@) by {
        assert("losses"@.len() == 6);
        assert("inBonus"@.len() == 7);
    }
    assert("losses"@ != "timeoutsRemaining"@) by {
        assert("losses"@.len() == 6);
        assert("timeoutsRemaining"@.len() == 17);
    }
    assert("losses"@ != "periods"@) by {
        assert("losses"@.len() == 6);
        assert("periods"@.len() == 7);
    }
    assert("score"@ != "seed"@) by {
        assert("score"@.len() == 5);
        assert("seed"@.len() == 4);
    }
    assert("score"@ != "inBonus"@) by {
        assert("score"@.len() == 5);
        assert("inBonus"@.len() == 7);
    }
    assert("score"@ != "timeoutsRemaining"@) by {
        assert("score"@.len() == 5);
        assert("timeoutsRemaining"@.len() == 17);
    }
    assert("score"@ != "periods"@) by {
        assert("score"@.len() == 5);
        assert("periods"@.len() == 7);
    }
    assert("seed"@ != "inBonus"@) by {
        assert("seed"@.len() == 4);
        assert("inBonus"@.len() == 7);
    }
    assert("seed"@ != "timeoutsRemaining"@) by {
        assert("seed"@.len() == 4);
        assert("timeoutsRemaining"@.len() == 17);
    }
    assert("seed"@ != "periods"@) by {
        assert("seed"@.len() == 4);
        assert("periods"@.len() == 7);
    }
    assert("inBonus"@ != "timeoutsRemaining"@) by {
        assert("inBonus"@.len() == 7);
        assert("timeoutsRemaining"@.len() == 17);
    }
    assert("inBonus"@ != "periods"@) by {
        assert("inBonus"@[0] == 'i');
        assert("periods"@[0] == 'p');
    }
    assert("timeoutsRemaining"@ != "periods"@) by {
        assert("timeoutsRemaining"@.len() == 17);
        assert("periods"@.len() == 7);
    }
    let o = spec_encode_team(t)->Obj_0;
    lemma_obj_get_at(o, "teamId"@, 0);
    assert forall|j: int| 0 <= j < 1 implies o[j].0 != "teamName"@ by {
        if j == 0 {
        }
    }
    lemma_obj_get_at(o, "teamName"@, 1);
    assert forall|j: int| 0 <= j < 2 implies o[j].0 != "teamCity"@ by {
        if j == 0 {
        } else {
        }
    }
    lemma_obj_get_at(o, "teamCity"@, 2);
    assert forall|j: int| 0 <= j < 3 implies o[j].0 != "teamTricode"@ by {
        if j == 0 {
        } else if j == 1 {
        } else {
        }
    }
    lemma_obj_get_at(o, "teamTricode"@, 3);
    assert forall|j: int| 0 <= j < 4 implies o[j].0 != "wins"@ by {
        if j == 0 {
        } else if j == 1 {
        } else if j == 2 {
        } else {
        }
    }
    lemma_obj_get_at(o, "wins"@, 4);
    assert forall|j: int| 0 <= j < 5 implies o[j].0 != "losses"@ by {
        if j == 0 {
        } else if j == 1 {
        } else if j == 2 {
        } else if j == 3 {
        } else {
        }
    }
    lemma_obj_get_at(o, "losses"@, 5);
    assert forall|j: int| 0 <= j < 6 implies o[j].0 != "score"@ by {
        if j == 0 {
        } else if j == 1 {
        } else if j == 2 {
        } else if j == 3 {
        } else if j == 4 {
        } else {
        }
    }
    lemma_obj_get_at(o, "score"@, 6);
    assert forall|j: int| 0 <= j < 7 implies o[j].0 != "seed"@ by {
        if j == 0 {
        } else if j == 1 {
        } else if j == 2 {
        } else if j == 3 {
        } else if j == 4 {
        } else if j == 5 {
        } else {
        }
    }
    lemma_obj_get_at(o, "seed"@, 7);
    assert forall|j: int| 0 <= j < 8 implies o[j].0 != "inBonus"@ by {
        if j == 0 {
        } else if j == 1 {
        } else if j == 2 {
        } else if j == 3 {
        } else if j == 4 {
        } else if j == 5 {
        } else if j == 6 {
        } else {
        }
    }
    lemma_obj_get_at(o, "inBonus"@, 8);
    assert forall|j: int| 0 <= j < 9 implies o[j].0 != "timeoutsRemaining"@ by {
        if j == 0 {
        } else if j == 1 {
        } else if j == 2 {
        } else if j == 3 {
        } else if j == 4 {
        } else if j == 5 {
        } else if j == 6 {
        } else if j == 7 {
        } else {
        }
    }
    lemma_obj_get_at(o, "timeoutsRemaining"@, 9);
    assert forall|j: int| 0 <= j < 10 implies o[j].0 != "periods"@ by {
        if j == 0 {
        } else if j == 1 {
        } else if j == 2 {
        } else if j == 3 {
        } else if j == 4 {
        } else if j == 5 {
        } else if j == 6 {
        } else if j == 7 {
        } else if j == 8 {
        } else {
        }
    }
    lemma_obj_get_at(o, "periods"@, 10);
    lemma_round_trip_periods(t.periods, 0);
    assert(t.periods.skip(0) =~= t.periods);
    assert(spec_decode_team(spec_encode_team(t))->Ok_0 =~= t);
}

/// Round trip of one leader record.
pub proof fn lemma_round_trip_leader(l: LeaderV)
    ensures
        spec_decode_leader(spec_encode_leader(l)) == Ok::<LeaderV, Seq<SegV>>(l),
{
    reveal_strlit("assists");
    reveal_strlit("jerseyNum");
    reveal_strlit("name");
    reveal_strlit("personId");
    reveal_strlit("playerSlug");
    reveal_strlit("points");
    reveal_strlit("position");
    reveal_strlit("rebounds");
    reveal_strlit("teamTricode");
    assert("personId"@ != "name"@) by {
        assert("personId"@.len() == 8);
        assert("name"@.len() == 4);
    }
    assert("personId"@ != "jerseyNum"@) by {
        assert("personId"@.len() == 8);
        assert("jerseyNum"@.len() == 9);
    }
    assert("personId"@ != "position"@) by {
        assert("personId"@[1] == 'e');
        assert("position"@[1] == 'o');
    }
    assert("personId"@ != "teamTricode"@) by {
        assert("personId"@.len() == 8);
        assert("teamTricode"@.len() == 11);
    }
    assert("personId"@ != "playerSlug"@) by {
        assert("personId"@.len() == 8);
        assert("playerSlug"@.len() == 10);
    }
    assert("personId"@ != "points"@) by {
        assert("personId"@.len() == 8);
        assert("points"@.len() == 6);
    }
    assert("personId"@ != "rebounds"@) by {
        assert("personId"@[0] == 'p');
        assert("rebounds"@[0] == 'r');
    }
    assert("personId"@ != "assists"@) by {
        assert("personId"@.len() == 8);
        assert("assists"@.len() == 7);
    }
    assert("name"@ != "jerseyNum"@) by {
        assert("name"@.len() == 4);
        assert("jerseyNum"@.len() == 9);
    }
    assert("name"@ != "position"@) by {
        assert("name"@.len() == 4);
        assert("position"@.len() == 8);
    }
    assert("name"@ != "teamTricode"@) by {
        assert("name"@.len() == 4);
        assert("teamTricode"@.len() == 11);
    }
    assert("name"@ != "playerSlug"@) by {
        assert("name"@.len() == 4);
        assert("playerSlug"@.len() == 10);
    }
    assert("name"@ != "points"@) by {
        assert("name"@.len() == 4);
        assert("points"@.len() == 6);
    }
    assert("name"@ != "rebounds"@) by {
        assert("name"@.len() == 4);
        assert("rebounds"@.len() == 8);
    }
    assert("name"@ != "assists"@) by {
        assert("name"@.len() == 4);
        assert("assists"@.len() == 7);
    }
    assert("jerseyNum"@ != "position"@) by {
        assert("jerseyNum"@.len() == 9);
        assert("position"@.len() == 8);
    }
    assert("jerseyNum"@ != "teamTricode"@) by {
        assert("jerseyNum"@.len() == 9);
        assert("teamTricode"@.len() == 11);
    }
    assert("jerseyNum"@ != "playerSlug"@) by {
        assert("jerseyNum"@.len() == 9);
        assert("playerSlug"@.len() == 10);
    }
    assert("jerseyNum"@ != "points"@) by {
        assert("jerseyNum"@.len() == 9);
        assert("points"@.len() == 6);
    }
    assert("jerseyNum"@ != "rebounds"@) by {
        assert("jerseyNum"@.len() == 9);
        assert("rebounds"@.len() == 8);
    }
    assert("jerseyNum"@ != "assists"@) by {
        assert("jerseyNum"@.len() == 9);
        assert("assists"@.len() == 7);
    }
    assert("position"@ != "teamTricode"@) by {
        assert("position"@.len() == 8);
        assert("teamTricode"@.len() == 11);
    }
    assert("position"@ != "playerSlug"@) by {
        assert("position"@.len() == 8);
        assert("playerSlug"@.len() == 10);
    }
    assert("position"@ != "points"@) by {
        assert("position"@.len() == 8);
        assert("points"@.len() == 6);
    }
    assert("position"@ != "rebounds"@) by {
        assert("position"@[0] == 'p');
        assert("rebounds"@[0] == 'r');
    }
    assert("position"@ != "assists"@) by {
        assert("position"@.len() == 8);
        assert("assists"@.len() == 7);
    }
    assert("teamTricode"@ != "playerSlug"@) by {
        assert("teamTricode"@.len() == 11);
        assert("playerSlug"@.len() == 10);
    }
    assert("teamTricode"@ != "points"@) by {
        assert("teamTricode"@.len() == 11);
        assert("points"@.len() == 6);
    }
    assert("teamTricode"@ != "rebounds"@) by {
        assert("teamTricode"@.len() == 11);
        assert("rebounds"@.len() == 8);
    }
    assert("teamTricode"@ != "assists"@) by {
        assert("teamTricode"@.len() == 11);
        assert("assists"@.len() == 7);
    }
    assert("playerSlug"@ != "points"@) by {
        assert("playerSlug"@.len() == 10);
        assert("points"@.len() == 6);
    }
    assert("playerSlug"@ != "rebounds"@) by {
        assert("playerSlug"@.len() == 10);
        assert("rebounds"@.len() == 8);
    }
    assert("playerSlug"@ != "assists"@) by {
        assert("playerSlug"@.len() == 10);
        assert("assists"@.len() == 7);
    }
    assert("points"@ != "rebounds"@) by {
        assert("points"@.len() == 6);
        assert("rebounds"@.len() == 8);
    }
    assert("points"@ != "assists"@) by {
        assert("points"@.len() == 6);
        assert("assists"@.len() == 7);
    }
    assert("rebounds"@ != "assists"@) by {
        assert("rebounds"@.len() == 8);
        assert("assists"@.len() == 7);
    }
    let o = spec_encode_leader(l)->Obj_0;
    lemma_obj_get_at(o, "personId"@, 0);
    assert forall|j: int| 0 <= j < 1 implies o[j].0 != "name"@ by {
        if j == 0 {
        }
    }
    lemma_obj_get_at(o, "name"@, 1);
    assert forall|j: int| 0 <= j < 2 implies o[j].0 != "jerseyNum"@ by {
        if j == 0 {
        } else {
        }
    }
    lemma_obj_get_at(o, "jerseyNum"@, 2);
    assert forall|j: int| 0 <= j < 3 implies o[j].0 != "position"@ by {
        if j == 0 {
        } else if j == 1 {
        } else {
        }
    }
    lemma_obj_get_at(o, "position"@, 3);
    assert forall|j: int| 0 <= j < 4 implies o[j].0 != "teamTricode"@ by {
        if j == 0 {
        } else if j == 1 {
        } else if j == 2 {
        } else {
        }
    }
    lemma_obj_get_at(o, "teamTricode"@, 4);
    assert forall|j: int| 0 <= j < 5 implies o[j].0 != "playerSlug"@ by {
        if j == 0 {
        } else if j == 1 {
        } else if j == 2 {
        } else if j == 3 {
        } else {
        }
    }
    lemma_obj_get_at(o, "playerSlug"@, 5);
    assert forall|j: int| 0 <= j < 6 implies o[j].0 != "points"@ by {
        if j == 0 {
        } else if j == 1 {
        } else if j == 2 {
        } else if j == 3 {
        } else if j == 4 {
        } else {
        }
    }
    lemma_obj_get_at(o, "points"@, 6);
    assert forall|j: int| 0 <= j < 7 implies o[j].0 != "rebounds"@ by {
        if j == 0 {
        } else if j == 1 {
        } else if j == 2 {
        } else if j == 3 {
        } else if j == 4 {
        } else if j == 5 {
        } else {
        }
    }
    lemma_obj_get_at(o, "rebounds"@, 7);
    assert forall|j: int| 0 <= j < 8 implies o[j].0 != "assists"@ by {
        if j == 0 {
        } else if j == 1 {
        } else if j == 2 {
        } else if j == 3 {
        } else if j == 4 {
        } else if j == 5 {
        } else if j == 6 {
        } else {
        }
    }
    lemma_obj_get_at(o, "assists"@, 8);
    assert(spec_decode_leader(spec_encode_leader(l))->Ok_0 =~= l);
}

/// Round trip of the `gameLeaders` object.
pub proof fn lemma_round_trip_leaders(l: GameLeadersV)
    ensures
        spec_decode_leaders(spec_encode_leaders(l)) == Ok::<GameLeadersV, Seq<SegV>>(l),
{
    reveal_strlit("awayLeaders");
    reveal_strlit("homeLeaders");
    assert("homeLeaders"@ != "awayLeaders"@) by {
        assert("homeLeaders"@[0] == 'h');
        assert("awayLeaders"@[0] == 'a');
    }
    let o = spec_encode_leaders(l)->Obj_0;
    lemma_obj_get_at(o, "homeLeaders"@, 0);
    assert forall|j: int| 0 <= j < 1 implies o[j].0 != "awayLeaders"@ by {
        if j == 0 {
        }
    }
    lemma_obj_get_at(o, "awayLeaders"@, 1);
    lemma_round_trip_leader(l.home_leaders);
    lemma_round_trip_leader(l.away_leaders);
    assert(spec_decode_leaders(spec_encode_leaders(l))->Ok_0 =~= l);
}

/// Round trip of the `pbOdds` object.
pub proof fn lemma_round_trip_pb_odds(o_rec: PbOddsV)
    ensures
        spec_decode_pb_odds(spec_encode_pb_odds(o_rec)) == Ok::<PbOddsV, Seq<SegV>>(o_rec),
{
    reveal_strlit("odds");
    reveal_strlit("suspended");
    reveal_strlit("team");
    assert("team"@ != "odds"@) by {
        assert("team"@[0] == 't');
        assert("odds"@[0] == 'o');
    }
    assert("team"@ != "suspended"@) by {
        assert("team"@.len() == 4);
        assert("suspended"@.len() == 9);
    }
    assert("odds"@ != "suspended"@) by {
        assert("odds"@.len() == 4);
        assert("suspended"@.len() == 9);
    }
    let o = spec_encode_pb_odds(o_rec)->Obj_0;
    lemma_obj_get_at(o, "team"@, 0);
    assert forall|j: int| 0 <= j < 1 implies o[j].0 != "odds"@ by {
        if j == 0 {
        }
    }
    lemma_obj_get_at(o, "odds"@, 1);
    assert forall|j: int| 0 <= j < 2 implies o[j].0 != "suspended"@ by {
        if j == 0 {
        } else {
        }
    }
    lemma_obj_get_at(o, "suspended"@, 2);
    assert(spec_decode_pb_odds(spec_encode_pb_odds(o_rec))->Ok_0 =~= o_rec);
}

/// Round trip of one game.
pub proof fn lemma_round_trip_game(g: GameV)
    ensures
        spec_decode_game(spec_encode_game(g)) == Ok::<GameV, Seq<SegV>>(g),
{
    reveal_strlit("awayTeam");
    reveal_strlit("gameClock");
    reveal_strlit("gameCode");
    reveal_strlit("gameEt");
    reveal_strlit("gameId");
    reveal_strlit("gameLeaders");
    reveal_strlit("gameStatus");
    reveal_strlit("gameStatusText");
    reveal_strlit("gameTimeUTC");
    reveal_strlit("homeTeam");
    reveal_strlit("ifNecessary");
    reveal_strlit("pbOdds");
    reveal_strlit("period");
    reveal_strlit("regulationPeriods");
    reveal_strlit("seriesGameNumber");
    reveal_strlit("seriesText");
    assert("gameId"@ != "gameCode"@) by {
        assert("gameId"@.len() == 6);
        assert("gameCode"@.len() == 8);
    }
    assert("gameId"@ != "gameStatus"@) by {
        assert("gameId"@.len() == 6);
        assert("gameStatus"@.len() == 10);
    }
    assert("gameId"@ != "gameStatusText"@) by {
        assert("gameId"@.len() == 6);
        assert("gameStatusText"@.len() == 14);
    }
    assert("gameId"@ != "period"@) by {
        assert("gameId"@[0] == 'g');
        assert("period"@[0] == 'p');
    }
    assert("gameId"@ != "gameClock"@) by {
        assert("gameId"@.len() == 6);
        assert("gameClock"@.len() == 9);
    }
    assert("gameId"@ != "gameTimeUTC"@) by {
        assert("gameId"@.len() == 6);
        assert("gameTimeUTC"@.len() == 11);
    }
    assert("gameId"@ != "gameEt"@) by {
        assert("gameId"@[4] == 'I');
        assert("gameEt"@[4] == 'E');
    }
    assert("gameId"@ != "regulationPeriods"@) by {
        assert("gameId"@.len() == 6);
        assert("regulationPeriods"@.len() == 17);
    }
    assert("gameId"@ != "ifNecessary"@) by {
        assert("gameId"@.len() == 6);
        assert("ifNecessary"@.len() == 11);
    }
    assert("gameId"@ != "seriesGameNumber"@) by {
        assert("gameId"@.len() == 6);
        assert("seriesGameNumber"@.len() == 16);
    }
    assert("gameId"@ != "seriesText"@) by {
        assert("gameId"@.len() == 6);
        assert("seriesText"@.len() == 10);
    }
    assert("gameId"@ != "homeTeam"@) by {
        assert("gameId"@.len() == 6);
        assert("homeTeam"@.len() == 8);
    }
    assert("gameId"@ != "awayTeam"@) by {
        assert("gameId"@.len() == 6);
        assert("awayTeam"@.len() == 8);
    }
    assert("gameId"@ != "gameLeaders"@) by {
        assert("gameId"@.len() == 6);
        assert("gameLeaders"@.len() == 11);
    }
    assert("gameId"@ != "pbOdds"@) by {
        assert("gameId"@[0] == 'g');
        assert("pbOdds"@[0] == 'p');
    }
    assert("gameCode"@ != "gameStatus"@) by {
        assert("gameCode"@.len() == 8);
        assert("gameStatus"@.len() == 10);
    }
    assert("gameCode"@ != "gameStatusText"@) by {
        assert("gameCode"@.len() == 8);
        assert("gameStatusText"@.len() == 14);
    }
    assert("gameCode"@ != "period"@) by {
        assert("gameCode"@.len() == 8);
        assert("period"@.len() == 6);
    }
    assert("gameCode"@ != "gameClock"@) by {
        assert("gameCode"@.len() == 8);
        assert("gameClock"@.len() == 9);
    }
    assert("gameCode"@ != "gameTimeUTC"@) by {
        assert("gameCode"@.len() == 8);
        assert("gameTimeUTC"@.len() == 11);
    }
    assert("gameCode"@ != "gameEt"@) by {
        assert("gameCode"@.len() == 8);
        assert("gameEt"@.len() == 6);
    }
    assert("gameCode"@ != "regulationPeriods"@) by {
        assert("gameCode"@.len() == 8);
        assert("regulationPeriods"@.len() == 17);
    }
    assert("gameCode"@ != "ifNecessary"@) by {
        assert("gameCode"@.len() == 8);
        assert("ifNecessary"@.len() == 11);
    }
    assert("gameCode"@ != "seriesGameNumber"@) by {
        assert("gameCode"@.len() == 8);
        assert("seriesGameNumber"@.len() == 16);
    }
    assert("gameCode"@ != "seriesText"@) by {
        assert("gameCode"@.len() == 8);
        assert("seriesText"@.len() == 10);
    }
    assert("gameCode"@ != "homeTeam"@) by {
        assert("gameCode"@[0] == 'g');
        assert("homeTeam"@[0] == 'h');
    }
    assert("gameCode"@ != "awayTeam"@) by {
        assert("gameCode"@[0] == 'g');
        assert("awayTeam"@[0] == 'a');
    }
    assert("gameCode"@ != "gameLeaders"@) by {
        assert("gameCode"@.len() == 8);
        assert("gameLeaders"@.len() == 11);
    }
    assert("gameCode"@ != "pbOdds"@) by {
        assert("gameCode"@.len() == 8);
        assert("pbOdds"@.len() == 6);
    }
    assert("gameStatus"@ != "gameStatusText"@) by {
        assert("gameStatus"@.len() == 10);
        assert("gameStatusText"@.len() == 14);
    }
    assert("gameStatus"@ != "period"@) by {
        assert("gameStatus"@.len() == 10);
        assert("period"@.len() == 6);
    }
    assert("gameStatus"@ != "gameClock"@) by {
        assert("gameStatus"@.len() == 10);
        assert("gameClock"@.len() == 9);
    }
    assert("gameStatus"@ != "gameTimeUTC"@) by {
        assert("gameStatus"@.len() == 10);
        assert("gameTimeUTC"@.len() == 11);
    }
    assert("gameStatus"@ != "gameEt"@) by {
        assert("gameStatus"@.len() == 10);
        assert("gameEt"@.len() == 6);
    }
    assert("gameStatus"@ != "regulationPeriods"@) by {
        assert("gameStatus"@.len() == 10);
        assert("regulationPeriods"@.len() == 17);
    }
    assert("gameStatus"@ != "ifNecessary"@) by {
        assert("gameStatus"@.len() == 10);
        assert("ifNecessary"@.len() == 11);
    }
    assert("gameStatus"@ != "seriesGameNumber"@) by {
        assert("gameStatus"@.len() == 10);
        assert("seriesGameNumber"@.len() == 16);
    }
    assert("gameStatus"@ != "seriesText"@) by {
        assert("gameStatus"@[0] == 'g');
        assert("seriesText"@[0] == 's');
    }
    assert("gameStatus"@ != "homeTeam"@) by {
        assert("gameStatus"@.len() == 10);
        assert("homeTeam"@.len() == 8);
    }
    assert("gameStatus"@ != "awayTeam"@) by {
        assert("gameStatus"@.len() == 10);
        assert("awayTeam"@.len() == 8);
    }
    assert("gameStatus"@ != "gameLeaders"@) by {
        assert("gameStatus"@.len() == 10);
        assert("gameLeaders"@.len() == 11);
    }
    assert("gameStatus"@ != "pbOdds"@) by {
        assert("gameStatus"@.len() == 10);
        assert("pbOdds"@.len() == 6);
    }
    assert("gameStatusText"@ != "period"@) by {
        assert("gameStatusText"@.len() == 14);
        assert("period"@.len() == 6);
    }
    assert("gameStatusText"@ != "gameClock"@) by {
        assert("gameStatusText"@.len() == 14);
        assert("gameClock"@.len() == 9);
    }
    assert("gameStatusText"@ != "gameTimeUTC"@) by {
        assert("gameStatusText"@.len() == 14);
        assert("gameTimeUTC"@.len() == 11);
    }
    assert("gameStatusText"@ != "gameEt"@) by {
        assert("gameStatusText"@.len() == 14);
        assert("gameEt"@.len() == 6);
    }
    assert("gameStatusText"@ != "regulationPeriods"@) by {
        assert("gameStatusText"@.len() == 14);
        assert("regulationPeriods"@.len() == 17);
    }
    assert("gameStatusText"@ != "ifNecessary"@) by {
        assert("gameStatusText"@.len() == 14);
        assert("ifNecessary"@.len() == 11);
    }
    assert("gameStatusText"@ != "seriesGameNumber"@) by {
        assert("gameStatusText"@.len() == 14);
        assert("seriesGameNumber"@.len() == 16);
    }
    assert("gameStatusText"@ != "seriesText"@) by {
        assert("gameStatusText"@.len() == 14);
        assert("seriesText"@.len() == 10);
    }
    assert("gameStatusText"@ != "homeTeam"@) by {
        assert("gameStatusText"@.len() == 14);
        assert("homeTeam"@.len() == 8);
    }
    assert("gameStatusText"@ != "awayTeam"@) by {
        assert("gameStatusText"@.len() == 14);
        assert("awayTeam"@.len() == 8);
    }
    assert("gameStatusText"@ != "gameLeaders"@) by {
        assert("gameStatusText"@.len() == 14);
        assert("gameLeaders"@.len() == 11);
    }
    assert("gameStatusText"@ != "pbOdds"@) by {
        assert("gameStatusText"@.len() == 14);
        assert("pbOdds"@.len() == 6);
    }
    assert("period"@ != "gameClock"@) by {
        assert("period"@.len() == 6);
        assert("gameClock"@.len() == 9);
    }
    assert("period"@ != "gameTimeUTC"@) by {
        assert("period"@.len() == 6);
        assert("gameTimeUTC"@.len() == 11);
    }
    assert("period"@ != "gameEt"@) by {
        assert("period"@[0] == 'p');
        assert("gameEt"@[0] == 'g');
    }
    assert("period"@ != "regulationPeriods"@) by {
        assert("period"@.len() == 6);
        assert("regulationPeriods"@.len() == 17);
    }
    assert("period"@ != "ifNecessary"@) by {
        assert("period"@.len() == 6);
        assert("ifNecessary"@.len() == 11);
    }
    assert("period"@ != "seriesGameNumber"@) by {
        assert("period"@.len() == 6);
        assert("seriesGameNumber"@.len() == 16);
    }
    assert("period"@ != "seriesText"@) by {
        assert("period"@.len() == 6);
        assert("seriesText"@.len() == 10);
    }
    assert("period"@ != "homeTeam"@) by {
        assert("period"@.len() == 6);
        assert("homeTeam"@.len() == 8);
    }
    assert("period"@ != "awayTeam"@) by {
        assert("period"@.len() == 6);
        assert("awayTeam"@.len() == 8);
    }
    assert("period"@ != "gameLeaders"@) by {
        assert("period"@.len() == 6);
        assert("gameLeaders"@.len() == 11);
    }
    assert("period"@ != "pbOdds"@) by {
        assert("period"@[1] == 'e');
        assert("pbOdds"@[1] == 'b');
    }
    assert("gameClock"@ != "gameTimeUTC"@) by {
        assert("gameClock"@.len() == 9);
        assert("gameTimeUTC"@.len() == 11);
    }
    assert("gameClock"@ != "gameEt"@) by {
        assert("gameClock"@.len() == 9);
        assert("gameEt"@.len() == 6);
    }
    assert("gameClock"@ != "regulationPeriods"@) by {
        assert("gameClock"@.len() == 9);
        assert("regulationPeriods"@.len() == 17);
    }
    assert("gameClock"@ != "ifNecessary"@) by {
        assert("gameClock"@.len() == 9);
        assert("ifNecessary"@.len() == 11);
    }
    assert("gameClock"@ != "seriesGameNumber"@) by {
        assert("gameClock"@.len() == 9);
        assert("seriesGameNumber"@.len() == 16);
    }
    assert("gameClock"@ != "seriesText"@) by {
        assert("gameClock"@.len() == 9);
        assert("seriesText"@.len() == 10);
    }
    assert("gameClock"@ != "homeTeam"@) by {
        assert("gameClock"@.len() == 9);
        assert("homeTeam"@.len() == 8);
    }
    assert("gameClock"@ != "awayTeam"@) by {
        assert("gameClock"@.len() == 9);
        assert("awayTeam"@.len() == 8);
    }
    assert("gameClock"@ != "gameLeaders"@) by {
        assert("gameClock"@.len() == 9);
        assert("gameLeaders"@.len() == 11);
    }
    assert("gameClock"@ != "pbOdds"@) by {
        assert("gameClock"@.len() == 9);
        assert("pbOdds"@.len() == 6);
    }
    assert("gameTimeUTC"@ != "gameEt"@) by {
        assert("gameTimeUTC"@.len() == 11);
        assert("gameEt"@.len() == 6);
    }
    assert("gameTimeUTC"@ != "regulationPeriods"@) by {
        assert("gameTimeUTC"@.len() == 11);
        assert("regulationPeriods"@.len() == 17);
    }
    assert("gameTimeUTC"@ != "ifNecessary"@) by {
        assert("gameTimeUTC"@[0] == 'g');
        assert("ifNecessary"@[0] == 'i');
    }
    assert("gameTimeUTC"@ != "seriesGameNumber"@) by {
        assert("gameTimeUTC"@.len() == 11);
        assert("seriesGameNumber"@.len() == 16);
    }
    assert("gameTimeUTC"@ != "seriesText"@) by {
        assert("gameTimeUTC"@.len() == 11);
        assert("seriesText"@.len() == 10);
    }
    assert("gameTimeUTC"@ != "homeTeam"@) by {
        assert("gameTimeUTC"@.len() == 11);
        assert("homeTeam"@.len() == 8);
    }
    assert("gameTimeUTC"@ != "awayTeam"@) by {
        assert("gameTimeUTC"@.len() == 11);
        assert("awayTeam"@.len() == 8);
    }
    assert("gameTimeUTC"@ != "gameLeaders"@) by {
        assert("gameTimeUTC"@[4] == 'T');
        assert("gameLeaders"@[4] == 'L');
    }
    assert("gameTimeUTC"@ != "pbOdds"@) by {
        assert("gameTimeUTC"@.len() == 11);
        assert("pbOdds"@.len() == 6);
    }
    assert("gameEt"@ != "regulationPeriods"@) by {
        assert("gameEt"@.len() == 6);
        assert("regulationPeriods"@.len() == 17);
    }
    assert("gameEt"@ != "ifNecessary"@) by {
        assert("gameEt"@.len() == 6);
        assert("ifNecessary"@.len() == 11);
    }
    assert("gameEt"@ != "seriesGameNumber"@) by {
        assert("gameEt"@.len() == 6);
        assert("seriesGameNumber"@.len() == 16);
    }
    assert("gameEt"@ != "seriesText"@) by {
        assert("gameEt"@.len() == 6);
        assert("seriesText"@.len() == 10);
    }
    assert("gameEt"@ != "homeTeam"@) by {
        assert("gameEt"@.len() == 6);
        assert("homeTeam"@.len() == 8);
    }
    assert("gameEt"@ != "awayTeam"@) by {
        assert("gameEt"@.len() == 6);
        assert("awayTeam"@.len() == 8);
    }
    assert("gameEt"@ != "gameLeaders"@) by {
        assert("gameEt"@.len() == 6);
        assert("gameLeaders"@.len() == 11);
    }
    assert("gameEt"@ != "pbOdds"@) by {
        assert("gameEt"@[0] == 'g');
        assert("pbOdds"@[0] == 'p');
    }
    assert("regulationPeriods"@ != "ifNecessary"@) by {
        assert("regulationPeriods"@.len() == 17);
        assert("ifNecessary"@.len() == 11);
    }
    assert("regulationPeriods"@ != "seriesGameNumber"@) by {
        assert("regulationPeriods"@.len() == 17);
        assert("seriesGameNumber"@.len() == 16);
    }
    assert("regulationPeriods"@ != "seriesText"@) by {
        assert("regulationPeriods"@.len() == 17);
        assert("seriesText"@.len() == 10);
    }
    assert("regulationPeriods"@ != "homeTeam"@) by {
        assert("regulationPeriods"@.len() == 17);
        assert("homeTeam"@.len() == 8);
    }
    assert("regulationPeriods"@ != "awayTeam"@) by {
        assert("regulationPeriods"@.len() == 17);
        assert("awayTeam"@.len() == 8);
    }
    assert("regulationPeriods"@ != "gameLeaders"@) by {
        assert("regulationPeriods"@.len() == 17);
        assert("gameLeaders"@.len() == 11);
    }
    assert("regulationPeriods"@ != "pbOdds"@) by {
        assert("regulationPeriods"@.len() == 17);
        assert("pbOdds"@.len() == 6);
    }
    assert("ifNecessary"@ != "seriesGameNumber"@) by {
        assert("ifNecessary"@.len() == 11);
        assert("seriesGameNumber"@.len() == 16);
    }
    assert("ifNecessary"@ != "seriesText"@) by {
        assert("ifNecessary"@.len() == 11);
        assert("seriesText"@.len() == 10);
    }
    assert("ifNecessary"@ != "homeTeam"@) by {
        assert("ifNecessary"@.len() == 11);
        assert("homeTeam"@.len() == 8);
    }
    assert("ifNecessary"@ != "awayTeam"@) by {
        assert("ifNecessary"@.len() == 11);
        assert("awayTeam"@.len() == 8);
    }
    assert("ifNecessary"@ != "gameLeaders"@) by {
        assert("ifNecessary"@[0] == 'i');
        assert("gameLeaders"@[0] == 'g');
    }
    assert("ifNecessary"@ != "pbOdds"@) by {
        assert("ifNecessary"@.len() == 11);
        assert("pbOdds"@.len() == 6);
    }
    assert("seriesGameNumber"@ != "seriesText"@) by {
        assert("seriesGameNumber"@.len() == 16);
        assert("seriesText"@.len() == 10);
    }
    assert("seriesGameNumber"@ != "homeTeam"@) by {
        assert("seriesGameNumber"@.len() == 16);
        assert("homeTeam"@.len() == 8);
    }
    assert("seriesGameNumber"@ != "awayTeam"@) by {
        assert("seriesGameNumber"@.len() == 16);
        assert("awayTeam"@.len() == 8);
    }
    assert("seriesGameNumber"@ != "gameLeaders"@) by {
        assert("seriesGameNumber"@.len() == 16);
        assert("gameLeaders"@.len() == 11);
    }
    assert("seriesGameNumber"@ != "pbOdds"@) by {
        assert("seriesGameNumber"@.len() == 16);
        assert("pbOdds"@.len() == 6);
    }
    assert("seriesText"@ != "homeTeam"@) by {
        assert("seriesText"@.len() == 10);
        assert("homeTeam"@.len() == 8);
    }
    assert("seriesText"@ != "awayTeam"@) by {
        assert("seriesText"@.len() == 10);
        assert("awayTeam"@.len() == 8);
    }
    assert("seriesText"@ != "gameLeaders"@) by {
        assert("seriesText"@.len() == 10);
        assert("gameLeaders"@.len() == 11);
    }
    assert("seriesText"@ != "pbOdds"@) by {
        assert("seriesText"@.len() == 10);
        assert("pbOdds"@.len() == 6);
    }
    assert("homeTeam"@ != "awayTeam"@) by {
        assert("homeTeam"@[0] == 'h');
        assert("awayTeam"@[0] == 'a');
    }
    assert("homeTeam"@ != "gameLeaders"@) by {
        assert("homeTeam"@.len() == 8);
        assert("gameLeaders"@.len() == 11);
    }
    assert("homeTeam"@ != "pbOdds"@) by {
        assert("homeTeam"@.len() == 8);
        assert("pbOdds"@.len() == 6);
    }
    assert("awayTeam"@ != "gameLeaders"@) by {
        assert("awayTeam"@.len() == 8);
        assert("gameLeaders"@.len() == 11);
    }
    assert("awayTeam"@ != "pbOdds"@) by {
        assert("awayTeam"@.len() == 8);
        assert("pbOdds"@.len() == 6);
    }
    assert("gameLeaders"@ != "pbOdds"@) by {
        assert("gameLeaders"@.len() == 11);
        assert("pbOdds"@.len() == 6);
    }
    let o = spec_encode_game(g)->Obj_0;
    lemma_obj_get_at(o, "gameId"@, 0);
    assert forall|j: int| 0 <= j < 1 implies o[j].0 != "gameCode"@ by {
        if j == 0 {
        }
    }
    lemma_obj_get_at(o, "gameCode"@, 1);
    assert forall|j: int| 0 <= j < 2 implies o[j].0 != "gameStatus"@ by {
        if j == 0 {
        } else {
        }
    }
    lemma_obj_get_at(o, "gameStatus"@, 2);
    assert forall|j: int| 0 <= j < 3 implies o[j].0 != "gameStatusText"@ by {
        if j == 0 {
        } else if j == 1 {
        } else {
        }
    }
    lemma_obj_get_at(o, "gameStatusText"@, 3);
    assert forall|j: int| 0 <= j < 4 implies o[j].0 != "period"@ by {
        if j == 0 {
        } else if j == 1 {
        } else if j == 2 {
        } else {
        }
    }
    lemma_obj_get_at(o, "period"@, 4);
    assert forall|j: int| 0 <= j < 5 implies o[j].0 != "gameClock"@ by {
        if j == 0 {
        } else if j == 1 {
        } else if j == 2 {
        } else if j == 3 {
        } else {
        }
    }
    lemma_obj_get_at(o, "gameClock"@, 5);
    assert forall|j: int| 0 <= j < 6 implies o[j].0 != "gameTimeUTC"@ by {
        if j == 0 {
        } else if j == 1 {
        } else if j == 2 {
        } else if j == 3 {
        } else if j == 4 {
        } else {
        }
    }
    lemma_obj_get_at(o, "gameTimeUTC"@, 6);
    assert forall|j: int| 0 <= j < 7 implies o[j].0 != "gameEt"@ by {
        if j == 0 {
        } else if j == 1 {
        } else if j == 2 {
        } else if j == 3 {
        } else if j == 4 {
        } else if j == 5 {
        } else {
        }
    }
    lemma_obj_get_at(o, "gameEt"@, 7);
    assert forall|j: int| 0 <= j < 8 implies o[j].0 != "regulationPeriods"@ by {
        if j == 0 {
        } else if j == 1 {
        } else if j == 2 {
        } else if j == 3 {
        } else if j == 4 {
        } else if j == 5 {
        } else if j == 6 {
        } else {
        }
    }
    lemma_obj_get_at(o, "regulationPeriods"@, 8);
    assert forall|j: int| 0 <= j < 9 implies o[j].0 != "ifNecessary"@ by {
        if j == 0 {
        } else if j == 1 {
        } else if j == 2 {
        } else if j == 3 {
        } else if j == 4 {
        } else if j == 5 {
        } else if j == 6 {
        } else if j == 7 {
        } else {
        }
    }
    lemma_obj_get_at(o, "ifNecessary"@, 9);
    assert forall|j: int| 0 <= j < 10 implies o[j].0 != "seriesGameNumber"@ by {
        if j == 0 {
        } else if j == 1 {
        } else if j == 2 {
        } else if j == 3 {
        } else if j == 4 {
        } else if j == 5 {
        } else if j == 6 {
        } else if j == 7 {
        } else if j == 8 {
        } else {
        }
    }
    lemma_obj_get_at(o, "seriesGameNumber"@, 10);
    assert forall|j: int| 0 <= j < 11 implies o[j].0 != "seriesText"@ by {
        if j == 0 {
        } else if j == 1 {
        } else if j == 2 {
        } else if j == 3 {
        } else if j == 4 {
        } else if j == 5 {
        } else if j == 6 {
        } else if j == 7 {
        } else if j == 8 {
        } else if j == 9 {
        } else {
        }
    }
    lemma_obj_get_at(o, "seriesText"@, 11);
    assert forall|j: int| 0 <= j < 12 implies o[j].0 != "homeTeam"@ by {
        if j == 0 {
        } else if j == 1 {
        } else if j == 2 {
        } else if j == 3 {
        } else if j == 4 {
        } else if j == 5 {
        } else if j == 6 {
        } else if j == 7 {
        } else if j == 8 {
        } else if j == 9 {
        } else if j == 10 {
        } else {
        }
    }
    lemma_obj_get_at(o, "homeTeam"@, 12);
    assert forall|j: int| 0 <= j < 13 implies o[j].0 != "awayTeam"@ by {
        if j == 0 {
        } else if j == 1 {
        } else if j == 2 {
        } else if j == 3 {
        } else if j == 4 {
        } else if j == 5 {
        } else if j == 6 {
        } else if j == 7 {
        } else if j == 8 {
        } else if j == 9 {
        } else if j == 10 {
        } else if j == 11 {
        } else {
        }
    }
    lemma_obj_get_at(o, "awayTeam"@, 13);
    assert forall|j: int| 0 <= j < 14 implies o[j].0 != "gameLeaders"@ by {
        if j == 0 {
        } else if j == 1 {
        } else if j == 2 {
        } else if j == 3 {
        } else if j == 4 {
        } else if j == 5 {
        } else if j == 6 {
        } else if j == 7 {
        } else if j == 8 {
        } else if j == 9 {
        } else if j == 10 {
        } else if j == 11 {
        } else if j == 12 {
        } else {
        }
    }
    lemma_obj_get_at(o, "gameLeaders"@, 14);
    assert forall|j: int| 0 <= j < 15 implies o[j].0 != "pbOdds"@ by {
        if j == 0 {
        } else if j == 1 {
        } else if j == 2 {
        } else if j == 3 {
        } else if j == 4 {
        } else if j == 5 {
        } else if j == 6 {
        } else if j == 7 {
        } else if j == 8 {
        } else if j == 9 {
        } else if j == 10 {
        } else if j == 11 {
        } else if j == 12 {
        } else if j == 13 {
        } else {
        }
    }
    lemma_obj_get_at(o, "pbOdds"@, 15);
    lemma_round_trip_team(g.home_team);
    lemma_round_trip_team(g.away_team);
    lemma_round_trip_leaders(g.game_leaders);
    lemma_round_trip_pb_odds(g.pb_odds);
    assert(spec_decode_game(spec_encode_game(g))->Ok_0 =~= g);
}

/// Round trip of the game list, from index `i` on.
pub proof fn lemma_round_trip_games(s: Seq<GameV>, i: int)
    requires
        0 <= i <= s.len(),
    ensures
        spec_decode_games(spec_encode_games(s), i) == Ok::<Seq<GameV>, Seq<SegV>>(s.skip(i)),
    decreases s.len() - i,
{
    let a = spec_encode_games(s);
    if i >= s.len() {
        assert(s.skip(i) =~= Seq::<GameV>::empty());
    } else {
        lemma_round_trip_game(s[i]);
        lemma_round_trip_games(s, i + 1);
        assert(seq![s[i]] + s.skip(i + 1) =~= s.skip(i));
    }
}

/// Round trip of the `scoreboard` object.
pub proof fn lemma_round_trip_scoreboard(s: ScoreboardV)
    ensures
        spec_decode_scoreboard(spec_encode_scoreboard(s)) == Ok::<ScoreboardV, Seq<SegV>>(s),
{
    reveal_strlit("gameDate");
    reveal_strlit("games");
    reveal_strlit("leagueId");
    reveal_strlit("leagueName");
    assert("gameDate"@ != "leagueId"@) by {
        assert("gameDate"@[0] == 'g');
        assert("leagueId"@[0] == 'l');
    }
    assert("gameDate"@ != "leagueName"@) by {
        assert("gameDate"@.len() == 8);
        assert("leagueName"@.len() == 10);
    }
    assert("gameDate"@ != "games"@) by {
        assert("gameDate"@.len() == 8);
        assert("games"@.len() == 5);
    }
    assert("leagueId"@ != "leagueName"@) by {
        assert("leagueId"@.len() == 8);
        assert("leagueName"@.len() == 10);
    }
    assert("leagueId"@ != "games"@) by {
        assert("leagueId"@.len() == 8);
        assert("games"@.len() == 5);
    }
    assert("leagueName"@ != "games"@) by {
        assert("leagueName"@.len() == 10);
        assert("games"@.len() == 5);
    }
    let o = spec_encode_scoreboard(s)->Obj_0;
    lemma_obj_get_at(o, "gameDate"@, 0);
    assert forall|j: int| 0 <= j < 1 implies o[j].0 != "leagueId"@ by {
        if j == 0 {
        }
    }
    lemma_obj_get_at(o, "leagueId"@, 1);
    assert forall|j: int| 0 <= j < 2 implies o[j].0 != "leagueName"@ by {
        if j == 0 {
        } else {
        }
    }
    lemma_obj_get_at(o, "leagueName"@, 2);
    assert forall|j: int| 0 <= j < 3 implies o[j].0 != "games"@ by {
        if j == 0 {
        } else if j == 1 {
        } else {
        }
    }
    lemma_obj_get_at(o, "games"@, 3);
    lemma_round_trip_games(s.games, 0);
    assert(s.games.skip(0) =~= s.games);
    assert(spec_decode_scoreboard(spec_encode_scoreboard(s))->Ok_0 =~= s);
}

/// The round trip: a document record, encoded to the wire tree and decoded
/// again, comes back equal, polymorphic fields included, for every record.
pub proof fn lemma_round_trip(d: DailyGamesV)
    ensures
        spec_decode_daily_games(spec_encode_daily_games(d)) == Ok::<DailyGamesV, Seq<SegV>>(d),
{
    reveal_strlit("meta");
    reveal_strlit("scoreboard");
    assert("meta"@ != "scoreboard"@) by {
        assert("meta"@.len() == 4);
        assert("scoreboard"@.len() == 10);
    }
    let o = spec_encode_daily_games(d)->Obj_0;
    lemma_obj_get_at(o, "meta"@, 0);
    assert forall|j: int| 0 <= j < 1 implies o[j].0 != "scoreboard"@ by {
        if j == 0 {
        }
    }
    lemma_obj_get_at(o, "scoreboard"@, 1);
    lemma_round_trip_meta(d.meta);
    lemma_round_trip_scoreboard(d.scoreboard);
    assert(spec_decode_daily_games(spec_encode_daily_games(d))->Ok_0 =~= d);
}

/// The projection's field equations: the match summary copies the game's
/// identity and the team identities, and each side's name is the city and
/// the name joined with one space. The summary is a function of the game
/// alone, so projecting twice yields equal summaries.
pub proof fn lemma_projection(g: GameV)
    ensures
        match_of(g).game_id == g.game_id,
        match_of(g).home_team_id == g.home_team.team_id,
        match_of(g).home_team_name == g.home_team.team_city + " "@ + g.home_team.team_name,
        match_of(g).away_team_id == g.away_team.team_id,
        match_of(g).away_team_name == g.away_team.team_city + " "@ + g.away_team.team_name,
{
}


/// A removed key is found no more.
pub proof fn lemma_remove_key_gone(o: Seq<(Seq<char>, JsonV)>, key: Seq<char>)
    ensures
        obj_get(remove_key(o, key), key) is None,
    decreases o.len(),
{
    if o.len() == 0 {
    } else if o[0].0 == key {
        lemma_remove_key_gone(o.drop_first(), key);
    } else {
        lemma_remove_key_gone(o.drop_first(), key);
        let r = remove_key(o, key);
        assert(r[0] == o[0]);
        assert(r.drop_first() =~= remove_key(o.drop_first(), key));
    }
}

/// Removing one key leaves every other key's lookup unchanged.
pub proof fn lemma_remove_key_other(o: Seq<(Seq<char>, JsonV)>, key: Seq<char>, k2: Seq<char>)
    requires
        k2 != key,
    ensures
        obj_get(remove_key(o, key), k2) == obj_get(o, k2),
    decreases o.len(),
{
    if o.len() == 0 {
    } else if o[0].0 == key {
        lemma_remove_key_other(o.drop_first(), key, k2);
    } else {
        lemma_remove_key_other(o.drop_first(), key, k2);
        let r = remove_key(o, key);
        assert(r[0] == o[0]);
        assert(r.drop_first() =~= remove_key(o.drop_first(), key));
    }
}

/// Default filling, shown of the `meta` record: a decode with any one of
/// its keys absent equals the full decode with that one field at its zero
/// value, whenever the full object decodes.
pub proof fn lemma_meta_default_fill(o: Seq<(Seq<char>, JsonV)>, k: Seq<char>)
    requires
        spec_decode_meta(JsonV::Obj(o)) is Ok,
        k == "version"@ || k == "request"@ || k == "time"@ || k == "code"@,
    ensures
        spec_decode_meta(JsonV::Obj(remove_key(o, k))) is Ok,
        ({
            let m = spec_decode_meta(JsonV::Obj(o))->Ok_0;
            let m2 = spec_decode_meta(JsonV::Obj(remove_key(o, k)))->Ok_0;
            &&& (k == "version"@ ==> m2 == MetaV { version: 0, ..m })
            &&& (k == "request"@ ==> m2 == MetaV { request: Seq::empty(), ..m })
            &&& (k == "time"@ ==> m2 == MetaV { time: Seq::empty(), ..m })
            &&& (k == "code"@ ==> m2 == MetaV { code: 0, ..m })
        }),
{
    lemma_remove_key_gone(o, k);
    reveal_strlit("version");
    reveal_strlit("request");
    reveal_strlit("time");
    reveal_strlit("code");
    if k == "version"@ {
        assert("version"@ != "request"@) by {
            assert("version"@[0] == 'v');
            assert("request"@[0] == 'r');
        }
        assert("version"@ != "time"@) by {
            assert("version"@.len() == 7);
            assert("time"@.len() == 4);
        }
        assert("version"@ != "code"@) by {
            assert("version"@.len() == 7);
            assert("code"@.len() == 4);
        }
        lemma_remove_key_other(o, "version"@, "request"@);
        lemma_remove_key_other(o, "version"@, "time"@);
        lemma_remove_key_other(o, "version"@, "code"@);
    }
    if k == "request"@ {
        assert("request"@ != "version"@) by {
            assert("request"@[0] == 'r');
            assert("version"@[0] == 'v');
        }
        assert("request"@ != "time"@) by {
            assert("request"@.len() == 7);
            assert("time"@.len() == 4);
        }
        assert("request"@ != "code"@) by {
            assert("request"@.len() == 7);
            assert("code"@.len() == 4);
        }
        lemma_remove_key_other(o, "request"@, "version"@);
        lemma_remove_key_other(o, "request"@, "time"@);
        lemma_remove_key_other(o, "request"@, "code"@);
    }
    if k == "time"@ {
        assert("time"@ != "version"@) by {
            assert("time"@.len() == 4);
            assert("version"@.len() == 7);
        }
        assert("time"@ != "request"@) by {
            assert("time"@.len() == 4);
            assert("request"@.len() == 7);
        }
        assert("time"@ != "code"@) by {
            assert("time"@[0] == 't');
            assert("code"@[0] == 'c');
        }
        lemma_remove_key_other(o, "time"@, "version"@);
        lemma_remove_key_other(o, "time"@, "request"@);
        lemma_remove_key_other(o, "time"@, "code"@);
    }
    if k == "code"@ {
        assert("code"@ != "version"@) by {
            assert("code"@.len() == 4);
            assert("version"@.len() == 7);
        }
        assert("code"@ != "request"@) by {
            assert("code"@.len() == 4);
            assert("request"@.len() == 7);
        }
        assert("code"@ != "time"@) by {
            assert("code"@[0] == 'c');
            assert("time"@[0] == 't');
        }
        lemma_remove_key_other(o, "code"@, "version"@);
        lemma_remove_key_other(o, "code"@, "request"@);
        lemma_remove_key_other(o, "code"@, "time"@);
    }
}

/// Polymorphic tolerance of a team's `seed`: whatever JSON value stands
/// there, the decode fails or succeeds exactly as with the key absent, and
/// on success the value is kept as received.
pub proof fn lemma_seed_tolerance(o: Seq<(Seq<char>, JsonV)>, v: JsonV)
    requires
        obj_get(o, "seed"@) == Some(v),
    ensures
        ({
            let without = spec_decode_team(JsonV::Obj(remove_key(o, "seed"@)));
            match without {
                Ok(t) => spec_decode_team(JsonV::Obj(o)) == Ok::<TeamV, Seq<SegV>>(
                    TeamV { seed: v, ..t },
                ),
                Err(p) => spec_decode_team(JsonV::Obj(o)) == Err::<TeamV, Seq<SegV>>(p),
            }
        }),
{
    lemma_remove_key_gone(o, "seed"@);
    reveal_strlit("seed");
    reveal_strlit("teamId");
    reveal_strlit("teamName");
    reveal_strlit("teamCity");
    reveal_strlit("teamTricode");
    reveal_strlit("wins");
    reveal_strlit("losses");
    reveal_strlit("score");
    reveal_strlit("inBonus");
    reveal_strlit("timeoutsRemaining");
    reveal_strlit("periods");
    assert("seed"@ != "teamId"@) by {
        assert("seed"@.len() == 4);
        assert("teamId"@.len() == 6);
    }
    assert("seed"@ != "teamName"@) by {
        assert("seed"@.len() == 4);
        assert("teamName"@.len() == 8);
    }
    assert("seed"@ != "teamCity"@) by {
        assert("seed"@.len() == 4);
        assert("teamCity"@.len() == 8);
    }
    assert("seed"@ != "teamTricode"@) by {
        assert("seed"@.len() == 4);
        assert("teamTricode"@.len() == 11);
    }
    assert("seed"@ != "wins"@) by {
        assert("seed"@[0] == 's');
        assert("wins"@[0] == 'w');
    }
    assert("seed"@ != "losses"@) by {
        assert("seed"@.len() == 4);
        assert("losses"@.len() == 6);
    }
    assert("seed"@ != "score"@) by {
        assert("seed"@.len() == 4);
        assert("score"@.len() == 5);
    }
    assert("seed"@ != "inBonus"@) by {
        assert("seed"@.len() == 4);
        assert("inBonus"@.len() == 7);
    }
    assert("seed"@ != "timeoutsRemaining"@) by {
        assert("seed"@.len() == 4);
        assert("timeoutsRemaining"@.len() == 17);
    }
    assert("seed"@ != "periods"@) by {
        assert("seed"@.len() == 4);
        assert("periods"@.len() == 7);
    }
    lemma_remove_key_other(o, "seed"@, "teamId"@);
    lemma_remove_key_other(o, "seed"@, "teamName"@);
    lemma_remove_key_other(o, "seed"@, "teamCity"@);
    lemma_remove_key_other(o, "seed"@, "teamTricode"@);
    lemma_remove_key_other(o, "seed"@, "wins"@);
    lemma_remove_key_other(o, "seed"@, "losses"@);
    lemma_remove_key_other(o, "seed"@, "score"@);
    lemma_remove_key_other(o, "seed"@, "inBonus"@);
    lemma_remove_key_other(o, "seed"@, "timeoutsRemaining"@);
    lemma_remove_key_other(o, "seed"@, "periods"@);
}

/// Polymorphic tolerance of a team's `inBonus`, as for `seed`.
pub proof fn lemma_in_bonus_tolerance(o: Seq<(Seq<char>, JsonV)>, v: JsonV)
    requires
        obj_get(o, "inBonus"@) == Some(v),
    ensures
        ({
            let without = spec_decode_team(JsonV::Obj(remove_key(o, "inBonus"@)));
            match without {
                Ok(t) => spec_decode_team(JsonV::Obj(o)) == Ok::<TeamV, Seq<SegV>>(
                    TeamV { in_bonus: v, ..t },
                ),
                Err(p) => spec_decode_team(JsonV::Obj(o)) == Err::<TeamV, Seq<SegV>>(p),
            }
        }),
{
    lemma_remove_key_gone(o, "inBonus"@);
    reveal_strlit("inBonus");
    reveal_strlit("teamId");
    reveal_strlit("teamName");
    reveal_strlit("teamCity");
    reveal_strlit("teamTricode");
    reveal_strlit("wins");
    reveal_strlit("losses");
    reveal_strlit("score");
    reveal_strlit("seed");
    reveal_strlit("timeoutsRemaining");
    reveal_strlit("periods");
    assert("inBonus"@ != "teamId"@) by {
        assert("inBonus"@.len() == 7);
        assert("teamId"@.len() == 6);
    }
    assert("inBonus"@ != "teamName"@) by {
        assert("inBonus"@.len() == 7);
        assert("teamName"@.len() == 8);
    }
    assert("inBonus"@ != "teamCity"@) by {
        assert("inBonus"@.len() == 7);
        assert("teamCity"@.len() == 8);
    }
    assert("inBonus"@ != "teamTricode"@) by {
        assert("inBonus"@.len() == 7);
        assert("teamTricode"@.len() == 11);
    }
    assert("inBonus"@ != "wins"@) by {
        assert("inBonus"@.len() == 7);
        assert("wins"@.len() == 4);
    }
    assert("inBonus"@ != "losses"@) by {
        assert("inBonus"@.len() == 7);
        assert("losses"@.len() == 6);
    }
    assert("inBonus"@ != "score"@) by {
        assert("inBonus"@.len() == 7);
        assert("score"@.len() == 5);
    }
    assert("inBonus"@ != "seed"@) by {
        assert("inBonus"@.len() == 7);
        assert("seed"@.len() == 4);
    }
    assert("inBonus"@ != "timeoutsRemaining"@) by {
        assert("inBonus"@.len() == 7);
        assert("timeoutsRemaining"@.len() == 17);
    }
    assert("inBonus"@ != "periods"@) by {
        assert("inBonus"@[0] == 'i');
        assert("periods"@[0] == 'p');
    }
    lemma_remove_key_other(o, "inBonus"@, "teamId"@);
    lemma_remove_key_other(o, "inBonus"@, "teamName"@);
    lemma_remove_key_other(o, "inBonus"@, "teamCity"@);
    lemma_remove_key_other(o, "inBonus"@, "teamTricode"@);
    lemma_remove_key_other(o, "inBonus"@, "wins"@);
    lemma_remove_key_other(o, "inBonus"@, "losses"@);
    lemma_remove_key_other(o, "inBonus"@, "score"@);
    lemma_remove_key_other(o, "inBonus"@, "seed"@);
    lemma_remove_key_other(o, "inBonus"@, "timeoutsRemaining"@);
    lemma_remove_key_other(o, "inBonus"@, "periods"@);
}

/// Polymorphic tolerance of a leader's `playerSlug`, as for `seed`.
pub proof fn lemma_player_slug_tolerance(o: Seq<(Seq<char>, JsonV)>, v: JsonV)
    requires
        obj_get(o, "playerSlug"@) == Some(v),
    ensures
        ({
            let without = spec_decode_leader(JsonV::Obj(remove_key(o, "playerSlug"@)));
            match without {
                Ok(l) => spec_decode_leader(JsonV::Obj(o)) == Ok::<LeaderV, Seq<SegV>>(
                    LeaderV { player_slug: v, ..l },
                ),
                Err(p) => spec_decode_leader(JsonV::Obj(o)) == Err::<LeaderV, Seq<SegV>>(p),
            }
        }),
{
    lemma_remove_key_gone(o, "playerSlug"@);
    reveal_strlit("playerSlug");
    reveal_strlit("personId");
    reveal_strlit("name");
    reveal_strlit("jerseyNum");
    reveal_strlit("position");
    reveal_strlit("teamTricode");
    reveal_strlit("points");
    reveal_strlit("rebounds");
    reveal_strlit("assists");
    assert("playerSlug"@ != "personId"@) by {
        assert("playerSlug"@.len() == 10);
        assert("personId"@.len() == 8);
    }
    assert("playerSlug"@ != "name"@) by {
        assert("playerSlug"@.len() == 10);
        assert("name"@.len() == 4);
    }
    assert("playerSlug"@ != "jerseyNum"@) by {
        assert("playerSlug"@.len() == 10);
        assert("jerseyNum"@.len() == 9);
    }
    assert("playerSlug"@ != "position"@) by {
        assert("playerSlug"@.len() == 10);
        assert("position"@.len() == 8);
    }
    assert("playerSlug"@ != "teamTricode"@) by {
        assert("playerSlug"@.len() == 10);
        assert("teamTricode"@.len() == 11);
    }
    assert("playerSlug"@ != "points"@) by {
        assert("playerSlug"@.len() == 10);
        assert("points"@.len() == 6);
    }
    assert("playerSlug"@ != "rebounds"@) by {
        assert("playerSlug"@.len() == 10);
        assert("rebounds"@.len() == 8);
    }
    assert("playerSlug"@ != "assists"@) by {
        assert("playerSlug"@.len() == 10);
        assert("assists"@.len() == 7);
    }
    lemma_remove_key_other(o, "playerSlug"@, "personId"@);
    lemma_remove_key_other(o, "playerSlug"@, "name"@);
    lemma_remove_key_other(o, "playerSlug"@, "jerseyNum"@);
    lemma_remove_key_other(o, "playerSlug"@, "position"@);
    lemma_remove_key_other(o, "playerSlug"@, "teamTricode"@);
    lemma_remove_key_other(o, "playerSlug"@, "points"@);
    lemma_remove_key_other(o, "playerSlug"@, "rebounds"@);
    lemma_remove_key_other(o, "playerSlug"@, "assists"@);
}

/// Polymorphic tolerance of the odds record's `team`, as for `seed`.
pub proof fn lemma_odds_team_tolerance(o: Seq<(Seq<char>, JsonV)>, v: JsonV)
    requires
        obj_get(o, "team"@) == Some(v),
    ensures
        ({
            let without = spec_decode_pb_odds(JsonV::Obj(remove_key(o, "team"@)));
            match without {
                Ok(x) => spec_decode_pb_odds(JsonV::Obj(o)) == Ok::<PbOddsV, Seq<SegV>>(
                    PbOddsV { team: v, ..x },
                ),
                Err(p) => spec_decode_pb_odds(JsonV::Obj(o)) == Err::<PbOddsV, Seq<SegV>>(p),
            }
        }),
{
    lemma_remove_key_gone(o, "team"@);
    reveal_strlit("team");
    reveal_strlit("odds");
    reveal_strlit("suspended");
    assert("team"@ != "odds"@) by {
        assert("team"@[0] == 't');
        assert("odds"@[0] == 'o');
    }
    assert("team"@ != "suspended"@) by {
        assert("team"@.len() == 4);
        assert("suspended"@.len() == 9);
    }
    lemma_remove_key_other(o, "team"@, "odds"@);
    lemma_remove_key_other(o, "team"@, "suspended"@);
}


/// Default filling of the `period` decode: a decode with any one schema key
/// absent equals the full decode with that one field at its zero value,
/// whenever the full object decodes.
pub proof fn lemma_period_default_fill(o: Seq<(Seq<char>, JsonV)>, k: Seq<char>)
    requires
        spec_decode_period(JsonV::Obj(o)) is Ok,
        k == "period"@ || k == "periodType"@ || k == "score"@,
    ensures
        spec_decode_period(JsonV::Obj(remove_key(o, k))) is Ok,
        ({
            let m = spec_decode_period(JsonV::Obj(o))->Ok_0;
            let m2 = spec_decode_period(JsonV::Obj(remove_key(o, k)))->Ok_0;
            &&& (k == "period"@ ==> m2 == PeriodV { period: 0, ..m })
            &&& (k == "periodType"@ ==> m2 == PeriodV { period_type: Seq::empty(), ..m })
            &&& (k == "score"@ ==> m2 == PeriodV { score: 0, ..m })
        }),
{
    reveal_strlit("period");
    reveal_strlit("periodType");
    reveal_strlit("score");
    assert("period"@ != "periodType"@) by {
        assert("period"@.len() == 6);
        assert("periodType"@.len() == 10);
    }
    assert("period"@ != "score"@) by {
        assert("period"@.len() == 6);
        assert("score"@.len() == 5);
    }
    assert("periodType"@ != "score"@) by {
        assert("periodType"@.len() == 10);
        assert("score"@.len() == 5);
    }
    lemma_remove_key_gone(o, k);
    if k == "period"@ {
        lemma_remove_key_other(o, "period"@, "periodType"@);
        lemma_remove_key_other(o, "period"@, "score"@);
    }
    if k == "periodType"@ {
        lemma_remove_key_other(o, "periodType"@, "period"@);
        lemma_remove_key_other(o, "periodType"@, "score"@);
    }
    if k == "score"@ {
        lemma_remove_key_other(o, "score"@, "period"@);
        lemma_remove_key_other(o, "score"@, "periodType"@);
    }
}


/// Default filling of the `team` decode: a decode with any one schema key
/// absent equals the full decode with that one field at its zero value,
/// whenever the full object decodes.
pub proof fn lemma_team_default_fill(o: Seq<(Seq<char>, JsonV)>, k: Seq<char>)
    requires
        spec_decode_team(JsonV::Obj(o)) is Ok,
        k == "teamId"@ || k == "teamName"@ || k == "teamCity"@ || k == "teamTricode"@ || k == "wins"@ || k == "losses"@ || k == "score"@ || k == "seed"@ || k == "inBonus"@ || k == "timeoutsRemaining"@ || k == "periods"@,
    ensures
        spec_decode_team(JsonV::Obj(remove_key(o, k))) is Ok,
        ({
            let m = spec_decode_team(JsonV::Obj(o))->Ok_0;
            let m2 = spec_decode_team(JsonV::Obj(remove_key(o, k)))->Ok_0;
            &&& (k == "teamId"@ ==> m2 == TeamV { team_id: 0, ..m })
            &&& (k == "teamName"@ ==> m2 == TeamV { team_name: Seq::empty(), ..m })
            &&& (k == "teamCity"@ ==> m2 == TeamV { team_city: Seq::empty(), ..m })
            &&& (k == "teamTricode"@ ==> m2 == TeamV { team_tricode: Seq::empty(), ..m })
            &&& (k == "wins"@ ==> m2 == TeamV { wins: 0, ..m })
            &&& (k == "losses"@ ==> m2 == TeamV { losses: 0, ..m })
            &&& (k == "score"@ ==> m2 == TeamV { score: 0, ..m })
            &&& (k == "seed"@ ==> m2 == TeamV { seed: JsonV::Null, ..m })
            &&& (k == "inBonus"@ ==> m2 == TeamV { in_bonus: JsonV::Null, ..m })
            &&& (k == "timeoutsRemaining"@ ==> m2 == TeamV { timeouts_remaining: 0, ..m })
            &&& (k == "periods"@ ==> m2 == TeamV { periods: Seq::empty(), ..m })
        }),
{
    reveal_strlit("teamId");
    reveal_strlit("teamName");
    reveal_strlit("teamCity");
    reveal_strlit("teamTricode");
    reveal_strlit("wins");
    reveal_strlit("losses");
    reveal_strlit("score");
    reveal_strlit("seed");
    reveal_strlit("inBonus");
    reveal_strlit("timeoutsRemaining");
    reveal_strlit("periods");
    assert("teamId"@ != "teamName"@) by {
        assert("teamId"@.len() == 6);
        assert("teamName"@.len() == 8);
    }
    assert("teamId"@ != "teamCity"@) by {
        assert("teamId"@.len() == 6);
        assert("teamCity"@.len() == 8);
    }
    assert("teamId"@ != "teamTricode"@) by {
        assert("teamId"@.len() == 6);
        assert("teamTricode"@.len() == 11);
    }
    assert("teamId"@ != "wins"@) by {
        assert("teamId"@.len() == 6);
        assert("wins"@.len() == 4);
    }
    assert("teamId"@ != "losses"@) by {
        assert("teamId"@[0] == 't');
        assert("losses"@[0] == 'l');
    }
    assert("teamId"@ != "score"@) by {
        assert("teamId"@.len() == 6);
        assert("score"@.len() == 5);
    }
    assert("teamId"@ != "seed"@) by {
        assert("teamId"@.len() == 6);
        assert("seed"@.len() == 4);
    }
    assert("teamId"@ != "inBonus"@) by {
        assert("teamId"@.len() == 6);
        assert("inBonus"@.len() == 7);
    }
    assert("teamId"@ != "timeoutsRemaining"@) by {
        assert("teamId"@.len() == 6);
        assert("timeoutsRemaining"@.len() == 17);
    }
    assert("teamId"@ != "periods"@) by {
        assert("teamId"@.len() == 6);
        assert("periods"@.len() == 7);
    }
    assert("teamName"@ != "teamCity"@) by {
        assert("teamName"@[4] == 'N');
        assert("teamCity"@[4] == 'C');
    }
    assert("teamName"@ != "teamTricode"@) by {
        assert("teamName"@.len() == 8);
        assert("teamTricode"@.len() == 11);
    }
    assert("teamName"@ != "wins"@) by {
        assert("teamName"@.len() == 8);
        assert("wins"@.len() == 4);
    }
    assert("teamName"@ != "losses"@) by {
        assert("teamName"@.len() == 8);
        assert("losses"@.len() == 6);
    }
    assert("teamName"@ != "score"@) by {
        assert("teamName"@.len() == 8);
        assert("score"@.len() == 5);
    }
    assert("teamName"@ != "seed"@) by {
        assert("teamName"@.len() == 8);
        assert("seed"@.len() == 4);
    }
    assert("teamName"@ != "inBonus"@) by {
        assert("teamName"@.len() == 8);
        assert("inBonus"@.len() == 7);
    }
    assert("teamName"@ != "timeoutsRemaining"@) by {
        assert("teamName"@.len() == 8);
        assert("timeoutsRemaining"@.len() == 17);
    }
    assert("teamName"@ != "periods"@) by {
        assert("teamName"@.len() == 8);
        assert("periods"@.len() == 7);
    }
    assert("teamCity"@ != "teamTricode"@) by {
        assert("teamCity"@.len() == 8);
        assert("teamTricode"@.len() == 11);
    }
    assert("teamCity"@ != "wins"@) by {
        assert("teamCity"@.len() == 8);
        assert("wins"@.len() == 4);
    }
    assert("teamCity"@ != "losses"@) by {
        assert("teamCity"@.len() == 8);
        assert("losses"@.len() == 6);
    }
    assert("teamCity"@ != "score"@) by {
        assert("teamCity"@.len() == 8);
        assert("score"@.len() == 5);
    }
    assert("teamCity"@ != "seed"@) by {
        assert("teamCity"@.len() == 8);
        assert("seed"@.len() == 4);
    }
    assert("teamCity"@ != "inBonus"@) by {
        assert("teamCity"@.len() == 8);
        assert("inBonus"@.len() == 7);
    }
    assert("teamCity"@ != "timeoutsRemaining"@) by {
        assert("teamCity"@.len() == 8);
        assert("timeoutsRemaining"@.len() == 17);
    }
    assert("teamCity"@ != "periods"@) by {
        assert("teamCity"@.len() == 8);
        assert("periods"@.len() == 7);
    }
    assert("teamTricode"@ != "wins"@) by {
        assert("teamTricode"@.len() == 11);
        assert("wins"@.len() == 4);
    }
    assert("teamTricode"@ != "losses"@) by {
        assert("teamTricode"@.len() == 11);
        assert("losses"@.len() == 6);
    }
    assert("teamTricode"@ != "score"@) by {
        assert("teamTricode"@.len() == 11);
        assert("score"@.len() == 5);
    }
    assert("teamTricode"@ != "seed"@) by {
        assert("teamTricode"@.len() == 11);
        assert("seed"@.len() == 4);
    }
    assert("teamTricode"@ != "inBonus"@) by {
        assert("teamTricode"@.len() == 11);
        assert("inBonus"@.len() == 7);
    }
    assert("teamTricode"@ != "timeoutsRemaining"@) by {
        assert("teamTricode"@.len() == 11);
        assert("timeoutsRemaining"@.len() == 17);
    }
    assert("teamTricode"@ != "periods"@) by {
        assert("teamTricode"@.len() == 11);
        assert("periods"@.len() == 7);
    }
    assert("wins"@ != "losses"@) by {
        assert("wins"@.len() == 4);
        assert("losses"@.len() == 6);
    }
    assert("wins"@ != "score"@) by {
        assert("wins"@.len() == 4);
        assert("score"@.len() == 5);
    }
    assert("wins"@ != "seed"@) by {
        assert("wins"@[0] == 'w');
        assert("seed"@[0] == 's');
    }
    assert("wins"@ != "inBonus"@) by {
        assert("wins"@.len() == 4);
        assert("inBonus"@.len() == 7);
    }
    assert("wins"@ != "timeoutsRemaining"@) by {
        assert("wins"@.len() == 4);
        assert("timeoutsRemaining"@.len() == 17);
    }
    assert("wins"@ != "periods"@) by {
        assert("wins"@.len() == 4);
        assert("periods"@.len() == 7);
    }
    assert("losses"@ != "score"@) by {
        assert("losses"@.len() == 6);
        assert("score"@.len() == 5);
    }
    assert("losses"@ != "seed"@) by {
        assert("losses"@.len() == 6);
        assert("seed"@.len() == 4);
    }
    assert("losses"@ != "inBonus"@) by {
        assert("losses"@.len() == 6);
        assert("inBonus"@.len() == 7);
    }
    assert("losses"@ != "timeoutsRemaining"@) by {
        assert("losses"@.len() == 6);
        assert("timeoutsRemaining"@.len() == 17);
    }
    assert("losses"@ != "periods"@) by {
        assert("losses"@.len() == 6);
        assert("periods"@.len() == 7);
    }
    assert("score"@ != "seed"@) by {
        assert("score"@.len() == 5);
        assert("seed"@.len() == 4);
    }
    assert("score"@ != "inBonus"@) by {
        assert("score"@.len() == 5);
        assert("inBonus"@.len() == 7);
    }
    assert("score"@ != "timeoutsRemaining"@) by {
        assert("score"@.len() == 5);
        assert("timeoutsRemaining"@.len() == 17);
    }
    assert("score"@ != "periods"@) by {
        assert("score"@.len() == 5);
        assert("periods"@.len() == 7);
    }
    assert("seed"@ != "inBonus"@) by {
        assert("seed"@.len() == 4);
        assert("inBonus"@.len() == 7);
    }
    assert("seed"@ != "timeoutsRemaining"@) by {
        assert("seed"@.len() == 4);
        assert("timeoutsRemaining"@.len() == 17);
    }
    assert("seed"@ != "periods"@) by {
        assert("seed"@.len() == 4);
        assert("periods"@.len() == 7);
    }
    assert("inBonus"@ != "timeoutsRemaining"@) by {
        assert("inBonus"@.len() == 7);
        assert("timeoutsRemaining"@.len() == 17);
    }
    assert("inBonus"@ != "periods"@) by {
        assert("inBonus"@[0] == 'i');
        assert("periods"@[0] == 'p');
    }
    assert("timeoutsRemaining"@ != "periods"@) by {
        assert("timeoutsRemaining"@.len() == 17);
        assert("periods"@.len() == 7);
    }
    lemma_remove_key_gone(o, k);
    if k == "teamId"@ {
        lemma_remove_key_other(o, "teamId"@, "teamName"@);
        lemma_remove_key_other(o, "teamId"@, "teamCity"@);
        lemma_remove_key_other(o, "teamId"@, "teamTricode"@);
        lemma_remove_key_other(o, "teamId"@, "wins"@);
        lemma_remove_key_other(o, "teamId"@, "losses"@);
        lemma_remove_key_other(o, "teamId"@, "score"@);
        lemma_remove_key_other(o, "teamId"@, "seed"@);
        lemma_remove_key_other(o, "teamId"@, "inBonus"@);
        lemma_remove_key_other(o, "teamId"@, "timeoutsRemaining"@);
        lemma_remove_key_other(o, "teamId"@, "periods"@);
    }
    if k == "teamName"@ {
        lemma_remove_key_other(o, "teamName"@, "teamId"@);
        lemma_remove_key_other(o, "teamName"@, "teamCity"@);
        lemma_remove_key_other(o, "teamName"@, "teamTricode"@);
        lemma_remove_key_other(o, "teamName"@, "wins"@);
        lemma_remove_key_other(o, "teamName"@, "losses"@);
        lemma_remove_key_other(o, "teamName"@, "score"@);
        lemma_remove_key_other(o, "teamName"@, "seed"@);
        lemma_remove_key_other(o, "teamName"@, "inBonus"@);
        lemma_remove_key_other(o, "teamName"@, "timeoutsRemaining"@);
        lemma_remove_key_other(o, "teamName"@, "periods"@);
    }
    if k == "teamCity"@ {
        lemma_remove_key_other(o, "teamCity"@, "teamId"@);
        lemma_remove_key_other(o, "teamCity"@, "teamName"@);
        lemma_remove_key_other(o, "teamCity"@, "teamTricode"@);
        lemma_remove_key_other(o, "teamCity"@, "wins"@);
        lemma_remove_key_other(o, "teamCity"@, "losses"@);
        lemma_remove_key_other(o, "teamCity"@, "score"@);
        lemma_remove_key_other(o, "teamCity"@, "seed"@);
        lemma_remove_key_other(o, "teamCity"@, "inBonus"@);
        lemma_remove_key_other(o, "teamCity"@, "timeoutsRemaining"@);
        lemma_remove_key_other(o, "teamCity"@, "periods"@);
    }
    if k == "teamTricode"@ {
        lemma_remove_key_other(o, "teamTricode"@, "teamId"@);
        lemma_remove_key_other(o, "teamTricode"@, "teamName"@);
        lemma_remove_key_other(o, "teamTricode"@, "teamCity"@);
        lemma_remove_key_other(o, "teamTricode"@, "wins"@);
        lemma_remove_key_other(o, "teamTricode"@, "losses"@);
        lemma_remove_key_other(o, "teamTricode"@, "score"@);
        lemma_remove_key_other(o, "teamTricode"@, "seed"@);
        lemma_remove_key_other(o, "teamTricode"@, "inBonus"@);
        lemma_remove_key_other(o, "teamTricode"@, "timeoutsRemaining"@);
        lemma_remove_key_other(o, "teamTricode"@, "periods"@);
    }
    if k == "wins"@ {
        lemma_remove_key_other(o, "wins"@, "teamId"@);
        lemma_remove_key_other(o, "wins"@, "teamName"@);
        lemma_remove_key_other(o, "wins"@, "teamCity"@);
        lemma_remove_key_other(o, "wins"@, "teamTricode"@);
        lemma_remove_key_other(o, "wins"@, "losses"@);
        lemma_remove_key_other(o, "wins"@, "score"@);
        lemma_remove_key_other(o, "wins"@, "seed"@);
        lemma_remove_key_other(o, "wins"@, "inBonus"@);
        lemma_remove_key_other(o, "wins"@, "timeoutsRemaining"@);
        lemma_remove_key_other(o, "wins"@, "periods"@);
    }
    if k == "losses"@ {
        lemma_remove_key_other(o, "losses"@, "teamId"@);
        lemma_remove_key_other(o, "losses"@, "teamName"@);
        lemma_remove_key_other(o, "losses"@, "teamCity"@);
        lemma_remove_key_other(o, "losses"@, "teamTricode"@);
        lemma_remove_key_other(o, "losses"@, "wins"@);
        lemma_remove_key_other(o, "losses"@, "score"@);
        lemma_remove_key_other(o, "losses"@, "seed"@);
        lemma_remove_key_other(o, "losses"@, "inBonus"@);
        lemma_remove_key_other(o, "losses"@, "timeoutsRemaining"@);
        lemma_remove_key_other(o, "losses"@, "periods"@);
    }
    if k == "score"@ {
        lemma_remove_key_other(o, "score"@, "teamId"@);
        lemma_remove_key_other(o, "score"@, "teamName"@);
        lemma_remove_key_other(o, "score"@, "teamCity"@);
        lemma_remove_key_other(o, "score"@, "teamTricode"@);
        lemma_remove_key_other(o, "score"@, "wins"@);
        lemma_remove_key_other(o, "score"@, "losses"@);
        lemma_remove_key_other(o, "score"@, "seed"@);
        lemma_remove_key_other(o, "score"@, "inBonus"@);
        lemma_remove_key_other(o, "score"@, "timeoutsRemaining"@);
        lemma_remove_key_other(o, "score"@, "periods"@);
    }
    if k == "seed"@ {
        lemma_remove_key_other(o, "seed"@, "teamId"@);
        lemma_remove_key_other(o, "seed"@, "teamName"@);
        lemma_remove_key_other(o, "seed"@, "teamCity"@);
        lemma_remove_key_other(o, "seed"@, "teamTricode"@);
        lemma_remove_key_other(o, "seed"@, "wins"@);
        lemma_remove_key_other(o, "seed"@, "losses"@);
        lemma_remove_key_other(o, "seed"@, "score"@);
        lemma_remove_key_other(o, "seed"@, "inBonus"@);
        lemma_remove_key_other(o, "seed"@, "timeoutsRemaining"@);
        lemma_remove_key_other(o, "seed"@, "periods"@);
    }
    if k == "inBonus"@ {
        lemma_remove_key_other(o, "inBonus"@, "teamId"@);
        lemma_remove_key_other(o, "inBonus"@, "teamName"@);
        lemma_remove_key_other(o, "inBonus"@, "teamCity"@);
        lemma_remove_key_other(o, "inBonus"@, "teamTricode"@);
        lemma_remove_key_other(o, "inBonus"@, "wins"@);
        lemma_remove_key_other(o, "inBonus"@, "losses"@);
        lemma_remove_key_other(o, "inBonus"@, "score"@);
        lemma_remove_key_other(o, "inBonus"@, "seed"@);
        lemma_remove_key_other(o, "inBonus"@, "timeoutsRemaining"@);
        lemma_remove_key_other(o, "inBonus"@, "periods"@);
    }
    if k == "timeoutsRemaining"@ {
        lemma_remove_key_other(o, "timeoutsRemaining"@, "teamId"@);
        lemma_remove_key_other(o, "timeoutsRemaining"@, "teamName"@);
        lemma_remove_key_other(o, "timeoutsRemaining"@, "teamCity"@);
        lemma_remove_key_other(o, "timeoutsRemaining"@, "teamTricode"@);
        lemma_remove_key_other(o, "timeoutsRemaining"@, "wins"@);
        lemma_remove_key_other(o, "timeoutsRemaining"@, "losses"@);
        lemma_remove_key_other(o, "timeoutsRemaining"@, "score"@);
        lemma_remove_key_other(o, "timeoutsRemaining"@, "seed"@);
        lemma_remove_key_other(o, "timeoutsRemaining"@, "inBonus"@);
        lemma_remove_key_other(o, "timeoutsRemaining"@, "periods"@);
    }
    if k == "periods"@ {
        lemma_remove_key_other(o, "periods"@, "teamId"@);
        lemma_remove_key_other(o, "periods"@, "teamName"@);
        lemma_remove_key_other(o, "periods"@, "teamCity"@);
        lemma_remove_key_other(o, "periods"@, "teamTricode"@);
        lemma_remove_key_other(o, "periods"@, "wins"@);
        lemma_remove_key_other(o, "periods"@, "losses"@);
        lemma_remove_key_other(o, "periods"@, "score"@);
        lemma_remove_key_other(o, "periods"@, "seed"@);
        lemma_remove_key_other(o, "periods"@, "inBonus"@);
        lemma_remove_key_other(o, "periods"@, "timeoutsRemaining"@);
    }
}


/// Default filling of the `leader` decode: a decode with any one schema key
/// absent equals the full decode with that one field at its zero value,
/// whenever the full object decodes.
pub proof fn lemma_leader_default_fill(o: Seq<(Seq<char>, JsonV)>, k: Seq<char>)
    requires
        spec_decode_leader(JsonV::Obj(o)) is Ok,
        k == "personId"@ || k == "name"@ || k == "jerseyNum"@ || k == "position"@ || k == "teamTricode"@ || k == "playerSlug"@ || k == "points"@ || k == "rebounds"@ || k == "assists"@,
    ensures
        spec_decode_leader(JsonV::Obj(remove_key(o, k))) is Ok,
        ({
            let m = spec_decode_leader(JsonV::Obj(o))->Ok_0;
            let m2 = spec_decode_leader(JsonV::Obj(remove_key(o, k)))->Ok_0;
            &&& (k == "personId"@ ==> m2 == LeaderV { person_id: 0, ..m })
            &&& (k == "name"@ ==> m2 == LeaderV { name: Seq::empty(), ..m })
            &&& (k == "jerseyNum"@ ==> m2 == LeaderV { jersey_num: Seq::empty(), ..m })
            &&& (k == "position"@ ==> m2 == LeaderV { position: Seq::empty(), ..m })
            &&& (k == "teamTricode"@ ==> m2 == LeaderV { team_tricode: Seq::empty(), ..m })
            &&& (k == "playerSlug"@ ==> m2 == LeaderV { player_slug: JsonV::Null, ..m })
            &&& (k == "points"@ ==> m2 == LeaderV { points: 0, ..m })
            &&& (k == "rebounds"@ ==> m2 == LeaderV { rebounds: 0, ..m })
            &&& (k == "assists"@ ==> m2 == LeaderV { assists: 0, ..m })
        }),
{
    reveal_strlit("personId");
    reveal_strlit("name");
    reveal_strlit("jerseyNum");
    reveal_strlit("position");
    reveal_strlit("teamTricode");
    reveal_strlit("playerSlug");
    reveal_strlit("points");
    reveal_strlit("rebounds");
    reveal_strlit("assists");
    assert("personId"@ != "name"@) by {
        assert("personId"@.len() == 8);
        assert("name"@.len() == 4);
    }
    assert("personId"@ != "jerseyNum"@) by {
        assert("personId"@.len() == 8);
        assert("jerseyNum"@.len() == 9);
    }
    assert("personId"@ != "position"@) by {
        assert("personId"@[1] == 'e');
        assert("position"@[1] == 'o');
    }
    assert("personId"@ != "teamTricode"@) by {
        assert("personId"@.len() == 8);
        assert("teamTricode"@.len() == 11);
    }
    assert("personId"@ != "playerSlug"@) by {
        assert("personId"@.len() == 8);
        assert("playerSlug"@.len() == 10);
    }
    assert("personId"@ != "points"@) by {
        assert("personId"@.len() == 8);
        assert("points"@.len() == 6);
    }
    assert("personId"@ != "rebounds"@) by {
        assert("personId"@[0] == 'p');
        assert("rebounds"@[0] == 'r');
    }
    assert("personId"@ != "assists"@) by {
        assert("personId"@.len() == 8);
        assert("assists"@.len() == 7);
    }
    assert("name"@ != "jerseyNum"@) by {
        assert("name"@.len() == 4);
        assert("jerseyNum"@.len() == 9);
    }
    assert("name"@ != "position"@) by {
        assert("name"@.len() == 4);
        assert("position"@.len() == 8);
    }
    assert("name"@ != "teamTricode"@) by {
        assert("name"@.len() == 4);
        assert("teamTricode"@.len() == 11);
    }
    assert("name"@ != "playerSlug"@) by {
        assert("name"@.len() == 4);
        assert("playerSlug"@.len() == 10);
    }
    assert("name"@ != "points"@) by {
        assert("name"@.len() == 4);
        assert("points"@.len() == 6);
    }
    assert("name"@ != "rebounds"@) by {
        assert("name"@.len() == 4);
        assert("rebounds"@.len() == 8);
    }
    assert("name"@ != "assists"@) by {
        assert("name"@.len() == 4);
        assert("assists"@.len() == 7);
    }
    assert("jerseyNum"@ != "position"@) by {
        assert("jerseyNum"@.len() == 9);
        assert("position"@.len() == 8);
    }
    assert("jerseyNum"@ != "teamTricode"@) by {
        assert("jerseyNum"@.len() == 9);
        assert("teamTricode"@.len() == 11);
    }
    assert("jerseyNum"@ != "playerSlug"@) by {
        assert("jerseyNum"@.len() == 9);
        assert("playerSlug"@.len() == 10);
    }
    assert("jerseyNum"@ != "points"@) by {
        assert("jerseyNum"@.len() == 9);
        assert("points"@.len() == 6);
    }
    assert("jerseyNum"@ != "rebounds"@) by {
        assert("jerseyNum"@.len() == 9);
        assert("rebounds"@.len() == 8);
    }
    assert("jerseyNum"@ != "assists"@) by {
        assert("jerseyNum"@.len() == 9);
        assert("assists"@.len() == 7);
    }
    assert("position"@ != "teamTricode"@) by {
        assert("position"@.len() == 8);
        assert("teamTricode"@.len() == 11);
    }
    assert("position"@ != "playerSlug"@) by {
        assert("position"@.len() == 8);
        assert("playerSlug"@.len() == 10);
    }
    assert("position"@ != "points"@) by {
        assert("position"@.len() == 8);
        assert("points"@.len() == 6);
    }
    assert("position"@ != "rebounds"@) by {
        assert("position"@[0] == 'p');
        assert("rebounds"@[0] == 'r');
    }
    assert("position"@ != "assists"@) by {
        assert("position"@.len() == 8);
        assert("assists"@.len() == 7);
    }
    assert("teamTricode"@ != "playerSlug"@) by {
        assert("teamTricode"@.len() == 11);
        assert("playerSlug"@.len() == 10);
    }
    assert("teamTricode"@ != "points"@) by {
        assert("teamTricode"@.len() == 11);
        assert("points"@.len() == 6);
    }
    assert("teamTricode"@ != "rebounds"@) by {
        assert("teamTricode"@.len() == 11);
        assert("rebounds"@.len() == 8);
    }
    assert("teamTricode"@ != "assists"@) by {
        assert("teamTricode"@.len() == 11);
        assert("assists"@.len() == 7);
    }
    assert("playerSlug"@ != "points"@) by {
        assert("playerSlug"@.len() == 10);
        assert("points"@.len() == 6);
    }
    assert("playerSlug"@ != "rebounds"@) by {
        assert("playerSlug"@.len() == 10);
        assert("rebounds"@.len() == 8);
    }
    assert("playerSlug"@ != "assists"@) by {
        assert("playerSlug"@.len() == 10);
        assert("assists"@.len() == 7);
    }
    assert("points"@ != "rebounds"@) by {
        assert("points"@.len() == 6);
        assert("rebounds"@.len() == 8);
    }
    assert("points"@ != "assists"@) by {
        assert("points"@.len() == 6);
        assert("assists"@.len() == 7);
    }
    assert("rebounds"@ != "assists"@) by {
        assert("rebounds"@.len() == 8);
        assert("assists"@.len() == 7);
    }
    lemma_remove_key_gone(o, k);
    if k == "personId"@ {
        lemma_remove_key_other(o, "personId"@, "name"@);
        lemma_remove_key_other(o, "personId"@, "jerseyNum"@);
        lemma_remove_key_other(o, "personId"@, "position"@);
        lemma_remove_key_other(o, "personId"@, "teamTricode"@);
        lemma_remove_key_other(o, "personId"@, "playerSlug"@);
        lemma_remove_key_other(o, "personId"@, "points"@);
        lemma_remove_key_other(o, "personId"@, "rebounds"@);
        lemma_remove_key_other(o, "personId"@, "assists"@);
    }
    if k == "name"@ {
        lemma_remove_key_other(o, "name"@, "personId"@);
        lemma_remove_key_other(o, "name"@, "jerseyNum"@);
        lemma_remove_key_other(o, "name"@, "position"@);
        lemma_remove_key_other(o, "name"@, "teamTricode"@);
        lemma_remove_key_other(o, "name"@, "playerSlug"@);
        lemma_remove_key_other(o, "name"@, "points"@);
        lemma_remove_key_other(o, "name"@, "rebounds"@);
        lemma_remove_key_other(o, "name"@, "assists"@);
    }
    if k == "jerseyNum"@ {
        lemma_remove_key_other(o, "jerseyNum"@, "personId"@);
        lemma_remove_key_other(o, "jerseyNum"@, "name"@);
        lemma_remove_key_other(o, "jerseyNum"@, "position"@);
        lemma_remove_key_other(o, "jerseyNum"@, "teamTricode"@);
        lemma_remove_key_other(o, "jerseyNum"@, "playerSlug"@);
        lemma_remove_key_other(o, "jerseyNum"@, "points"@);
        lemma_remove_key_other(o, "jerseyNum"@, "rebounds"@);
        lemma_remove_key_other(o, "jerseyNum"@, "assists"@);
    }
    if k == "position"@ {
        lemma_remove_key_other(o, "position"@, "personId"@);
        lemma_remove_key_other(o, "position"@, "name"@);
        lemma_remove_key_other(o, "position"@, "jerseyNum"@);
        lemma_remove_key_other(o, "position"@, "teamTricode"@);
        lemma_remove_key_other(o, "position"@, "playerSlug"@);
        lemma_remove_key_other(o, "position"@, "points"@);
        lemma_remove_key_other(o, "position"@, "rebounds"@);
        lemma_remove_key_other(o, "position"@, "assists"@);
    }
    if k == "teamTricode"@ {
        lemma_remove_key_other(o, "teamTricode"@, "personId"@);
        lemma_remove_key_other(o, "teamTricode"@, "name"@);
        lemma_remove_key_other(o, "teamTricode"@, "jerseyNum"@);
        lemma_remove_key_other(o, "teamTricode"@, "position"@);
        lemma_remove_key_other(o, "teamTricode"@, "playerSlug"@);
        lemma_remove_key_other(o, "teamTricode"@, "points"@);
        lemma_remove_key_other(o, "teamTricode"@, "rebounds"@);
        lemma_remove_key_other(o, "teamTricode"@, "assists"@);
    }
    if k == "playerSlug"@ {
        lemma_remove_key_other(o, "playerSlug"@, "personId"@);
        lemma_remove_key_other(o, "playerSlug"@, "name"@);
        lemma_remove_key_other(o, "playerSlug"@, "jerseyNum"@);
        lemma_remove_key_other(o, "playerSlug"@, "position"@);
        lemma_remove_key_other(o, "playerSlug"@, "teamTricode"@);
        lemma_remove_key_other(o, "playerSlug"@, "points"@);
        lemma_remove_key_other(o, "playerSlug"@, "rebounds"@);
        lemma_remove_key_other(o, "playerSlug"@, "assists"@);
    }
    if k == "points"@ {
        lemma_remove_key_other(o, "points"@, "personId"@);
        lemma_remove_key_other(o, "points"@, "name"@);
        lemma_remove_key_other(o, "points"@, "jerseyNum"@);
        lemma_remove_key_other(o, "points"@, "position"@);
        lemma_remove_key_other(o, "points"@, "teamTricode"@);
        lemma_remove_key_other(o, "points"@, "playerSlug"@);
        lemma_remove_key_other(o, "points"@, "rebounds"@);
        lemma_remove_key_other(o, "points"@, "assists"@);
    }
    if k == "rebounds"@ {
        lemma_remove_key_other(o, "rebounds"@, "personId"@);
        lemma_remove_key_other(o, "rebounds"@, "name"@);
        lemma_remove_key_other(o, "rebounds"@, "jerseyNum"@);
        lemma_remove_key_other(o, "rebounds"@, "position"@);
        lemma_remove_key_other(o, "rebounds"@, "teamTricode"@);
        lemma_remove_key_other(o, "rebounds"@, "playerSlug"@);
        lemma_remove_key_other(o, "rebounds"@, "points"@);
        lemma_remove_key_other(o, "rebounds"@, "assists"@);
    }
    if k == "assists"@ {
        lemma_remove_key_other(o, "assists"@, "personId"@);
        lemma_remove_key_other(o, "assists"@, "name"@);
        lemma_remove_key_other(o, "assists"@, "jerseyNum"@);
        lemma_remove_key_other(o, "assists"@, "position"@);
        lemma_remove_key_other(o, "assists"@, "teamTricode"@);
        lemma_remove_key_other(o, "assists"@, "playerSlug"@);
        lemma_remove_key_other(o, "assists"@, "points"@);
        lemma_remove_key_other(o, "assists"@, "rebounds"@);
    }
}


/// Default filling of the `leaders` decode: a decode with any one schema key
/// absent equals the full decode with that one field at its zero value,
/// whenever the full object decodes.
pub proof fn lemma_leaders_default_fill(o: Seq<(Seq<char>, JsonV)>, k: Seq<char>)
    requires
        spec_decode_leaders(JsonV::Obj(o)) is Ok,
        k == "homeLeaders"@ || k == "awayLeaders"@,
    ensures
        spec_decode_leaders(JsonV::Obj(remove_key(o, k))) is Ok,
        ({
            let m = spec_decode_leaders(JsonV::Obj(o))->Ok_0;
            let m2 = spec_decode_leaders(JsonV::Obj(remove_key(o, k)))->Ok_0;
            &&& (k == "homeLeaders"@ ==> m2 == GameLeadersV { home_leaders: LeaderV::zeroed(), ..m })
            &&& (k == "awayLeaders"@ ==> m2 == GameLeadersV { away_leaders: LeaderV::zeroed(), ..m })
        }),
{
    reveal_strlit("homeLeaders");
    reveal_strlit("awayLeaders");
    assert("homeLeaders"@ != "awayLeaders"@) by {
        assert("homeLeaders"@[0] == 'h');
        assert("awayLeaders"@[0] == 'a');
    }
    lemma_remove_key_gone(o, k);
    if k == "homeLeaders"@ {
        lemma_remove_key_other(o, "homeLeaders"@, "awayLeaders"@);
    }
    if k == "awayLeaders"@ {
        lemma_remove_key_other(o, "awayLeaders"@, "homeLeaders"@);
    }
}


/// Default filling of the `pb_odds` decode: a decode with any one schema key
/// absent equals the full decode with that one field at its zero value,
/// whenever the full object decodes.
pub proof fn lemma_pb_odds_default_fill(o: Seq<(Seq<char>, JsonV)>, k: Seq<char>)
    requires
        spec_decode_pb_odds(JsonV::Obj(o)) is Ok,
        k == "team"@ || k == "odds"@ || k == "suspended"@,
    ensures
        spec_decode_pb_odds(JsonV::Obj(remove_key(o, k))) is Ok,
        ({
            let m = spec_decode_pb_odds(JsonV::Obj(o))->Ok_0;
            let m2 = spec_decode_pb_odds(JsonV::Obj(remove_key(o, k)))->Ok_0;
            &&& (k == "team"@ ==> m2 == PbOddsV { team: JsonV::Null, ..m })
            &&& (k == "odds"@ ==> m2 == PbOddsV { odds: NumV::Int(0), ..m })
            &&& (k == "suspended"@ ==> m2 == PbOddsV { suspended: 0, ..m })
        }),
{
    reveal_strlit("team");
    reveal_strlit("odds");
    reveal_strlit("suspended");
    assert("team"@ != "odds"@) by {
        assert("team"@[0] == 't');
        assert("odds"@[0] == 'o');
    }
    assert("team"@ != "suspended"@) by {
        assert("team"@.len() == 4);
        assert("suspended"@.len() == 9);
    }
    assert("odds"@ != "suspended"@) by {
        assert("odds"@.len() == 4);
        assert("suspended"@.len() == 9);
    }
    lemma_remove_key_gone(o, k);
    if k == "team"@ {
        lemma_remove_key_other(o, "team"@, "odds"@);
        lemma_remove_key_other(o, "team"@, "suspended"@);
    }
    if k == "odds"@ {
        lemma_remove_key_other(o, "odds"@, "team"@);
        lemma_remove_key_other(o, "odds"@, "suspended"@);
    }
    if k == "suspended"@ {
        lemma_remove_key_other(o, "suspended"@, "team"@);
        lemma_remove_key_other(o, "suspended"@, "odds"@);
    }
}


/// Default filling of the `game` decode: a decode with any one schema key
/// absent equals the full decode with that one field at its zero value,
/// whenever the full object decodes.
#[verifier::rlimit(100)]
pub proof fn lemma_game_default_fill(o: Seq<(Seq<char>, JsonV)>, k: Seq<char>)
    requires
        spec_decode_game(JsonV::Obj(o)) is Ok,
        k == "gameId"@ || k == "gameCode"@ || k == "gameStatus"@ || k == "gameStatusText"@ || k == "period"@ || k == "gameClock"@ || k == "gameTimeUTC"@ || k == "gameEt"@ || k == "regulationPeriods"@ || k == "ifNecessary"@ || k == "seriesGameNumber"@ || k == "seriesText"@ || k == "homeTeam"@ || k == "awayTeam"@ || k == "gameLeaders"@ || k == "pbOdds"@,
    ensures
        spec_decode_game(JsonV::Obj(remove_key(o, k))) is Ok,
        ({
            let m = spec_decode_game(JsonV::Obj(o))->Ok_0;
            let m2 = spec_decode_game(JsonV::Obj(remove_key(o, k)))->Ok_0;
            &&& (k == "gameId"@ ==> m2 == GameV { game_id: Seq::empty(), ..m })
            &&& (k == "gameCode"@ ==> m2 == GameV { game_code: Seq::empty(), ..m })
            &&& (k == "gameStatus"@ ==> m2 == GameV { game_status: 0, ..m })
            &&& (k == "gameStatusText"@ ==> m2 == GameV { game_status_text: Seq::empty(), ..m })
            &&& (k == "period"@ ==> m2 == GameV { period: 0, ..m })
            &&& (k == "gameClock"@ ==> m2 == GameV { game_clock: Seq::empty(), ..m })
            &&& (k == "gameTimeUTC"@ ==> m2 == GameV { game_time_utc: Seq::empty(), ..m })
            &&& (k == "gameEt"@ ==> m2 == GameV { game_et: Seq::empty(), ..m })
            &&& (k == "regulationPeriods"@ ==> m2 == GameV { regulation_periods: 0, ..m })
            &&& (k == "ifNecessary"@ ==> m2 == GameV { if_necessary: false, ..m })
            &&& (k == "seriesGameNumber"@ ==> m2 == GameV { series_game_number: Seq::empty(), ..m })
            &&& (k == "seriesText"@ ==> m2 == GameV { series_text: Seq::empty(), ..m })
            &&& (k == "homeTeam"@ ==> m2 == GameV { home_team: TeamV::zeroed(), ..m })
            &&& (k == "awayTeam"@ ==> m2 == GameV { away_team: TeamV::zeroed(), ..m })
            &&& (k == "gameLeaders"@ ==> m2 == GameV { game_leaders: GameLeadersV::zeroed(), ..m })
            &&& (k == "pbOdds"@ ==> m2 == GameV { pb_odds: PbOddsV::zeroed(), ..m })
        }),
{
    reveal_strlit("gameId");
    reveal_strlit("gameCode");
    reveal_strlit("gameStatus");
    reveal_strlit("gameStatusText");
    reveal_strlit("period");
    reveal_strlit("gameClock");
    reveal_strlit("gameTimeUTC");
    reveal_strlit("gameEt");
    reveal_strlit("regulationPeriods");
    reveal_strlit("ifNecessary");
    reveal_strlit("seriesGameNumber");
    reveal_strlit("seriesText");
    reveal_strlit("homeTeam");
    reveal_strlit("awayTeam");
    reveal_strlit("gameLeaders");
    reveal_strlit("pbOdds");
    assert("gameId"@ != "gameCode"@) by {
        assert("gameId"@.len() == 6);
        assert("gameCode"@.len() == 8);
    }
    assert("gameId"@ != "gameStatus"@) by {
        assert("gameId"@.len() == 6);
        assert("gameStatus"@.len() == 10);
    }
    assert("gameId"@ != "gameStatusText"@) by {
        assert("gameId"@.len() == 6);
        assert("gameStatusText"@.len() == 14);
    }
    assert("gameId"@ != "period"@) by {
        assert("gameId"@[0] == 'g');
        assert("period"@[0] == 'p');
    }
    assert("gameId"@ != "gameClock"@) by {
        assert("gameId"@.len() == 6);
        assert("gameClock"@.len() == 9);
    }
    assert("gameId"@ != "gameTimeUTC"@) by {
        assert("gameId"@.len() == 6);
        assert("gameTimeUTC"@.len() == 11);
    }
    assert("gameId"@ != "gameEt"@) by {
        assert("gameId"@[4] == 'I');
        assert("gameEt"@[4] == 'E');
    }
    assert("gameId"@ != "regulationPeriods"@) by {
        assert("gameId"@.len() == 6);
        assert("regulationPeriods"@.len() == 17);
    }
    assert("gameId"@ != "ifNecessary"@) by {
        assert("gameId"@.len() == 6);
        assert("ifNecessary"@.len() == 11);
    }
    assert("gameId"@ != "seriesGameNumber"@) by {
        assert("gameId"@.len() == 6);
        assert("seriesGameNumber"@.len() == 16);
    }
    assert("gameId"@ != "seriesText"@) by {
        assert("gameId"@.len() == 6);
        assert("seriesText"@.len() == 10);
    }
    assert("gameId"@ != "homeTeam"@) by {
        assert("gameId"@.len() == 6);
        assert("homeTeam"@.len() == 8);
    }
    assert("gameId"@ != "awayTeam"@) by {
        assert("gameId"@.len() == 6);
        assert("awayTeam"@.len() == 8);
    }
    assert("gameId"@ != "gameLeaders"@) by {
        assert("gameId"@.len() == 6);
        assert("gameLeaders"@.len() == 11);
    }
    assert("gameId"@ != "pbOdds"@) by {
        assert("gameId"@[0] == 'g');
        assert("pbOdds"@[0] == 'p');
    }
    assert("gameCode"@ != "gameStatus"@) by {
        assert("gameCode"@.len() == 8);
        assert("gameStatus"@.len() == 10);
    }
    assert("gameCode"@ != "gameStatusText"@) by {
        assert("gameCode"@.len() == 8);
        assert("gameStatusText"@.len() == 14);
    }
    assert("gameCode"@ != "period"@) by {
        assert("gameCode"@.len() == 8);
        assert("period"@.len() == 6);
    }
    assert("gameCode"@ != "gameClock"@) by {
        assert("gameCode"@.len() == 8);
        assert("gameClock"@.len() == 9);
    }
    assert("gameCode"@ != "gameTimeUTC"@) by {
        assert("gameCode"@.len() == 8);
        assert("gameTimeUTC"@.len() == 11);
    }
    assert("gameCode"@ != "gameEt"@) by {
        assert("gameCode"@.len() == 8);
        assert("gameEt"@.len() == 6);
    }
    assert("gameCode"@ != "regulationPeriods"@) by {
        assert("gameCode"@.len() == 8);
        assert("regulationPeriods"@.len() == 17);
    }
    assert("gameCode"@ != "ifNecessary"@) by {
        assert("gameCode"@.len() == 8);
        assert("ifNecessary"@.len() == 11);
    }
    assert("gameCode"@ != "seriesGameNumber"@) by {
        assert("gameCode"@.len() == 8);
        assert("seriesGameNumber"@.len() == 16);
    }
    assert("gameCode"@ != "seriesText"@) by {
        assert("gameCode"@.len() == 8);
        assert("seriesText"@.len() == 10);
    }
    assert("gameCode"@ != "homeTeam"@) by {
        assert("gameCode"@[0] == 'g');
        assert("homeTeam"@[0] == 'h');
    }
    assert("gameCode"@ != "awayTeam"@) by {
        assert("gameCode"@[0] == 'g');
        assert("awayTeam"@[0] == 'a');
    }
    assert("gameCode"@ != "gameLeaders"@) by {
        assert("gameCode"@.len() == 8);
        assert("gameLeaders"@.len() == 11);
    }
    assert("gameCode"@ != "pbOdds"@) by {
        assert("gameCode"@.len() == 8);
        assert("pbOdds"@.len() == 6);
    }
    assert("gameStatus"@ != "gameStatusText"@) by {
        assert("gameStatus"@.len() == 10);
        assert("gameStatusText"@.len() == 14);
    }
    assert("gameStatus"@ != "period"@) by {
        assert("gameStatus"@.len() == 10);
        assert("period"@.len() == 6);
    }
    assert("gameStatus"@ != "gameClock"@) by {
        assert("gameStatus"@.len() == 10);
        assert("gameClock"@.len() == 9);
    }
    assert("gameStatus"@ != "gameTimeUTC"@) by {
        assert("gameStatus"@.len() == 10);
        assert("gameTimeUTC"@.len() == 11);
    }
    assert("gameStatus"@ != "gameEt"@) by {
        assert("gameStatus"@.len() == 10);
        assert("gameEt"@.len() == 6);
    }
    assert("gameStatus"@ != "regulationPeriods"@) by {
        assert("gameStatus"@.len() == 10);
        assert("regulationPeriods"@.len() == 17);
    }
    assert("gameStatus"@ != "ifNecessary"@) by {
        assert("gameStatus"@.len() == 10);
        assert("ifNecessary"@.len() == 11);
    }
    assert("gameStatus"@ != "seriesGameNumber"@) by {
        assert("gameStatus"@.len() == 10);
        assert("seriesGameNumber"@.len() == 16);
    }
    assert("gameStatus"@ != "seriesText"@) by {
        assert("gameStatus"@[0] == 'g');
        assert("seriesText"@[0] == 's');
    }
    assert("gameStatus"@ != "homeTeam"@) by {
        assert("gameStatus"@.len() == 10);
        assert("homeTeam"@.len() == 8);
    }
    assert("gameStatus"@ != "awayTeam"@) by {
        assert("gameStatus"@.len() == 10);
        assert("awayTeam"@.len() == 8);
    }
    assert("gameStatus"@ != "gameLeaders"@) by {
        assert("gameStatus"@.len() == 10);
        assert("gameLeaders"@.len() == 11);
    }
    assert("gameStatus"@ != "pbOdds"@) by {
        assert("gameStatus"@.len() == 10);
        assert("pbOdds"@.len() == 6);
    }
    assert("gameStatusText"@ != "period"@) by {
        assert("gameStatusText"@.len() == 14);
        assert("period"@.len() == 6);
    }
    assert("gameStatusText"@ != "gameClock"@) by {
        assert("gameStatusText"@.len() == 14);
        assert("gameClock"@.len() == 9);
    }
    assert("gameStatusText"@ != "gameTimeUTC"@) by {
        assert("gameStatusText"@.len() == 14);
        assert("gameTimeUTC"@.len() == 11);
    }
    assert("gameStatusText"@ != "gameEt"@) by {
        assert("gameStatusText"@.len() == 14);
        assert("gameEt"@.len() == 6);
    }
    assert("gameStatusText"@ != "regulationPeriods"@) by {
        assert("gameStatusText"@.len() == 14);
        assert("regulationPeriods"@.len() == 17);
    }
    assert("gameStatusText"@ != "ifNecessary"@) by {
        assert("gameStatusText"@.len() == 14);
        assert("ifNecessary"@.len() == 11);
    }
    assert("gameStatusText"@ != "seriesGameNumber"@) by {
        assert("gameStatusText"@.len() == 14);
        assert("seriesGameNumber"@.len() == 16);
    }
    assert("gameStatusText"@ != "seriesText"@) by {
        assert("gameStatusText"@.len() == 14);
        assert("seriesText"@.len() == 10);
    }
    assert("gameStatusText"@ != "homeTeam"@) by {
        assert("gameStatusText"@.len() == 14);
        assert("homeTeam"@.len() == 8);
    }
    assert("gameStatusText"@ != "awayTeam"@) by {
        assert("gameStatusText"@.len() == 14);
        assert("awayTeam"@.len() == 8);
    }
    assert("gameStatusText"@ != "gameLeaders"@) by {
        assert("gameStatusText"@.len() == 14);
        assert("gameLeaders"@.len() == 11);
    }
    assert("gameStatusText"@ != "pbOdds"@) by {
        assert("gameStatusText"@.len() == 14);
        assert("pbOdds"@.len() == 6);
    }
    assert("period"@ != "gameClock"@) by {
        assert("period"@.len() == 6);
        assert("gameClock"@.len() == 9);
    }
    assert("period"@ != "gameTimeUTC"@) by {
        assert("period"@.len() == 6);
        assert("gameTimeUTC"@.len() == 11);
    }
    assert("period"@ != "gameEt"@) by {
        assert("period"@[0] == 'p');
        assert("gameEt"@[0] == 'g');
    }
    assert("period"@ != "regulationPeriods"@) by {
        assert("period"@.len() == 6);
        assert("regulationPeriods"@.len() == 17);
    }
    assert("period"@ != "ifNecessary"@) by {
        assert("period"@.len() == 6);
        assert("ifNecessary"@.len() == 11);
    }
    assert("period"@ != "seriesGameNumber"@) by {
        assert("period"@.len() == 6);
        assert("seriesGameNumber"@.len() == 16);
    }
    assert("period"@ != "seriesText"@) by {
        assert("period"@.len() == 6);
        assert("seriesText"@.len() == 10);
    }
    assert("period"@ != "homeTeam"@) by {
        assert("period"@.len() == 6);
        assert("homeTeam"@.len() == 8);
    }
    assert("period"@ != "awayTeam"@) by {
        assert("period"@.len() == 6);
        assert("awayTeam"@.len() == 8);
    }
    assert("period"@ != "gameLeaders"@) by {
        assert("period"@.len() == 6);
        assert("gameLeaders"@.len() == 11);
    }
    assert("period"@ != "pbOdds"@) by {
        assert("period"@[1] == 'e');
        assert("pbOdds"@[1] == 'b');
    }
    assert("gameClock"@ != "gameTimeUTC"@) by {
        assert("gameClock"@.len() == 9);
        assert("gameTimeUTC"@.len() == 11);
    }
    assert("gameClock"@ != "gameEt"@) by {
        assert("gameClock"@.len() == 9);
        assert("gameEt"@.len() == 6);
    }
    assert("gameClock"@ != "regulationPeriods"@) by {
        assert("gameClock"@.len() == 9);
        assert("regulationPeriods"@.len() == 17);
    }
    assert("gameClock"@ != "ifNecessary"@) by {
        assert("gameClock"@.len() == 9);
        assert("ifNecessary"@.len() == 11);
    }
    assert("gameClock"@ != "seriesGameNumber"@) by {
        assert("gameClock"@.len() == 9);
        assert("seriesGameNumber"@.len() == 16);
    }
    assert("gameClock"@ != "seriesText"@) by {
        assert("gameClock"@.len() == 9);
        assert("seriesText"@.len() == 10);
    }
    assert("gameClock"@ != "homeTeam"@) by {
        assert("gameClock"@.len() == 9);
        assert("homeTeam"@.len() == 8);
    }
    assert("gameClock"@ != "awayTeam"@) by {
        assert("gameClock"@.len() == 9);
        assert("awayTeam"@.len() == 8);
    }
    assert("gameClock"@ != "gameLeaders"@) by {
        assert("gameClock"@.len() == 9);
        assert("gameLeaders"@.len() == 11);
    }
    assert("gameClock"@ != "pbOdds"@) by {
        assert("gameClock"@.len() == 9);
        assert("pbOdds"@.len() == 6);
    }
    assert("gameTimeUTC"@ != "gameEt"@) by {
        assert("gameTimeUTC"@.len() == 11);
        assert("gameEt"@.len() == 6);
    }
    assert("gameTimeUTC"@ != "regulationPeriods"@) by {
        assert("gameTimeUTC"@.len() == 11);
        assert("regulationPeriods"@.len() == 17);
    }
    assert("gameTimeUTC"@ != "ifNecessary"@) by {
        assert("gameTimeUTC"@[0] == 'g');
        assert("ifNecessary"@[0] == 'i');
    }
    assert("gameTimeUTC"@ != "seriesGameNumber"@) by {
        assert("gameTimeUTC"@.len() == 11);
        assert("seriesGameNumber"@.len() == 16);
    }
    assert("gameTimeUTC"@ != "seriesText"@) by {
        assert("gameTimeUTC"@.len() == 11);
        assert("seriesText"@.len() == 10);
    }
    assert("gameTimeUTC"@ != "homeTeam"@) by {
        assert("gameTimeUTC"@.len() == 11);
        assert("homeTeam"@.len() == 8);
    }
    assert("gameTimeUTC"@ != "awayTeam"@) by {
        assert("gameTimeUTC"@.len() == 11);
        assert("awayTeam"@.len() == 8);
    }
    assert("gameTimeUTC"@ != "gameLeaders"@) by {
        assert("gameTimeUTC"@[4] == 'T');
        assert("gameLeaders"@[4] == 'L');
    }
    assert("gameTimeUTC"@ != "pbOdds"@) by {
        assert("gameTimeUTC"@.len() == 11);
        assert("pbOdds"@.len() == 6);
    }
    assert("gameEt"@ != "regulationPeriods"@) by {
        assert("gameEt"@.len() == 6);
        assert("regulationPeriods"@.len() == 17);
    }
    assert("gameEt"@ != "ifNecessary"@) by {
        assert("gameEt"@.len() == 6);
        assert("ifNecessary"@.len() == 11);
    }
    assert("gameEt"@ != "seriesGameNumber"@) by {
        assert("gameEt"@.len() == 6);
        assert("seriesGameNumber"@.len() == 16);
    }
    assert("gameEt"@ != "seriesText"@) by {
        assert("gameEt"@.len() == 6);
        assert("seriesText"@.len() == 10);
    }
    assert("gameEt"@ != "homeTeam"@) by {
        assert("gameEt"@.len() == 6);
        assert("homeTeam"@.len() == 8);
    }
    assert("gameEt"@ != "awayTeam"@) by {
        assert("gameEt"@.len() == 6);
        assert("awayTeam"@.len() == 8);
    }
    assert("gameEt"@ != "gameLeaders"@) by {
        assert("gameEt"@.len() == 6);
        assert("gameLeaders"@.len() == 11);
    }
    assert("gameEt"@ != "pbOdds"@) by {
        assert("gameEt"@[0] == 'g');
        assert("pbOdds"@[0] == 'p');
    }
    assert("regulationPeriods"@ != "ifNecessary"@) by {
        assert("regulationPeriods"@.len() == 17);
        assert("ifNecessary"@.len() == 11);
    }
    assert("regulationPeriods"@ != "seriesGameNumber"@) by {
        assert("regulationPeriods"@.len() == 17);
        assert("seriesGameNumber"@.len() == 16);
    }
    assert("regulationPeriods"@ != "seriesText"@) by {
        assert("regulationPeriods"@.len() == 17);
        assert("seriesText"@.len() == 10);
    }
    assert("regulationPeriods"@ != "homeTeam"@) by {
        assert("regulationPeriods"@.len() == 17);
        assert("homeTeam"@.len() == 8);
    }
    assert("regulationPeriods"@ != "awayTeam"@) by {
        assert("regulationPeriods"@.len() == 17);
        assert("awayTeam"@.len() == 8);
    }
    assert("regulationPeriods"@ != "gameLeaders"@) by {
        assert("regulationPeriods"@.len() == 17);
        assert("gameLeaders"@.len() == 11);
    }
    assert("regulationPeriods"@ != "pbOdds"@) by {
        assert("regulationPeriods"@.len() == 17);
        assert("pbOdds"@.len() == 6);
    }
    assert("ifNecessary"@ != "seriesGameNumber"@) by {
        assert("ifNecessary"@.len() == 11);
        assert("seriesGameNumber"@.len() == 16);
    }
    assert("ifNecessary"@ != "seriesText"@) by {
        assert("ifNecessary"@.len() == 11);
        assert("seriesText"@.len() == 10);
    }
    assert("ifNecessary"@ != "homeTeam"@) by {
        assert("ifNecessary"@.len() == 11);
        assert("homeTeam"@.len() == 8);
    }
    assert("ifNecessary"@ != "awayTeam"@) by {
        assert("ifNecessary"@.len() == 11);
        assert("awayTeam"@.len() == 8);
    }
    assert("ifNecessary"@ != "gameLeaders"@) by {
        assert("ifNecessary"@[0] == 'i');
        assert("gameLeaders"@[0] == 'g');
    }
    assert("ifNecessary"@ != "pbOdds"@) by {
        assert("ifNecessary"@.len() == 11);
        assert("pbOdds"@.len() == 6);
    }
    assert("seriesGameNumber"@ != "seriesText"@) by {
        assert("seriesGameNumber"@.len() == 16);
        assert("seriesText"@.len() == 10);
    }
    assert("seriesGameNumber"@ != "homeTeam"@) by {
        assert("seriesGameNumber"@.len() == 16);
        assert("homeTeam"@.len() == 8);
    }
    assert("seriesGameNumber"@ != "awayTeam"@) by {
        assert("seriesGameNumber"@.len() == 16);
        assert("awayTeam"@.len() == 8);
    }
    assert("seriesGameNumber"@ != "gameLeaders"@) by {
        assert("seriesGameNumber"@.len() == 16);
        assert("gameLeaders"@.len() == 11);
    }
    assert("seriesGameNumber"@ != "pbOdds"@) by {
        assert("seriesGameNumber"@.len() == 16);
        assert("pbOdds"@.len() == 6);
    }
    assert("seriesText"@ != "homeTeam"@) by {
        assert("seriesText"@.len() == 10);
        assert("homeTeam"@.len() == 8);
    }
    assert("seriesText"@ != "awayTeam"@) by {
        assert("seriesText"@.len() == 10);
        assert("awayTeam"@.len() == 8);
    }
    assert("seriesText"@ != "gameLeaders"@) by {
        assert("seriesText"@.len() == 10);
        assert("gameLeaders"@.len() == 11);
    }
    assert("seriesText"@ != "pbOdds"@) by {
        assert("seriesText"@.len() == 10);
        assert("pbOdds"@.len() == 6);
    }
    assert("homeTeam"@ != "awayTeam"@) by {
        assert("homeTeam"@[0] == 'h');
        assert("awayTeam"@[0] == 'a');
    }
    assert("homeTeam"@ != "gameLeaders"@) by {
        assert("homeTeam"@.len() == 8);
        assert("gameLeaders"@.len() == 11);
    }
    assert("homeTeam"@ != "pbOdds"@) by {
        assert("homeTeam"@.len() == 8);
        assert("pbOdds"@.len() == 6);
    }
    assert("awayTeam"@ != "gameLeaders"@) by {
        assert("awayTeam"@.len() == 8);
        assert("gameLeaders"@.len() == 11);
    }
    assert("awayTeam"@ != "pbOdds"@) by {
        assert("awayTeam"@.len() == 8);
        assert("pbOdds"@.len() == 6);
    }
    assert("gameLeaders"@ != "pbOdds"@) by {
        assert("gameLeaders"@.len() == 11);
        assert("pbOdds"@.len() == 6);
    }
    lemma_remove_key_gone(o, k);
    if k == "gameId"@ {
        lemma_remove_key_other(o, "gameId"@, "gameCode"@);
        lemma_remove_key_other(o, "gameId"@, "gameStatus"@);
        lemma_remove_key_other(o, "gameId"@, "gameStatusText"@);
        lemma_remove_key_other(o, "gameId"@, "period"@);
        lemma_remove_key_other(o, "gameId"@, "gameClock"@);
        lemma_remove_key_other(o, "gameId"@, "gameTimeUTC"@);
        lemma_remove_key_other(o, "gameId"@, "gameEt"@);
        lemma_remove_key_other(o, "gameId"@, "regulationPeriods"@);
        lemma_remove_key_other(o, "gameId"@, "ifNecessary"@);
        lemma_remove_key_other(o, "gameId"@, "seriesGameNumber"@);
        lemma_remove_key_other(o, "gameId"@, "seriesText"@);
        lemma_remove_key_other(o, "gameId"@, "homeTeam"@);
        lemma_remove_key_other(o, "gameId"@, "awayTeam"@);
        lemma_remove_key_other(o, "gameId"@, "gameLeaders"@);
        lemma_remove_key_other(o, "gameId"@, "pbOdds"@);
    }
    if k == "gameCode"@ {
        lemma_remove_key_other(o, "gameCode"@, "gameId"@);
        lemma_remove_key_other(o, "gameCode"@, "gameStatus"@);
        lemma_remove_key_other(o, "gameCode"@, "gameStatusText"@);
        lemma_remove_key_other(o, "gameCode"@, "period"@);
        lemma_remove_key_other(o, "gameCode"@, "gameClock"@);
        lemma_remove_key_other(o, "gameCode"@, "gameTimeUTC"@);
        lemma_remove_key_other(o, "gameCode"@, "gameEt"@);
        lemma_remove_key_other(o, "gameCode"@, "regulationPeriods"@);
        lemma_remove_key_other(o, "gameCode"@, "ifNecessary"@);
        lemma_remove_key_other(o, "gameCode"@, "seriesGameNumber"@);
        lemma_remove_key_other(o, "gameCode"@, "seriesText"@);
        lemma_remove_key_other(o, "gameCode"@, "homeTeam"@);
        lemma_remove_key_other(o, "gameCode"@, "awayTeam"@);
        lemma_remove_key_other(o, "gameCode"@, "gameLeaders"@);
        lemma_remove_key_other(o, "gameCode"@, "pbOdds"@);
    }
    if k == "gameStatus"@ {
        lemma_remove_key_other(o, "gameStatus"@, "gameId"@);
        lemma_remove_key_other(o, "gameStatus"@, "gameCode"@);
        lemma_remove_key_other(o, "gameStatus"@, "gameStatusText"@);
        lemma_remove_key_other(o, "gameStatus"@, "period"@);
        lemma_remove_key_other(o, "gameStatus"@, "gameClock"@);
        lemma_remove_key_other(o, "gameStatus"@, "gameTimeUTC"@);
        lemma_remove_key_other(o, "gameStatus"@, "gameEt"@);
        lemma_remove_key_other(o, "gameStatus"@, "regulationPeriods"@);
        lemma_remove_key_other(o, "gameStatus"@, "ifNecessary"@);
        lemma_remove_key_other(o, "gameStatus"@, "seriesGameNumber"@);
        lemma_remove_key_other(o, "gameStatus"@, "seriesText"@);
        lemma_remove_key_other(o, "gameStatus"@, "homeTeam"@);
        lemma_remove_key_other(o, "gameStatus"@, "awayTeam"@);
        lemma_remove_key_other(o, "gameStatus"@, "gameLeaders"@);
        lemma_remove_key_other(o, "gameStatus"@, "pbOdds"@);
    }
    if k == "gameStatusText"@ {
        lemma_remove_key_other(o, "gameStatusText"@, "gameId"@);
        lemma_remove_key_other(o, "gameStatusText"@, "gameCode"@);
        lemma_remove_key_other(o, "gameStatusText"@, "gameStatus"@);
        lemma_remove_key_other(o, "gameStatusText"@, "period"@);
        lemma_remove_key_other(o, "gameStatusText"@, "gameClock"@);
        lemma_remove_key_other(o, "gameStatusText"@, "gameTimeUTC"@);
        lemma_remove_key_other(o, "gameStatusText"@, "gameEt"@);
        lemma_remove_key_other(o, "gameStatusText"@, "regulationPeriods"@);
        lemma_remove_key_other(o, "gameStatusText"@, "ifNecessary"@);
        lemma_remove_key_other(o, "gameStatusText"@, "seriesGameNumber"@);
        lemma_remove_key_other(o, "gameStatusText"@, "seriesText"@);
        lemma_remove_key_other(o, "gameStatusText"@, "homeTeam"@);
        lemma_remove_key_other(o, "gameStatusText"@, "awayTeam"@);
        lemma_remove_key_other(o, "gameStatusText"@, "gameLeaders"@);
        lemma_remove_key_other(o, "gameStatusText"@, "pbOdds"@);
    }
    if k == "period"@ {
        lemma_remove_key_other(o, "period"@, "gameId"@);
        lemma_remove_key_other(o, "period"@, "gameCode"@);
        lemma_remove_key_other(o, "period"@, "gameStatus"@);
        lemma_remove_key_other(o, "period"@, "gameStatusText"@);
        lemma_remove_key_other(o, "period"@, "gameClock"@);
        lemma_remove_key_other(o, "period"@, "gameTimeUTC"@);
        lemma_remove_key_other(o, "period"@, "gameEt"@);
        lemma_remove_key_other(o, "period"@, "regulationPeriods"@);
        lemma_remove_key_other(o, "period"@, "ifNecessary"@);
        lemma_remove_key_other(o, "period"@, "seriesGameNumber"@);
        lemma_remove_key_other(o, "period"@, "seriesText"@);
        lemma_remove_key_other(o, "period"@, "homeTeam"@);
        lemma_remove_key_other(o, "period"@, "awayTeam"@);
        lemma_remove_key_other(o, "period"@, "gameLeaders"@);
        lemma_remove_key_other(o, "period"@, "pbOdds"@);
    }
    if k == "gameClock"@ {
        lemma_remove_key_other(o, "gameClock"@, "gameId"@);
        lemma_remove_key_other(o, "gameClock"@, "gameCode"@);
        lemma_remove_key_other(o, "gameClock"@, "gameStatus"@);
        lemma_remove_key_other(o, "gameClock"@, "gameStatusText"@);
        lemma_remove_key_other(o, "gameClock"@, "period"@);
        lemma_remove_key_other(o, "gameClock"@, "gameTimeUTC"@);
        lemma_remove_key_other(o, "gameClock"@, "gameEt"@);
        lemma_remove_key_other(o, "gameClock"@, "regulationPeriods"@);
        lemma_remove_key_other(o, "gameClock"@, "ifNecessary"@);
        lemma_remove_key_other(o, "gameClock"@, "seriesGameNumber"@);
        lemma_remove_key_other(o, "gameClock"@, "seriesText"@);
        lemma_remove_key_other(o, "gameClock"@, "homeTeam"@);
        lemma_remove_key_other(o, "gameClock"@, "awayTeam"@);
        lemma_remove_key_other(o, "gameClock"@, "gameLeaders"@);
        lemma_remove_key_other(o, "gameClock"@, "pbOdds"@);
    }
    if k == "gameTimeUTC"@ {
        lemma_remove_key_other(o, "gameTimeUTC"@, "gameId"@);
        lemma_remove_key_other(o, "gameTimeUTC"@, "gameCode"@);
        lemma_remove_key_other(o, "gameTimeUTC"@, "gameStatus"@);
        lemma_remove_key_other(o, "gameTimeUTC"@, "gameStatusText"@);
        lemma_remove_key_other(o, "gameTimeUTC"@, "period"@);
        lemma_remove_key_other(o, "gameTimeUTC"@, "gameClock"@);
        lemma_remove_key_other(o, "gameTimeUTC"@, "gameEt"@);
        lemma_remove_key_other(o, "gameTimeUTC"@, "regulationPeriods"@);
        lemma_remove_key_other(o, "gameTimeUTC"@, "ifNecessary"@);
        lemma_remove_key_other(o, "gameTimeUTC"@, "seriesGameNumber"@);
        lemma_remove_key_other(o, "gameTimeUTC"@, "seriesText"@);
        lemma_remove_key_other(o, "gameTimeUTC"@, "homeTeam"@);
        lemma_remove_key_other(o, "gameTimeUTC"@, "awayTeam"@);
        lemma_remove_key_other(o, "gameTimeUTC"@, "gameLeaders"@);
        lemma_remove_key_other(o, "gameTimeUTC"@, "pbOdds"@);
    }
    if k == "gameEt"@ {
        lemma_remove_key_other(o, "gameEt"@, "gameId"@);
        lemma_remove_key_other(o, "gameEt"@, "gameCode"@);
        lemma_remove_key_other(o, "gameEt"@, "gameStatus"@);
        lemma_remove_key_other(o, "gameEt"@, "gameStatusText"@);
        lemma_remove_key_other(o, "gameEt"@, "period"@);
        lemma_remove_key_other(o, "gameEt"@, "gameClock"@);
        lemma_remove_key_other(o, "gameEt"@, "gameTimeUTC"@);
        lemma_remove_key_other(o, "gameEt"@, "regulationPeriods"@);
        lemma_remove_key_other(o, "gameEt"@, "ifNecessary"@);
        lemma_remove_key_other(o, "gameEt"@, "seriesGameNumber"@);
        lemma_remove_key_other(o, "gameEt"@, "seriesText"@);
        lemma_remove_key_other(o, "gameEt"@, "homeTeam"@);
        lemma_remove_key_other(o, "gameEt"@, "awayTeam"@);
        lemma_remove_key_other(o, "gameEt"@, "gameLeaders"@);
        lemma_remove_key_other(o, "gameEt"@, "pbOdds"@);
    }
    if k == "regulationPeriods"@ {
        lemma_remove_key_other(o, "regulationPeriods"@, "gameId"@);
        lemma_remove_key_other(o, "regulationPeriods"@, "gameCode"@);
        lemma_remove_key_other(o, "regulationPeriods"@, "gameStatus"@);
        lemma_remove_key_other(o, "regulationPeriods"@, "gameStatusText"@);
        lemma_remove_key_other(o, "regulationPeriods"@, "period"@);
        lemma_remove_key_other(o, "regulationPeriods"@, "gameClock"@);
        lemma_remove_key_other(o, "regulationPeriods"@, "gameTimeUTC"@);
        lemma_remove_key_other(o, "regulationPeriods"@, "gameEt"@);
        lemma_remove_key_other(o, "regulationPeriods"@, "ifNecessary"@);
        lemma_remove_key_other(o, "regulationPeriods"@, "seriesGameNumber"@);
        lemma_remove_key_other(o, "regulationPeriods"@, "seriesText"@);
        lemma_remove_key_other(o, "regulationPeriods"@, "homeTeam"@);
        lemma_remove_key_other(o, "regulationPeriods"@, "awayTeam"@);
        lemma_remove_key_other(o, "regulationPeriods"@, "gameLeaders"@);
        lemma_remove_key_other(o, "regulationPeriods"@, "pbOdds"@);
    }
    if k == "ifNecessary"@ {
        lemma_remove_key_other(o, "ifNecessary"@, "gameId"@);
        lemma_remove_key_other(o, "ifNecessary"@, "gameCode"@);
        lemma_remove_key_other(o, "ifNecessary"@, "gameStatus"@);
        lemma_remove_key_other(o, "ifNecessary"@, "gameStatusText"@);
        lemma_remove_key_other(o, "ifNecessary"@, "period"@);
        lemma_remove_key_other(o, "ifNecessary"@, "gameClock"@);
        lemma_remove_key_other(o, "ifNecessary"@, "gameTimeUTC"@);
        lemma_remove_key_other(o, "ifNecessary"@, "gameEt"@);
        lemma_remove_key_other(o, "ifNecessary"@, "regulationPeriods"@);
        lemma_remove_key_other(o, "ifNecessary"@, "seriesGameNumber"@);
        lemma_remove_key_other(o, "ifNecessary"@, "seriesText"@);
        lemma_remove_key_other(o, "ifNecessary"@, "homeTeam"@);
        lemma_remove_key_other(o, "ifNecessary"@, "awayTeam"@);
        lemma_remove_key_other(o, "ifNecessary"@, "gameLeaders"@);
        lemma_remove_key_other(o, "ifNecessary"@, "pbOdds"@);
    }
    if k == "seriesGameNumber"@ {
        lemma_remove_key_other(o, "seriesGameNumber"@, "gameId"@);
        lemma_remove_key_other(o, "seriesGameNumber"@, "gameCode"@);
        lemma_remove_key_other(o, "seriesGameNumber"@, "gameStatus"@);
        lemma_remove_key_other(o, "seriesGameNumber"@, "gameStatusText"@);
        lemma_remove_key_other(o, "seriesGameNumber"@, "period"@);
        lemma_remove_key_other(o, "seriesGameNumber"@, "gameClock"@);
        lemma_remove_key_other(o, "seriesGameNumber"@, "gameTimeUTC"@);
        lemma_remove_key_other(o, "seriesGameNumber"@, "gameEt"@);
        lemma_remove_key_other(o, "seriesGameNumber"@, "regulationPeriods"@);
        lemma_remove_key_other(o, "seriesGameNumber"@, "ifNecessary"@);
        lemma_remove_key_other(o, "seriesGameNumber"@, "seriesText"@);
        lemma_remove_key_other(o, "seriesGameNumber"@, "homeTeam"@);
        lemma_remove_key_other(o, "seriesGameNumber"@, "awayTeam"@);
        lemma_remove_key_other(o, "seriesGameNumber"@, "gameLeaders"@);
        lemma_remove_key_other(o, "seriesGameNumber"@, "pbOdds"@);
    }
    if k == "seriesText"@ {
        lemma_remove_key_other(o, "seriesText"@, "gameId"@);
        lemma_remove_key_other(o, "seriesText"@, "gameCode"@);
        lemma_remove_key_other(o, "seriesText"@, "gameStatus"@);
        lemma_remove_key_other(o, "seriesText"@, "gameStatusText"@);
        lemma_remove_key_other(o, "seriesText"@, "period"@);
        lemma_remove_key_other(o, "seriesText"@, "gameClock"@);
        lemma_remove_key_other(o, "seriesText"@, "gameTimeUTC"@);
        lemma_remove_key_other(o, "seriesText"@, "gameEt"@);
        lemma_remove_key_other(o, "seriesText"@, "regulationPeriods"@);
        lemma_remove_key_other(o, "seriesText"@, "ifNecessary"@);
        lemma_remove_key_other(o, "seriesText"@, "seriesGameNumber"@);
        lemma_remove_key_other(o, "seriesText"@, "homeTeam"@);
        lemma_remove_key_other(o, "seriesText"@, "awayTeam"@);
        lemma_remove_key_other(o, "seriesText"@, "gameLeaders"@);
        lemma_remove_key_other(o, "seriesText"@, "pbOdds"@);
    }
    if k == "homeTeam"@ {
        lemma_remove_key_other(o, "homeTeam"@, "gameId"@);
        lemma_remove_key_other(o, "homeTeam"@, "gameCode"@);
        lemma_remove_key_other(o, "homeTeam"@, "gameStatus"@);
        lemma_remove_key_other(o, "homeTeam"@, "gameStatusText"@);
        lemma_remove_key_other(o, "homeTeam"@, "period"@);
        lemma_remove_key_other(o, "homeTeam"@, "gameClock"@);
        lemma_remove_key_other(o, "homeTeam"@, "gameTimeUTC"@);
        lemma_remove_key_other(o, "homeTeam"@, "gameEt"@);
        lemma_remove_key_other(o, "homeTeam"@, "regulationPeriods"@);
        lemma_remove_key_other(o, "homeTeam"@, "ifNecessary"@);
        lemma_remove_key_other(o, "homeTeam"@, "seriesGameNumber"@);
        lemma_remove_key_other(o, "homeTeam"@, "seriesText"@);
        lemma_remove_key_other(o, "homeTeam"@, "awayTeam"@);
        lemma_remove_key_other(o, "homeTeam"@, "gameLeaders"@);
        lemma_remove_key_other(o, "homeTeam"@, "pbOdds"@);
    }
    if k == "awayTeam"@ {
        lemma_remove_key_other(o, "awayTeam"@, "gameId"@);
        lemma_remove_key_other(o, "awayTeam"@, "gameCode"@);
        lemma_remove_key_other(o, "awayTeam"@, "gameStatus"@);
        lemma_remove_key_other(o, "awayTeam"@, "gameStatusText"@);
        lemma_remove_key_other(o, "awayTeam"@, "period"@);
        lemma_remove_key_other(o, "awayTeam"@, "gameClock"@);
        lemma_remove_key_other(o, "awayTeam"@, "gameTimeUTC"@);
        lemma_remove_key_other(o, "awayTeam"@, "gameEt"@);
        lemma_remove_key_other(o, "awayTeam"@, "regulationPeriods"@);
        lemma_remove_key_other(o, "awayTeam"@, "ifNecessary"@);
        lemma_remove_key_other(o, "awayTeam"@, "seriesGameNumber"@);
        lemma_remove_key_other(o, "awayTeam"@, "seriesText"@);
        lemma_remove_key_other(o, "awayTeam"@, "homeTeam"@);
        lemma_remove_key_other(o, "awayTeam"@, "gameLeaders"@);
        lemma_remove_key_other(o, "awayTeam"@, "pbOdds"@);
    }
    if k == "gameLeaders"@ {
        lemma_remove_key_other(o, "gameLeaders"@, "gameId"@);
        lemma_remove_key_other(o, "gameLeaders"@, "gameCode"@);
        lemma_remove_key_other(o, "gameLeaders"@, "gameStatus"@);
        lemma_remove_key_other(o, "gameLeaders"@, "gameStatusText"@);
        lemma_remove_key_other(o, "gameLeaders"@, "period"@);
        lemma_remove_key_other(o, "gameLeaders"@, "gameClock"@);
        lemma_remove_key_other(o, "gameLeaders"@, "gameTimeUTC"@);
        lemma_remove_key_other(o, "gameLeaders"@, "gameEt"@);
        lemma_remove_key_other(o, "gameLeaders"@, "regulationPeriods"@);
        lemma_remove_key_other(o, "gameLeaders"@, "ifNecessary"@);
        lemma_remove_key_other(o, "gameLeaders"@, "seriesGameNumber"@);
        lemma_remove_key_other(o, "gameLeaders"@, "seriesText"@);
        lemma_remove_key_other(o, "gameLeaders"@, "homeTeam"@);
        lemma_remove_key_other(o, "gameLeaders"@, "awayTeam"@);
        lemma_remove_key_other(o, "gameLeaders"@, "pbOdds"@);
    }
    if k == "pbOdds"@ {
        lemma_remove_key_other(o, "pbOdds"@, "gameId"@);
        lemma_remove_key_other(o, "pbOdds"@, "gameCode"@);
        lemma_remove_key_other(o, "pbOdds"@, "gameStatus"@);
        lemma_remove_key_other(o, "pbOdds"@, "gameStatusText"@);
        lemma_remove_key_other(o, "pbOdds"@, "period"@);
        lemma_remove_key_other(o, "pbOdds"@, "gameClock"@);
        lemma_remove_key_other(o, "pbOdds"@, "gameTimeUTC"@);
        lemma_remove_key_other(o, "pbOdds"@, "gameEt"@);
        lemma_remove_key_other(o, "pbOdds"@, "regulationPeriods"@);
        lemma_remove_key_other(o, "pbOdds"@, "ifNecessary"@);
        lemma_remove_key_other(o, "pbOdds"@, "seriesGameNumber"@);
        lemma_remove_key_other(o, "pbOdds"@, "seriesText"@);
        lemma_remove_key_other(o, "pbOdds"@, "homeTeam"@);
        lemma_remove_key_other(o, "pbOdds"@, "awayTeam"@);
        lemma_remove_key_other(o, "pbOdds"@, "gameLeaders"@);
    }
}


/// Default filling of the `scoreboard` decode: a decode with any one schema key
/// absent equals the full decode with that one field at its zero value,
/// whenever the full object decodes.
pub proof fn lemma_scoreboard_default_fill(o: Seq<(Seq<char>, JsonV)>, k: Seq<char>)
    requires
        spec_decode_scoreboard(JsonV::Obj(o)) is Ok,
        k == "gameDate"@ || k == "leagueId"@ || k == "leagueName"@ || k == "games"@,
    ensures
        spec_decode_scoreboard(JsonV::Obj(remove_key(o, k))) is Ok,
        ({
            let m = spec_decode_scoreboard(JsonV::Obj(o))->Ok_0;
            let m2 = spec_decode_scoreboard(JsonV::Obj(remove_key(o, k)))->Ok_0;
            &&& (k == "gameDate"@ ==> m2 == ScoreboardV { game_date: Seq::empty(), ..m })
            &&& (k == "leagueId"@ ==> m2 == ScoreboardV { league_id: Seq::empty(), ..m })
            &&& (k == "leagueName"@ ==> m2 == ScoreboardV { league_name: Seq::empty(), ..m })
            &&& (k == "games"@ ==> m2 == ScoreboardV { games: Seq::empty(), ..m })
        }),
{
    reveal_strlit("gameDate");
    reveal_strlit("leagueId");
    reveal_strlit("leagueName");
    reveal_strlit("games");
    assert("gameDate"@ != "leagueId"@) by {
        assert("gameDate"@[0] == 'g');
        assert("leagueId"@[0] == 'l');
    }
    assert("gameDate"@ != "leagueName"@) by {
        assert("gameDate"@.len() == 8);
        assert("leagueName"@.len() == 10);
    }
    assert("gameDate"@ != "games"@) by {
        assert("gameDate"@.len() == 8);
        assert("games"@.len() == 5);
    }
    assert("leagueId"@ != "leagueName"@) by {
        assert("leagueId"@.len() == 8);
        assert("leagueName"@.len() == 10);
    }
    assert("leagueId"@ != "games"@) by {
        assert("leagueId"@.len() == 8);
        assert("games"@.len() == 5);
    }
    assert("leagueName"@ != "games"@) by {
        assert("leagueName"@.len() == 10);
        assert("games"@.len() == 5);
    }
    lemma_remove_key_gone(o, k);
    if k == "gameDate"@ {
        lemma_remove_key_other(o, "gameDate"@, "leagueId"@);
        lemma_remove_key_other(o, "gameDate"@, "leagueName"@);
        lemma_remove_key_other(o, "gameDate"@, "games"@);
    }
    if k == "leagueId"@ {
        lemma_remove_key_other(o, "leagueId"@, "gameDate"@);
        lemma_remove_key_other(o, "leagueId"@, "leagueName"@);
        lemma_remove_key_other(o, "leagueId"@, "games"@);
    }
    if k == "leagueName"@ {
        lemma_remove_key_other(o, "leagueName"@, "gameDate"@);
        lemma_remove_key_other(o, "leagueName"@, "leagueId"@);
        lemma_remove_key_other(o, "leagueName"@, "games"@);
    }
    if k == "games"@ {
        lemma_remove_key_other(o, "games"@, "gameDate"@);
        lemma_remove_key_other(o, "games"@, "leagueId"@);
        lemma_remove_key_other(o, "games"@, "leagueName"@);
    }
}


/// Default filling of the `daily_games` decode: a decode with any one schema key
/// absent equals the full decode with that one field at its zero value,
/// whenever the full object decodes.
pub proof fn lemma_daily_games_default_fill(o: Seq<(Seq<char>, JsonV)>, k: Seq<char>)
    requires
        spec_decode_daily_games(JsonV::Obj(o)) is Ok,
        k == "meta"@ || k == "scoreboard"@,
    ensures
        spec_decode_daily_games(JsonV::Obj(remove_key(o, k))) is Ok,
        ({
            let m = spec_decode_daily_games(JsonV::Obj(o))->Ok_0;
            let m2 = spec_decode_daily_games(JsonV::Obj(remove_key(o, k)))->Ok_0;
            &&& (k == "meta"@ ==> m2 == DailyGamesV { meta: MetaV::zeroed(), ..m })
            &&& (k == "scoreboard"@ ==> m2 == DailyGamesV { scoreboard: ScoreboardV::zeroed(), ..m })
        }),
{
    reveal_strlit("meta");
    reveal_strlit("scoreboard");
    assert("meta"@ != "scoreboard"@) by {
        assert("meta"@.len() == 4);
        assert("scoreboard"@.len() == 10);
    }
    lemma_remove_key_gone(o, k);
    if k == "meta"@ {
        lemma_remove_key_other(o, "meta"@, "scoreboard"@);
    }
    if k == "scoreboard"@ {
        lemma_remove_key_other(o, "scoreboard"@, "meta"@);
    }
}


/// Strict typing, shown of the `meta` record: a present field of the wrong
/// type fails the decode; it is never defaulted away.
pub proof fn lemma_meta_strict_mismatch(o: Seq<(Seq<char>, JsonV)>, k: Seq<char>, v: JsonV)
    requires
        obj_get(o, k) == Some(v),
        k == "version"@ || k == "request"@ || k == "time"@ || k == "code"@,
        (k == "version"@ || k == "code"@) ==> !(v matches JsonV::Num(NumV::Int(_))),
        (k == "request"@ || k == "time"@) ==> !(v is Str),
    ensures
        spec_decode_meta(JsonV::Obj(o)) is Err,
{
}

/// Strict typing of a team record: a wrong-typed strict field fails the
/// decode, while `seed` and `inBonus` can never cause a failure.
pub proof fn lemma_team_strict_mismatch(o: Seq<(Seq<char>, JsonV)>, k: Seq<char>, v: JsonV)
    requires
        obj_get(o, k) == Some(v),
        k == "teamId"@ || k == "teamName"@ || k == "teamCity"@ || k == "teamTricode"@
            || k == "wins"@ || k == "losses"@ || k == "score"@ || k == "timeoutsRemaining"@
            || k == "periods"@,
        (k == "teamId"@ || k == "wins"@ || k == "losses"@ || k == "score"@
            || k == "timeoutsRemaining"@) ==> !(v matches JsonV::Num(NumV::Int(_))),
        (k == "teamName"@ || k == "teamCity"@ || k == "teamTricode"@) ==> !(v is Str),
        k == "periods"@ ==> !(v is Arr),
    ensures
        spec_decode_team(JsonV::Obj(o)) is Err,
{
}

/// Strict typing of the odds record: a non-number at `odds` or a
/// non-integer at `suspended` fails the decode.
pub proof fn lemma_pb_odds_strict_mismatch(o: Seq<(Seq<char>, JsonV)>, k: Seq<char>, v: JsonV)
    requires
        obj_get(o, k) == Some(v),
        k == "odds"@ || k == "suspended"@,
        k == "odds"@ ==> !(v is Num),
        k == "suspended"@ ==> !(v matches JsonV::Num(NumV::Int(_))),
    ensures
        spec_decode_pb_odds(JsonV::Obj(o)) is Err,
{
}

} // verus!

use vstd::prelude::*;
use crate::distance::{lev, min_nat, str_edit_distance, lemma_lev_self, lemma_lev_zero};
use crate::model::{Player, Team};
use crate::text::{ascii_lowercase, lower};

verus! {

/// A player candidate's score: the edit distance between the case-folded
/// query and the case-folded player name.
pub open spec fn player_score(q: Seq<char>, c: (Team, Player)) -> nat {
    lev(lower(q), lower(c.1.name@))
}

/// A team's score against an already case-folded query: the least edit
/// distance over the team's case-folded nickname, full name and location.
pub open spec fn team_score_folded(qf: Seq<char>, t: Team) -> nat {
    min_nat(
        lev(qf, lower(t.nickname@)),
        min_nat(lev(qf, lower(t.full_name@)), lev(qf, lower(t.location@))),
    )
}

/// A team's score: the least edit distance between the case-folded query and
/// the team's case-folded nickname, full name and location.
pub open spec fn team_score(q: Seq<char>, t: Team) -> nat {
    team_score_folded(lower(q), t)
}

/// Index `r` names the best player candidate: no candidate scores lower, and
/// every earlier candidate scores strictly higher (ties go to the earliest).
pub open spec fn is_best_player(q: Seq<char>, cs: Seq<(Team, Player)>, r: int) -> bool {
    &&& 0 <= r < cs.len()
    &&& forall|j: int|
        0 <= j < cs.len() ==> #[trigger] player_score(q, cs[j]) >= player_score(q, cs[r])
    &&& forall|j: int| 0 <= j < r ==> #[trigger] player_score(q, cs[j]) > player_score(q, cs[r])
}

/// Index `r` names the best team candidate, ties going to the earliest.
pub open spec fn is_best_team(q: Seq<char>, ts: Seq<Team>, r: int) -> bool {
    &&& 0 <= r < ts.len()
    &&& forall|j: int| 0 <= j < ts.len() ==> #[trigger] team_score(q, ts[j]) >= team_score(q, ts[r])
    &&& forall|j: int| 0 <= j < r ==> #[trigger] team_score(q, ts[j]) > team_score(q, ts[r])
}

/// Finds the candidate whose name is closest to the query (case-folded edit
/// distance), returning the earliest on ties. There is no acceptance
/// threshold for players: the closest candidate is always returned.
pub fn resolve_player(query: &str, candidates: &Vec<(Team, Player)>) -> (r: usize)
    requires
        candidates@.len() > 0,
    ensures
        is_best_player(query@, candidates@, r as int),
{
    let q = ascii_lowercase(query);
    let name0 = ascii_lowercase(candidates[0].1.name.as_str());
    let mut best: usize = 0;
    let mut best_d: usize = str_edit_distance(q.as_str(), name0.as_str());
    let mut i: usize = 1;
    while i < candidates.len()
        invariant
            1 <= i <= candidates@.len(),
            best < i,
            q@ == lower(query@),
            best_d as nat == player_score(query@, candidates@[best as int]),
            forall|j: int|
                0 <= j < i ==> #[trigger] player_score(query@, candidates@[j]) >= best_d as nat,
            forall|j: int|
                0 <= j < best ==> #[trigger] player_score(query@, candidates@[j]) > best_d as nat,
        decreases candidates@.len() - i,
    {
        let name_i = ascii_lowercase(candidates[i].1.name.as_str());
        let d = str_edit_distance(q.as_str(), name_i.as_str());
        if d < best_d {
            best = i;
            best_d = d;
        }
        i = i + 1;
    }
    best
}

/// The least of three scores, as the team scoring takes it.
fn min3(a: usize, b: usize, c: usize) -> (r: usize)
    ensures
        r as nat == min_nat(a as nat, min_nat(b as nat, c as nat)),
{
    let m = if b <= c {
        b
    } else {
        c
    };
    if a <= m {
        a
    } else {
        m
    }
}

/// Finds the team closest to the query, scoring each team by the least
/// case-folded edit distance over its nickname, full name and location and
/// returning the earliest on ties. A best score of 3 or more means no team
/// is close enough, and `None` is returned.
pub fn resolve_team(query: &str, teams: &Vec<Team>) -> (r: Option<usize>)
    ensures
        r matches Some(i) ==> is_best_team(query@, teams@, i as int) && team_score(
            query@,
            teams@[i as int],
        ) < 3,
        r is None ==> forall|j: int|
            0 <= j < teams@.len() ==> #[trigger] team_score(query@, teams@[j]) >= 3,
{
    if teams.len() == 0 {
        return None;
    }
    let q = ascii_lowercase(query);
    let mut best: usize = 0;
    let mut best_d: usize = team_distance(q.as_str(), &teams[0]);
    proof {
        assert(best_d as nat == team_score(query@, teams@[0]));
    }
    let mut i: usize = 1;
    while i < teams.len()
        invariant
            1 <= i <= teams@.len(),
            best < i,
            q@ == lower(query@),
            best_d as nat == team_score(query@, teams@[best as int]),
            forall|j: int| 0 <= j < i ==> #[trigger] team_score(query@, teams@[j]) >= best_d as nat,
            forall|j: int|
                0 <= j < best ==> #[trigger] team_score(query@, teams@[j]) > best_d as nat,
        decreases teams@.len() - i,
    {
        let d = team_distance(q.as_str(), &teams[i]);
        if d < best_d {
            best = i;
            best_d = d;
        }
        i = i + 1;
    }
    if best_d < 3 {
        Some(best)
    } else {
        None
    }
}

/// One team's score against an already case-folded query.
fn team_distance(q: &str, t: &Team) -> (r: usize)
    ensures
        r as nat == team_score_folded(q@, *t),
{
    let nick = ascii_lowercase(t.nickname.as_str());
    let full = ascii_lowercase(t.full_name.as_str());
    let loc = ascii_lowercase(t.location.as_str());
    let d1 = str_edit_distance(q, nick.as_str());
    let d2 = str_edit_distance(q, full.as_str());
    let d3 = str_edit_distance(q, loc.as_str());
    min3(d1, d2, d3)
}

/// A query that case-folds to a candidate's case-folded name resolves to a
/// candidate at score zero whose name matches the query exactly
/// (case-insensitively), and no candidate after the matching one is chosen.
pub proof fn lemma_exact_match_player(q: Seq<char>, cs: Seq<(Team, Player)>, r: int, i: int)
    requires
        is_best_player(q, cs, r),
        0 <= i < cs.len(),
        lower(q) == lower(cs[i].1.name@),
    ensures
        player_score(q, cs[r]) == 0,
        lower(cs[r].1.name@) == lower(q),
        r <= i,
{
    lemma_lev_self(lower(q));
    assert(player_score(q, cs[i]) == 0);
    assert(player_score(q, cs[r]) <= player_score(q, cs[i]));
    lemma_lev_zero(lower(q), lower(cs[r].1.name@));
    if r > i {
        assert(player_score(q, cs[i]) > player_score(q, cs[r]));
        assert(false);
    }
}

/// A query that case-folds to one of a team's case-folded names resolves to
/// a team at score zero, never one later than the matching team; a zero
/// score clears the acceptance threshold, so such a query is never answered
/// with "not found".
pub proof fn lemma_exact_match_team(q: Seq<char>, ts: Seq<Team>, r: int, i: int)
    requires
        is_best_team(q, ts, r),
        0 <= i < ts.len(),
        lower(q) == lower(ts[i].nickname@) || lower(q) == lower(ts[i].full_name@) || lower(q)
            == lower(ts[i].location@),
    ensures
        team_score(q, ts[r]) == 0,
        team_score(q, ts[r]) < 3,
        r <= i,
{
    lemma_lev_self(lower(q));
    assert(team_score(q, ts[i]) == 0);
    assert(team_score(q, ts[r]) <= team_score(q, ts[i]));
    if r > i {
        assert(team_score(q, ts[i]) > team_score(q, ts[r]));
        assert(false);
    }
}

/// Tie-break determinism for players: of two candidates with the same
/// minimal score, the resolver never picks one later than the earlier.
pub proof fn lemma_tie_break_player(q: Seq<char>, cs: Seq<(Team, Player)>, r: int, i: int, j: int)
    requires
        is_best_player(q, cs, r),
        0 <= i < j < cs.len(),
        player_score(q, cs[i]) == player_score(q, cs[j]),
        forall|k: int| 0 <= k < cs.len() ==> #[trigger] player_score(q, cs[k]) >= player_score(q, cs[i]),
    ensures
        r <= i,
{
    if r > i {
        assert(player_score(q, cs[i]) > player_score(q, cs[r]));
        assert(player_score(q, cs[r]) >= player_score(q, cs[i]));
        assert(false);
    }
}

/// Tie-break determinism for teams: of two teams with the same minimal
/// score, the resolver never picks one later than the earlier.
pub proof fn lemma_tie_break_team(q: Seq<char>, ts: Seq<Team>, r: int, i: int, j: int)
    requires
        is_best_team(q, ts, r),
        0 <= i < j < ts.len(),
        team_score(q, ts[i]) == team_score(q, ts[j]),
        forall|k: int| 0 <= k < ts.len() ==> #[trigger] team_score(q, ts[k]) >= team_score(q, ts[i]),
    ensures
        r <= i,
{
    if r > i {
        assert(team_score(q, ts[i]) > team_score(q, ts[r]));
        assert(team_score(q, ts[r]) >= team_score(q, ts[i]));
        assert(false);
    }
}

} // verus!

use vstd::prelude::*;
use crate::model::{clone_strings, clone_team, team_eq, LookupError, Player, Team};

verus! {

/// The largest number of player ids one remote request may carry.
pub const BATCH_SIZE: usize = 50;

/// The player ids one team contributes to a roster request: lineup then
/// rotation always, and, in the full ("forbidden") view, bullpen then bench.
pub open spec fn roster_ids(t: Team, forbidden: bool) -> Seq<String> {
    t.lineup@ + t.rotation@ + (if forbidden {
        t.bullpen@ + t.bench@
    } else {
        Seq::<String>::empty()
    })
}

/// The ids of one team's roster, in request order.
pub fn team_player_ids(t: &Team, forbidden: bool) -> (r: Vec<String>)
    ensures
        r@ == roster_ids(*t, forbidden),
{
    let mut r = clone_strings(&t.lineup);
    let mut rot = clone_strings(&t.rotation);
    r.append(&mut rot);
    if forbidden {
        let mut bp = clone_strings(&t.bullpen);
        let mut be = clone_strings(&t.bench);
        r.append(&mut bp);
        r.append(&mut be);
        proof {
            assert(r@ =~= roster_ids(*t, forbidden));
        }
    } else {
        proof {
            assert(r@ =~= roster_ids(*t, forbidden));
        }
    }
    r
}

/// Ids tagged with the index of the team that requested them.
pub open spec fn tag_ids(ti: usize, ids: Seq<String>) -> Seq<(usize, String)> {
    ids.map_values(|id: String| (ti, id))
}

/// Every roster id of every team, tagged with its team's index, teams in
/// order and each team's ids in roster order.
pub open spec fn request_pairs(teams: Seq<Team>, forbidden: bool) -> Seq<(usize, String)>
    decreases teams.len(),
{
    if teams.len() == 0 {
        Seq::empty()
    } else {
        request_pairs(teams.drop_last(), forbidden) + tag_ids(
            (teams.len() - 1) as usize,
            roster_ids(teams.last(), forbidden),
        )
    }
}

/// Every tag in a request points at a team of the list.
pub proof fn lemma_request_pairs_bounds(teams: Seq<Team>, forbidden: bool)
    ensures
        forall|k: int|
            0 <= k < request_pairs(teams, forbidden).len() ==> (
            #[trigger] request_pairs(teams, forbidden)[k]).0 < teams.len(),
    decreases teams.len(),
{
    if teams.len() > 0 {
        lemma_request_pairs_bounds(teams.drop_last(), forbidden);
        let prefix = request_pairs(teams.drop_last(), forbidden);
        let tail = tag_ids((teams.len() - 1) as usize, roster_ids(teams.last(), forbidden));
        assert forall|k: int|
            0 <= k < request_pairs(teams, forbidden).len() implies (#[trigger] request_pairs(
            teams,
            forbidden,
        )[k]).0 < teams.len() by {
            if k < prefix.len() {
                assert(request_pairs(teams, forbidden)[k] == prefix[k]);
            } else {
                assert(request_pairs(teams, forbidden)[k] == tail[k - prefix.len()]);
            }
        }
    }
}

/// Builds the flattened request: each team's roster ids, tagged with the
/// team's index.
pub fn build_request(teams: &Vec<Team>, forbidden: bool) -> (r: Vec<(usize, String)>)
    ensures
        r@ == request_pairs(teams@, forbidden),
        forall|k: int| 0 <= k < r@.len() ==> (#[trigger] r@[k]).0 < teams@.len(),
{
    let mut r: Vec<(usize, String)> = Vec::new();
    let mut ti: usize = 0;
    proof {
        assert(teams@.subrange(0, 0) =~= Seq::<Team>::empty());
    }
    while ti < teams.len()
        invariant
            ti <= teams@.len(),
            r@ == request_pairs(teams@.subrange(0, ti as int), forbidden),
        decreases teams@.len() - ti,
    {
        let ids = team_player_ids(&teams[ti], forbidden);
        let mut j: usize = 0;
        proof {
            assert(tag_ids(ti, ids@.subrange(0, 0)) =~= Seq::<(usize, String)>::empty());
            assert(r@ + Seq::<(usize, String)>::empty() =~= r@);
        }
        let ghost prefix = r@;
        while j < ids.len()
            invariant
                j <= ids@.len(),
                ids@ == roster_ids(teams@[ti as int], forbidden),
                ti < teams@.len(),
                r@ == prefix + tag_ids(ti, ids@.subrange(0, j as int)),
            decreases ids@.len() - j,
        {
            r.push((ti, ids[j].clone()));
            j = j + 1;
            proof {
                assert(r@ =~= prefix + tag_ids(ti, ids@.subrange(0, j as int)));
            }
        }
        ti = ti + 1;
        proof {
            let sub = teams@.subrange(0, ti as int);
            assert(sub.drop_last() =~= teams@.subrange(0, ti as int - 1));
            assert(ids@.subrange(0, ids@.len() as int) =~= ids@);
            assert(r@ =~= request_pairs(teams@.subrange(0, ti as int), forbidden));
        }
    }
    proof {
        assert(teams@.subrange(0, teams@.len() as int) =~= teams@);
        lemma_request_pairs_bounds(teams@, forbidden);
    }
    r
}

/// The concatenation of a list of batches, in order.
pub open spec fn joined(batches: Seq<Seq<(usize, String)>>) -> Seq<(usize, String)>
    decreases batches.len(),
{
    if batches.len() == 0 {
        Seq::empty()
    } else {
        joined(batches.drop_last()) + batches.last()
    }
}

/// The views of a list of batch vectors.
pub open spec fn batch_views(bs: Seq<Vec<(usize, String)>>) -> Seq<Seq<(usize, String)>> {
    bs.map_values(|b: Vec<(usize, String)>| b@)
}

/// Splits a request into batches of at most `BATCH_SIZE` pairs: every batch
/// but the last is exactly full, the last is non-empty, their concatenation
/// is the input, and their number is the input's length divided by the
/// batch size, rounded up.
pub fn batch_pairs(pairs: Vec<(usize, String)>) -> (r: Vec<Vec<(usize, String)>>)
    ensures
        joined(batch_views(r@)) == pairs@,
        forall|i: int| 0 <= i < r@.len() ==> 1 <= (#[trigger] r@[i])@.len() <= BATCH_SIZE,
        forall|i: int| 0 <= i < r@.len() - 1 ==> (#[trigger] r@[i])@.len() == BATCH_SIZE,
        r@.len() == (pairs@.len() + BATCH_SIZE - 1) / (BATCH_SIZE as int),
{
    let ghost orig = pairs@;
    let mut rem = pairs;
    let mut out: Vec<Vec<(usize, String)>> = Vec::new();
    let mut cur: Vec<(usize, String)> = Vec::new();
    proof {
        assert(joined(batch_views(out@)) =~= Seq::<(usize, String)>::empty());
        assert(orig.subrange(0, 0) =~= Seq::<(usize, String)>::empty());
    }
    while rem.len() > 0
        invariant
            rem@ == orig.subrange(orig.len() - rem@.len(), orig.len() as int),
            joined(batch_views(out@)) + cur@ == orig.subrange(0, orig.len() - rem@.len()),
            cur@.len() < BATCH_SIZE,
            forall|i: int| 0 <= i < out@.len() ==> (#[trigger] out@[i])@.len() == BATCH_SIZE,
            out@.len() * BATCH_SIZE + cur@.len() == orig.len() - rem@.len(),
        decreases rem@.len(),
    {
        let ghost done = (orig.len() - rem@.len()) as int;
        let p = rem.remove(0);
        proof {
            assert(p == orig[done]);
            assert(rem@ =~= orig.subrange(orig.len() - rem@.len(), orig.len() as int));
        }
        let ghost prev_cur = cur@;
        cur.push(p);
        proof {
            assert(cur@ == prev_cur.push(p));
            assert(joined(batch_views(out@)) + cur@ =~= (joined(batch_views(out@))
                + prev_cur).push(p));
            assert((joined(batch_views(out@)) + prev_cur).push(p) =~= orig.subrange(0, done + 1));
        }
        if cur.len() == BATCH_SIZE {
            let ghost old_out = out@;
            let ghost full_cur = cur@;
            out.push(cur);
            cur = Vec::new();
            proof {
                assert(batch_views(out@).drop_last() =~= batch_views(old_out));
                assert(batch_views(out@).last() == full_cur);
                assert(joined(batch_views(out@)) + cur@ =~= orig.subrange(0, done + 1));
            }
        }
    }
    proof {
        assert(orig.subrange(0, orig.len() as int) =~= orig);
        assert(rem@.len() == 0);
    }
    if cur.len() > 0 {
        let ghost old_out = out@;
        let ghost last_cur = cur@;
        out.push(cur);
        proof {
            assert(batch_views(out@).drop_last() =~= batch_views(old_out));
            assert(batch_views(out@).last() == last_cur);
            assert(joined(batch_views(out@)) =~= orig);
            assert(out@.len() * BATCH_SIZE - BATCH_SIZE + last_cur.len() == orig.len());
            assert(out@.len() == (orig.len() + BATCH_SIZE - 1) / (BATCH_SIZE as int))
                by (nonlinear_arith)
                requires
                    out@.len() * BATCH_SIZE - BATCH_SIZE + last_cur.len() == orig.len(),
                    1 <= last_cur.len() < BATCH_SIZE,
                    BATCH_SIZE == 50,
                    out@.len() >= 1,
            ;
        }
    } else {
        proof {
            assert(joined(batch_views(out@)) + cur@ =~= joined(batch_views(out@)));
            assert(joined(batch_views(out@)) =~= orig);
            assert(out@.len() == (orig.len() + BATCH_SIZE - 1) / (BATCH_SIZE as int))
                by (nonlinear_arith)
                requires
                    out@.len() * BATCH_SIZE == orig.len(),
                    BATCH_SIZE == 50,
            ;
        }
    }
    out
}

/// The ids a batch carries, in order, ready for the remote fetch.
pub fn batch_id_list(batch: &Vec<(usize, String)>) -> (r: Vec<String>)
    ensures
        r@.len() == batch@.len(),
        forall|k: int| 0 <= k < batch@.len() ==> (#[trigger] r@[k])@ == batch@[k].1@,
{
    let mut r: Vec<String> = Vec::new();
    let mut i: usize = 0;
    while i < batch.len()
        invariant
            i <= batch@.len(),
            r@.len() == i,
            forall|k: int| 0 <= k < i ==> (#[trigger] r@[k])@ == batch@[k].1@,
        decreases batch@.len() - i,
    {
        r.push(batch[i].1.clone());
        i = i + 1;
    }
    r
}

/// Some pair of the request carries this id.
pub open spec fn has_match(pairs: Seq<(usize, String)>, id: Seq<char>) -> bool {
    exists|j: int| 0 <= j < pairs.len() && (#[trigger] pairs[j]).1@ == id
}

/// Every fetched player's id is carried by some pair of the request.
pub open spec fn all_matched(pairs: Seq<(usize, String)>, ps: Seq<Player>) -> bool {
    forall|k: int| 0 <= k < ps.len() ==> has_match(pairs, (#[trigger] ps[k]).id@)
}

/// `t` is the team of the first request pair carrying `id`.
pub open spec fn matched_team(
    pairs: Seq<(usize, String)>,
    teams: Seq<Team>,
    id: Seq<char>,
    t: Team,
) -> bool {
    exists|j: int|
        {
            &&& 0 <= j < pairs.len()
            &&& (#[trigger] pairs[j]).1@ == id
            &&& forall|l: int| 0 <= l < j ==> (#[trigger] pairs[l]).1@ != id
            &&& pairs[j].0 < teams.len()
            &&& team_eq(t, teams[pairs[j].0 as int])
        }
}

/// The first request pair carrying the given id, if any.
fn find_pair(pairs: &Vec<(usize, String)>, id: &String) -> (r: Option<usize>)
    ensures
        r matches Some(j) ==> j < pairs@.len() && pairs@[j as int].1@ == id@ && (forall|l: int|
            0 <= l < j ==> (#[trigger] pairs@[l]).1@ != id@),
        r is None ==> !has_match(pairs@, id@),
{
    let mut j: usize = 0;
    while j < pairs.len()
        invariant
            j <= pairs@.len(),
            forall|l: int| 0 <= l < j ==> (#[trigger] pairs@[l]).1@ != id@,
        decreases pairs@.len() - j,
    {
        if pairs[j].1 == *id {
            return Some(j);
        }
        j = j + 1;
    }
    None
}

/// Re-associates fetched players with the teams that requested their ids.
/// Every returned player is paired, in fetch order, with the team of the
/// first request pair carrying its id; a player whose id no request pair
/// carries is a `DataConsistency` error, and no partial result is returned.
#[verifier::loop_isolation(false)]
pub fn associate(
    pairs: &Vec<(usize, String)>,
    teams: &Vec<Team>,
    fetched: Vec<Player>,
) -> (r: Result<Vec<(Team, Player)>, LookupError>)
    requires
        forall|k: int| 0 <= k < pairs@.len() ==> (#[trigger] pairs@[k]).0 < teams@.len(),
    ensures
        r is Ok <==> all_matched(pairs@, fetched@),
        r matches Ok(v) ==> {
            &&& v@.len() == fetched@.len()
            &&& forall|k: int| 0 <= k < v@.len() ==> (#[trigger] v@[k]).1 == fetched@[k]
            &&& forall|k: int|
                0 <= k < v@.len() ==> matched_team(
                    pairs@,
                    teams@,
                    fetched@[k].id@,
                    (#[trigger] v@[k]).0,
                )
        },
        r matches Err(e) ==> e == LookupError::DataConsistency,
{
    let ghost orig = fetched@;
    let mut rem = fetched;
    let mut out: Vec<(Team, Player)> = Vec::new();
    while rem.len() > 0
        invariant
            rem@ == orig.subrange(orig.len() - rem@.len(), orig.len() as int),
            out@.len() + rem@.len() == orig.len(),
            forall|k: int| 0 <= k < out@.len() ==> (#[trigger] out@[k]).1 == orig[k],
            forall|k: int|
                0 <= k < out@.len() ==> matched_team(
                    pairs@,
                    teams@,
                    orig[k].id@,
                    (#[trigger] out@[k]).0,
                ),
            forall|k: int| 0 <= k < pairs@.len() ==> (#[trigger] pairs@[k]).0 < teams@.len(),
        decreases rem@.len(),
    {
        let ghost done = (orig.len() - rem@.len()) as int;
        let p = rem.remove(0);
        proof {
            assert(p == orig[done]);
            assert(rem@ =~= orig.subrange(orig.len() - rem@.len(), orig.len() as int));
        }
        match find_pair(pairs, &p.id) {
            Some(j) => {
                let ti = pairs[j].0;
                let t = clone_team(&teams[ti]);
                out.push((t, p));
            },
            None => {
                proof {
                    assert(!all_matched(pairs@, orig)) by {
                        assert(!has_match(pairs@, (#[trigger] orig[done]).id@));
                    }
                }
                return Err(LookupError::DataConsistency);
            },
        }
    }
    proof {
        assert(rem@.len() == 0);
        assert forall|k: int| 0 <= k < orig.len() implies has_match(
            pairs@,
            (#[trigger] orig[k]).id@,
        ) by {
            assert(matched_team(pairs@, teams@, orig[k].id@, out@[k].0));
        }
        assert(all_matched(pairs@, orig));
    }
    Ok(out)
}

} // verus!

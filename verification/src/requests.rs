//! The requesting team's entry among the target's transfer requests: while a
//! proposal is pending it stands there once (added, or the existing one
//! brought up to date); when the proposal ends it is taken out, and every
//! other team's request is kept, in order.  The requests are read as the
//! sequence of the teams that made them.
use vstd::prelude::*;

verus! {

/// The positions of the requests of teams other than `team`, in order.
pub open spec fn kept_positions(teams: Seq<usize>, team: usize) -> Seq<usize>
    decreases teams.len(),
{
    if teams.len() == 0 {
        Seq::empty()
    } else {
        let p = kept_positions(teams.drop_last(), team);
        if teams.last() != team {
            p.push((teams.len() - 1) as usize)
        } else {
            p
        }
    }
}

/// The first position of a request of `team`.
pub open spec fn first_position(teams: Seq<usize>, team: usize) -> Option<int> {
    if exists|i: int| 0 <= i < teams.len() && teams[i] == team {
        Some(choose|i: int| 0 <= i < teams.len() && teams[i] == team && forall|j: int| 0 <= j < i ==> teams[j] != team)
    } else {
        None
    }
}

/// What to do with the requests.
#[derive(Debug, PartialEq, Eq)]
pub enum RequestSync {
    /// Keep only the requests at these positions: the team's are taken out.
    Removed(Vec<usize>),
    /// The team has no request to take out.
    Absent,
    /// Bring the team's request at this position up to date.
    Updated(usize),
    /// Add a request of the team at the end.
    Inserted,
}

/// The step that keeps the requesting team's entry in line with its
/// proposal: `active` while the proposal is pending, not once it ended.
pub fn transfer_request_sync(teams: &[usize], team: usize, active: bool) -> (r: RequestSync)
    ensures
        !active && (exists|i: int| 0 <= i < teams@.len() && teams@[i] == team) ==> (r matches RequestSync::Removed(
            v,
        ) && v@ == kept_positions(teams@, team)),
        !active && !(exists|i: int| 0 <= i < teams@.len() && teams@[i] == team) ==> r == RequestSync::Absent,
        active ==> match first_position(teams@, team) {
            Some(i) => r == RequestSync::Updated(i as usize),
            None => r == RequestSync::Inserted,
        },
{
    if active {
        let mut i: usize = 0;
        while i < teams.len()
            invariant
                i <= teams@.len(),
                active,
                forall|j: int| 0 <= j < i ==> teams@[j] != team,
            decreases teams@.len() - i,
        {
            if teams[i] == team {
                assert(forall|j: int| 0 <= j < i ==> teams@[j] != team);
                let ghost w = choose|k: int|
                    0 <= k < teams@.len() && teams@[k] == team && forall|j: int| 0 <= j < k ==> teams@[j] != team;
                proof {
                    assert(0 <= i < teams@.len() && teams@[i as int] == team && forall|j: int|
                        0 <= j < i ==> teams@[j] != team);
                    if w < i {
                        assert(teams@[w] != team);
                    } else if w > i {
                        assert(teams@[i as int] != team);
                    }
                }
                return RequestSync::Updated(i);
            }
            i = i + 1;
        }
        return RequestSync::Inserted;
    }
    let mut kept: Vec<usize> = Vec::new();
    let mut found = false;
    let mut i: usize = 0;
    assert(teams@.take(0) =~= Seq::<usize>::empty());
    while i < teams.len()
        invariant
            i <= teams@.len(),
            kept@ == kept_positions(teams@.take(i as int), team),
            found <==> exists|j: int| 0 <= j < i && teams@[j] == team,
        decreases teams@.len() - i,
    {
        assert(teams@.take(i + 1).drop_last() =~= teams@.take(i as int));
        assert(teams@.take(i + 1).last() == teams@[i as int]);
        if teams[i] != team {
            kept.push(i);
        } else {
            found = true;
        }
        i = i + 1;
    }
    assert(teams@.take(i as int) =~= teams@);
    if found {
        RequestSync::Removed(kept)
    } else {
        RequestSync::Absent
    }
}

/// Taking the team's requests out keeps every other request, in order, and
/// leaves none of the team's.
pub proof fn lemma_removal_keeps_others(teams: Seq<usize>, team: usize)
    requires
        teams.len() <= usize::MAX,
    ensures
        forall|k: int|
            0 <= k < kept_positions(teams, team).len() ==> #[trigger] kept_positions(teams, team)[k] < teams.len()
                && teams[kept_positions(teams, team)[k] as int] != team,
        forall|k1: int, k2: int|
            0 <= k1 < k2 < kept_positions(teams, team).len() ==> #[trigger] kept_positions(teams, team)[k1]
                < #[trigger] kept_positions(teams, team)[k2],
        forall|i: int|
            0 <= i < teams.len() && teams[i] != team ==> #[trigger] kept_positions(teams, team).contains(i as usize),
    decreases teams.len(),
{
    if teams.len() > 0 {
        let d = teams.drop_last();
        lemma_removal_keeps_others(d, team);
        let p = kept_positions(d, team);
        let q = kept_positions(teams, team);
        let n = teams.len() - 1;
        assert forall|k: int| 0 <= k < p.len() implies p[k] < d.len() && teams[p[k] as int] == d[p[k] as int] by {}
        if teams.last() != team {
            assert(q == p.push(n as usize));
            assert forall|k: int| 0 <= k < q.len() implies #[trigger] q[k] < teams.len() && teams[q[k] as int] != team by {
                if k < p.len() {
                    assert(q[k] == p[k]);
                    assert(p[k] < d.len() && d[p[k] as int] != team);
                    assert(teams[p[k] as int] == d[p[k] as int]);
                } else {
                    assert(q[k] == n as usize);
                }
            }
            assert forall|k1: int, k2: int| 0 <= k1 < k2 < q.len() implies #[trigger] q[k1] < #[trigger] q[k2] by {
                if k2 < p.len() {
                    assert(q[k1] == p[k1] && q[k2] == p[k2]);
                    assert(p[k1] < p[k2]);
                } else {
                    assert(q[k1] == p[k1]);
                    assert(p[k1] < d.len());
                    assert(q[k2] == n as usize);
                }
            }
            assert forall|i: int| 0 <= i < teams.len() && teams[i] != team implies #[trigger] q.contains(i as usize) by {
                if i < n {
                    assert(d[i] == teams[i]);
                    assert(p.contains(i as usize));
                    let k = choose|k: int| 0 <= k < p.len() && p[k] == i as usize;
                    assert(q[k] == i as usize);
                } else {
                    assert(q[p.len() as int] == i as usize);
                }
            }
        } else {
            assert(q == p);
            assert forall|i: int| 0 <= i < teams.len() && teams[i] != team implies #[trigger] q.contains(i as usize) by {
                assert(i < n);
                assert(d[i] == teams[i]);
            }
        }
    }
}

} // verus!

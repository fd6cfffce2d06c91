//! The search for the least cash that the selling team accepts.
//!
//! The seller's acceptance rule is an oracle handed in as a closure: called on
//! a cash amount (in won) it answers whether the package is accepted, and
//! whether a second evaluation gave the same answer.  The search checks zero
//! cash, then the budget ceiling, then scans 65 evenly spaced amounts to see
//! that acceptance never falls back, then bisects down to the exact boundary
//! and checks the amounts on both sides of it.
use vstd::prelude::*;
use vstd::arithmetic::power2::{pow2, lemma2_to64, lemma_pow2_unfold, lemma_pow2_strictly_increases};

verus! {

/// The largest cash amount (in won) that the search considers.
pub const MAX_SEARCH_CASH_WON: u64 = 9_000_000_000_000_000u64;

/// What a completed search found.
#[derive(Clone, Copy, Debug, PartialEq, Eq, Structural)]
pub struct ThresholdSearchResult {
    pub requester_cash: u64,
    pub evaluation_count: usize,
    pub repeat_consistent: bool,
    pub coarse_monotonic: bool,
    pub boundary_verified: bool,
    pub zero_cash_accepted: bool,
    pub budget_ceiling_accepted: bool,
}

/// Why a search gave no threshold.
#[derive(Clone, Copy, Debug, PartialEq, Eq, Structural)]
pub enum CashSearchError {
    /// Zero cash was rejected and the budget is zero.
    NoBudget,
    /// The budget ceiling (the field) was rejected too.
    CeilingRejected(u64),
    /// An amount on the scan was rejected after a smaller one was accepted.
    NonMonotonic,
    /// Some evaluation disagreed with its own repetition.
    NotDeterministic,
    /// The amounts around the bisected boundary did not answer as a boundary must.
    BoundaryUnverified,
}

/// The budget ceiling that the search works under.
pub open spec fn search_ceiling(budget_won: u64) -> u64 {
    if budget_won < MAX_SEARCH_CASH_WON {
        budget_won
    } else {
        MAX_SEARCH_CASH_WON
    }
}

/// Some evaluation of `cash` was an acceptance.
pub open spec fn accepted_at<F: Fn(u64) -> (bool, bool)>(accepts: F, cash: u64) -> bool {
    exists|rep: bool| #[trigger] call_ensures(accepts, (cash,), (true, rep))
}

/// Some evaluation of `cash` was a rejection.
pub open spec fn rejected_at<F: Fn(u64) -> (bool, bool)>(accepts: F, cash: u64) -> bool {
    exists|rep: bool| #[trigger] call_ensures(accepts, (cash,), (false, rep))
}

/// Every evaluation of `cash` is an acceptance.
pub open spec fn always_accepts<F: Fn(u64) -> (bool, bool)>(accepts: F, cash: u64) -> bool {
    forall|o: (bool, bool)| #[trigger] call_ensures(accepts, (cash,), o) ==> o.0
}

/// Every evaluation of `cash` is a rejection.
pub open spec fn always_rejects<F: Fn(u64) -> (bool, bool)>(accepts: F, cash: u64) -> bool {
    forall|o: (bool, bool)| #[trigger] call_ensures(accepts, (cash,), o) ==> !o.0
}

/// The oracle behaves as a threshold rule: once an amount is accepted, every
/// larger amount (and any repetition of it) is accepted, and every evaluation
/// reports its repetition as consistent.
pub open spec fn monotone_policy<F: Fn(u64) -> (bool, bool)>(accepts: F) -> bool {
    &&& forall|c1: u64, c2: u64, o1: (bool, bool), o2: (bool, bool)|
        #![trigger call_ensures(accepts, (c1,), o1), call_ensures(accepts, (c2,), o2)]
        c1 <= c2 && call_ensures(accepts, (c1,), o1) && call_ensures(accepts, (c2,), o2) && o1.0 ==> o2.0
    &&& forall|c: u64, o: (bool, bool)| #[trigger] call_ensures(accepts, (c,), o) ==> o.1
}

/// The amount checked at `step` (0 to 64) of the scan.
pub open spec fn scan_cash(ceiling: u64, step: u64) -> int {
    if step >= 64 {
        ceiling as int
    } else {
        (ceiling as int * step as int) / 64
    }
}

proof fn lemma_scan_cash_bounds(ceiling: u64, step: u64)
    requires
        step <= 64,
    ensures
        0 <= scan_cash(ceiling, step) <= ceiling,
{
    if step < 64 {
        assert((ceiling as int * step as int) / 64 <= ceiling as int) by (nonlinear_arith)
            requires
                step < 64,
                ceiling >= 0,
        ;
        assert(0 <= (ceiling as int * step as int) / 64) by (nonlinear_arith)
            requires
                step >= 0,
                ceiling >= 0,
        ;
    }
}

proof fn lemma_scan_cash_monotone(ceiling: u64, s1: u64, s2: u64)
    requires
        s1 <= s2 <= 64,
    ensures
        scan_cash(ceiling, s1) <= scan_cash(ceiling, s2),
{
    lemma_scan_cash_bounds(ceiling, s1);
    if s2 < 64 {
        assert((ceiling as int * s1 as int) <= (ceiling as int * s2 as int)) by (nonlinear_arith)
            requires
                s1 <= s2,
                ceiling >= 0,
        ;
        vstd::arithmetic::div_mod::lemma_div_is_ordered(ceiling as int * s1 as int, ceiling as int * s2 as int, 64);
    }
}

/// One evaluation of the oracle.
fn ask<F: Fn(u64) -> (bool, bool)>(accepts: &F, cash: u64) -> (r: (bool, bool))
    requires
        forall|c: u64| call_requires(*accepts, (c,)),
    ensures
        call_ensures(*accepts, (cash,), r),
        r.0 ==> accepted_at(*accepts, cash),
        !r.0 ==> rejected_at(*accepts, cash),
{
    let r = accepts(cash);
    proof {
        if r.0 {
            assert(call_ensures(*accepts, (cash,), (true, r.1)));
        } else {
            assert(call_ensures(*accepts, (cash,), (false, r.1)));
        }
    }
    r
}

/// Under a threshold rule, an accepted amount and a rejected one are ordered.
pub proof fn lemma_monotone_order<F: Fn(u64) -> (bool, bool)>(accepts: F, yes: u64, no: u64)
    requires
        monotone_policy(accepts),
        accepted_at(accepts, yes),
        rejected_at(accepts, no),
    ensures
        no < yes,
{
    let r1 = choose|rep: bool| #[trigger] call_ensures(accepts, (yes,), (true, rep));
    let r2 = choose|rep: bool| #[trigger] call_ensures(accepts, (no,), (false, rep));
    assert(call_ensures(accepts, (yes,), (true, r1)));
    assert(call_ensures(accepts, (no,), (false, r2)));
    if yes <= no {
        assert((false, r2).0);
    }
}

/// Finds the least cash (in won, at most the budget and at most
/// `MAX_SEARCH_CASH_WON`) that the seller accepts.
///
/// A result is always an amount that the oracle accepted, with the amount
/// below it rejected (unless it is zero).  Under a threshold rule
/// (`monotone_policy`) the search cannot fail but for the two budget errors,
/// and its result is the least accepted amount: every smaller amount that is
/// ever evaluated is rejected.
#[verifier::rlimit(40)]
pub fn find_exact_requester_cash<F: Fn(u64) -> (bool, bool)>(budget_won: u64, accepts: &F) -> (r: Result<ThresholdSearchResult, CashSearchError>)
    requires
        forall|c: u64| call_requires(*accepts, (c,)),
    ensures
        match r {
            Ok(res) => {
                &&& res.requester_cash <= search_ceiling(budget_won)
                &&& accepted_at(*accepts, res.requester_cash)
                &&& res.requester_cash > 0 ==> rejected_at(*accepts, (res.requester_cash - 1) as u64)
                &&& res.coarse_monotonic && res.boundary_verified
                &&& res.budget_ceiling_accepted
                &&& res.zero_cash_accepted <==> res.requester_cash == 0 && res.evaluation_count == 1
                &&& res.zero_cash_accepted ==> call_ensures(*accepts, (0u64,), (true, res.repeat_consistent))
                &&& !res.zero_cash_accepted ==> {
                    &&& res.repeat_consistent
                    &&& accepted_at(*accepts, (res.requester_cash + 1) as u64)
                    &&& 70 <= res.evaluation_count <= 124
                }
            },
            Err(CashSearchError::NoBudget) => search_ceiling(budget_won) == 0 && rejected_at(*accepts, 0),
            Err(CashSearchError::CeilingRejected(m)) => m == search_ceiling(budget_won) && m > 0
                && rejected_at(*accepts, 0) && rejected_at(*accepts, m),
            Err(_) => !monotone_policy(*accepts),
        },
        always_accepts(*accepts, 0) ==> (r matches Ok(res) && res.zero_cash_accepted && res.requester_cash == 0
            && res.evaluation_count == 1),
        always_rejects(*accepts, 0) && search_ceiling(budget_won) == 0 ==> r == Err::<
            ThresholdSearchResult,
            CashSearchError,
        >(CashSearchError::NoBudget),
        always_rejects(*accepts, 0) && search_ceiling(budget_won) > 0 && always_rejects(
            *accepts,
            search_ceiling(budget_won),
        ) ==> r == Err::<ThresholdSearchResult, CashSearchError>(
            CashSearchError::CeilingRejected(search_ceiling(budget_won)),
        ),
        monotone_policy(*accepts) ==> match r {
            Ok(res) => forall|c: u64, o: (bool, bool)|
                c < res.requester_cash && #[trigger] call_ensures(*accepts, (c,), o) ==> !o.0,
            Err(e) => e is NoBudget || e is CeilingRejected,
        },
{
    let max_cash: u64 = if budget_won < MAX_SEARCH_CASH_WON { budget_won } else { MAX_SEARCH_CASH_WON };
    let mut evaluation_count: usize = 0;
    let mut repeat_consistent = true;

    let (zero_cash_accepted, zero_repeat) = ask(accepts, 0);
    evaluation_count = evaluation_count + 1;
    repeat_consistent = repeat_consistent && zero_repeat;
    if zero_cash_accepted {
        return Ok(ThresholdSearchResult {
            requester_cash: 0,
            evaluation_count,
            repeat_consistent: zero_repeat,
            coarse_monotonic: true,
            boundary_verified: true,
            zero_cash_accepted: true,
            budget_ceiling_accepted: true,
        });
    }
    if max_cash == 0 {
        return Err(CashSearchError::NoBudget);
    }
    let (budget_ceiling_accepted, ceiling_repeat) = ask(accepts, max_cash);
    evaluation_count = evaluation_count + 1;
    repeat_consistent = repeat_consistent && ceiling_repeat;
    if !budget_ceiling_accepted {
        return Err(CashSearchError::CeilingRejected(max_cash));
    }
    proof {
        if monotone_policy(*accepts) {
            assert(call_ensures(*accepts, (0u64,), (zero_cash_accepted, zero_repeat)));
            assert(call_ensures(*accepts, (max_cash,), (budget_ceiling_accepted, ceiling_repeat)));
        }
    }

    // The scan over 65 evenly spaced amounts.
    let mut seen_accept = false;
    let mut coarse_monotonic = true;
    let ghost mut seen_cash: u64 = 0;
    let mut step: u64 = 0;
    while step <= 64
        invariant
            forall|c: u64| call_requires(*accepts, (c,)),
            0 < max_cash <= MAX_SEARCH_CASH_WON,
            max_cash == search_ceiling(budget_won),
            rejected_at(*accepts, 0),
            accepted_at(*accepts, max_cash),
            step <= 65,
            evaluation_count == 2 + step,
            seen_accept ==> accepted_at(*accepts, seen_cash),
            seen_accept && step <= 64 ==> seen_cash <= scan_cash(max_cash, step),
            monotone_policy(*accepts) ==> coarse_monotonic && repeat_consistent,
        decreases 65 - step,
    {
        proof {
            lemma_scan_cash_bounds(max_cash, step);
        }
        let cash: u64 = if step == 64 {
            max_cash
        } else {
            proof {
                assert(max_cash as int * step as int <= 64 * 9_000_000_000_000_000) by (nonlinear_arith)
                    requires
                        max_cash <= 9_000_000_000_000_000u64,
                        step < 64,
                ;
            }
            ((max_cash as u128 * step as u128) / 64u128) as u64
        };
        assert(cash as int == scan_cash(max_cash, step));
        let (accepted, repeat) = ask(accepts, cash);
        evaluation_count = evaluation_count + 1;
        repeat_consistent = repeat_consistent && repeat;
        proof {
            if monotone_policy(*accepts) {
                assert(call_ensures(*accepts, (cash,), (accepted, repeat)));
                if seen_accept && !accepted {
                    lemma_monotone_order(*accepts, seen_cash, cash);
                }
            }
        }
        if accepted {
            seen_accept = true;
            proof {
                seen_cash = cash;
            }
        } else if seen_accept {
            coarse_monotonic = false;
        }
        proof {
            if seen_accept && step < 64 {
                lemma_scan_cash_monotone(max_cash, step, (step + 1) as u64);
            }
        }
        step = step + 1;
    }
    if !coarse_monotonic {
        return Err(CashSearchError::NonMonotonic);
    }

    // Bisection between a rejected and an accepted amount.
    let mut low_rejected: u64 = 0;
    let mut high_accepted: u64 = max_cash;
    let ghost mut halvings: nat = 0;
    proof {
        lemma2_to64();
        vstd::arithmetic::power2::lemma_pow2_adds(32, 22);
        assert(pow2(54) == 18014398509481984) by (nonlinear_arith)
            requires
                pow2(54) == pow2(32) * pow2(22),
                pow2(32) == 0x100000000,
                pow2(22) == 0x400000,
        ;
    }
    while low_rejected + 1 < high_accepted
        invariant
            forall|c: u64| call_requires(*accepts, (c,)),
            0 < max_cash <= MAX_SEARCH_CASH_WON,
            max_cash == search_ceiling(budget_won),
            low_rejected < high_accepted <= max_cash,
            rejected_at(*accepts, low_rejected),
            accepted_at(*accepts, high_accepted),
            evaluation_count == 67 + halvings,
            halvings <= 54,
            (high_accepted - low_rejected) * pow2(halvings) <= max_cash + pow2(halvings),
            pow2(54) == 18014398509481984,
            monotone_policy(*accepts) ==> repeat_consistent,
        decreases high_accepted - low_rejected,
    {
        let ghost gap: int = high_accepted - low_rejected;
        let ghost p: nat = pow2(halvings);
        proof {
            assert(p <= max_cash as int) by (nonlinear_arith)
                requires
                    gap >= 2,
                    gap * p <= max_cash + p,
                    p >= 0,
            ;
            if halvings >= 54 {
                if halvings > 54 {
                    lemma_pow2_strictly_increases(54, halvings);
                }
                assert(false);
            }
            lemma_pow2_unfold(halvings + 1);
        }
        let mid = low_rejected + (high_accepted - low_rejected) / 2;
        let (accepted, repeat) = ask(accepts, mid);
        evaluation_count = evaluation_count + 1;
        repeat_consistent = repeat_consistent && repeat;
        proof {
            if monotone_policy(*accepts) {
                assert(call_ensures(*accepts, (mid,), (accepted, repeat)));
            }
        }
        if accepted {
            high_accepted = mid;
        } else {
            low_rejected = mid;
        }
        proof {
            let ng: int = high_accepted - low_rejected;
            assert(2 * ng <= gap + 1);
            assert(ng * (2 * p) <= max_cash + 2 * p) by (nonlinear_arith)
                requires
                    2 * ng <= gap + 1,
                    gap * p <= max_cash + p,
                    p >= 0,
                    ng >= 0,
            ;
            halvings = halvings + 1;
        }
    }

    let requester_cash = high_accepted;
    let (exact_accepted, exact_repeat) = ask(accepts, requester_cash);
    evaluation_count = evaluation_count + 1;
    repeat_consistent = repeat_consistent && exact_repeat;

    let below = requester_cash - 1;
    let (below_accepted, below_repeat) = ask(accepts, below);
    evaluation_count = evaluation_count + 1;
    repeat_consistent = repeat_consistent && below_repeat;

    let (above_accepted, above_repeat) = ask(accepts, requester_cash + 1);
    evaluation_count = evaluation_count + 1;
    repeat_consistent = repeat_consistent && above_repeat;

    proof {
        if monotone_policy(*accepts) {
            assert(call_ensures(*accepts, (requester_cash,), (exact_accepted, exact_repeat)));
            assert(call_ensures(*accepts, (below,), (below_accepted, below_repeat)));
            assert(call_ensures(*accepts, ((requester_cash + 1) as u64,), (above_accepted, above_repeat)));
            if !exact_accepted {
                lemma_monotone_order(*accepts, high_accepted, requester_cash);
            }
            if below_accepted {
                lemma_monotone_order(*accepts, below, low_rejected);
            }
            if !above_accepted {
                lemma_monotone_order(*accepts, high_accepted, (requester_cash + 1) as u64);
            }
        }
    }
    let boundary_verified = exact_accepted && above_accepted && !below_accepted;
    if !repeat_consistent {
        return Err(CashSearchError::NotDeterministic);
    }
    if !boundary_verified {
        return Err(CashSearchError::BoundaryUnverified);
    }
    proof {
        if monotone_policy(*accepts) {
            assert forall|c: u64, o: (bool, bool)|
                c < requester_cash && #[trigger] call_ensures(*accepts, (c,), o) implies !o.0 by {
                assert(call_ensures(*accepts, (below,), (below_accepted, below_repeat)));
                if o.0 {
                    assert(c <= below);
                }
            }
        }
    }
    Ok(ThresholdSearchResult {
        requester_cash,
        evaluation_count,
        repeat_consistent,
        coarse_monotonic,
        boundary_verified,
        zero_cash_accepted: false,
        budget_ceiling_accepted,
    })
}

} // verus!

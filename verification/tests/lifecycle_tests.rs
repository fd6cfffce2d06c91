use lib::cash_search::{find_exact_requester_cash, CashSearchError, MAX_SEARCH_CASH_WON};
use lib::lifecycle::{
    apply_lifecycle_outcome, async_time_reached, explicit_async_rejection_policy, lifecycle_due,
    new_async_proposal, player_review_decision, rejection_policy, rejection_reason_short, review_failure_kind,
    seller_review_decision, LifecycleDecision, LifecycleDue, LifecycleOutcome, ProposalDraft, RejectionKind,
    ReviewFlags,
};
use lib::order::lex_less;
use lib::proposal::{AsyncTradeProposal, AsyncTradeState};
use lib::trade::{async_proposal_id, athlete_trade_fingerprint, AthleteTradeSnapshot};

fn snap(id: usize, team: usize) -> AthleteTradeSnapshot {
    AthleteTradeSnapshot {
        id,
        name: "Jue".to_string(),
        team_id: team,
        start_date: "2025-01-01".to_string(),
        end_date: "2027-12-31".to_string(),
        weekly_salary_bits: 0x40C3_8800_0000_0000,
        transfer_fee_bits: 0,
        incentives_debug: "[]".to_string(),
        transfer_requests_debug: "[]".to_string(),
        recruit_requests_debug: "[]".to_string(),
        squad_status_debug: "Important".to_string(),
    }
}

fn draft() -> ProposalDraft {
    ProposalDraft {
        requester_team_id: 7,
        recipient_team_id: 0,
        offered_id: 1512,
        target_id: 1514,
        offered_name: "Jue".to_string(),
        target_name: "Zeus".to_string(),
        region_id: 2,
        proposed_units: 20734,
        proposed_cash_won: 207_340_000,
        desired_status_choice: 1,
        display_min_units: 15000,
        display_max_units: 33000,
        display_lower_percent: 72,
        display_upper_percent: 158,
        submitted_at: "2026-01-05 09:00:00".to_string(),
        seller_due_at: "2026-01-07 09:00:00".to_string(),
        package_fingerprint: 99,
        submit_process_id: 4242,
    }
}

fn fresh() -> AsyncTradeProposal {
    new_async_proposal(draft(), &snap(1512, 7), &snap(1514, 0))
}

fn flags(budget: bool, required: bool, seller: bool, repeat: bool, player: bool) -> ReviewFlags {
    ReviewFlags {
        cash_within_budget: budget,
        cash_meets_required: required,
        seller_accepted: seller,
        seller_repeat_consistent: repeat,
        player_accepted: player,
    }
}

#[test]
fn time_ordering_is_lexicographic() {
    assert!(async_time_reached("2026-01-07 09:00:00", "2026-01-07 09:00:00"));
    assert!(async_time_reached("2026-01-08 00:00:00", "2026-01-07 09:00:00"));
    assert!(!async_time_reached("2026-01-06 23:59:59", "2026-01-07 09:00:00"));
    assert!(!async_time_reached("2026-01-08 00:00:00", ""));
    let a: Vec<char> = "abc".chars().collect();
    let b: Vec<char> = "abd".chars().collect();
    let c: Vec<char> = "ab".chars().collect();
    assert!(lex_less(&a, &b));
    assert!(!lex_less(&b, &a));
    assert!(lex_less(&c, &a));
    assert!(!lex_less(&a, &a));
}

#[test]
fn new_proposal_starts_in_seller_review() {
    let p = fresh();
    assert_eq!(p.schema_version, 1);
    assert_eq!(p.state, AsyncTradeState::SellerReview);
    assert_eq!(p.proposal_id, async_proposal_id(7, 0, 1512, 1514, 207_340_000, 1, "2026-01-05 09:00:00", 4242));
    assert_eq!(p.proposal_id, "T77-24AA020ACF9A6AA8");
    assert_eq!(p.desired_status_key, "important");
    assert_eq!(p.offered_contract_fingerprint_at_submit, athlete_trade_fingerprint(&snap(1512, 7)));
    assert_eq!(p.offered_contract_fingerprint_at_submit, 824357968699664942);
    assert_eq!(p.target_contract_fingerprint_at_submit, athlete_trade_fingerprint(&snap(1514, 0)));
    assert_eq!(p.transition_count, 0);
    assert!(p.player_due_at.is_empty() && p.completed_at.is_empty() && p.result_plan_id.is_empty());
}

#[test]
fn due_reviews_follow_the_state() {
    let mut p = fresh();
    assert_eq!(lifecycle_due(&p, "2026-01-06 09:00:00"), LifecycleDue::Idle);
    assert_eq!(lifecycle_due(&p, "2026-01-07 09:00:00"), LifecycleDue::SellerReview);
    apply_lifecycle_outcome(
        &mut p,
        LifecycleOutcome::PlayerReviewScheduled { player_due_at: "2026-01-08 09:00:00".to_string() },
    );
    assert_eq!(p.state, AsyncTradeState::PlayerReview);
    assert_eq!(p.transition_count, 1);
    assert_eq!(lifecycle_due(&p, "2026-01-07 12:00:00"), LifecycleDue::Idle);
    assert_eq!(lifecycle_due(&p, "2026-01-08 09:00:00"), LifecycleDue::PlayerReview);
    apply_lifecycle_outcome(
        &mut p,
        LifecycleOutcome::Committed {
            completed_at: "2026-01-08 09:00:00".to_string(),
            plan_id: "T60-B820279F60A4112B".to_string(),
            commit_process_id: 5151,
        },
    );
    assert_eq!(p.state, AsyncTradeState::Accepted);
    assert_eq!(p.transition_count, 2);
    assert_eq!(p.success_news_id, p.proposal_id);
    assert_eq!(p.result_plan_id, "T60-B820279F60A4112B");
    assert_eq!(p.commit_process_id, 5151);
    assert_eq!(lifecycle_due(&p, "2099-01-01 00:00:00"), LifecycleDue::Idle);
}

#[test]
fn rejection_finishes_the_proposal() {
    let mut p = fresh();
    let policy = rejection_policy(RejectionKind::BudgetExceeded);
    apply_lifecycle_outcome(
        &mut p,
        LifecycleOutcome::Rejected {
            actor: policy.actor.to_string(),
            reason: policy.reason.to_string(),
            reason_ko: policy.reason_ko.to_string(),
            completed_at: "2026-01-07 09:00:00".to_string(),
        },
    );
    assert_eq!(p.state, AsyncTradeState::Rejected);
    assert_eq!(p.rejection_actor, "REQUESTER_TEAM_BUDGET");
    assert_eq!(p.rejection_reason, "BudgetExceeded");
    assert_eq!(p.completed_at, "2026-01-07 09:00:00");
    assert_eq!(p.transition_count, 1);
    assert_eq!(lifecycle_due(&p, "2099-01-01 00:00:00"), LifecycleDue::Idle);
}

#[test]
fn transition_count_saturates() {
    let mut p = fresh();
    p.transition_count = u32::MAX;
    apply_lifecycle_outcome(
        &mut p,
        LifecycleOutcome::PlayerReviewScheduled { player_due_at: "2026-01-08 09:00:00".to_string() },
    );
    assert_eq!(p.transition_count, u32::MAX);
}

#[test]
fn rejection_policies() {
    let p = rejection_policy(RejectionKind::SellerReplacementUnavailable);
    assert_eq!(p.actor, "SELLER_TEAM");
    assert_eq!(p.reason, "SellerReplacementUnavailable");
    assert_eq!(p.policy, "changed_package_immediate_same_offer_1d");
    assert_eq!(p.retry_days, 1);
    assert!(p.changeable);
    let p = rejection_policy(RejectionKind::TargetPlayerRejected);
    assert_eq!(p.actor, "TARGET_PLAYER");
    assert_eq!(p.reason, "InheritedContractOrPromisedRoleUnacceptable");
    let p = explicit_async_rejection_policy("TargetPlayerRejected");
    assert_eq!(p.actor, "TARGET_PLAYER");
    let p = explicit_async_rejection_policy("BudgetExceeded");
    assert_eq!(p.reason_ko, "신청팀이 현재 제안 조건을 감당할 예산이 부족합니다.");
    let p = explicit_async_rejection_policy("whatever");
    assert_eq!(p.reason, "TermsUnacceptable");
    assert_eq!(p.actor, "SELLER_TEAM");
}

#[test]
fn failure_kinds_and_short_reasons() {
    assert_eq!(review_failure_kind("x SELLER_REPLACEMENT_UNAVAILABLE y"), RejectionKind::SellerReplacementUnavailable);
    assert_eq!(review_failure_kind("over budget"), RejectionKind::BudgetExceeded);
    assert_eq!(review_failure_kind("other"), RejectionKind::TermsUnacceptable);
    assert_eq!(rejection_reason_short("BudgetExceeded"), "신청팀 예산 초과");
    assert_eq!(rejection_reason_short("LastPlayerAtPosition"), "상대팀 포지션 공백 위험");
    assert_eq!(rejection_reason_short("TermsUnacceptable"), "선수·현금 조건 불충족");
    assert_eq!(rejection_reason_short("StatusOrInheritedSalaryUnacceptable"), "약속 위상·승계 계약 불수락");
    assert_eq!(rejection_reason_short("FinalApprovalRejected"), "최종 승인 거절");
    assert_eq!(rejection_reason_short("?"), "승인 조건 불충족");
}

#[test]
fn seller_review_decisions() {
    let ok = Ok(flags(true, true, true, true, false));
    assert_eq!(seller_review_decision(false, &ok), LifecycleDecision::Reject(RejectionKind::TermsUnacceptable));
    assert_eq!(seller_review_decision(true, &ok), LifecycleDecision::AdvanceToPlayerReview);
    assert_eq!(
        seller_review_decision(true, &Ok(flags(false, false, false, false, false))),
        LifecycleDecision::Reject(RejectionKind::BudgetExceeded)
    );
    assert_eq!(
        seller_review_decision(true, &Ok(flags(true, true, true, false, true))),
        LifecycleDecision::Reject(RejectionKind::TermsUnacceptable)
    );
    assert_eq!(
        seller_review_decision(true, &Err("SELLER_REPLACEMENT_UNAVAILABLE".to_string())),
        LifecycleDecision::Reject(RejectionKind::SellerReplacementUnavailable)
    );
}

#[test]
fn player_review_decisions() {
    assert_eq!(player_review_decision(&Ok(flags(true, true, true, true, true))), LifecycleDecision::Commit);
    assert_eq!(
        player_review_decision(&Ok(flags(true, true, true, true, false))),
        LifecycleDecision::Reject(RejectionKind::TargetPlayerRejected)
    );
    assert_eq!(
        player_review_decision(&Ok(flags(false, true, true, true, true))),
        LifecycleDecision::Reject(RejectionKind::TermsUnacceptable)
    );
    assert_eq!(
        player_review_decision(&Err("budget too small".to_string())),
        LifecycleDecision::Reject(RejectionKind::BudgetExceeded)
    );
}

#[test]
fn cash_search_finds_exact_threshold() {
    let threshold: u64 = 1234;
    let oracle = |c: u64| (c >= threshold, true);
    let r = find_exact_requester_cash(1_000_000, &oracle).unwrap();
    assert_eq!(r.requester_cash, 1234);
    assert!(r.repeat_consistent && r.coarse_monotonic && r.boundary_verified && r.budget_ceiling_accepted);
    assert!(!r.zero_cash_accepted);
    assert!(r.evaluation_count >= 70 && r.evaluation_count <= 124);
}

#[test]
fn cash_search_threshold_at_ceiling_and_zero() {
    let oracle = |c: u64| (c >= 1_000_000, true);
    assert_eq!(find_exact_requester_cash(1_000_000, &oracle).unwrap().requester_cash, 1_000_000);
    let free = |_c: u64| (true, true);
    let r = find_exact_requester_cash(500, &free).unwrap();
    assert_eq!(r.requester_cash, 0);
    assert!(r.zero_cash_accepted);
    assert_eq!(r.evaluation_count, 1);
    let big = |c: u64| (c >= 8_000_000_000_000_000, true);
    assert_eq!(find_exact_requester_cash(u64::MAX, &big).unwrap().requester_cash, 8_000_000_000_000_000);
    assert!(MAX_SEARCH_CASH_WON >= 8_000_000_000_000_000);
}

#[test]
fn cash_search_errors() {
    let never = |_c: u64| (false, true);
    assert_eq!(find_exact_requester_cash(0, &never), Err(CashSearchError::NoBudget));
    assert_eq!(find_exact_requester_cash(5000, &never), Err(CashSearchError::CeilingRejected(5000)));
    let window = |c: u64| (c >= 100 && c < 200, true);
    assert_eq!(find_exact_requester_cash(6400, &window), Err(CashSearchError::CeilingRejected(6400)));
    let bumpy = |c: u64| (c == 1000 || c >= 5000, true);
    assert_eq!(find_exact_requester_cash(6400, &bumpy), Err(CashSearchError::NonMonotonic));
    let flaky = |c: u64| (c >= 300, c != 0);
    assert_eq!(find_exact_requester_cash(6400, &flaky), Err(CashSearchError::NotDeterministic));
}

#[test]
fn cash_search_early_outcomes_for_any_rule() {
    // zero accepted wins even when the rule is not a threshold
    let odd = |c: u64| (c == 0 || c == 5000, c == 0);
    let r = find_exact_requester_cash(6400, &odd).unwrap();
    assert_eq!((r.requester_cash, r.evaluation_count, r.zero_cash_accepted), (0, 1, true));
    // the repetition of the zero evaluation is reported as it came
    let wavering = |c: u64| (true, c != 0);
    assert!(!find_exact_requester_cash(10, &wavering).unwrap().repeat_consistent);
    // a rejected ceiling wins over a non-monotone middle
    let middle = |c: u64| (c == 3200, true);
    assert_eq!(find_exact_requester_cash(6400, &middle), Err(CashSearchError::CeilingRejected(6400)));
    // a result has the amount above it accepted
    let r = find_exact_requester_cash(1_000_000, &|c: u64| (c >= 777, true)).unwrap();
    assert_eq!(r.requester_cash, 777);
}

#[test]
fn submitted_proposal_reaches_player_review() {
    let mut p = fresh();
    assert_eq!(p.state, AsyncTradeState::SellerReview);
    let due = p.seller_due_at.clone();
    assert_eq!(lifecycle_due(&p, &due), LifecycleDue::SellerReview);
    let review = flags(true, true, true, true, false);
    assert_eq!(seller_review_decision(true, &Ok(review)), LifecycleDecision::AdvanceToPlayerReview);
    apply_lifecycle_outcome(&mut p, LifecycleOutcome::PlayerReviewScheduled { player_due_at: "2026-01-08 09:00:00".to_string() });
    assert_eq!(p.state, AsyncTradeState::PlayerReview);
    assert_eq!(p.player_due_at, "2026-01-08 09:00:00");
    assert_eq!(p.transition_count, 1);
    assert_eq!(lifecycle_due(&p, &due), LifecycleDue::Idle);
    assert_eq!(lifecycle_due(&p, "2026-01-08 09:00:00"), LifecycleDue::PlayerReview);
}

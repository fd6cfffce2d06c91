use lib::commit::{
    apply_batch, rollback_exact, rollback_of, save_commit, undo_commit, FinanceBits, SaveSlots, TradeBatch, TradeWorld,
};
use lib::news::{record_lifecycle_step, success_news, NewsItem, StepError};
use lib::lifecycle::LifecycleOutcome;
use lib::proposal::{AsyncTradeProposal, AsyncTradeState};
use lib::receipt::{encode_trade_commit_receipt, rotate_receipts, TradeCommitReceipt};
use lib::requests::{transfer_request_sync, RequestSync};
use lib::season::{mark_trade_season_used, RecruitWindow, YearSchedule};
use lib::status::SquadStatus;

fn world() -> TradeWorld {
    TradeWorld {
        offered_team: 7,
        target_team: 3,
        target_status: SquadStatus::General,
        target_contracted: None,
        requester_finance: FinanceBits { total: 10, transfer: 11, salary: 12 },
        recipient_finance: FinanceBits { total: 20, transfer: 21, salary: 22 },
        save: SaveSlots { registry: Some(vec![1, 2]), receipt: None, previous_receipt: None, oldest_receipt: None, season: None },
    }
}

fn batch() -> TradeBatch {
    TradeBatch {
        offered_destination: 3,
        target_destination: 7,
        promised_status: SquadStatus::Important,
        requester_finance_after: FinanceBits { total: 5, transfer: 6, salary: 12 },
        recipient_finance_after: FinanceBits { total: 25, transfer: 26, salary: 22 },
    }
}

#[test]
fn commit_is_all_or_nothing() {
    let mut w = world();
    let r = rollback_of(&w);
    apply_batch(&mut w, &batch());
    assert_eq!((w.offered_team, w.target_team, w.target_status), (3, 7, SquadStatus::Important));
    assert_eq!(w.target_contracted, Some(SquadStatus::Important));
    assert!(!rollback_exact(&w, &r));
    save_commit(&mut w, SaveSlots { registry: Some(vec![9]), receipt: Some(vec![8]), previous_receipt: None, oldest_receipt: None, season: Some(vec![7]) });
    undo_commit(&mut w, &r);
    assert!(rollback_exact(&w, &r));
    assert_eq!(w, world());
    // rehearsal: undo then apply again gives the applied world back
    let mut a = world();
    apply_batch(&mut a, &batch());
    let mut rehearsed = world();
    apply_batch(&mut rehearsed, &batch());
    undo_commit(&mut rehearsed, &r);
    apply_batch(&mut rehearsed, &batch());
    assert_eq!(rehearsed, a);
}

#[test]
fn requests_sync() {
    assert_eq!(transfer_request_sync(&[4, 7, 9, 7, 2], 7, false), RequestSync::Removed(vec![0, 2, 4]));
    assert_eq!(transfer_request_sync(&[4, 9], 7, false), RequestSync::Absent);
    assert_eq!(transfer_request_sync(&[], 7, false), RequestSync::Absent);
    assert_eq!(transfer_request_sync(&[4, 7, 7], 7, true), RequestSync::Updated(1));
    assert_eq!(transfer_request_sync(&[4, 9], 7, true), RequestSync::Inserted);
}

fn receipt(plan: &str) -> TradeCommitReceipt {
    TradeCommitReceipt {
        schema_version: 2,
        plan_id: plan.to_string(),
        commit_process_id: 1,
        commit_game_time: "2026-01-08 09:00:00".to_string(),
        requester_team_id: 7,
        recipient_team_id: 3,
        offered_id: 1,
        target_id: 2,
        offered_name: "A".to_string(),
        target_name: "B".to_string(),
        proposed_cash_won: 0,
        desired_status_choice: 1,
        desired_status_key: "important".to_string(),
        offered_team_after: 3,
        target_team_after: 7,
        target_status_after: "Important".to_string(),
        offered_contracted_status_after: "None".to_string(),
        target_contracted_status_after: "Some(Important)".to_string(),
        rollback_rehearsal_verified: true,
        offered_contract_fingerprint: 1,
        target_contract_fingerprint: 2,
        requester_total_bits: 0,
        requester_transfer_bits: 0,
        requester_salary_bits: 0,
        recipient_total_bits: 0,
        recipient_transfer_bits: 0,
        recipient_salary_bits: 0,
        requester_roster_after: 5,
        recipient_roster_after: 5,
        contracted_after: 100,
        requester_payroll_bits: 0,
        recipient_payroll_bits: 0,
        requester_news_count: 0,
        recipient_news_count: 0,
        executed_plan_registry_count: 1,
    }
}

#[test]
fn receipts_rotate() {
    let new = receipt("T60-0000000000000003");
    let s = rotate_receipts(Some(b"second"), Some(b"first"), &new);
    assert_eq!(s.current, encode_trade_commit_receipt(&new));
    assert_eq!(s.previous, Some(b"second".to_vec()));
    assert_eq!(s.oldest, Some(b"first".to_vec()));
    let s = rotate_receipts(None, None, &new);
    assert_eq!((s.previous, s.oldest), (None, None));
    let s = rotate_receipts(Some(b"only"), None, &new);
    assert_eq!((s.previous, s.oldest), (Some(b"only".to_vec()), None));
}

#[test]
fn season_marking() {
    let schedules = vec![YearSchedule {
        id: 3,
        year: 2026,
        recruits: vec![RecruitWindow { start: "2026-01-01".to_string(), end: "2026-01-20".to_string() }],
    }];
    let mut slot = Some(b"old".to_vec());
    assert_eq!(mark_trade_season_used(&mut slot, &schedules, "2026-03-01"), None);
    assert_eq!(slot, Some(b"old".to_vec()));
    assert_eq!(mark_trade_season_used(&mut slot, &schedules, "2026-01-05"), Some("3|2026|2026-01-01".to_string()));
    assert_eq!(slot, Some(b"3|2026|2026-01-01".to_vec()));
    assert!(lib::season::trade_season_already_used(slot.as_deref(), Some("3|2026|2026-01-01")));
}

fn proposal(state: AsyncTradeState) -> AsyncTradeProposal {
    AsyncTradeProposal {
        schema_version: 1,
        proposal_id: "T77-24AA020ACF9A6AA8".to_string(),
        state,
        requester_team_id: 7,
        recipient_team_id: 3,
        offered_id: 1512,
        target_id: 1514,
        offered_name: "Jue".to_string(),
        target_name: "Zeus".to_string(),
        region_id: 2,
        proposed_units: 20734,
        proposed_cash_won: 207_340_000,
        desired_status_choice: 1,
        desired_status_key: "important".to_string(),
        display_min_units: 15000,
        display_max_units: 33000,
        display_lower_percent: 72,
        display_upper_percent: 158,
        submitted_at: "2026-01-05 09:00:00".to_string(),
        seller_due_at: "2026-01-07 09:00:00".to_string(),
        player_due_at: "2026-01-08 09:00:00".to_string(),
        completed_at: String::new(),
        package_fingerprint: 1,
        offered_contract_fingerprint_at_submit: 2,
        target_contract_fingerprint_at_submit: 3,
        result_plan_id: String::new(),
        rejection_actor: String::new(),
        rejection_reason: String::new(),
        rejection_reason_ko: String::new(),
        success_news_id: String::new(),
        transition_count: 1,
        submit_process_id: 4242,
        commit_process_id: 0,
    }
}

fn committed(plan: &str) -> LifecycleOutcome {
    LifecycleOutcome::Committed {
        completed_at: "2026-01-08 09:00:00".to_string(),
        plan_id: plan.to_string(),
        commit_process_id: 9,
    }
}

#[test]
fn lifecycle_steps_on_the_store() {
    let plan = "T60-0000000000000003";
    let registry = vec!["T60-0000000000000001".to_string(), plan.to_string()];
    let mut news: Vec<NewsItem> = Vec::new();
    let mut p = proposal(AsyncTradeState::PlayerReview);
    assert_eq!(record_lifecycle_step(&mut p, &registry, &mut news, committed(plan), "Gen.G", "T1"), Ok(()));
    assert_eq!(p.state, AsyncTradeState::Accepted);
    assert_eq!(p.result_plan_id, plan);
    assert_eq!(p.transition_count, 2);
    assert_eq!(news.len(), 1);
    // a commit out of step, or with its plan missing, changes nothing
    let mut q = proposal(AsyncTradeState::SellerReview);
    let before = proposal(AsyncTradeState::SellerReview);
    assert_eq!(record_lifecycle_step(&mut q, &registry, &mut news, committed(plan), "Gen.G", "T1"), Err(StepError::OutOfStep));
    assert_eq!(q, before);
    let mut q = proposal(AsyncTradeState::PlayerReview);
    assert_eq!(
        record_lifecycle_step(&mut q, &registry, &mut news, committed("T60-0000000000000009"), "Gen.G", "T1"),
        Err(StepError::PlanNotRecordedOnce(0))
    );
    assert_eq!(q, proposal(AsyncTradeState::PlayerReview));
    // two announcements already: refused, nothing written
    let mut crowded = vec![success_news(&p, "Gen.G", "T1"), success_news(&p, "Gen.G", "T1")];
    let mut q = proposal(AsyncTradeState::PlayerReview);
    assert!(matches!(record_lifecycle_step(&mut q, &registry, &mut crowded, committed(plan), "Gen.G", "T1"), Err(StepError::News(_))));
    assert_eq!(crowded.len(), 2);
    assert_eq!(q.state, AsyncTradeState::PlayerReview);
    // a rejection from the seller's review
    let mut r = proposal(AsyncTradeState::SellerReview);
    let reject = LifecycleOutcome::Rejected {
        actor: "SELLER_TEAM".to_string(),
        reason: "TermsUnacceptable".to_string(),
        reason_ko: "조건 불충분".to_string(),
        completed_at: "2026-01-07 09:00:00".to_string(),
    };
    assert_eq!(record_lifecycle_step(&mut r, &registry, &mut news, reject, "Gen.G", "T1"), Ok(()));
    assert_eq!(r.state, AsyncTradeState::Rejected);
    assert_eq!(news.len(), 1);
}

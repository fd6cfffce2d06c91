use lib::commit::{
    batch_effect_check, next_plan_registry, persisted_commit_verified, prepare_receipt_for_persistence,
    receipt_is_first_trade, receipt_is_fresh_trade, receipt_is_second_trade, remember_executed_plan,
    saved_trade_validation_payload, sealed_command_precheck, AtomicError, BatchEffects, PersistError,
    SealedPrecheck,
};
use lib::receipt::TradeCommitReceipt;
use lib::status::SquadStatus;
use lib::trade::AthleteTradeSnapshot;

fn receipt(plan_id: &str) -> TradeCommitReceipt {
    TradeCommitReceipt {
        schema_version: 2,
        plan_id: plan_id.to_string(),
        commit_process_id: 4242,
        commit_game_time: "2026-01-08 09:00:00".to_string(),
        requester_team_id: 7,
        recipient_team_id: 0,
        offered_id: 1512,
        target_id: 1514,
        offered_name: "Jue".to_string(),
        target_name: "Zeus".to_string(),
        proposed_cash_won: 207_340_000,
        desired_status_choice: 1,
        desired_status_key: "important".to_string(),
        offered_team_after: 0,
        target_team_after: 7,
        target_status_after: "Important".to_string(),
        offered_contracted_status_after: "None".to_string(),
        target_contracted_status_after: "Some(Important)".to_string(),
        rollback_rehearsal_verified: true,
        offered_contract_fingerprint: 11,
        target_contract_fingerprint: 12,
        requester_total_bits: 13,
        requester_transfer_bits: 14,
        requester_salary_bits: 15,
        recipient_total_bits: 16,
        recipient_transfer_bits: 17,
        recipient_salary_bits: 18,
        requester_roster_after: 9,
        recipient_roster_after: 10,
        contracted_after: 300,
        requester_payroll_bits: 19,
        recipient_payroll_bits: 20,
        requester_news_count: 3,
        recipient_news_count: 4,
        executed_plan_registry_count: 0,
    }
}

fn ids(v: &[&str]) -> Vec<String> {
    v.iter().map(|s| s.to_string()).collect()
}

fn snap(team: usize, status: &str) -> AthleteTradeSnapshot {
    AthleteTradeSnapshot {
        id: 1512,
        name: "Jue".to_string(),
        team_id: team,
        start_date: "2025-01-01".to_string(),
        end_date: "2027-12-31".to_string(),
        weekly_salary_bits: 0x40C3_8800_0000_0000,
        transfer_fee_bits: 0,
        incentives_debug: "[]".to_string(),
        transfer_requests_debug: "[]".to_string(),
        recruit_requests_debug: "[]".to_string(),
        squad_status_debug: status.to_string(),
    }
}

fn target_snap(team: usize, status: &str) -> AthleteTradeSnapshot {
    AthleteTradeSnapshot { id: 1514, name: "Zeus".to_string(), ..snap(team, status) }
}

fn precheck() -> SealedPrecheck {
    SealedPrecheck {
        overall_approved: true,
        plan_repeat_consistent: true,
        recruit_open: true,
        now: "2026-01-08 09:00:00".to_string(),
        prepared_game_time: "2026-01-08 09:00:00".to_string(),
        offered_team_before: 7,
        target_team_before: 0,
        requester_team_id: 7,
        recipient_team_id: 0,
        requester_roster: 9,
        recipient_roster: 10,
        sealed_requester_roster: 9,
        sealed_recipient_roster: 10,
        salaries_unchanged: true,
        finance_sufficient: true,
    }
}

fn effects() -> BatchEffects {
    BatchEffects {
        offered_before: snap(7, "General"),
        offered_after: snap(0, "General"),
        target_before: target_snap(0, "Sub"),
        target_after: target_snap(7, "Important"),
        offered_destination_team_id: 0,
        target_destination_team_id: 7,
        desired_status: SquadStatus::Important,
        offered_contracted_before: None,
        offered_contracted_after: "None".to_string(),
        target_contracted_after: "Some(Important)".to_string(),
        finance_deltas_ok: true,
        finance_conserved: true,
        rosters_before: (9, 10, 300),
        rosters_after: (9, 10, 300),
        payrolls_ok: true,
        mod_save_unchanged: true,
        news_unchanged: true,
        now: "2026-01-08 09:00:00".to_string(),
        prepared_game_time: "2026-01-08 09:00:00".to_string(),
        force_rollback_rehearsal: false,
        rollback_rehearsal_verified: true,
    }
}

#[test]
fn registry_refuses_a_plan_twice() {
    let reg = ids(&["T60-0000000000000002", "T60-0000000000000001"]);
    let next = next_plan_registry(&reg, &"T60-0000000000000003".to_string()).unwrap();
    assert_eq!(next, ids(&["T60-0000000000000001", "T60-0000000000000002", "T60-0000000000000003"]));
    assert_eq!(
        next_plan_registry(&next, &"T60-0000000000000002".to_string()),
        Err(PersistError::PlanAlreadyExecuted)
    );
    assert_eq!(next_plan_registry(&[], &"T60-0000000000000009".to_string()).unwrap(), ids(&["T60-0000000000000009"]));
}

#[test]
fn receipts_are_checked_before_persistence() {
    let mut r = receipt("T60-B820279F60A4112B");
    assert!(!receipt_is_fresh_trade(&r));
    let reg = prepare_receipt_for_persistence(&ids(&["T60-0000000000000001"]), &mut r).unwrap();
    assert_eq!(reg.len(), 2);
    assert_eq!(r.executed_plan_registry_count, 2);
    assert!(receipt_is_fresh_trade(&r));

    let mut again = receipt("T60-0000000000000001");
    assert_eq!(
        prepare_receipt_for_persistence(&ids(&["T60-0000000000000001"]), &mut again),
        Err(PersistError::PlanAlreadyExecuted)
    );

    let mut bad = receipt("T60-B820279F60A4112B");
    bad.desired_status_key = "core".to_string();
    assert_eq!(prepare_receipt_for_persistence(&[], &mut bad), Err(PersistError::ReceiptNotFresh));
    assert_eq!(bad.executed_plan_registry_count, 1);
}

#[test]
fn readback_is_verified() {
    let mut r = receipt("T60-B820279F60A4112B");
    r.executed_plan_registry_count = 2;
    let reg = ids(&["T60-0000000000000001", "T60-B820279F60A4112B"]);
    let id = "T60-B820279F60A4112B".to_string();
    assert!(persisted_commit_verified(&reg, 2, &id, &r, true));
    assert!(!persisted_commit_verified(&reg, 3, &id, &r, true));
    assert!(!persisted_commit_verified(&reg, 2, &id, &r, false));
    let twice = ids(&["T60-B820279F60A4112B", "T60-B820279F60A4112B"]);
    assert!(!persisted_commit_verified(&twice, 2, &id, &r, true));
}

#[test]
fn remembered_plans_are_kept_once() {
    let mut v = ids(&["a"]);
    remember_executed_plan(&mut v, "b".to_string());
    remember_executed_plan(&mut v, "a".to_string());
    remember_executed_plan(&mut v, "b".to_string());
    assert_eq!(v, ids(&["a", "b"]));
}

#[test]
fn historical_receipts() {
    let mut first = receipt("T60-89617444924FD838");
    first.schema_version = 1;
    first.executed_plan_registry_count = 1;
    assert!(receipt_is_first_trade(&first));
    assert!(!receipt_is_second_trade(&first));
    let mut second = receipt("T60-83270E3A33D2F105");
    second.schema_version = 1;
    second.offered_id = 1568;
    second.target_id = 1588;
    second.offered_name = "Zenit".to_string();
    second.target_name = "Fill".to_string();
    second.proposed_cash_won = 0;
    second.executed_plan_registry_count = 2;
    assert!(receipt_is_second_trade(&second));
    assert!(!receipt_is_first_trade(&second));
}

#[test]
fn validation_payload_text() {
    let bytes = saved_trade_validation_payload(true);
    let text = String::from_utf8(bytes).unwrap();
    assert!(text.starts_with("status=none\nreceipt_present=true\n"));
    assert!(text.ends_with("_validation_skipped=true\n"));
    let text = String::from_utf8(saved_trade_validation_payload(false)).unwrap();
    assert!(text.contains("receipt_present=false\n"));
}

#[test]
fn precheck_order() {
    assert_eq!(sealed_command_precheck(&precheck()), Ok(()));
    let p = SealedPrecheck { overall_approved: false, recruit_open: false, ..precheck() };
    assert_eq!(sealed_command_precheck(&p), Err(AtomicError::NotApproved));
    let p = SealedPrecheck { recruit_open: false, ..precheck() };
    assert_eq!(sealed_command_precheck(&p), Err(AtomicError::RecruitmentClosed));
    let p = SealedPrecheck { now: "2026-01-08 09:00:01".to_string(), ..precheck() };
    assert_eq!(sealed_command_precheck(&p), Err(AtomicError::GameTimeChanged));
    let p = SealedPrecheck { target_team_before: 7, ..precheck() };
    assert_eq!(sealed_command_precheck(&p), Err(AtomicError::OwnershipChanged));
    let p = SealedPrecheck { recipient_roster: 11, ..precheck() };
    assert_eq!(sealed_command_precheck(&p), Err(AtomicError::RosterChanged));
    let p = SealedPrecheck { salaries_unchanged: false, ..precheck() };
    assert_eq!(sealed_command_precheck(&p), Err(AtomicError::SalaryChanged));
    let p = SealedPrecheck { finance_sufficient: false, ..precheck() };
    assert_eq!(sealed_command_precheck(&p), Err(AtomicError::FinanceInsufficient));
}

#[test]
fn batch_effects_order() {
    assert_eq!(batch_effect_check(&effects()), Ok(()));
    let e = BatchEffects { offered_after: AthleteTradeSnapshot { end_date: "2030-01-01".to_string(), ..snap(0, "General") }, ..effects() };
    assert_eq!(batch_effect_check(&e), Err(AtomicError::ContractChanged));
    let e = BatchEffects { offered_after: snap(0, "Core"), ..effects() };
    assert_eq!(batch_effect_check(&e), Err(AtomicError::OfferedStatusChanged));
    let e = BatchEffects { target_after: target_snap(7, "Sub"), ..effects() };
    assert_eq!(batch_effect_check(&e), Err(AtomicError::TargetStatusNotApplied));
    let e = BatchEffects { target_contracted_after: "None".to_string(), ..effects() };
    assert_eq!(batch_effect_check(&e), Err(AtomicError::ContractedStatusNotExact));
    let e = BatchEffects { finance_deltas_ok: false, ..effects() };
    assert_eq!(batch_effect_check(&e), Err(AtomicError::FinanceDeltaMismatch));
    let e = BatchEffects { finance_conserved: false, ..effects() };
    assert_eq!(batch_effect_check(&e), Err(AtomicError::FinanceNotConserved));
    let e = BatchEffects { rosters_after: (8, 11, 300), ..effects() };
    assert_eq!(batch_effect_check(&e), Err(AtomicError::CountsChanged));
    let e = BatchEffects { payrolls_ok: false, ..effects() };
    assert_eq!(batch_effect_check(&e), Err(AtomicError::PayrollMismatch));
    let e = BatchEffects { news_unchanged: false, ..effects() };
    assert_eq!(batch_effect_check(&e), Err(AtomicError::UnexpectedMutation));
    let e = BatchEffects { now: "2026-01-09 09:00:00".to_string(), ..effects() };
    assert_eq!(batch_effect_check(&e), Err(AtomicError::GameTimeChangedDuringBatch));
    let e = BatchEffects { force_rollback_rehearsal: true, rollback_rehearsal_verified: false, ..effects() };
    assert_eq!(batch_effect_check(&e), Err(AtomicError::ForcedRollbackRehearsal));
    let e = BatchEffects { rollback_rehearsal_verified: false, ..effects() };
    assert_eq!(batch_effect_check(&e), Err(AtomicError::RehearsalNotVerified));
}

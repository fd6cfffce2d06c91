use lib::client::{handle_mod_event, lenient_usize, ClientMessage, ClientTradeState};
use lib::fields::DecodeError;
use lib::proposal::{AsyncTradeProposal, AsyncTradeState};
use lib::kv::parse_kv_payload;
use lib::payload::{async_submitted_payload, async_status_payload, AsyncStatusContext, execution_error_payload, server_error_payload, server_quote_payload, signed_decimal, QuotePayload};
use lib::views::{lenient_flag, lenient_num, lenient_text, parse_quote_view, ViewCheck, ViewError};

fn state() -> ClientTradeState {
    ClientTradeState {
        baseline_verified: false,
        validation_received: false,
        floor_audit_received: false,
        review_request_pending: true,
        async_status_query_pending: true,
        native_offer_status_query_pending: true,
        async_status_view: None,
        async_status_error: None,
        review_error: None,
        quote_error: None,
        quote_view: None,
        quote_ui_dirty: false,
        async_status_ui_dirty: false,
        return_to_profile_pending: false,
        season_used: false,
        native_offer_status_view: None,
        cash_input_state: 0,
    }
}

fn quote() -> QuotePayload {
    QuotePayload {
        requester_team_id: 7,
        recipient_team_id: 0,
        offered_id: 1512,
        target_id: 1514,
        region_id: 2,
        offered_name: "Jue".to_string(),
        target_name: "Ze\nus".to_string(),
        display_min_units: 9000,
        display_max_units: 20000,
        cash_budget_won: "1000000000".to_string(),
        budget_units: 100000,
        profile_label: "async".to_string(),
        game_time: "2026-01-05 09:00:00".to_string(),
        cooldown_present: false,
        cooldown_fingerprint: 0,
        cooldown_retry_at: String::new(),
        cooldown_changeable: true,
        cooldown_exempt: false,
    }
}

#[test]
fn signed_numerals() {
    let s: String = signed_decimal(-42).into_iter().collect();
    assert_eq!(s, "-42");
    let s: String = signed_decimal(i64::MIN).into_iter().collect();
    assert_eq!(s, "-9223372036854775808");
    let s: String = signed_decimal(7).into_iter().collect();
    assert_eq!(s, "7");
}

#[test]
fn error_payload_is_sanitized() {
    let bytes = server_error_payload("bad|thing\nhere");
    assert_eq!(String::from_utf8(bytes).unwrap(), "status=error\ndetail=bad thing here\n");
}

#[test]
fn quote_payload_reads_back() {
    let bytes = server_quote_payload(&quote());
    let text = String::from_utf8(bytes.clone()).unwrap();
    assert!(text.starts_with("status=ok\nrequester_team_id=7\n"));
    assert!(text.contains("\ntarget_name=Ze us\n"));
    assert!(text.contains("\ncash_range_obscured=true\nexact_threshold_disclosed=false\n"));
    let m = parse_kv_payload(&bytes).unwrap();
    let v = parse_quote_view(&m).unwrap();
    assert_eq!(v.offered_id, 1512);
    assert_eq!(v.target_id, 1514);
    assert_eq!(v.required_units, 9000);
    assert_eq!(v.cash_offer_max_units, 20000);
    assert_eq!(v.required_cash_won, 0);
    assert_eq!(v.target_name, "Ze us");
    assert_eq!(v.cash_budget_won, "1000000000");
    assert!(v.cooldown_changeable && !v.cooldown_present);
    assert_eq!(lenient_num(&m, "budget_units"), 100000);
    assert_eq!(lenient_num(&m, "missing"), 0);
    assert!(lenient_flag(&m, "cash_range_obscured", false));
    assert!(lenient_flag(&m, "missing", true));
    assert_eq!(lenient_text(&m, "profile", "x"), "async");
    assert_eq!(lenient_text(&m, "missing", "x"), "x");
    assert_eq!(lenient_usize(&m, "region_id", 9), 2);
    assert_eq!(lenient_usize(&m, "profile", 9), 9);
}

#[test]
fn quote_view_rejects_broken_promises() {
    let m = parse_kv_payload(b"cash_range_obscured=false\n").unwrap();
    assert_eq!(parse_quote_view(&m), Err(ViewError::Check(ViewCheck::QuoteContract)));
    let m = parse_kv_payload(b"cash_range_obscured=true\nexact_threshold_disclosed=true\n").unwrap();
    assert_eq!(parse_quote_view(&m), Err(ViewError::Check(ViewCheck::QuoteContract)));
    let m = parse_kv_payload(
        b"cash_range_obscured=true\nexact_threshold_disclosed=false\nrange_stable_for_pair=true\ndisplay_min_units=5\ndisplay_max_units=4\nbudget_units=1\n",
    )
    .unwrap();
    assert_eq!(parse_quote_view(&m), Err(ViewError::Check(ViewCheck::QuoteRange)));
    let m = parse_kv_payload(b"exact_threshold_disclosed=false\n").unwrap();
    assert_eq!(parse_quote_view(&m), Err(ViewError::Field(DecodeError::MissingKey("cash_range_obscured".to_string()))));
}

#[test]
fn client_takes_the_quote_for_the_selected_pair() {
    let bytes = server_quote_payload(&quote());
    let mut s = state();
    handle_mod_event(&mut s, "trade_quote_result", &bytes, 1512, 1514, 1);
    let v = s.quote_view.as_ref().unwrap();
    assert_eq!(v.required_units, 9000);
    assert!(s.quote_ui_dirty);
    assert_eq!(s.quote_error, None);

    let mut other = state();
    handle_mod_event(&mut other, "trade_quote_result", &bytes, 1512, 1600, 1);
    assert_eq!(other, state());
}

#[test]
fn client_keeps_quote_errors() {
    let mut s = state();
    handle_mod_event(&mut s, "trade_quote_result", &server_error_payload("athlete 9 was not found"), 1, 2, 1);
    assert_eq!(s.quote_error, Some(ClientMessage::Server("athlete 9 was not found".to_string())));
    assert_eq!(s.cash_input_state, 2);
    let mut s = state();
    handle_mod_event(&mut s, "trade_quote_result", b"status=weird\n", 1, 2, 1);
    assert_eq!(s.quote_error, Some(ClientMessage::UnexpectedStatus("weird".to_string())));
    let mut s = state();
    handle_mod_event(&mut s, "trade_quote_result", b"no equals here\n", 1, 2, 1);
    assert_eq!(
        s.quote_error,
        Some(ClientMessage::Read(ViewError::Field(DecodeError::NoEquals("no equals here".to_string()))))
    );
}

#[test]
fn client_other_events() {
    let mut s = state();
    handle_mod_event(&mut s, "saved_trade_commit_validation_result", b"status=none\n", 0, 0, 1);
    assert!(s.baseline_verified && s.validation_received);
    let mut s = state();
    handle_mod_event(&mut s, "saved_trade_commit_validation_result", b"status=broken\n", 0, 0, 1);
    assert!(!s.baseline_verified && !s.validation_received);
    let mut s = state();
    handle_mod_event(&mut s, "replacement_floor_audit_result", b"", 0, 0, 1);
    assert!(s.floor_audit_received);
    let mut s = state();
    handle_mod_event(&mut s, "unknown_event", b"status=none\n", 0, 0, 1);
    assert_eq!(s, state());
}

#[test]
fn client_submission_answers() {
    let mut s = state();
    handle_mod_event(
        &mut s,
        "async_trade_proposal_submit_result",
        b"status=submitted\nproposal_id=T77-24AA020ACF9A6AA8\nsubmitted_at=2026-01-05 09:00:00\n",
        0,
        0,
        4242,
    );
    assert!(!s.review_request_pending && s.return_to_profile_pending && s.async_status_ui_dirty);
    let v = s.async_status_view.as_ref().unwrap();
    assert!(v.proposal_present);
    assert_eq!(v.proposal_id, "T77-24AA020ACF9A6AA8");
    assert_eq!(v.state, "SellerReview");
    assert_eq!(v.game_time, "2026-01-05 09:00:00");
    assert_eq!(v.submit_process_id, 4242);
    assert_eq!(v.requester_team_id, 7);

    let mut s = state();
    handle_mod_event(&mut s, "async_trade_proposal_submit_result", b"status=error\n", 0, 0, 1);
    assert_eq!(s.review_error, Some(ClientMessage::Server("async proposal submission failed".to_string())));
    assert!(s.quote_ui_dirty && !s.review_request_pending);
}

#[test]
fn client_status_answers() {
    let game_time = "2026-01-05 09:00:00".to_string();
    let bytes = async_status_payload(true, &game_time, 77, None);
    assert_eq!(
        String::from_utf8(bytes.clone()).unwrap(),
        "status=none\nproposal_present=false\nseason_used=true\ngame_time=2026-01-05 09:00:00\ncurrent_process_id=77\ndatabase_mutation=false\n"
    );
    let mut s = state();
    handle_mod_event(&mut s, "async_trade_proposal_status_result", &bytes, 0, 0, 1);
    assert!(s.season_used);
    assert!(!s.async_status_query_pending);
    let v = s.async_status_view.as_ref().unwrap();
    assert!(!v.proposal_present);
}

#[test]
fn execution_error_payload_text() {
    let bytes = execution_error_payload("boom;x", true, false);
    assert_eq!(
        String::from_utf8(bytes).unwrap(),
        "status=error\ndetail=boom x\nrollback_performed=true\nrollback_ok=false\ncontrolled_failure=false\nnet_database_change=true\ntransaction_executed=false\nexecution_gate_closed=true\nsave_api_called=false\n"
    );
}

fn submitted_proposal() -> AsyncTradeProposal {
    AsyncTradeProposal {
        schema_version: 1,
        proposal_id: "T77-24AA020ACF9A6AA8".to_string(),
        state: AsyncTradeState::SellerReview,
        requester_team_id: 7,
        recipient_team_id: 3,
        offered_id: 1512,
        target_id: 1514,
        offered_name: "Jue".to_string(),
        target_name: "Ze|us".to_string(),
        region_id: 2,
        proposed_units: 20734,
        proposed_cash_won: 207_340_000,
        desired_status_choice: 1,
        desired_status_key: "important".to_string(),
        display_min_units: 15000,
        display_max_units: 33000,
        display_lower_percent: 72,
        display_upper_percent: 158,
        submitted_at: "2026-01-05 09:00:00".to_string(),
        seller_due_at: "2026-01-07 09:00:00".to_string(),
        player_due_at: "2026-01-08 09:00:00".to_string(),
        completed_at: String::new(),
        package_fingerprint: 1,
        offered_contract_fingerprint_at_submit: 2,
        target_contract_fingerprint_at_submit: 3,
        result_plan_id: String::new(),
        rejection_actor: String::new(),
        rejection_reason: String::new(),
        rejection_reason_ko: String::new(),
        success_news_id: String::new(),
        transition_count: 0,
        submit_process_id: 4242,
        commit_process_id: 0,
    }
}

#[test]
fn submitted_answer_reads_back() {
    let bytes = async_submitted_payload(&submitted_proposal(), "Gen;G", "T1", "2026-01-05 09:00:00");
    assert_eq!(
        String::from_utf8(bytes.clone()).unwrap(),
        "status=submitted\nproposal_present=true\nproposal_id=T77-24AA020ACF9A6AA8\nstate=SellerReview\nstage_ko=판매 구단 검토\n\
offered_id=1512\ntarget_id=1514\noffered_name=Jue\ntarget_name=Ze us\nrequester_team_id=7\nrecipient_team_id=3\n\
requester_team_name=Gen G\nrecipient_team_name=T1\nproposed_units=20734\ndesired_status_label=주요 선수\n\
game_time=2026-01-05 09:00:00\nsubmitted_at=2026-01-05 09:00:00\nseller_due_at=2026-01-07 09:00:00\n\
player_due_at=2026-01-08 09:00:00\nteam_mutation=false\nfinance_mutation=false\ncontract_mutation=false\n\
transaction_executed=false\n"
    );
    let mut s = state();
    s.review_request_pending = true;
    handle_mod_event(&mut s, "async_trade_proposal_submit_result", &bytes, 0, 0, 99);
    assert!(!s.review_request_pending && s.return_to_profile_pending && s.async_status_ui_dirty);
    assert!(s.async_status_error.is_none());
    let v = s.async_status_view.as_ref().unwrap();
    assert!(v.proposal_present);
    assert_eq!(v.proposal_id, "T77-24AA020ACF9A6AA8");
    assert_eq!((v.state.as_str(), v.stage_ko.as_str()), ("SellerReview", "판매 구단 검토"));
    assert_eq!((v.requester_team_id, v.recipient_team_id, v.offered_id, v.target_id), (7, 3, 1512, 1514));
    assert_eq!((v.requester_team_name.as_str(), v.recipient_team_name.as_str()), ("Gen G", "T1"));
    assert_eq!((v.offered_name.as_str(), v.target_name.as_str()), ("Jue", "Ze us"));
    assert_eq!(v.proposed_units, 20734);
    assert_eq!(v.desired_status_label, "주요 선수");
    assert_eq!(v.player_due_at, "2026-01-08 09:00:00");
    assert_eq!((v.submit_process_id, v.current_process_id), (99, 99));
}

#[test]
fn status_answer_reads_back() {
    let mut p = submitted_proposal();
    p.state = AsyncTradeState::PlayerReview;
    p.commit_process_id = 5;
    p.rejection_reason_ko = "없음|".to_string();
    let c = AsyncStatusContext {
        requester_team_name: "Gen.G".to_string(),
        recipient_team_name: "T1".to_string(),
        target_position_label: "미드".to_string(),
        target_position_icon: "mid".to_string(),
        target_contract_end: "2027;11".to_string(),
        target_yearly_salary: "12.5".to_string(),
        success_news_count: 1,
        offered_team_current: 7,
        target_team_current: 3,
        target_status_current: "Important".to_string(),
        target_contracted_status_current: "Some(Important)".to_string(),
        executed_plan_registry_count: 2,
        result_plan_occurrences: 0,
    };
    let game_time = "2026-01-07 09:00:00".to_string();
    let bytes = async_status_payload(true, &game_time, 77, Some((&p, &c)));
    let text = String::from_utf8(bytes.clone()).unwrap();
    assert!(text.starts_with("season_used=true\nstatus=ok\nproposal_present=true\nproposal_id=T77-24AA020ACF9A6AA8\nstate=PlayerReview\nstage_ko=선수 검토\n"));
    assert!(text.contains("\ntarget_contract_end=2027 11\n"));
    assert!(text.ends_with("result_plan_occurrences=0\ndatabase_mutation=false\ntransaction_executed=false\nsave_api_called=false\n"));
    let mut s = state();
    s.async_status_query_pending = true;
    handle_mod_event(&mut s, "async_trade_proposal_status_result", &bytes, 0, 0, 1);
    assert!(s.season_used && !s.async_status_query_pending && s.async_status_ui_dirty);
    assert!(s.async_status_error.is_none());
    let v = s.async_status_view.as_ref().unwrap();
    assert!(v.proposal_present);
    assert_eq!((v.state.as_str(), v.stage_ko.as_str()), ("PlayerReview", "선수 검토"));
    assert_eq!((v.requester_team_id, v.recipient_team_id, v.offered_id, v.target_id), (7, 3, 1512, 1514));
    assert_eq!(v.target_name, "Ze us");
    assert_eq!(v.target_contract_end, "2027 11");
    assert_eq!(v.target_yearly_salary, "12.5");
    // a value that ends in whitespace comes back trimmed
    assert_eq!(v.rejection_reason_ko, "없음");
    assert_eq!((v.submit_process_id, v.commit_process_id, v.current_process_id), (4242, 5, 77));
    assert_eq!((v.offered_team_current, v.target_team_current), (7, 3));
    assert_eq!(v.target_contracted_status_current, "Some(Important)");
    assert_eq!(v.game_time, "2026-01-07 09:00:00");
}

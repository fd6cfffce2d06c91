use lib::fields::DecodeError;
use lib::hashing::{fnv1a64, fnv1a64_bytes};
use lib::kv::{parse_kv_payload, KvError};
use lib::proposal::{decode_async_trade_proposal, encode_async_trade_proposal, AsyncTradeProposal, AsyncTradeState};
use lib::receipt::{decode_trade_commit_receipt, encode_trade_commit_receipt, TradeCommitReceipt};
use lib::registry::{decode_executed_plan_registry, encode_executed_plan_registry, sort_dedup, RegistryError};
use lib::text::sanitize;

fn proposal() -> AsyncTradeProposal {
    AsyncTradeProposal {
        schema_version: 1,
        proposal_id: "T77-24AA020ACF9A6AA8".to_string(),
        state: AsyncTradeState::PlayerReview,
        requester_team_id: 7,
        recipient_team_id: 0,
        offered_id: 1512,
        target_id: 1514,
        offered_name: "Jue".to_string(),
        target_name: "Ze|us".to_string(),
        region_id: 2,
        proposed_units: 20734,
        proposed_cash_won: 207_340_000,
        desired_status_choice: 1,
        desired_status_key: "important".to_string(),
        display_min_units: 15000,
        display_max_units: 33000,
        display_lower_percent: 72,
        display_upper_percent: 158,
        submitted_at: "2026-01-05 09:00:00".to_string(),
        seller_due_at: "2026-01-07 09:00:00".to_string(),
        player_due_at: "2026-01-08 09:00:00".to_string(),
        completed_at: String::new(),
        package_fingerprint: 0x0123_4567_89AB_CDEF,
        offered_contract_fingerprint_at_submit: 0xFFFF_0000_FFFF_0000,
        target_contract_fingerprint_at_submit: 42,
        result_plan_id: String::new(),
        rejection_actor: String::new(),
        rejection_reason: String::new(),
        rejection_reason_ko: "예산 부족".to_string(),
        success_news_id: String::new(),
        transition_count: 1,
        submit_process_id: 4242,
        commit_process_id: 0,
    }
}

fn receipt() -> TradeCommitReceipt {
    TradeCommitReceipt {
        schema_version: 2,
        plan_id: "T60-B820279F60A4112B".to_string(),
        commit_process_id: 4242,
        commit_game_time: "2026-01-08 09:00:00".to_string(),
        requester_team_id: 7,
        recipient_team_id: 0,
        offered_id: 1512,
        target_id: 1514,
        offered_name: "Jue".to_string(),
        target_name: "Zeus".to_string(),
        proposed_cash_won: 207_340_000,
        desired_status_choice: 1,
        desired_status_key: "important".to_string(),
        offered_team_after: 0,
        target_team_after: 7,
        target_status_after: "Important".to_string(),
        offered_contracted_status_after: "None".to_string(),
        target_contracted_status_after: "Some(Important)".to_string(),
        rollback_rehearsal_verified: true,
        offered_contract_fingerprint: 11,
        target_contract_fingerprint: 12,
        requester_total_bits: 13,
        requester_transfer_bits: 14,
        requester_salary_bits: 15,
        recipient_total_bits: 16,
        recipient_transfer_bits: 17,
        recipient_salary_bits: 18,
        requester_roster_after: 9,
        recipient_roster_after: 10,
        contracted_after: 300,
        requester_payroll_bits: 19,
        recipient_payroll_bits: 20,
        requester_news_count: 3,
        recipient_news_count: 4,
        executed_plan_registry_count: 1,
    }
}

#[test]
fn fnv_known_values() {
    assert_eq!(fnv1a64(""), 0xcbf29ce484222325);
    assert_eq!(fnv1a64("a"), 0xaf63dc4c8601ec8c);
    assert_eq!(fnv1a64("foobar"), 0x85944171f73967e8);
    assert_eq!(fnv1a64_bytes(b"foobar"), 0x85944171f73967e8);
}

#[test]
fn sanitize_replaces_separators() {
    assert_eq!(sanitize("a|b;c\r\nd"), "a b c  d");
    assert_eq!(sanitize("plain"), "plain");
}

#[test]
fn kv_payload_reads_trimmed_lines_and_last_value() {
    let m = parse_kv_payload(b"  a=1 \n\nb = x=y\na=2\r\n").unwrap();
    assert_eq!(m.get_str("a").unwrap().iter().collect::<String>(), "2");
    assert_eq!(m.get_str("b ").unwrap().iter().collect::<String>(), " x=y");
    assert!(m.get_str("c").is_none());
}

#[test]
fn kv_payload_errors() {
    assert!(matches!(parse_kv_payload(&[0xff, 0xfe]), Err(KvError::InvalidUtf8)));
    match parse_kv_payload(b"a=1\n  broken line \nb=2") {
        Err(KvError::NoEquals(line)) => assert_eq!(line, "broken line"),
        _ => panic!("expected a line without '='"),
    }
}

#[test]
fn proposal_roundtrip() {
    let p = proposal();
    let bytes = encode_async_trade_proposal(&p);
    let text = String::from_utf8(bytes.clone()).unwrap();
    assert!(text.starts_with("schema_version=1\nproposal_id=T77-24AA020ACF9A6AA8\nstate=PlayerReview\n"));
    assert!(text.contains("package_fingerprint=0123456789ABCDEF\n"));
    assert!(text.contains("target_name=Ze us\n"));
    let back = decode_async_trade_proposal(&bytes).unwrap();
    assert_eq!(back.state, AsyncTradeState::PlayerReview);
    assert_eq!(back.proposal_id, p.proposal_id);
    assert_eq!(back.target_name, "Ze us");
    assert_eq!(back.offered_name, "Jue");
    assert_eq!(back.package_fingerprint, p.package_fingerprint);
    assert_eq!(back.offered_contract_fingerprint_at_submit, p.offered_contract_fingerprint_at_submit);
    assert_eq!(back.proposed_cash_won, 207_340_000);
    assert_eq!(back.transition_count, 1);
    assert_eq!(back.rejection_reason_ko, "예산 부족");
    assert_eq!(back.completed_at, "");
    // Reading back what was written gives the same record again.
    assert_eq!(encode_async_trade_proposal(&back), bytes);
}

#[test]
fn proposal_decode_errors() {
    let p = proposal();
    let text = String::from_utf8(encode_async_trade_proposal(&p)).unwrap();
    let missing = text.replace("region_id=2\n", "");
    assert!(matches!(decode_async_trade_proposal(missing.as_bytes()), Err(DecodeError::MissingKey(k)) if k == "region_id"));
    let bad_state = text.replace("state=PlayerReview", "state=Paused");
    assert!(matches!(decode_async_trade_proposal(bad_state.as_bytes()), Err(DecodeError::UnknownState(s)) if s == "Paused"));
    let bad_number = text.replace("proposed_units=20734", "proposed_units=12a");
    assert!(matches!(decode_async_trade_proposal(bad_number.as_bytes()), Err(DecodeError::InvalidNumber(k)) if k == "proposed_units"));
    let big_percent = text.replace("display_lower_percent=72", "display_lower_percent=300");
    assert!(matches!(decode_async_trade_proposal(big_percent.as_bytes()), Err(DecodeError::OutOfRange(k)) if k == "display_lower_percent"));
    let schema = text.replace("schema_version=1", "schema_version=2");
    assert!(matches!(decode_async_trade_proposal(schema.as_bytes()), Err(DecodeError::UnsupportedSchema(2))));
    assert!(matches!(decode_async_trade_proposal(&[0xc3]), Err(DecodeError::InvalidUtf8)));
}

#[test]
fn receipt_roundtrip() {
    let r = receipt();
    let bytes = encode_trade_commit_receipt(&r);
    let text = String::from_utf8(bytes.clone()).unwrap();
    assert!(text.contains("rollback_rehearsal_verified=true\n"));
    assert!(text.contains("target_contracted_status_after=Some(Important)\n"));
    let back = decode_trade_commit_receipt(&bytes).unwrap();
    assert_eq!(back.plan_id, r.plan_id);
    assert_eq!(back.target_contracted_status_after, "Some(Important)");
    assert!(back.rollback_rehearsal_verified);
    assert_eq!(back.contracted_after, 300);
    assert_eq!(encode_trade_commit_receipt(&back), bytes);
}

#[test]
fn receipt_schema_one_reads_legacy_statuses() {
    let mut r = receipt();
    r.schema_version = 1;
    let bytes = encode_trade_commit_receipt(&r);
    let text = String::from_utf8(bytes.clone()).unwrap();
    assert!(!text.contains("contracted_status_after"));
    assert!(!text.contains("rollback_rehearsal_verified"));
    let back = decode_trade_commit_receipt(&bytes).unwrap();
    assert_eq!(back.offered_contracted_status_after, "LegacyUnrecorded");
    assert!(!back.rollback_rehearsal_verified);
    let mut expected = receipt();
    expected.schema_version = 1;
    expected.offered_contracted_status_after = "LegacyUnrecorded".to_string();
    expected.target_contracted_status_after = "LegacyUnrecorded".to_string();
    expected.rollback_rehearsal_verified = false;
    assert_eq!(back, expected);
}

#[test]
fn receipt_with_bad_plan_id_is_invalid() {
    let mut r = receipt();
    r.plan_id = "T61-B820279F60A4112B".to_string();
    let bytes = encode_trade_commit_receipt(&r);
    assert!(matches!(decode_trade_commit_receipt(&bytes), Err(DecodeError::InvalidReceipt)));
}

#[test]
fn registry_sorts_and_deduplicates() {
    let ids = vec![
        "T60-FFFF000000000000".to_string(),
        "T60-0000000000000001".to_string(),
        "T60-FFFF000000000000".to_string(),
    ];
    let sorted = sort_dedup(&ids);
    assert_eq!(sorted, vec!["T60-0000000000000001".to_string(), "T60-FFFF000000000000".to_string()]);
    let bytes = encode_executed_plan_registry(&ids);
    assert_eq!(bytes, b"T60-0000000000000001\nT60-FFFF000000000000\n".to_vec());
    assert_eq!(encode_executed_plan_registry(&[]), Vec::<u8>::new());
}

#[test]
fn registry_roundtrip_gives_sorted_distinct_ids() {
    let ids = vec![
        "T60-89617444924FD838".to_string(),
        "T60-83270E3A33D2F105".to_string(),
        "T60-89617444924FD838".to_string(),
    ];
    let back = decode_executed_plan_registry(&encode_executed_plan_registry(&ids)).unwrap();
    assert_eq!(back, vec!["T60-83270E3A33D2F105".to_string(), "T60-89617444924FD838".to_string()]);
}

#[test]
fn registry_decode_skips_blank_lines_and_trims() {
    let back = decode_executed_plan_registry(b"\n  T60-89617444924FD838  \r\n\nT60-0000000000000001\n").unwrap();
    assert_eq!(back, vec!["T60-0000000000000001".to_string(), "T60-89617444924FD838".to_string()]);
}

#[test]
fn registry_decode_errors() {
    assert!(matches!(decode_executed_plan_registry(b"T60-123\n"), Err(RegistryError::InvalidPlanId(s)) if s == "T60-123"));
    assert!(matches!(
        decode_executed_plan_registry(b"T60-0000000000000001\nT60-0000000000000001\n"),
        Err(RegistryError::DuplicatePlanId(s)) if s == "T60-0000000000000001"
    ));
    assert!(matches!(decode_executed_plan_registry(&[0xff]), Err(RegistryError::InvalidUtf8)));
}

use lib::money::{
    cash_offer_max_units, format_cash_amount, format_cash_range, format_commas, format_eok_amount,
    format_eok_cheoman_bucket, format_eok_number, format_cheoman_number, format_salary_tenths, saturating_mul_u64,
    stable_obscured_cash_range,
};
use lib::proposal::AsyncTradeState;
use lib::trade::{decision_mapped_profile, SellerProfile, SellerStance};
use lib::status::{
    contracted_status_debug, custom_squad_status_label, custom_status_variant, desired_squad_status,
    desired_squad_status_from_action, desired_squad_status_value, has_value_replacement_floor,
    requested_years_from_contract_days, squad_status_label, squad_status_rank, trade_role_promise_allows,
    SquadStatus, UnsupportedStatusChoice,
};
use lib::trade::{
    async_proposal_id, athlete_trade_fingerprint, command_plan_id, contains, custom_position_rank,
    envelope_checks, quote_error_message_ko, quote_pair_checks, require_fresh_trade_fixture,
    review_cash_terms, review_verdict, same_contract_except_team, structural_continuity, submit_cash,
    submit_precheck, AthleteTradeSnapshot, CashError, CashTerms, EnvelopeError, PairError, PlanBinding,
    Position, QuoteError, SubmitError, SubmitFacts,
};

fn snapshot() -> AthleteTradeSnapshot {
    AthleteTradeSnapshot {
        id: 1512,
        name: "Jue".to_string(),
        team_id: 7,
        start_date: "2025-01-01".to_string(),
        end_date: "2027-12-31".to_string(),
        weekly_salary_bits: 0x40C3_8800_0000_0000,
        transfer_fee_bits: 0,
        incentives_debug: "[]".to_string(),
        transfer_requests_debug: "[]".to_string(),
        recruit_requests_debug: "[]".to_string(),
        squad_status_debug: "Important".to_string(),
    }
}

fn facts() -> SubmitFacts {
    SubmitFacts {
        requester_team_id: 7,
        offered_id: 1512,
        target_id: 1514,
        offered_team_id: 7,
        target_team_id: 0,
        recruit_open: true,
        season_used: false,
        existing_state: None,
        cooldown_blocked: false,
        active_negotiation: false,
        client_region_id: 2,
        server_region_id: 2,
    }
}

#[test]
fn commas_group_from_the_right() {
    assert_eq!(format_commas(0), "0");
    assert_eq!(format_commas(999), "999");
    assert_eq!(format_commas(1000), "1,000");
    assert_eq!(format_commas(1_234_567), "1,234,567");
    assert_eq!(format_commas(u64::MAX), "18,446,744,073,709,551,615");
}

#[test]
fn eok_and_cheoman_numbers() {
    assert_eq!(format_eok_number(15000), "1.5");
    assert_eq!(format_eok_number(10000), "1");
    assert_eq!(format_eok_number(12345), "1.2345");
    assert_eq!(format_eok_number(120_000_500), "12,000.05");
    assert_eq!(format_cheoman_number(1500), "1.5");
    assert_eq!(format_cheoman_number(999), "0.999");
    assert_eq!(format_eok_amount(20734), "2.0734억 원");
}

#[test]
fn cash_amount_picks_the_unit() {
    assert_eq!(format_cash_amount(0), "0원");
    assert_eq!(format_cash_amount(5000), "5천만 원");
    assert_eq!(format_cash_amount(9999), "9.999천만 원");
    assert_eq!(format_cash_amount(10000), "1억 원");
    assert_eq!(format_cash_amount(25000), "2.5억 원");
}

#[test]
fn cash_range_buckets() {
    assert_eq!(format_eok_cheoman_bucket(15000), "1억 5천");
    assert_eq!(format_eok_cheoman_bucket(9000), "0억 9천");
    assert_eq!(format_cash_range(9000, 20000), "0억 9천 ~ 2억 0천");
    assert_eq!(format_cash_range(1_230_000, 1_241_000), "123억 0천 ~ 124억 1천");
}

#[test]
fn saturating_products_and_offer_ceiling() {
    assert_eq!(saturating_mul_u64(3, 4), 12);
    assert_eq!(saturating_mul_u64(u64::MAX, 2), u64::MAX);
    assert_eq!(cash_offer_max_units(100, 1000), 200);
    assert_eq!(cash_offer_max_units(100, 150), 150);
    assert_eq!(cash_offer_max_units(u64::MAX, u64::MAX), u64::MAX);
}

#[test]
fn obscured_range_is_stable_and_contains_requirement() {
    assert_eq!(stable_obscured_cash_range(12345, 7, 0, 1512, 1514), (9000, 20000, 79, 157));
    assert_eq!(stable_obscured_cash_range(780000, 3, 5, 10, 20), (546000, 1241000, 70, 159));
    assert_eq!(stable_obscured_cash_range(1, 1, 2, 3, 4), (0, 1000, 80, 157));
    assert_eq!(stable_obscured_cash_range(0, 7, 0, 1512, 1514), (0, 0, 0, 0));
    let a = stable_obscured_cash_range(12345, 7, 0, 1512, 1514);
    let b = stable_obscured_cash_range(12345, 7, 0, 1512, 1514);
    assert_eq!(a, b);
    assert!(a.0 <= 12345 && 12345 <= a.1);
}

#[test]
fn status_ranks_and_labels() {
    assert_eq!(squad_status_rank(SquadStatus::Core), 0);
    assert_eq!(squad_status_rank(SquadStatus::Prospect), 4);
    assert_eq!(squad_status_label(SquadStatus::General), "General");
    assert_eq!(custom_squad_status_label(SquadStatus::Sub), "후보");
    assert_eq!(custom_squad_status_label(SquadStatus::Prospect), "유망주");
    assert!(has_value_replacement_floor(SquadStatus::General));
    assert!(!has_value_replacement_floor(SquadStatus::Sub));
    assert_eq!(contracted_status_debug(None), "None");
    assert_eq!(contracted_status_debug(Some(SquadStatus::Important)), "Some(Important)");
}

#[test]
fn desired_status_choices() {
    assert_eq!(desired_squad_status(0), ("core", "핵심 선수"));
    assert_eq!(desired_squad_status(1), ("important", "주요 선수"));
    assert_eq!(desired_squad_status(2), ("general", "주전 선수"));
    assert_eq!(desired_squad_status(3), ("sub", "후보 선수"));
    assert_eq!(desired_squad_status(4), ("prospect", "유망주"));
    assert_eq!(desired_squad_status(77), ("general", "주전 선수"));
    assert_eq!(desired_squad_status_value(1), Ok(SquadStatus::Important));
    assert_eq!(desired_squad_status_value(9), Err(UnsupportedStatusChoice(9)));
    assert_eq!(desired_squad_status_from_action(5), Some(0));
    assert_eq!(desired_squad_status_from_action(9), Some(4));
    assert_eq!(desired_squad_status_from_action(4), None);
    assert_eq!(desired_squad_status_from_action(10), None);
}

#[test]
fn role_promise_keeps_or_improves_the_strongest_role() {
    assert!(trade_role_promise_allows(SquadStatus::General, None, SquadStatus::Important));
    assert!(trade_role_promise_allows(SquadStatus::General, None, SquadStatus::General));
    assert!(!trade_role_promise_allows(SquadStatus::General, None, SquadStatus::Sub));
    assert!(!trade_role_promise_allows(SquadStatus::Sub, Some(SquadStatus::Core), SquadStatus::Important));
    assert!(trade_role_promise_allows(SquadStatus::Sub, Some(SquadStatus::Core), SquadStatus::Core));
}

#[test]
fn contract_years_round_up_and_clamp() {
    assert_eq!(requested_years_from_contract_days(-5), 1);
    assert_eq!(requested_years_from_contract_days(0), 1);
    assert_eq!(requested_years_from_contract_days(1), 1);
    assert_eq!(requested_years_from_contract_days(365), 1);
    assert_eq!(requested_years_from_contract_days(366), 2);
    assert_eq!(requested_years_from_contract_days(100_000), 10);
}

#[test]
fn status_variant_names() {
    assert_eq!(custom_status_variant("핵심"), "core");
    assert_eq!(custom_status_variant("후보"), "sub");
    assert_eq!(custom_status_variant("unknown"), "prospect");
}

#[test]
fn positions_and_continuity() {
    assert_eq!(custom_position_rank(Position::Top), 0);
    assert_eq!(custom_position_rank(Position::Support), 4);
    assert!(structural_continuity(1, Position::Mid, Position::Mid));
    assert!(!structural_continuity(1, Position::Mid, Position::Top));
    assert!(structural_continuity(2, Position::Mid, Position::Top));
}

#[test]
fn fingerprint_of_snapshot() {
    assert_eq!(athlete_trade_fingerprint(&snapshot()), 824357968699664942);
}

#[test]
fn contract_comparison_ignores_only_team() {
    let before = snapshot();
    let mut after = snapshot();
    after.team_id = 0;
    assert!(same_contract_except_team(&before, &after, 0));
    assert!(!same_contract_except_team(&before, &after, 7));
    after.end_date = "2028-12-31".to_string();
    assert!(!same_contract_except_team(&before, &after, 0));
}

#[test]
fn fresh_pair_errors() {
    assert_eq!(require_fresh_trade_fixture(7, 1512, 1512, 7, 0), Err(PairError::SamePlayer));
    assert_eq!(require_fresh_trade_fixture(7, 1512, 1514, 3, 0), Err(PairError::WrongOwnership));
    assert_eq!(require_fresh_trade_fixture(7, 1512, 1514, 7, 7), Err(PairError::WrongOwnership));
    assert_eq!(require_fresh_trade_fixture(7, 1512, 1514, 7, 0), Ok(()));
}

#[test]
fn quote_pair_check_order() {
    assert_eq!(
        quote_pair_checks(7, 3, 0, true),
        Err(QuoteError::OfferedNotRequesters { offered_team_id: 3, requester_team_id: 7 })
    );
    assert_eq!(quote_pair_checks(7, 7, 7, true), Err(QuoteError::TargetAlreadyRequesters));
    assert_eq!(quote_pair_checks(7, 7, 0, false), Err(QuoteError::RequesterContinuity));
    assert_eq!(quote_pair_checks(7, 7, 0, true), Ok(()));
}

#[test]
fn quote_messages() {
    assert_eq!(
        quote_error_message_ko("offered athlete 3 is not requester team"),
        "보낼 선수가 우리 팀 소속이 아닙니다."
    );
    assert_eq!(quote_error_message_ko("target athlete already belongs to requester team"), "이미 우리 팀 선수입니다.");
    assert_eq!(quote_error_message_ko("athlete 9 was not found"), "선수 정보를 찾을 수 없습니다. 모달을 닫았다가 다시 여세요.");
    assert_eq!(quote_error_message_ko("boom"), "계산 실패: boom");
    let a: Vec<char> = "abcabd".chars().collect();
    let p: Vec<char> = "abd".chars().collect();
    let q: Vec<char> = "abe".chars().collect();
    assert!(contains(&a, &p));
    assert!(!contains(&a, &q));
    assert!(contains(&a, &[]));
}

fn binding(cash: u64) -> PlanBinding {
    PlanBinding {
        requester_team_id: 7,
        recipient_team_id: 0,
        offered_id: 1512,
        target_id: 1514,
        proposed_cash_won: cash,
        desired_status_choice: 1,
        requester_roster_count: 9,
        recipient_roster_count: 10,
        offered_salary_bits: 0x4132_A05F_2000_0000,
        target_salary_bits: 0x4142_6E35_8000_0000,
        budget_bits: 0x41CD_CD65_0000_0000,
        game_time: "2026-01-05 09:00:00".to_string(),
    }
}

#[test]
fn plan_id_of_binding() {
    let id = command_plan_id(&binding(207_340_000));
    assert_eq!(id, "T60-B820279F60A4112B");
    assert!(lib::plan::valid_test60_plan_id(&id));
    assert_ne!(command_plan_id(&binding(207_340_001)), id);
}

#[test]
fn proposal_id_includes_process() {
    let id = async_proposal_id(7, 0, 1512, 1514, 207_340_000, 1, "2026-01-05 09:00:00", 4242);
    assert_eq!(id, "T77-24AA020ACF9A6AA8");
    assert_ne!(async_proposal_id(7, 0, 1512, 1514, 207_340_000, 1, "2026-01-05 09:00:00", 4243), id);
}

#[test]
fn plan_id_shape() {
    assert!(lib::plan::valid_test60_plan_id("T60-0123456789ABCDEF"));
    assert!(lib::plan::valid_test60_plan_id("T60-0123456789abcdef"));
    assert!(!lib::plan::valid_test60_plan_id("T60-0123456789abcdeg"));
    assert!(!lib::plan::valid_test60_plan_id("T60-0123456789ABCDEF0"));
    assert!(!lib::plan::valid_test60_plan_id("T61-0123456789ABCDEF"));
    assert!(!lib::plan::valid_test60_plan_id("T60-0123"));
}

#[test]
fn envelope_check_order() {
    assert_eq!(envelope_checks(3, 0, 7, 0, 5, 5), Err(EnvelopeError::OwnershipChanged));
    assert_eq!(envelope_checks(7, 4, 7, 0, 5, 5), Err(EnvelopeError::OwnershipChanged));
    assert_eq!(envelope_checks(7, 0, 7, 0, 0, 5), Err(EnvelopeError::EmptyRoster));
    assert_eq!(envelope_checks(7, 0, 7, 0, 5, 5), Ok(()));
}

#[test]
fn review_cash_terms_cases() {
    assert_eq!(review_cash_terms(10, 5, 7, 0), Err(CashError::RangeUnavailable { min: 10, max: 5 }));
    assert_eq!(review_cash_terms(5, 10, 11, 0), Err(CashError::OutsideRange { min: 5, max: 10, found: 11 }));
    assert_eq!(
        review_cash_terms(5, 10, 8, 70_000),
        Ok(CashTerms { proposed_cash_won: 80_000, cash_meets_required: true })
    );
    assert_eq!(
        review_cash_terms(5, 10, 8, 90_000),
        Ok(CashTerms { proposed_cash_won: 80_000, cash_meets_required: false })
    );
    assert_eq!(review_cash_terms(0, u64::MAX, u64::MAX, 0), Err(CashError::Overflow));
}

#[test]
fn review_verdict_combines_answers() {
    let terms = CashTerms { proposed_cash_won: 80_000, cash_meets_required: true };
    let v = review_verdict(terms, true, true, true, true, SquadStatus::General, None, SquadStatus::Important, true);
    assert!(v.cash_within_offer_range && v.role_promise_accepted && v.player_accepted && v.overall_approved);
    assert!(!v.last_player_without_replacement);
    let v = review_verdict(terms, true, true, true, true, SquadStatus::General, None, SquadStatus::Sub, false);
    assert!(!v.role_promise_accepted && !v.player_accepted && !v.overall_approved);
    assert!(v.last_player_without_replacement);
    let v = review_verdict(terms, false, true, true, true, SquadStatus::General, None, SquadStatus::General, true);
    assert!(v.player_accepted && !v.overall_approved);
}

#[test]
fn submit_precheck_order() {
    assert_eq!(submit_precheck(&facts()), Ok(()));
    let mut f = facts();
    f.target_id = f.offered_id;
    f.recruit_open = false;
    assert_eq!(submit_precheck(&f), Err(SubmitError::Pair(PairError::SamePlayer)));
    let mut f = facts();
    f.recruit_open = false;
    f.season_used = true;
    assert_eq!(submit_precheck(&f), Err(SubmitError::RecruitmentClosed));
    let mut f = facts();
    f.season_used = true;
    assert_eq!(submit_precheck(&f), Err(SubmitError::SeasonUsed));
    let mut f = facts();
    f.existing_state = Some(AsyncTradeState::SellerReview);
    assert_eq!(submit_precheck(&f), Err(SubmitError::ProposalInProgress(AsyncTradeState::SellerReview)));
    let mut f = facts();
    f.existing_state = Some(AsyncTradeState::Rejected);
    assert_eq!(submit_precheck(&f), Ok(()));
    let mut f = facts();
    f.cooldown_blocked = true;
    f.active_negotiation = true;
    assert_eq!(submit_precheck(&f), Err(SubmitError::CooldownBlocked));
    let mut f = facts();
    f.active_negotiation = true;
    assert_eq!(submit_precheck(&f), Err(SubmitError::ActiveNegotiation));
    let mut f = facts();
    f.client_region_id = 3;
    assert_eq!(submit_precheck(&f), Err(SubmitError::RegionMismatch { client: 3, server: 2 }));
}

#[test]
fn submit_cash_cases() {
    assert_eq!(submit_cash(20734, 15000, 33000), Ok(207_340_000));
    assert_eq!(submit_cash(14999, 15000, 33000), Err(SubmitError::OutsideRange { min: 15000, max: 33000 }));
    assert_eq!(submit_cash(u64::MAX, 0, u64::MAX), Err(SubmitError::CashOverflow));
}

#[test]
fn salary_in_tenths_of_eok() {
    assert_eq!(format_salary_tenths(0), "0억원");
    assert_eq!(format_salary_tenths(15), "1.5억원");
    assert_eq!(format_salary_tenths(120), "12억원");
    assert_eq!(format_salary_tenths(12345), "1,234.5억원");
}

#[test]
fn decision_profiles() {
    let active = SellerProfile { label: "DECISION_MAPPED_ACTIVE", stance: SellerStance::ActivelySell, is_excess_sell: true };
    for d in ["SellIfGoodOffer", "ListForSale", "NonRenew", "RunDown"] {
        assert_eq!(decision_mapped_profile(d), active);
    }
    let protect = SellerProfile { label: "DECISION_MAPPED_PROTECT", stance: SellerStance::ProtectButListen, is_excess_sell: false };
    for d in ["Keep", "Renew", "", "sellifgoodoffer", "RunDown "] {
        assert_eq!(decision_mapped_profile(d), protect);
    }
}

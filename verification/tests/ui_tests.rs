use lib::clicks::{
    custom_slot_id, custom_slot_index_from_click, custom_stat_ids, event_matches_any, exact_view_detail_athlete_id_from_event, find,
    native_offer_submission_event, parse_view_detail_id_from_text, path_has_exact_node_id,
    profile_native_contract_event, profile_navigation_without_exact_id, projection_profile_click_athlete_id,
    route_click, segments_of, trade_entry_event, ClickFlags, ClickRoute,
};
use lib::display::{
    cash_input_verdict, cash_status_display, compact_async_time, CashStatusDisplay, first_offer_status_text, format_projection_date,
    format_projection_deadline_date, parse_cash_units, popup_position_visual, prefix_char_count,
    profile_stage_text, projection_current_squad_status_label, projection_game_date, proposal_under_review,
    trade_block_reason, trade_entry_state, CashInputVerdict, TradeEntryState,
};
use lib::trade::Position;

fn closed() -> ClickFlags {
    ClickFlags {
        popup_open: false,
        transaction_executed: false,
        duplicate_replay_verified: false,
        rollback_completed: false,
        trade_entry_active: false,
    }
}

fn open() -> ClickFlags {
    ClickFlags { popup_open: true, ..closed() }
}

fn chars(s: &str) -> Vec<char> {
    s.chars().collect()
}

#[test]
fn path_segments_split_on_all_separators() {
    let segs = segments_of(&chars("a.b/c\\d"));
    assert_eq!(segs, vec![chars("a"), chars("b"), chars("c"), chars("d")]);
    assert_eq!(segments_of(&chars("")), vec![Vec::<char>::new()]);
    assert_eq!(segments_of(&chars("a..b")), vec![chars("a"), Vec::new(), chars("b")]);
    assert!(path_has_exact_node_id("root.pts_trade_entry.label", "pts_trade_entry"));
    assert!(!path_has_exact_node_id("root.pts_trade_entry_x.label", "pts_trade_entry"));
}

#[test]
fn find_first_occurrence() {
    assert_eq!(find(&chars("abcabc"), &chars("ca")), Some(2));
    assert_eq!(find(&chars("abcabc"), &chars("abc")), Some(0));
    assert_eq!(find(&chars("abc"), &chars("x")), None);
    assert_eq!(find(&chars("ab"), &chars("abc")), None);
}

#[test]
fn click_classifiers() {
    assert!(event_matches_any("x.pts_a.y", "", &["pts_b", "pts_a"]));
    assert!(event_matches_any("x", "pts_b", &["pts_b"]));
    assert!(!event_matches_any("x", "y", &["pts_b"]));
    assert!(trade_entry_event("menu.pts_trade_entry", ""));
    assert!(trade_entry_event("", "pts_trade_entry"));
    assert!(!trade_entry_event("menu.other", "other"));
    assert!(native_offer_submission_event("screen.offer.data.row2.offer", ""));
    assert!(native_offer_submission_event("x.data.row2.delegate", ""));
    assert!(native_offer_submission_event("x.offer.data.row2.y", "offer"));
    assert!(!native_offer_submission_event("x.offer.data.row3.offer", ""));
    assert!(profile_native_contract_event("a.player_detail.data.row4.contract", ""));
    assert!(profile_native_contract_event("a.player_detail.b", "contract"));
    assert!(!profile_native_contract_event("a.data.row4.contract", "contract"));
    assert!(profile_navigation_without_exact_id("Player_Detail.Navigation.Next", ""));
    assert!(profile_navigation_without_exact_id("player_detail.navigation", "PREV"));
    assert!(!profile_navigation_without_exact_id("player_detail.navigation.view_detail_5", ""));
    assert!(!profile_navigation_without_exact_id("navigation.next", ""));
}

#[test]
fn ids_carried_in_node_names() {
    assert_eq!(custom_slot_index_from_click("", "pts_trade_custom_slot_3"), Some(3));
    assert_eq!(custom_slot_index_from_click("a.pts_trade_custom_slot_23.b", "x"), Some(23));
    assert_eq!(custom_slot_index_from_click("a.pts_trade_custom_slot_5.b", "pts_trade_custom_slot_24"), Some(5));
    assert_eq!(custom_slot_index_from_click("pts_trade_custom_slot_", ""), None);
    assert_eq!(parse_view_detail_id_from_text("btn_view_detail_1514_x"), Some(1514));
    assert_eq!(parse_view_detail_id_from_text("view_detail_"), None);
    assert_eq!(parse_view_detail_id_from_text("nothing"), None);
    assert_eq!(exact_view_detail_athlete_id_from_event("a.candidate_77.b", ""), Some(77));
    assert_eq!(exact_view_detail_athlete_id_from_event("a.candidate_77.b", "view_detail_12"), Some(12));
    assert_eq!(exact_view_detail_athlete_id_from_event("a.transfer_0.resign_9_x", ""), Some(9));
    assert_eq!(exact_view_detail_athlete_id_from_event("a.recruit_12x", ""), None);
    assert_eq!(exact_view_detail_athlete_id_from_event("a.b", ""), None);
}

#[test]
fn pending_contract_row_clicks() {
    let row = "ui.pts_trade_pending_contract_slot_test79_active";
    assert_eq!(projection_profile_click_athlete_id(&format!("{}.view_detail_44", row), "", Some(9)), Some(44));
    assert_eq!(projection_profile_click_athlete_id(&format!("{}.name", row), "", Some(9)), Some(9));
    assert_eq!(projection_profile_click_athlete_id(row, "name", None), None);
    assert_eq!(projection_profile_click_athlete_id(&format!("{}.icon", row), "", Some(9)), None);
    assert_eq!(projection_profile_click_athlete_id("ui.other.name", "", Some(9)), None);
}

#[test]
fn status_menu_routes() {
    assert_eq!(route_click("m.pts_trade_status_toggle", "", closed()), ClickRoute::Status(4));
    assert_eq!(route_click("m", "pts_trade_status_option_core", closed()), ClickRoute::Status(5));
    assert_eq!(route_click("m.pts_trade_runtime_status_check_important", "", closed()), ClickRoute::Status(6));
    assert_eq!(route_click("m.pts_trade_status_option_general", "", closed()), ClickRoute::Status(7));
    assert_eq!(route_click("m.pts_trade_status_check_sub", "", closed()), ClickRoute::Status(8));
    assert_eq!(route_click("m.pts_trade_status_option_prospect", "", closed()), ClickRoute::Status(9));
}

#[test]
fn window_routes() {
    assert_eq!(route_click("w.pts_cash_submit", "", open()), ClickRoute::Review);
    assert_eq!(route_click("w.pts_cash_submit", "", closed()), ClickRoute::Pass);
    assert_eq!(route_click("w.pts_trade_commit_confirm", "", open()), ClickRoute::Commit(11));
    let executed = ClickFlags { transaction_executed: true, ..open() };
    assert_eq!(route_click("w.pts_trade_commit_confirm", "", executed), ClickRoute::Commit(3));
    let checked = ClickFlags { transaction_executed: true, duplicate_replay_verified: true, ..open() };
    assert_eq!(route_click("w.pts_trade_commit_confirm", "", checked), ClickRoute::Commit(2));
    let rolled = ClickFlags { rollback_completed: true, ..open() };
    assert_eq!(route_click("w", "pts_trade_commit_confirm", rolled), ClickRoute::Commit(2));
    assert_eq!(route_click("w.pts_cash_input", "", closed()), ClickRoute::CashInput);
    assert_eq!(route_click("menu.pts_trade_entry", "", closed()), ClickRoute::TradeEntry);
    let entry = ClickFlags { trade_entry_active: true, ..closed() };
    assert_eq!(route_click("menu.data.row2", "", entry), ClickRoute::TradeEntry);
    assert_eq!(route_click("menu.data.row2", "", closed()), ClickRoute::Pass);
    assert_eq!(route_click("w.pts_trade_modal_backdrop", "", open()), ClickRoute::Close);
    assert_eq!(route_click("w.pts_trade_modal_layer.close_btn", "", open()), ClickRoute::Close);
    assert_eq!(route_click("w.pts_trade_cash_panel.x", "cancel", open()), ClickRoute::Close);
    assert_eq!(route_click("w.pts_trade_modal_layer.body", "", open()), ClickRoute::Block);
    assert_eq!(route_click("w.pts_trade_modal_layer.body", "", closed()), ClickRoute::Pass);
    assert_eq!(route_click("elsewhere", "", open()), ClickRoute::Pass);
}

#[test]
fn byte_prefixes_and_compact_times() {
    assert_eq!(prefix_char_count(&chars("abc"), 2), Some(2));
    assert_eq!(prefix_char_count(&chars("가나"), 3), Some(1));
    assert_eq!(prefix_char_count(&chars("가나"), 2), None);
    assert_eq!(prefix_char_count(&chars("ab"), 5), None);
    assert_eq!(compact_async_time("2026-01-07 09:00:00"), "2026/01/07 09:00");
    assert_eq!(compact_async_time("2026-01-07"), "2026-01-07");
    assert_eq!(projection_game_date("2026-01-07 09:00:00"), "2026-01-07");
    assert_eq!(projection_game_date("2026"), "2026");
}

#[test]
fn projection_dates() {
    assert_eq!(format_projection_date("2027-12-31 00:00:00"), "2027년 12월 31일까지");
    assert_eq!(format_projection_deadline_date("2027-01-05"), "2027년 1월 5일");
    assert_eq!(format_projection_date("soon"), "soon");
    assert_eq!(format_projection_date("2027-xx-05"), "2027-xx-05");
}

#[test]
fn labels() {
    assert_eq!(popup_position_visual(Position::Mid), ("미드", "asset/base/ui/icons/mid"));
    assert_eq!(popup_position_visual(Position::Support), ("서포터", "asset/base/ui/icons/support"));
    assert_eq!(projection_current_squad_status_label("Some(Important)"), "주요 선수");
    assert_eq!(projection_current_squad_status_label("  Prospect "), "유망주");
    assert_eq!(projection_current_squad_status_label("후보"), "후보 선수");
    assert_eq!(projection_current_squad_status_label("pending"), "-");
    assert_eq!(projection_current_squad_status_label(""), "-");
    assert_eq!(projection_current_squad_status_label("Legend"), "Legend");
}

#[test]
fn block_reasons_in_order() {
    assert_eq!(trade_block_reason(true, true, None, 0, false, false), Some("선수를 선택해주세요".to_string()));
    assert_eq!(trade_block_reason(false, true, None, 0, false, false), Some("이 조합은 트레이드할 수 없습니다".to_string()));
    assert_eq!(
        trade_block_reason(false, false, Some("2026-01-08 09:00:00"), 1, true, true),
        Some("이 선수에게는 2026/01/08 09:00 이후 다시 제안할 수 있습니다".to_string())
    );
    assert_eq!(trade_block_reason(false, false, None, 0, true, true), Some("제시 금액을 입력해주세요".to_string()));
    assert_eq!(trade_block_reason(false, false, None, 1, true, true), None);
}

#[test]
fn stage_lines() {
    assert!(proposal_under_review(true, "SellerReview"));
    assert!(proposal_under_review(true, "PlayerReview"));
    assert!(!proposal_under_review(false, "SellerReview"));
    assert!(!proposal_under_review(true, "Rejected"));
    assert_eq!(
        profile_stage_text("SellerReview", "2026-01-05 09:00:00", "2026-01-07 09:00:00", ""),
        "단계: 판매 구단 검토 | 제안 접수 2026/01/05 09:00 | 응답 기한 2026/01/07 09:00"
    );
    assert_eq!(
        profile_stage_text("PlayerReview", "2026-01-05 09:00:00", "2026-01-07 09:00:00", "2026-01-08 09:00:00"),
        "단계: 선수 검토 | 제안 접수 2026/01/05 09:00 | 응답 기한 2026/01/08 09:00"
    );
    assert_eq!(
        first_offer_status_text("2026-01-05 09:00:00", "검토 중", "2026-01-07 09:00:00"),
        "제안 접수 2026/01/05 09:00 | 현재 상태 검토 중 | 응답 기한 2026/01/07 09:00"
    );
}

#[test]
fn cash_input() {
    assert_eq!(parse_cash_units(" 20734 "), Some(20734));
    assert_eq!(parse_cash_units(""), None);
    assert_eq!(parse_cash_units("12a"), None);
    assert_eq!(parse_cash_units("-5"), None);
    assert_eq!(parse_cash_units("99999999999999999999"), None);
    assert_eq!(
        cash_input_verdict(Some(20000), Some((15000, 30000)), true),
        CashInputVerdict { meets_required: true, within_offer_range: true, valid: true }
    );
    assert_eq!(
        cash_input_verdict(Some(20000), Some((15000, 30000)), false),
        CashInputVerdict { meets_required: true, within_offer_range: true, valid: false }
    );
    assert_eq!(
        cash_input_verdict(Some(10000), Some((15000, 30000)), true),
        CashInputVerdict { meets_required: false, within_offer_range: false, valid: false }
    );
    assert_eq!(
        cash_input_verdict(Some(40000), Some((15000, 30000)), true),
        CashInputVerdict { meets_required: true, within_offer_range: false, valid: false }
    );
    assert_eq!(
        cash_input_verdict(None, Some((15000, 30000)), true),
        CashInputVerdict { meets_required: false, within_offer_range: false, valid: false }
    );
    assert_eq!(
        cash_input_verdict(Some(u64::MAX), Some((0, u64::MAX)), true),
        CashInputVerdict { meets_required: false, within_offer_range: false, valid: false }
    );
}

#[test]
fn slot_and_stat_ids() {
    assert_eq!(custom_slot_id(3), "pts_trade_custom_slot_03");
    assert_eq!(custom_slot_id(23), "pts_trade_custom_slot_23");
    assert_eq!(custom_slot_id(123), "pts_trade_custom_slot_123");
    assert_eq!(custom_slot_index_from_click("", &custom_slot_id(7)), Some(7));
    assert_eq!(
        custom_stat_ids("kda"),
        (
            "pts_trade_custom_stat_kda_target".to_string(),
            "pts_trade_custom_stat_kda_marker".to_string(),
            "pts_trade_custom_stat_kda_offered".to_string()
        )
    );
}

#[test]
fn cash_status_line() {
    let mut shown = false;
    let d = cash_status_display(1, true, None, &mut shown);
    assert_eq!(
        d,
        CashStatusDisplay {
            input_disabled: true,
            idle: false,
            valid: false,
            invalid: true,
            invalid_text: Some("선수를 선택해주세요".to_string()),
            guide_warning: true,
        }
    );
    assert!(shown);
    let d = cash_status_display(1, false, None, &mut shown);
    assert!(d.valid && !d.idle && !d.invalid && !d.input_disabled);
    assert_eq!(d.invalid_text, Some("숫자만 입력할 수 있습니다.".to_string()));
    assert!(!shown);
    let d = cash_status_display(2, false, None, &mut shown);
    assert!(d.invalid && d.invalid_text.is_none());
    let d = cash_status_display(0, false, Some("boom"), &mut shown);
    assert!(d.input_disabled && d.invalid && !d.guide_warning);
    assert_eq!(d.invalid_text, Some("계산 실패: boom".to_string()));
}

#[test]
fn trade_entry_button_state() {
    let e = trade_entry_state(true, true, true, 42, false, false, "", 0, false);
    assert_eq!(
        e,
        TradeEntryState { visible: true, ready: true, label: "트레이드", hint: "", tip_eligible: false }
    );
    let e = trade_entry_state(true, true, true, 42, true, false, "", 0, false);
    assert!(!e.ready && e.tip_eligible);
    assert_eq!((e.label, e.hint), ("제안 접수 중", "제안 접수 중"));
    let e = trade_entry_state(true, true, true, 42, false, true, "SellerReview", 42, false);
    assert_eq!(e.label, "판매 구단 검토 중");
    let e = trade_entry_state(true, true, true, 42, false, true, "PlayerReview", 42, true);
    assert_eq!(e.label, "선수 검토 중");
    let e = trade_entry_state(true, true, true, 42, false, true, "PlayerReview", 7, false);
    assert!(!e.ready);
    assert_eq!(e.label, "트레이드 진행 중");
    let e = trade_entry_state(true, true, true, 42, false, true, "PlayerReview", 7, true);
    assert_eq!(e.label, "이번 영입 시즌 트레이드 완료");
    let e = trade_entry_state(true, true, true, 42, false, true, "Rejected", 7, false);
    assert!(e.ready);
    let e = trade_entry_state(false, false, true, 42, false, false, "", 0, false);
    assert_eq!(e, TradeEntryState { visible: false, ready: false, label: "UI 준비 중", hint: "UI 준비 중", tip_eligible: false });
    let e = trade_entry_state(true, true, true, 0, false, false, "", 0, false);
    assert!(!e.ready);
    assert_eq!(e.label, "트레이드");
    let e = trade_entry_state(true, true, false, 5, false, false, "", 0, false);
    assert!(!e.ready && e.tip_eligible);
}

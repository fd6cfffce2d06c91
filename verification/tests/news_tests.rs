use lib::news::{async_success_news_count, ensure_async_success_news, success_news, NewsError, NewsItem};
use lib::proposal::{AsyncTradeProposal, AsyncTradeState};

fn accepted() -> AsyncTradeProposal {
    AsyncTradeProposal {
        schema_version: 1,
        proposal_id: "T77-24AA020ACF9A6AA8".to_string(),
        state: AsyncTradeState::Accepted,
        requester_team_id: 7,
        recipient_team_id: 3,
        offered_id: 1512,
        target_id: 1514,
        offered_name: "Jue".to_string(),
        target_name: "Zeus".to_string(),
        region_id: 2,
        proposed_units: 20734,
        proposed_cash_won: 207_340_000,
        desired_status_choice: 1,
        desired_status_key: "important".to_string(),
        display_min_units: 15000,
        display_max_units: 33000,
        display_lower_percent: 72,
        display_upper_percent: 158,
        submitted_at: "2026-01-05 09:00:00".to_string(),
        seller_due_at: "2026-01-07 09:00:00".to_string(),
        player_due_at: "2026-01-08 09:00:00".to_string(),
        completed_at: "2026-01-08 09:00:00".to_string(),
        package_fingerprint: 1,
        offered_contract_fingerprint_at_submit: 2,
        target_contract_fingerprint_at_submit: 3,
        result_plan_id: "T60-B820279F60A4112B".to_string(),
        rejection_actor: String::new(),
        rejection_reason: String::new(),
        rejection_reason_ko: String::new(),
        success_news_id: String::new(),
        transition_count: 2,
        submit_process_id: 4242,
        commit_process_id: 4242,
    }
}

fn other_news(id: &str) -> NewsItem {
    NewsItem {
        title: "경기 결과".to_string(),
        content: String::new(),
        author: "League".to_string(),
        title_bind: vec![("Match".to_string(), id.to_string())],
    }
}

#[test]
fn success_news_text() {
    let n = success_news(&accepted(), "Gen.G", "T1");
    assert_eq!(n.title, "선수 트레이드 성사");
    assert_eq!(n.author, "Player Trade System");
    assert_eq!(n.title_bind, vec![("PtsTradeProposalId".to_string(), "T77-24AA020ACF9A6AA8".to_string())]);
    assert_eq!(
        n.content,
        "Gen.G 구단과 T1 구단의 선수 트레이드가 성사되었습니다.\n\nGen.G 영입: Zeus\nGen.G 방출: Jue\n추가 지급액: 2.0734억 원\n약속 위상: 주요 선수"
    );
}

#[test]
fn announced_once() {
    let p = accepted();
    let mut news = vec![other_news("T77-24AA020ACF9A6AA8")];
    assert_eq!(async_success_news_count(&news, &p.proposal_id), 0);
    assert_eq!(ensure_async_success_news(&mut news, &p, "Gen.G", "T1"), Ok((true, 1)));
    assert_eq!(news.len(), 2);
    assert_eq!(async_success_news_count(&news, &p.proposal_id), 1);
    assert_eq!(ensure_async_success_news(&mut news, &p, "Gen.G", "T1"), Ok((false, 1)));
    assert_eq!(news.len(), 2);
    let dup = success_news(&p, "Gen.G", "T1");
    news.push(dup);
    assert_eq!(ensure_async_success_news(&mut news, &p, "Gen.G", "T1"), Err(NewsError::CountNotOne(2)));
    assert_eq!(news.len(), 3);
}

//! The life of an asynchronous trade proposal: when a review is due, what a
//! review decides, which rejection policy applies, and how each decision
//! changes the stored proposal.  The reviews themselves and the trade's
//! execution happen outside; this module decides from their results.
use vstd::prelude::*;
use crate::order::{lex_less, lex_lt};
use crate::proposal::{is_terminal, AsyncTradeProposal, AsyncTradeState, ProposalView};
use crate::text::chars_of;
use crate::trade::{async_proposal_id, athlete_trade_fingerprint, contains, contains_spec, snapshot_text, AthleteTradeSnapshot};
use crate::hashing::fnv_spec;

verus! {

/// `now` has reached `due`: `due` is set and `now` does not sort before it.
pub open spec fn time_reached(now: Seq<char>, due: Seq<char>) -> bool {
    due.len() > 0 && !lex_lt(now, due)
}

/// Whether the game time `now` has reached the due time `due` (both in the
/// sortable `YYYY-MM-DD hh:mm:ss` form).
pub fn async_time_reached(now: &str, due: &str) -> (r: bool)
    ensures
        r == time_reached(now@, due@),
{
    let n = chars_of(now);
    let d = chars_of(due);
    d.len() > 0 && !lex_less(n.as_slice(), d.as_slice())
}

/// What the lifecycle has to do with a stored proposal.
#[derive(Clone, Copy, Debug, PartialEq, Eq, Structural)]
pub enum LifecycleDue {
    /// Nothing: the proposal is finished or its next review is not due.
    Idle,
    /// The selling team's review is due.
    SellerReview,
    /// The player's review is due.
    PlayerReview,
}

pub open spec fn due_spec(v: ProposalView, now: Seq<char>) -> LifecycleDue {
    if v.state == AsyncTradeState::SellerReview && time_reached(now, v.seller_due_at) {
        LifecycleDue::SellerReview
    } else if v.state == AsyncTradeState::PlayerReview && time_reached(now, v.player_due_at) {
        LifecycleDue::PlayerReview
    } else {
        LifecycleDue::Idle
    }
}

/// Which review, if any, is due for the proposal at `now`.  A finished
/// proposal is never due.
/// A review falls due only for a proposal in that review whose due time is
/// set and reached; a finished proposal is never due.
pub proof fn lemma_due_only_when_reached(v: ProposalView, now: Seq<char>)
    ensures
        due_spec(v, now) == LifecycleDue::SellerReview <==> (v.state == AsyncTradeState::SellerReview
            && v.seller_due_at.len() > 0 && !lex_lt(now, v.seller_due_at)),
        due_spec(v, now) == LifecycleDue::PlayerReview <==> (v.state == AsyncTradeState::PlayerReview
            && v.player_due_at.len() > 0 && !lex_lt(now, v.player_due_at)),
        (v.state == AsyncTradeState::Accepted || v.state == AsyncTradeState::Rejected || v.state
            == AsyncTradeState::Cancelled) ==> due_spec(v, now) == LifecycleDue::Idle,
{
}

pub fn lifecycle_due(p: &AsyncTradeProposal, now: &str) -> (r: LifecycleDue)
    ensures
        r == due_spec(p@, now@),
        is_terminal(p@.state) ==> r == LifecycleDue::Idle,
        r == LifecycleDue::SellerReview <==> (p@.state == AsyncTradeState::SellerReview && p@.seller_due_at.len() > 0
            && !lex_lt(now@, p@.seller_due_at)),
        r == LifecycleDue::PlayerReview <==> (p@.state == AsyncTradeState::PlayerReview && p@.player_due_at.len() > 0
            && !lex_lt(now@, p@.player_due_at)),
{
    proof {
        lemma_due_only_when_reached(p@, now@);
    }
    match p.state {
        AsyncTradeState::SellerReview => {
            if async_time_reached(now, p.seller_due_at.as_str()) {
                LifecycleDue::SellerReview
            } else {
                LifecycleDue::Idle
            }
        },
        AsyncTradeState::PlayerReview => {
            if async_time_reached(now, p.player_due_at.as_str()) {
                LifecycleDue::PlayerReview
            } else {
                LifecycleDue::Idle
            }
        },
        _ => LifecycleDue::Idle,
    }
}

// ---------------------------------------------------------------------------
// Rejections
// ---------------------------------------------------------------------------

/// Why a proposal is rejected.
#[derive(Clone, Copy, Debug, PartialEq, Eq, Structural)]
pub enum RejectionKind {
    SellerReplacementUnavailable,
    BudgetExceeded,
    TargetPlayerRejected,
    TermsUnacceptable,
}

/// How a rejection is recorded and when the same offer may be made again.
#[derive(Clone, Copy, Debug)]
pub struct RejectionPolicy {
    pub actor: &'static str,
    pub reason: &'static str,
    pub reason_ko: &'static str,
    pub policy: &'static str,
    pub retry_days: i64,
    pub changeable: bool,
}

pub open spec fn kind_actor(k: RejectionKind) -> Seq<char> {
    match k {
        RejectionKind::BudgetExceeded => "REQUESTER_TEAM_BUDGET"@,
        RejectionKind::TargetPlayerRejected => "TARGET_PLAYER"@,
        _ => "SELLER_TEAM"@,
    }
}

pub open spec fn kind_reason(k: RejectionKind) -> Seq<char> {
    match k {
        RejectionKind::SellerReplacementUnavailable => "SellerReplacementUnavailable"@,
        RejectionKind::BudgetExceeded => "BudgetExceeded"@,
        RejectionKind::TargetPlayerRejected => "InheritedContractOrPromisedRoleUnacceptable"@,
        RejectionKind::TermsUnacceptable => "TermsUnacceptable"@,
    }
}

pub open spec fn kind_reason_ko(k: RejectionKind) -> Seq<char> {
    match k {
        RejectionKind::SellerReplacementUnavailable => "상대 구단이 적절한 대체 선수를 확보하지 못했습니다."@,
        RejectionKind::BudgetExceeded => "신청팀이 현재 제안 조건을 감당할 예산이 부족합니다."@,
        RejectionKind::TargetPlayerRejected => "선수가 기존 계약 승계 또는 약속 위상 조건에 동의하지 않았습니다."@,
        RejectionKind::TermsUnacceptable => "상대 구단이 현재 선수와 현금 조건을 받아들이지 않았습니다."@,
    }
}

/// The policy text shared by every rejection: a changed package may be offered
/// at once, the same offer after a day.
pub open spec fn retry_policy_text() -> Seq<char> {
    "changed_package_immediate_same_offer_1d"@
}

/// The policy recorded for a rejection of this kind.
pub fn rejection_policy(kind: RejectionKind) -> (p: RejectionPolicy)
    ensures
        p.actor@ == kind_actor(kind),
        p.reason@ == kind_reason(kind),
        p.reason_ko@ == kind_reason_ko(kind),
        p.policy@ == retry_policy_text(),
        p.retry_days == 1,
        p.changeable,
{
    match kind {
        RejectionKind::SellerReplacementUnavailable => RejectionPolicy {
            actor: "SELLER_TEAM",
            reason: "SellerReplacementUnavailable",
            reason_ko: "상대 구단이 적절한 대체 선수를 확보하지 못했습니다.",
            policy: "changed_package_immediate_same_offer_1d",
            retry_days: 1,
            changeable: true,
        },
        RejectionKind::BudgetExceeded => RejectionPolicy {
            actor: "REQUESTER_TEAM_BUDGET",
            reason: "BudgetExceeded",
            reason_ko: "신청팀이 현재 제안 조건을 감당할 예산이 부족합니다.",
            policy: "changed_package_immediate_same_offer_1d",
            retry_days: 1,
            changeable: true,
        },
        RejectionKind::TargetPlayerRejected => RejectionPolicy {
            actor: "TARGET_PLAYER",
            reason: "InheritedContractOrPromisedRoleUnacceptable",
            reason_ko: "선수가 기존 계약 승계 또는 약속 위상 조건에 동의하지 않았습니다.",
            policy: "changed_package_immediate_same_offer_1d",
            retry_days: 1,
            changeable: true,
        },
        RejectionKind::TermsUnacceptable => RejectionPolicy {
            actor: "SELLER_TEAM",
            reason: "TermsUnacceptable",
            reason_ko: "상대 구단이 현재 선수와 현금 조건을 받아들이지 않았습니다.",
            policy: "changed_package_immediate_same_offer_1d",
            retry_days: 1,
            changeable: true,
        },
    }
}

/// The kind named by a reason text; any other text is TermsUnacceptable.
pub open spec fn kind_of_reason(reason: Seq<char>) -> RejectionKind {
    if reason == "SellerReplacementUnavailable"@ {
        RejectionKind::SellerReplacementUnavailable
    } else if reason == "BudgetExceeded"@ {
        RejectionKind::BudgetExceeded
    } else if reason == "TargetPlayerRejected"@ {
        RejectionKind::TargetPlayerRejected
    } else {
        RejectionKind::TermsUnacceptable
    }
}

fn same_text(a: &str, b: &str) -> (r: bool)
    ensures
        r == (a@ == b@),
{
    let x = chars_of(a);
    let y = chars_of(b);
    crate::text::chars_eq(x.as_slice(), y.as_slice())
}

/// The policy for a reason given by name.
pub fn explicit_async_rejection_policy(reason: &str) -> (p: RejectionPolicy)
    ensures
        p.actor@ == kind_actor(kind_of_reason(reason@)),
        p.reason@ == kind_reason(kind_of_reason(reason@)),
        p.reason_ko@ == kind_reason_ko(kind_of_reason(reason@)),
        p.policy@ == retry_policy_text(),
        p.retry_days == 1,
        p.changeable,
{
    let kind = if same_text(reason, "SellerReplacementUnavailable") {
        RejectionKind::SellerReplacementUnavailable
    } else if same_text(reason, "BudgetExceeded") {
        RejectionKind::BudgetExceeded
    } else if same_text(reason, "TargetPlayerRejected") {
        RejectionKind::TargetPlayerRejected
    } else {
        RejectionKind::TermsUnacceptable
    };
    rejection_policy(kind)
}

/// The kind of rejection that a failed review's detail text points to.
pub open spec fn failure_kind(detail: Seq<char>) -> RejectionKind {
    if contains_spec(detail, "SELLER_REPLACEMENT_UNAVAILABLE"@) {
        RejectionKind::SellerReplacementUnavailable
    } else if contains_spec(detail, "budget"@) {
        RejectionKind::BudgetExceeded
    } else {
        RejectionKind::TermsUnacceptable
    }
}

pub fn review_failure_kind(detail: &str) -> (k: RejectionKind)
    ensures
        k == failure_kind(detail@),
{
    let d = chars_of(detail);
    if contains(d.as_slice(), chars_of("SELLER_REPLACEMENT_UNAVAILABLE").as_slice()) {
        RejectionKind::SellerReplacementUnavailable
    } else if contains(d.as_slice(), chars_of("budget").as_slice()) {
        RejectionKind::BudgetExceeded
    } else {
        RejectionKind::TermsUnacceptable
    }
}

/// The short Korean text shown for a rejection reason.
pub fn rejection_reason_short(reason: &str) -> (r: &'static str)
    ensures
        reason@ == "BudgetExceeded"@ ==> r@ == "신청팀 예산 초과"@,
        reason@ != "BudgetExceeded"@ && reason@ == "LastPlayerAtPosition"@ ==> r@ == "상대팀 포지션 공백 위험"@,
        reason@ != "BudgetExceeded"@ && reason@ != "LastPlayerAtPosition"@ && reason@ == "TermsUnacceptable"@
            ==> r@ == "선수·현금 조건 불충족"@,
        reason@ != "BudgetExceeded"@ && reason@ != "LastPlayerAtPosition"@ && reason@ != "TermsUnacceptable"@
            && reason@ == "StatusOrInheritedSalaryUnacceptable"@ ==> r@ == "약속 위상·승계 계약 불수락"@,
        reason@ != "BudgetExceeded"@ && reason@ != "LastPlayerAtPosition"@ && reason@ != "TermsUnacceptable"@
            && reason@ != "StatusOrInheritedSalaryUnacceptable"@ && reason@ == "FinalApprovalRejected"@
            ==> r@ == "최종 승인 거절"@,
        reason@ != "BudgetExceeded"@ && reason@ != "LastPlayerAtPosition"@ && reason@ != "TermsUnacceptable"@
            && reason@ != "StatusOrInheritedSalaryUnacceptable"@ && reason@ != "FinalApprovalRejected"@
            ==> r@ == "승인 조건 불충족"@,
{
    if same_text(reason, "BudgetExceeded") {
        "신청팀 예산 초과"
    } else if same_text(reason, "LastPlayerAtPosition") {
        "상대팀 포지션 공백 위험"
    } else if same_text(reason, "TermsUnacceptable") {
        "선수·현금 조건 불충족"
    } else if same_text(reason, "StatusOrInheritedSalaryUnacceptable") {
        "약속 위상·승계 계약 불수락"
    } else if same_text(reason, "FinalApprovalRejected") {
        "최종 승인 거절"
    } else {
        "승인 조건 불충족"
    }
}

// ---------------------------------------------------------------------------
// Review decisions
// ---------------------------------------------------------------------------

/// What a review that ran found.
#[derive(Clone, Copy, Debug, PartialEq, Eq, Structural)]
pub struct ReviewFlags {
    pub cash_within_budget: bool,
    pub cash_meets_required: bool,
    pub seller_accepted: bool,
    pub seller_repeat_consistent: bool,
    pub player_accepted: bool,
}

/// What the lifecycle does after a review.
#[derive(Clone, Copy, Debug, PartialEq, Eq, Structural)]
pub enum LifecycleDecision {
    /// Reject the proposal for this reason.
    Reject(RejectionKind),
    /// The seller accepted: schedule the player's review.
    AdvanceToPlayerReview,
    /// Everyone accepted: rehearse the rollback and commit the trade.
    Commit,
}

pub open spec fn seller_decision_spec(recruit_open: bool, review: Result<ReviewFlags, Seq<char>>) -> LifecycleDecision {
    if !recruit_open {
        LifecycleDecision::Reject(RejectionKind::TermsUnacceptable)
    } else {
        match review {
            Err(detail) => LifecycleDecision::Reject(failure_kind(detail)),
            Ok(f) => if !f.cash_within_budget {
                LifecycleDecision::Reject(RejectionKind::BudgetExceeded)
            } else if !f.cash_meets_required || !f.seller_accepted || !f.seller_repeat_consistent {
                LifecycleDecision::Reject(RejectionKind::TermsUnacceptable)
            } else {
                LifecycleDecision::AdvanceToPlayerReview
            },
        }
    }
}

/// The review found everything the seller needs: the cash within the
/// budget and at or above what is required, and the seller's policy
/// accepting the package, consistently.
pub open spec fn seller_terms_met(f: ReviewFlags) -> bool {
    f.cash_within_budget && f.cash_meets_required && f.seller_accepted && f.seller_repeat_consistent
}

/// The seller's review moves a proposal on to the player only when the
/// window is open and a review ran and met every term; a package the seller
/// refuses (within the budget) is rejected as unacceptable terms, and the
/// seller's review never commits.  The player's review commits only when
/// the terms still hold and the player accepts.
pub proof fn lemma_reviews_need_acceptance(recruit_open: bool, review: Result<ReviewFlags, Seq<char>>)
    ensures
        seller_decision_spec(recruit_open, review) == LifecycleDecision::AdvanceToPlayerReview <==> (recruit_open
            && (review matches Ok(f) && seller_terms_met(f))),
        recruit_open && (review matches Ok(f) && f.cash_within_budget && !f.seller_accepted) ==> seller_decision_spec(
            recruit_open,
            review,
        ) == LifecycleDecision::Reject(RejectionKind::TermsUnacceptable),
        seller_decision_spec(recruit_open, review) != LifecycleDecision::Commit,
        player_decision_spec(review) == LifecycleDecision::Commit <==> (review matches Ok(f) && seller_terms_met(f)
            && f.player_accepted),
        player_decision_spec(review) != LifecycleDecision::AdvanceToPlayerReview,
{
}

pub open spec fn review_view(review: Result<ReviewFlags, String>) -> Result<ReviewFlags, Seq<char>> {
    match review {
        Ok(f) => Ok(f),
        Err(d) => Err(d@),
    }
}

/// The decision at the seller's review: a closed recruitment window or a
/// failed review rejects; then the budget, then the seller's acceptance of
/// the hidden threshold decide.  `review` is not looked at when the window
/// is closed.
pub fn seller_review_decision(recruit_open: bool, review: &Result<ReviewFlags, String>) -> (d: LifecycleDecision)
    ensures
        d == seller_decision_spec(recruit_open, review_view(*review)),
        d == LifecycleDecision::AdvanceToPlayerReview <==> (recruit_open && (*review matches Ok(f) && seller_terms_met(f))),
        recruit_open && (*review matches Ok(f) && f.cash_within_budget && !f.seller_accepted) ==> d
            == LifecycleDecision::Reject(RejectionKind::TermsUnacceptable),
{
    proof {
        lemma_reviews_need_acceptance(recruit_open, review_view(*review));
    }
    if !recruit_open {
        return LifecycleDecision::Reject(RejectionKind::TermsUnacceptable);
    }
    match review {
        Err(detail) => LifecycleDecision::Reject(review_failure_kind(detail.as_str())),
        Ok(f) => {
            if !f.cash_within_budget {
                LifecycleDecision::Reject(RejectionKind::BudgetExceeded)
            } else if !f.cash_meets_required || !f.seller_accepted || !f.seller_repeat_consistent {
                LifecycleDecision::Reject(RejectionKind::TermsUnacceptable)
            } else {
                LifecycleDecision::AdvanceToPlayerReview
            }
        },
    }
}

pub open spec fn player_decision_spec(review: Result<ReviewFlags, Seq<char>>) -> LifecycleDecision {
    match review {
        Err(detail) => LifecycleDecision::Reject(failure_kind(detail)),
        Ok(f) => if !f.cash_meets_required || !f.cash_within_budget || !f.seller_accepted
            || !f.seller_repeat_consistent {
            LifecycleDecision::Reject(RejectionKind::TermsUnacceptable)
        } else if !f.player_accepted {
            LifecycleDecision::Reject(RejectionKind::TargetPlayerRejected)
        } else {
            LifecycleDecision::Commit
        },
    }
}

/// The decision at the player's review: the seller's conditions are checked
/// again, then the player's answer.
pub fn player_review_decision(review: &Result<ReviewFlags, String>) -> (d: LifecycleDecision)
    ensures
        d == player_decision_spec(review_view(*review)),
        d == LifecycleDecision::Commit <==> (*review matches Ok(f) && seller_terms_met(f) && f.player_accepted),
{
    proof {
        lemma_reviews_need_acceptance(true, review_view(*review));
    }
    match review {
        Err(detail) => LifecycleDecision::Reject(review_failure_kind(detail.as_str())),
        Ok(f) => {
            if !f.cash_meets_required || !f.cash_within_budget || !f.seller_accepted || !f.seller_repeat_consistent {
                LifecycleDecision::Reject(RejectionKind::TermsUnacceptable)
            } else if !f.player_accepted {
                LifecycleDecision::Reject(RejectionKind::TargetPlayerRejected)
            } else {
                LifecycleDecision::Commit
            }
        },
    }
}

// ---------------------------------------------------------------------------
// Applying a decision to the stored proposal
// ---------------------------------------------------------------------------

/// The proposal after its rejection was recorded.
pub open spec fn rejected_view(v: ProposalView, actor: Seq<char>, reason: Seq<char>, reason_ko: Seq<char>, completed_at: Seq<char>) -> ProposalView {
    ProposalView {
        schema_version: v.schema_version,
        proposal_id: v.proposal_id,
        state: AsyncTradeState::Rejected,
        requester_team_id: v.requester_team_id,
        recipient_team_id: v.recipient_team_id,
        offered_id: v.offered_id,
        target_id: v.target_id,
        offered_name: v.offered_name,
        target_name: v.target_name,
        region_id: v.region_id,
        proposed_units: v.proposed_units,
        proposed_cash_won: v.proposed_cash_won,
        desired_status_choice: v.desired_status_choice,
        desired_status_key: v.desired_status_key,
        display_min_units: v.display_min_units,
        display_max_units: v.display_max_units,
        display_lower_percent: v.display_lower_percent,
        display_upper_percent: v.display_upper_percent,
        submitted_at: v.submitted_at,
        seller_due_at: v.seller_due_at,
        player_due_at: v.player_due_at,
        completed_at: completed_at,
        package_fingerprint: v.package_fingerprint,
        offered_contract_fingerprint_at_submit: v.offered_contract_fingerprint_at_submit,
        target_contract_fingerprint_at_submit: v.target_contract_fingerprint_at_submit,
        result_plan_id: v.result_plan_id,
        rejection_actor: actor,
        rejection_reason: reason,
        rejection_reason_ko: reason_ko,
        success_news_id: v.success_news_id,
        transition_count: if v.transition_count < u32::MAX { (v.transition_count + 1) as u32 } else { u32::MAX },
        submit_process_id: v.submit_process_id,
        commit_process_id: v.commit_process_id,
    }
}

/// The proposal after the seller's review passed.
pub open spec fn player_review_view(v: ProposalView, player_due_at: Seq<char>) -> ProposalView {
    ProposalView {
        schema_version: v.schema_version,
        proposal_id: v.proposal_id,
        state: AsyncTradeState::PlayerReview,
        requester_team_id: v.requester_team_id,
        recipient_team_id: v.recipient_team_id,
        offered_id: v.offered_id,
        target_id: v.target_id,
        offered_name: v.offered_name,
        target_name: v.target_name,
        region_id: v.region_id,
        proposed_units: v.proposed_units,
        proposed_cash_won: v.proposed_cash_won,
        desired_status_choice: v.desired_status_choice,
        desired_status_key: v.desired_status_key,
        display_min_units: v.display_min_units,
        display_max_units: v.display_max_units,
        display_lower_percent: v.display_lower_percent,
        display_upper_percent: v.display_upper_percent,
        submitted_at: v.submitted_at,
        seller_due_at: v.seller_due_at,
        player_due_at: player_due_at,
        completed_at: v.completed_at,
        package_fingerprint: v.package_fingerprint,
        offered_contract_fingerprint_at_submit: v.offered_contract_fingerprint_at_submit,
        target_contract_fingerprint_at_submit: v.target_contract_fingerprint_at_submit,
        result_plan_id: v.result_plan_id,
        rejection_actor: v.rejection_actor,
        rejection_reason: v.rejection_reason,
        rejection_reason_ko: v.rejection_reason_ko,
        success_news_id: v.success_news_id,
        transition_count: if v.transition_count < u32::MAX { (v.transition_count + 1) as u32 } else { u32::MAX },
        submit_process_id: v.submit_process_id,
        commit_process_id: v.commit_process_id,
    }
}

/// The proposal after its trade was committed.
pub open spec fn accepted_view(v: ProposalView, completed_at: Seq<char>, plan_id: Seq<char>, commit_process_id: u32) -> ProposalView {
    ProposalView {
        schema_version: v.schema_version,
        proposal_id: v.proposal_id,
        state: AsyncTradeState::Accepted,
        requester_team_id: v.requester_team_id,
        recipient_team_id: v.recipient_team_id,
        offered_id: v.offered_id,
        target_id: v.target_id,
        offered_name: v.offered_name,
        target_name: v.target_name,
        region_id: v.region_id,
        proposed_units: v.proposed_units,
        proposed_cash_won: v.proposed_cash_won,
        desired_status_choice: v.desired_status_choice,
        desired_status_key: v.desired_status_key,
        display_min_units: v.display_min_units,
        display_max_units: v.display_max_units,
        display_lower_percent: v.display_lower_percent,
        display_upper_percent: v.display_upper_percent,
        submitted_at: v.submitted_at,
        seller_due_at: v.seller_due_at,
        player_due_at: v.player_due_at,
        completed_at: completed_at,
        package_fingerprint: v.package_fingerprint,
        offered_contract_fingerprint_at_submit: v.offered_contract_fingerprint_at_submit,
        target_contract_fingerprint_at_submit: v.target_contract_fingerprint_at_submit,
        result_plan_id: plan_id,
        rejection_actor: v.rejection_actor,
        rejection_reason: v.rejection_reason,
        rejection_reason_ko: v.rejection_reason_ko,
        success_news_id: v.proposal_id,
        transition_count: if v.transition_count < u32::MAX { (v.transition_count + 1) as u32 } else { u32::MAX },
        submit_process_id: v.submit_process_id,
        commit_process_id: commit_process_id,
    }
}

/// What happened to a proposal whose review was due, with the data the
/// outside work produced.
#[derive(Debug, PartialEq, Eq)]
pub enum LifecycleOutcome {
    /// The rejection was recorded with this actor and reason, at this time.
    Rejected { actor: String, reason: String, reason_ko: String, completed_at: String },
    /// The seller accepted; the player's review is due at this time.
    PlayerReviewScheduled { player_due_at: String },
    /// The trade was committed as this plan by this process.
    Committed { completed_at: String, plan_id: String, commit_process_id: u32 },
}

pub open spec fn outcome_view(v: ProposalView, o: LifecycleOutcome) -> ProposalView {
    match o {
        LifecycleOutcome::Rejected { actor, reason, reason_ko, completed_at } => rejected_view(
            v,
            actor@,
            reason@,
            reason_ko@,
            completed_at@,
        ),
        LifecycleOutcome::PlayerReviewScheduled { player_due_at } => player_review_view(v, player_due_at@),
        LifecycleOutcome::Committed { completed_at, plan_id, commit_process_id } => accepted_view(
            v,
            completed_at@,
            plan_id@,
            commit_process_id,
        ),
    }
}

/// Records an outcome in the proposal: its new state, the times and ids it
/// brings, and one more transition (the count saturates).
pub fn apply_lifecycle_outcome(p: &mut AsyncTradeProposal, o: LifecycleOutcome)
    ensures
        final(p)@ == outcome_view(old(p)@, o),
{
    let ghost o_view = outcome_view(old(p)@, o);
    match o {
        LifecycleOutcome::Rejected { actor, reason, reason_ko, completed_at } => {
            p.state = AsyncTradeState::Rejected;
            p.completed_at = completed_at;
            p.rejection_actor = actor;
            p.rejection_reason = reason;
            p.rejection_reason_ko = reason_ko;
        },
        LifecycleOutcome::PlayerReviewScheduled { player_due_at } => {
            p.state = AsyncTradeState::PlayerReview;
            p.player_due_at = player_due_at;
        },
        LifecycleOutcome::Committed { completed_at, plan_id, commit_process_id } => {
            p.state = AsyncTradeState::Accepted;
            p.completed_at = completed_at;
            p.result_plan_id = plan_id;
            p.success_news_id = p.proposal_id.clone();
            p.commit_process_id = commit_process_id;
        },
    }
    p.transition_count = p.transition_count.saturating_add(1);
    assert(p@ == o_view);
}

/// How far along a proposal is: in the seller's review, in the player's, or finished.
pub open spec fn stage_rank(s: AsyncTradeState) -> int {
    match s {
        AsyncTradeState::SellerReview => 0,
        AsyncTradeState::PlayerReview => 1,
        _ => 2,
    }
}

/// The outcome that carries out a decision made at a due review.
pub open spec fn realizes(due: LifecycleDue, d: LifecycleDecision, o: LifecycleOutcome) -> bool {
    match d {
        LifecycleDecision::Reject(_) => o is Rejected,
        LifecycleDecision::AdvanceToPlayerReview => due == LifecycleDue::SellerReview && o is PlayerReviewScheduled,
        LifecycleDecision::Commit => due == LifecycleDue::PlayerReview && o is Committed,
    }
}

/// Every step of the lifecycle moves a proposal strictly forward: a due
/// review's decision, once recorded, leaves the proposal at a later stage
/// (seller review, then player review, then finished) with one more
/// transition counted; a finished proposal is never due, so it never changes.
pub proof fn lemma_lifecycle_moves_forward(
    v: ProposalView,
    now: Seq<char>,
    recruit_open: bool,
    review: Result<ReviewFlags, Seq<char>>,
    o: LifecycleOutcome,
)
    requires
        due_spec(v, now) != LifecycleDue::Idle,
        realizes(
            due_spec(v, now),
            if due_spec(v, now) == LifecycleDue::SellerReview {
                seller_decision_spec(recruit_open, review)
            } else {
                player_decision_spec(review)
            },
            o,
        ),
    ensures
        !is_terminal(v.state),
        stage_rank(outcome_view(v, o).state) > stage_rank(v.state),
        v.transition_count < u32::MAX ==> outcome_view(v, o).transition_count == v.transition_count + 1,
        outcome_view(v, o).proposal_id == v.proposal_id,
        outcome_view(v, o).package_fingerprint == v.package_fingerprint,
        outcome_view(v, o).proposed_cash_won == v.proposed_cash_won,
{
}

/// A finished proposal is never due for review.
pub proof fn lemma_finished_is_idle(v: ProposalView, now: Seq<char>)
    requires
        is_terminal(v.state),
    ensures
        due_spec(v, now) == LifecycleDue::Idle,
{
}

// ---------------------------------------------------------------------------
// A new proposal
// ---------------------------------------------------------------------------

/// What a submission brings to a new proposal; the times and the package
/// fingerprint are computed outside.
#[derive(Debug, PartialEq, Eq)]
pub struct ProposalDraft {
    pub requester_team_id: usize,
    pub recipient_team_id: usize,
    pub offered_id: usize,
    pub target_id: usize,
    pub offered_name: String,
    pub target_name: String,
    pub region_id: usize,
    pub proposed_units: u64,
    pub proposed_cash_won: u64,
    pub desired_status_choice: u8,
    pub display_min_units: u64,
    pub display_max_units: u64,
    pub display_lower_percent: u8,
    pub display_upper_percent: u8,
    pub submitted_at: String,
    pub seller_due_at: String,
    pub package_fingerprint: u64,
    pub submit_process_id: u32,
}

/// The proposal a submission stores: in the seller's review, with the
/// contracts of both players sealed by their fingerprints, nothing decided
/// yet and no transition made.
pub fn new_async_proposal(
    d: ProposalDraft,
    offered_snapshot: &AthleteTradeSnapshot,
    target_snapshot: &AthleteTradeSnapshot,
) -> (p: AsyncTradeProposal)
    ensures
        p@.schema_version == 1,
        p@.state == AsyncTradeState::SellerReview,
        p@.requester_team_id == d.requester_team_id,
        p@.recipient_team_id == d.recipient_team_id,
        p@.offered_id == d.offered_id,
        p@.target_id == d.target_id,
        p@.offered_name == d.offered_name@,
        p@.target_name == d.target_name@,
        p@.region_id == d.region_id,
        p@.proposed_units == d.proposed_units,
        p@.proposed_cash_won == d.proposed_cash_won,
        p@.desired_status_choice == d.desired_status_choice,
        p@.desired_status_key == crate::commit::status_key_of(d.desired_status_choice),
        p@.display_min_units == d.display_min_units,
        p@.display_max_units == d.display_max_units,
        p@.display_lower_percent == d.display_lower_percent,
        p@.display_upper_percent == d.display_upper_percent,
        p@.submitted_at == d.submitted_at@,
        p@.seller_due_at == d.seller_due_at@,
        p@.player_due_at.len() == 0,
        p@.completed_at.len() == 0,
        p@.package_fingerprint == d.package_fingerprint,
        p@.offered_contract_fingerprint_at_submit == fnv_spec(vstd::utf8::encode_utf8(snapshot_text(*offered_snapshot))),
        p@.target_contract_fingerprint_at_submit == fnv_spec(vstd::utf8::encode_utf8(snapshot_text(*target_snapshot))),
        p@.proposal_id == "T77-"@ + crate::text::hex_fixed(
            fnv_spec(
                vstd::utf8::encode_utf8(
                    crate::trade::proposal_id_text(
                        d.requester_team_id as nat,
                        d.recipient_team_id as nat,
                        d.offered_id as nat,
                        d.target_id as nat,
                        d.proposed_cash_won as nat,
                        d.desired_status_choice as nat,
                        d.submitted_at@,
                        d.submit_process_id as nat,
                    ),
                ),
            ) as nat,
            16,
        ),
        p@.result_plan_id.len() == 0,
        p@.rejection_actor.len() == 0,
        p@.rejection_reason.len() == 0,
        p@.rejection_reason_ko.len() == 0,
        p@.success_news_id.len() == 0,
        p@.transition_count == 0,
        p@.submit_process_id == d.submit_process_id,
        p@.commit_process_id == 0,
{
    let proposal_id = async_proposal_id(
        d.requester_team_id,
        d.recipient_team_id,
        d.offered_id,
        d.target_id,
        d.proposed_cash_won,
        d.desired_status_choice,
        d.submitted_at.as_str(),
        d.submit_process_id,
    );
    let key = crate::status::desired_squad_status(d.desired_status_choice).0;
    let offered_fp = athlete_trade_fingerprint(offered_snapshot);
    let target_fp = athlete_trade_fingerprint(target_snapshot);
    AsyncTradeProposal {
        schema_version: 1,
        proposal_id,
        state: AsyncTradeState::SellerReview,
        requester_team_id: d.requester_team_id,
        recipient_team_id: d.recipient_team_id,
        offered_id: d.offered_id,
        target_id: d.target_id,
        offered_name: d.offered_name,
        target_name: d.target_name,
        region_id: d.region_id,
        proposed_units: d.proposed_units,
        proposed_cash_won: d.proposed_cash_won,
        desired_status_choice: d.desired_status_choice,
        desired_status_key: string_of_str(key),
        display_min_units: d.display_min_units,
        display_max_units: d.display_max_units,
        display_lower_percent: d.display_lower_percent,
        display_upper_percent: d.display_upper_percent,
        submitted_at: d.submitted_at,
        seller_due_at: d.seller_due_at,
        player_due_at: String::new(),
        completed_at: String::new(),
        package_fingerprint: d.package_fingerprint,
        offered_contract_fingerprint_at_submit: offered_fp,
        target_contract_fingerprint_at_submit: target_fp,
        result_plan_id: String::new(),
        rejection_actor: String::new(),
        rejection_reason: String::new(),
        rejection_reason_ko: String::new(),
        success_news_id: String::new(),
        transition_count: 0,
        submit_process_id: d.submit_process_id,
        commit_process_id: 0,
    }
}

fn string_of_str(s: &str) -> (r: String)
    ensures
        r@ == s@,
{
    let c = chars_of(s);
    crate::text::string_of(c.as_slice())
}

/// A submitted proposal reaches the player's review: a new proposal waits in
/// the seller's review; once its due time is reached, with the window open
/// and a review that finds the cash within the budget, at or above what is
/// required and accepted (consistently) by the seller, the seller's review is
/// due, its decision schedules the player's review, and recording that
/// leaves the proposal in the player's review with its due time, the
/// proposal otherwise the same and one more transition counted.
pub proof fn lemma_submitted_reaches_player_review(
    v: ProposalView,
    now: Seq<char>,
    flags: ReviewFlags,
    player_due_at: Seq<char>,
)
    requires
        v.state == AsyncTradeState::SellerReview,
        v.transition_count == 0,
        time_reached(now, v.seller_due_at),
        flags.cash_within_budget,
        flags.cash_meets_required,
        flags.seller_accepted,
        flags.seller_repeat_consistent,
    ensures
        due_spec(v, now) == LifecycleDue::SellerReview,
        seller_decision_spec(true, Ok::<ReviewFlags, Seq<char>>(flags)) == LifecycleDecision::AdvanceToPlayerReview,
        player_review_view(v, player_due_at) == (ProposalView {
            state: AsyncTradeState::PlayerReview,
            player_due_at: player_due_at,
            transition_count: 1,
            ..v
        }),
        player_due_at.len() > 0 ==> due_spec(player_review_view(v, player_due_at), now) == (if time_reached(
            now,
            player_due_at,
        ) {
            LifecycleDue::PlayerReview
        } else {
            LifecycleDue::Idle
        }),
{
}

} // verus!

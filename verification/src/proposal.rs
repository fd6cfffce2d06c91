//! The asynchronous trade proposal: its five states, and its save-data record
//! (`key=value` lines) with the decoder that reads it back.
use vstd::prelude::*;
use crate::fields::{
    DecodeError, DecodeFault, at_most, from_kv_error, hex_field, hex_of, lemma_dec_value_ok,
    lemma_hex_value_ok, need_hex, need_at_most, need_num, need_text, num_field, num_of, payload_fault,
    text_field,
};
use crate::kv::{
    fields_map, fields_ok, key_ok, lemma_fields_map_distinct, lemma_render_roundtrip, parse_kv_payload,
    push_line, read_payload, render, render_line, utf8_bytes, value_ok, KvPayload,
};
use crate::text::{
    chars_eq, chars_of, dec, decimal, hex16, hex_fixed, is_whitespace, lemma_parse_dec,
    lemma_parse_hex16, parse_hex_u64, parse_unsigned, sanitize_chars, sanitize_spec, string_of,
};

verus! {

/// Where an asynchronous proposal stands.
#[derive(Clone, Copy, Debug, PartialEq, Eq, Structural)]
pub enum AsyncTradeState {
    SellerReview,
    PlayerReview,
    Accepted,
    Rejected,
    Cancelled,
}

/// The stored name of each state.
pub open spec fn state_name(s: AsyncTradeState) -> Seq<char> {
    match s {
        AsyncTradeState::SellerReview => "SellerReview"@,
        AsyncTradeState::PlayerReview => "PlayerReview"@,
        AsyncTradeState::Accepted => "Accepted"@,
        AsyncTradeState::Rejected => "Rejected"@,
        AsyncTradeState::Cancelled => "Cancelled"@,
    }
}

/// The state a stored name stands for.
pub open spec fn state_from_name(v: Seq<char>) -> Option<AsyncTradeState> {
    if v == "SellerReview"@ {
        Some(AsyncTradeState::SellerReview)
    } else if v == "PlayerReview"@ {
        Some(AsyncTradeState::PlayerReview)
    } else if v == "Accepted"@ {
        Some(AsyncTradeState::Accepted)
    } else if v == "Rejected"@ {
        Some(AsyncTradeState::Rejected)
    } else if v == "Cancelled"@ {
        Some(AsyncTradeState::Cancelled)
    } else {
        None
    }
}

/// The Korean stage label of each state.
pub open spec fn stage_ko_spec(s: AsyncTradeState) -> Seq<char> {
    match s {
        AsyncTradeState::SellerReview => "판매 구단 검토"@,
        AsyncTradeState::PlayerReview => "선수 검토"@,
        AsyncTradeState::Accepted => "트레이드 성사"@,
        AsyncTradeState::Rejected => "트레이드 결렬"@,
        AsyncTradeState::Cancelled => "트레이드 취소"@,
    }
}

/// Accepted, rejected and cancelled proposals are finished.
pub open spec fn is_terminal(s: AsyncTradeState) -> bool {
    s is Accepted || s is Rejected || s is Cancelled
}

impl AsyncTradeState {
    pub fn as_str(self) -> (r: &'static str)
        ensures
            r@ == state_name(self),
    {
        match self {
            AsyncTradeState::SellerReview => "SellerReview",
            AsyncTradeState::PlayerReview => "PlayerReview",
            AsyncTradeState::Accepted => "Accepted",
            AsyncTradeState::Rejected => "Rejected",
            AsyncTradeState::Cancelled => "Cancelled",
        }
    }

    /// Reads a stored state name; any other text is an error.
    pub fn from_str(value: &str) -> (r: Result<AsyncTradeState, DecodeError>)
        ensures
            match state_from_name(value@) {
                Some(s) => r == Ok::<AsyncTradeState, DecodeError>(s),
                None => r matches Err(e) && e@ == DecodeFault::UnknownState(value@),
            },
    {
        let v = chars_of(value);
        let a = chars_of("SellerReview");
        let b = chars_of("PlayerReview");
        let c = chars_of("Accepted");
        let d = chars_of("Rejected");
        let e = chars_of("Cancelled");
        if chars_eq(v.as_slice(), a.as_slice()) {
            Ok(AsyncTradeState::SellerReview)
        } else if chars_eq(v.as_slice(), b.as_slice()) {
            Ok(AsyncTradeState::PlayerReview)
        } else if chars_eq(v.as_slice(), c.as_slice()) {
            Ok(AsyncTradeState::Accepted)
        } else if chars_eq(v.as_slice(), d.as_slice()) {
            Ok(AsyncTradeState::Rejected)
        } else if chars_eq(v.as_slice(), e.as_slice()) {
            Ok(AsyncTradeState::Cancelled)
        } else {
            Err(DecodeError::UnknownState(string_of(v.as_slice())))
        }
    }

    pub fn stage_ko(self) -> (r: &'static str)
        ensures
            r@ == stage_ko_spec(self),
    {
        match self {
            AsyncTradeState::SellerReview => "판매 구단 검토",
            AsyncTradeState::PlayerReview => "선수 검토",
            AsyncTradeState::Accepted => "트레이드 성사",
            AsyncTradeState::Rejected => "트레이드 결렬",
            AsyncTradeState::Cancelled => "트레이드 취소",
        }
    }

    pub fn terminal(self) -> (r: bool)
        ensures
            r == is_terminal(self),
    {
        match self {
            AsyncTradeState::Accepted | AsyncTradeState::Rejected | AsyncTradeState::Cancelled => true,
            _ => false,
        }
    }
}

pub open spec fn k_schema_version() -> Seq<char> {
    seq!['s', 'c', 'h', 'e', 'm', 'a', '_', 'v', 'e', 'r', 's', 'i', 'o', 'n']
}

pub open spec fn k_proposal_id() -> Seq<char> {
    seq!['p', 'r', 'o', 'p', 'o', 's', 'a', 'l', '_', 'i', 'd']
}

pub open spec fn k_state() -> Seq<char> {
    seq!['s', 't', 'a', 't', 'e']
}

pub open spec fn k_requester_team_id() -> Seq<char> {
    seq!['r', 'e', 'q', 'u', 'e', 's', 't', 'e', 'r', '_', 't', 'e', 'a', 'm', '_', 'i', 'd']
}

pub open spec fn k_recipient_team_id() -> Seq<char> {
    seq!['r', 'e', 'c', 'i', 'p', 'i', 'e', 'n', 't', '_', 't', 'e', 'a', 'm', '_', 'i', 'd']
}

pub open spec fn k_offered_id() -> Seq<char> {
    seq!['o', 'f', 'f', 'e', 'r', 'e', 'd', '_', 'i', 'd']
}

pub open spec fn k_target_id() -> Seq<char> {
    seq!['t', 'a', 'r', 'g', 'e', 't', '_', 'i', 'd']
}

pub open spec fn k_offered_name() -> Seq<char> {
    seq!['o', 'f', 'f', 'e', 'r', 'e', 'd', '_', 'n', 'a', 'm', 'e']
}

pub open spec fn k_target_name() -> Seq<char> {
    seq!['t', 'a', 'r', 'g', 'e', 't', '_', 'n', 'a', 'm', 'e']
}

pub open spec fn k_region_id() -> Seq<char> {
    seq!['r', 'e', 'g', 'i', 'o', 'n', '_', 'i', 'd']
}

pub open spec fn k_proposed_units() -> Seq<char> {
    seq!['p', 'r', 'o', 'p', 'o', 's', 'e', 'd', '_', 'u', 'n', 'i', 't', 's']
}

pub open spec fn k_proposed_cash_won() -> Seq<char> {
    seq!['p', 'r', 'o', 'p', 'o', 's', 'e', 'd', '_', 'c', 'a', 's', 'h', '_', 'w', 'o', 'n']
}

pub open spec fn k_desired_status_choice() -> Seq<char> {
    seq!['d', 'e', 's', 'i', 'r', 'e', 'd', '_', 's', 't', 'a', 't', 'u', 's', '_', 'c', 'h', 'o', 'i', 'c', 'e']
}

pub open spec fn k_desired_status_key() -> Seq<char> {
    seq!['d', 'e', 's', 'i', 'r', 'e', 'd', '_', 's', 't', 'a', 't', 'u', 's', '_', 'k', 'e', 'y']
}

pub open spec fn k_display_min_units() -> Seq<char> {
    seq!['d', 'i', 's', 'p', 'l', 'a', 'y', '_', 'm', 'i', 'n', '_', 'u', 'n', 'i', 't', 's']
}

pub open spec fn k_display_max_units() -> Seq<char> {
    seq!['d', 'i', 's', 'p', 'l', 'a', 'y', '_', 'm', 'a', 'x', '_', 'u', 'n', 'i', 't', 's']
}

pub open spec fn k_display_lower_percent() -> Seq<char> {
    seq!['d', 'i', 's', 'p', 'l', 'a', 'y', '_', 'l', 'o', 'w', 'e', 'r', '_', 'p', 'e', 'r', 'c', 'e', 'n', 't']
}

pub open spec fn k_display_upper_percent() -> Seq<char> {
    seq!['d', 'i', 's', 'p', 'l', 'a', 'y', '_', 'u', 'p', 'p', 'e', 'r', '_', 'p', 'e', 'r', 'c', 'e', 'n', 't']
}

pub open spec fn k_submitted_at() -> Seq<char> {
    seq!['s', 'u', 'b', 'm', 'i', 't', 't', 'e', 'd', '_', 'a', 't']
}

pub open spec fn k_seller_due_at() -> Seq<char> {
    seq!['s', 'e', 'l', 'l', 'e', 'r', '_', 'd', 'u', 'e', '_', 'a', 't']
}

pub open spec fn k_player_due_at() -> Seq<char> {
    seq!['p', 'l', 'a', 'y', 'e', 'r', '_', 'd', 'u', 'e', '_', 'a', 't']
}

pub open spec fn k_completed_at() -> Seq<char> {
    seq!['c', 'o', 'm', 'p', 'l', 'e', 't', 'e', 'd', '_', 'a', 't']
}

pub open spec fn k_package_fingerprint() -> Seq<char> {
    seq!['p', 'a', 'c', 'k', 'a', 'g', 'e', '_', 'f', 'i', 'n', 'g', 'e', 'r', 'p', 'r', 'i', 'n', 't']
}

pub open spec fn k_offered_contract_fingerprint_at_submit() -> Seq<char> {
    seq!['o', 'f', 'f', 'e', 'r', 'e', 'd', '_', 'c', 'o', 'n', 't', 'r', 'a', 'c', 't', '_', 'f', 'i', 'n', 'g', 'e', 'r', 'p', 'r', 'i', 'n', 't', '_', 'a', 't', '_', 's', 'u', 'b', 'm', 'i', 't']
}

pub open spec fn k_target_contract_fingerprint_at_submit() -> Seq<char> {
    seq!['t', 'a', 'r', 'g', 'e', 't', '_', 'c', 'o', 'n', 't', 'r', 'a', 'c', 't', '_', 'f', 'i', 'n', 'g', 'e', 'r', 'p', 'r', 'i', 'n', 't', '_', 'a', 't', '_', 's', 'u', 'b', 'm', 'i', 't']
}

pub open spec fn k_result_plan_id() -> Seq<char> {
    seq!['r', 'e', 's', 'u', 'l', 't', '_', 'p', 'l', 'a', 'n', '_', 'i', 'd']
}

pub open spec fn k_rejection_actor() -> Seq<char> {
    seq!['r', 'e', 'j', 'e', 'c', 't', 'i', 'o', 'n', '_', 'a', 'c', 't', 'o', 'r']
}

pub open spec fn k_rejection_reason() -> Seq<char> {
    seq!['r', 'e', 'j', 'e', 'c', 't', 'i', 'o', 'n', '_', 'r', 'e', 'a', 's', 'o', 'n']
}

pub open spec fn k_rejection_reason_ko() -> Seq<char> {
    seq!['r', 'e', 'j', 'e', 'c', 't', 'i', 'o', 'n', '_', 'r', 'e', 'a', 's', 'o', 'n', '_', 'k', 'o']
}

pub open spec fn k_success_news_id() -> Seq<char> {
    seq!['s', 'u', 'c', 'c', 'e', 's', 's', '_', 'n', 'e', 'w', 's', '_', 'i', 'd']
}

pub open spec fn k_transition_count() -> Seq<char> {
    seq!['t', 'r', 'a', 'n', 's', 'i', 't', 'i', 'o', 'n', '_', 'c', 'o', 'u', 'n', 't']
}

pub open spec fn k_submit_process_id() -> Seq<char> {
    seq!['s', 'u', 'b', 'm', 'i', 't', '_', 'p', 'r', 'o', 'c', 'e', 's', 's', '_', 'i', 'd']
}

pub open spec fn k_commit_process_id() -> Seq<char> {
    seq!['c', 'o', 'm', 'm', 'i', 't', '_', 'p', 'r', 'o', 'c', 'e', 's', 's', '_', 'i', 'd']
}

/// The keys that the record uses are the strings written in the code.
pub proof fn lemma_proposal_keys()
    ensures
        "schema_version"@ == k_schema_version(),
        "proposal_id"@ == k_proposal_id(),
        "state"@ == k_state(),
        "requester_team_id"@ == k_requester_team_id(),
        "recipient_team_id"@ == k_recipient_team_id(),
        "offered_id"@ == k_offered_id(),
        "target_id"@ == k_target_id(),
        "offered_name"@ == k_offered_name(),
        "target_name"@ == k_target_name(),
        "region_id"@ == k_region_id(),
        "proposed_units"@ == k_proposed_units(),
        "proposed_cash_won"@ == k_proposed_cash_won(),
        "desired_status_choice"@ == k_desired_status_choice(),
        "desired_status_key"@ == k_desired_status_key(),
        "display_min_units"@ == k_display_min_units(),
        "display_max_units"@ == k_display_max_units(),
        "display_lower_percent"@ == k_display_lower_percent(),
        "display_upper_percent"@ == k_display_upper_percent(),
        "submitted_at"@ == k_submitted_at(),
        "seller_due_at"@ == k_seller_due_at(),
        "player_due_at"@ == k_player_due_at(),
        "completed_at"@ == k_completed_at(),
        "package_fingerprint"@ == k_package_fingerprint(),
        "offered_contract_fingerprint_at_submit"@ == k_offered_contract_fingerprint_at_submit(),
        "target_contract_fingerprint_at_submit"@ == k_target_contract_fingerprint_at_submit(),
        "result_plan_id"@ == k_result_plan_id(),
        "rejection_actor"@ == k_rejection_actor(),
        "rejection_reason"@ == k_rejection_reason(),
        "rejection_reason_ko"@ == k_rejection_reason_ko(),
        "success_news_id"@ == k_success_news_id(),
        "transition_count"@ == k_transition_count(),
        "submit_process_id"@ == k_submit_process_id(),
        "commit_process_id"@ == k_commit_process_id(),
{
    reveal_strlit("schema_version");
    assert("schema_version"@ =~= k_schema_version());
    reveal_strlit("proposal_id");
    assert("proposal_id"@ =~= k_proposal_id());
    reveal_strlit("state");
    assert("state"@ =~= k_state());
    reveal_strlit("requester_team_id");
    assert("requester_team_id"@ =~= k_requester_team_id());
    reveal_strlit("recipient_team_id");
    assert("recipient_team_id"@ =~= k_recipient_team_id());
    reveal_strlit("offered_id");
    assert("offered_id"@ =~= k_offered_id());
    reveal_strlit("target_id");
    assert("target_id"@ =~= k_target_id());
    reveal_strlit("offered_name");
    assert("offered_name"@ =~= k_offered_name());
    reveal_strlit("target_name");
    assert("target_name"@ =~= k_target_name());
    reveal_strlit("region_id");
    assert("region_id"@ =~= k_region_id());
    reveal_strlit("proposed_units");
    assert("proposed_units"@ =~= k_proposed_units());
    reveal_strlit("proposed_cash_won");
    assert("proposed_cash_won"@ =~= k_proposed_cash_won());
    reveal_strlit("desired_status_choice");
    assert("desired_status_choice"@ =~= k_desired_status_choice());
    reveal_strlit("desired_status_key");
    assert("desired_status_key"@ =~= k_desired_status_key());
    reveal_strlit("display_min_units");
    assert("display_min_units"@ =~= k_display_min_units());
    reveal_strlit("display_max_units");
    assert("display_max_units"@ =~= k_display_max_units());
    reveal_strlit("display_lower_percent");
    assert("display_lower_percent"@ =~= k_display_lower_percent());
    reveal_strlit("display_upper_percent");
    assert("display_upper_percent"@ =~= k_display_upper_percent());
    reveal_strlit("submitted_at");
    assert("submitted_at"@ =~= k_submitted_at());
    reveal_strlit("seller_due_at");
    assert("seller_due_at"@ =~= k_seller_due_at());
    reveal_strlit("player_due_at");
    assert("player_due_at"@ =~= k_player_due_at());
    reveal_strlit("completed_at");
    assert("completed_at"@ =~= k_completed_at());
    reveal_strlit("package_fingerprint");
    assert("package_fingerprint"@ =~= k_package_fingerprint());
    reveal_strlit("offered_contract_fingerprint_at_submit");
    assert("offered_contract_fingerprint_at_submit"@ =~= k_offered_contract_fingerprint_at_submit());
    reveal_strlit("target_contract_fingerprint_at_submit");
    assert("target_contract_fingerprint_at_submit"@ =~= k_target_contract_fingerprint_at_submit());
    reveal_strlit("result_plan_id");
    assert("result_plan_id"@ =~= k_result_plan_id());
    reveal_strlit("rejection_actor");
    assert("rejection_actor"@ =~= k_rejection_actor());
    reveal_strlit("rejection_reason");
    assert("rejection_reason"@ =~= k_rejection_reason());
    reveal_strlit("rejection_reason_ko");
    assert("rejection_reason_ko"@ =~= k_rejection_reason_ko());
    reveal_strlit("success_news_id");
    assert("success_news_id"@ =~= k_success_news_id());
    reveal_strlit("transition_count");
    assert("transition_count"@ =~= k_transition_count());
    reveal_strlit("submit_process_id");
    assert("submit_process_id"@ =~= k_submit_process_id());
    reveal_strlit("commit_process_id");
    assert("commit_process_id"@ =~= k_commit_process_id());
}

/// A proposal as it is kept in the save data.
#[derive(Debug, PartialEq, Eq)]
pub struct AsyncTradeProposal {
    pub schema_version: u8,
    pub proposal_id: String,
    pub state: AsyncTradeState,
    pub requester_team_id: usize,
    pub recipient_team_id: usize,
    pub offered_id: usize,
    pub target_id: usize,
    pub offered_name: String,
    pub target_name: String,
    pub region_id: usize,
    pub proposed_units: u64,
    pub proposed_cash_won: u64,
    pub desired_status_choice: u8,
    pub desired_status_key: String,
    pub display_min_units: u64,
    pub display_max_units: u64,
    pub display_lower_percent: u8,
    pub display_upper_percent: u8,
    pub submitted_at: String,
    pub seller_due_at: String,
    pub player_due_at: String,
    pub completed_at: String,
    pub package_fingerprint: u64,
    pub offered_contract_fingerprint_at_submit: u64,
    pub target_contract_fingerprint_at_submit: u64,
    pub result_plan_id: String,
    pub rejection_actor: String,
    pub rejection_reason: String,
    pub rejection_reason_ko: String,
    pub success_news_id: String,
    pub transition_count: u32,
    pub submit_process_id: u32,
    pub commit_process_id: u32,
}

/// The same, with text as character sequences.
pub struct ProposalView {
    pub schema_version: u8,
    pub proposal_id: Seq<char>,
    pub state: AsyncTradeState,
    pub requester_team_id: usize,
    pub recipient_team_id: usize,
    pub offered_id: usize,
    pub target_id: usize,
    pub offered_name: Seq<char>,
    pub target_name: Seq<char>,
    pub region_id: usize,
    pub proposed_units: u64,
    pub proposed_cash_won: u64,
    pub desired_status_choice: u8,
    pub desired_status_key: Seq<char>,
    pub display_min_units: u64,
    pub display_max_units: u64,
    pub display_lower_percent: u8,
    pub display_upper_percent: u8,
    pub submitted_at: Seq<char>,
    pub seller_due_at: Seq<char>,
    pub player_due_at: Seq<char>,
    pub completed_at: Seq<char>,
    pub package_fingerprint: u64,
    pub offered_contract_fingerprint_at_submit: u64,
    pub target_contract_fingerprint_at_submit: u64,
    pub result_plan_id: Seq<char>,
    pub rejection_actor: Seq<char>,
    pub rejection_reason: Seq<char>,
    pub rejection_reason_ko: Seq<char>,
    pub success_news_id: Seq<char>,
    pub transition_count: u32,
    pub submit_process_id: u32,
    pub commit_process_id: u32,
}

impl View for AsyncTradeProposal {
    type V = ProposalView;

    open spec fn view(&self) -> ProposalView {
        ProposalView {
            schema_version: self.schema_version,
            proposal_id: self.proposal_id@,
            state: self.state,
            requester_team_id: self.requester_team_id,
            recipient_team_id: self.recipient_team_id,
            offered_id: self.offered_id,
            target_id: self.target_id,
            offered_name: self.offered_name@,
            target_name: self.target_name@,
            region_id: self.region_id,
            proposed_units: self.proposed_units,
            proposed_cash_won: self.proposed_cash_won,
            desired_status_choice: self.desired_status_choice,
            desired_status_key: self.desired_status_key@,
            display_min_units: self.display_min_units,
            display_max_units: self.display_max_units,
            display_lower_percent: self.display_lower_percent,
            display_upper_percent: self.display_upper_percent,
            submitted_at: self.submitted_at@,
            seller_due_at: self.seller_due_at@,
            player_due_at: self.player_due_at@,
            completed_at: self.completed_at@,
            package_fingerprint: self.package_fingerprint,
            offered_contract_fingerprint_at_submit: self.offered_contract_fingerprint_at_submit,
            target_contract_fingerprint_at_submit: self.target_contract_fingerprint_at_submit,
            result_plan_id: self.result_plan_id@,
            rejection_actor: self.rejection_actor@,
            rejection_reason: self.rejection_reason@,
            rejection_reason_ko: self.rejection_reason_ko@,
            success_news_id: self.success_news_id@,
            transition_count: self.transition_count,
            submit_process_id: self.submit_process_id,
            commit_process_id: self.commit_process_id,
        }
    }
}

/// The lines of a stored proposal, in the order they are written.
pub open spec fn proposal_fields(p: ProposalView) -> Seq<(Seq<char>, Seq<char>)> {
    seq![
        (k_schema_version(), dec(p.schema_version as nat)),
        (k_proposal_id(), p.proposal_id),
        (k_state(), state_name(p.state)),
        (k_requester_team_id(), dec(p.requester_team_id as nat)),
        (k_recipient_team_id(), dec(p.recipient_team_id as nat)),
        (k_offered_id(), dec(p.offered_id as nat)),
        (k_target_id(), dec(p.target_id as nat)),
        (k_offered_name(), sanitize_spec(p.offered_name)),
        (k_target_name(), sanitize_spec(p.target_name)),
        (k_region_id(), dec(p.region_id as nat)),
        (k_proposed_units(), dec(p.proposed_units as nat)),
        (k_proposed_cash_won(), dec(p.proposed_cash_won as nat)),
        (k_desired_status_choice(), dec(p.desired_status_choice as nat)),
        (k_desired_status_key(), p.desired_status_key),
        (k_display_min_units(), dec(p.display_min_units as nat)),
        (k_display_max_units(), dec(p.display_max_units as nat)),
        (k_display_lower_percent(), dec(p.display_lower_percent as nat)),
        (k_display_upper_percent(), dec(p.display_upper_percent as nat)),
        (k_submitted_at(), p.submitted_at),
        (k_seller_due_at(), p.seller_due_at),
        (k_player_due_at(), p.player_due_at),
        (k_completed_at(), p.completed_at),
        (k_package_fingerprint(), hex_fixed(p.package_fingerprint as nat, 16)),
        (k_offered_contract_fingerprint_at_submit(), hex_fixed(p.offered_contract_fingerprint_at_submit as nat, 16)),
        (k_target_contract_fingerprint_at_submit(), hex_fixed(p.target_contract_fingerprint_at_submit as nat, 16)),
        (k_result_plan_id(), p.result_plan_id),
        (k_rejection_actor(), p.rejection_actor),
        (k_rejection_reason(), p.rejection_reason),
        (k_rejection_reason_ko(), sanitize_spec(p.rejection_reason_ko)),
        (k_success_news_id(), p.success_news_id),
        (k_transition_count(), dec(p.transition_count as nat)),
        (k_submit_process_id(), dec(p.submit_process_id as nat)),
        (k_commit_process_id(), dec(p.commit_process_id as nat)),
    ]
}

/// What decoding a read payload gives: the first failing field in the order
/// the fields are read, or the proposal.
pub open spec fn decode_proposal_map(m: Map<Seq<char>, Seq<char>>) -> Result<ProposalView, DecodeFault> {
    if need_num(m, k_schema_version(), (u64::MAX as nat)) is Some {
        Err(need_num(m, k_schema_version(), (u64::MAX as nat))->0)
    } else if need_at_most(m, k_schema_version(), 255) is Some {
        Err(need_at_most(m, k_schema_version(), 255)->0)
    } else if num_of(m, k_schema_version()) != 1 {
        Err(DecodeFault::UnsupportedSchema(num_of(m, k_schema_version())))
    } else if need_num(m, k_desired_status_choice(), (u64::MAX as nat)) is Some {
        Err(need_num(m, k_desired_status_choice(), (u64::MAX as nat))->0)
    } else if need_at_most(m, k_desired_status_choice(), 255) is Some {
        Err(need_at_most(m, k_desired_status_choice(), 255)->0)
    } else if need_num(m, k_display_lower_percent(), (u64::MAX as nat)) is Some {
        Err(need_num(m, k_display_lower_percent(), (u64::MAX as nat))->0)
    } else if need_num(m, k_display_upper_percent(), (u64::MAX as nat)) is Some {
        Err(need_num(m, k_display_upper_percent(), (u64::MAX as nat))->0)
    } else if need_num(m, k_transition_count(), (u64::MAX as nat)) is Some {
        Err(need_num(m, k_transition_count(), (u64::MAX as nat))->0)
    } else if need_num(m, k_submit_process_id(), (u64::MAX as nat)) is Some {
        Err(need_num(m, k_submit_process_id(), (u64::MAX as nat))->0)
    } else if need_num(m, k_commit_process_id(), (u64::MAX as nat)) is Some {
        Err(need_num(m, k_commit_process_id(), (u64::MAX as nat))->0)
    } else if need_text(m, k_proposal_id()) is Some {
        Err(need_text(m, k_proposal_id())->0)
    } else if need_text(m, k_state()) is Some {
        Err(need_text(m, k_state())->0)
    } else if state_from_name(m[k_state()]) is None {
        Err(DecodeFault::UnknownState(m[k_state()]))
    } else if need_num(m, k_requester_team_id(), (usize::MAX as nat)) is Some {
        Err(need_num(m, k_requester_team_id(), (usize::MAX as nat))->0)
    } else if need_num(m, k_recipient_team_id(), (usize::MAX as nat)) is Some {
        Err(need_num(m, k_recipient_team_id(), (usize::MAX as nat))->0)
    } else if need_num(m, k_offered_id(), (usize::MAX as nat)) is Some {
        Err(need_num(m, k_offered_id(), (usize::MAX as nat))->0)
    } else if need_num(m, k_target_id(), (usize::MAX as nat)) is Some {
        Err(need_num(m, k_target_id(), (usize::MAX as nat))->0)
    } else if need_text(m, k_offered_name()) is Some {
        Err(need_text(m, k_offered_name())->0)
    } else if need_text(m, k_target_name()) is Some {
        Err(need_text(m, k_target_name())->0)
    } else if need_num(m, k_region_id(), (usize::MAX as nat)) is Some {
        Err(need_num(m, k_region_id(), (usize::MAX as nat))->0)
    } else if need_num(m, k_proposed_units(), (u64::MAX as nat)) is Some {
        Err(need_num(m, k_proposed_units(), (u64::MAX as nat))->0)
    } else if need_num(m, k_proposed_cash_won(), (u64::MAX as nat)) is Some {
        Err(need_num(m, k_proposed_cash_won(), (u64::MAX as nat))->0)
    } else if need_text(m, k_desired_status_key()) is Some {
        Err(need_text(m, k_desired_status_key())->0)
    } else if need_num(m, k_display_min_units(), (u64::MAX as nat)) is Some {
        Err(need_num(m, k_display_min_units(), (u64::MAX as nat))->0)
    } else if need_num(m, k_display_max_units(), (u64::MAX as nat)) is Some {
        Err(need_num(m, k_display_max_units(), (u64::MAX as nat))->0)
    } else if need_at_most(m, k_display_lower_percent(), 255) is Some {
        Err(need_at_most(m, k_display_lower_percent(), 255)->0)
    } else if need_at_most(m, k_display_upper_percent(), 255) is Some {
        Err(need_at_most(m, k_display_upper_percent(), 255)->0)
    } else if need_text(m, k_submitted_at()) is Some {
        Err(need_text(m, k_submitted_at())->0)
    } else if need_text(m, k_seller_due_at()) is Some {
        Err(need_text(m, k_seller_due_at())->0)
    } else if need_text(m, k_player_due_at()) is Some {
        Err(need_text(m, k_player_due_at())->0)
    } else if need_text(m, k_completed_at()) is Some {
        Err(need_text(m, k_completed_at())->0)
    } else if need_hex(m, k_package_fingerprint()) is Some {
        Err(need_hex(m, k_package_fingerprint())->0)
    } else if need_hex(m, k_offered_contract_fingerprint_at_submit()) is Some {
        Err(need_hex(m, k_offered_contract_fingerprint_at_submit())->0)
    } else if need_hex(m, k_target_contract_fingerprint_at_submit()) is Some {
        Err(need_hex(m, k_target_contract_fingerprint_at_submit())->0)
    } else if need_text(m, k_result_plan_id()) is Some {
        Err(need_text(m, k_result_plan_id())->0)
    } else if need_text(m, k_rejection_actor()) is Some {
        Err(need_text(m, k_rejection_actor())->0)
    } else if need_text(m, k_rejection_reason()) is Some {
        Err(need_text(m, k_rejection_reason())->0)
    } else if need_text(m, k_rejection_reason_ko()) is Some {
        Err(need_text(m, k_rejection_reason_ko())->0)
    } else if need_text(m, k_success_news_id()) is Some {
        Err(need_text(m, k_success_news_id())->0)
    } else if need_at_most(m, k_transition_count(), 4294967295) is Some {
        Err(need_at_most(m, k_transition_count(), 4294967295)->0)
    } else if need_at_most(m, k_submit_process_id(), 4294967295) is Some {
        Err(need_at_most(m, k_submit_process_id(), 4294967295)->0)
    } else if need_at_most(m, k_commit_process_id(), 4294967295) is Some {
        Err(need_at_most(m, k_commit_process_id(), 4294967295)->0)
    } else {
        Ok(ProposalView {
            schema_version: num_of(m, k_schema_version()) as u8,
            proposal_id: m[k_proposal_id()],
            state: state_from_name(m[k_state()])->0,
            requester_team_id: num_of(m, k_requester_team_id()) as usize,
            recipient_team_id: num_of(m, k_recipient_team_id()) as usize,
            offered_id: num_of(m, k_offered_id()) as usize,
            target_id: num_of(m, k_target_id()) as usize,
            offered_name: m[k_offered_name()],
            target_name: m[k_target_name()],
            region_id: num_of(m, k_region_id()) as usize,
            proposed_units: num_of(m, k_proposed_units()) as u64,
            proposed_cash_won: num_of(m, k_proposed_cash_won()) as u64,
            desired_status_choice: num_of(m, k_desired_status_choice()) as u8,
            desired_status_key: m[k_desired_status_key()],
            display_min_units: num_of(m, k_display_min_units()) as u64,
            display_max_units: num_of(m, k_display_max_units()) as u64,
            display_lower_percent: num_of(m, k_display_lower_percent()) as u8,
            display_upper_percent: num_of(m, k_display_upper_percent()) as u8,
            submitted_at: m[k_submitted_at()],
            seller_due_at: m[k_seller_due_at()],
            player_due_at: m[k_player_due_at()],
            completed_at: m[k_completed_at()],
            package_fingerprint: hex_of(m, k_package_fingerprint()) as u64,
            offered_contract_fingerprint_at_submit: hex_of(m, k_offered_contract_fingerprint_at_submit()) as u64,
            target_contract_fingerprint_at_submit: hex_of(m, k_target_contract_fingerprint_at_submit()) as u64,
            result_plan_id: m[k_result_plan_id()],
            rejection_actor: m[k_rejection_actor()],
            rejection_reason: m[k_rejection_reason()],
            rejection_reason_ko: m[k_rejection_reason_ko()],
            success_news_id: m[k_success_news_id()],
            transition_count: num_of(m, k_transition_count()) as u32,
            submit_process_id: num_of(m, k_submit_process_id()) as u32,
            commit_process_id: num_of(m, k_commit_process_id()) as u32,
        })
    }
}

/// What decoding stored bytes gives.
pub open spec fn decode_proposal_spec(bytes: Seq<u8>) -> Result<ProposalView, DecodeFault> {
    match read_payload(bytes) {
        Err(e) => Err(payload_fault(e)),
        Ok(m) => decode_proposal_map(m),
    }
}

/// Writes the proposal as its `key=value` record.
#[verifier::rlimit(50)]
pub fn encode_async_trade_proposal(p: &AsyncTradeProposal) -> (bytes: Vec<u8>)
    ensures
        bytes@ == vstd::utf8::encode_utf8(render(proposal_fields(p@))),
{
    proof {
        lemma_proposal_keys();
    }
    let mut fields: Vec<(&str, Vec<char>)> = Vec::new();
    fields.push(("schema_version", decimal(p.schema_version as u64)));
    fields.push(("proposal_id", chars_of(p.proposal_id.as_str())));
    fields.push(("state", chars_of(p.state.as_str())));
    fields.push(("requester_team_id", decimal(p.requester_team_id as u64)));
    fields.push(("recipient_team_id", decimal(p.recipient_team_id as u64)));
    fields.push(("offered_id", decimal(p.offered_id as u64)));
    fields.push(("target_id", decimal(p.target_id as u64)));
    fields.push(("offered_name", sanitize_chars(chars_of(p.offered_name.as_str()).as_slice())));
    fields.push(("target_name", sanitize_chars(chars_of(p.target_name.as_str()).as_slice())));
    fields.push(("region_id", decimal(p.region_id as u64)));
    fields.push(("proposed_units", decimal(p.proposed_units as u64)));
    fields.push(("proposed_cash_won", decimal(p.proposed_cash_won as u64)));
    fields.push(("desired_status_choice", decimal(p.desired_status_choice as u64)));
    fields.push(("desired_status_key", chars_of(p.desired_status_key.as_str())));
    fields.push(("display_min_units", decimal(p.display_min_units as u64)));
    fields.push(("display_max_units", decimal(p.display_max_units as u64)));
    fields.push(("display_lower_percent", decimal(p.display_lower_percent as u64)));
    fields.push(("display_upper_percent", decimal(p.display_upper_percent as u64)));
    fields.push(("submitted_at", chars_of(p.submitted_at.as_str())));
    fields.push(("seller_due_at", chars_of(p.seller_due_at.as_str())));
    fields.push(("player_due_at", chars_of(p.player_due_at.as_str())));
    fields.push(("completed_at", chars_of(p.completed_at.as_str())));
    fields.push(("package_fingerprint", hex16(p.package_fingerprint)));
    fields.push(("offered_contract_fingerprint_at_submit", hex16(p.offered_contract_fingerprint_at_submit)));
    fields.push(("target_contract_fingerprint_at_submit", hex16(p.target_contract_fingerprint_at_submit)));
    fields.push(("result_plan_id", chars_of(p.result_plan_id.as_str())));
    fields.push(("rejection_actor", chars_of(p.rejection_actor.as_str())));
    fields.push(("rejection_reason", chars_of(p.rejection_reason.as_str())));
    fields.push(("rejection_reason_ko", sanitize_chars(chars_of(p.rejection_reason_ko.as_str()).as_slice())));
    fields.push(("success_news_id", chars_of(p.success_news_id.as_str())));
    fields.push(("transition_count", decimal(p.transition_count as u64)));
    fields.push(("submit_process_id", decimal(p.submit_process_id as u64)));
    fields.push(("commit_process_id", decimal(p.commit_process_id as u64)));
    let ghost view = fields@.map_values(|f: (&str, Vec<char>)| (f.0@, f.1@));
    assert(view =~= proposal_fields(p@));
    let out = crate::kv::render_fields(&fields);
    utf8_bytes(out.as_slice())
}

/// Reads a proposal back from its record: the first missing or malformed field, in
/// reading order, is the error.
pub fn decode_async_trade_proposal(bytes: &[u8]) -> (r: Result<AsyncTradeProposal, DecodeError>)
    ensures
        match decode_proposal_spec(bytes@) {
            Ok(v) => r matches Ok(p) && p@ == v,
            Err(f) => r matches Err(e) && e@ == f,
        },
{
    let m = match parse_kv_payload(bytes) {
        Ok(m) => m,
        Err(e) => return Err(from_kv_error(e)),
    };
    decode_proposal_fields(&m)
}

/// Reads a proposal out of a parsed record.
#[verifier::rlimit(80)]
pub fn decode_proposal_fields(m: &KvPayload) -> (r: Result<AsyncTradeProposal, DecodeError>)
    ensures
        match decode_proposal_map(m@) {
            Ok(v) => r matches Ok(p) && p@ == v,
            Err(f) => r matches Err(e) && e@ == f,
        },
{
    proof {
        lemma_proposal_keys();
    }
    let usize_max: u64 = usize::MAX as u64;
    let schema_version_raw = num_field(m, "schema_version", u64::MAX)?;
    at_most(schema_version_raw, "schema_version", 255)?;
    if schema_version_raw != 1 {
        return Err(DecodeError::UnsupportedSchema(schema_version_raw));
    }
    let desired_status_choice_raw = num_field(m, "desired_status_choice", u64::MAX)?;
    at_most(desired_status_choice_raw, "desired_status_choice", 255)?;
    let display_lower_percent_raw = num_field(m, "display_lower_percent", u64::MAX)?;
    let display_upper_percent_raw = num_field(m, "display_upper_percent", u64::MAX)?;
    let transition_count_raw = num_field(m, "transition_count", u64::MAX)?;
    let submit_process_id_raw = num_field(m, "submit_process_id", u64::MAX)?;
    let commit_process_id_raw = num_field(m, "commit_process_id", u64::MAX)?;
    let proposal_id_text = text_field(m, "proposal_id")?;
    let state_text = text_field(m, "state")?;
    let state_value = AsyncTradeState::from_str(state_text.as_str())?;
    let requester_team_id_raw = num_field(m, "requester_team_id", usize_max)?;
    let recipient_team_id_raw = num_field(m, "recipient_team_id", usize_max)?;
    let offered_id_raw = num_field(m, "offered_id", usize_max)?;
    let target_id_raw = num_field(m, "target_id", usize_max)?;
    let offered_name_text = text_field(m, "offered_name")?;
    let target_name_text = text_field(m, "target_name")?;
    let region_id_raw = num_field(m, "region_id", usize_max)?;
    let proposed_units_raw = num_field(m, "proposed_units", u64::MAX)?;
    let proposed_cash_won_raw = num_field(m, "proposed_cash_won", u64::MAX)?;
    let desired_status_key_text = text_field(m, "desired_status_key")?;
    let display_min_units_raw = num_field(m, "display_min_units", u64::MAX)?;
    let display_max_units_raw = num_field(m, "display_max_units", u64::MAX)?;
    at_most(display_lower_percent_raw, "display_lower_percent", 255)?;
    at_most(display_upper_percent_raw, "display_upper_percent", 255)?;
    let submitted_at_text = text_field(m, "submitted_at")?;
    let seller_due_at_text = text_field(m, "seller_due_at")?;
    let player_due_at_text = text_field(m, "player_due_at")?;
    let completed_at_text = text_field(m, "completed_at")?;
    let package_fingerprint_hex = hex_field(m, "package_fingerprint")?;
    let offered_contract_fingerprint_at_submit_hex = hex_field(m, "offered_contract_fingerprint_at_submit")?;
    let target_contract_fingerprint_at_submit_hex = hex_field(m, "target_contract_fingerprint_at_submit")?;
    let result_plan_id_text = text_field(m, "result_plan_id")?;
    let rejection_actor_text = text_field(m, "rejection_actor")?;
    let rejection_reason_text = text_field(m, "rejection_reason")?;
    let rejection_reason_ko_text = text_field(m, "rejection_reason_ko")?;
    let success_news_id_text = text_field(m, "success_news_id")?;
    at_most(transition_count_raw, "transition_count", 4294967295)?;
    at_most(submit_process_id_raw, "submit_process_id", 4294967295)?;
    at_most(commit_process_id_raw, "commit_process_id", 4294967295)?;
    Ok(AsyncTradeProposal {
        schema_version: schema_version_raw as u8,
        proposal_id: proposal_id_text,
        state: state_value,
        requester_team_id: requester_team_id_raw as usize,
        recipient_team_id: recipient_team_id_raw as usize,
        offered_id: offered_id_raw as usize,
        target_id: target_id_raw as usize,
        offered_name: offered_name_text,
        target_name: target_name_text,
        region_id: region_id_raw as usize,
        proposed_units: proposed_units_raw as u64,
        proposed_cash_won: proposed_cash_won_raw as u64,
        desired_status_choice: desired_status_choice_raw as u8,
        desired_status_key: desired_status_key_text,
        display_min_units: display_min_units_raw as u64,
        display_max_units: display_max_units_raw as u64,
        display_lower_percent: display_lower_percent_raw as u8,
        display_upper_percent: display_upper_percent_raw as u8,
        submitted_at: submitted_at_text,
        seller_due_at: seller_due_at_text,
        player_due_at: player_due_at_text,
        completed_at: completed_at_text,
        package_fingerprint: package_fingerprint_hex,
        offered_contract_fingerprint_at_submit: offered_contract_fingerprint_at_submit_hex,
        target_contract_fingerprint_at_submit: target_contract_fingerprint_at_submit_hex,
        result_plan_id: result_plan_id_text,
        rejection_actor: rejection_actor_text,
        rejection_reason: rejection_reason_text,
        rejection_reason_ko: rejection_reason_ko_text,
        success_news_id: success_news_id_text,
        transition_count: transition_count_raw as u32,
        submit_process_id: submit_process_id_raw as u32,
        commit_process_id: commit_process_id_raw as u32,
    })
}

/// A proposal whose text fields survive being stored: schema 1, no newline
/// or trailing whitespace in any text, and no separator in the three texts that
/// are sanitized when written.
pub open spec fn proposal_storable(p: ProposalView) -> bool {
    &&& p.schema_version == 1
    &&& value_ok(p.proposal_id)
    &&& value_ok(p.offered_name)
    &&& sanitize_spec(p.offered_name) == p.offered_name
    &&& value_ok(p.target_name)
    &&& sanitize_spec(p.target_name) == p.target_name
    &&& value_ok(p.desired_status_key)
    &&& value_ok(p.submitted_at)
    &&& value_ok(p.seller_due_at)
    &&& value_ok(p.player_due_at)
    &&& value_ok(p.completed_at)
    &&& value_ok(p.result_plan_id)
    &&& value_ok(p.rejection_actor)
    &&& value_ok(p.rejection_reason)
    &&& value_ok(p.rejection_reason_ko)
    &&& sanitize_spec(p.rejection_reason_ko) == p.rejection_reason_ko
    &&& value_ok(p.success_news_id)
}

/// The stored names of the states read back as the states.
pub proof fn lemma_state_names(s: AsyncTradeState)
    ensures
        state_from_name(state_name(s)) == Some(s),
        value_ok(state_name(s)),
{
    reveal_strlit("SellerReview");
    reveal_strlit("PlayerReview");
    reveal_strlit("Accepted");
    reveal_strlit("Rejected");
    reveal_strlit("Cancelled");
    assert("SellerReview"@.len() == 12);
    assert("PlayerReview"@.len() == 12);
    assert("Accepted"@.len() == 8);
    assert("Rejected"@.len() == 8);
    assert("Cancelled"@.len() == 9);
    assert("SellerReview"@[0] != "PlayerReview"@[0]);
    assert("Accepted"@[0] != "Rejected"@[0]);
    let n = state_name(s);
    assert(!n.contains('\n')) by {
        if n.contains('\n') {
            let j = choose|j: int| 0 <= j < n.len() && n[j] == '\n';
            assert(n[j] != '\n');
        }
    }
    assert(!is_whitespace(n.last()));
}

/// Every line of a storable proposal is well formed.
#[verifier::spinoff_prover]
#[verifier::rlimit(60)]
pub proof fn lemma_proposal_fields_ok(p: ProposalView)
    requires
        proposal_storable(p),
    ensures
        fields_ok(proposal_fields(p)),
{
    let f = proposal_fields(p);
    lemma_dec_value_ok(p.schema_version as nat);
    lemma_dec_value_ok(p.requester_team_id as nat);
    lemma_dec_value_ok(p.recipient_team_id as nat);
    lemma_dec_value_ok(p.offered_id as nat);
    lemma_dec_value_ok(p.target_id as nat);
    lemma_dec_value_ok(p.region_id as nat);
    lemma_dec_value_ok(p.proposed_units as nat);
    lemma_dec_value_ok(p.proposed_cash_won as nat);
    lemma_dec_value_ok(p.desired_status_choice as nat);
    lemma_dec_value_ok(p.display_min_units as nat);
    lemma_dec_value_ok(p.display_max_units as nat);
    lemma_dec_value_ok(p.display_lower_percent as nat);
    lemma_dec_value_ok(p.display_upper_percent as nat);
    lemma_hex_value_ok(p.package_fingerprint as nat);
    lemma_hex_value_ok(p.offered_contract_fingerprint_at_submit as nat);
    lemma_hex_value_ok(p.target_contract_fingerprint_at_submit as nat);
    lemma_dec_value_ok(p.transition_count as nat);
    lemma_dec_value_ok(p.submit_process_id as nat);
    lemma_dec_value_ok(p.commit_process_id as nat);
    lemma_state_names(p.state);
    assert(key_ok(f[0].0) && value_ok(f[0].1));
    assert(key_ok(f[1].0) && value_ok(f[1].1));
    assert(key_ok(f[2].0) && value_ok(f[2].1));
    assert(key_ok(f[3].0) && value_ok(f[3].1));
    assert(key_ok(f[4].0) && value_ok(f[4].1));
    assert(key_ok(f[5].0) && value_ok(f[5].1));
    assert(key_ok(f[6].0) && value_ok(f[6].1));
    assert(key_ok(f[7].0) && value_ok(f[7].1));
    assert(key_ok(f[8].0) && value_ok(f[8].1));
    assert(key_ok(f[9].0) && value_ok(f[9].1));
    assert(key_ok(f[10].0) && value_ok(f[10].1));
    assert(key_ok(f[11].0) && value_ok(f[11].1));
    assert(key_ok(f[12].0) && value_ok(f[12].1));
    assert(key_ok(f[13].0) && value_ok(f[13].1));
    assert(key_ok(f[14].0) && value_ok(f[14].1));
    assert(key_ok(f[15].0) && value_ok(f[15].1));
    assert(key_ok(f[16].0) && value_ok(f[16].1));
    assert(key_ok(f[17].0) && value_ok(f[17].1));
    assert(key_ok(f[18].0) && value_ok(f[18].1));
    assert(key_ok(f[19].0) && value_ok(f[19].1));
    assert(key_ok(f[20].0) && value_ok(f[20].1));
    assert(key_ok(f[21].0) && value_ok(f[21].1));
    assert(key_ok(f[22].0) && value_ok(f[22].1));
    assert(key_ok(f[23].0) && value_ok(f[23].1));
    assert(key_ok(f[24].0) && value_ok(f[24].1));
    assert(key_ok(f[25].0) && value_ok(f[25].1));
    assert(key_ok(f[26].0) && value_ok(f[26].1));
    assert(key_ok(f[27].0) && value_ok(f[27].1));
    assert(key_ok(f[28].0) && value_ok(f[28].1));
    assert(key_ok(f[29].0) && value_ok(f[29].1));
    assert(key_ok(f[30].0) && value_ok(f[30].1));
    assert(key_ok(f[31].0) && value_ok(f[31].1));
    assert(key_ok(f[32].0) && value_ok(f[32].1));
}

/// The record's keys, in order.
pub open spec fn proposal_keys() -> Seq<Seq<char>> {
    seq![k_schema_version(), k_proposal_id(), k_state(), k_requester_team_id(), k_recipient_team_id(), k_offered_id(), k_target_id(), k_offered_name(), k_target_name(), k_region_id(), k_proposed_units(), k_proposed_cash_won(), k_desired_status_choice(), k_desired_status_key(), k_display_min_units(), k_display_max_units(), k_display_lower_percent(), k_display_upper_percent(), k_submitted_at(), k_seller_due_at(), k_player_due_at(), k_completed_at(), k_package_fingerprint(), k_offered_contract_fingerprint_at_submit(), k_target_contract_fingerprint_at_submit(), k_result_plan_id(), k_rejection_actor(), k_rejection_reason(), k_rejection_reason_ko(), k_success_news_id(), k_transition_count(), k_submit_process_id(), k_commit_process_id()]
}

/// The position of a key in the record.
pub open spec fn proposal_key_index(k: Seq<char>) -> int {
    if k == k_schema_version() {
        0
    } else if k == k_proposal_id() {
        1
    } else if k == k_state() {
        2
    } else if k == k_requester_team_id() {
        3
    } else if k == k_recipient_team_id() {
        4
    } else if k == k_offered_id() {
        5
    } else if k == k_target_id() {
        6
    } else if k == k_offered_name() {
        7
    } else if k == k_target_name() {
        8
    } else if k == k_region_id() {
        9
    } else if k == k_proposed_units() {
        10
    } else if k == k_proposed_cash_won() {
        11
    } else if k == k_desired_status_choice() {
        12
    } else if k == k_desired_status_key() {
        13
    } else if k == k_display_min_units() {
        14
    } else if k == k_display_max_units() {
        15
    } else if k == k_display_lower_percent() {
        16
    } else if k == k_display_upper_percent() {
        17
    } else if k == k_submitted_at() {
        18
    } else if k == k_seller_due_at() {
        19
    } else if k == k_player_due_at() {
        20
    } else if k == k_completed_at() {
        21
    } else if k == k_package_fingerprint() {
        22
    } else if k == k_offered_contract_fingerprint_at_submit() {
        23
    } else if k == k_target_contract_fingerprint_at_submit() {
        24
    } else if k == k_result_plan_id() {
        25
    } else if k == k_rejection_actor() {
        26
    } else if k == k_rejection_reason() {
        27
    } else if k == k_rejection_reason_ko() {
        28
    } else if k == k_success_news_id() {
        29
    } else if k == k_transition_count() {
        30
    } else if k == k_submit_process_id() {
        31
    } else if k == k_commit_process_id() {
        32
    } else {
        -1
    }
}

/// The record's keys are pairwise different.
#[verifier::spinoff_prover]
#[verifier::rlimit(100)]
pub proof fn lemma_proposal_keys_distinct(p: ProposalView)
    ensures
        forall|a: int, b: int|
            0 <= a < b < proposal_fields(p).len() ==> #[trigger] proposal_fields(p)[a].0
                != #[trigger] proposal_fields(p)[b].0,
{
    assert(k_proposal_id().len() != k_schema_version().len());
    assert(k_state().len() != k_schema_version().len());
    assert(k_state().len() != k_proposal_id().len());
    assert(k_requester_team_id().len() != k_schema_version().len());
    assert(k_requester_team_id().len() != k_proposal_id().len());
    assert(k_requester_team_id().len() != k_state().len());
    assert(k_recipient_team_id().len() != k_schema_version().len());
    assert(k_recipient_team_id().len() != k_proposal_id().len());
    assert(k_recipient_team_id().len() != k_state().len());
    assert(k_recipient_team_id()[2] != k_requester_team_id()[2]);
    assert(k_offered_id().len() != k_schema_version().len());
    assert(k_offered_id().len() != k_proposal_id().len());
    assert(k_offered_id().len() != k_state().len());
    assert(k_offered_id().len() != k_requester_team_id().len());
    assert(k_offered_id().len() != k_recipient_team_id().len());
    assert(k_target_id().len() != k_schema_version().len());
    assert(k_target_id().len() != k_proposal_id().len());
    assert(k_target_id().len() != k_state().len());
    assert(k_target_id().len() != k_requester_team_id().len());
    assert(k_target_id().len() != k_recipient_team_id().len());
    assert(k_target_id().len() != k_offered_id().len());
    assert(k_offered_name().len() != k_schema_version().len());
    assert(k_offered_name().len() != k_proposal_id().len());
    assert(k_offered_name().len() != k_state().len());
    assert(k_offered_name().len() != k_requester_team_id().len());
    assert(k_offered_name().len() != k_recipient_team_id().len());
    assert(k_offered_name().len() != k_offered_id().len());
    assert(k_offered_name().len() != k_target_id().len());
    assert(k_target_name().len() != k_schema_version().len());
    assert(k_target_name()[0] != k_proposal_id()[0]);
    assert(k_target_name().len() != k_state().len());
    assert(k_target_name().len() != k_requester_team_id().len());
    assert(k_target_name().len() != k_recipient_team_id().len());
    assert(k_target_name().len() != k_offered_id().len());
    assert(k_target_name().len() != k_target_id().len());
    assert(k_target_name().len() != k_offered_name().len());
    assert(k_region_id().len() != k_schema_version().len());
    assert(k_region_id().len() != k_proposal_id().len());
    assert(k_region_id().len() != k_state().len());
    assert(k_region_id().len() != k_requester_team_id().len());
    assert(k_region_id().len() != k_recipient_team_id().len());
    assert(k_region_id().len() != k_offered_id().len());
    assert(k_region_id()[0] != k_target_id()[0]);
    assert(k_region_id().len() != k_offered_name().len());
    assert(k_region_id().len() != k_target_name().len());
    assert(k_proposed_units()[0] != k_schema_version()[0]);
    assert(k_proposed_units().len() != k_proposal_id().len());
    assert(k_proposed_units().len() != k_state().len());
    assert(k_proposed_units().len() != k_requester_team_id().len());
    assert(k_proposed_units().len() != k_recipient_team_id().len());
    assert(k_proposed_units().len() != k_offered_id().len());
    assert(k_proposed_units().len() != k_target_id().len());
    assert(k_proposed_units().len() != k_offered_name().len());
    assert(k_proposed_units().len() != k_target_name().len());
    assert(k_proposed_units().len() != k_region_id().len());
    assert(k_proposed_cash_won().len() != k_schema_version().len());
    assert(k_proposed_cash_won().len() != k_proposal_id().len());
    assert(k_proposed_cash_won().len() != k_state().len());
    assert(k_proposed_cash_won()[0] != k_requester_team_id()[0]);
    assert(k_proposed_cash_won()[0] != k_recipient_team_id()[0]);
    assert(k_proposed_cash_won().len() != k_offered_id().len());
    assert(k_proposed_cash_won().len() != k_target_id().len());
    assert(k_proposed_cash_won().len() != k_offered_name().len());
    assert(k_proposed_cash_won().len() != k_target_name().len());
    assert(k_proposed_cash_won().len() != k_region_id().len());
    assert(k_proposed_cash_won().len() != k_proposed_units().len());
    assert(k_desired_status_choice().len() != k_schema_version().len());
    assert(k_desired_status_choice().len() != k_proposal_id().len());
    assert(k_desired_status_choice().len() != k_state().len());
    assert(k_desired_status_choice().len() != k_requester_team_id().len());
    assert(k_desired_status_choice().len() != k_recipient_team_id().len());
    assert(k_desired_status_choice().len() != k_offered_id().len());
    assert(k_desired_status_choice().len() != k_target_id().len());
    assert(k_desired_status_choice().len() != k_offered_name().len());
    assert(k_desired_status_choice().len() != k_target_name().len());
    assert(k_desired_status_choice().len() != k_region_id().len());
    assert(k_desired_status_choice().len() != k_proposed_units().len());
    assert(k_desired_status_choice().len() != k_proposed_cash_won().len());
    assert(k_desired_status_key().len() != k_schema_version().len());
    assert(k_desired_status_key().len() != k_proposal_id().len());
    assert(k_desired_status_key().len() != k_state().len());
    assert(k_desired_status_key().len() != k_requester_team_id().len());
    assert(k_desired_status_key().len() != k_recipient_team_id().len());
    assert(k_desired_status_key().len() != k_offered_id().len());
    assert(k_desired_status_key().len() != k_target_id().len());
    assert(k_desired_status_key().len() != k_offered_name().len());
    assert(k_desired_status_key().len() != k_target_name().len());
    assert(k_desired_status_key().len() != k_region_id().len());
    assert(k_desired_status_key().len() != k_proposed_units().len());
    assert(k_desired_status_key().len() != k_proposed_cash_won().len());
    assert(k_desired_status_key().len() != k_desired_status_choice().len());
    assert(k_display_min_units().len() != k_schema_version().len());
    assert(k_display_min_units().len() != k_proposal_id().len());
    assert(k_display_min_units().len() != k_state().len());
    assert(k_display_min_units()[0] != k_requester_team_id()[0]);
    assert(k_display_min_units()[0] != k_recipient_team_id()[0]);
    assert(k_display_min_units().len() != k_offered_id().len());
    assert(k_display_min_units().len() != k_target_id().len());
    assert(k_display_min_units().len() != k_offered_name().len());
    assert(k_display_min_units().len() != k_target_name().len());
    assert(k_display_min_units().len() != k_region_id().len());
    assert(k_display_min_units().len() != k_proposed_units().len());
    assert(k_display_min_units()[0] != k_proposed_cash_won()[0]);
    assert(k_display_min_units().len() != k_desired_status_choice().len());
    assert(k_display_min_units().len() != k_desired_status_key().len());
    assert(k_display_max_units().len() != k_schema_version().len());
    assert(k_display_max_units().len() != k_proposal_id().len());
    assert(k_display_max_units().len() != k_state().len());
    assert(k_display_max_units()[0] != k_requester_team_id()[0]);
    assert(k_display_max_units()[0] != k_recipient_team_id()[0]);
    assert(k_display_max_units().len() != k_offered_id().len());
    assert(k_display_max_units().len() != k_target_id().len());
    assert(k_display_max_units().len() != k_offered_name().len());
    assert(k_display_max_units().len() != k_target_name().len());
    assert(k_display_max_units().len() != k_region_id().len());
    assert(k_display_max_units().len() != k_proposed_units().len());
    assert(k_display_max_units()[0] != k_proposed_cash_won()[0]);
    assert(k_display_max_units().len() != k_desired_status_choice().len());
    assert(k_display_max_units().len() != k_desired_status_key().len());
    assert(k_display_max_units()[9] != k_display_min_units()[9]);
    assert(k_display_lower_percent().len() != k_schema_version().len());
    assert(k_display_lower_percent().len() != k_proposal_id().len());
    assert(k_display_lower_percent().len() != k_state().len());
    assert(k_display_lower_percent().len() != k_requester_team_id().len());
    assert(k_display_lower_percent().len() != k_recipient_team_id().len());
    assert(k_display_lower_percent().len() != k_offered_id().len());
    assert(k_display_lower_percent().len() != k_target_id().len());
    assert(k_display_lower_percent().len() != k_offered_name().len());
    assert(k_display_lower_percent().len() != k_target_name().len());
    assert(k_display_lower_percent().len() != k_region_id().len());
    assert(k_display_lower_percent().len() != k_proposed_units().len());
    assert(k_display_lower_percent().len() != k_proposed_cash_won().len());
    assert(k_display_lower_percent()[1] != k_desired_status_choice()[1]);
    assert(k_display_lower_percent().len() != k_desired_status_key().len());
    assert(k_display_lower_percent().len() != k_display_min_units().len());
    assert(k_display_lower_percent().len() != k_display_max_units().len());
    assert(k_display_upper_percent().len() != k_schema_version().len());
    assert(k_display_upper_percent().len() != k_proposal_id().len());
    assert(k_display_upper_percent().len() != k_state().len());
    assert(k_display_upper_percent().len() != k_requester_team_id().len());
    assert(k_display_upper_percent().len() != k_recipient_team_id().len());
    assert(k_display_upper_percent().len() != k_offered_id().len());
    assert(k_display_upper_percent().len() != k_target_id().len());
    assert(k_display_upper_percent().len() != k_offered_name().len());
    assert(k_display_upper_percent().len() != k_target_name().len());
    assert(k_display_upper_percent().len() != k_region_id().len());
    assert(k_display_upper_percent().len() != k_proposed_units().len());
    assert(k_display_upper_percent().len() != k_proposed_cash_won().len());
    assert(k_display_upper_percent()[1] != k_desired_status_choice()[1]);
    assert(k_display_upper_percent().len() != k_desired_status_key().len());
    assert(k_display_upper_percent().len() != k_display_min_units().len());
    assert(k_display_upper_percent().len() != k_display_max_units().len());
    assert(k_display_upper_percent()[8] != k_display_lower_percent()[8]);
    assert(k_submitted_at().len() != k_schema_version().len());
    assert(k_submitted_at().len() != k_proposal_id().len());
    assert(k_submitted_at().len() != k_state().len());
    assert(k_submitted_at().len() != k_requester_team_id().len());
    assert(k_submitted_at().len() != k_recipient_team_id().len());
    assert(k_submitted_at().len() != k_offered_id().len());
    assert(k_submitted_at().len() != k_target_id().len());
    assert(k_submitted_at()[0] != k_offered_name()[0]);
    assert(k_submitted_at().len() != k_target_name().len());
    assert(k_submitted_at().len() != k_region_id().len());
    assert(k_submitted_at().len() != k_proposed_units().len());
    assert(k_submitted_at().len() != k_proposed_cash_won().len());
    assert(k_submitted_at().len() != k_desired_status_choice().len());
    assert(k_submitted_at().len() != k_desired_status_key().len());
    assert(k_submitted_at().len() != k_display_min_units().len());
    assert(k_submitted_at().len() != k_display_max_units().len());
    assert(k_submitted_at().len() != k_display_lower_percent().len());
    assert(k_submitted_at().len() != k_display_upper_percent().len());
    assert(k_seller_due_at().len() != k_schema_version().len());
    assert(k_seller_due_at().len() != k_proposal_id().len());
    assert(k_seller_due_at().len() != k_state().len());
    assert(k_seller_due_at().len() != k_requester_team_id().len());
    assert(k_seller_due_at().len() != k_recipient_team_id().len());
    assert(k_seller_due_at().len() != k_offered_id().len());
    assert(k_seller_due_at().len() != k_target_id().len());
    assert(k_seller_due_at().len() != k_offered_name().len());
    assert(k_seller_due_at().len() != k_target_name().len());
    assert(k_seller_due_at().len() != k_region_id().len());
    assert(k_seller_due_at().len() != k_proposed_units().len());
    assert(k_seller_due_at().len() != k_proposed_cash_won().len());
    assert(k_seller_due_at().len() != k_desired_status_choice().len());
    assert(k_seller_due_at().len() != k_desired_status_key().len());
    assert(k_seller_due_at().len() != k_display_min_units().len());
    assert(k_seller_due_at().len() != k_display_max_units().len());
    assert(k_seller_due_at().len() != k_display_lower_percent().len());
    assert(k_seller_due_at().len() != k_display_upper_percent().len());
    assert(k_seller_due_at().len() != k_submitted_at().len());
    assert(k_player_due_at().len() != k_schema_version().len());
    assert(k_player_due_at().len() != k_proposal_id().len());
    assert(k_player_due_at().len() != k_state().len());
    assert(k_player_due_at().len() != k_requester_team_id().len());
    assert(k_player_due_at().len() != k_recipient_team_id().len());
    assert(k_player_due_at().len() != k_offered_id().len());
    assert(k_player_due_at().len() != k_target_id().len());
    assert(k_player_due_at().len() != k_offered_name().len());
    assert(k_player_due_at().len() != k_target_name().len());
    assert(k_player_due_at().len() != k_region_id().len());
    assert(k_player_due_at().len() != k_proposed_units().len());
    assert(k_player_due_at().len() != k_proposed_cash_won().len());
    assert(k_player_due_at().len() != k_desired_status_choice().len());
    assert(k_player_due_at().len() != k_desired_status_key().len());
    assert(k_player_due_at().len() != k_display_min_units().len());
    assert(k_player_due_at().len() != k_display_max_units().len());
    assert(k_player_due_at().len() != k_display_lower_percent().len());
    assert(k_player_due_at().len() != k_display_upper_percent().len());
    assert(k_player_due_at().len() != k_submitted_at().len());
    assert(k_player_due_at()[0] != k_seller_due_at()[0]);
    assert(k_completed_at().len() != k_schema_version().len());
    assert(k_completed_at().len() != k_proposal_id().len());
    assert(k_completed_at().len() != k_state().len());
    assert(k_completed_at().len() != k_requester_team_id().len());
    assert(k_completed_at().len() != k_recipient_team_id().len());
    assert(k_completed_at().len() != k_offered_id().len());
    assert(k_completed_at().len() != k_target_id().len());
    assert(k_completed_at()[0] != k_offered_name()[0]);
    assert(k_completed_at().len() != k_target_name().len());
    assert(k_completed_at().len() != k_region_id().len());
    assert(k_completed_at().len() != k_proposed_units().len());
    assert(k_completed_at().len() != k_proposed_cash_won().len());
    assert(k_completed_at().len() != k_desired_status_choice().len());
    assert(k_completed_at().len() != k_desired_status_key().len());
    assert(k_completed_at().len() != k_display_min_units().len());
    assert(k_completed_at().len() != k_display_max_units().len());
    assert(k_completed_at().len() != k_display_lower_percent().len());
    assert(k_completed_at().len() != k_display_upper_percent().len());
    assert(k_completed_at()[0] != k_submitted_at()[0]);
    assert(k_completed_at().len() != k_seller_due_at().len());
    assert(k_completed_at().len() != k_player_due_at().len());
    assert(k_package_fingerprint().len() != k_schema_version().len());
    assert(k_package_fingerprint().len() != k_proposal_id().len());
    assert(k_package_fingerprint().len() != k_state().len());
    assert(k_package_fingerprint().len() != k_requester_team_id().len());
    assert(k_package_fingerprint().len() != k_recipient_team_id().len());
    assert(k_package_fingerprint().len() != k_offered_id().len());
    assert(k_package_fingerprint().len() != k_target_id().len());
    assert(k_package_fingerprint().len() != k_offered_name().len());
    assert(k_package_fingerprint().len() != k_target_name().len());
    assert(k_package_fingerprint().len() != k_region_id().len());
    assert(k_package_fingerprint().len() != k_proposed_units().len());
    assert(k_package_fingerprint().len() != k_proposed_cash_won().len());
    assert(k_package_fingerprint().len() != k_desired_status_choice().len());
    assert(k_package_fingerprint().len() != k_desired_status_key().len());
    assert(k_package_fingerprint().len() != k_display_min_units().len());
    assert(k_package_fingerprint().len() != k_display_max_units().len());
    assert(k_package_fingerprint().len() != k_display_lower_percent().len());
    assert(k_package_fingerprint().len() != k_display_upper_percent().len());
    assert(k_package_fingerprint().len() != k_submitted_at().len());
    assert(k_package_fingerprint().len() != k_seller_due_at().len());
    assert(k_package_fingerprint().len() != k_player_due_at().len());
    assert(k_package_fingerprint().len() != k_completed_at().len());
    assert(k_offered_contract_fingerprint_at_submit().len() != k_schema_version().len());
    assert(k_offered_contract_fingerprint_at_submit().len() != k_proposal_id().len());
    assert(k_offered_contract_fingerprint_at_submit().len() != k_state().len());
    assert(k_offered_contract_fingerprint_at_submit().len() != k_requester_team_id().len());
    assert(k_offered_contract_fingerprint_at_submit().len() != k_recipient_team_id().len());
    assert(k_offered_contract_fingerprint_at_submit().len() != k_offered_id().len());
    assert(k_offered_contract_fingerprint_at_submit().len() != k_target_id().len());
    assert(k_offered_contract_fingerprint_at_submit().len() != k_offered_name().len());
    assert(k_offered_contract_fingerprint_at_submit().len() != k_target_name().len());
    assert(k_offered_contract_fingerprint_at_submit().len() != k_region_id().len());
    assert(k_offered_contract_fingerprint_at_submit().len() != k_proposed_units().len());
    assert(k_offered_contract_fingerprint_at_submit().len() != k_proposed_cash_won().len());
    assert(k_offered_contract_fingerprint_at_submit().len() != k_desired_status_choice().len());
    assert(k_offered_contract_fingerprint_at_submit().len() != k_desired_status_key().len());
    assert(k_offered_contract_fingerprint_at_submit().len() != k_display_min_units().len());
    assert(k_offered_contract_fingerprint_at_submit().len() != k_display_max_units().len());
    assert(k_offered_contract_fingerprint_at_submit().len() != k_display_lower_percent().len());
    assert(k_offered_contract_fingerprint_at_submit().len() != k_display_upper_percent().len());
    assert(k_offered_contract_fingerprint_at_submit().len() != k_submitted_at().len());
    assert(k_offered_contract_fingerprint_at_submit().len() != k_seller_due_at().len());
    assert(k_offered_contract_fingerprint_at_submit().len() != k_player_due_at().len());
    assert(k_offered_contract_fingerprint_at_submit().len() != k_completed_at().len());
    assert(k_offered_contract_fingerprint_at_submit().len() != k_package_fingerprint().len());
    assert(k_target_contract_fingerprint_at_submit().len() != k_schema_version().len());
    assert(k_target_contract_fingerprint_at_submit().len() != k_proposal_id().len());
    assert(k_target_contract_fingerprint_at_submit().len() != k_state().len());
    assert(k_target_contract_fingerprint_at_submit().len() != k_requester_team_id().len());
    assert(k_target_contract_fingerprint_at_submit().len() != k_recipient_team_id().len());
    assert(k_target_contract_fingerprint_at_submit().len() != k_offered_id().len());
    assert(k_target_contract_fingerprint_at_submit().len() != k_target_id().len());
    assert(k_target_contract_fingerprint_at_submit().len() != k_offered_name().len());
    assert(k_target_contract_fingerprint_at_submit().len() != k_target_name().len());
    assert(k_target_contract_fingerprint_at_submit().len() != k_region_id().len());
    assert(k_target_contract_fingerprint_at_submit().len() != k_proposed_units().len());
    assert(k_target_contract_fingerprint_at_submit().len() != k_proposed_cash_won().len());
    assert(k_target_contract_fingerprint_at_submit().len() != k_desired_status_choice().len());
    assert(k_target_contract_fingerprint_at_submit().len() != k_desired_status_key().len());
    assert(k_target_contract_fingerprint_at_submit().len() != k_display_min_units().len());
    assert(k_target_contract_fingerprint_at_submit().len() != k_display_max_units().len());
    assert(k_target_contract_fingerprint_at_submit().len() != k_display_lower_percent().len());
    assert(k_target_contract_fingerprint_at_submit().len() != k_display_upper_percent().len());
    assert(k_target_contract_fingerprint_at_submit().len() != k_submitted_at().len());
    assert(k_target_contract_fingerprint_at_submit().len() != k_seller_due_at().len());
    assert(k_target_contract_fingerprint_at_submit().len() != k_player_due_at().len());
    assert(k_target_contract_fingerprint_at_submit().len() != k_completed_at().len());
    assert(k_target_contract_fingerprint_at_submit().len() != k_package_fingerprint().len());
    assert(k_target_contract_fingerprint_at_submit().len() != k_offered_contract_fingerprint_at_submit().len());
    assert(k_result_plan_id()[0] != k_schema_version()[0]);
    assert(k_result_plan_id().len() != k_proposal_id().len());
    assert(k_result_plan_id().len() != k_state().len());
    assert(k_result_plan_id().len() != k_requester_team_id().len());
    assert(k_result_plan_id().len() != k_recipient_team_id().len());
    assert(k_result_plan_id().len() != k_offered_id().len());
    assert(k_result_plan_id().len() != k_target_id().len());
    assert(k_result_plan_id().len() != k_offered_name().len());
    assert(k_result_plan_id().len() != k_target_name().len());
    assert(k_result_plan_id().len() != k_region_id().len());
    assert(k_result_plan_id()[0] != k_proposed_units()[0]);
    assert(k_result_plan_id().len() != k_proposed_cash_won().len());
    assert(k_result_plan_id().len() != k_desired_status_choice().len());
    assert(k_result_plan_id().len() != k_desired_status_key().len());
    assert(k_result_plan_id().len() != k_display_min_units().len());
    assert(k_result_plan_id().len() != k_display_max_units().len());
    assert(k_result_plan_id().len() != k_display_lower_percent().len());
    assert(k_result_plan_id().len() != k_display_upper_percent().len());
    assert(k_result_plan_id().len() != k_submitted_at().len());
    assert(k_result_plan_id().len() != k_seller_due_at().len());
    assert(k_result_plan_id().len() != k_player_due_at().len());
    assert(k_result_plan_id().len() != k_completed_at().len());
    assert(k_result_plan_id().len() != k_package_fingerprint().len());
    assert(k_result_plan_id().len() != k_offered_contract_fingerprint_at_submit().len());
    assert(k_result_plan_id().len() != k_target_contract_fingerprint_at_submit().len());
    assert(k_rejection_actor().len() != k_schema_version().len());
    assert(k_rejection_actor().len() != k_proposal_id().len());
    assert(k_rejection_actor().len() != k_state().len());
    assert(k_rejection_actor().len() != k_requester_team_id().len());
    assert(k_rejection_actor().len() != k_recipient_team_id().len());
    assert(k_rejection_actor().len() != k_offered_id().len());
    assert(k_rejection_actor().len() != k_target_id().len());
    assert(k_rejection_actor().len() != k_offered_name().len());
    assert(k_rejection_actor().len() != k_target_name().len());
    assert(k_rejection_actor().len() != k_region_id().len());
    assert(k_rejection_actor().len() != k_proposed_units().len());
    assert(k_rejection_actor().len() != k_proposed_cash_won().len());
    assert(k_rejection_actor().len() != k_desired_status_choice().len());
    assert(k_rejection_actor().len() != k_desired_status_key().len());
    assert(k_rejection_actor().len() != k_display_min_units().len());
    assert(k_rejection_actor().len() != k_display_max_units().len());
    assert(k_rejection_actor().len() != k_display_lower_percent().len());
    assert(k_rejection_actor().len() != k_display_upper_percent().len());
    assert(k_rejection_actor().len() != k_submitted_at().len());
    assert(k_rejection_actor().len() != k_seller_due_at().len());
    assert(k_rejection_actor().len() != k_player_due_at().len());
    assert(k_rejection_actor().len() != k_completed_at().len());
    assert(k_rejection_actor().len() != k_package_fingerprint().len());
    assert(k_rejection_actor().len() != k_offered_contract_fingerprint_at_submit().len());
    assert(k_rejection_actor().len() != k_target_contract_fingerprint_at_submit().len());
    assert(k_rejection_actor().len() != k_result_plan_id().len());
    assert(k_rejection_reason().len() != k_schema_version().len());
    assert(k_rejection_reason().len() != k_proposal_id().len());
    assert(k_rejection_reason().len() != k_state().len());
    assert(k_rejection_reason().len() != k_requester_team_id().len());
    assert(k_rejection_reason().len() != k_recipient_team_id().len());
    assert(k_rejection_reason().len() != k_offered_id().len());
    assert(k_rejection_reason().len() != k_target_id().len());
    assert(k_rejection_reason().len() != k_offered_name().len());
    assert(k_rejection_reason().len() != k_target_name().len());
    assert(k_rejection_reason().len() != k_region_id().len());
    assert(k_rejection_reason().len() != k_proposed_units().len());
    assert(k_rejection_reason().len() != k_proposed_cash_won().len());
    assert(k_rejection_reason().len() != k_desired_status_choice().len());
    assert(k_rejection_reason().len() != k_desired_status_key().len());
    assert(k_rejection_reason().len() != k_display_min_units().len());
    assert(k_rejection_reason().len() != k_display_max_units().len());
    assert(k_rejection_reason().len() != k_display_lower_percent().len());
    assert(k_rejection_reason().len() != k_display_upper_percent().len());
    assert(k_rejection_reason().len() != k_submitted_at().len());
    assert(k_rejection_reason().len() != k_seller_due_at().len());
    assert(k_rejection_reason().len() != k_player_due_at().len());
    assert(k_rejection_reason().len() != k_completed_at().len());
    assert(k_rejection_reason().len() != k_package_fingerprint().len());
    assert(k_rejection_reason().len() != k_offered_contract_fingerprint_at_submit().len());
    assert(k_rejection_reason().len() != k_target_contract_fingerprint_at_submit().len());
    assert(k_rejection_reason().len() != k_result_plan_id().len());
    assert(k_rejection_reason().len() != k_rejection_actor().len());
    assert(k_rejection_reason_ko().len() != k_schema_version().len());
    assert(k_rejection_reason_ko().len() != k_proposal_id().len());
    assert(k_rejection_reason_ko().len() != k_state().len());
    assert(k_rejection_reason_ko().len() != k_requester_team_id().len());
    assert(k_rejection_reason_ko().len() != k_recipient_team_id().len());
    assert(k_rejection_reason_ko().len() != k_offered_id().len());
    assert(k_rejection_reason_ko().len() != k_target_id().len());
    assert(k_rejection_reason_ko().len() != k_offered_name().len());
    assert(k_rejection_reason_ko().len() != k_target_name().len());
    assert(k_rejection_reason_ko().len() != k_region_id().len());
    assert(k_rejection_reason_ko().len() != k_proposed_units().len());
    assert(k_rejection_reason_ko().len() != k_proposed_cash_won().len());
    assert(k_rejection_reason_ko().len() != k_desired_status_choice().len());
    assert(k_rejection_reason_ko().len() != k_desired_status_key().len());
    assert(k_rejection_reason_ko().len() != k_display_min_units().len());
    assert(k_rejection_reason_ko().len() != k_display_max_units().len());
    assert(k_rejection_reason_ko().len() != k_display_lower_percent().len());
    assert(k_rejection_reason_ko().len() != k_display_upper_percent().len());
    assert(k_rejection_reason_ko().len() != k_submitted_at().len());
    assert(k_rejection_reason_ko().len() != k_seller_due_at().len());
    assert(k_rejection_reason_ko().len() != k_player_due_at().len());
    assert(k_rejection_reason_ko().len() != k_completed_at().len());
    assert(k_rejection_reason_ko()[0] != k_package_fingerprint()[0]);
    assert(k_rejection_reason_ko().len() != k_offered_contract_fingerprint_at_submit().len());
    assert(k_rejection_reason_ko().len() != k_target_contract_fingerprint_at_submit().len());
    assert(k_rejection_reason_ko().len() != k_result_plan_id().len());
    assert(k_rejection_reason_ko().len() != k_rejection_actor().len());
    assert(k_rejection_reason_ko().len() != k_rejection_reason().len());
    assert(k_success_news_id().len() != k_schema_version().len());
    assert(k_success_news_id().len() != k_proposal_id().len());
    assert(k_success_news_id().len() != k_state().len());
    assert(k_success_news_id().len() != k_requester_team_id().len());
    assert(k_success_news_id().len() != k_recipient_team_id().len());
    assert(k_success_news_id().len() != k_offered_id().len());
    assert(k_success_news_id().len() != k_target_id().len());
    assert(k_success_news_id().len() != k_offered_name().len());
    assert(k_success_news_id().len() != k_target_name().len());
    assert(k_success_news_id().len() != k_region_id().len());
    assert(k_success_news_id().len() != k_proposed_units().len());
    assert(k_success_news_id().len() != k_proposed_cash_won().len());
    assert(k_success_news_id().len() != k_desired_status_choice().len());
    assert(k_success_news_id().len() != k_desired_status_key().len());
    assert(k_success_news_id().len() != k_display_min_units().len());
    assert(k_success_news_id().len() != k_display_max_units().len());
    assert(k_success_news_id().len() != k_display_lower_percent().len());
    assert(k_success_news_id().len() != k_display_upper_percent().len());
    assert(k_success_news_id().len() != k_submitted_at().len());
    assert(k_success_news_id().len() != k_seller_due_at().len());
    assert(k_success_news_id().len() != k_player_due_at().len());
    assert(k_success_news_id().len() != k_completed_at().len());
    assert(k_success_news_id().len() != k_package_fingerprint().len());
    assert(k_success_news_id().len() != k_offered_contract_fingerprint_at_submit().len());
    assert(k_success_news_id().len() != k_target_contract_fingerprint_at_submit().len());
    assert(k_success_news_id().len() != k_result_plan_id().len());
    assert(k_success_news_id()[0] != k_rejection_actor()[0]);
    assert(k_success_news_id().len() != k_rejection_reason().len());
    assert(k_success_news_id().len() != k_rejection_reason_ko().len());
    assert(k_transition_count().len() != k_schema_version().len());
    assert(k_transition_count().len() != k_proposal_id().len());
    assert(k_transition_count().len() != k_state().len());
    assert(k_transition_count().len() != k_requester_team_id().len());
    assert(k_transition_count().len() != k_recipient_team_id().len());
    assert(k_transition_count().len() != k_offered_id().len());
    assert(k_transition_count().len() != k_target_id().len());
    assert(k_transition_count().len() != k_offered_name().len());
    assert(k_transition_count().len() != k_target_name().len());
    assert(k_transition_count().len() != k_region_id().len());
    assert(k_transition_count().len() != k_proposed_units().len());
    assert(k_transition_count().len() != k_proposed_cash_won().len());
    assert(k_transition_count().len() != k_desired_status_choice().len());
    assert(k_transition_count().len() != k_desired_status_key().len());
    assert(k_transition_count().len() != k_display_min_units().len());
    assert(k_transition_count().len() != k_display_max_units().len());
    assert(k_transition_count().len() != k_display_lower_percent().len());
    assert(k_transition_count().len() != k_display_upper_percent().len());
    assert(k_transition_count().len() != k_submitted_at().len());
    assert(k_transition_count().len() != k_seller_due_at().len());
    assert(k_transition_count().len() != k_player_due_at().len());
    assert(k_transition_count().len() != k_completed_at().len());
    assert(k_transition_count().len() != k_package_fingerprint().len());
    assert(k_transition_count().len() != k_offered_contract_fingerprint_at_submit().len());
    assert(k_transition_count().len() != k_target_contract_fingerprint_at_submit().len());
    assert(k_transition_count().len() != k_result_plan_id().len());
    assert(k_transition_count().len() != k_rejection_actor().len());
    assert(k_transition_count()[0] != k_rejection_reason()[0]);
    assert(k_transition_count().len() != k_rejection_reason_ko().len());
    assert(k_transition_count().len() != k_success_news_id().len());
    assert(k_submit_process_id().len() != k_schema_version().len());
    assert(k_submit_process_id().len() != k_proposal_id().len());
    assert(k_submit_process_id().len() != k_state().len());
    assert(k_submit_process_id()[0] != k_requester_team_id()[0]);
    assert(k_submit_process_id()[0] != k_recipient_team_id()[0]);
    assert(k_submit_process_id().len() != k_offered_id().len());
    assert(k_submit_process_id().len() != k_target_id().len());
    assert(k_submit_process_id().len() != k_offered_name().len());
    assert(k_submit_process_id().len() != k_target_name().len());
    assert(k_submit_process_id().len() != k_region_id().len());
    assert(k_submit_process_id().len() != k_proposed_units().len());
    assert(k_submit_process_id()[0] != k_proposed_cash_won()[0]);
    assert(k_submit_process_id().len() != k_desired_status_choice().len());
    assert(k_submit_process_id().len() != k_desired_status_key().len());
    assert(k_submit_process_id()[0] != k_display_min_units()[0]);
    assert(k_submit_process_id()[0] != k_display_max_units()[0]);
    assert(k_submit_process_id().len() != k_display_lower_percent().len());
    assert(k_submit_process_id().len() != k_display_upper_percent().len());
    assert(k_submit_process_id().len() != k_submitted_at().len());
    assert(k_submit_process_id().len() != k_seller_due_at().len());
    assert(k_submit_process_id().len() != k_player_due_at().len());
    assert(k_submit_process_id().len() != k_completed_at().len());
    assert(k_submit_process_id().len() != k_package_fingerprint().len());
    assert(k_submit_process_id().len() != k_offered_contract_fingerprint_at_submit().len());
    assert(k_submit_process_id().len() != k_target_contract_fingerprint_at_submit().len());
    assert(k_submit_process_id().len() != k_result_plan_id().len());
    assert(k_submit_process_id().len() != k_rejection_actor().len());
    assert(k_submit_process_id().len() != k_rejection_reason().len());
    assert(k_submit_process_id().len() != k_rejection_reason_ko().len());
    assert(k_submit_process_id().len() != k_success_news_id().len());
    assert(k_submit_process_id().len() != k_transition_count().len());
    assert(k_commit_process_id().len() != k_schema_version().len());
    assert(k_commit_process_id().len() != k_proposal_id().len());
    assert(k_commit_process_id().len() != k_state().len());
    assert(k_commit_process_id()[0] != k_requester_team_id()[0]);
    assert(k_commit_process_id()[0] != k_recipient_team_id()[0]);
    assert(k_commit_process_id().len() != k_offered_id().len());
    assert(k_commit_process_id().len() != k_target_id().len());
    assert(k_commit_process_id().len() != k_offered_name().len());
    assert(k_commit_process_id().len() != k_target_name().len());
    assert(k_commit_process_id().len() != k_region_id().len());
    assert(k_commit_process_id().len() != k_proposed_units().len());
    assert(k_commit_process_id()[0] != k_proposed_cash_won()[0]);
    assert(k_commit_process_id().len() != k_desired_status_choice().len());
    assert(k_commit_process_id().len() != k_desired_status_key().len());
    assert(k_commit_process_id()[0] != k_display_min_units()[0]);
    assert(k_commit_process_id()[0] != k_display_max_units()[0]);
    assert(k_commit_process_id().len() != k_display_lower_percent().len());
    assert(k_commit_process_id().len() != k_display_upper_percent().len());
    assert(k_commit_process_id().len() != k_submitted_at().len());
    assert(k_commit_process_id().len() != k_seller_due_at().len());
    assert(k_commit_process_id().len() != k_player_due_at().len());
    assert(k_commit_process_id().len() != k_completed_at().len());
    assert(k_commit_process_id().len() != k_package_fingerprint().len());
    assert(k_commit_process_id().len() != k_offered_contract_fingerprint_at_submit().len());
    assert(k_commit_process_id().len() != k_target_contract_fingerprint_at_submit().len());
    assert(k_commit_process_id().len() != k_result_plan_id().len());
    assert(k_commit_process_id().len() != k_rejection_actor().len());
    assert(k_commit_process_id().len() != k_rejection_reason().len());
    assert(k_commit_process_id().len() != k_rejection_reason_ko().len());
    assert(k_commit_process_id().len() != k_success_news_id().len());
    assert(k_commit_process_id().len() != k_transition_count().len());
    assert(k_commit_process_id()[0] != k_submit_process_id()[0]);
    let ks = proposal_keys();
    assert forall|a: int| 0 <= a < 33 implies proposal_key_index(#[trigger] ks[a]) == a by {
        if a == 0 {
            assert(ks[0] == k_schema_version());
        } else if a == 1 {
            assert(ks[1] == k_proposal_id());
        } else if a == 2 {
            assert(ks[2] == k_state());
        } else if a == 3 {
            assert(ks[3] == k_requester_team_id());
        } else if a == 4 {
            assert(ks[4] == k_recipient_team_id());
        } else if a == 5 {
            assert(ks[5] == k_offered_id());
        } else if a == 6 {
            assert(ks[6] == k_target_id());
        } else if a == 7 {
            assert(ks[7] == k_offered_name());
        } else if a == 8 {
            assert(ks[8] == k_target_name());
        } else if a == 9 {
            assert(ks[9] == k_region_id());
        } else if a == 10 {
            assert(ks[10] == k_proposed_units());
        } else if a == 11 {
            assert(ks[11] == k_proposed_cash_won());
        } else if a == 12 {
            assert(ks[12] == k_desired_status_choice());
        } else if a == 13 {
            assert(ks[13] == k_desired_status_key());
        } else if a == 14 {
            assert(ks[14] == k_display_min_units());
        } else if a == 15 {
            assert(ks[15] == k_display_max_units());
        } else if a == 16 {
            assert(ks[16] == k_display_lower_percent());
        } else if a == 17 {
            assert(ks[17] == k_display_upper_percent());
        } else if a == 18 {
            assert(ks[18] == k_submitted_at());
        } else if a == 19 {
            assert(ks[19] == k_seller_due_at());
        } else if a == 20 {
            assert(ks[20] == k_player_due_at());
        } else if a == 21 {
            assert(ks[21] == k_completed_at());
        } else if a == 22 {
            assert(ks[22] == k_package_fingerprint());
        } else if a == 23 {
            assert(ks[23] == k_offered_contract_fingerprint_at_submit());
        } else if a == 24 {
            assert(ks[24] == k_target_contract_fingerprint_at_submit());
        } else if a == 25 {
            assert(ks[25] == k_result_plan_id());
        } else if a == 26 {
            assert(ks[26] == k_rejection_actor());
        } else if a == 27 {
            assert(ks[27] == k_rejection_reason());
        } else if a == 28 {
            assert(ks[28] == k_rejection_reason_ko());
        } else if a == 29 {
            assert(ks[29] == k_success_news_id());
        } else if a == 30 {
            assert(ks[30] == k_transition_count());
        } else if a == 31 {
            assert(ks[31] == k_submit_process_id());
        } else if a == 32 {
            assert(ks[32] == k_commit_process_id());
        }
    }
    let f = proposal_fields(p);
    assert forall|a: int, b: int| 0 <= a < b < f.len() implies #[trigger] f[a].0 != #[trigger] f[b].0 by {
        assert(f[a].0 == ks[a] && f[b].0 == ks[b]);
        assert(proposal_key_index(ks[a]) == a);
        assert(proposal_key_index(ks[b]) == b);
    }
}

/// A stored proposal reads back as itself (what is checked after every
/// save of the proposal).
#[verifier::spinoff_prover]
#[verifier::rlimit(100)]
pub proof fn lemma_proposal_roundtrip(p: ProposalView)
    requires
        proposal_storable(p),
    ensures
        decode_proposal_spec(vstd::utf8::encode_utf8(render(proposal_fields(p)))) == Ok::<
            ProposalView,
            DecodeFault,
        >(p),
{
    let f = proposal_fields(p);
    lemma_proposal_fields_ok(p);
    lemma_proposal_keys_distinct(p);
    lemma_render_roundtrip(f);
    lemma_parse_dec(p.schema_version as nat, u64::MAX as nat);
    lemma_parse_dec(p.schema_version as nat, u64::MAX as nat);
    lemma_parse_dec(p.requester_team_id as nat, (usize::MAX as nat));
    lemma_parse_dec(p.requester_team_id as nat, u64::MAX as nat);
    lemma_parse_dec(p.recipient_team_id as nat, (usize::MAX as nat));
    lemma_parse_dec(p.recipient_team_id as nat, u64::MAX as nat);
    lemma_parse_dec(p.offered_id as nat, (usize::MAX as nat));
    lemma_parse_dec(p.offered_id as nat, u64::MAX as nat);
    lemma_parse_dec(p.target_id as nat, (usize::MAX as nat));
    lemma_parse_dec(p.target_id as nat, u64::MAX as nat);
    lemma_parse_dec(p.region_id as nat, (usize::MAX as nat));
    lemma_parse_dec(p.region_id as nat, u64::MAX as nat);
    lemma_parse_dec(p.proposed_units as nat, u64::MAX as nat);
    lemma_parse_dec(p.proposed_units as nat, u64::MAX as nat);
    lemma_parse_dec(p.proposed_cash_won as nat, u64::MAX as nat);
    lemma_parse_dec(p.proposed_cash_won as nat, u64::MAX as nat);
    lemma_parse_dec(p.desired_status_choice as nat, u64::MAX as nat);
    lemma_parse_dec(p.desired_status_choice as nat, u64::MAX as nat);
    lemma_parse_dec(p.display_min_units as nat, u64::MAX as nat);
    lemma_parse_dec(p.display_min_units as nat, u64::MAX as nat);
    lemma_parse_dec(p.display_max_units as nat, u64::MAX as nat);
    lemma_parse_dec(p.display_max_units as nat, u64::MAX as nat);
    lemma_parse_dec(p.display_lower_percent as nat, u64::MAX as nat);
    lemma_parse_dec(p.display_lower_percent as nat, u64::MAX as nat);
    lemma_parse_dec(p.display_upper_percent as nat, u64::MAX as nat);
    lemma_parse_dec(p.display_upper_percent as nat, u64::MAX as nat);
    lemma_parse_hex16(p.package_fingerprint);
    lemma_parse_hex16(p.offered_contract_fingerprint_at_submit);
    lemma_parse_hex16(p.target_contract_fingerprint_at_submit);
    lemma_parse_dec(p.transition_count as nat, u64::MAX as nat);
    lemma_parse_dec(p.transition_count as nat, u64::MAX as nat);
    lemma_parse_dec(p.submit_process_id as nat, u64::MAX as nat);
    lemma_parse_dec(p.submit_process_id as nat, u64::MAX as nat);
    lemma_parse_dec(p.commit_process_id as nat, u64::MAX as nat);
    lemma_parse_dec(p.commit_process_id as nat, u64::MAX as nat);
    lemma_state_names(p.state);
    lemma_fields_map_distinct(f, 0);
    lemma_fields_map_distinct(f, 1);
    lemma_fields_map_distinct(f, 2);
    lemma_fields_map_distinct(f, 3);
    lemma_fields_map_distinct(f, 4);
    lemma_fields_map_distinct(f, 5);
    lemma_fields_map_distinct(f, 6);
    lemma_fields_map_distinct(f, 7);
    lemma_fields_map_distinct(f, 8);
    lemma_fields_map_distinct(f, 9);
    lemma_fields_map_distinct(f, 10);
    lemma_fields_map_distinct(f, 11);
    lemma_fields_map_distinct(f, 12);
    lemma_fields_map_distinct(f, 13);
    lemma_fields_map_distinct(f, 14);
    lemma_fields_map_distinct(f, 15);
    lemma_fields_map_distinct(f, 16);
    lemma_fields_map_distinct(f, 17);
    lemma_fields_map_distinct(f, 18);
    lemma_fields_map_distinct(f, 19);
    lemma_fields_map_distinct(f, 20);
    lemma_fields_map_distinct(f, 21);
    lemma_fields_map_distinct(f, 22);
    lemma_fields_map_distinct(f, 23);
    lemma_fields_map_distinct(f, 24);
    lemma_fields_map_distinct(f, 25);
    lemma_fields_map_distinct(f, 26);
    lemma_fields_map_distinct(f, 27);
    lemma_fields_map_distinct(f, 28);
    lemma_fields_map_distinct(f, 29);
    lemma_fields_map_distinct(f, 30);
    lemma_fields_map_distinct(f, 31);
    lemma_fields_map_distinct(f, 32);
    let m = fields_map(f);
    assert(decode_proposal_map(m) == Ok::<ProposalView, DecodeFault>(p));
}

} // verus!

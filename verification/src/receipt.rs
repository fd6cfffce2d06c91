//! The receipt that a committed trade leaves in the save data, and its
//! `key=value` record.
use vstd::prelude::*;
use crate::fields::{
    DecodeError, DecodeFault, at_most, bool_field, bool_of, from_kv_error, lemma_dec_value_ok,
    need_at_most, need_bool, need_num, need_text, num_field, num_of, payload_fault, text_field,
};
use crate::kv::{
    fields_map, fields_ok, key_ok, lemma_fields_map_distinct, lemma_fields_map_key_index, lemma_render_roundtrip, parse_kv_payload,
    read_payload, render, utf8_bytes, value_ok, KvPayload,
};
use crate::plan::{plan_id_ok, valid_test60_plan_id};
use crate::text::{chars_of, dec, decimal, is_whitespace, lemma_parse_dec, sanitize_chars, sanitize_spec, string_of};

verus! {

pub open spec fn k_schema_version() -> Seq<char> {
    seq!['s', 'c', 'h', 'e', 'm', 'a', '_', 'v', 'e', 'r', 's', 'i', 'o', 'n']
}

pub open spec fn k_plan_id() -> Seq<char> {
    seq!['p', 'l', 'a', 'n', '_', 'i', 'd']
}

pub open spec fn k_commit_process_id() -> Seq<char> {
    seq!['c', 'o', 'm', 'm', 'i', 't', '_', 'p', 'r', 'o', 'c', 'e', 's', 's', '_', 'i', 'd']
}

pub open spec fn k_commit_game_time() -> Seq<char> {
    seq!['c', 'o', 'm', 'm', 'i', 't', '_', 'g', 'a', 'm', 'e', '_', 't', 'i', 'm', 'e']
}

pub open spec fn k_requester_team_id() -> Seq<char> {
    seq!['r', 'e', 'q', 'u', 'e', 's', 't', 'e', 'r', '_', 't', 'e', 'a', 'm', '_', 'i', 'd']
}

pub open spec fn k_recipient_team_id() -> Seq<char> {
    seq!['r', 'e', 'c', 'i', 'p', 'i', 'e', 'n', 't', '_', 't', 'e', 'a', 'm', '_', 'i', 'd']
}

pub open spec fn k_offered_id() -> Seq<char> {
    seq!['o', 'f', 'f', 'e', 'r', 'e', 'd', '_', 'i', 'd']
}

pub open spec fn k_target_id() -> Seq<char> {
    seq!['t', 'a', 'r', 'g', 'e', 't', '_', 'i', 'd']
}

pub open spec fn k_offered_name() -> Seq<char> {
    seq!['o', 'f', 'f', 'e', 'r', 'e', 'd', '_', 'n', 'a', 'm', 'e']
}

pub open spec fn k_target_name() -> Seq<char> {
    seq!['t', 'a', 'r', 'g', 'e', 't', '_', 'n', 'a', 'm', 'e']
}

pub open spec fn k_proposed_cash_won() -> Seq<char> {
    seq!['p', 'r', 'o', 'p', 'o', 's', 'e', 'd', '_', 'c', 'a', 's', 'h', '_', 'w', 'o', 'n']
}

pub open spec fn k_desired_status_choice() -> Seq<char> {
    seq!['d', 'e', 's', 'i', 'r', 'e', 'd', '_', 's', 't', 'a', 't', 'u', 's', '_', 'c', 'h', 'o', 'i', 'c', 'e']
}

pub open spec fn k_desired_status_key() -> Seq<char> {
    seq!['d', 'e', 's', 'i', 'r', 'e', 'd', '_', 's', 't', 'a', 't', 'u', 's', '_', 'k', 'e', 'y']
}

pub open spec fn k_offered_team_after() -> Seq<char> {
    seq!['o', 'f', 'f', 'e', 'r', 'e', 'd', '_', 't', 'e', 'a', 'm', '_', 'a', 'f', 't', 'e', 'r']
}

pub open spec fn k_target_team_after() -> Seq<char> {
    seq!['t', 'a', 'r', 'g', 'e', 't', '_', 't', 'e', 'a', 'm', '_', 'a', 'f', 't', 'e', 'r']
}

pub open spec fn k_target_status_after() -> Seq<char> {
    seq!['t', 'a', 'r', 'g', 'e', 't', '_', 's', 't', 'a', 't', 'u', 's', '_', 'a', 'f', 't', 'e', 'r']
}

pub open spec fn k_offered_contracted_status_after() -> Seq<char> {
    seq!['o', 'f', 'f', 'e', 'r', 'e', 'd', '_', 'c', 'o', 'n', 't', 'r', 'a', 'c', 't', 'e', 'd', '_', 's', 't', 'a', 't', 'u', 's', '_', 'a', 'f', 't', 'e', 'r']
}

pub open spec fn k_target_contracted_status_after() -> Seq<char> {
    seq!['t', 'a', 'r', 'g', 'e', 't', '_', 'c', 'o', 'n', 't', 'r', 'a', 'c', 't', 'e', 'd', '_', 's', 't', 'a', 't', 'u', 's', '_', 'a', 'f', 't', 'e', 'r']
}

pub open spec fn k_rollback_rehearsal_verified() -> Seq<char> {
    seq!['r', 'o', 'l', 'l', 'b', 'a', 'c', 'k', '_', 'r', 'e', 'h', 'e', 'a', 'r', 's', 'a', 'l', '_', 'v', 'e', 'r', 'i', 'f', 'i', 'e', 'd']
}

pub open spec fn k_offered_contract_fingerprint() -> Seq<char> {
    seq!['o', 'f', 'f', 'e', 'r', 'e', 'd', '_', 'c', 'o', 'n', 't', 'r', 'a', 'c', 't', '_', 'f', 'i', 'n', 'g', 'e', 'r', 'p', 'r', 'i', 'n', 't']
}

pub open spec fn k_target_contract_fingerprint() -> Seq<char> {
    seq!['t', 'a', 'r', 'g', 'e', 't', '_', 'c', 'o', 'n', 't', 'r', 'a', 'c', 't', '_', 'f', 'i', 'n', 'g', 'e', 'r', 'p', 'r', 'i', 'n', 't']
}

pub open spec fn k_requester_total_bits() -> Seq<char> {
    seq!['r', 'e', 'q', 'u', 'e', 's', 't', 'e', 'r', '_', 't', 'o', 't', 'a', 'l', '_', 'b', 'i', 't', 's']
}

pub open spec fn k_requester_transfer_bits() -> Seq<char> {
    seq!['r', 'e', 'q', 'u', 'e', 's', 't', 'e', 'r', '_', 't', 'r', 'a', 'n', 's', 'f', 'e', 'r', '_', 'b', 'i', 't', 's']
}

pub open spec fn k_requester_salary_bits() -> Seq<char> {
    seq!['r', 'e', 'q', 'u', 'e', 's', 't', 'e', 'r', '_', 's', 'a', 'l', 'a', 'r', 'y', '_', 'b', 'i', 't', 's']
}

pub open spec fn k_recipient_total_bits() -> Seq<char> {
    seq!['r', 'e', 'c', 'i', 'p', 'i', 'e', 'n', 't', '_', 't', 'o', 't', 'a', 'l', '_', 'b', 'i', 't', 's']
}

pub open spec fn k_recipient_transfer_bits() -> Seq<char> {
    seq!['r', 'e', 'c', 'i', 'p', 'i', 'e', 'n', 't', '_', 't', 'r', 'a', 'n', 's', 'f', 'e', 'r', '_', 'b', 'i', 't', 's']
}

pub open spec fn k_recipient_salary_bits() -> Seq<char> {
    seq!['r', 'e', 'c', 'i', 'p', 'i', 'e', 'n', 't', '_', 's', 'a', 'l', 'a', 'r', 'y', '_', 'b', 'i', 't', 's']
}

pub open spec fn k_requester_roster_after() -> Seq<char> {
    seq!['r', 'e', 'q', 'u', 'e', 's', 't', 'e', 'r', '_', 'r', 'o', 's', 't', 'e', 'r', '_', 'a', 'f', 't', 'e', 'r']
}

pub open spec fn k_recipient_roster_after() -> Seq<char> {
    seq!['r', 'e', 'c', 'i', 'p', 'i', 'e', 'n', 't', '_', 'r', 'o', 's', 't', 'e', 'r', '_', 'a', 'f', 't', 'e', 'r']
}

pub open spec fn k_contracted_after() -> Seq<char> {
    seq!['c', 'o', 'n', 't', 'r', 'a', 'c', 't', 'e', 'd', '_', 'a', 'f', 't', 'e', 'r']
}

pub open spec fn k_requester_payroll_bits() -> Seq<char> {
    seq!['r', 'e', 'q', 'u', 'e', 's', 't', 'e', 'r', '_', 'p', 'a', 'y', 'r', 'o', 'l', 'l', '_', 'b', 'i', 't', 's']
}

pub open spec fn k_recipient_payroll_bits() -> Seq<char> {
    seq!['r', 'e', 'c', 'i', 'p', 'i', 'e', 'n', 't', '_', 'p', 'a', 'y', 'r', 'o', 'l', 'l', '_', 'b', 'i', 't', 's']
}

pub open spec fn k_requester_news_count() -> Seq<char> {
    seq!['r', 'e', 'q', 'u', 'e', 's', 't', 'e', 'r', '_', 'n', 'e', 'w', 's', '_', 'c', 'o', 'u', 'n', 't']
}

pub open spec fn k_recipient_news_count() -> Seq<char> {
    seq!['r', 'e', 'c', 'i', 'p', 'i', 'e', 'n', 't', '_', 'n', 'e', 'w', 's', '_', 'c', 'o', 'u', 'n', 't']
}

pub open spec fn k_executed_plan_registry_count() -> Seq<char> {
    seq!['e', 'x', 'e', 'c', 'u', 't', 'e', 'd', '_', 'p', 'l', 'a', 'n', '_', 'r', 'e', 'g', 'i', 's', 't', 'r', 'y', '_', 'c', 'o', 'u', 'n', 't']
}

/// The keys that the record uses are the strings written in the code.
pub proof fn lemma_receipt_keys()
    ensures
        "schema_version"@ == k_schema_version(),
        "plan_id"@ == k_plan_id(),
        "commit_process_id"@ == k_commit_process_id(),
        "commit_game_time"@ == k_commit_game_time(),
        "requester_team_id"@ == k_requester_team_id(),
        "recipient_team_id"@ == k_recipient_team_id(),
        "offered_id"@ == k_offered_id(),
        "target_id"@ == k_target_id(),
        "offered_name"@ == k_offered_name(),
        "target_name"@ == k_target_name(),
        "proposed_cash_won"@ == k_proposed_cash_won(),
        "desired_status_choice"@ == k_desired_status_choice(),
        "desired_status_key"@ == k_desired_status_key(),
        "offered_team_after"@ == k_offered_team_after(),
        "target_team_after"@ == k_target_team_after(),
        "target_status_after"@ == k_target_status_after(),
        "offered_contracted_status_after"@ == k_offered_contracted_status_after(),
        "target_contracted_status_after"@ == k_target_contracted_status_after(),
        "rollback_rehearsal_verified"@ == k_rollback_rehearsal_verified(),
        "offered_contract_fingerprint"@ == k_offered_contract_fingerprint(),
        "target_contract_fingerprint"@ == k_target_contract_fingerprint(),
        "requester_total_bits"@ == k_requester_total_bits(),
        "requester_transfer_bits"@ == k_requester_transfer_bits(),
        "requester_salary_bits"@ == k_requester_salary_bits(),
        "recipient_total_bits"@ == k_recipient_total_bits(),
        "recipient_transfer_bits"@ == k_recipient_transfer_bits(),
        "recipient_salary_bits"@ == k_recipient_salary_bits(),
        "requester_roster_after"@ == k_requester_roster_after(),
        "recipient_roster_after"@ == k_recipient_roster_after(),
        "contracted_after"@ == k_contracted_after(),
        "requester_payroll_bits"@ == k_requester_payroll_bits(),
        "recipient_payroll_bits"@ == k_recipient_payroll_bits(),
        "requester_news_count"@ == k_requester_news_count(),
        "recipient_news_count"@ == k_recipient_news_count(),
        "executed_plan_registry_count"@ == k_executed_plan_registry_count(),
{
    reveal_strlit("schema_version");
    assert("schema_version"@ =~= k_schema_version());
    reveal_strlit("plan_id");
    assert("plan_id"@ =~= k_plan_id());
    reveal_strlit("commit_process_id");
    assert("commit_process_id"@ =~= k_commit_process_id());
    reveal_strlit("commit_game_time");
    assert("commit_game_time"@ =~= k_commit_game_time());
    reveal_strlit("requester_team_id");
    assert("requester_team_id"@ =~= k_requester_team_id());
    reveal_strlit("recipient_team_id");
    assert("recipient_team_id"@ =~= k_recipient_team_id());
    reveal_strlit("offered_id");
    assert("offered_id"@ =~= k_offered_id());
    reveal_strlit("target_id");
    assert("target_id"@ =~= k_target_id());
    reveal_strlit("offered_name");
    assert("offered_name"@ =~= k_offered_name());
    reveal_strlit("target_name");
    assert("target_name"@ =~= k_target_name());
    reveal_strlit("proposed_cash_won");
    assert("proposed_cash_won"@ =~= k_proposed_cash_won());
    reveal_strlit("desired_status_choice");
    assert("desired_status_choice"@ =~= k_desired_status_choice());
    reveal_strlit("desired_status_key");
    assert("desired_status_key"@ =~= k_desired_status_key());
    reveal_strlit("offered_team_after");
    assert("offered_team_after"@ =~= k_offered_team_after());
    reveal_strlit("target_team_after");
    assert("target_team_after"@ =~= k_target_team_after());
    reveal_strlit("target_status_after");
    assert("target_status_after"@ =~= k_target_status_after());
    reveal_strlit("offered_contracted_status_after");
    assert("offered_contracted_status_after"@ =~= k_offered_contracted_status_after());
    reveal_strlit("target_contracted_status_after");
    assert("target_contracted_status_after"@ =~= k_target_contracted_status_after());
    reveal_strlit("rollback_rehearsal_verified");
    assert("rollback_rehearsal_verified"@ =~= k_rollback_rehearsal_verified());
    reveal_strlit("offered_contract_fingerprint");
    assert("offered_contract_fingerprint"@ =~= k_offered_contract_fingerprint());
    reveal_strlit("target_contract_fingerprint");
    assert("target_contract_fingerprint"@ =~= k_target_contract_fingerprint());
    reveal_strlit("requester_total_bits");
    assert("requester_total_bits"@ =~= k_requester_total_bits());
    reveal_strlit("requester_transfer_bits");
    assert("requester_transfer_bits"@ =~= k_requester_transfer_bits());
    reveal_strlit("requester_salary_bits");
    assert("requester_salary_bits"@ =~= k_requester_salary_bits());
    reveal_strlit("recipient_total_bits");
    assert("recipient_total_bits"@ =~= k_recipient_total_bits());
    reveal_strlit("recipient_transfer_bits");
    assert("recipient_transfer_bits"@ =~= k_recipient_transfer_bits());
    reveal_strlit("recipient_salary_bits");
    assert("recipient_salary_bits"@ =~= k_recipient_salary_bits());
    reveal_strlit("requester_roster_after");
    assert("requester_roster_after"@ =~= k_requester_roster_after());
    reveal_strlit("recipient_roster_after");
    assert("recipient_roster_after"@ =~= k_recipient_roster_after());
    reveal_strlit("contracted_after");
    assert("contracted_after"@ =~= k_contracted_after());
    reveal_strlit("requester_payroll_bits");
    assert("requester_payroll_bits"@ =~= k_requester_payroll_bits());
    reveal_strlit("recipient_payroll_bits");
    assert("recipient_payroll_bits"@ =~= k_recipient_payroll_bits());
    reveal_strlit("requester_news_count");
    assert("requester_news_count"@ =~= k_requester_news_count());
    reveal_strlit("recipient_news_count");
    assert("recipient_news_count"@ =~= k_recipient_news_count());
    reveal_strlit("executed_plan_registry_count");
    assert("executed_plan_registry_count"@ =~= k_executed_plan_registry_count());
}

/// The receipt of a committed trade.
#[derive(Debug, PartialEq, Eq)]
pub struct TradeCommitReceipt {
    pub schema_version: usize,
    pub plan_id: String,
    pub commit_process_id: u32,
    pub commit_game_time: String,
    pub requester_team_id: usize,
    pub recipient_team_id: usize,
    pub offered_id: usize,
    pub target_id: usize,
    pub offered_name: String,
    pub target_name: String,
    pub proposed_cash_won: u64,
    pub desired_status_choice: u8,
    pub desired_status_key: String,
    pub offered_team_after: usize,
    pub target_team_after: usize,
    pub target_status_after: String,
    pub offered_contracted_status_after: String,
    pub target_contracted_status_after: String,
    pub rollback_rehearsal_verified: bool,
    pub offered_contract_fingerprint: u64,
    pub target_contract_fingerprint: u64,
    pub requester_total_bits: u64,
    pub requester_transfer_bits: u64,
    pub requester_salary_bits: u64,
    pub recipient_total_bits: u64,
    pub recipient_transfer_bits: u64,
    pub recipient_salary_bits: u64,
    pub requester_roster_after: usize,
    pub recipient_roster_after: usize,
    pub contracted_after: usize,
    pub requester_payroll_bits: u64,
    pub recipient_payroll_bits: u64,
    pub requester_news_count: usize,
    pub recipient_news_count: usize,
    pub executed_plan_registry_count: usize,
}

/// The same, with text as character sequences.
pub struct ReceiptView {
    pub schema_version: usize,
    pub plan_id: Seq<char>,
    pub commit_process_id: u32,
    pub commit_game_time: Seq<char>,
    pub requester_team_id: usize,
    pub recipient_team_id: usize,
    pub offered_id: usize,
    pub target_id: usize,
    pub offered_name: Seq<char>,
    pub target_name: Seq<char>,
    pub proposed_cash_won: u64,
    pub desired_status_choice: u8,
    pub desired_status_key: Seq<char>,
    pub offered_team_after: usize,
    pub target_team_after: usize,
    pub target_status_after: Seq<char>,
    pub offered_contracted_status_after: Seq<char>,
    pub target_contracted_status_after: Seq<char>,
    pub rollback_rehearsal_verified: bool,
    pub offered_contract_fingerprint: u64,
    pub target_contract_fingerprint: u64,
    pub requester_total_bits: u64,
    pub requester_transfer_bits: u64,
    pub requester_salary_bits: u64,
    pub recipient_total_bits: u64,
    pub recipient_transfer_bits: u64,
    pub recipient_salary_bits: u64,
    pub requester_roster_after: usize,
    pub recipient_roster_after: usize,
    pub contracted_after: usize,
    pub requester_payroll_bits: u64,
    pub recipient_payroll_bits: u64,
    pub requester_news_count: usize,
    pub recipient_news_count: usize,
    pub executed_plan_registry_count: usize,
}

impl View for TradeCommitReceipt {
    type V = ReceiptView;

    open spec fn view(&self) -> ReceiptView {
        ReceiptView {
            schema_version: self.schema_version,
            plan_id: self.plan_id@,
            commit_process_id: self.commit_process_id,
            commit_game_time: self.commit_game_time@,
            requester_team_id: self.requester_team_id,
            recipient_team_id: self.recipient_team_id,
            offered_id: self.offered_id,
            target_id: self.target_id,
            offered_name: self.offered_name@,
            target_name: self.target_name@,
            proposed_cash_won: self.proposed_cash_won,
            desired_status_choice: self.desired_status_choice,
            desired_status_key: self.desired_status_key@,
            offered_team_after: self.offered_team_after,
            target_team_after: self.target_team_after,
            target_status_after: self.target_status_after@,
            offered_contracted_status_after: self.offered_contracted_status_after@,
            target_contracted_status_after: self.target_contracted_status_after@,
            rollback_rehearsal_verified: self.rollback_rehearsal_verified,
            offered_contract_fingerprint: self.offered_contract_fingerprint,
            target_contract_fingerprint: self.target_contract_fingerprint,
            requester_total_bits: self.requester_total_bits,
            requester_transfer_bits: self.requester_transfer_bits,
            requester_salary_bits: self.requester_salary_bits,
            recipient_total_bits: self.recipient_total_bits,
            recipient_transfer_bits: self.recipient_transfer_bits,
            recipient_salary_bits: self.recipient_salary_bits,
            requester_roster_after: self.requester_roster_after,
            recipient_roster_after: self.recipient_roster_after,
            contracted_after: self.contracted_after,
            requester_payroll_bits: self.requester_payroll_bits,
            recipient_payroll_bits: self.recipient_payroll_bits,
            requester_news_count: self.requester_news_count,
            recipient_news_count: self.recipient_news_count,
            executed_plan_registry_count: self.executed_plan_registry_count,
        }
    }
}

/// How a boolean is printed.
pub open spec fn bool_text(b: bool) -> Seq<char> {
    if b {
        seq!['t', 'r', 'u', 'e']
    } else {
        seq!['f', 'a', 'l', 's', 'e']
    }
}

/// The lines of a receipt, in the order they are written; the contracted
/// statuses and the rehearsal flag are written from schema 2 on.
pub open spec fn receipt_fields(r: ReceiptView) -> Seq<(Seq<char>, Seq<char>)> {
    if r.schema_version >= 2 {
        seq![
            (k_schema_version(), dec(r.schema_version as nat)),
            (k_plan_id(), r.plan_id),
            (k_commit_process_id(), dec(r.commit_process_id as nat)),
            (k_commit_game_time(), sanitize_spec(r.commit_game_time)),
            (k_requester_team_id(), dec(r.requester_team_id as nat)),
            (k_recipient_team_id(), dec(r.recipient_team_id as nat)),
            (k_offered_id(), dec(r.offered_id as nat)),
            (k_target_id(), dec(r.target_id as nat)),
            (k_offered_name(), sanitize_spec(r.offered_name)),
            (k_target_name(), sanitize_spec(r.target_name)),
            (k_proposed_cash_won(), dec(r.proposed_cash_won as nat)),
            (k_desired_status_choice(), dec(r.desired_status_choice as nat)),
            (k_desired_status_key(), r.desired_status_key),
            (k_offered_team_after(), dec(r.offered_team_after as nat)),
            (k_target_team_after(), dec(r.target_team_after as nat)),
            (k_target_status_after(), sanitize_spec(r.target_status_after)),
            (k_offered_contracted_status_after(), sanitize_spec(r.offered_contracted_status_after)),
            (k_target_contracted_status_after(), sanitize_spec(r.target_contracted_status_after)),
            (k_rollback_rehearsal_verified(), bool_text(r.rollback_rehearsal_verified)),
            (k_offered_contract_fingerprint(), dec(r.offered_contract_fingerprint as nat)),
            (k_target_contract_fingerprint(), dec(r.target_contract_fingerprint as nat)),
            (k_requester_total_bits(), dec(r.requester_total_bits as nat)),
            (k_requester_transfer_bits(), dec(r.requester_transfer_bits as nat)),
            (k_requester_salary_bits(), dec(r.requester_salary_bits as nat)),
            (k_recipient_total_bits(), dec(r.recipient_total_bits as nat)),
            (k_recipient_transfer_bits(), dec(r.recipient_transfer_bits as nat)),
            (k_recipient_salary_bits(), dec(r.recipient_salary_bits as nat)),
            (k_requester_roster_after(), dec(r.requester_roster_after as nat)),
            (k_recipient_roster_after(), dec(r.recipient_roster_after as nat)),
            (k_contracted_after(), dec(r.contracted_after as nat)),
            (k_requester_payroll_bits(), dec(r.requester_payroll_bits as nat)),
            (k_recipient_payroll_bits(), dec(r.recipient_payroll_bits as nat)),
            (k_requester_news_count(), dec(r.requester_news_count as nat)),
            (k_recipient_news_count(), dec(r.recipient_news_count as nat)),
            (k_executed_plan_registry_count(), dec(r.executed_plan_registry_count as nat)),
        ]
    } else {
        seq![
            (k_schema_version(), dec(r.schema_version as nat)),
            (k_plan_id(), r.plan_id),
            (k_commit_process_id(), dec(r.commit_process_id as nat)),
            (k_commit_game_time(), sanitize_spec(r.commit_game_time)),
            (k_requester_team_id(), dec(r.requester_team_id as nat)),
            (k_recipient_team_id(), dec(r.recipient_team_id as nat)),
            (k_offered_id(), dec(r.offered_id as nat)),
            (k_target_id(), dec(r.target_id as nat)),
            (k_offered_name(), sanitize_spec(r.offered_name)),
            (k_target_name(), sanitize_spec(r.target_name)),
            (k_proposed_cash_won(), dec(r.proposed_cash_won as nat)),
            (k_desired_status_choice(), dec(r.desired_status_choice as nat)),
            (k_desired_status_key(), r.desired_status_key),
            (k_offered_team_after(), dec(r.offered_team_after as nat)),
            (k_target_team_after(), dec(r.target_team_after as nat)),
            (k_target_status_after(), sanitize_spec(r.target_status_after)),
            (k_offered_contract_fingerprint(), dec(r.offered_contract_fingerprint as nat)),
            (k_target_contract_fingerprint(), dec(r.target_contract_fingerprint as nat)),
            (k_requester_total_bits(), dec(r.requester_total_bits as nat)),
            (k_requester_transfer_bits(), dec(r.requester_transfer_bits as nat)),
            (k_requester_salary_bits(), dec(r.requester_salary_bits as nat)),
            (k_recipient_total_bits(), dec(r.recipient_total_bits as nat)),
            (k_recipient_transfer_bits(), dec(r.recipient_transfer_bits as nat)),
            (k_recipient_salary_bits(), dec(r.recipient_salary_bits as nat)),
            (k_requester_roster_after(), dec(r.requester_roster_after as nat)),
            (k_recipient_roster_after(), dec(r.recipient_roster_after as nat)),
            (k_contracted_after(), dec(r.contracted_after as nat)),
            (k_requester_payroll_bits(), dec(r.requester_payroll_bits as nat)),
            (k_recipient_payroll_bits(), dec(r.recipient_payroll_bits as nat)),
            (k_requester_news_count(), dec(r.requester_news_count as nat)),
            (k_recipient_news_count(), dec(r.recipient_news_count as nat)),
            (k_executed_plan_registry_count(), dec(r.executed_plan_registry_count as nat)),
        ]
    }
}

/// The text that a contracted status reads as when a receipt predates it.
pub open spec fn legacy_unrecorded() -> Seq<char> {
    "LegacyUnrecorded"@
}

/// An optional text field: its value, or `default`.
pub open spec fn text_or(m: Map<Seq<char>, Seq<char>>, k: Seq<char>, default: Seq<char>) -> Seq<char> {
    if m.contains_key(k) {
        m[k]
    } else {
        default
    }
}

/// What decoding a read receipt payload gives: the first failing field in
/// reading order, or the receipt.
pub open spec fn decode_receipt_map(m: Map<Seq<char>, Seq<char>>) -> Result<ReceiptView, DecodeFault> {
    if need_num(m, k_schema_version(), (usize::MAX as nat)) is Some {
        Err(need_num(m, k_schema_version(), (usize::MAX as nat))->0)
    } else if need_text(m, k_plan_id()) is Some {
        Err(need_text(m, k_plan_id())->0)
    } else if !(num_of(m, k_schema_version()) == 1 || num_of(m, k_schema_version()) == 2) || !plan_id_ok(m[k_plan_id()]) {
        Err(DecodeFault::InvalidReceipt)
    } else if need_num(m, k_commit_process_id(), (u64::MAX as nat)) is Some {
        Err(need_num(m, k_commit_process_id(), (u64::MAX as nat))->0)
    } else if need_at_most(m, k_commit_process_id(), 4294967295) is Some {
        Err(need_at_most(m, k_commit_process_id(), 4294967295)->0)
    } else if need_num(m, k_desired_status_choice(), (u64::MAX as nat)) is Some {
        Err(need_num(m, k_desired_status_choice(), (u64::MAX as nat))->0)
    } else if need_at_most(m, k_desired_status_choice(), 255) is Some {
        Err(need_at_most(m, k_desired_status_choice(), 255)->0)
    } else if need_text(m, k_commit_game_time()) is Some {
        Err(need_text(m, k_commit_game_time())->0)
    } else if need_num(m, k_requester_team_id(), (usize::MAX as nat)) is Some {
        Err(need_num(m, k_requester_team_id(), (usize::MAX as nat))->0)
    } else if need_num(m, k_recipient_team_id(), (usize::MAX as nat)) is Some {
        Err(need_num(m, k_recipient_team_id(), (usize::MAX as nat))->0)
    } else if need_num(m, k_offered_id(), (usize::MAX as nat)) is Some {
        Err(need_num(m, k_offered_id(), (usize::MAX as nat))->0)
    } else if need_num(m, k_target_id(), (usize::MAX as nat)) is Some {
        Err(need_num(m, k_target_id(), (usize::MAX as nat))->0)
    } else if need_text(m, k_offered_name()) is Some {
        Err(need_text(m, k_offered_name())->0)
    } else if need_text(m, k_target_name()) is Some {
        Err(need_text(m, k_target_name())->0)
    } else if need_num(m, k_proposed_cash_won(), (u64::MAX as nat)) is Some {
        Err(need_num(m, k_proposed_cash_won(), (u64::MAX as nat))->0)
    } else if need_text(m, k_desired_status_key()) is Some {
        Err(need_text(m, k_desired_status_key())->0)
    } else if need_num(m, k_offered_team_after(), (usize::MAX as nat)) is Some {
        Err(need_num(m, k_offered_team_after(), (usize::MAX as nat))->0)
    } else if need_num(m, k_target_team_after(), (usize::MAX as nat)) is Some {
        Err(need_num(m, k_target_team_after(), (usize::MAX as nat))->0)
    } else if need_text(m, k_target_status_after()) is Some {
        Err(need_text(m, k_target_status_after())->0)
    } else if num_of(m, k_schema_version()) >= 2 && need_bool(m, k_rollback_rehearsal_verified()) is Some {
        Err(need_bool(m, k_rollback_rehearsal_verified())->0)
    } else if need_num(m, k_offered_contract_fingerprint(), (u64::MAX as nat)) is Some {
        Err(need_num(m, k_offered_contract_fingerprint(), (u64::MAX as nat))->0)
    } else if need_num(m, k_target_contract_fingerprint(), (u64::MAX as nat)) is Some {
        Err(need_num(m, k_target_contract_fingerprint(), (u64::MAX as nat))->0)
    } else if need_num(m, k_requester_total_bits(), (u64::MAX as nat)) is Some {
        Err(need_num(m, k_requester_total_bits(), (u64::MAX as nat))->0)
    } else if need_num(m, k_requester_transfer_bits(), (u64::MAX as nat)) is Some {
        Err(need_num(m, k_requester_transfer_bits(), (u64::MAX as nat))->0)
    } else if need_num(m, k_requester_salary_bits(), (u64::MAX as nat)) is Some {
        Err(need_num(m, k_requester_salary_bits(), (u64::MAX as nat))->0)
    } else if need_num(m, k_recipient_total_bits(), (u64::MAX as nat)) is Some {
        Err(need_num(m, k_recipient_total_bits(), (u64::MAX as nat))->0)
    } else if need_num(m, k_recipient_transfer_bits(), (u64::MAX as nat)) is Some {
        Err(need_num(m, k_recipient_transfer_bits(), (u64::MAX as nat))->0)
    } else if need_num(m, k_recipient_salary_bits(), (u64::MAX as nat)) is Some {
        Err(need_num(m, k_recipient_salary_bits(), (u64::MAX as nat))->0)
    } else if need_num(m, k_requester_roster_after(), (usize::MAX as nat)) is Some {
        Err(need_num(m, k_requester_roster_after(), (usize::MAX as nat))->0)
    } else if need_num(m, k_recipient_roster_after(), (usize::MAX as nat)) is Some {
        Err(need_num(m, k_recipient_roster_after(), (usize::MAX as nat))->0)
    } else if need_num(m, k_contracted_after(), (usize::MAX as nat)) is Some {
        Err(need_num(m, k_contracted_after(), (usize::MAX as nat))->0)
    } else if need_num(m, k_requester_payroll_bits(), (u64::MAX as nat)) is Some {
        Err(need_num(m, k_requester_payroll_bits(), (u64::MAX as nat))->0)
    } else if need_num(m, k_recipient_payroll_bits(), (u64::MAX as nat)) is Some {
        Err(need_num(m, k_recipient_payroll_bits(), (u64::MAX as nat))->0)
    } else if need_num(m, k_requester_news_count(), (usize::MAX as nat)) is Some {
        Err(need_num(m, k_requester_news_count(), (usize::MAX as nat))->0)
    } else if need_num(m, k_recipient_news_count(), (usize::MAX as nat)) is Some {
        Err(need_num(m, k_recipient_news_count(), (usize::MAX as nat))->0)
    } else if need_num(m, k_executed_plan_registry_count(), (usize::MAX as nat)) is Some {
        Err(need_num(m, k_executed_plan_registry_count(), (usize::MAX as nat))->0)
    } else {
        Ok(ReceiptView {
            schema_version: num_of(m, k_schema_version()) as usize,
            plan_id: m[k_plan_id()],
            commit_process_id: num_of(m, k_commit_process_id()) as u32,
            commit_game_time: m[k_commit_game_time()],
            requester_team_id: num_of(m, k_requester_team_id()) as usize,
            recipient_team_id: num_of(m, k_recipient_team_id()) as usize,
            offered_id: num_of(m, k_offered_id()) as usize,
            target_id: num_of(m, k_target_id()) as usize,
            offered_name: m[k_offered_name()],
            target_name: m[k_target_name()],
            proposed_cash_won: num_of(m, k_proposed_cash_won()) as u64,
            desired_status_choice: num_of(m, k_desired_status_choice()) as u8,
            desired_status_key: m[k_desired_status_key()],
            offered_team_after: num_of(m, k_offered_team_after()) as usize,
            target_team_after: num_of(m, k_target_team_after()) as usize,
            target_status_after: m[k_target_status_after()],
            offered_contracted_status_after: text_or(m, k_offered_contracted_status_after(), legacy_unrecorded()),
            target_contracted_status_after: text_or(m, k_target_contracted_status_after(), legacy_unrecorded()),
            rollback_rehearsal_verified: num_of(m, k_schema_version()) >= 2 && bool_of(m, k_rollback_rehearsal_verified()),
            offered_contract_fingerprint: num_of(m, k_offered_contract_fingerprint()) as u64,
            target_contract_fingerprint: num_of(m, k_target_contract_fingerprint()) as u64,
            requester_total_bits: num_of(m, k_requester_total_bits()) as u64,
            requester_transfer_bits: num_of(m, k_requester_transfer_bits()) as u64,
            requester_salary_bits: num_of(m, k_requester_salary_bits()) as u64,
            recipient_total_bits: num_of(m, k_recipient_total_bits()) as u64,
            recipient_transfer_bits: num_of(m, k_recipient_transfer_bits()) as u64,
            recipient_salary_bits: num_of(m, k_recipient_salary_bits()) as u64,
            requester_roster_after: num_of(m, k_requester_roster_after()) as usize,
            recipient_roster_after: num_of(m, k_recipient_roster_after()) as usize,
            contracted_after: num_of(m, k_contracted_after()) as usize,
            requester_payroll_bits: num_of(m, k_requester_payroll_bits()) as u64,
            recipient_payroll_bits: num_of(m, k_recipient_payroll_bits()) as u64,
            requester_news_count: num_of(m, k_requester_news_count()) as usize,
            recipient_news_count: num_of(m, k_recipient_news_count()) as usize,
            executed_plan_registry_count: num_of(m, k_executed_plan_registry_count()) as usize,
        })
    }
}

/// What decoding stored bytes gives.
pub open spec fn decode_receipt_spec(bytes: Seq<u8>) -> Result<ReceiptView, DecodeFault> {
    match read_payload(bytes) {
        Err(e) => Err(payload_fault(e)),
        Ok(m) => decode_receipt_map(m),
    }
}

/// `true` or `false`.
pub fn bool_chars(b: bool) -> (v: Vec<char>)
    ensures
        v@ == bool_text(b),
{
    let v = if b {
        chars_of("true")
    } else {
        chars_of("false")
    };
    proof {
        reveal_strlit("true");
        reveal_strlit("false");
    }
    assert(v@ =~= bool_text(b));
    v
}

/// Writes the receipt as its `key=value` record.
#[verifier::rlimit(50)]
pub fn encode_trade_commit_receipt(r: &TradeCommitReceipt) -> (bytes: Vec<u8>)
    ensures
        bytes@ == vstd::utf8::encode_utf8(render(receipt_fields(r@))),
{
    proof {
        lemma_receipt_keys();
    }
    let mut fields: Vec<(&str, Vec<char>)> = Vec::new();
    fields.push(("schema_version", decimal(r.schema_version as u64)));
    fields.push(("plan_id", chars_of(r.plan_id.as_str())));
    fields.push(("commit_process_id", decimal(r.commit_process_id as u64)));
    fields.push(("commit_game_time", sanitize_chars(chars_of(r.commit_game_time.as_str()).as_slice())));
    fields.push(("requester_team_id", decimal(r.requester_team_id as u64)));
    fields.push(("recipient_team_id", decimal(r.recipient_team_id as u64)));
    fields.push(("offered_id", decimal(r.offered_id as u64)));
    fields.push(("target_id", decimal(r.target_id as u64)));
    fields.push(("offered_name", sanitize_chars(chars_of(r.offered_name.as_str()).as_slice())));
    fields.push(("target_name", sanitize_chars(chars_of(r.target_name.as_str()).as_slice())));
    fields.push(("proposed_cash_won", decimal(r.proposed_cash_won as u64)));
    fields.push(("desired_status_choice", decimal(r.desired_status_choice as u64)));
    fields.push(("desired_status_key", chars_of(r.desired_status_key.as_str())));
    fields.push(("offered_team_after", decimal(r.offered_team_after as u64)));
    fields.push(("target_team_after", decimal(r.target_team_after as u64)));
    fields.push(("target_status_after", sanitize_chars(chars_of(r.target_status_after.as_str()).as_slice())));
    if r.schema_version >= 2 {
        fields.push(("offered_contracted_status_after", sanitize_chars(chars_of(r.offered_contracted_status_after.as_str()).as_slice())));
    }
    if r.schema_version >= 2 {
        fields.push(("target_contracted_status_after", sanitize_chars(chars_of(r.target_contracted_status_after.as_str()).as_slice())));
    }
    if r.schema_version >= 2 {
        fields.push(("rollback_rehearsal_verified", bool_chars(r.rollback_rehearsal_verified)));
    }
    fields.push(("offered_contract_fingerprint", decimal(r.offered_contract_fingerprint as u64)));
    fields.push(("target_contract_fingerprint", decimal(r.target_contract_fingerprint as u64)));
    fields.push(("requester_total_bits", decimal(r.requester_total_bits as u64)));
    fields.push(("requester_transfer_bits", decimal(r.requester_transfer_bits as u64)));
    fields.push(("requester_salary_bits", decimal(r.requester_salary_bits as u64)));
    fields.push(("recipient_total_bits", decimal(r.recipient_total_bits as u64)));
    fields.push(("recipient_transfer_bits", decimal(r.recipient_transfer_bits as u64)));
    fields.push(("recipient_salary_bits", decimal(r.recipient_salary_bits as u64)));
    fields.push(("requester_roster_after", decimal(r.requester_roster_after as u64)));
    fields.push(("recipient_roster_after", decimal(r.recipient_roster_after as u64)));
    fields.push(("contracted_after", decimal(r.contracted_after as u64)));
    fields.push(("requester_payroll_bits", decimal(r.requester_payroll_bits as u64)));
    fields.push(("recipient_payroll_bits", decimal(r.recipient_payroll_bits as u64)));
    fields.push(("requester_news_count", decimal(r.requester_news_count as u64)));
    fields.push(("recipient_news_count", decimal(r.recipient_news_count as u64)));
    fields.push(("executed_plan_registry_count", decimal(r.executed_plan_registry_count as u64)));
    let ghost view = fields@.map_values(|f: (&str, Vec<char>)| (f.0@, f.1@));
    assert(view =~= receipt_fields(r@));
    let out = crate::kv::render_fields(&fields);
    utf8_bytes(out.as_slice())
}

/// Reads a receipt back from its record.
pub fn decode_trade_commit_receipt(bytes: &[u8]) -> (r: Result<TradeCommitReceipt, DecodeError>)
    ensures
        match decode_receipt_spec(bytes@) {
            Ok(v) => r matches Ok(x) && x@ == v,
            Err(f) => r matches Err(e) && e@ == f,
        },
{
    let m = match parse_kv_payload(bytes) {
        Ok(m) => m,
        Err(e) => return Err(from_kv_error(e)),
    };
    decode_receipt_fields(&m)
}

/// Reads an optional text field.
fn text_or_default(m: &KvPayload, key: &str, default: &str) -> (s: String)
    ensures
        s@ == (if m@.contains_key(key@) { m@[key@] } else { default@ }),
{
    match m.get_str(key) {
        Some(v) => string_of(v.as_slice()),
        None => {
            let d = chars_of(default);
            string_of(d.as_slice())
        },
    }
}

/// Reads a receipt out of a parsed record.
#[verifier::rlimit(80)]
pub fn decode_receipt_fields(m: &KvPayload) -> (r: Result<TradeCommitReceipt, DecodeError>)
    ensures
        match decode_receipt_map(m@) {
            Ok(v) => r matches Ok(x) && x@ == v,
            Err(f) => r matches Err(e) && e@ == f,
        },
{
    proof {
        lemma_receipt_keys();
    }
    let usize_max: u64 = usize::MAX as u64;
    let schema_version_raw = num_field(m, "schema_version", usize_max)?;
    let plan_id_text = text_field(m, "plan_id")?;
    if !(schema_version_raw == 1 || schema_version_raw == 2) || !valid_test60_plan_id(plan_id_text.as_str()) {
        return Err(DecodeError::InvalidReceipt);
    }
    let commit_process_id_raw = num_field(m, "commit_process_id", u64::MAX)?;
    at_most(commit_process_id_raw, "commit_process_id", 4294967295)?;
    let desired_status_choice_raw = num_field(m, "desired_status_choice", u64::MAX)?;
    at_most(desired_status_choice_raw, "desired_status_choice", 255)?;
    let commit_game_time_text = text_field(m, "commit_game_time")?;
    let requester_team_id_raw = num_field(m, "requester_team_id", usize_max)?;
    let recipient_team_id_raw = num_field(m, "recipient_team_id", usize_max)?;
    let offered_id_raw = num_field(m, "offered_id", usize_max)?;
    let target_id_raw = num_field(m, "target_id", usize_max)?;
    let offered_name_text = text_field(m, "offered_name")?;
    let target_name_text = text_field(m, "target_name")?;
    let proposed_cash_won_raw = num_field(m, "proposed_cash_won", u64::MAX)?;
    let desired_status_key_text = text_field(m, "desired_status_key")?;
    let offered_team_after_raw = num_field(m, "offered_team_after", usize_max)?;
    let target_team_after_raw = num_field(m, "target_team_after", usize_max)?;
    let target_status_after_text = text_field(m, "target_status_after")?;
    let rollback_rehearsal_verified_value = if schema_version_raw >= 2 {
        bool_field(m, "rollback_rehearsal_verified")?
    } else {
        false
    };
    let offered_contract_fingerprint_raw = num_field(m, "offered_contract_fingerprint", u64::MAX)?;
    let target_contract_fingerprint_raw = num_field(m, "target_contract_fingerprint", u64::MAX)?;
    let requester_total_bits_raw = num_field(m, "requester_total_bits", u64::MAX)?;
    let requester_transfer_bits_raw = num_field(m, "requester_transfer_bits", u64::MAX)?;
    let requester_salary_bits_raw = num_field(m, "requester_salary_bits", u64::MAX)?;
    let recipient_total_bits_raw = num_field(m, "recipient_total_bits", u64::MAX)?;
    let recipient_transfer_bits_raw = num_field(m, "recipient_transfer_bits", u64::MAX)?;
    let recipient_salary_bits_raw = num_field(m, "recipient_salary_bits", u64::MAX)?;
    let requester_roster_after_raw = num_field(m, "requester_roster_after", usize_max)?;
    let recipient_roster_after_raw = num_field(m, "recipient_roster_after", usize_max)?;
    let contracted_after_raw = num_field(m, "contracted_after", usize_max)?;
    let requester_payroll_bits_raw = num_field(m, "requester_payroll_bits", u64::MAX)?;
    let recipient_payroll_bits_raw = num_field(m, "recipient_payroll_bits", u64::MAX)?;
    let requester_news_count_raw = num_field(m, "requester_news_count", usize_max)?;
    let recipient_news_count_raw = num_field(m, "recipient_news_count", usize_max)?;
    let executed_plan_registry_count_raw = num_field(m, "executed_plan_registry_count", usize_max)?;
    let offered_contracted = text_or_default(m, "offered_contracted_status_after", "LegacyUnrecorded");
    let target_contracted = text_or_default(m, "target_contracted_status_after", "LegacyUnrecorded");
    Ok(TradeCommitReceipt {
        schema_version: schema_version_raw as usize,
        plan_id: plan_id_text,
        commit_process_id: commit_process_id_raw as u32,
        commit_game_time: commit_game_time_text,
        requester_team_id: requester_team_id_raw as usize,
        recipient_team_id: recipient_team_id_raw as usize,
        offered_id: offered_id_raw as usize,
        target_id: target_id_raw as usize,
        offered_name: offered_name_text,
        target_name: target_name_text,
        proposed_cash_won: proposed_cash_won_raw as u64,
        desired_status_choice: desired_status_choice_raw as u8,
        desired_status_key: desired_status_key_text,
        offered_team_after: offered_team_after_raw as usize,
        target_team_after: target_team_after_raw as usize,
        target_status_after: target_status_after_text,
        offered_contracted_status_after: offered_contracted,
        target_contracted_status_after: target_contracted,
        rollback_rehearsal_verified: rollback_rehearsal_verified_value,
        offered_contract_fingerprint: offered_contract_fingerprint_raw as u64,
        target_contract_fingerprint: target_contract_fingerprint_raw as u64,
        requester_total_bits: requester_total_bits_raw as u64,
        requester_transfer_bits: requester_transfer_bits_raw as u64,
        requester_salary_bits: requester_salary_bits_raw as u64,
        recipient_total_bits: recipient_total_bits_raw as u64,
        recipient_transfer_bits: recipient_transfer_bits_raw as u64,
        recipient_salary_bits: recipient_salary_bits_raw as u64,
        requester_roster_after: requester_roster_after_raw as usize,
        recipient_roster_after: recipient_roster_after_raw as usize,
        contracted_after: contracted_after_raw as usize,
        requester_payroll_bits: requester_payroll_bits_raw as u64,
        recipient_payroll_bits: recipient_payroll_bits_raw as u64,
        requester_news_count: requester_news_count_raw as usize,
        recipient_news_count: recipient_news_count_raw as usize,
        executed_plan_registry_count: executed_plan_registry_count_raw as usize,
    })
}

/// A receipt of schema 2 whose texts survive being stored: a valid plan id,
/// and no newline, trailing whitespace or separator in its texts.
pub open spec fn receipt_storable(r: ReceiptView) -> bool {
    &&& r.schema_version == 2
    &&& plan_id_ok(r.plan_id)
    &&& value_ok(r.plan_id)
    &&& value_ok(r.commit_game_time)
    &&& sanitize_spec(r.commit_game_time) == r.commit_game_time
    &&& value_ok(r.offered_name)
    &&& sanitize_spec(r.offered_name) == r.offered_name
    &&& value_ok(r.target_name)
    &&& sanitize_spec(r.target_name) == r.target_name
    &&& value_ok(r.desired_status_key)
    &&& value_ok(r.target_status_after)
    &&& sanitize_spec(r.target_status_after) == r.target_status_after
    &&& value_ok(r.offered_contracted_status_after)
    &&& sanitize_spec(r.offered_contracted_status_after) == r.offered_contracted_status_after
    &&& value_ok(r.target_contracted_status_after)
    &&& sanitize_spec(r.target_contracted_status_after) == r.target_contracted_status_after
}

/// The position of a key in a schema-2 record.
pub open spec fn receipt_key_index(k: Seq<char>) -> int {
    if k == k_schema_version() {
        0
    } else if k == k_plan_id() {
        1
    } else if k == k_commit_process_id() {
        2
    } else if k == k_commit_game_time() {
        3
    } else if k == k_requester_team_id() {
        4
    } else if k == k_recipient_team_id() {
        5
    } else if k == k_offered_id() {
        6
    } else if k == k_target_id() {
        7
    } else if k == k_offered_name() {
        8
    } else if k == k_target_name() {
        9
    } else if k == k_proposed_cash_won() {
        10
    } else if k == k_desired_status_choice() {
        11
    } else if k == k_desired_status_key() {
        12
    } else if k == k_offered_team_after() {
        13
    } else if k == k_target_team_after() {
        14
    } else if k == k_target_status_after() {
        15
    } else if k == k_offered_contracted_status_after() {
        16
    } else if k == k_target_contracted_status_after() {
        17
    } else if k == k_rollback_rehearsal_verified() {
        18
    } else if k == k_offered_contract_fingerprint() {
        19
    } else if k == k_target_contract_fingerprint() {
        20
    } else if k == k_requester_total_bits() {
        21
    } else if k == k_requester_transfer_bits() {
        22
    } else if k == k_requester_salary_bits() {
        23
    } else if k == k_recipient_total_bits() {
        24
    } else if k == k_recipient_transfer_bits() {
        25
    } else if k == k_recipient_salary_bits() {
        26
    } else if k == k_requester_roster_after() {
        27
    } else if k == k_recipient_roster_after() {
        28
    } else if k == k_contracted_after() {
        29
    } else if k == k_requester_payroll_bits() {
        30
    } else if k == k_recipient_payroll_bits() {
        31
    } else if k == k_requester_news_count() {
        32
    } else if k == k_recipient_news_count() {
        33
    } else if k == k_executed_plan_registry_count() {
        34
    } else {
        -1
    }
}

/// The keys of a schema-2 record are pairwise different.
#[verifier::spinoff_prover]
#[verifier::rlimit(100)]
pub proof fn lemma_receipt_keys_distinct(r: ReceiptView)
    requires
        r.schema_version >= 2,
    ensures
        forall|a: int, b: int|
            0 <= a < b < receipt_fields(r).len() ==> #[trigger] receipt_fields(r)[a].0
                != #[trigger] receipt_fields(r)[b].0,
{
    let f = receipt_fields(r);
    assert(k_plan_id().len() != k_schema_version().len());
    assert(k_commit_process_id().len() != k_schema_version().len());
    assert(k_commit_process_id().len() != k_plan_id().len());
    assert(k_commit_game_time().len() != k_schema_version().len());
    assert(k_commit_game_time().len() != k_plan_id().len());
    assert(k_commit_game_time().len() != k_commit_process_id().len());
    assert(k_requester_team_id().len() != k_schema_version().len());
    assert(k_requester_team_id().len() != k_plan_id().len());
    assert(k_requester_team_id()[0] != k_commit_process_id()[0]);
    assert(k_requester_team_id().len() != k_commit_game_time().len());
    assert(k_recipient_team_id().len() != k_schema_version().len());
    assert(k_recipient_team_id().len() != k_plan_id().len());
    assert(k_recipient_team_id()[0] != k_commit_process_id()[0]);
    assert(k_recipient_team_id().len() != k_commit_game_time().len());
    assert(k_recipient_team_id()[2] != k_requester_team_id()[2]);
    assert(k_offered_id().len() != k_schema_version().len());
    assert(k_offered_id().len() != k_plan_id().len());
    assert(k_offered_id().len() != k_commit_process_id().len());
    assert(k_offered_id().len() != k_commit_game_time().len());
    assert(k_offered_id().len() != k_requester_team_id().len());
    assert(k_offered_id().len() != k_recipient_team_id().len());
    assert(k_target_id().len() != k_schema_version().len());
    assert(k_target_id().len() != k_plan_id().len());
    assert(k_target_id().len() != k_commit_process_id().len());
    assert(k_target_id().len() != k_commit_game_time().len());
    assert(k_target_id().len() != k_requester_team_id().len());
    assert(k_target_id().len() != k_recipient_team_id().len());
    assert(k_target_id().len() != k_offered_id().len());
    assert(k_offered_name().len() != k_schema_version().len());
    assert(k_offered_name().len() != k_plan_id().len());
    assert(k_offered_name().len() != k_commit_process_id().len());
    assert(k_offered_name().len() != k_commit_game_time().len());
    assert(k_offered_name().len() != k_requester_team_id().len());
    assert(k_offered_name().len() != k_recipient_team_id().len());
    assert(k_offered_name().len() != k_offered_id().len());
    assert(k_offered_name().len() != k_target_id().len());
    assert(k_target_name().len() != k_schema_version().len());
    assert(k_target_name().len() != k_plan_id().len());
    assert(k_target_name().len() != k_commit_process_id().len());
    assert(k_target_name().len() != k_commit_game_time().len());
    assert(k_target_name().len() != k_requester_team_id().len());
    assert(k_target_name().len() != k_recipient_team_id().len());
    assert(k_target_name().len() != k_offered_id().len());
    assert(k_target_name().len() != k_target_id().len());
    assert(k_target_name().len() != k_offered_name().len());
    assert(k_proposed_cash_won().len() != k_schema_version().len());
    assert(k_proposed_cash_won().len() != k_plan_id().len());
    assert(k_proposed_cash_won()[0] != k_commit_process_id()[0]);
    assert(k_proposed_cash_won().len() != k_commit_game_time().len());
    assert(k_proposed_cash_won()[0] != k_requester_team_id()[0]);
    assert(k_proposed_cash_won()[0] != k_recipient_team_id()[0]);
    assert(k_proposed_cash_won().len() != k_offered_id().len());
    assert(k_proposed_cash_won().len() != k_target_id().len());
    assert(k_proposed_cash_won().len() != k_offered_name().len());
    assert(k_proposed_cash_won().len() != k_target_name().len());
    assert(k_desired_status_choice().len() != k_schema_version().len());
    assert(k_desired_status_choice().len() != k_plan_id().len());
    assert(k_desired_status_choice().len() != k_commit_process_id().len());
    assert(k_desired_status_choice().len() != k_commit_game_time().len());
    assert(k_desired_status_choice().len() != k_requester_team_id().len());
    assert(k_desired_status_choice().len() != k_recipient_team_id().len());
    assert(k_desired_status_choice().len() != k_offered_id().len());
    assert(k_desired_status_choice().len() != k_target_id().len());
    assert(k_desired_status_choice().len() != k_offered_name().len());
    assert(k_desired_status_choice().len() != k_target_name().len());
    assert(k_desired_status_choice().len() != k_proposed_cash_won().len());
    assert(k_desired_status_key().len() != k_schema_version().len());
    assert(k_desired_status_key().len() != k_plan_id().len());
    assert(k_desired_status_key().len() != k_commit_process_id().len());
    assert(k_desired_status_key().len() != k_commit_game_time().len());
    assert(k_desired_status_key().len() != k_requester_team_id().len());
    assert(k_desired_status_key().len() != k_recipient_team_id().len());
    assert(k_desired_status_key().len() != k_offered_id().len());
    assert(k_desired_status_key().len() != k_target_id().len());
    assert(k_desired_status_key().len() != k_offered_name().len());
    assert(k_desired_status_key().len() != k_target_name().len());
    assert(k_desired_status_key().len() != k_proposed_cash_won().len());
    assert(k_desired_status_key().len() != k_desired_status_choice().len());
    assert(k_offered_team_after().len() != k_schema_version().len());
    assert(k_offered_team_after().len() != k_plan_id().len());
    assert(k_offered_team_after().len() != k_commit_process_id().len());
    assert(k_offered_team_after().len() != k_commit_game_time().len());
    assert(k_offered_team_after().len() != k_requester_team_id().len());
    assert(k_offered_team_after().len() != k_recipient_team_id().len());
    assert(k_offered_team_after().len() != k_offered_id().len());
    assert(k_offered_team_after().len() != k_target_id().len());
    assert(k_offered_team_after().len() != k_offered_name().len());
    assert(k_offered_team_after().len() != k_target_name().len());
    assert(k_offered_team_after().len() != k_proposed_cash_won().len());
    assert(k_offered_team_after().len() != k_desired_status_choice().len());
    assert(k_offered_team_after()[0] != k_desired_status_key()[0]);
    assert(k_target_team_after().len() != k_schema_version().len());
    assert(k_target_team_after().len() != k_plan_id().len());
    assert(k_target_team_after()[0] != k_commit_process_id()[0]);
    assert(k_target_team_after().len() != k_commit_game_time().len());
    assert(k_target_team_after()[0] != k_requester_team_id()[0]);
    assert(k_target_team_after()[0] != k_recipient_team_id()[0]);
    assert(k_target_team_after().len() != k_offered_id().len());
    assert(k_target_team_after().len() != k_target_id().len());
    assert(k_target_team_after().len() != k_offered_name().len());
    assert(k_target_team_after().len() != k_target_name().len());
    assert(k_target_team_after()[0] != k_proposed_cash_won()[0]);
    assert(k_target_team_after().len() != k_desired_status_choice().len());
    assert(k_target_team_after().len() != k_desired_status_key().len());
    assert(k_target_team_after().len() != k_offered_team_after().len());
    assert(k_target_status_after().len() != k_schema_version().len());
    assert(k_target_status_after().len() != k_plan_id().len());
    assert(k_target_status_after().len() != k_commit_process_id().len());
    assert(k_target_status_after().len() != k_commit_game_time().len());
    assert(k_target_status_after().len() != k_requester_team_id().len());
    assert(k_target_status_after().len() != k_recipient_team_id().len());
    assert(k_target_status_after().len() != k_offered_id().len());
    assert(k_target_status_after().len() != k_target_id().len());
    assert(k_target_status_after().len() != k_offered_name().len());
    assert(k_target_status_after().len() != k_target_name().len());
    assert(k_target_status_after().len() != k_proposed_cash_won().len());
    assert(k_target_status_after().len() != k_desired_status_choice().len());
    assert(k_target_status_after().len() != k_desired_status_key().len());
    assert(k_target_status_after().len() != k_offered_team_after().len());
    assert(k_target_status_after().len() != k_target_team_after().len());
    assert(k_offered_contracted_status_after().len() != k_schema_version().len());
    assert(k_offered_contracted_status_after().len() != k_plan_id().len());
    assert(k_offered_contracted_status_after().len() != k_commit_process_id().len());
    assert(k_offered_contracted_status_after().len() != k_commit_game_time().len());
    assert(k_offered_contracted_status_after().len() != k_requester_team_id().len());
    assert(k_offered_contracted_status_after().len() != k_recipient_team_id().len());
    assert(k_offered_contracted_status_after().len() != k_offered_id().len());
    assert(k_offered_contracted_status_after().len() != k_target_id().len());
    assert(k_offered_contracted_status_after().len() != k_offered_name().len());
    assert(k_offered_contracted_status_after().len() != k_target_name().len());
    assert(k_offered_contracted_status_after().len() != k_proposed_cash_won().len());
    assert(k_offered_contracted_status_after().len() != k_desired_status_choice().len());
    assert(k_offered_contracted_status_after().len() != k_desired_status_key().len());
    assert(k_offered_contracted_status_after().len() != k_offered_team_after().len());
    assert(k_offered_contracted_status_after().len() != k_target_team_after().len());
    assert(k_offered_contracted_status_after().len() != k_target_status_after().len());
    assert(k_target_contracted_status_after().len() != k_schema_version().len());
    assert(k_target_contracted_status_after().len() != k_plan_id().len());
    assert(k_target_contracted_status_after().len() != k_commit_process_id().len());
    assert(k_target_contracted_status_after().len() != k_commit_game_time().len());
    assert(k_target_contracted_status_after().len() != k_requester_team_id().len());
    assert(k_target_contracted_status_after().len() != k_recipient_team_id().len());
    assert(k_target_contracted_status_after().len() != k_offered_id().len());
    assert(k_target_contracted_status_after().len() != k_target_id().len());
    assert(k_target_contracted_status_after().len() != k_offered_name().len());
    assert(k_target_contracted_status_after().len() != k_target_name().len());
    assert(k_target_contracted_status_after().len() != k_proposed_cash_won().len());
    assert(k_target_contracted_status_after().len() != k_desired_status_choice().len());
    assert(k_target_contracted_status_after().len() != k_desired_status_key().len());
    assert(k_target_contracted_status_after().len() != k_offered_team_after().len());
    assert(k_target_contracted_status_after().len() != k_target_team_after().len());
    assert(k_target_contracted_status_after().len() != k_target_status_after().len());
    assert(k_target_contracted_status_after().len() != k_offered_contracted_status_after().len());
    assert(k_rollback_rehearsal_verified().len() != k_schema_version().len());
    assert(k_rollback_rehearsal_verified().len() != k_plan_id().len());
    assert(k_rollback_rehearsal_verified().len() != k_commit_process_id().len());
    assert(k_rollback_rehearsal_verified().len() != k_commit_game_time().len());
    assert(k_rollback_rehearsal_verified().len() != k_requester_team_id().len());
    assert(k_rollback_rehearsal_verified().len() != k_recipient_team_id().len());
    assert(k_rollback_rehearsal_verified().len() != k_offered_id().len());
    assert(k_rollback_rehearsal_verified().len() != k_target_id().len());
    assert(k_rollback_rehearsal_verified().len() != k_offered_name().len());
    assert(k_rollback_rehearsal_verified().len() != k_target_name().len());
    assert(k_rollback_rehearsal_verified().len() != k_proposed_cash_won().len());
    assert(k_rollback_rehearsal_verified().len() != k_desired_status_choice().len());
    assert(k_rollback_rehearsal_verified().len() != k_desired_status_key().len());
    assert(k_rollback_rehearsal_verified().len() != k_offered_team_after().len());
    assert(k_rollback_rehearsal_verified().len() != k_target_team_after().len());
    assert(k_rollback_rehearsal_verified().len() != k_target_status_after().len());
    assert(k_rollback_rehearsal_verified().len() != k_offered_contracted_status_after().len());
    assert(k_rollback_rehearsal_verified().len() != k_target_contracted_status_after().len());
    assert(k_offered_contract_fingerprint().len() != k_schema_version().len());
    assert(k_offered_contract_fingerprint().len() != k_plan_id().len());
    assert(k_offered_contract_fingerprint().len() != k_commit_process_id().len());
    assert(k_offered_contract_fingerprint().len() != k_commit_game_time().len());
    assert(k_offered_contract_fingerprint().len() != k_requester_team_id().len());
    assert(k_offered_contract_fingerprint().len() != k_recipient_team_id().len());
    assert(k_offered_contract_fingerprint().len() != k_offered_id().len());
    assert(k_offered_contract_fingerprint().len() != k_target_id().len());
    assert(k_offered_contract_fingerprint().len() != k_offered_name().len());
    assert(k_offered_contract_fingerprint().len() != k_target_name().len());
    assert(k_offered_contract_fingerprint().len() != k_proposed_cash_won().len());
    assert(k_offered_contract_fingerprint().len() != k_desired_status_choice().len());
    assert(k_offered_contract_fingerprint().len() != k_desired_status_key().len());
    assert(k_offered_contract_fingerprint().len() != k_offered_team_after().len());
    assert(k_offered_contract_fingerprint().len() != k_target_team_after().len());
    assert(k_offered_contract_fingerprint().len() != k_target_status_after().len());
    assert(k_offered_contract_fingerprint().len() != k_offered_contracted_status_after().len());
    assert(k_offered_contract_fingerprint().len() != k_target_contracted_status_after().len());
    assert(k_offered_contract_fingerprint().len() != k_rollback_rehearsal_verified().len());
    assert(k_target_contract_fingerprint().len() != k_schema_version().len());
    assert(k_target_contract_fingerprint().len() != k_plan_id().len());
    assert(k_target_contract_fingerprint().len() != k_commit_process_id().len());
    assert(k_target_contract_fingerprint().len() != k_commit_game_time().len());
    assert(k_target_contract_fingerprint().len() != k_requester_team_id().len());
    assert(k_target_contract_fingerprint().len() != k_recipient_team_id().len());
    assert(k_target_contract_fingerprint().len() != k_offered_id().len());
    assert(k_target_contract_fingerprint().len() != k_target_id().len());
    assert(k_target_contract_fingerprint().len() != k_offered_name().len());
    assert(k_target_contract_fingerprint().len() != k_target_name().len());
    assert(k_target_contract_fingerprint().len() != k_proposed_cash_won().len());
    assert(k_target_contract_fingerprint().len() != k_desired_status_choice().len());
    assert(k_target_contract_fingerprint().len() != k_desired_status_key().len());
    assert(k_target_contract_fingerprint().len() != k_offered_team_after().len());
    assert(k_target_contract_fingerprint().len() != k_target_team_after().len());
    assert(k_target_contract_fingerprint().len() != k_target_status_after().len());
    assert(k_target_contract_fingerprint().len() != k_offered_contracted_status_after().len());
    assert(k_target_contract_fingerprint().len() != k_target_contracted_status_after().len());
    assert(k_target_contract_fingerprint()[0] != k_rollback_rehearsal_verified()[0]);
    assert(k_target_contract_fingerprint().len() != k_offered_contract_fingerprint().len());
    assert(k_requester_total_bits().len() != k_schema_version().len());
    assert(k_requester_total_bits().len() != k_plan_id().len());
    assert(k_requester_total_bits().len() != k_commit_process_id().len());
    assert(k_requester_total_bits().len() != k_commit_game_time().len());
    assert(k_requester_total_bits().len() != k_requester_team_id().len());
    assert(k_requester_total_bits().len() != k_recipient_team_id().len());
    assert(k_requester_total_bits().len() != k_offered_id().len());
    assert(k_requester_total_bits().len() != k_target_id().len());
    assert(k_requester_total_bits().len() != k_offered_name().len());
    assert(k_requester_total_bits().len() != k_target_name().len());
    assert(k_requester_total_bits().len() != k_proposed_cash_won().len());
    assert(k_requester_total_bits().len() != k_desired_status_choice().len());
    assert(k_requester_total_bits().len() != k_desired_status_key().len());
    assert(k_requester_total_bits().len() != k_offered_team_after().len());
    assert(k_requester_total_bits().len() != k_target_team_after().len());
    assert(k_requester_total_bits().len() != k_target_status_after().len());
    assert(k_requester_total_bits().len() != k_offered_contracted_status_after().len());
    assert(k_requester_total_bits().len() != k_target_contracted_status_after().len());
    assert(k_requester_total_bits().len() != k_rollback_rehearsal_verified().len());
    assert(k_requester_total_bits().len() != k_offered_contract_fingerprint().len());
    assert(k_requester_total_bits().len() != k_target_contract_fingerprint().len());
    assert(k_requester_transfer_bits().len() != k_schema_version().len());
    assert(k_requester_transfer_bits().len() != k_plan_id().len());
    assert(k_requester_transfer_bits().len() != k_commit_process_id().len());
    assert(k_requester_transfer_bits().len() != k_commit_game_time().len());
    assert(k_requester_transfer_bits().len() != k_requester_team_id().len());
    assert(k_requester_transfer_bits().len() != k_recipient_team_id().len());
    assert(k_requester_transfer_bits().len() != k_offered_id().len());
    assert(k_requester_transfer_bits().len() != k_target_id().len());
    assert(k_requester_transfer_bits().len() != k_offered_name().len());
    assert(k_requester_transfer_bits().len() != k_target_name().len());
    assert(k_requester_transfer_bits().len() != k_proposed_cash_won().len());
    assert(k_requester_transfer_bits().len() != k_desired_status_choice().len());
    assert(k_requester_transfer_bits().len() != k_desired_status_key().len());
    assert(k_requester_transfer_bits().len() != k_offered_team_after().len());
    assert(k_requester_transfer_bits().len() != k_target_team_after().len());
    assert(k_requester_transfer_bits().len() != k_target_status_after().len());
    assert(k_requester_transfer_bits().len() != k_offered_contracted_status_after().len());
    assert(k_requester_transfer_bits().len() != k_target_contracted_status_after().len());
    assert(k_requester_transfer_bits().len() != k_rollback_rehearsal_verified().len());
    assert(k_requester_transfer_bits().len() != k_offered_contract_fingerprint().len());
    assert(k_requester_transfer_bits().len() != k_target_contract_fingerprint().len());
    assert(k_requester_transfer_bits().len() != k_requester_total_bits().len());
    assert(k_requester_salary_bits().len() != k_schema_version().len());
    assert(k_requester_salary_bits().len() != k_plan_id().len());
    assert(k_requester_salary_bits().len() != k_commit_process_id().len());
    assert(k_requester_salary_bits().len() != k_commit_game_time().len());
    assert(k_requester_salary_bits().len() != k_requester_team_id().len());
    assert(k_requester_salary_bits().len() != k_recipient_team_id().len());
    assert(k_requester_salary_bits().len() != k_offered_id().len());
    assert(k_requester_salary_bits().len() != k_target_id().len());
    assert(k_requester_salary_bits().len() != k_offered_name().len());
    assert(k_requester_salary_bits().len() != k_target_name().len());
    assert(k_requester_salary_bits().len() != k_proposed_cash_won().len());
    assert(k_requester_salary_bits()[0] != k_desired_status_choice()[0]);
    assert(k_requester_salary_bits().len() != k_desired_status_key().len());
    assert(k_requester_salary_bits().len() != k_offered_team_after().len());
    assert(k_requester_salary_bits().len() != k_target_team_after().len());
    assert(k_requester_salary_bits().len() != k_target_status_after().len());
    assert(k_requester_salary_bits().len() != k_offered_contracted_status_after().len());
    assert(k_requester_salary_bits().len() != k_target_contracted_status_after().len());
    assert(k_requester_salary_bits().len() != k_rollback_rehearsal_verified().len());
    assert(k_requester_salary_bits().len() != k_offered_contract_fingerprint().len());
    assert(k_requester_salary_bits().len() != k_target_contract_fingerprint().len());
    assert(k_requester_salary_bits().len() != k_requester_total_bits().len());
    assert(k_requester_salary_bits().len() != k_requester_transfer_bits().len());
    assert(k_recipient_total_bits().len() != k_schema_version().len());
    assert(k_recipient_total_bits().len() != k_plan_id().len());
    assert(k_recipient_total_bits().len() != k_commit_process_id().len());
    assert(k_recipient_total_bits().len() != k_commit_game_time().len());
    assert(k_recipient_total_bits().len() != k_requester_team_id().len());
    assert(k_recipient_total_bits().len() != k_recipient_team_id().len());
    assert(k_recipient_total_bits().len() != k_offered_id().len());
    assert(k_recipient_total_bits().len() != k_target_id().len());
    assert(k_recipient_total_bits().len() != k_offered_name().len());
    assert(k_recipient_total_bits().len() != k_target_name().len());
    assert(k_recipient_total_bits().len() != k_proposed_cash_won().len());
    assert(k_recipient_total_bits().len() != k_desired_status_choice().len());
    assert(k_recipient_total_bits().len() != k_desired_status_key().len());
    assert(k_recipient_total_bits().len() != k_offered_team_after().len());
    assert(k_recipient_total_bits().len() != k_target_team_after().len());
    assert(k_recipient_total_bits().len() != k_target_status_after().len());
    assert(k_recipient_total_bits().len() != k_offered_contracted_status_after().len());
    assert(k_recipient_total_bits().len() != k_target_contracted_status_after().len());
    assert(k_recipient_total_bits().len() != k_rollback_rehearsal_verified().len());
    assert(k_recipient_total_bits().len() != k_offered_contract_fingerprint().len());
    assert(k_recipient_total_bits().len() != k_target_contract_fingerprint().len());
    assert(k_recipient_total_bits()[2] != k_requester_total_bits()[2]);
    assert(k_recipient_total_bits().len() != k_requester_transfer_bits().len());
    assert(k_recipient_total_bits().len() != k_requester_salary_bits().len());
    assert(k_recipient_transfer_bits().len() != k_schema_version().len());
    assert(k_recipient_transfer_bits().len() != k_plan_id().len());
    assert(k_recipient_transfer_bits().len() != k_commit_process_id().len());
    assert(k_recipient_transfer_bits().len() != k_commit_game_time().len());
    assert(k_recipient_transfer_bits().len() != k_requester_team_id().len());
    assert(k_recipient_transfer_bits().len() != k_recipient_team_id().len());
    assert(k_recipient_transfer_bits().len() != k_offered_id().len());
    assert(k_recipient_transfer_bits().len() != k_target_id().len());
    assert(k_recipient_transfer_bits().len() != k_offered_name().len());
    assert(k_recipient_transfer_bits().len() != k_target_name().len());
    assert(k_recipient_transfer_bits().len() != k_proposed_cash_won().len());
    assert(k_recipient_transfer_bits().len() != k_desired_status_choice().len());
    assert(k_recipient_transfer_bits().len() != k_desired_status_key().len());
    assert(k_recipient_transfer_bits().len() != k_offered_team_after().len());
    assert(k_recipient_transfer_bits().len() != k_target_team_after().len());
    assert(k_recipient_transfer_bits().len() != k_target_status_after().len());
    assert(k_recipient_transfer_bits().len() != k_offered_contracted_status_after().len());
    assert(k_recipient_transfer_bits().len() != k_target_contracted_status_after().len());
    assert(k_recipient_transfer_bits().len() != k_rollback_rehearsal_verified().len());
    assert(k_recipient_transfer_bits().len() != k_offered_contract_fingerprint().len());
    assert(k_recipient_transfer_bits().len() != k_target_contract_fingerprint().len());
    assert(k_recipient_transfer_bits().len() != k_requester_total_bits().len());
    assert(k_recipient_transfer_bits()[2] != k_requester_transfer_bits()[2]);
    assert(k_recipient_transfer_bits().len() != k_requester_salary_bits().len());
    assert(k_recipient_transfer_bits().len() != k_recipient_total_bits().len());
    assert(k_recipient_salary_bits().len() != k_schema_version().len());
    assert(k_recipient_salary_bits().len() != k_plan_id().len());
    assert(k_recipient_salary_bits().len() != k_commit_process_id().len());
    assert(k_recipient_salary_bits().len() != k_commit_game_time().len());
    assert(k_recipient_salary_bits().len() != k_requester_team_id().len());
    assert(k_recipient_salary_bits().len() != k_recipient_team_id().len());
    assert(k_recipient_salary_bits().len() != k_offered_id().len());
    assert(k_recipient_salary_bits().len() != k_target_id().len());
    assert(k_recipient_salary_bits().len() != k_offered_name().len());
    assert(k_recipient_salary_bits().len() != k_target_name().len());
    assert(k_recipient_salary_bits().len() != k_proposed_cash_won().len());
    assert(k_recipient_salary_bits()[0] != k_desired_status_choice()[0]);
    assert(k_recipient_salary_bits().len() != k_desired_status_key().len());
    assert(k_recipient_salary_bits().len() != k_offered_team_after().len());
    assert(k_recipient_salary_bits().len() != k_target_team_after().len());
    assert(k_recipient_salary_bits().len() != k_target_status_after().len());
    assert(k_recipient_salary_bits().len() != k_offered_contracted_status_after().len());
    assert(k_recipient_salary_bits().len() != k_target_contracted_status_after().len());
    assert(k_recipient_salary_bits().len() != k_rollback_rehearsal_verified().len());
    assert(k_recipient_salary_bits().len() != k_offered_contract_fingerprint().len());
    assert(k_recipient_salary_bits().len() != k_target_contract_fingerprint().len());
    assert(k_recipient_salary_bits().len() != k_requester_total_bits().len());
    assert(k_recipient_salary_bits().len() != k_requester_transfer_bits().len());
    assert(k_recipient_salary_bits()[2] != k_requester_salary_bits()[2]);
    assert(k_recipient_salary_bits().len() != k_recipient_total_bits().len());
    assert(k_recipient_salary_bits().len() != k_recipient_transfer_bits().len());
    assert(k_requester_roster_after().len() != k_schema_version().len());
    assert(k_requester_roster_after().len() != k_plan_id().len());
    assert(k_requester_roster_after().len() != k_commit_process_id().len());
    assert(k_requester_roster_after().len() != k_commit_game_time().len());
    assert(k_requester_roster_after().len() != k_requester_team_id().len());
    assert(k_requester_roster_after().len() != k_recipient_team_id().len());
    assert(k_requester_roster_after().len() != k_offered_id().len());
    assert(k_requester_roster_after().len() != k_target_id().len());
    assert(k_requester_roster_after().len() != k_offered_name().len());
    assert(k_requester_roster_after().len() != k_target_name().len());
    assert(k_requester_roster_after().len() != k_proposed_cash_won().len());
    assert(k_requester_roster_after().len() != k_desired_status_choice().len());
    assert(k_requester_roster_after().len() != k_desired_status_key().len());
    assert(k_requester_roster_after().len() != k_offered_team_after().len());
    assert(k_requester_roster_after().len() != k_target_team_after().len());
    assert(k_requester_roster_after().len() != k_target_status_after().len());
    assert(k_requester_roster_after().len() != k_offered_contracted_status_after().len());
    assert(k_requester_roster_after().len() != k_target_contracted_status_after().len());
    assert(k_requester_roster_after().len() != k_rollback_rehearsal_verified().len());
    assert(k_requester_roster_after().len() != k_offered_contract_fingerprint().len());
    assert(k_requester_roster_after().len() != k_target_contract_fingerprint().len());
    assert(k_requester_roster_after().len() != k_requester_total_bits().len());
    assert(k_requester_roster_after().len() != k_requester_transfer_bits().len());
    assert(k_requester_roster_after().len() != k_requester_salary_bits().len());
    assert(k_requester_roster_after().len() != k_recipient_total_bits().len());
    assert(k_requester_roster_after().len() != k_recipient_transfer_bits().len());
    assert(k_requester_roster_after().len() != k_recipient_salary_bits().len());
    assert(k_recipient_roster_after().len() != k_schema_version().len());
    assert(k_recipient_roster_after().len() != k_plan_id().len());
    assert(k_recipient_roster_after().len() != k_commit_process_id().len());
    assert(k_recipient_roster_after().len() != k_commit_game_time().len());
    assert(k_recipient_roster_after().len() != k_requester_team_id().len());
    assert(k_recipient_roster_after().len() != k_recipient_team_id().len());
    assert(k_recipient_roster_after().len() != k_offered_id().len());
    assert(k_recipient_roster_after().len() != k_target_id().len());
    assert(k_recipient_roster_after().len() != k_offered_name().len());
    assert(k_recipient_roster_after().len() != k_target_name().len());
    assert(k_recipient_roster_after().len() != k_proposed_cash_won().len());
    assert(k_recipient_roster_after().len() != k_desired_status_choice().len());
    assert(k_recipient_roster_after().len() != k_desired_status_key().len());
    assert(k_recipient_roster_after().len() != k_offered_team_after().len());
    assert(k_recipient_roster_after().len() != k_target_team_after().len());
    assert(k_recipient_roster_after().len() != k_target_status_after().len());
    assert(k_recipient_roster_after().len() != k_offered_contracted_status_after().len());
    assert(k_recipient_roster_after().len() != k_target_contracted_status_after().len());
    assert(k_recipient_roster_after().len() != k_rollback_rehearsal_verified().len());
    assert(k_recipient_roster_after().len() != k_offered_contract_fingerprint().len());
    assert(k_recipient_roster_after().len() != k_target_contract_fingerprint().len());
    assert(k_recipient_roster_after().len() != k_requester_total_bits().len());
    assert(k_recipient_roster_after().len() != k_requester_transfer_bits().len());
    assert(k_recipient_roster_after().len() != k_requester_salary_bits().len());
    assert(k_recipient_roster_after().len() != k_recipient_total_bits().len());
    assert(k_recipient_roster_after().len() != k_recipient_transfer_bits().len());
    assert(k_recipient_roster_after().len() != k_recipient_salary_bits().len());
    assert(k_recipient_roster_after()[2] != k_requester_roster_after()[2]);
    assert(k_contracted_after().len() != k_schema_version().len());
    assert(k_contracted_after().len() != k_plan_id().len());
    assert(k_contracted_after().len() != k_commit_process_id().len());
    assert(k_contracted_after()[2] != k_commit_game_time()[2]);
    assert(k_contracted_after().len() != k_requester_team_id().len());
    assert(k_contracted_after().len() != k_recipient_team_id().len());
    assert(k_contracted_after().len() != k_offered_id().len());
    assert(k_contracted_after().len() != k_target_id().len());
    assert(k_contracted_after().len() != k_offered_name().len());
    assert(k_contracted_after().len() != k_target_name().len());
    assert(k_contracted_after().len() != k_proposed_cash_won().len());
    assert(k_contracted_after().len() != k_desired_status_choice().len());
    assert(k_contracted_after().len() != k_desired_status_key().len());
    assert(k_contracted_after().len() != k_offered_team_after().len());
    assert(k_contracted_after().len() != k_target_team_after().len());
    assert(k_contracted_after().len() != k_target_status_after().len());
    assert(k_contracted_after().len() != k_offered_contracted_status_after().len());
    assert(k_contracted_after().len() != k_target_contracted_status_after().len());
    assert(k_contracted_after().len() != k_rollback_rehearsal_verified().len());
    assert(k_contracted_after().len() != k_offered_contract_fingerprint().len());
    assert(k_contracted_after().len() != k_target_contract_fingerprint().len());
    assert(k_contracted_after().len() != k_requester_total_bits().len());
    assert(k_contracted_after().len() != k_requester_transfer_bits().len());
    assert(k_contracted_after().len() != k_requester_salary_bits().len());
    assert(k_contracted_after().len() != k_recipient_total_bits().len());
    assert(k_contracted_after().len() != k_recipient_transfer_bits().len());
    assert(k_contracted_after().len() != k_recipient_salary_bits().len());
    assert(k_contracted_after().len() != k_requester_roster_after().len());
    assert(k_contracted_after().len() != k_recipient_roster_after().len());
    assert(k_requester_payroll_bits().len() != k_schema_version().len());
    assert(k_requester_payroll_bits().len() != k_plan_id().len());
    assert(k_requester_payroll_bits().len() != k_commit_process_id().len());
    assert(k_requester_payroll_bits().len() != k_commit_game_time().len());
    assert(k_requester_payroll_bits().len() != k_requester_team_id().len());
    assert(k_requester_payroll_bits().len() != k_recipient_team_id().len());
    assert(k_requester_payroll_bits().len() != k_offered_id().len());
    assert(k_requester_payroll_bits().len() != k_target_id().len());
    assert(k_requester_payroll_bits().len() != k_offered_name().len());
    assert(k_requester_payroll_bits().len() != k_target_name().len());
    assert(k_requester_payroll_bits().len() != k_proposed_cash_won().len());
    assert(k_requester_payroll_bits().len() != k_desired_status_choice().len());
    assert(k_requester_payroll_bits().len() != k_desired_status_key().len());
    assert(k_requester_payroll_bits().len() != k_offered_team_after().len());
    assert(k_requester_payroll_bits().len() != k_target_team_after().len());
    assert(k_requester_payroll_bits().len() != k_target_status_after().len());
    assert(k_requester_payroll_bits().len() != k_offered_contracted_status_after().len());
    assert(k_requester_payroll_bits().len() != k_target_contracted_status_after().len());
    assert(k_requester_payroll_bits().len() != k_rollback_rehearsal_verified().len());
    assert(k_requester_payroll_bits().len() != k_offered_contract_fingerprint().len());
    assert(k_requester_payroll_bits().len() != k_target_contract_fingerprint().len());
    assert(k_requester_payroll_bits().len() != k_requester_total_bits().len());
    assert(k_requester_payroll_bits().len() != k_requester_transfer_bits().len());
    assert(k_requester_payroll_bits().len() != k_requester_salary_bits().len());
    assert(k_requester_payroll_bits().len() != k_recipient_total_bits().len());
    assert(k_requester_payroll_bits().len() != k_recipient_transfer_bits().len());
    assert(k_requester_payroll_bits().len() != k_recipient_salary_bits().len());
    assert(k_requester_payroll_bits()[10] != k_requester_roster_after()[10]);
    assert(k_requester_payroll_bits()[2] != k_recipient_roster_after()[2]);
    assert(k_requester_payroll_bits().len() != k_contracted_after().len());
    assert(k_recipient_payroll_bits().len() != k_schema_version().len());
    assert(k_recipient_payroll_bits().len() != k_plan_id().len());
    assert(k_recipient_payroll_bits().len() != k_commit_process_id().len());
    assert(k_recipient_payroll_bits().len() != k_commit_game_time().len());
    assert(k_recipient_payroll_bits().len() != k_requester_team_id().len());
    assert(k_recipient_payroll_bits().len() != k_recipient_team_id().len());
    assert(k_recipient_payroll_bits().len() != k_offered_id().len());
    assert(k_recipient_payroll_bits().len() != k_target_id().len());
    assert(k_recipient_payroll_bits().len() != k_offered_name().len());
    assert(k_recipient_payroll_bits().len() != k_target_name().len());
    assert(k_recipient_payroll_bits().len() != k_proposed_cash_won().len());
    assert(k_recipient_payroll_bits().len() != k_desired_status_choice().len());
    assert(k_recipient_payroll_bits().len() != k_desired_status_key().len());
    assert(k_recipient_payroll_bits().len() != k_offered_team_after().len());
    assert(k_recipient_payroll_bits().len() != k_target_team_after().len());
    assert(k_recipient_payroll_bits().len() != k_target_status_after().len());
    assert(k_recipient_payroll_bits().len() != k_offered_contracted_status_after().len());
    assert(k_recipient_payroll_bits().len() != k_target_contracted_status_after().len());
    assert(k_recipient_payroll_bits().len() != k_rollback_rehearsal_verified().len());
    assert(k_recipient_payroll_bits().len() != k_offered_contract_fingerprint().len());
    assert(k_recipient_payroll_bits().len() != k_target_contract_fingerprint().len());
    assert(k_recipient_payroll_bits().len() != k_requester_total_bits().len());
    assert(k_recipient_payroll_bits().len() != k_requester_transfer_bits().len());
    assert(k_recipient_payroll_bits().len() != k_requester_salary_bits().len());
    assert(k_recipient_payroll_bits().len() != k_recipient_total_bits().len());
    assert(k_recipient_payroll_bits().len() != k_recipient_transfer_bits().len());
    assert(k_recipient_payroll_bits().len() != k_recipient_salary_bits().len());
    assert(k_recipient_payroll_bits()[2] != k_requester_roster_after()[2]);
    assert(k_recipient_payroll_bits()[10] != k_recipient_roster_after()[10]);
    assert(k_recipient_payroll_bits().len() != k_contracted_after().len());
    assert(k_recipient_payroll_bits()[2] != k_requester_payroll_bits()[2]);
    assert(k_requester_news_count().len() != k_schema_version().len());
    assert(k_requester_news_count().len() != k_plan_id().len());
    assert(k_requester_news_count().len() != k_commit_process_id().len());
    assert(k_requester_news_count().len() != k_commit_game_time().len());
    assert(k_requester_news_count().len() != k_requester_team_id().len());
    assert(k_requester_news_count().len() != k_recipient_team_id().len());
    assert(k_requester_news_count().len() != k_offered_id().len());
    assert(k_requester_news_count().len() != k_target_id().len());
    assert(k_requester_news_count().len() != k_offered_name().len());
    assert(k_requester_news_count().len() != k_target_name().len());
    assert(k_requester_news_count().len() != k_proposed_cash_won().len());
    assert(k_requester_news_count().len() != k_desired_status_choice().len());
    assert(k_requester_news_count().len() != k_desired_status_key().len());
    assert(k_requester_news_count().len() != k_offered_team_after().len());
    assert(k_requester_news_count().len() != k_target_team_after().len());
    assert(k_requester_news_count().len() != k_target_status_after().len());
    assert(k_requester_news_count().len() != k_offered_contracted_status_after().len());
    assert(k_requester_news_count().len() != k_target_contracted_status_after().len());
    assert(k_requester_news_count().len() != k_rollback_rehearsal_verified().len());
    assert(k_requester_news_count().len() != k_offered_contract_fingerprint().len());
    assert(k_requester_news_count().len() != k_target_contract_fingerprint().len());
    assert(k_requester_news_count()[10] != k_requester_total_bits()[10]);
    assert(k_requester_news_count().len() != k_requester_transfer_bits().len());
    assert(k_requester_news_count().len() != k_requester_salary_bits().len());
    assert(k_requester_news_count()[2] != k_recipient_total_bits()[2]);
    assert(k_requester_news_count().len() != k_recipient_transfer_bits().len());
    assert(k_requester_news_count().len() != k_recipient_salary_bits().len());
    assert(k_requester_news_count().len() != k_requester_roster_after().len());
    assert(k_requester_news_count().len() != k_recipient_roster_after().len());
    assert(k_requester_news_count().len() != k_contracted_after().len());
    assert(k_requester_news_count().len() != k_requester_payroll_bits().len());
    assert(k_requester_news_count().len() != k_recipient_payroll_bits().len());
    assert(k_recipient_news_count().len() != k_schema_version().len());
    assert(k_recipient_news_count().len() != k_plan_id().len());
    assert(k_recipient_news_count().len() != k_commit_process_id().len());
    assert(k_recipient_news_count().len() != k_commit_game_time().len());
    assert(k_recipient_news_count().len() != k_requester_team_id().len());
    assert(k_recipient_news_count().len() != k_recipient_team_id().len());
    assert(k_recipient_news_count().len() != k_offered_id().len());
    assert(k_recipient_news_count().len() != k_target_id().len());
    assert(k_recipient_news_count().len() != k_offered_name().len());
    assert(k_recipient_news_count().len() != k_target_name().len());
    assert(k_recipient_news_count().len() != k_proposed_cash_won().len());
    assert(k_recipient_news_count().len() != k_desired_status_choice().len());
    assert(k_recipient_news_count().len() != k_desired_status_key().len());
    assert(k_recipient_news_count().len() != k_offered_team_after().len());
    assert(k_recipient_news_count().len() != k_target_team_after().len());
    assert(k_recipient_news_count().len() != k_target_status_after().len());
    assert(k_recipient_news_count().len() != k_offered_contracted_status_after().len());
    assert(k_recipient_news_count().len() != k_target_contracted_status_after().len());
    assert(k_recipient_news_count().len() != k_rollback_rehearsal_verified().len());
    assert(k_recipient_news_count().len() != k_offered_contract_fingerprint().len());
    assert(k_recipient_news_count().len() != k_target_contract_fingerprint().len());
    assert(k_recipient_news_count()[2] != k_requester_total_bits()[2]);
    assert(k_recipient_news_count().len() != k_requester_transfer_bits().len());
    assert(k_recipient_news_count().len() != k_requester_salary_bits().len());
    assert(k_recipient_news_count()[10] != k_recipient_total_bits()[10]);
    assert(k_recipient_news_count().len() != k_recipient_transfer_bits().len());
    assert(k_recipient_news_count().len() != k_recipient_salary_bits().len());
    assert(k_recipient_news_count().len() != k_requester_roster_after().len());
    assert(k_recipient_news_count().len() != k_recipient_roster_after().len());
    assert(k_recipient_news_count().len() != k_contracted_after().len());
    assert(k_recipient_news_count().len() != k_requester_payroll_bits().len());
    assert(k_recipient_news_count().len() != k_recipient_payroll_bits().len());
    assert(k_recipient_news_count()[2] != k_requester_news_count()[2]);
    assert(k_executed_plan_registry_count().len() != k_schema_version().len());
    assert(k_executed_plan_registry_count().len() != k_plan_id().len());
    assert(k_executed_plan_registry_count().len() != k_commit_process_id().len());
    assert(k_executed_plan_registry_count().len() != k_commit_game_time().len());
    assert(k_executed_plan_registry_count().len() != k_requester_team_id().len());
    assert(k_executed_plan_registry_count().len() != k_recipient_team_id().len());
    assert(k_executed_plan_registry_count().len() != k_offered_id().len());
    assert(k_executed_plan_registry_count().len() != k_target_id().len());
    assert(k_executed_plan_registry_count().len() != k_offered_name().len());
    assert(k_executed_plan_registry_count().len() != k_target_name().len());
    assert(k_executed_plan_registry_count().len() != k_proposed_cash_won().len());
    assert(k_executed_plan_registry_count().len() != k_desired_status_choice().len());
    assert(k_executed_plan_registry_count().len() != k_desired_status_key().len());
    assert(k_executed_plan_registry_count().len() != k_offered_team_after().len());
    assert(k_executed_plan_registry_count().len() != k_target_team_after().len());
    assert(k_executed_plan_registry_count().len() != k_target_status_after().len());
    assert(k_executed_plan_registry_count().len() != k_offered_contracted_status_after().len());
    assert(k_executed_plan_registry_count().len() != k_target_contracted_status_after().len());
    assert(k_executed_plan_registry_count().len() != k_rollback_rehearsal_verified().len());
    assert(k_executed_plan_registry_count()[0] != k_offered_contract_fingerprint()[0]);
    assert(k_executed_plan_registry_count().len() != k_target_contract_fingerprint().len());
    assert(k_executed_plan_registry_count().len() != k_requester_total_bits().len());
    assert(k_executed_plan_registry_count().len() != k_requester_transfer_bits().len());
    assert(k_executed_plan_registry_count().len() != k_requester_salary_bits().len());
    assert(k_executed_plan_registry_count().len() != k_recipient_total_bits().len());
    assert(k_executed_plan_registry_count().len() != k_recipient_transfer_bits().len());
    assert(k_executed_plan_registry_count().len() != k_recipient_salary_bits().len());
    assert(k_executed_plan_registry_count().len() != k_requester_roster_after().len());
    assert(k_executed_plan_registry_count().len() != k_recipient_roster_after().len());
    assert(k_executed_plan_registry_count().len() != k_contracted_after().len());
    assert(k_executed_plan_registry_count().len() != k_requester_payroll_bits().len());
    assert(k_executed_plan_registry_count().len() != k_recipient_payroll_bits().len());
    assert(k_executed_plan_registry_count().len() != k_requester_news_count().len());
    assert(k_executed_plan_registry_count().len() != k_recipient_news_count().len());
    assert forall|a: int| 0 <= a < 35 implies receipt_key_index(#[trigger] f[a].0) == a by {
        if a == 0 {
            assert(f[0].0 == k_schema_version());
        } else if a == 1 {
            assert(f[1].0 == k_plan_id());
        } else if a == 2 {
            assert(f[2].0 == k_commit_process_id());
        } else if a == 3 {
            assert(f[3].0 == k_commit_game_time());
        } else if a == 4 {
            assert(f[4].0 == k_requester_team_id());
        } else if a == 5 {
            assert(f[5].0 == k_recipient_team_id());
        } else if a == 6 {
            assert(f[6].0 == k_offered_id());
        } else if a == 7 {
            assert(f[7].0 == k_target_id());
        } else if a == 8 {
            assert(f[8].0 == k_offered_name());
        } else if a == 9 {
            assert(f[9].0 == k_target_name());
        } else if a == 10 {
            assert(f[10].0 == k_proposed_cash_won());
        } else if a == 11 {
            assert(f[11].0 == k_desired_status_choice());
        } else if a == 12 {
            assert(f[12].0 == k_desired_status_key());
        } else if a == 13 {
            assert(f[13].0 == k_offered_team_after());
        } else if a == 14 {
            assert(f[14].0 == k_target_team_after());
        } else if a == 15 {
            assert(f[15].0 == k_target_status_after());
        } else if a == 16 {
            assert(f[16].0 == k_offered_contracted_status_after());
        } else if a == 17 {
            assert(f[17].0 == k_target_contracted_status_after());
        } else if a == 18 {
            assert(f[18].0 == k_rollback_rehearsal_verified());
        } else if a == 19 {
            assert(f[19].0 == k_offered_contract_fingerprint());
        } else if a == 20 {
            assert(f[20].0 == k_target_contract_fingerprint());
        } else if a == 21 {
            assert(f[21].0 == k_requester_total_bits());
        } else if a == 22 {
            assert(f[22].0 == k_requester_transfer_bits());
        } else if a == 23 {
            assert(f[23].0 == k_requester_salary_bits());
        } else if a == 24 {
            assert(f[24].0 == k_recipient_total_bits());
        } else if a == 25 {
            assert(f[25].0 == k_recipient_transfer_bits());
        } else if a == 26 {
            assert(f[26].0 == k_recipient_salary_bits());
        } else if a == 27 {
            assert(f[27].0 == k_requester_roster_after());
        } else if a == 28 {
            assert(f[28].0 == k_recipient_roster_after());
        } else if a == 29 {
            assert(f[29].0 == k_contracted_after());
        } else if a == 30 {
            assert(f[30].0 == k_requester_payroll_bits());
        } else if a == 31 {
            assert(f[31].0 == k_recipient_payroll_bits());
        } else if a == 32 {
            assert(f[32].0 == k_requester_news_count());
        } else if a == 33 {
            assert(f[33].0 == k_recipient_news_count());
        } else if a == 34 {
            assert(f[34].0 == k_executed_plan_registry_count());
        }
    }
    assert forall|a: int, b: int| 0 <= a < b < f.len() implies #[trigger] f[a].0 != #[trigger] f[b].0 by {
        assert(receipt_key_index(f[a].0) == a);
        assert(receipt_key_index(f[b].0) == b);
    }
}

/// Every line of a storable receipt is well formed.
#[verifier::spinoff_prover]
#[verifier::rlimit(60)]
pub proof fn lemma_receipt_fields_ok(r: ReceiptView)
    requires
        receipt_storable(r),
    ensures
        fields_ok(receipt_fields(r)),
{
    let f = receipt_fields(r);
    lemma_dec_value_ok(r.schema_version as nat);
    lemma_dec_value_ok(r.commit_process_id as nat);
    lemma_dec_value_ok(r.requester_team_id as nat);
    lemma_dec_value_ok(r.recipient_team_id as nat);
    lemma_dec_value_ok(r.offered_id as nat);
    lemma_dec_value_ok(r.target_id as nat);
    lemma_dec_value_ok(r.proposed_cash_won as nat);
    lemma_dec_value_ok(r.desired_status_choice as nat);
    lemma_dec_value_ok(r.offered_team_after as nat);
    lemma_dec_value_ok(r.target_team_after as nat);
    lemma_dec_value_ok(r.offered_contract_fingerprint as nat);
    lemma_dec_value_ok(r.target_contract_fingerprint as nat);
    lemma_dec_value_ok(r.requester_total_bits as nat);
    lemma_dec_value_ok(r.requester_transfer_bits as nat);
    lemma_dec_value_ok(r.requester_salary_bits as nat);
    lemma_dec_value_ok(r.recipient_total_bits as nat);
    lemma_dec_value_ok(r.recipient_transfer_bits as nat);
    lemma_dec_value_ok(r.recipient_salary_bits as nat);
    lemma_dec_value_ok(r.requester_roster_after as nat);
    lemma_dec_value_ok(r.recipient_roster_after as nat);
    lemma_dec_value_ok(r.contracted_after as nat);
    lemma_dec_value_ok(r.requester_payroll_bits as nat);
    lemma_dec_value_ok(r.recipient_payroll_bits as nat);
    lemma_dec_value_ok(r.requester_news_count as nat);
    lemma_dec_value_ok(r.recipient_news_count as nat);
    lemma_dec_value_ok(r.executed_plan_registry_count as nat);
    assert(key_ok(f[0].0) && value_ok(f[0].1));
    assert(key_ok(f[1].0) && value_ok(f[1].1));
    assert(key_ok(f[2].0) && value_ok(f[2].1));
    assert(key_ok(f[3].0) && value_ok(f[3].1));
    assert(key_ok(f[4].0) && value_ok(f[4].1));
    assert(key_ok(f[5].0) && value_ok(f[5].1));
    assert(key_ok(f[6].0) && value_ok(f[6].1));
    assert(key_ok(f[7].0) && value_ok(f[7].1));
    assert(key_ok(f[8].0) && value_ok(f[8].1));
    assert(key_ok(f[9].0) && value_ok(f[9].1));
    assert(key_ok(f[10].0) && value_ok(f[10].1));
    assert(key_ok(f[11].0) && value_ok(f[11].1));
    assert(key_ok(f[12].0) && value_ok(f[12].1));
    assert(key_ok(f[13].0) && value_ok(f[13].1));
    assert(key_ok(f[14].0) && value_ok(f[14].1));
    assert(key_ok(f[15].0) && value_ok(f[15].1));
    assert(key_ok(f[16].0) && value_ok(f[16].1));
    assert(key_ok(f[17].0) && value_ok(f[17].1));
    assert(key_ok(f[18].0) && value_ok(f[18].1));
    assert(key_ok(f[19].0) && value_ok(f[19].1));
    assert(key_ok(f[20].0) && value_ok(f[20].1));
    assert(key_ok(f[21].0) && value_ok(f[21].1));
    assert(key_ok(f[22].0) && value_ok(f[22].1));
    assert(key_ok(f[23].0) && value_ok(f[23].1));
    assert(key_ok(f[24].0) && value_ok(f[24].1));
    assert(key_ok(f[25].0) && value_ok(f[25].1));
    assert(key_ok(f[26].0) && value_ok(f[26].1));
    assert(key_ok(f[27].0) && value_ok(f[27].1));
    assert(key_ok(f[28].0) && value_ok(f[28].1));
    assert(key_ok(f[29].0) && value_ok(f[29].1));
    assert(key_ok(f[30].0) && value_ok(f[30].1));
    assert(key_ok(f[31].0) && value_ok(f[31].1));
    assert(key_ok(f[32].0) && value_ok(f[32].1));
    assert(key_ok(f[33].0) && value_ok(f[33].1));
    assert(key_ok(f[34].0) && value_ok(f[34].1));
}

/// A stored receipt of schema 2 reads back as itself (what is checked
/// after persisting a commit).
#[verifier::spinoff_prover]
#[verifier::rlimit(100)]
pub proof fn lemma_receipt_roundtrip(r: ReceiptView)
    requires
        receipt_storable(r),
    ensures
        decode_receipt_spec(vstd::utf8::encode_utf8(render(receipt_fields(r)))) == Ok::<
            ReceiptView,
            DecodeFault,
        >(r),
{
    let f = receipt_fields(r);
    lemma_receipt_fields_ok(r);
    lemma_receipt_keys_distinct(r);
    lemma_render_roundtrip(f);
    lemma_parse_dec(r.schema_version as nat, (usize::MAX as nat));
    lemma_parse_dec(r.schema_version as nat, u64::MAX as nat);
    lemma_parse_dec(r.commit_process_id as nat, u64::MAX as nat);
    lemma_parse_dec(r.commit_process_id as nat, u64::MAX as nat);
    lemma_parse_dec(r.requester_team_id as nat, (usize::MAX as nat));
    lemma_parse_dec(r.requester_team_id as nat, u64::MAX as nat);
    lemma_parse_dec(r.recipient_team_id as nat, (usize::MAX as nat));
    lemma_parse_dec(r.recipient_team_id as nat, u64::MAX as nat);
    lemma_parse_dec(r.offered_id as nat, (usize::MAX as nat));
    lemma_parse_dec(r.offered_id as nat, u64::MAX as nat);
    lemma_parse_dec(r.target_id as nat, (usize::MAX as nat));
    lemma_parse_dec(r.target_id as nat, u64::MAX as nat);
    lemma_parse_dec(r.proposed_cash_won as nat, u64::MAX as nat);
    lemma_parse_dec(r.proposed_cash_won as nat, u64::MAX as nat);
    lemma_parse_dec(r.desired_status_choice as nat, u64::MAX as nat);
    lemma_parse_dec(r.desired_status_choice as nat, u64::MAX as nat);
    lemma_parse_dec(r.offered_team_after as nat, (usize::MAX as nat));
    lemma_parse_dec(r.offered_team_after as nat, u64::MAX as nat);
    lemma_parse_dec(r.target_team_after as nat, (usize::MAX as nat));
    lemma_parse_dec(r.target_team_after as nat, u64::MAX as nat);
    lemma_parse_dec(r.offered_contract_fingerprint as nat, u64::MAX as nat);
    lemma_parse_dec(r.offered_contract_fingerprint as nat, u64::MAX as nat);
    lemma_parse_dec(r.target_contract_fingerprint as nat, u64::MAX as nat);
    lemma_parse_dec(r.target_contract_fingerprint as nat, u64::MAX as nat);
    lemma_parse_dec(r.requester_total_bits as nat, u64::MAX as nat);
    lemma_parse_dec(r.requester_total_bits as nat, u64::MAX as nat);
    lemma_parse_dec(r.requester_transfer_bits as nat, u64::MAX as nat);
    lemma_parse_dec(r.requester_transfer_bits as nat, u64::MAX as nat);
    lemma_parse_dec(r.requester_salary_bits as nat, u64::MAX as nat);
    lemma_parse_dec(r.requester_salary_bits as nat, u64::MAX as nat);
    lemma_parse_dec(r.recipient_total_bits as nat, u64::MAX as nat);
    lemma_parse_dec(r.recipient_total_bits as nat, u64::MAX as nat);
    lemma_parse_dec(r.recipient_transfer_bits as nat, u64::MAX as nat);
    lemma_parse_dec(r.recipient_transfer_bits as nat, u64::MAX as nat);
    lemma_parse_dec(r.recipient_salary_bits as nat, u64::MAX as nat);
    lemma_parse_dec(r.recipient_salary_bits as nat, u64::MAX as nat);
    lemma_parse_dec(r.requester_roster_after as nat, (usize::MAX as nat));
    lemma_parse_dec(r.requester_roster_after as nat, u64::MAX as nat);
    lemma_parse_dec(r.recipient_roster_after as nat, (usize::MAX as nat));
    lemma_parse_dec(r.recipient_roster_after as nat, u64::MAX as nat);
    lemma_parse_dec(r.contracted_after as nat, (usize::MAX as nat));
    lemma_parse_dec(r.contracted_after as nat, u64::MAX as nat);
    lemma_parse_dec(r.requester_payroll_bits as nat, u64::MAX as nat);
    lemma_parse_dec(r.requester_payroll_bits as nat, u64::MAX as nat);
    lemma_parse_dec(r.recipient_payroll_bits as nat, u64::MAX as nat);
    lemma_parse_dec(r.recipient_payroll_bits as nat, u64::MAX as nat);
    lemma_parse_dec(r.requester_news_count as nat, (usize::MAX as nat));
    lemma_parse_dec(r.requester_news_count as nat, u64::MAX as nat);
    lemma_parse_dec(r.recipient_news_count as nat, (usize::MAX as nat));
    lemma_parse_dec(r.recipient_news_count as nat, u64::MAX as nat);
    lemma_parse_dec(r.executed_plan_registry_count as nat, (usize::MAX as nat));
    lemma_parse_dec(r.executed_plan_registry_count as nat, u64::MAX as nat);
    lemma_fields_map_distinct(f, 0);
    lemma_fields_map_distinct(f, 1);
    lemma_fields_map_distinct(f, 2);
    lemma_fields_map_distinct(f, 3);
    lemma_fields_map_distinct(f, 4);
    lemma_fields_map_distinct(f, 5);
    lemma_fields_map_distinct(f, 6);
    lemma_fields_map_distinct(f, 7);
    lemma_fields_map_distinct(f, 8);
    lemma_fields_map_distinct(f, 9);
    lemma_fields_map_distinct(f, 10);
    lemma_fields_map_distinct(f, 11);
    lemma_fields_map_distinct(f, 12);
    lemma_fields_map_distinct(f, 13);
    lemma_fields_map_distinct(f, 14);
    lemma_fields_map_distinct(f, 15);
    lemma_fields_map_distinct(f, 16);
    lemma_fields_map_distinct(f, 17);
    lemma_fields_map_distinct(f, 18);
    lemma_fields_map_distinct(f, 19);
    lemma_fields_map_distinct(f, 20);
    lemma_fields_map_distinct(f, 21);
    lemma_fields_map_distinct(f, 22);
    lemma_fields_map_distinct(f, 23);
    lemma_fields_map_distinct(f, 24);
    lemma_fields_map_distinct(f, 25);
    lemma_fields_map_distinct(f, 26);
    lemma_fields_map_distinct(f, 27);
    lemma_fields_map_distinct(f, 28);
    lemma_fields_map_distinct(f, 29);
    lemma_fields_map_distinct(f, 30);
    lemma_fields_map_distinct(f, 31);
    lemma_fields_map_distinct(f, 32);
    lemma_fields_map_distinct(f, 33);
    lemma_fields_map_distinct(f, 34);
    let m = fields_map(f);
    assert(decode_receipt_map(m) == Ok::<ReceiptView, DecodeFault>(r));
}

/// A receipt of schema 1 whose texts survive being stored (such a receipt
/// has no contracted statuses and no rehearsal flag).
pub open spec fn legacy_receipt_storable(r: ReceiptView) -> bool {
    &&& r.schema_version == 1
    &&& plan_id_ok(r.plan_id)
    &&& value_ok(r.plan_id)
    &&& value_ok(r.commit_game_time)
    &&& sanitize_spec(r.commit_game_time) == r.commit_game_time
    &&& value_ok(r.offered_name)
    &&& sanitize_spec(r.offered_name) == r.offered_name
    &&& value_ok(r.target_name)
    &&& sanitize_spec(r.target_name) == r.target_name
    &&& value_ok(r.desired_status_key)
    &&& value_ok(r.target_status_after)
    &&& sanitize_spec(r.target_status_after) == r.target_status_after
}

/// The lines of a schema-1 record are well formed and have pairwise different
/// keys: they are those of schema 2 without the three later ones.
#[verifier::spinoff_prover]
#[verifier::rlimit(100)]
proof fn lemma_legacy_receipt_fields(r: ReceiptView)
    requires
        legacy_receipt_storable(r),
    ensures
        fields_ok(receipt_fields(r)),
        forall|a: int, b: int|
            0 <= a < b < receipt_fields(r).len() ==> #[trigger] receipt_fields(r)[a].0
                != #[trigger] receipt_fields(r)[b].0,
{
    let f = receipt_fields(r);
    reveal_strlit("LegacyUnrecorded");
    let r2 = ReceiptView {
        schema_version: 2,
        offered_contracted_status_after: legacy_unrecorded(),
        target_contracted_status_after: legacy_unrecorded(),
        ..r
    };
    assert(sanitize_spec(legacy_unrecorded()) =~= legacy_unrecorded());
    let f2 = receipt_fields(r2);
    lemma_receipt_fields_ok(r2);
    lemma_receipt_keys_distinct(r2);
    lemma_dec_value_ok(1);
    assert(f.len() == 32);
    assert forall|a: int| 0 <= a < 32 implies #[trigger] f[a].0 == f2[if a < 16 { a } else { a + 3 }].0 && (a
        > 0 ==> f[a].1 == f2[if a < 16 { a } else { a + 3 }].1) by {}
    assert forall|i: int| 0 <= i < f.len() implies key_ok(#[trigger] f[i].0) && value_ok(f[i].1) by {
        let j = if i < 16 { i } else { i + 3 };
        assert(f[i].0 == f2[j].0);
        assert(key_ok(f2[j].0) && value_ok(f2[j].1));
    }
    assert forall|a: int, b: int| 0 <= a < b < f.len() implies #[trigger] f[a].0 != #[trigger] f[b].0 by {
        let ja = if a < 16 { a } else { a + 3 };
        let jb = if b < 16 { b } else { b + 3 };
        assert(f[a].0 == f2[ja].0);
        assert(f[b].0 == f2[jb].0);
    }
}

/// A stored receipt of schema 1 reads back as itself, except that the
/// contracted statuses it never recorded read as `LegacyUnrecorded` and the
/// rehearsal reads as not verified.
#[verifier::spinoff_prover]
#[verifier::rlimit(100)]
pub proof fn lemma_legacy_receipt_roundtrip(r: ReceiptView)
    requires
        legacy_receipt_storable(r),
    ensures
        decode_receipt_spec(vstd::utf8::encode_utf8(render(receipt_fields(r)))) == Ok::<
            ReceiptView,
            DecodeFault,
        >(
            ReceiptView {
                offered_contracted_status_after: legacy_unrecorded(),
                target_contracted_status_after: legacy_unrecorded(),
                rollback_rehearsal_verified: false,
                ..r
            },
        ),
{
    let f = receipt_fields(r);
    lemma_legacy_receipt_fields(r);
    lemma_render_roundtrip(f);
    lemma_receipt_keys();
    lemma_parse_dec(1, (usize::MAX as nat));
    lemma_parse_dec(1, u64::MAX as nat);
    lemma_parse_dec(r.commit_process_id as nat, u64::MAX as nat);
    lemma_parse_dec(r.requester_team_id as nat, u64::MAX as nat);
    lemma_parse_dec(r.requester_team_id as nat, (usize::MAX as nat));
    lemma_parse_dec(r.recipient_team_id as nat, u64::MAX as nat);
    lemma_parse_dec(r.recipient_team_id as nat, (usize::MAX as nat));
    lemma_parse_dec(r.offered_id as nat, u64::MAX as nat);
    lemma_parse_dec(r.offered_id as nat, (usize::MAX as nat));
    lemma_parse_dec(r.target_id as nat, u64::MAX as nat);
    lemma_parse_dec(r.target_id as nat, (usize::MAX as nat));
    lemma_parse_dec(r.proposed_cash_won as nat, u64::MAX as nat);
    lemma_parse_dec(r.desired_status_choice as nat, u64::MAX as nat);
    lemma_parse_dec(r.offered_team_after as nat, u64::MAX as nat);
    lemma_parse_dec(r.offered_team_after as nat, (usize::MAX as nat));
    lemma_parse_dec(r.target_team_after as nat, u64::MAX as nat);
    lemma_parse_dec(r.target_team_after as nat, (usize::MAX as nat));
    lemma_parse_dec(r.offered_contract_fingerprint as nat, u64::MAX as nat);
    lemma_parse_dec(r.target_contract_fingerprint as nat, u64::MAX as nat);
    lemma_parse_dec(r.requester_total_bits as nat, u64::MAX as nat);
    lemma_parse_dec(r.requester_transfer_bits as nat, u64::MAX as nat);
    lemma_parse_dec(r.requester_salary_bits as nat, u64::MAX as nat);
    lemma_parse_dec(r.recipient_total_bits as nat, u64::MAX as nat);
    lemma_parse_dec(r.recipient_transfer_bits as nat, u64::MAX as nat);
    lemma_parse_dec(r.recipient_salary_bits as nat, u64::MAX as nat);
    lemma_parse_dec(r.requester_roster_after as nat, u64::MAX as nat);
    lemma_parse_dec(r.requester_roster_after as nat, (usize::MAX as nat));
    lemma_parse_dec(r.recipient_roster_after as nat, u64::MAX as nat);
    lemma_parse_dec(r.recipient_roster_after as nat, (usize::MAX as nat));
    lemma_parse_dec(r.contracted_after as nat, u64::MAX as nat);
    lemma_parse_dec(r.contracted_after as nat, (usize::MAX as nat));
    lemma_parse_dec(r.requester_payroll_bits as nat, u64::MAX as nat);
    lemma_parse_dec(r.recipient_payroll_bits as nat, u64::MAX as nat);
    lemma_parse_dec(r.requester_news_count as nat, u64::MAX as nat);
    lemma_parse_dec(r.requester_news_count as nat, (usize::MAX as nat));
    lemma_parse_dec(r.recipient_news_count as nat, u64::MAX as nat);
    lemma_parse_dec(r.recipient_news_count as nat, (usize::MAX as nat));
    lemma_parse_dec(r.executed_plan_registry_count as nat, u64::MAX as nat);
    lemma_parse_dec(r.executed_plan_registry_count as nat, (usize::MAX as nat));
    lemma_fields_map_distinct(f, 0);
    lemma_fields_map_distinct(f, 1);
    lemma_fields_map_distinct(f, 2);
    lemma_fields_map_distinct(f, 3);
    lemma_fields_map_distinct(f, 4);
    lemma_fields_map_distinct(f, 5);
    lemma_fields_map_distinct(f, 6);
    lemma_fields_map_distinct(f, 7);
    lemma_fields_map_distinct(f, 8);
    lemma_fields_map_distinct(f, 9);
    lemma_fields_map_distinct(f, 10);
    lemma_fields_map_distinct(f, 11);
    lemma_fields_map_distinct(f, 12);
    lemma_fields_map_distinct(f, 13);
    lemma_fields_map_distinct(f, 14);
    lemma_fields_map_distinct(f, 15);
    lemma_fields_map_distinct(f, 16);
    lemma_fields_map_distinct(f, 17);
    lemma_fields_map_distinct(f, 18);
    lemma_fields_map_distinct(f, 19);
    lemma_fields_map_distinct(f, 20);
    lemma_fields_map_distinct(f, 21);
    lemma_fields_map_distinct(f, 22);
    lemma_fields_map_distinct(f, 23);
    lemma_fields_map_distinct(f, 24);
    lemma_fields_map_distinct(f, 25);
    lemma_fields_map_distinct(f, 26);
    lemma_fields_map_distinct(f, 27);
    lemma_fields_map_distinct(f, 28);
    lemma_fields_map_distinct(f, 29);
    lemma_fields_map_distinct(f, 30);
    lemma_fields_map_distinct(f, 31);
    let m = fields_map(f);
    assert(!m.contains_key(k_offered_contracted_status_after())) by {
        if m.contains_key(k_offered_contracted_status_after()) {
            let i = lemma_fields_map_key_index(f, k_offered_contracted_status_after());
            assert(f[i].0 == k_offered_contracted_status_after());
        }
    }
    assert(!m.contains_key(k_target_contracted_status_after())) by {
        if m.contains_key(k_target_contracted_status_after()) {
            let i = lemma_fields_map_key_index(f, k_target_contracted_status_after());
            assert(f[i].0 == k_target_contracted_status_after());
        }
    }
    assert(decode_receipt_map(m) == Ok::<ReceiptView, DecodeFault>(
        ReceiptView {
            offered_contracted_status_after: legacy_unrecorded(),
            target_contracted_status_after: legacy_unrecorded(),
            rollback_rehearsal_verified: false,
            ..r
        },
    ));
}

/// What saving a new receipt writes to the three receipt slots: the new
/// receipt as the current one, the receipt that was current as the previous
/// one, and the one that was previous as the oldest.  A slot that had
/// nothing to pass on is left as it is (`None`: nothing is written there).
#[derive(Debug, PartialEq, Eq)]
pub struct ReceiptSlots {
    pub current: Vec<u8>,
    pub previous: Option<Vec<u8>>,
    pub oldest: Option<Vec<u8>>,
}

fn copy_bytes(b: &[u8]) -> (v: Vec<u8>)
    ensures
        v@ == b@,
{
    let mut v: Vec<u8> = Vec::new();
    let mut i: usize = 0;
    while i < b.len()
        invariant
            i <= b@.len(),
            v@ == b@.take(i as int),
        decreases b@.len() - i,
    {
        v.push(b[i]);
        assert(v@ =~= b@.take(i + 1));
        i = i + 1;
    }
    assert(b@.take(i as int) =~= b@);
    v
}

/// The receipt slots after saving `new_receipt`, given what the current and
/// previous slots held.
pub fn rotate_receipts(current: Option<&[u8]>, previous: Option<&[u8]>, new_receipt: &TradeCommitReceipt) -> (r: ReceiptSlots)
    ensures
        r.current@ == vstd::utf8::encode_utf8(render(receipt_fields(new_receipt@))),
        match current {
            Some(c) => r.previous matches Some(p) && p@ == c@,
            None => r.previous is None,
        },
        match previous {
            Some(c) => r.oldest matches Some(o) && o@ == c@,
            None => r.oldest is None,
        },
{
    ReceiptSlots {
        current: encode_trade_commit_receipt(new_receipt),
        previous: match current {
            Some(c) => Some(copy_bytes(c)),
            None => None,
        },
        oldest: match previous {
            Some(p) => Some(copy_bytes(p)),
            None => None,
        },
    }
}

} // verus!

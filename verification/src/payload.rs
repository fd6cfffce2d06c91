//! The `key=value` answers that the server sends for quotes, reviews,
//! proposal status and committed trades.  Amounts that are floating-point
//! values in the game arrive here as the text they are printed as.
use vstd::prelude::*;
use crate::kv::{lemma_render_concat, render, render_fields, utf8_bytes};
use crate::proposal::{stage_ko_spec, state_name, AsyncTradeProposal};
use crate::receipt::{bool_chars, bool_text};
use crate::status::desired_squad_status;
use crate::text::{chars_of, dec, decimal, hex16, hex_fixed, sanitize_chars, sanitize_spec};

verus! {

/// The decimal numeral of a signed number.
pub open spec fn signed_dec(n: int) -> Seq<char> {
    if n < 0 {
        seq!['-'] + dec((-n) as nat)
    } else {
        dec(n as nat)
    }
}

/// The decimal numeral of an `i64`.
pub fn signed_decimal(n: i64) -> (v: Vec<char>)
    ensures
        v@ == signed_dec(n as int),
{
    if n < 0 {
        let m: u64 = if n == i64::MIN { 9_223_372_036_854_775_808u64 } else { (-n) as u64 };
        let mut v: Vec<char> = Vec::new();
        v.push('-');
        let d = decimal(m);
        crate::text::append_chars(&mut v, d.as_slice());
        assert(v@ =~= signed_dec(n as int));
        v
    } else {
        decimal(n as u64)
    }
}

/// The Korean label of a promised-status choice (an unknown choice reads as
/// General).
pub open spec fn status_label_of(choice: u8) -> Seq<char> {
    if choice == 0 {
        "핵심 선수"@
    } else if choice == 1 {
        "주요 선수"@
    } else if choice == 3 {
        "후보 선수"@
    } else if choice == 4 {
        "유망주"@
    } else {
        "주전 선수"@
    }
}

/// The text of the fields as bytes.
pub open spec fn payload_bytes(fields: Seq<(Seq<char>, Seq<char>)>) -> Seq<u8> {
    vstd::utf8::encode_utf8(render(fields))
}


/// The answer to a request that failed.
pub fn server_error_payload(detail: &str) -> (bytes: Vec<u8>)
    ensures
        bytes@ == payload_bytes(seq![("status"@, "error"@), ("detail"@, sanitize_spec(detail@))]),
{
    let mut fields: Vec<(&str, Vec<char>)> = Vec::new();
    fields.push(("status", chars_of("error")));
    fields.push(("detail", sanitize_chars(chars_of(detail).as_slice())));
    let ghost view = fields@.map_values(|f: (&str, Vec<char>)| (f.0@, f.1@));
    assert(view =~= seq![("status"@, "error"@), ("detail"@, sanitize_spec(detail@))]);
    let out = render_fields(&fields);
    utf8_bytes(out.as_slice())
}

/// The answer to a commit that failed, saying whether the changes were
/// undone.
pub open spec fn execution_error_fields(detail: Seq<char>, rollback_performed: bool, rollback_ok: bool) -> Seq<(Seq<char>, Seq<char>)> {
    seq![
        ("status"@, "error"@),
        ("detail"@, sanitize_spec(detail)),
        ("rollback_performed"@, bool_text(rollback_performed)),
        ("rollback_ok"@, bool_text(rollback_ok)),
        ("controlled_failure"@, "false"@),
        ("net_database_change"@, bool_text(!rollback_ok)),
        ("transaction_executed"@, "false"@),
        ("execution_gate_closed"@, "true"@),
        ("save_api_called"@, "false"@),
    ]
}

pub fn execution_error_payload(detail: &str, rollback_performed: bool, rollback_ok: bool) -> (bytes: Vec<u8>)
    ensures
        bytes@ == payload_bytes(execution_error_fields(detail@, rollback_performed, rollback_ok)),
{
    let mut fields: Vec<(&str, Vec<char>)> = Vec::new();
    fields.push(("status", chars_of("error")));
    fields.push(("detail", sanitize_chars(chars_of(detail).as_slice())));
    fields.push(("rollback_performed", bool_chars(rollback_performed)));
    fields.push(("rollback_ok", bool_chars(rollback_ok)));
    fields.push(("controlled_failure", chars_of("false")));
    fields.push(("net_database_change", bool_chars(!rollback_ok)));
    fields.push(("transaction_executed", chars_of("false")));
    fields.push(("execution_gate_closed", chars_of("true")));
    fields.push(("save_api_called", chars_of("false")));
    let ghost view = fields@.map_values(|f: (&str, Vec<char>)| (f.0@, f.1@));
    assert(view =~= execution_error_fields(detail@, rollback_performed, rollback_ok));
    let out = render_fields(&fields);
    utf8_bytes(out.as_slice())
}

/// What a quote answer shows (the budget as printed text).
#[derive(Debug, PartialEq, Eq)]
pub struct QuotePayload {
    pub requester_team_id: usize,
    pub recipient_team_id: usize,
    pub offered_id: usize,
    pub target_id: usize,
    pub region_id: usize,
    pub offered_name: String,
    pub target_name: String,
    pub display_min_units: u64,
    pub display_max_units: u64,
    pub cash_budget_won: String,
    pub budget_units: u64,
    pub profile_label: String,
    pub game_time: String,
    pub cooldown_present: bool,
    pub cooldown_fingerprint: u64,
    pub cooldown_retry_at: String,
    pub cooldown_changeable: bool,
    pub cooldown_exempt: bool,
}

pub open spec fn quote_fields(q: QuotePayload) -> Seq<(Seq<char>, Seq<char>)> {
    seq![
            ("status"@, "ok"@),
            ("requester_team_id"@, dec(q.requester_team_id as nat)),
            ("recipient_team_id"@, dec(q.recipient_team_id as nat)),
            ("offered_id"@, dec(q.offered_id as nat)),
            ("target_id"@, dec(q.target_id as nat)),
            ("region_id"@, dec(q.region_id as nat)),
            ("offered_name"@, sanitize_spec(q.offered_name@)),
            ("target_name"@, sanitize_spec(q.target_name@)),
            ("display_min_units"@, dec(q.display_min_units as nat)),
            ("display_max_units"@, dec(q.display_max_units as nat)),
            ("cash_budget_won"@, q.cash_budget_won@),
            ("budget_units"@, dec(q.budget_units as nat)),
            ("cash_range_obscured"@, "true"@),
            ("exact_threshold_disclosed"@, "false"@),
            ("range_stable_for_pair"@, "true"@),
            ("profile"@, q.profile_label@),
            ("game_time"@, sanitize_spec(q.game_time@)),
            ("cooldown_present"@, bool_text(q.cooldown_present)),
            ("cooldown_fingerprint"@, dec(q.cooldown_fingerprint as nat)),
            ("cooldown_retry_at"@, sanitize_spec(q.cooldown_retry_at@)),
            ("cooldown_changeable"@, bool_text(q.cooldown_changeable)),
            ("cooldown_exempt"@, bool_text(q.cooldown_exempt)),
        ]
}

/// The answer to a quote request: the obscured range, never the exact requirement.
pub fn server_quote_payload(q: &QuotePayload) -> (bytes: Vec<u8>)
    ensures
        bytes@ == payload_bytes(quote_fields(*q)),
{
    let mut fields: Vec<(&str, Vec<char>)> = Vec::new();
    fields.push(("status", chars_of("ok")));
    fields.push(("requester_team_id", decimal(q.requester_team_id as u64)));
    fields.push(("recipient_team_id", decimal(q.recipient_team_id as u64)));
    fields.push(("offered_id", decimal(q.offered_id as u64)));
    fields.push(("target_id", decimal(q.target_id as u64)));
    fields.push(("region_id", decimal(q.region_id as u64)));
    fields.push(("offered_name", sanitize_chars(chars_of(q.offered_name.as_str()).as_slice())));
    fields.push(("target_name", sanitize_chars(chars_of(q.target_name.as_str()).as_slice())));
    fields.push(("display_min_units", decimal(q.display_min_units)));
    fields.push(("display_max_units", decimal(q.display_max_units)));
    fields.push(("cash_budget_won", chars_of(q.cash_budget_won.as_str())));
    fields.push(("budget_units", decimal(q.budget_units)));
    fields.push(("cash_range_obscured", chars_of("true")));
    fields.push(("exact_threshold_disclosed", chars_of("false")));
    fields.push(("range_stable_for_pair", chars_of("true")));
    fields.push(("profile", chars_of(q.profile_label.as_str())));
    fields.push(("game_time", sanitize_chars(chars_of(q.game_time.as_str()).as_slice())));
    fields.push(("cooldown_present", bool_chars(q.cooldown_present)));
    fields.push(("cooldown_fingerprint", decimal(q.cooldown_fingerprint)));
    fields.push(("cooldown_retry_at", sanitize_chars(chars_of(q.cooldown_retry_at.as_str()).as_slice())));
    fields.push(("cooldown_changeable", bool_chars(q.cooldown_changeable)));
    fields.push(("cooldown_exempt", bool_chars(q.cooldown_exempt)));
    let ghost view = fields@.map_values(|f: (&str, Vec<char>)| (f.0@, f.1@));
    assert(view =~= quote_fields(*q));
    let out = render_fields(&fields);
    utf8_bytes(out.as_slice())
}

/// How a rejection was recorded.
#[derive(Debug, PartialEq, Eq)]
pub struct RejectionMeta {
    pub actor: String,
    pub actor_ko: String,
    pub reason: String,
    pub reason_ko: String,
    pub policy: String,
    pub retry_at: String,
    pub retry_ko: String,
    pub package_fingerprint: u64,
    pub feedback_id: u64,
    pub cooldown_blocked: bool,
    pub news_created: bool,
    pub duplicate_news_count: usize,
    pub ledger_entry_count: usize,
}
/// What a review answer shows of a sealed command (salaries and budget as printed text).
#[derive(Debug, PartialEq, Eq)]
pub struct EnvelopePayload {
    pub schema_version: u8,
    pub plan_id: String,
    pub offered_destination_team_id: usize,
    pub target_destination_team_id: usize,
    pub cash_payer_team_id: usize,
    pub cash_recipient_team_id: usize,
    pub requester_roster_count: usize,
    pub recipient_roster_count: usize,
    pub offered_yearly_salary: String,
    pub target_yearly_salary: String,
    pub requester_cash_budget_won: String,
    pub prepared_game_time: String,
    pub state_precondition_count: usize,
    pub operation_count: usize,
    pub atomic_batch_required: bool,
    pub contract_transfer_mode: String,
    pub money_direction: String,
    pub plan_repeat_consistent: bool,
    pub execution_gate_closed: bool,
}
/// What a review answer shows (floating-point amounts as printed text).
#[derive(Debug, PartialEq, Eq)]
pub struct ReviewPayload {
    pub requester_team_id: usize,
    pub recipient_team_id: usize,
    pub offered_id: usize,
    pub target_id: usize,
    pub region_id: usize,
    pub offered_name: String,
    pub target_name: String,
    pub proposed_units: u64,
    pub proposed_cash_won: u64,
    pub desired_status_choice: u8,
    pub desired_status_key: String,
    pub desired_status_label: String,
    pub required_cash_won: u64,
    pub cash_offer_min_units: u64,
    pub cash_offer_max_units: u64,
    pub cash_budget_won: String,
    pub cash_meets_required: bool,
    pub cash_within_budget: bool,
    pub cash_within_offer_range: bool,
    pub seller_accepted: bool,
    pub seller_repeat_consistent: bool,
    pub player_accepted: bool,
    pub overall_approved: bool,
    pub requested_years: usize,
    pub contract_days_left: i64,
    pub inherited_yearly_salary: String,
    pub contract_inherited: bool,
    pub role_promise_accepted: bool,
    pub salary_renegotiation_required: bool,
    pub offer_value_ratio: String,
    pub current_status: String,
    pub offered_status: String,
    pub clear_exit_path: bool,
    pub seller_protects_downward_move: bool,
    pub protected_downward_asset: bool,
    pub exceptional_exit_offer: bool,
    pub last_player_without_replacement: bool,
    pub game_time: String,
    pub command_envelope: Option<EnvelopePayload>,
    pub rejection_meta: Option<RejectionMeta>,
}

pub open spec fn review_head(r: ReviewPayload) -> Seq<(Seq<char>, Seq<char>)> {
    seq![
            ("status"@, "ok"@),
            ("requester_team_id"@, dec(r.requester_team_id as nat)),
            ("recipient_team_id"@, dec(r.recipient_team_id as nat)),
            ("offered_id"@, dec(r.offered_id as nat)),
            ("target_id"@, dec(r.target_id as nat)),
            ("region_id"@, dec(r.region_id as nat)),
            ("offered_name"@, sanitize_spec(r.offered_name@)),
            ("target_name"@, sanitize_spec(r.target_name@)),
            ("proposed_units"@, dec(r.proposed_units as nat)),
            ("proposed_cash_won"@, dec(r.proposed_cash_won as nat)),
            ("desired_status_choice"@, dec(r.desired_status_choice as nat)),
            ("desired_status_key"@, r.desired_status_key@),
            ("desired_status_label"@, r.desired_status_label@),
            ("required_cash_won"@, dec(r.required_cash_won as nat)),
            ("proposed_cash_within_server_range"@, bool_text(r.cash_within_offer_range)),
            ("cash_offer_min_units"@, dec(r.cash_offer_min_units as nat)),
            ("cash_offer_max_units"@, dec(r.cash_offer_max_units as nat)),
            ("cash_budget_won"@, r.cash_budget_won@),
            ("cash_meets_required"@, bool_text(r.cash_meets_required)),
            ("cash_within_budget"@, bool_text(r.cash_within_budget)),
            ("seller_accepted"@, bool_text(r.seller_accepted)),
            ("seller_repeat_consistent"@, bool_text(r.seller_repeat_consistent)),
            ("player_accepted"@, bool_text(r.player_accepted)),
            ("overall_approved"@, bool_text(r.overall_approved)),
            ("requested_years"@, dec(r.requested_years as nat)),
            ("contract_days_left"@, signed_dec(r.contract_days_left as int)),
            ("inherited_yearly_salary"@, r.inherited_yearly_salary@),
            ("contract_inherited"@, bool_text(r.contract_inherited)),
            ("role_promise_accepted"@, bool_text(r.role_promise_accepted)),
            ("salary_renegotiation_required"@, bool_text(r.salary_renegotiation_required)),
            ("offer_value_ratio"@, r.offer_value_ratio@),
            ("current_status"@, r.current_status@),
            ("offered_status"@, r.offered_status@),
            ("clear_exit_path"@, bool_text(r.clear_exit_path)),
            ("seller_protects_downward_move"@, bool_text(r.seller_protects_downward_move)),
            ("protected_downward_asset"@, bool_text(r.protected_downward_asset)),
            ("exceptional_exit_offer"@, bool_text(r.exceptional_exit_offer)),
            ("last_player_without_replacement"@, bool_text(r.last_player_without_replacement)),
            ("game_time"@, sanitize_spec(r.game_time@)),
        ]
}

#[verifier::rlimit(60)]
fn review_head_text(r: &ReviewPayload) -> (out: Vec<char>)
    ensures
        out@ == render(review_head(*r)),
{
    let mut fields: Vec<(&str, Vec<char>)> = Vec::new();
    fields.push(("status", chars_of("ok")));
    fields.push(("requester_team_id", decimal(r.requester_team_id as u64)));
    fields.push(("recipient_team_id", decimal(r.recipient_team_id as u64)));
    fields.push(("offered_id", decimal(r.offered_id as u64)));
    fields.push(("target_id", decimal(r.target_id as u64)));
    fields.push(("region_id", decimal(r.region_id as u64)));
    fields.push(("offered_name", sanitize_chars(chars_of(r.offered_name.as_str()).as_slice())));
    fields.push(("target_name", sanitize_chars(chars_of(r.target_name.as_str()).as_slice())));
    fields.push(("proposed_units", decimal(r.proposed_units)));
    fields.push(("proposed_cash_won", decimal(r.proposed_cash_won)));
    fields.push(("desired_status_choice", decimal(r.desired_status_choice as u64)));
    fields.push(("desired_status_key", chars_of(r.desired_status_key.as_str())));
    fields.push(("desired_status_label", chars_of(r.desired_status_label.as_str())));
    fields.push(("required_cash_won", decimal(r.required_cash_won)));
    fields.push(("proposed_cash_within_server_range", bool_chars(r.cash_within_offer_range)));
    fields.push(("cash_offer_min_units", decimal(r.cash_offer_min_units)));
    fields.push(("cash_offer_max_units", decimal(r.cash_offer_max_units)));
    fields.push(("cash_budget_won", chars_of(r.cash_budget_won.as_str())));
    fields.push(("cash_meets_required", bool_chars(r.cash_meets_required)));
    fields.push(("cash_within_budget", bool_chars(r.cash_within_budget)));
    fields.push(("seller_accepted", bool_chars(r.seller_accepted)));
    fields.push(("seller_repeat_consistent", bool_chars(r.seller_repeat_consistent)));
    fields.push(("player_accepted", bool_chars(r.player_accepted)));
    fields.push(("overall_approved", bool_chars(r.overall_approved)));
    fields.push(("requested_years", decimal(r.requested_years as u64)));
    fields.push(("contract_days_left", signed_decimal(r.contract_days_left)));
    fields.push(("inherited_yearly_salary", chars_of(r.inherited_yearly_salary.as_str())));
    fields.push(("contract_inherited", bool_chars(r.contract_inherited)));
    fields.push(("role_promise_accepted", bool_chars(r.role_promise_accepted)));
    fields.push(("salary_renegotiation_required", bool_chars(r.salary_renegotiation_required)));
    fields.push(("offer_value_ratio", chars_of(r.offer_value_ratio.as_str())));
    fields.push(("current_status", chars_of(r.current_status.as_str())));
    fields.push(("offered_status", chars_of(r.offered_status.as_str())));
    fields.push(("clear_exit_path", bool_chars(r.clear_exit_path)));
    fields.push(("seller_protects_downward_move", bool_chars(r.seller_protects_downward_move)));
    fields.push(("protected_downward_asset", bool_chars(r.protected_downward_asset)));
    fields.push(("exceptional_exit_offer", bool_chars(r.exceptional_exit_offer)));
    fields.push(("last_player_without_replacement", bool_chars(r.last_player_without_replacement)));
    fields.push(("game_time", sanitize_chars(chars_of(r.game_time.as_str()).as_slice())));
    let ghost view = fields@.map_values(|f: (&str, Vec<char>)| (f.0@, f.1@));
    assert(view =~= review_head(*r));
    render_fields(&fields)
}


pub open spec fn rejection_section(m: Option<RejectionMeta>) -> Seq<(Seq<char>, Seq<char>)> {
    match m {
        Some(m) => seq![
                ("rejection_present"@, "true"@),
                ("rejection_actor"@, m.actor@),
                ("rejection_actor_ko"@, sanitize_spec(m.actor_ko@)),
                ("rejection_reason"@, m.reason@),
                ("rejection_reason_ko"@, sanitize_spec(m.reason_ko@)),
                ("rejection_policy"@, m.policy@),
                ("rejection_retry_at"@, m.retry_at@),
                ("rejection_retry_ko"@, sanitize_spec(m.retry_ko@)),
                ("rejection_package_fingerprint"@, hex_fixed(m.package_fingerprint as nat, 16)),
                ("rejection_feedback_id"@, hex_fixed(m.feedback_id as nat, 16)),
                ("rejection_cooldown_blocked"@, bool_text(m.cooldown_blocked)),
                ("rejection_news_created"@, bool_text(m.news_created)),
                ("rejection_duplicate_news_count"@, dec(m.duplicate_news_count as nat)),
                ("rejection_ledger_entry_count"@, dec(m.ledger_entry_count as nat)),
            ],
        None => seq![
                ("rejection_present"@, "false"@),
                ("rejection_actor"@, "none"@),
                ("rejection_actor_ko"@, "none"@),
                ("rejection_reason"@, "none"@),
                ("rejection_reason_ko"@, "none"@),
                ("rejection_policy"@, "none"@),
                ("rejection_retry_at"@, "none"@),
                ("rejection_retry_ko"@, "none"@),
                ("rejection_package_fingerprint"@, "none"@),
                ("rejection_feedback_id"@, "none"@),
                ("rejection_cooldown_blocked"@, "false"@),
                ("rejection_news_created"@, "false"@),
                ("rejection_duplicate_news_count"@, "0"@),
                ("rejection_ledger_entry_count"@, "0"@),
            ],
    }
}

#[verifier::rlimit(60)]
fn rejection_section_text(m: &Option<RejectionMeta>) -> (out: Vec<char>)
    ensures
        out@ == render(rejection_section(*m)),
{
    let mut fields: Vec<(&str, Vec<char>)> = Vec::new();
    match m {
        Some(m) => {
            fields.push(("rejection_present", chars_of("true")));
            fields.push(("rejection_actor", chars_of(m.actor.as_str())));
            fields.push(("rejection_actor_ko", sanitize_chars(chars_of(m.actor_ko.as_str()).as_slice())));
            fields.push(("rejection_reason", chars_of(m.reason.as_str())));
            fields.push(("rejection_reason_ko", sanitize_chars(chars_of(m.reason_ko.as_str()).as_slice())));
            fields.push(("rejection_policy", chars_of(m.policy.as_str())));
            fields.push(("rejection_retry_at", chars_of(m.retry_at.as_str())));
            fields.push(("rejection_retry_ko", sanitize_chars(chars_of(m.retry_ko.as_str()).as_slice())));
            fields.push(("rejection_package_fingerprint", hex16(m.package_fingerprint)));
            fields.push(("rejection_feedback_id", hex16(m.feedback_id)));
            fields.push(("rejection_cooldown_blocked", bool_chars(m.cooldown_blocked)));
            fields.push(("rejection_news_created", bool_chars(m.news_created)));
            fields.push(("rejection_duplicate_news_count", decimal(m.duplicate_news_count as u64)));
            fields.push(("rejection_ledger_entry_count", decimal(m.ledger_entry_count as u64)));
        },
        None => {
            fields.push(("rejection_present", chars_of("false")));
            fields.push(("rejection_actor", chars_of("none")));
            fields.push(("rejection_actor_ko", chars_of("none")));
            fields.push(("rejection_reason", chars_of("none")));
            fields.push(("rejection_reason_ko", chars_of("none")));
            fields.push(("rejection_policy", chars_of("none")));
            fields.push(("rejection_retry_at", chars_of("none")));
            fields.push(("rejection_retry_ko", chars_of("none")));
            fields.push(("rejection_package_fingerprint", chars_of("none")));
            fields.push(("rejection_feedback_id", chars_of("none")));
            fields.push(("rejection_cooldown_blocked", chars_of("false")));
            fields.push(("rejection_news_created", chars_of("false")));
            fields.push(("rejection_duplicate_news_count", chars_of("0")));
            fields.push(("rejection_ledger_entry_count", chars_of("0")));
        },
    }
    let ghost view = fields@.map_values(|f: (&str, Vec<char>)| (f.0@, f.1@));
    assert(view =~= rejection_section(*m));
    render_fields(&fields)
}


pub open spec fn envelope_section(e: Option<EnvelopePayload>) -> Seq<(Seq<char>, Seq<char>)> {
    match e {
        Some(e) => seq![
                ("command_envelope_prepared"@, "true"@),
                ("plan_schema_version"@, dec(e.schema_version as nat)),
                ("plan_id"@, e.plan_id@),
                ("offered_destination_team_id"@, dec(e.offered_destination_team_id as nat)),
                ("target_destination_team_id"@, dec(e.target_destination_team_id as nat)),
                ("cash_payer_team_id"@, dec(e.cash_payer_team_id as nat)),
                ("cash_recipient_team_id"@, dec(e.cash_recipient_team_id as nat)),
                ("requester_roster_count"@, dec(e.requester_roster_count as nat)),
                ("recipient_roster_count"@, dec(e.recipient_roster_count as nat)),
                ("offered_yearly_salary"@, e.offered_yearly_salary@),
                ("target_yearly_salary"@, e.target_yearly_salary@),
                ("requester_cash_budget_won"@, e.requester_cash_budget_won@),
                ("prepared_game_time"@, sanitize_spec(e.prepared_game_time@)),
                ("state_precondition_count"@, dec(e.state_precondition_count as nat)),
                ("operation_count"@, dec(e.operation_count as nat)),
                ("atomic_batch_required"@, bool_text(e.atomic_batch_required)),
                ("contract_transfer_mode"@, e.contract_transfer_mode@),
                ("money_direction"@, e.money_direction@),
                ("plan_repeat_consistent"@, bool_text(e.plan_repeat_consistent)),
                ("execution_gate_closed"@, bool_text(e.execution_gate_closed)),
            ],
        None => seq![
                ("command_envelope_prepared"@, "false"@),
                ("plan_id"@, "none"@),
                ("plan_repeat_consistent"@, "false"@),
                ("execution_gate_closed"@, "true"@),
            ],
    }
}

#[verifier::rlimit(60)]
fn envelope_section_text(e: &Option<EnvelopePayload>) -> (out: Vec<char>)
    ensures
        out@ == render(envelope_section(*e)),
{
    let mut fields: Vec<(&str, Vec<char>)> = Vec::new();
    match e {
        Some(e) => {
            fields.push(("command_envelope_prepared", chars_of("true")));
            fields.push(("plan_schema_version", decimal(e.schema_version as u64)));
            fields.push(("plan_id", chars_of(e.plan_id.as_str())));
            fields.push(("offered_destination_team_id", decimal(e.offered_destination_team_id as u64)));
            fields.push(("target_destination_team_id", decimal(e.target_destination_team_id as u64)));
            fields.push(("cash_payer_team_id", decimal(e.cash_payer_team_id as u64)));
            fields.push(("cash_recipient_team_id", decimal(e.cash_recipient_team_id as u64)));
            fields.push(("requester_roster_count", decimal(e.requester_roster_count as u64)));
            fields.push(("recipient_roster_count", decimal(e.recipient_roster_count as u64)));
            fields.push(("offered_yearly_salary", chars_of(e.offered_yearly_salary.as_str())));
            fields.push(("target_yearly_salary", chars_of(e.target_yearly_salary.as_str())));
            fields.push(("requester_cash_budget_won", chars_of(e.requester_cash_budget_won.as_str())));
            fields.push(("prepared_game_time", sanitize_chars(chars_of(e.prepared_game_time.as_str()).as_slice())));
            fields.push(("state_precondition_count", decimal(e.state_precondition_count as u64)));
            fields.push(("operation_count", decimal(e.operation_count as u64)));
            fields.push(("atomic_batch_required", bool_chars(e.atomic_batch_required)));
            fields.push(("contract_transfer_mode", chars_of(e.contract_transfer_mode.as_str())));
            fields.push(("money_direction", chars_of(e.money_direction.as_str())));
            fields.push(("plan_repeat_consistent", bool_chars(e.plan_repeat_consistent)));
            fields.push(("execution_gate_closed", bool_chars(e.execution_gate_closed)));
        },
        None => {
            fields.push(("command_envelope_prepared", chars_of("false")));
            fields.push(("plan_id", chars_of("none")));
            fields.push(("plan_repeat_consistent", chars_of("false")));
            fields.push(("execution_gate_closed", chars_of("true")));
        },
    }
    let ghost view = fields@.map_values(|f: (&str, Vec<char>)| (f.0@, f.1@));
    assert(view =~= envelope_section(*e));
    render_fields(&fields)
}


/// The fields of a review answer.
pub open spec fn review_fields(r: ReviewPayload) -> Seq<(Seq<char>, Seq<char>)> {
    review_head(r) + rejection_section(r.rejection_meta) + envelope_section(r.command_envelope) + seq![
        ("transaction_executed"@, "false"@),
    ]
}

/// The answer to a review request: every check's outcome, the rejection if
/// one was recorded, and the sealed command if one was prepared.
pub fn server_review_payload(r: &ReviewPayload) -> (bytes: Vec<u8>)
    ensures
        bytes@ == payload_bytes(review_fields(*r)),
{
    let mut out = review_head_text(r);
    let rej = rejection_section_text(&r.rejection_meta);
    crate::text::append_chars(&mut out, rej.as_slice());
    let env = envelope_section_text(&r.command_envelope);
    crate::text::append_chars(&mut out, env.as_slice());
    let mut tail: Vec<(&str, Vec<char>)> = Vec::new();
    tail.push(("transaction_executed", chars_of("false")));
    let ghost tail_view = tail@.map_values(|f: (&str, Vec<char>)| (f.0@, f.1@));
    assert(tail_view =~= seq![("transaction_executed"@, "false"@)]);
    let t = render_fields(&tail);
    crate::text::append_chars(&mut out, t.as_slice());
    proof {
        let h = review_head(*r);
        let a = rejection_section(r.rejection_meta);
        let b = envelope_section(r.command_envelope);
        let c = seq![("transaction_executed"@, "false"@)];
        lemma_render_concat(h, a);
        lemma_render_concat(h + a, b);
        lemma_render_concat(h + a + b, c);
    }
    utf8_bytes(out.as_slice())
}

/// What a status answer shows beside the proposal: names, the target's contract, and the current state of the players and the registry (the salary as printed text).
#[derive(Debug, PartialEq, Eq)]
pub struct AsyncStatusContext {
    pub requester_team_name: String,
    pub recipient_team_name: String,
    pub target_position_label: String,
    pub target_position_icon: String,
    pub target_contract_end: String,
    pub target_yearly_salary: String,
    pub success_news_count: usize,
    pub offered_team_current: usize,
    pub target_team_current: usize,
    pub target_status_current: String,
    pub target_contracted_status_current: String,
    pub executed_plan_registry_count: usize,
    pub result_plan_occurrences: usize,
}

pub open spec fn async_status_fields(season_used: bool, game_time: String, current_process_id: u32, proposal: Option<(AsyncTradeProposal, AsyncStatusContext)>) -> Seq<(Seq<char>, Seq<char>)> {
    match proposal {
        None => seq![
                ("status"@, "none"@),
                ("proposal_present"@, "false"@),
                ("season_used"@, bool_text(season_used)),
                ("game_time"@, game_time@),
                ("current_process_id"@, dec(current_process_id as nat)),
                ("database_mutation"@, "false"@),
            ],
        Some((p, c)) => seq![
                ("season_used"@, bool_text(season_used)),
                ("status"@, "ok"@),
                ("proposal_present"@, "true"@),
                ("proposal_id"@, p.proposal_id@),
                ("state"@, state_name(p.state)),
                ("stage_ko"@, stage_ko_spec(p.state)),
                ("requester_team_id"@, dec(p.requester_team_id as nat)),
                ("recipient_team_id"@, dec(p.recipient_team_id as nat)),
                ("offered_id"@, dec(p.offered_id as nat)),
                ("target_id"@, dec(p.target_id as nat)),
                ("offered_name"@, sanitize_spec(p.offered_name@)),
                ("target_name"@, sanitize_spec(p.target_name@)),
                ("requester_team_name"@, sanitize_spec(c.requester_team_name@)),
                ("recipient_team_name"@, sanitize_spec(c.recipient_team_name@)),
                ("target_position_label"@, sanitize_spec(c.target_position_label@)),
                ("target_position_icon"@, sanitize_spec(c.target_position_icon@)),
                ("target_contract_end"@, sanitize_spec(c.target_contract_end@)),
                ("target_yearly_salary"@, c.target_yearly_salary@),
                ("proposed_units"@, dec(p.proposed_units as nat)),
                ("desired_status_label"@, status_label_of(p.desired_status_choice)),
                ("game_time"@, game_time@),
                ("proposed_cash_won"@, dec(p.proposed_cash_won as nat)),
                ("desired_status_choice"@, dec(p.desired_status_choice as nat)),
                ("desired_status_key"@, p.desired_status_key@),
                ("submitted_at"@, p.submitted_at@),
                ("seller_due_at"@, p.seller_due_at@),
                ("player_due_at"@, p.player_due_at@),
                ("completed_at"@, p.completed_at@),
                ("rejection_actor"@, p.rejection_actor@),
                ("rejection_reason"@, p.rejection_reason@),
                ("rejection_reason_ko"@, sanitize_spec(p.rejection_reason_ko@)),
                ("result_plan_id"@, p.result_plan_id@),
                ("success_news_count"@, dec(c.success_news_count as nat)),
                ("transition_count"@, dec(p.transition_count as nat)),
                ("submit_process_id"@, dec(p.submit_process_id as nat)),
                ("commit_process_id"@, dec(p.commit_process_id as nat)),
                ("current_process_id"@, dec(current_process_id as nat)),
                ("offered_team_current"@, dec(c.offered_team_current as nat)),
                ("target_team_current"@, dec(c.target_team_current as nat)),
                ("target_status_current"@, c.target_status_current@),
                ("target_contracted_status_current"@, sanitize_spec(c.target_contracted_status_current@)),
                ("executed_plan_registry_count"@, dec(c.executed_plan_registry_count as nat)),
                ("result_plan_occurrences"@, dec(c.result_plan_occurrences as nat)),
                ("database_mutation"@, "false"@),
                ("transaction_executed"@, "false"@),
                ("save_api_called"@, "false"@),
            ],
    }
}

/// The answer to a status request: `status=none` without a stored proposal, else the proposal and the current state around it.
#[verifier::rlimit(60)]
pub fn async_status_payload(season_used: bool, game_time: &String, current_process_id: u32, proposal: Option<(&AsyncTradeProposal, &AsyncStatusContext)>) -> (bytes: Vec<u8>)
    ensures
        bytes@ == payload_bytes(async_status_fields(season_used, *game_time, current_process_id, match proposal { None => None, Some((p, c)) => Some((*p, *c)) })),
{
    let mut fields: Vec<(&str, Vec<char>)> = Vec::new();
    match proposal {
        None => {
            fields.push(("status", chars_of("none")));
            fields.push(("proposal_present", chars_of("false")));
            fields.push(("season_used", bool_chars(season_used)));
            fields.push(("game_time", chars_of(game_time.as_str())));
            fields.push(("current_process_id", decimal(current_process_id as u64)));
            fields.push(("database_mutation", chars_of("false")));
        },
        Some((p, c)) => {
            fields.push(("season_used", bool_chars(season_used)));
            fields.push(("status", chars_of("ok")));
            fields.push(("proposal_present", chars_of("true")));
            fields.push(("proposal_id", chars_of(p.proposal_id.as_str())));
            fields.push(("state", chars_of(p.state.as_str())));
            fields.push(("stage_ko", chars_of(p.state.stage_ko())));
            fields.push(("requester_team_id", decimal(p.requester_team_id as u64)));
            fields.push(("recipient_team_id", decimal(p.recipient_team_id as u64)));
            fields.push(("offered_id", decimal(p.offered_id as u64)));
            fields.push(("target_id", decimal(p.target_id as u64)));
            fields.push(("offered_name", sanitize_chars(chars_of(p.offered_name.as_str()).as_slice())));
            fields.push(("target_name", sanitize_chars(chars_of(p.target_name.as_str()).as_slice())));
            fields.push(("requester_team_name", sanitize_chars(chars_of(c.requester_team_name.as_str()).as_slice())));
            fields.push(("recipient_team_name", sanitize_chars(chars_of(c.recipient_team_name.as_str()).as_slice())));
            fields.push(("target_position_label", sanitize_chars(chars_of(c.target_position_label.as_str()).as_slice())));
            fields.push(("target_position_icon", sanitize_chars(chars_of(c.target_position_icon.as_str()).as_slice())));
            fields.push(("target_contract_end", sanitize_chars(chars_of(c.target_contract_end.as_str()).as_slice())));
            fields.push(("target_yearly_salary", chars_of(c.target_yearly_salary.as_str())));
            fields.push(("proposed_units", decimal(p.proposed_units)));
            fields.push(("desired_status_label", chars_of(desired_squad_status(p.desired_status_choice).1)));
            fields.push(("game_time", chars_of(game_time.as_str())));
            fields.push(("proposed_cash_won", decimal(p.proposed_cash_won)));
            fields.push(("desired_status_choice", decimal(p.desired_status_choice as u64)));
            fields.push(("desired_status_key", chars_of(p.desired_status_key.as_str())));
            fields.push(("submitted_at", chars_of(p.submitted_at.as_str())));
            fields.push(("seller_due_at", chars_of(p.seller_due_at.as_str())));
            fields.push(("player_due_at", chars_of(p.player_due_at.as_str())));
            fields.push(("completed_at", chars_of(p.completed_at.as_str())));
            fields.push(("rejection_actor", chars_of(p.rejection_actor.as_str())));
            fields.push(("rejection_reason", chars_of(p.rejection_reason.as_str())));
            fields.push(("rejection_reason_ko", sanitize_chars(chars_of(p.rejection_reason_ko.as_str()).as_slice())));
            fields.push(("result_plan_id", chars_of(p.result_plan_id.as_str())));
            fields.push(("success_news_count", decimal(c.success_news_count as u64)));
            fields.push(("transition_count", decimal(p.transition_count as u64)));
            fields.push(("submit_process_id", decimal(p.submit_process_id as u64)));
            fields.push(("commit_process_id", decimal(p.commit_process_id as u64)));
            fields.push(("current_process_id", decimal(current_process_id as u64)));
            fields.push(("offered_team_current", decimal(c.offered_team_current as u64)));
            fields.push(("target_team_current", decimal(c.target_team_current as u64)));
            fields.push(("target_status_current", chars_of(c.target_status_current.as_str())));
            fields.push(("target_contracted_status_current", sanitize_chars(chars_of(c.target_contracted_status_current.as_str()).as_slice())));
            fields.push(("executed_plan_registry_count", decimal(c.executed_plan_registry_count as u64)));
            fields.push(("result_plan_occurrences", decimal(c.result_plan_occurrences as u64)));
            fields.push(("database_mutation", chars_of("false")));
            fields.push(("transaction_executed", chars_of("false")));
            fields.push(("save_api_called", chars_of("false")));
        },
    }
    let ghost view = fields@.map_values(|f: (&str, Vec<char>)| (f.0@, f.1@));
    assert(view =~= async_status_fields(season_used, *game_time, current_process_id, match proposal { None => None, Some((p, c)) => Some((*p, *c)) }));
    let out = render_fields(&fields);
    utf8_bytes(out.as_slice())
}

/// The answer to an accepted proposal: what was submitted and when each
/// review answers; nothing in the game has changed yet.
pub open spec fn submitted_fields(
    p: AsyncTradeProposal,
    requester_team_name: Seq<char>,
    recipient_team_name: Seq<char>,
    game_time: Seq<char>,
) -> Seq<(Seq<char>, Seq<char>)> {
    seq![
        ("status"@, "submitted"@),
        ("proposal_present"@, "true"@),
        ("proposal_id"@, p.proposal_id@),
        ("state"@, state_name(p.state)),
        ("stage_ko"@, stage_ko_spec(p.state)),
        ("offered_id"@, dec(p.offered_id as nat)),
        ("target_id"@, dec(p.target_id as nat)),
        ("offered_name"@, sanitize_spec(p.offered_name@)),
        ("target_name"@, sanitize_spec(p.target_name@)),
        ("requester_team_id"@, dec(p.requester_team_id as nat)),
        ("recipient_team_id"@, dec(p.recipient_team_id as nat)),
        ("requester_team_name"@, sanitize_spec(requester_team_name)),
        ("recipient_team_name"@, sanitize_spec(recipient_team_name)),
        ("proposed_units"@, dec(p.proposed_units as nat)),
        ("desired_status_label"@, status_label_of(p.desired_status_choice)),
        ("game_time"@, game_time),
        ("submitted_at"@, p.submitted_at@),
        ("seller_due_at"@, p.seller_due_at@),
        ("player_due_at"@, p.player_due_at@),
        ("team_mutation"@, "false"@),
        ("finance_mutation"@, "false"@),
        ("contract_mutation"@, "false"@),
        ("transaction_executed"@, "false"@),
    ]
}

#[verifier::rlimit(40)]
pub fn async_submitted_payload(
    p: &AsyncTradeProposal,
    requester_team_name: &str,
    recipient_team_name: &str,
    game_time: &str,
) -> (bytes: Vec<u8>)
    ensures
        bytes@ == payload_bytes(submitted_fields(*p, requester_team_name@, recipient_team_name@, game_time@)),
{
    let mut fields: Vec<(&str, Vec<char>)> = Vec::new();
    fields.push(("status", chars_of("submitted")));
    fields.push(("proposal_present", chars_of("true")));
    fields.push(("proposal_id", chars_of(p.proposal_id.as_str())));
    fields.push(("state", chars_of(p.state.as_str())));
    fields.push(("stage_ko", chars_of(p.state.stage_ko())));
    fields.push(("offered_id", decimal(p.offered_id as u64)));
    fields.push(("target_id", decimal(p.target_id as u64)));
    fields.push(("offered_name", sanitize_chars(chars_of(p.offered_name.as_str()).as_slice())));
    fields.push(("target_name", sanitize_chars(chars_of(p.target_name.as_str()).as_slice())));
    fields.push(("requester_team_id", decimal(p.requester_team_id as u64)));
    fields.push(("recipient_team_id", decimal(p.recipient_team_id as u64)));
    fields.push(("requester_team_name", sanitize_chars(chars_of(requester_team_name).as_slice())));
    fields.push(("recipient_team_name", sanitize_chars(chars_of(recipient_team_name).as_slice())));
    fields.push(("proposed_units", decimal(p.proposed_units)));
    fields.push(("desired_status_label", chars_of(desired_squad_status(p.desired_status_choice).1)));
    fields.push(("game_time", chars_of(game_time)));
    fields.push(("submitted_at", chars_of(p.submitted_at.as_str())));
    fields.push(("seller_due_at", chars_of(p.seller_due_at.as_str())));
    fields.push(("player_due_at", chars_of(p.player_due_at.as_str())));
    fields.push(("team_mutation", chars_of("false")));
    fields.push(("finance_mutation", chars_of("false")));
    fields.push(("contract_mutation", chars_of("false")));
    fields.push(("transaction_executed", chars_of("false")));
    let ghost view = fields@.map_values(|f: (&str, Vec<char>)| (f.0@, f.1@));
    assert(view =~= submitted_fields(*p, requester_team_name@, recipient_team_name@, game_time@));
    let out = render_fields(&fields);
    utf8_bytes(out.as_slice())
}

/// What the answer to a committed trade shows (money amounts as printed text).
#[derive(Debug, PartialEq, Eq)]
pub struct AtomicResultPayload {
    pub plan_id: String,
    pub requester_team_id: usize,
    pub recipient_team_id: usize,
    pub offered_id: usize,
    pub target_id: usize,
    pub offered_name: String,
    pub target_name: String,
    pub proposed_cash_won: u64,
    pub desired_status_choice: u8,
    pub desired_status_key: String,
    pub desired_status_label: String,
    pub offered_team_before: usize,
    pub offered_team_after: usize,
    pub target_team_before: usize,
    pub target_team_after: usize,
    pub target_status_before: String,
    pub target_status_after: String,
    pub offered_contracted_status_before: String,
    pub offered_contracted_status_after: String,
    pub target_contracted_status_before: String,
    pub target_contracted_status_after: String,
    pub requester_total_before: String,
    pub requester_total_after: String,
    pub requester_transfer_before: String,
    pub requester_transfer_after: String,
    pub recipient_total_before: String,
    pub recipient_total_after: String,
    pub recipient_transfer_before: String,
    pub recipient_transfer_after: String,
    pub requester_roster_before: usize,
    pub requester_roster_after: usize,
    pub recipient_roster_before: usize,
    pub recipient_roster_after: usize,
    pub contracted_before: usize,
    pub contracted_after: usize,
    pub requester_payroll_after: String,
    pub recipient_payroll_after: String,
    pub contract_inherited_both: bool,
    pub offered_status_unchanged: bool,
    pub target_status_applied: bool,
    pub offered_contracted_status_unchanged: bool,
    pub target_contracted_status_applied: bool,
    pub rollback_rehearsal_verified: bool,
    pub combined_finance_conserved: bool,
    pub pre_receipt_mod_save_unchanged: bool,
    pub executed_plan_persisted: bool,
    pub trade_receipt_persisted: bool,
    pub receipt_readback_verified: bool,
    pub executed_plan_registry_count: usize,
    pub offered_contract_fingerprint: u64,
    pub target_contract_fingerprint: u64,
    pub commit_process_id: u32,
    pub news_count_unchanged: bool,
    pub game_time: String,
}

pub open spec fn atomic_fields(a: AtomicResultPayload) -> Seq<(Seq<char>, Seq<char>)> {
    seq![
            ("status"@, "ok"@),
            ("plan_id"@, a.plan_id@),
            ("requester_team_id"@, dec(a.requester_team_id as nat)),
            ("recipient_team_id"@, dec(a.recipient_team_id as nat)),
            ("offered_id"@, dec(a.offered_id as nat)),
            ("target_id"@, dec(a.target_id as nat)),
            ("offered_name"@, sanitize_spec(a.offered_name@)),
            ("target_name"@, sanitize_spec(a.target_name@)),
            ("proposed_cash_won"@, dec(a.proposed_cash_won as nat)),
            ("proposed_cash_within_server_range"@, "true"@),
            ("desired_status_choice"@, dec(a.desired_status_choice as nat)),
            ("desired_status_key"@, a.desired_status_key@),
            ("desired_status_label"@, a.desired_status_label@),
            ("offered_team_before"@, dec(a.offered_team_before as nat)),
            ("offered_team_after"@, dec(a.offered_team_after as nat)),
            ("target_team_before"@, dec(a.target_team_before as nat)),
            ("target_team_after"@, dec(a.target_team_after as nat)),
            ("target_status_before"@, sanitize_spec(a.target_status_before@)),
            ("target_status_after"@, sanitize_spec(a.target_status_after@)),
            ("offered_contracted_status_before"@, sanitize_spec(a.offered_contracted_status_before@)),
            ("offered_contracted_status_after"@, sanitize_spec(a.offered_contracted_status_after@)),
            ("target_contracted_status_before"@, sanitize_spec(a.target_contracted_status_before@)),
            ("target_contracted_status_after"@, sanitize_spec(a.target_contracted_status_after@)),
            ("requester_total_before"@, a.requester_total_before@),
            ("requester_total_after"@, a.requester_total_after@),
            ("requester_transfer_before"@, a.requester_transfer_before@),
            ("requester_transfer_after"@, a.requester_transfer_after@),
            ("recipient_total_before"@, a.recipient_total_before@),
            ("recipient_total_after"@, a.recipient_total_after@),
            ("recipient_transfer_before"@, a.recipient_transfer_before@),
            ("recipient_transfer_after"@, a.recipient_transfer_after@),
            ("requester_roster_before"@, dec(a.requester_roster_before as nat)),
            ("requester_roster_after"@, dec(a.requester_roster_after as nat)),
            ("recipient_roster_before"@, dec(a.recipient_roster_before as nat)),
            ("recipient_roster_after"@, dec(a.recipient_roster_after as nat)),
            ("contracted_before"@, dec(a.contracted_before as nat)),
            ("contracted_after"@, dec(a.contracted_after as nat)),
            ("requester_payroll_after"@, a.requester_payroll_after@),
            ("recipient_payroll_after"@, a.recipient_payroll_after@),
            ("contract_inherited_both"@, bool_text(a.contract_inherited_both)),
            ("offered_status_unchanged"@, bool_text(a.offered_status_unchanged)),
            ("target_status_applied"@, bool_text(a.target_status_applied)),
            ("offered_contracted_status_unchanged"@, bool_text(a.offered_contracted_status_unchanged)),
            ("target_contracted_status_applied"@, bool_text(a.target_contracted_status_applied)),
            ("rollback_rehearsal_verified"@, bool_text(a.rollback_rehearsal_verified)),
            ("combined_finance_conserved"@, bool_text(a.combined_finance_conserved)),
            ("pre_receipt_mod_save_unchanged"@, bool_text(a.pre_receipt_mod_save_unchanged)),
            ("executed_plan_persisted"@, bool_text(a.executed_plan_persisted)),
            ("trade_receipt_persisted"@, bool_text(a.trade_receipt_persisted)),
            ("receipt_readback_verified"@, bool_text(a.receipt_readback_verified)),
            ("executed_plan_registry_count"@, dec(a.executed_plan_registry_count as nat)),
            ("offered_contract_fingerprint"@, dec(a.offered_contract_fingerprint as nat)),
            ("target_contract_fingerprint"@, dec(a.target_contract_fingerprint as nat)),
            ("commit_process_id"@, dec(a.commit_process_id as nat)),
            ("news_count_unchanged"@, bool_text(a.news_count_unchanged)),
            ("game_time"@, sanitize_spec(a.game_time@)),
            ("atomic_commit_verified"@, "true"@),
            ("rollback_performed"@, "false"@),
            ("execution_gate_closed"@, "true"@),
            ("database_mutation"@, "true"@),
            ("contract_mutation"@, "true"@),
            ("finance_mutation"@, bool_text(a.proposed_cash_won > 0)),
            ("three_receipts_preserved"@, "true"@),
            ("first_plan_id"@, "T60-89617444924FD838"@),
            ("first_plan_preserved"@, "true"@),
            ("second_plan_id"@, "T60-83270E3A33D2F105"@),
            ("second_plan_preserved"@, "true"@),
            ("squad_status_mutation"@, "true"@),
            ("contracted_squad_status_mutation"@, "true"@),
            ("mod_save_mutation"@, "true"@),
            ("transaction_executed"@, "true"@),
            ("manual_save_required"@, "true"@),
            ("manual_save_slot"@, "PTS_Test79_AfterAsyncTrade"@),
            ("save_api_called"@, "false"@),
        ]
}

/// The answer to an executed trade: every before and after value and every check.
#[verifier::rlimit(80)]
pub fn atomic_execution_payload(a: &AtomicResultPayload) -> (bytes: Vec<u8>)
    ensures
        bytes@ == payload_bytes(atomic_fields(*a)),
{
    let mut fields: Vec<(&str, Vec<char>)> = Vec::new();
    fields.push(("status", chars_of("ok")));
    fields.push(("plan_id", chars_of(a.plan_id.as_str())));
    fields.push(("requester_team_id", decimal(a.requester_team_id as u64)));
    fields.push(("recipient_team_id", decimal(a.recipient_team_id as u64)));
    fields.push(("offered_id", decimal(a.offered_id as u64)));
    fields.push(("target_id", decimal(a.target_id as u64)));
    fields.push(("offered_name", sanitize_chars(chars_of(a.offered_name.as_str()).as_slice())));
    fields.push(("target_name", sanitize_chars(chars_of(a.target_name.as_str()).as_slice())));
    fields.push(("proposed_cash_won", decimal(a.proposed_cash_won)));
    fields.push(("proposed_cash_within_server_range", chars_of("true")));
    fields.push(("desired_status_choice", decimal(a.desired_status_choice as u64)));
    fields.push(("desired_status_key", chars_of(a.desired_status_key.as_str())));
    fields.push(("desired_status_label", chars_of(a.desired_status_label.as_str())));
    fields.push(("offered_team_before", decimal(a.offered_team_before as u64)));
    fields.push(("offered_team_after", decimal(a.offered_team_after as u64)));
    fields.push(("target_team_before", decimal(a.target_team_before as u64)));
    fields.push(("target_team_after", decimal(a.target_team_after as u64)));
    fields.push(("target_status_before", sanitize_chars(chars_of(a.target_status_before.as_str()).as_slice())));
    fields.push(("target_status_after", sanitize_chars(chars_of(a.target_status_after.as_str()).as_slice())));
    fields.push(("offered_contracted_status_before", sanitize_chars(chars_of(a.offered_contracted_status_before.as_str()).as_slice())));
    fields.push(("offered_contracted_status_after", sanitize_chars(chars_of(a.offered_contracted_status_after.as_str()).as_slice())));
    fields.push(("target_contracted_status_before", sanitize_chars(chars_of(a.target_contracted_status_before.as_str()).as_slice())));
    fields.push(("target_contracted_status_after", sanitize_chars(chars_of(a.target_contracted_status_after.as_str()).as_slice())));
    fields.push(("requester_total_before", chars_of(a.requester_total_before.as_str())));
    fields.push(("requester_total_after", chars_of(a.requester_total_after.as_str())));
    fields.push(("requester_transfer_before", chars_of(a.requester_transfer_before.as_str())));
    fields.push(("requester_transfer_after", chars_of(a.requester_transfer_after.as_str())));
    fields.push(("recipient_total_before", chars_of(a.recipient_total_before.as_str())));
    fields.push(("recipient_total_after", chars_of(a.recipient_total_after.as_str())));
    fields.push(("recipient_transfer_before", chars_of(a.recipient_transfer_before.as_str())));
    fields.push(("recipient_transfer_after", chars_of(a.recipient_transfer_after.as_str())));
    fields.push(("requester_roster_before", decimal(a.requester_roster_before as u64)));
    fields.push(("requester_roster_after", decimal(a.requester_roster_after as u64)));
    fields.push(("recipient_roster_before", decimal(a.recipient_roster_before as u64)));
    fields.push(("recipient_roster_after", decimal(a.recipient_roster_after as u64)));
    fields.push(("contracted_before", decimal(a.contracted_before as u64)));
    fields.push(("contracted_after", decimal(a.contracted_after as u64)));
    fields.push(("requester_payroll_after", chars_of(a.requester_payroll_after.as_str())));
    fields.push(("recipient_payroll_after", chars_of(a.recipient_payroll_after.as_str())));
    fields.push(("contract_inherited_both", bool_chars(a.contract_inherited_both)));
    fields.push(("offered_status_unchanged", bool_chars(a.offered_status_unchanged)));
    fields.push(("target_status_applied", bool_chars(a.target_status_applied)));
    fields.push(("offered_contracted_status_unchanged", bool_chars(a.offered_contracted_status_unchanged)));
    fields.push(("target_contracted_status_applied", bool_chars(a.target_contracted_status_applied)));
    fields.push(("rollback_rehearsal_verified", bool_chars(a.rollback_rehearsal_verified)));
    fields.push(("combined_finance_conserved", bool_chars(a.combined_finance_conserved)));
    fields.push(("pre_receipt_mod_save_unchanged", bool_chars(a.pre_receipt_mod_save_unchanged)));
    fields.push(("executed_plan_persisted", bool_chars(a.executed_plan_persisted)));
    fields.push(("trade_receipt_persisted", bool_chars(a.trade_receipt_persisted)));
    fields.push(("receipt_readback_verified", bool_chars(a.receipt_readback_verified)));
    fields.push(("executed_plan_registry_count", decimal(a.executed_plan_registry_count as u64)));
    fields.push(("offered_contract_fingerprint", decimal(a.offered_contract_fingerprint)));
    fields.push(("target_contract_fingerprint", decimal(a.target_contract_fingerprint)));
    fields.push(("commit_process_id", decimal(a.commit_process_id as u64)));
    fields.push(("news_count_unchanged", bool_chars(a.news_count_unchanged)));
    fields.push(("game_time", sanitize_chars(chars_of(a.game_time.as_str()).as_slice())));
    fields.push(("atomic_commit_verified", chars_of("true")));
    fields.push(("rollback_performed", chars_of("false")));
    fields.push(("execution_gate_closed", chars_of("true")));
    fields.push(("database_mutation", chars_of("true")));
    fields.push(("contract_mutation", chars_of("true")));
    fields.push(("finance_mutation", bool_chars(a.proposed_cash_won > 0)));
    fields.push(("three_receipts_preserved", chars_of("true")));
    fields.push(("first_plan_id", chars_of("T60-89617444924FD838")));
    fields.push(("first_plan_preserved", chars_of("true")));
    fields.push(("second_plan_id", chars_of("T60-83270E3A33D2F105")));
    fields.push(("second_plan_preserved", chars_of("true")));
    fields.push(("squad_status_mutation", chars_of("true")));
    fields.push(("contracted_squad_status_mutation", chars_of("true")));
    fields.push(("mod_save_mutation", chars_of("true")));
    fields.push(("transaction_executed", chars_of("true")));
    fields.push(("manual_save_required", chars_of("true")));
    fields.push(("manual_save_slot", chars_of("PTS_Test79_AfterAsyncTrade")));
    fields.push(("save_api_called", chars_of("false")));
    let ghost view = fields@.map_values(|f: (&str, Vec<char>)| (f.0@, f.1@));
    assert(view =~= atomic_fields(*a));
    let out = render_fields(&fields);
    utf8_bytes(out.as_slice())
}

} // verus!

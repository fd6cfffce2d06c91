//! The client's readings of the server's answers: each answer's fields are
//! read in order and checked against the promises the server makes (the
//! first missing or malformed field, or the first broken promise, is the
//! error).  Floating-point amounts are kept as the text they were sent as.
use vstd::prelude::*;
use crate::fields::{
    at_most, bool_field, bool_of, lemma_parse_unsigned_max, need_at_most, need_bool, need_num, need_text, num_field,
    num_of, text_field, DecodeError, DecodeFault,
};
use crate::kv::KvPayload;
use crate::plan::{plan_id_chars_ok, plan_id_ok};
use crate::text::{all_hex_digits, chars_eq, chars_of, is_hex_digit, parse_decimal, parse_unsigned, string_of};
use crate::commit::status_key_of;
use crate::fields::lemma_dec_value_ok;
use crate::kv::{fields_map, fields_ok, key_ok, lemma_fields_map_distinct, lemma_render_roundtrip, read_payload, value_ok};
use crate::payload::{payload_bytes, quote_fields, QuotePayload};
use crate::text::{lemma_parse_dec, sanitize_spec};

verus! {

/// A promise of the server that an answer breaks.
#[derive(Clone, Copy, Debug, PartialEq, Eq, Structural)]
pub enum ViewCheck {
    /// A quote that is not obscured, discloses the threshold, or is not stable.
    QuoteContract,
    /// A quote whose range is empty.
    QuoteRange,
    /// A review that reports an executed transaction.
    UnexpectedExecution,
    /// A review whose offer lies outside its range.
    ReviewRange,
    /// An approved review without a valid sealed command.
    ReviewEnvelope,
    /// A review both approved and rejected, or neither.
    ReviewInconsistent,
    /// A rejection without valid ledger and news evidence.
    ReviewEvidence,
    /// A commit result without every promised effect.
    ExecuteIncomplete,
    /// A commit result with an invalid or historical plan id.
    ExecutePlan,
    /// A commit result whose teams or players do not swap.
    ExecuteInconsistent,
    /// A commit result whose status key does not match its choice.
    ExecuteStatusMismatch,
}

/// Why an answer could not be read.
#[derive(Debug, PartialEq, Eq)]
pub enum ViewError {
    Field(DecodeError),
    Check(ViewCheck),
    /// The answer reports an error with this detail.
    Detail(String),
}

pub enum ViewFault {
    Field(DecodeFault),
    Check(ViewCheck),
    Detail(Seq<char>),
}

impl View for ViewError {
    type V = ViewFault;

    open spec fn view(&self) -> ViewFault {
        match self {
            ViewError::Field(e) => ViewFault::Field(e@),
            ViewError::Check(c) => ViewFault::Check(*c),
            ViewError::Detail(d) => ViewFault::Detail(d@),
        }
    }
}

/// An optional flag: `true` only when present and `true`, else `default`.
pub open spec fn lenient_flag_spec(m: Map<Seq<char>, Seq<char>>, k: Seq<char>, default: bool) -> bool {
    if m.contains_key(k) {
        m[k] == "true"@
    } else {
        default
    }
}

pub fn lenient_flag(m: &KvPayload, key: &str, default: bool) -> (b: bool)
    ensures
        b == lenient_flag_spec(m@, key@, default),
{
    match m.get_str(key) {
        Some(v) => {
            let t = chars_of("true");
            chars_eq(v.as_slice(), t.as_slice())
        },
        None => default,
    }
}

/// An optional number: its value when present and readable, else zero.
pub open spec fn lenient_num_spec(m: Map<Seq<char>, Seq<char>>, k: Seq<char>) -> u64 {
    if m.contains_key(k) && parse_unsigned(m[k], u64::MAX as nat) is Some {
        parse_unsigned(m[k], u64::MAX as nat)->0 as u64
    } else {
        0
    }
}

pub fn lenient_num(m: &KvPayload, key: &str) -> (n: u64)
    ensures
        n == lenient_num_spec(m@, key@),
{
    match m.get_str(key) {
        Some(v) => match parse_decimal(v.as_slice(), u64::MAX) {
            Some(n) => n,
            None => 0,
        },
        None => 0,
    }
}

/// An optional text: its value when present, else `default`.
pub open spec fn lenient_text_spec(m: Map<Seq<char>, Seq<char>>, k: Seq<char>, default: Seq<char>) -> Seq<char> {
    if m.contains_key(k) {
        m[k]
    } else {
        default
    }
}

pub fn lenient_text(m: &KvPayload, key: &str, default: &str) -> (s: String)
    ensures
        s@ == lenient_text_spec(m@, key@, default@),
{
    match m.get_str(key) {
        Some(v) => string_of(v.as_slice()),
        None => string_of(chars_of(default).as_slice()),
    }
}

/// Sixteen hexadecimal digits.
pub open spec fn hex16_text(s: Seq<char>) -> bool {
    s.len() == 16 && all_hex_digits(s)
}

pub fn hex16_text_exec(s: &String) -> (b: bool)
    ensures
        b == hex16_text(s@),
{
    let c = chars_of(s.as_str());
    if c.len() != 16 {
        return false;
    }
    let mut i: usize = 0;
    while i < 16
        invariant
            c@.len() == 16,
            c@ == s@,
            i <= 16,
            forall|j: int| 0 <= j < i ==> is_hex_digit(#[trigger] c@[j]),
        decreases 16 - i,
    {
        let x = c[i];
        if !(('0' <= x && x <= '9') || ('a' <= x && x <= 'f') || ('A' <= x && x <= 'F')) {
            assert(!is_hex_digit(c@[i as int]));
            return false;
        }
        i = i + 1;
    }
    true
}

fn text_is(a: &String, b: &str) -> (r: bool)
    ensures
        r == (a@ == b@),
{
    let x = chars_of(a.as_str());
    let y = chars_of(b);
    chars_eq(x.as_slice(), y.as_slice())
}

fn plan_ok(s: &String) -> (r: bool)
    ensures
        r == plan_id_ok(s@),
{
    let c = chars_of(s.as_str());
    plan_id_chars_ok(c.as_slice())
}

/// A quote as the client reads it (the budget as the text sent).
#[derive(Debug, PartialEq, Eq)]
pub struct QuoteView {
    pub cooldown_present: bool,
    pub cooldown_fingerprint: u64,
    pub cooldown_retry_at: String,
    pub cooldown_changeable: bool,
    pub cooldown_exempt: bool,
    pub requester_team_id: usize,
    pub recipient_team_id: usize,
    pub offered_id: usize,
    pub target_id: usize,
    pub offered_name: String,
    pub target_name: String,
    pub required_cash_won: u64,
    pub required_units: u64,
    pub cash_offer_max_units: u64,
    pub cash_range_obscured: bool,
    pub exact_threshold_disclosed: bool,
    pub cash_budget_won: String,
    pub budget_units: u64,
}

/// The same, with text as character sequences.
pub struct QuoteViewV {
    pub cooldown_present: bool,
    pub cooldown_fingerprint: u64,
    pub cooldown_retry_at: Seq<char>,
    pub cooldown_changeable: bool,
    pub cooldown_exempt: bool,
    pub requester_team_id: usize,
    pub recipient_team_id: usize,
    pub offered_id: usize,
    pub target_id: usize,
    pub offered_name: Seq<char>,
    pub target_name: Seq<char>,
    pub required_cash_won: u64,
    pub required_units: u64,
    pub cash_offer_max_units: u64,
    pub cash_range_obscured: bool,
    pub exact_threshold_disclosed: bool,
    pub cash_budget_won: Seq<char>,
    pub budget_units: u64,
}

impl View for QuoteView {
    type V = QuoteViewV;

    open spec fn view(&self) -> QuoteViewV {
        QuoteViewV {
            cooldown_present: self.cooldown_present,
            cooldown_fingerprint: self.cooldown_fingerprint,
            cooldown_retry_at: self.cooldown_retry_at@,
            cooldown_changeable: self.cooldown_changeable,
            cooldown_exempt: self.cooldown_exempt,
            requester_team_id: self.requester_team_id,
            recipient_team_id: self.recipient_team_id,
            offered_id: self.offered_id,
            target_id: self.target_id,
            offered_name: self.offered_name@,
            target_name: self.target_name@,
            required_cash_won: self.required_cash_won,
            required_units: self.required_units,
            cash_offer_max_units: self.cash_offer_max_units,
            cash_range_obscured: self.cash_range_obscured,
            exact_threshold_disclosed: self.exact_threshold_disclosed,
            cash_budget_won: self.cash_budget_won@,
            budget_units: self.budget_units,
        }
    }
}

#[verifier::opaque]
pub open spec fn parse_quote_view_spec(m: Map<Seq<char>, Seq<char>>) -> Result<QuoteViewV, ViewFault> {
    if need_bool(m, "cash_range_obscured"@) is Some {
        Err(ViewFault::Field(need_bool(m, "cash_range_obscured"@)->0))
    } else if !bool_of(m, "cash_range_obscured"@) {
        Err(ViewFault::Check(ViewCheck::QuoteContract))
    } else if need_bool(m, "exact_threshold_disclosed"@) is Some {
        Err(ViewFault::Field(need_bool(m, "exact_threshold_disclosed"@)->0))
    } else if bool_of(m, "exact_threshold_disclosed"@) {
        Err(ViewFault::Check(ViewCheck::QuoteContract))
    } else if need_bool(m, "range_stable_for_pair"@) is Some {
        Err(ViewFault::Field(need_bool(m, "range_stable_for_pair"@)->0))
    } else if !bool_of(m, "range_stable_for_pair"@) {
        Err(ViewFault::Check(ViewCheck::QuoteContract))
    } else if need_num(m, "display_min_units"@, u64::MAX as nat) is Some {
        Err(ViewFault::Field(need_num(m, "display_min_units"@, u64::MAX as nat)->0))
    } else if need_num(m, "display_max_units"@, u64::MAX as nat) is Some {
        Err(ViewFault::Field(need_num(m, "display_max_units"@, u64::MAX as nat)->0))
    } else if need_num(m, "budget_units"@, u64::MAX as nat) is Some {
        Err(ViewFault::Field(need_num(m, "budget_units"@, u64::MAX as nat)->0))
    } else if (num_of(m, "display_min_units"@) as u64) > (num_of(m, "display_max_units"@) as u64) {
        Err(ViewFault::Check(ViewCheck::QuoteRange))
    } else if need_num(m, "requester_team_id"@, usize::MAX as nat) is Some {
        Err(ViewFault::Field(need_num(m, "requester_team_id"@, usize::MAX as nat)->0))
    } else if need_num(m, "recipient_team_id"@, usize::MAX as nat) is Some {
        Err(ViewFault::Field(need_num(m, "recipient_team_id"@, usize::MAX as nat)->0))
    } else if need_num(m, "offered_id"@, usize::MAX as nat) is Some {
        Err(ViewFault::Field(need_num(m, "offered_id"@, usize::MAX as nat)->0))
    } else if need_num(m, "target_id"@, usize::MAX as nat) is Some {
        Err(ViewFault::Field(need_num(m, "target_id"@, usize::MAX as nat)->0))
    } else if need_text(m, "offered_name"@) is Some {
        Err(ViewFault::Field(need_text(m, "offered_name"@)->0))
    } else if need_text(m, "target_name"@) is Some {
        Err(ViewFault::Field(need_text(m, "target_name"@)->0))
    } else if need_text(m, "cash_budget_won"@) is Some {
        Err(ViewFault::Field(need_text(m, "cash_budget_won"@)->0))
    } else {
        Ok(QuoteViewV {
            cooldown_present: lenient_flag_spec(m, "cooldown_present"@, false),
            cooldown_fingerprint: lenient_num_spec(m, "cooldown_fingerprint"@),
            cooldown_retry_at: lenient_text_spec(m, "cooldown_retry_at"@, ""@),
            cooldown_changeable: lenient_flag_spec(m, "cooldown_changeable"@, true),
            cooldown_exempt: lenient_flag_spec(m, "cooldown_exempt"@, false),
            requester_team_id: (num_of(m, "requester_team_id"@) as usize),
            recipient_team_id: (num_of(m, "recipient_team_id"@) as usize),
            offered_id: (num_of(m, "offered_id"@) as usize),
            target_id: (num_of(m, "target_id"@) as usize),
            offered_name: m["offered_name"@],
            target_name: m["target_name"@],
            required_cash_won: 0,
            required_units: (num_of(m, "display_min_units"@) as u64),
            cash_offer_max_units: (num_of(m, "display_max_units"@) as u64),
            cash_range_obscured: true,
            exact_threshold_disclosed: false,
            cash_budget_won: m["cash_budget_won"@],
            budget_units: (num_of(m, "budget_units"@) as u64),
        })
    }
}

/// Reads a quote answer: the range must be obscured, stable and nonempty.
#[verifier::rlimit(60)]
pub fn parse_quote_view(m: &KvPayload) -> (r: Result<QuoteView, ViewError>)
    ensures
        match parse_quote_view_spec(m@) {
            Ok(v) => r matches Ok(x) && x@ == v,
            Err(f) => r matches Err(e) && e@ == f,
        },
{
    proof {
        reveal(parse_quote_view_spec);
    }
    let a = match bool_field(m, "cash_range_obscured") { Ok(v) => v, Err(e) => return Err(ViewError::Field(e)) };
    if !a {
        return Err(ViewError::Check(ViewCheck::QuoteContract));
    }
    let b = match bool_field(m, "exact_threshold_disclosed") { Ok(v) => v, Err(e) => return Err(ViewError::Field(e)) };
    if b {
        return Err(ViewError::Check(ViewCheck::QuoteContract));
    }
    let c = match bool_field(m, "range_stable_for_pair") { Ok(v) => v, Err(e) => return Err(ViewError::Field(e)) };
    if !c {
        return Err(ViewError::Check(ViewCheck::QuoteContract));
    }
    let dmin = match num_field(m, "display_min_units", u64::MAX) { Ok(v) => v, Err(e) => return Err(ViewError::Field(e)) };
    let dmax = match num_field(m, "display_max_units", u64::MAX) { Ok(v) => v, Err(e) => return Err(ViewError::Field(e)) };
    let budget_units = match num_field(m, "budget_units", u64::MAX) { Ok(v) => v, Err(e) => return Err(ViewError::Field(e)) };
    if dmin > dmax {
        return Err(ViewError::Check(ViewCheck::QuoteRange));
    }
    let cp = lenient_flag(m, "cooldown_present", false);
    let cf = lenient_num(m, "cooldown_fingerprint");
    let cr = lenient_text(m, "cooldown_retry_at", "");
    let cc = lenient_flag(m, "cooldown_changeable", true);
    let ce = lenient_flag(m, "cooldown_exempt", false);
    let requester_team_id_raw = match num_field(m, "requester_team_id", usize::MAX as u64) { Ok(v) => v, Err(e) => return Err(ViewError::Field(e)) };
    proof { lemma_parse_unsigned_max(m@["requester_team_id"@], usize::MAX as nat, u64::MAX as nat); }
    let requester_team_id = requester_team_id_raw as usize;
    let recipient_team_id_raw = match num_field(m, "recipient_team_id", usize::MAX as u64) { Ok(v) => v, Err(e) => return Err(ViewError::Field(e)) };
    proof { lemma_parse_unsigned_max(m@["recipient_team_id"@], usize::MAX as nat, u64::MAX as nat); }
    let recipient_team_id = recipient_team_id_raw as usize;
    let offered_id_raw = match num_field(m, "offered_id", usize::MAX as u64) { Ok(v) => v, Err(e) => return Err(ViewError::Field(e)) };
    proof { lemma_parse_unsigned_max(m@["offered_id"@], usize::MAX as nat, u64::MAX as nat); }
    let offered_id = offered_id_raw as usize;
    let target_id_raw = match num_field(m, "target_id", usize::MAX as u64) { Ok(v) => v, Err(e) => return Err(ViewError::Field(e)) };
    proof { lemma_parse_unsigned_max(m@["target_id"@], usize::MAX as nat, u64::MAX as nat); }
    let target_id = target_id_raw as usize;
    let offered_name = match text_field(m, "offered_name") { Ok(v) => v, Err(e) => return Err(ViewError::Field(e)) };
    let target_name = match text_field(m, "target_name") { Ok(v) => v, Err(e) => return Err(ViewError::Field(e)) };
    let budget = match text_field(m, "cash_budget_won") { Ok(v) => v, Err(e) => return Err(ViewError::Field(e)) };
    Ok(QuoteView {
        cooldown_present: cp,
        cooldown_fingerprint: cf,
        cooldown_retry_at: cr,
        cooldown_changeable: cc,
        cooldown_exempt: ce,
        requester_team_id: requester_team_id,
        recipient_team_id: recipient_team_id,
        offered_id: offered_id,
        target_id: target_id,
        offered_name: offered_name,
        target_name: target_name,
        required_cash_won: 0,
        required_units: dmin,
        cash_offer_max_units: dmax,
        cash_range_obscured: true,
        exact_threshold_disclosed: false,
        cash_budget_won: budget,
        budget_units: budget_units,
    })
}

/// A review as the client reads it (the salary as the text sent).
#[derive(Debug, PartialEq, Eq)]
pub struct ReviewView {
    pub offered_name: String,
    pub offered_id: usize,
    pub target_id: usize,
    pub target_name: String,
    pub proposed_units: u64,
    pub desired_status_choice: u8,
    pub desired_status_label: String,
    pub seller_accepted: bool,
    pub player_accepted: bool,
    pub overall_approved: bool,
    pub requested_years: usize,
    pub inherited_yearly_salary: String,
    pub command_envelope_prepared: bool,
    pub plan_id: String,
    pub plan_repeat_consistent: bool,
    pub execution_gate_closed: bool,
    pub rejection_present: bool,
    pub rejection_actor_ko: String,
    pub rejection_reason: String,
    pub rejection_reason_ko: String,
    pub rejection_policy: String,
    pub rejection_retry_at: String,
    pub rejection_retry_ko: String,
    pub rejection_package_fingerprint: String,
    pub rejection_feedback_id: String,
    pub rejection_cooldown_blocked: bool,
    pub rejection_news_created: bool,
    pub rejection_duplicate_news_count: usize,
    pub rejection_ledger_entry_count: usize,
}

/// The same, with text as character sequences.
pub struct ReviewViewV {
    pub offered_name: Seq<char>,
    pub offered_id: usize,
    pub target_id: usize,
    pub target_name: Seq<char>,
    pub proposed_units: u64,
    pub desired_status_choice: u8,
    pub desired_status_label: Seq<char>,
    pub seller_accepted: bool,
    pub player_accepted: bool,
    pub overall_approved: bool,
    pub requested_years: usize,
    pub inherited_yearly_salary: Seq<char>,
    pub command_envelope_prepared: bool,
    pub plan_id: Seq<char>,
    pub plan_repeat_consistent: bool,
    pub execution_gate_closed: bool,
    pub rejection_present: bool,
    pub rejection_actor_ko: Seq<char>,
    pub rejection_reason: Seq<char>,
    pub rejection_reason_ko: Seq<char>,
    pub rejection_policy: Seq<char>,
    pub rejection_retry_at: Seq<char>,
    pub rejection_retry_ko: Seq<char>,
    pub rejection_package_fingerprint: Seq<char>,
    pub rejection_feedback_id: Seq<char>,
    pub rejection_cooldown_blocked: bool,
    pub rejection_news_created: bool,
    pub rejection_duplicate_news_count: usize,
    pub rejection_ledger_entry_count: usize,
}

impl View for ReviewView {
    type V = ReviewViewV;

    open spec fn view(&self) -> ReviewViewV {
        ReviewViewV {
            offered_name: self.offered_name@,
            offered_id: self.offered_id,
            target_id: self.target_id,
            target_name: self.target_name@,
            proposed_units: self.proposed_units,
            desired_status_choice: self.desired_status_choice,
            desired_status_label: self.desired_status_label@,
            seller_accepted: self.seller_accepted,
            player_accepted: self.player_accepted,
            overall_approved: self.overall_approved,
            requested_years: self.requested_years,
            inherited_yearly_salary: self.inherited_yearly_salary@,
            command_envelope_prepared: self.command_envelope_prepared,
            plan_id: self.plan_id@,
            plan_repeat_consistent: self.plan_repeat_consistent,
            execution_gate_closed: self.execution_gate_closed,
            rejection_present: self.rejection_present,
            rejection_actor_ko: self.rejection_actor_ko@,
            rejection_reason: self.rejection_reason@,
            rejection_reason_ko: self.rejection_reason_ko@,
            rejection_policy: self.rejection_policy@,
            rejection_retry_at: self.rejection_retry_at@,
            rejection_retry_ko: self.rejection_retry_ko@,
            rejection_package_fingerprint: self.rejection_package_fingerprint@,
            rejection_feedback_id: self.rejection_feedback_id@,
            rejection_cooldown_blocked: self.rejection_cooldown_blocked,
            rejection_news_created: self.rejection_news_created,
            rejection_duplicate_news_count: self.rejection_duplicate_news_count,
            rejection_ledger_entry_count: self.rejection_ledger_entry_count,
        }
    }
}

#[verifier::opaque]
pub open spec fn parse_review_view_spec(m: Map<Seq<char>, Seq<char>>) -> Result<ReviewViewV, ViewFault> {
    if need_bool(m, "transaction_executed"@) is Some {
        Err(ViewFault::Field(need_bool(m, "transaction_executed"@)->0))
    } else if bool_of(m, "transaction_executed"@) {
        Err(ViewFault::Check(ViewCheck::UnexpectedExecution))
    } else if need_num(m, "proposed_units"@, u64::MAX as nat) is Some {
        Err(ViewFault::Field(need_num(m, "proposed_units"@, u64::MAX as nat)->0))
    } else if need_num(m, "cash_offer_min_units"@, u64::MAX as nat) is Some {
        Err(ViewFault::Field(need_num(m, "cash_offer_min_units"@, u64::MAX as nat)->0))
    } else if need_num(m, "cash_offer_max_units"@, u64::MAX as nat) is Some {
        Err(ViewFault::Field(need_num(m, "cash_offer_max_units"@, u64::MAX as nat)->0))
    } else if need_bool(m, "proposed_cash_within_server_range"@) is Some {
        Err(ViewFault::Field(need_bool(m, "proposed_cash_within_server_range"@)->0))
    } else if !bool_of(m, "proposed_cash_within_server_range"@) || (num_of(m, "cash_offer_min_units"@) as u64) > (num_of(m, "cash_offer_max_units"@) as u64) || (num_of(m, "proposed_units"@) as u64) < (num_of(m, "cash_offer_min_units"@) as u64) || (num_of(m, "proposed_units"@) as u64) > (num_of(m, "cash_offer_max_units"@) as u64) {
        Err(ViewFault::Check(ViewCheck::ReviewRange))
    } else if need_num(m, "desired_status_choice"@, u64::MAX as nat) is Some {
        Err(ViewFault::Field(need_num(m, "desired_status_choice"@, u64::MAX as nat)->0))
    } else if need_at_most(m, "desired_status_choice"@, 255) is Some {
        Err(ViewFault::Field(need_at_most(m, "desired_status_choice"@, 255)->0))
    } else if need_bool(m, "overall_approved"@) is Some {
        Err(ViewFault::Field(need_bool(m, "overall_approved"@)->0))
    } else if need_bool(m, "command_envelope_prepared"@) is Some {
        Err(ViewFault::Field(need_bool(m, "command_envelope_prepared"@)->0))
    } else if need_text(m, "plan_id"@) is Some {
        Err(ViewFault::Field(need_text(m, "plan_id"@)->0))
    } else if need_bool(m, "plan_repeat_consistent"@) is Some {
        Err(ViewFault::Field(need_bool(m, "plan_repeat_consistent"@)->0))
    } else if need_bool(m, "execution_gate_closed"@) is Some {
        Err(ViewFault::Field(need_bool(m, "execution_gate_closed"@)->0))
    } else if need_bool(m, "rejection_present"@) is Some {
        Err(ViewFault::Field(need_bool(m, "rejection_present"@)->0))
    } else if need_text(m, "rejection_package_fingerprint"@) is Some {
        Err(ViewFault::Field(need_text(m, "rejection_package_fingerprint"@)->0))
    } else if need_text(m, "rejection_feedback_id"@) is Some {
        Err(ViewFault::Field(need_text(m, "rejection_feedback_id"@)->0))
    } else if need_bool(m, "rejection_cooldown_blocked"@) is Some {
        Err(ViewFault::Field(need_bool(m, "rejection_cooldown_blocked"@)->0))
    } else if need_bool(m, "rejection_news_created"@) is Some {
        Err(ViewFault::Field(need_bool(m, "rejection_news_created"@)->0))
    } else if need_num(m, "rejection_duplicate_news_count"@, usize::MAX as nat) is Some {
        Err(ViewFault::Field(need_num(m, "rejection_duplicate_news_count"@, usize::MAX as nat)->0))
    } else if need_num(m, "rejection_ledger_entry_count"@, usize::MAX as nat) is Some {
        Err(ViewFault::Field(need_num(m, "rejection_ledger_entry_count"@, usize::MAX as nat)->0))
    } else if bool_of(m, "overall_approved"@) && (!bool_of(m, "command_envelope_prepared"@) || !bool_of(m, "plan_repeat_consistent"@) || !bool_of(m, "execution_gate_closed"@) || !plan_id_ok(m["plan_id"@])) {
        Err(ViewFault::Check(ViewCheck::ReviewEnvelope))
    } else if bool_of(m, "overall_approved"@) == bool_of(m, "rejection_present"@) {
        Err(ViewFault::Check(ViewCheck::ReviewInconsistent))
    } else if bool_of(m, "rejection_present"@) && (!hex16_text(m["rejection_package_fingerprint"@]) || !hex16_text(m["rejection_feedback_id"@]) || (num_of(m, "rejection_duplicate_news_count"@) as usize) != 1 || (num_of(m, "rejection_ledger_entry_count"@) as usize) == 0 || (bool_of(m, "rejection_cooldown_blocked"@) && bool_of(m, "rejection_news_created"@))) {
        Err(ViewFault::Check(ViewCheck::ReviewEvidence))
    } else if need_text(m, "offered_name"@) is Some {
        Err(ViewFault::Field(need_text(m, "offered_name"@)->0))
    } else if need_num(m, "offered_id"@, usize::MAX as nat) is Some {
        Err(ViewFault::Field(need_num(m, "offered_id"@, usize::MAX as nat)->0))
    } else if need_num(m, "target_id"@, usize::MAX as nat) is Some {
        Err(ViewFault::Field(need_num(m, "target_id"@, usize::MAX as nat)->0))
    } else if need_text(m, "target_name"@) is Some {
        Err(ViewFault::Field(need_text(m, "target_name"@)->0))
    } else if need_text(m, "desired_status_label"@) is Some {
        Err(ViewFault::Field(need_text(m, "desired_status_label"@)->0))
    } else if need_bool(m, "seller_accepted"@) is Some {
        Err(ViewFault::Field(need_bool(m, "seller_accepted"@)->0))
    } else if need_bool(m, "player_accepted"@) is Some {
        Err(ViewFault::Field(need_bool(m, "player_accepted"@)->0))
    } else if need_num(m, "requested_years"@, usize::MAX as nat) is Some {
        Err(ViewFault::Field(need_num(m, "requested_years"@, usize::MAX as nat)->0))
    } else if need_text(m, "inherited_yearly_salary"@) is Some {
        Err(ViewFault::Field(need_text(m, "inherited_yearly_salary"@)->0))
    } else if need_text(m, "rejection_actor_ko"@) is Some {
        Err(ViewFault::Field(need_text(m, "rejection_actor_ko"@)->0))
    } else if need_text(m, "rejection_reason"@) is Some {
        Err(ViewFault::Field(need_text(m, "rejection_reason"@)->0))
    } else if need_text(m, "rejection_reason_ko"@) is Some {
        Err(ViewFault::Field(need_text(m, "rejection_reason_ko"@)->0))
    } else if need_text(m, "rejection_policy"@) is Some {
        Err(ViewFault::Field(need_text(m, "rejection_policy"@)->0))
    } else if need_text(m, "rejection_retry_at"@) is Some {
        Err(ViewFault::Field(need_text(m, "rejection_retry_at"@)->0))
    } else if need_text(m, "rejection_retry_ko"@) is Some {
        Err(ViewFault::Field(need_text(m, "rejection_retry_ko"@)->0))
    } else {
        Ok(ReviewViewV {
            offered_name: m["offered_name"@],
            offered_id: (num_of(m, "offered_id"@) as usize),
            target_id: (num_of(m, "target_id"@) as usize),
            target_name: m["target_name"@],
            proposed_units: (num_of(m, "proposed_units"@) as u64),
            desired_status_choice: (num_of(m, "desired_status_choice"@) as u8),
            desired_status_label: m["desired_status_label"@],
            seller_accepted: bool_of(m, "seller_accepted"@),
            player_accepted: bool_of(m, "player_accepted"@),
            overall_approved: bool_of(m, "overall_approved"@),
            requested_years: (num_of(m, "requested_years"@) as usize),
            inherited_yearly_salary: m["inherited_yearly_salary"@],
            command_envelope_prepared: bool_of(m, "command_envelope_prepared"@),
            plan_id: m["plan_id"@],
            plan_repeat_consistent: bool_of(m, "plan_repeat_consistent"@),
            execution_gate_closed: bool_of(m, "execution_gate_closed"@),
            rejection_present: bool_of(m, "rejection_present"@),
            rejection_actor_ko: m["rejection_actor_ko"@],
            rejection_reason: m["rejection_reason"@],
            rejection_reason_ko: m["rejection_reason_ko"@],
            rejection_policy: m["rejection_policy"@],
            rejection_retry_at: m["rejection_retry_at"@],
            rejection_retry_ko: m["rejection_retry_ko"@],
            rejection_package_fingerprint: m["rejection_package_fingerprint"@],
            rejection_feedback_id: m["rejection_feedback_id"@],
            rejection_cooldown_blocked: bool_of(m, "rejection_cooldown_blocked"@),
            rejection_news_created: bool_of(m, "rejection_news_created"@),
            rejection_duplicate_news_count: (num_of(m, "rejection_duplicate_news_count"@) as usize),
            rejection_ledger_entry_count: (num_of(m, "rejection_ledger_entry_count"@) as usize),
        })
    }
}

/// Reads a review answer: nothing executed, the offer in range, an approval with a valid sealed command or a rejection with its evidence, never both.
#[verifier::rlimit(60)]
pub fn parse_review_view(m: &KvPayload) -> (r: Result<ReviewView, ViewError>)
    ensures
        match parse_review_view_spec(m@) {
            Ok(v) => r matches Ok(x) && x@ == v,
            Err(f) => r matches Err(e) && e@ == f,
        },
{
    proof {
        reveal(parse_review_view_spec);
    }
    let te = match bool_field(m, "transaction_executed") { Ok(v) => v, Err(e) => return Err(ViewError::Field(e)) };
    if te {
        return Err(ViewError::Check(ViewCheck::UnexpectedExecution));
    }
    let units = match num_field(m, "proposed_units", u64::MAX) { Ok(v) => v, Err(e) => return Err(ViewError::Field(e)) };
    let cmin = match num_field(m, "cash_offer_min_units", u64::MAX) { Ok(v) => v, Err(e) => return Err(ViewError::Field(e)) };
    let cmax = match num_field(m, "cash_offer_max_units", u64::MAX) { Ok(v) => v, Err(e) => return Err(ViewError::Field(e)) };
    let inrange = match bool_field(m, "proposed_cash_within_server_range") { Ok(v) => v, Err(e) => return Err(ViewError::Field(e)) };
    if !inrange || cmin > cmax || units < cmin || units > cmax {
        return Err(ViewError::Check(ViewCheck::ReviewRange));
    }
    let choice_raw = match num_field(m, "desired_status_choice", u64::MAX) { Ok(v) => v, Err(e) => return Err(ViewError::Field(e)) };
    match at_most(choice_raw, "desired_status_choice", 255) { Ok(()) => {}, Err(e) => return Err(ViewError::Field(e)) }
    let choice = choice_raw as u8;
    let approved = match bool_field(m, "overall_approved") { Ok(v) => v, Err(e) => return Err(ViewError::Field(e)) };
    let prepared = match bool_field(m, "command_envelope_prepared") { Ok(v) => v, Err(e) => return Err(ViewError::Field(e)) };
    let plan_id = match text_field(m, "plan_id") { Ok(v) => v, Err(e) => return Err(ViewError::Field(e)) };
    let repeat = match bool_field(m, "plan_repeat_consistent") { Ok(v) => v, Err(e) => return Err(ViewError::Field(e)) };
    let gate = match bool_field(m, "execution_gate_closed") { Ok(v) => v, Err(e) => return Err(ViewError::Field(e)) };
    let rej = match bool_field(m, "rejection_present") { Ok(v) => v, Err(e) => return Err(ViewError::Field(e)) };
    let fp = match text_field(m, "rejection_package_fingerprint") { Ok(v) => v, Err(e) => return Err(ViewError::Field(e)) };
    let fid = match text_field(m, "rejection_feedback_id") { Ok(v) => v, Err(e) => return Err(ViewError::Field(e)) };
    let blocked = match bool_field(m, "rejection_cooldown_blocked") { Ok(v) => v, Err(e) => return Err(ViewError::Field(e)) };
    let news = match bool_field(m, "rejection_news_created") { Ok(v) => v, Err(e) => return Err(ViewError::Field(e)) };
    let dup_raw = match num_field(m, "rejection_duplicate_news_count", usize::MAX as u64) { Ok(v) => v, Err(e) => return Err(ViewError::Field(e)) };
    proof { lemma_parse_unsigned_max(m@["rejection_duplicate_news_count"@], usize::MAX as nat, u64::MAX as nat); }
    let dup = dup_raw as usize;
    let ledger_raw = match num_field(m, "rejection_ledger_entry_count", usize::MAX as u64) { Ok(v) => v, Err(e) => return Err(ViewError::Field(e)) };
    proof { lemma_parse_unsigned_max(m@["rejection_ledger_entry_count"@], usize::MAX as nat, u64::MAX as nat); }
    let ledger = ledger_raw as usize;
    if approved && (!prepared || !repeat || !gate || !plan_ok(&plan_id)) {
        return Err(ViewError::Check(ViewCheck::ReviewEnvelope));
    }
    if approved == rej {
        return Err(ViewError::Check(ViewCheck::ReviewInconsistent));
    }
    if rej && (!hex16_text_exec(&fp) || !hex16_text_exec(&fid) || dup != 1 || ledger == 0 || (blocked && news)) {
        return Err(ViewError::Check(ViewCheck::ReviewEvidence));
    }
    let offered_name = match text_field(m, "offered_name") { Ok(v) => v, Err(e) => return Err(ViewError::Field(e)) };
    let offered_id_raw = match num_field(m, "offered_id", usize::MAX as u64) { Ok(v) => v, Err(e) => return Err(ViewError::Field(e)) };
    proof { lemma_parse_unsigned_max(m@["offered_id"@], usize::MAX as nat, u64::MAX as nat); }
    let offered_id = offered_id_raw as usize;
    let target_id_raw = match num_field(m, "target_id", usize::MAX as u64) { Ok(v) => v, Err(e) => return Err(ViewError::Field(e)) };
    proof { lemma_parse_unsigned_max(m@["target_id"@], usize::MAX as nat, u64::MAX as nat); }
    let target_id = target_id_raw as usize;
    let target_name = match text_field(m, "target_name") { Ok(v) => v, Err(e) => return Err(ViewError::Field(e)) };
    let label = match text_field(m, "desired_status_label") { Ok(v) => v, Err(e) => return Err(ViewError::Field(e)) };
    let seller = match bool_field(m, "seller_accepted") { Ok(v) => v, Err(e) => return Err(ViewError::Field(e)) };
    let player = match bool_field(m, "player_accepted") { Ok(v) => v, Err(e) => return Err(ViewError::Field(e)) };
    let years_raw = match num_field(m, "requested_years", usize::MAX as u64) { Ok(v) => v, Err(e) => return Err(ViewError::Field(e)) };
    proof { lemma_parse_unsigned_max(m@["requested_years"@], usize::MAX as nat, u64::MAX as nat); }
    let years = years_raw as usize;
    let salary = match text_field(m, "inherited_yearly_salary") { Ok(v) => v, Err(e) => return Err(ViewError::Field(e)) };
    let actor_ko = match text_field(m, "rejection_actor_ko") { Ok(v) => v, Err(e) => return Err(ViewError::Field(e)) };
    let reason = match text_field(m, "rejection_reason") { Ok(v) => v, Err(e) => return Err(ViewError::Field(e)) };
    let reason_ko = match text_field(m, "rejection_reason_ko") { Ok(v) => v, Err(e) => return Err(ViewError::Field(e)) };
    let policy = match text_field(m, "rejection_policy") { Ok(v) => v, Err(e) => return Err(ViewError::Field(e)) };
    let retry_at = match text_field(m, "rejection_retry_at") { Ok(v) => v, Err(e) => return Err(ViewError::Field(e)) };
    let retry_ko = match text_field(m, "rejection_retry_ko") { Ok(v) => v, Err(e) => return Err(ViewError::Field(e)) };
    Ok(ReviewView {
        offered_name: offered_name,
        offered_id: offered_id,
        target_id: target_id,
        target_name: target_name,
        proposed_units: units,
        desired_status_choice: choice,
        desired_status_label: label,
        seller_accepted: seller,
        player_accepted: player,
        overall_approved: approved,
        requested_years: years,
        inherited_yearly_salary: salary,
        command_envelope_prepared: prepared,
        plan_id: plan_id,
        plan_repeat_consistent: repeat,
        execution_gate_closed: gate,
        rejection_present: rej,
        rejection_actor_ko: actor_ko,
        rejection_reason: reason,
        rejection_reason_ko: reason_ko,
        rejection_policy: policy,
        rejection_retry_at: retry_at,
        rejection_retry_ko: retry_ko,
        rejection_package_fingerprint: fp,
        rejection_feedback_id: fid,
        rejection_cooldown_blocked: blocked,
        rejection_news_created: news,
        rejection_duplicate_news_count: dup,
        rejection_ledger_entry_count: ledger,
    })
}

/// What the client reads of a commit result before its money amounts.
#[derive(Debug, PartialEq, Eq)]
pub struct ExecuteChecks {
    pub plan_id: String,
    pub requester_team_id: usize,
    pub recipient_team_id: usize,
    pub offered_id: usize,
    pub target_id: usize,
    pub proposed_cash_won: u64,
    pub desired_status_choice: u8,
    pub offered_contracted_status_after: String,
    pub target_contracted_status_after: String,
    pub rollback_rehearsal_verified: bool,
    pub atomic_commit_verified: bool,
    pub rollback_performed: bool,
    pub execution_gate_closed: bool,
    pub pre_receipt_mod_save_unchanged: bool,
    pub executed_plan_persisted: bool,
    pub trade_receipt_persisted: bool,
    pub receipt_readback_verified: bool,
    pub executed_plan_registry_count: usize,
}

/// The same, with text as character sequences.
pub struct ExecuteChecksV {
    pub plan_id: Seq<char>,
    pub requester_team_id: usize,
    pub recipient_team_id: usize,
    pub offered_id: usize,
    pub target_id: usize,
    pub proposed_cash_won: u64,
    pub desired_status_choice: u8,
    pub offered_contracted_status_after: Seq<char>,
    pub target_contracted_status_after: Seq<char>,
    pub rollback_rehearsal_verified: bool,
    pub atomic_commit_verified: bool,
    pub rollback_performed: bool,
    pub execution_gate_closed: bool,
    pub pre_receipt_mod_save_unchanged: bool,
    pub executed_plan_persisted: bool,
    pub trade_receipt_persisted: bool,
    pub receipt_readback_verified: bool,
    pub executed_plan_registry_count: usize,
}

impl View for ExecuteChecks {
    type V = ExecuteChecksV;

    open spec fn view(&self) -> ExecuteChecksV {
        ExecuteChecksV {
            plan_id: self.plan_id@,
            requester_team_id: self.requester_team_id,
            recipient_team_id: self.recipient_team_id,
            offered_id: self.offered_id,
            target_id: self.target_id,
            proposed_cash_won: self.proposed_cash_won,
            desired_status_choice: self.desired_status_choice,
            offered_contracted_status_after: self.offered_contracted_status_after@,
            target_contracted_status_after: self.target_contracted_status_after@,
            rollback_rehearsal_verified: self.rollback_rehearsal_verified,
            atomic_commit_verified: self.atomic_commit_verified,
            rollback_performed: self.rollback_performed,
            execution_gate_closed: self.execution_gate_closed,
            pre_receipt_mod_save_unchanged: self.pre_receipt_mod_save_unchanged,
            executed_plan_persisted: self.executed_plan_persisted,
            trade_receipt_persisted: self.trade_receipt_persisted,
            receipt_readback_verified: self.receipt_readback_verified,
            executed_plan_registry_count: self.executed_plan_registry_count,
        }
    }
}

#[verifier::opaque]
pub open spec fn parse_execute_checks_spec(m: Map<Seq<char>, Seq<char>>) -> Result<ExecuteChecksV, ViewFault> {
    if need_bool(m, "transaction_executed"@) is Some {
        Err(ViewFault::Field(need_bool(m, "transaction_executed"@)->0))
    } else if need_bool(m, "atomic_commit_verified"@) is Some {
        Err(ViewFault::Field(need_bool(m, "atomic_commit_verified"@)->0))
    } else if need_bool(m, "rollback_performed"@) is Some {
        Err(ViewFault::Field(need_bool(m, "rollback_performed"@)->0))
    } else if need_bool(m, "execution_gate_closed"@) is Some {
        Err(ViewFault::Field(need_bool(m, "execution_gate_closed"@)->0))
    } else if need_bool(m, "pre_receipt_mod_save_unchanged"@) is Some {
        Err(ViewFault::Field(need_bool(m, "pre_receipt_mod_save_unchanged"@)->0))
    } else if need_bool(m, "executed_plan_persisted"@) is Some {
        Err(ViewFault::Field(need_bool(m, "executed_plan_persisted"@)->0))
    } else if need_bool(m, "trade_receipt_persisted"@) is Some {
        Err(ViewFault::Field(need_bool(m, "trade_receipt_persisted"@)->0))
    } else if need_bool(m, "receipt_readback_verified"@) is Some {
        Err(ViewFault::Field(need_bool(m, "receipt_readback_verified"@)->0))
    } else if need_bool(m, "rollback_rehearsal_verified"@) is Some {
        Err(ViewFault::Field(need_bool(m, "rollback_rehearsal_verified"@)->0))
    } else if need_num(m, "executed_plan_registry_count"@, usize::MAX as nat) is Some {
        Err(ViewFault::Field(need_num(m, "executed_plan_registry_count"@, usize::MAX as nat)->0))
    } else if need_num(m, "proposed_cash_won"@, u64::MAX as nat) is Some {
        Err(ViewFault::Field(need_num(m, "proposed_cash_won"@, u64::MAX as nat)->0))
    } else if !bool_of(m, "transaction_executed"@) || !bool_of(m, "atomic_commit_verified"@) || bool_of(m, "rollback_performed"@) || !bool_of(m, "execution_gate_closed"@) || !bool_of(m, "rollback_rehearsal_verified"@) {
        Err(ViewFault::Check(ViewCheck::ExecuteIncomplete))
    } else if need_bool(m, "proposed_cash_within_server_range"@) is Some {
        Err(ViewFault::Field(need_bool(m, "proposed_cash_within_server_range"@)->0))
    } else if !bool_of(m, "proposed_cash_within_server_range"@) {
        Err(ViewFault::Check(ViewCheck::ExecuteIncomplete))
    } else if need_bool(m, "database_mutation"@) is Some {
        Err(ViewFault::Field(need_bool(m, "database_mutation"@)->0))
    } else if !bool_of(m, "database_mutation"@) {
        Err(ViewFault::Check(ViewCheck::ExecuteIncomplete))
    } else if need_bool(m, "contract_mutation"@) is Some {
        Err(ViewFault::Field(need_bool(m, "contract_mutation"@)->0))
    } else if !bool_of(m, "contract_mutation"@) {
        Err(ViewFault::Check(ViewCheck::ExecuteIncomplete))
    } else if need_bool(m, "finance_mutation"@) is Some {
        Err(ViewFault::Field(need_bool(m, "finance_mutation"@)->0))
    } else if bool_of(m, "finance_mutation"@) != ((num_of(m, "proposed_cash_won"@) as u64) > 0) {
        Err(ViewFault::Check(ViewCheck::ExecuteIncomplete))
    } else if need_bool(m, "squad_status_mutation"@) is Some {
        Err(ViewFault::Field(need_bool(m, "squad_status_mutation"@)->0))
    } else if !bool_of(m, "squad_status_mutation"@) {
        Err(ViewFault::Check(ViewCheck::ExecuteIncomplete))
    } else if need_bool(m, "contracted_squad_status_mutation"@) is Some {
        Err(ViewFault::Field(need_bool(m, "contracted_squad_status_mutation"@)->0))
    } else if !bool_of(m, "contracted_squad_status_mutation"@) {
        Err(ViewFault::Check(ViewCheck::ExecuteIncomplete))
    } else if need_bool(m, "mod_save_mutation"@) is Some {
        Err(ViewFault::Field(need_bool(m, "mod_save_mutation"@)->0))
    } else if !bool_of(m, "mod_save_mutation"@) {
        Err(ViewFault::Check(ViewCheck::ExecuteIncomplete))
    } else if need_bool(m, "contract_inherited_both"@) is Some {
        Err(ViewFault::Field(need_bool(m, "contract_inherited_both"@)->0))
    } else if !bool_of(m, "contract_inherited_both"@) {
        Err(ViewFault::Check(ViewCheck::ExecuteIncomplete))
    } else if need_bool(m, "offered_status_unchanged"@) is Some {
        Err(ViewFault::Field(need_bool(m, "offered_status_unchanged"@)->0))
    } else if !bool_of(m, "offered_status_unchanged"@) {
        Err(ViewFault::Check(ViewCheck::ExecuteIncomplete))
    } else if need_bool(m, "target_status_applied"@) is Some {
        Err(ViewFault::Field(need_bool(m, "target_status_applied"@)->0))
    } else if !bool_of(m, "target_status_applied"@) {
        Err(ViewFault::Check(ViewCheck::ExecuteIncomplete))
    } else if need_bool(m, "offered_contracted_status_unchanged"@) is Some {
        Err(ViewFault::Field(need_bool(m, "offered_contracted_status_unchanged"@)->0))
    } else if !bool_of(m, "offered_contracted_status_unchanged"@) {
        Err(ViewFault::Check(ViewCheck::ExecuteIncomplete))
    } else if need_bool(m, "target_contracted_status_applied"@) is Some {
        Err(ViewFault::Field(need_bool(m, "target_contracted_status_applied"@)->0))
    } else if !bool_of(m, "target_contracted_status_applied"@) {
        Err(ViewFault::Check(ViewCheck::ExecuteIncomplete))
    } else if need_bool(m, "combined_finance_conserved"@) is Some {
        Err(ViewFault::Field(need_bool(m, "combined_finance_conserved"@)->0))
    } else if !bool_of(m, "combined_finance_conserved"@) {
        Err(ViewFault::Check(ViewCheck::ExecuteIncomplete))
    } else if !bool_of(m, "pre_receipt_mod_save_unchanged"@) || !bool_of(m, "executed_plan_persisted"@) || !bool_of(m, "trade_receipt_persisted"@) || !bool_of(m, "receipt_readback_verified"@) {
        Err(ViewFault::Check(ViewCheck::ExecuteIncomplete))
    } else if need_bool(m, "three_receipts_preserved"@) is Some {
        Err(ViewFault::Field(need_bool(m, "three_receipts_preserved"@)->0))
    } else if !bool_of(m, "three_receipts_preserved"@) {
        Err(ViewFault::Check(ViewCheck::ExecuteIncomplete))
    } else if need_text(m, "first_plan_id"@) is Some {
        Err(ViewFault::Field(need_text(m, "first_plan_id"@)->0))
    } else if m["first_plan_id"@] != "T60-89617444924FD838"@ {
        Err(ViewFault::Check(ViewCheck::ExecuteIncomplete))
    } else if need_bool(m, "first_plan_preserved"@) is Some {
        Err(ViewFault::Field(need_bool(m, "first_plan_preserved"@)->0))
    } else if !bool_of(m, "first_plan_preserved"@) {
        Err(ViewFault::Check(ViewCheck::ExecuteIncomplete))
    } else if need_text(m, "second_plan_id"@) is Some {
        Err(ViewFault::Field(need_text(m, "second_plan_id"@)->0))
    } else if m["second_plan_id"@] != "T60-83270E3A33D2F105"@ {
        Err(ViewFault::Check(ViewCheck::ExecuteIncomplete))
    } else if need_bool(m, "second_plan_preserved"@) is Some {
        Err(ViewFault::Field(need_bool(m, "second_plan_preserved"@)->0))
    } else if !bool_of(m, "second_plan_preserved"@) {
        Err(ViewFault::Check(ViewCheck::ExecuteIncomplete))
    } else if (num_of(m, "executed_plan_registry_count"@) as usize) < 1 {
        Err(ViewFault::Check(ViewCheck::ExecuteIncomplete))
    } else if need_bool(m, "news_count_unchanged"@) is Some {
        Err(ViewFault::Field(need_bool(m, "news_count_unchanged"@)->0))
    } else if !bool_of(m, "news_count_unchanged"@) {
        Err(ViewFault::Check(ViewCheck::ExecuteIncomplete))
    } else if need_bool(m, "manual_save_required"@) is Some {
        Err(ViewFault::Field(need_bool(m, "manual_save_required"@)->0))
    } else if !bool_of(m, "manual_save_required"@) {
        Err(ViewFault::Check(ViewCheck::ExecuteIncomplete))
    } else if need_text(m, "manual_save_slot"@) is Some {
        Err(ViewFault::Field(need_text(m, "manual_save_slot"@)->0))
    } else if m["manual_save_slot"@] != "PTS_Test79_AfterAsyncTrade"@ {
        Err(ViewFault::Check(ViewCheck::ExecuteIncomplete))
    } else if need_bool(m, "save_api_called"@) is Some {
        Err(ViewFault::Field(need_bool(m, "save_api_called"@)->0))
    } else if bool_of(m, "save_api_called"@) {
        Err(ViewFault::Check(ViewCheck::ExecuteIncomplete))
    } else if need_text(m, "plan_id"@) is Some {
        Err(ViewFault::Field(need_text(m, "plan_id"@)->0))
    } else if !plan_id_ok(m["plan_id"@]) || m["plan_id"@] == "T60-89617444924FD838"@ || m["plan_id"@] == "T60-83270E3A33D2F105"@ {
        Err(ViewFault::Check(ViewCheck::ExecutePlan))
    } else if need_num(m, "requester_team_id"@, usize::MAX as nat) is Some {
        Err(ViewFault::Field(need_num(m, "requester_team_id"@, usize::MAX as nat)->0))
    } else if need_num(m, "recipient_team_id"@, usize::MAX as nat) is Some {
        Err(ViewFault::Field(need_num(m, "recipient_team_id"@, usize::MAX as nat)->0))
    } else if need_num(m, "offered_id"@, usize::MAX as nat) is Some {
        Err(ViewFault::Field(need_num(m, "offered_id"@, usize::MAX as nat)->0))
    } else if need_num(m, "target_id"@, usize::MAX as nat) is Some {
        Err(ViewFault::Field(need_num(m, "target_id"@, usize::MAX as nat)->0))
    } else if (num_of(m, "requester_team_id"@) as usize) == (num_of(m, "recipient_team_id"@) as usize) || (num_of(m, "offered_id"@) as usize) == (num_of(m, "target_id"@) as usize) {
        Err(ViewFault::Check(ViewCheck::ExecuteInconsistent))
    } else if need_num(m, "offered_team_after"@, usize::MAX as nat) is Some {
        Err(ViewFault::Field(need_num(m, "offered_team_after"@, usize::MAX as nat)->0))
    } else if (num_of(m, "offered_team_after"@) as usize) != (num_of(m, "recipient_team_id"@) as usize) {
        Err(ViewFault::Check(ViewCheck::ExecuteInconsistent))
    } else if need_num(m, "target_team_after"@, usize::MAX as nat) is Some {
        Err(ViewFault::Field(need_num(m, "target_team_after"@, usize::MAX as nat)->0))
    } else if (num_of(m, "target_team_after"@) as usize) != (num_of(m, "requester_team_id"@) as usize) {
        Err(ViewFault::Check(ViewCheck::ExecuteInconsistent))
    } else if need_num(m, "desired_status_choice"@, u64::MAX as nat) is Some {
        Err(ViewFault::Field(need_num(m, "desired_status_choice"@, u64::MAX as nat)->0))
    } else if need_at_most(m, "desired_status_choice"@, 255) is Some {
        Err(ViewFault::Field(need_at_most(m, "desired_status_choice"@, 255)->0))
    } else if need_text(m, "offered_contracted_status_after"@) is Some {
        Err(ViewFault::Field(need_text(m, "offered_contracted_status_after"@)->0))
    } else if need_text(m, "target_contracted_status_after"@) is Some {
        Err(ViewFault::Field(need_text(m, "target_contracted_status_after"@)->0))
    } else if need_text(m, "desired_status_key"@) is Some {
        Err(ViewFault::Field(need_text(m, "desired_status_key"@)->0))
    } else if m["desired_status_key"@] != status_key_of((num_of(m, "desired_status_choice"@) as u8)) {
        Err(ViewFault::Check(ViewCheck::ExecuteStatusMismatch))
    } else {
        Ok(ExecuteChecksV {
            plan_id: m["plan_id"@],
            requester_team_id: (num_of(m, "requester_team_id"@) as usize),
            recipient_team_id: (num_of(m, "recipient_team_id"@) as usize),
            offered_id: (num_of(m, "offered_id"@) as usize),
            target_id: (num_of(m, "target_id"@) as usize),
            proposed_cash_won: (num_of(m, "proposed_cash_won"@) as u64),
            desired_status_choice: (num_of(m, "desired_status_choice"@) as u8),
            offered_contracted_status_after: m["offered_contracted_status_after"@],
            target_contracted_status_after: m["target_contracted_status_after"@],
            rollback_rehearsal_verified: bool_of(m, "rollback_rehearsal_verified"@),
            atomic_commit_verified: bool_of(m, "atomic_commit_verified"@),
            rollback_performed: bool_of(m, "rollback_performed"@),
            execution_gate_closed: bool_of(m, "execution_gate_closed"@),
            pre_receipt_mod_save_unchanged: bool_of(m, "pre_receipt_mod_save_unchanged"@),
            executed_plan_persisted: bool_of(m, "executed_plan_persisted"@),
            trade_receipt_persisted: bool_of(m, "trade_receipt_persisted"@),
            receipt_readback_verified: bool_of(m, "receipt_readback_verified"@),
            executed_plan_registry_count: (num_of(m, "executed_plan_registry_count"@) as usize),
        })
    }
}

/// Reads a commit result up to its money amounts: every promised effect holds, the plan is new and valid, the players swapped teams, and the status key matches the choice.
#[verifier::rlimit(60)]
pub fn parse_execute_checks(m: &KvPayload) -> (r: Result<ExecuteChecks, ViewError>)
    ensures
        match parse_execute_checks_spec(m@) {
            Ok(v) => r matches Ok(x) && x@ == v,
            Err(f) => r matches Err(e) && e@ == f,
        },
{
    proof {
        reveal(parse_execute_checks_spec);
    }
    let te = match bool_field(m, "transaction_executed") { Ok(v) => v, Err(e) => return Err(ViewError::Field(e)) };
    let acv = match bool_field(m, "atomic_commit_verified") { Ok(v) => v, Err(e) => return Err(ViewError::Field(e)) };
    let rp = match bool_field(m, "rollback_performed") { Ok(v) => v, Err(e) => return Err(ViewError::Field(e)) };
    let egc = match bool_field(m, "execution_gate_closed") { Ok(v) => v, Err(e) => return Err(ViewError::Field(e)) };
    let prmsu = match bool_field(m, "pre_receipt_mod_save_unchanged") { Ok(v) => v, Err(e) => return Err(ViewError::Field(e)) };
    let epp = match bool_field(m, "executed_plan_persisted") { Ok(v) => v, Err(e) => return Err(ViewError::Field(e)) };
    let trp = match bool_field(m, "trade_receipt_persisted") { Ok(v) => v, Err(e) => return Err(ViewError::Field(e)) };
    let rrv = match bool_field(m, "receipt_readback_verified") { Ok(v) => v, Err(e) => return Err(ViewError::Field(e)) };
    let rrhv = match bool_field(m, "rollback_rehearsal_verified") { Ok(v) => v, Err(e) => return Err(ViewError::Field(e)) };
    let epc_raw = match num_field(m, "executed_plan_registry_count", usize::MAX as u64) { Ok(v) => v, Err(e) => return Err(ViewError::Field(e)) };
    proof { lemma_parse_unsigned_max(m@["executed_plan_registry_count"@], usize::MAX as nat, u64::MAX as nat); }
    let epc = epc_raw as usize;
    let cash = match num_field(m, "proposed_cash_won", u64::MAX) { Ok(v) => v, Err(e) => return Err(ViewError::Field(e)) };
    if !te || !acv || rp || !egc || !rrhv {
        return Err(ViewError::Check(ViewCheck::ExecuteIncomplete));
    }
    let ok1 = match bool_field(m, "proposed_cash_within_server_range") { Ok(v) => v, Err(e) => return Err(ViewError::Field(e)) };
    if !ok1 {
        return Err(ViewError::Check(ViewCheck::ExecuteIncomplete));
    }
    let ok2 = match bool_field(m, "database_mutation") { Ok(v) => v, Err(e) => return Err(ViewError::Field(e)) };
    if !ok2 {
        return Err(ViewError::Check(ViewCheck::ExecuteIncomplete));
    }
    let ok3 = match bool_field(m, "contract_mutation") { Ok(v) => v, Err(e) => return Err(ViewError::Field(e)) };
    if !ok3 {
        return Err(ViewError::Check(ViewCheck::ExecuteIncomplete));
    }
    let fm = match bool_field(m, "finance_mutation") { Ok(v) => v, Err(e) => return Err(ViewError::Field(e)) };
    if fm != (cash > 0) {
        return Err(ViewError::Check(ViewCheck::ExecuteIncomplete));
    }
    let ok4 = match bool_field(m, "squad_status_mutation") { Ok(v) => v, Err(e) => return Err(ViewError::Field(e)) };
    if !ok4 {
        return Err(ViewError::Check(ViewCheck::ExecuteIncomplete));
    }
    let ok5 = match bool_field(m, "contracted_squad_status_mutation") { Ok(v) => v, Err(e) => return Err(ViewError::Field(e)) };
    if !ok5 {
        return Err(ViewError::Check(ViewCheck::ExecuteIncomplete));
    }
    let ok6 = match bool_field(m, "mod_save_mutation") { Ok(v) => v, Err(e) => return Err(ViewError::Field(e)) };
    if !ok6 {
        return Err(ViewError::Check(ViewCheck::ExecuteIncomplete));
    }
    let ok7 = match bool_field(m, "contract_inherited_both") { Ok(v) => v, Err(e) => return Err(ViewError::Field(e)) };
    if !ok7 {
        return Err(ViewError::Check(ViewCheck::ExecuteIncomplete));
    }
    let ok8 = match bool_field(m, "offered_status_unchanged") { Ok(v) => v, Err(e) => return Err(ViewError::Field(e)) };
    if !ok8 {
        return Err(ViewError::Check(ViewCheck::ExecuteIncomplete));
    }
    let ok9 = match bool_field(m, "target_status_applied") { Ok(v) => v, Err(e) => return Err(ViewError::Field(e)) };
    if !ok9 {
        return Err(ViewError::Check(ViewCheck::ExecuteIncomplete));
    }
    let ok10 = match bool_field(m, "offered_contracted_status_unchanged") { Ok(v) => v, Err(e) => return Err(ViewError::Field(e)) };
    if !ok10 {
        return Err(ViewError::Check(ViewCheck::ExecuteIncomplete));
    }
    let ok11 = match bool_field(m, "target_contracted_status_applied") { Ok(v) => v, Err(e) => return Err(ViewError::Field(e)) };
    if !ok11 {
        return Err(ViewError::Check(ViewCheck::ExecuteIncomplete));
    }
    let ok12 = match bool_field(m, "combined_finance_conserved") { Ok(v) => v, Err(e) => return Err(ViewError::Field(e)) };
    if !ok12 {
        return Err(ViewError::Check(ViewCheck::ExecuteIncomplete));
    }
    if !prmsu || !epp || !trp || !rrv {
        return Err(ViewError::Check(ViewCheck::ExecuteIncomplete));
    }
    let ok13 = match bool_field(m, "three_receipts_preserved") { Ok(v) => v, Err(e) => return Err(ViewError::Field(e)) };
    if !ok13 {
        return Err(ViewError::Check(ViewCheck::ExecuteIncomplete));
    }
    let fpid = match text_field(m, "first_plan_id") { Ok(v) => v, Err(e) => return Err(ViewError::Field(e)) };
    if !text_is(&fpid, "T60-89617444924FD838") {
        return Err(ViewError::Check(ViewCheck::ExecuteIncomplete));
    }
    let ok14 = match bool_field(m, "first_plan_preserved") { Ok(v) => v, Err(e) => return Err(ViewError::Field(e)) };
    if !ok14 {
        return Err(ViewError::Check(ViewCheck::ExecuteIncomplete));
    }
    let spid = match text_field(m, "second_plan_id") { Ok(v) => v, Err(e) => return Err(ViewError::Field(e)) };
    if !text_is(&spid, "T60-83270E3A33D2F105") {
        return Err(ViewError::Check(ViewCheck::ExecuteIncomplete));
    }
    let ok15 = match bool_field(m, "second_plan_preserved") { Ok(v) => v, Err(e) => return Err(ViewError::Field(e)) };
    if !ok15 {
        return Err(ViewError::Check(ViewCheck::ExecuteIncomplete));
    }
    if epc < 1 {
        return Err(ViewError::Check(ViewCheck::ExecuteIncomplete));
    }
    let ok16 = match bool_field(m, "news_count_unchanged") { Ok(v) => v, Err(e) => return Err(ViewError::Field(e)) };
    if !ok16 {
        return Err(ViewError::Check(ViewCheck::ExecuteIncomplete));
    }
    let ok17 = match bool_field(m, "manual_save_required") { Ok(v) => v, Err(e) => return Err(ViewError::Field(e)) };
    if !ok17 {
        return Err(ViewError::Check(ViewCheck::ExecuteIncomplete));
    }
    let slot = match text_field(m, "manual_save_slot") { Ok(v) => v, Err(e) => return Err(ViewError::Field(e)) };
    if !text_is(&slot, "PTS_Test79_AfterAsyncTrade") {
        return Err(ViewError::Check(ViewCheck::ExecuteIncomplete));
    }
    let sac = match bool_field(m, "save_api_called") { Ok(v) => v, Err(e) => return Err(ViewError::Field(e)) };
    if sac {
        return Err(ViewError::Check(ViewCheck::ExecuteIncomplete));
    }
    let plan_id = match text_field(m, "plan_id") { Ok(v) => v, Err(e) => return Err(ViewError::Field(e)) };
    if !plan_ok(&plan_id) || text_is(&plan_id, "T60-89617444924FD838") || text_is(&plan_id, "T60-83270E3A33D2F105") {
        return Err(ViewError::Check(ViewCheck::ExecutePlan));
    }
    let req_raw = match num_field(m, "requester_team_id", usize::MAX as u64) { Ok(v) => v, Err(e) => return Err(ViewError::Field(e)) };
    proof { lemma_parse_unsigned_max(m@["requester_team_id"@], usize::MAX as nat, u64::MAX as nat); }
    let req = req_raw as usize;
    let rec_raw = match num_field(m, "recipient_team_id", usize::MAX as u64) { Ok(v) => v, Err(e) => return Err(ViewError::Field(e)) };
    proof { lemma_parse_unsigned_max(m@["recipient_team_id"@], usize::MAX as nat, u64::MAX as nat); }
    let rec = rec_raw as usize;
    let off_raw = match num_field(m, "offered_id", usize::MAX as u64) { Ok(v) => v, Err(e) => return Err(ViewError::Field(e)) };
    proof { lemma_parse_unsigned_max(m@["offered_id"@], usize::MAX as nat, u64::MAX as nat); }
    let off = off_raw as usize;
    let tgt_raw = match num_field(m, "target_id", usize::MAX as u64) { Ok(v) => v, Err(e) => return Err(ViewError::Field(e)) };
    proof { lemma_parse_unsigned_max(m@["target_id"@], usize::MAX as nat, u64::MAX as nat); }
    let tgt = tgt_raw as usize;
    if req == rec || off == tgt {
        return Err(ViewError::Check(ViewCheck::ExecuteInconsistent));
    }
    let ota_raw = match num_field(m, "offered_team_after", usize::MAX as u64) { Ok(v) => v, Err(e) => return Err(ViewError::Field(e)) };
    proof { lemma_parse_unsigned_max(m@["offered_team_after"@], usize::MAX as nat, u64::MAX as nat); }
    let ota = ota_raw as usize;
    if ota != rec {
        return Err(ViewError::Check(ViewCheck::ExecuteInconsistent));
    }
    let tta_raw = match num_field(m, "target_team_after", usize::MAX as u64) { Ok(v) => v, Err(e) => return Err(ViewError::Field(e)) };
    proof { lemma_parse_unsigned_max(m@["target_team_after"@], usize::MAX as nat, u64::MAX as nat); }
    let tta = tta_raw as usize;
    if tta != req {
        return Err(ViewError::Check(ViewCheck::ExecuteInconsistent));
    }
    let choice_raw = match num_field(m, "desired_status_choice", u64::MAX) { Ok(v) => v, Err(e) => return Err(ViewError::Field(e)) };
    match at_most(choice_raw, "desired_status_choice", 255) { Ok(()) => {}, Err(e) => return Err(ViewError::Field(e)) }
    let choice = choice_raw as u8;
    let ocs = match text_field(m, "offered_contracted_status_after") { Ok(v) => v, Err(e) => return Err(ViewError::Field(e)) };
    let tcs = match text_field(m, "target_contracted_status_after") { Ok(v) => v, Err(e) => return Err(ViewError::Field(e)) };
    let key = match text_field(m, "desired_status_key") { Ok(v) => v, Err(e) => return Err(ViewError::Field(e)) };
    let expected_key = crate::status::desired_squad_status(choice).0;
    if !text_is(&key, expected_key) {
        return Err(ViewError::Check(ViewCheck::ExecuteStatusMismatch));
    }
    Ok(ExecuteChecks {
        plan_id: plan_id,
        requester_team_id: req,
        recipient_team_id: rec,
        offered_id: off,
        target_id: tgt,
        proposed_cash_won: cash,
        desired_status_choice: choice,
        offered_contracted_status_after: ocs,
        target_contracted_status_after: tcs,
        rollback_rehearsal_verified: rrhv,
        atomic_commit_verified: acv,
        rollback_performed: rp,
        execution_gate_closed: egc,
        pre_receipt_mod_save_unchanged: prmsu,
        executed_plan_persisted: epp,
        trade_receipt_persisted: trp,
        receipt_readback_verified: rrv,
        executed_plan_registry_count: epc,
    })
}

/// What the client reads of a commit result after its money amounts.
#[derive(Debug, PartialEq, Eq)]
pub struct ExecuteTail {
    pub commit_process_id: u32,
    pub offered_name: String,
    pub target_name: String,
    pub desired_status_label: String,
    pub offered_team_after: usize,
    pub target_team_after: usize,
    pub target_status_after: String,
}

/// The same, with text as character sequences.
pub struct ExecuteTailV {
    pub commit_process_id: u32,
    pub offered_name: Seq<char>,
    pub target_name: Seq<char>,
    pub desired_status_label: Seq<char>,
    pub offered_team_after: usize,
    pub target_team_after: usize,
    pub target_status_after: Seq<char>,
}

impl View for ExecuteTail {
    type V = ExecuteTailV;

    open spec fn view(&self) -> ExecuteTailV {
        ExecuteTailV {
            commit_process_id: self.commit_process_id,
            offered_name: self.offered_name@,
            target_name: self.target_name@,
            desired_status_label: self.desired_status_label@,
            offered_team_after: self.offered_team_after,
            target_team_after: self.target_team_after,
            target_status_after: self.target_status_after@,
        }
    }
}

#[verifier::opaque]
pub open spec fn parse_execute_tail_spec(m: Map<Seq<char>, Seq<char>>) -> Result<ExecuteTailV, ViewFault> {
    if need_num(m, "commit_process_id"@, u64::MAX as nat) is Some {
        Err(ViewFault::Field(need_num(m, "commit_process_id"@, u64::MAX as nat)->0))
    } else if need_at_most(m, "commit_process_id"@, 4294967295) is Some {
        Err(ViewFault::Field(need_at_most(m, "commit_process_id"@, 4294967295)->0))
    } else if need_text(m, "offered_name"@) is Some {
        Err(ViewFault::Field(need_text(m, "offered_name"@)->0))
    } else if need_text(m, "target_name"@) is Some {
        Err(ViewFault::Field(need_text(m, "target_name"@)->0))
    } else if need_text(m, "desired_status_label"@) is Some {
        Err(ViewFault::Field(need_text(m, "desired_status_label"@)->0))
    } else if need_num(m, "offered_team_after"@, usize::MAX as nat) is Some {
        Err(ViewFault::Field(need_num(m, "offered_team_after"@, usize::MAX as nat)->0))
    } else if need_num(m, "target_team_after"@, usize::MAX as nat) is Some {
        Err(ViewFault::Field(need_num(m, "target_team_after"@, usize::MAX as nat)->0))
    } else if need_text(m, "target_status_after"@) is Some {
        Err(ViewFault::Field(need_text(m, "target_status_after"@)->0))
    } else {
        Ok(ExecuteTailV {
            commit_process_id: (num_of(m, "commit_process_id"@) as u32),
            offered_name: m["offered_name"@],
            target_name: m["target_name"@],
            desired_status_label: m["desired_status_label"@],
            offered_team_after: (num_of(m, "offered_team_after"@) as usize),
            target_team_after: (num_of(m, "target_team_after"@) as usize),
            target_status_after: m["target_status_after"@],
        })
    }
}

/// Reads the rest of a commit result.
#[verifier::rlimit(60)]
pub fn parse_execute_tail(m: &KvPayload) -> (r: Result<ExecuteTail, ViewError>)
    ensures
        match parse_execute_tail_spec(m@) {
            Ok(v) => r matches Ok(x) && x@ == v,
            Err(f) => r matches Err(e) && e@ == f,
        },
{
    proof {
        reveal(parse_execute_tail_spec);
    }
    let cpid_raw = match num_field(m, "commit_process_id", u64::MAX) { Ok(v) => v, Err(e) => return Err(ViewError::Field(e)) };
    match at_most(cpid_raw, "commit_process_id", 4294967295) { Ok(()) => {}, Err(e) => return Err(ViewError::Field(e)) }
    let cpid = cpid_raw as u32;
    let offered_name = match text_field(m, "offered_name") { Ok(v) => v, Err(e) => return Err(ViewError::Field(e)) };
    let target_name = match text_field(m, "target_name") { Ok(v) => v, Err(e) => return Err(ViewError::Field(e)) };
    let label = match text_field(m, "desired_status_label") { Ok(v) => v, Err(e) => return Err(ViewError::Field(e)) };
    let ota_raw = match num_field(m, "offered_team_after", usize::MAX as u64) { Ok(v) => v, Err(e) => return Err(ViewError::Field(e)) };
    proof { lemma_parse_unsigned_max(m@["offered_team_after"@], usize::MAX as nat, u64::MAX as nat); }
    let ota = ota_raw as usize;
    let tta_raw = match num_field(m, "target_team_after", usize::MAX as u64) { Ok(v) => v, Err(e) => return Err(ViewError::Field(e)) };
    proof { lemma_parse_unsigned_max(m@["target_team_after"@], usize::MAX as nat, u64::MAX as nat); }
    let tta = tta_raw as usize;
    let tsa = match text_field(m, "target_status_after") { Ok(v) => v, Err(e) => return Err(ViewError::Field(e)) };
    Ok(ExecuteTail {
        commit_process_id: cpid,
        offered_name: offered_name,
        target_name: target_name,
        desired_status_label: label,
        offered_team_after: ota,
        target_team_after: tta,
        target_status_after: tsa,
    })
}

/// A proposal's status as the client reads it (the salary as the text sent).
#[derive(Debug, PartialEq, Eq)]
pub struct AsyncStatusView {
    pub proposal_present: bool,
    pub proposal_id: String,
    pub state: String,
    pub stage_ko: String,
    pub requester_team_id: usize,
    pub recipient_team_id: usize,
    pub requester_team_name: String,
    pub recipient_team_name: String,
    pub target_id: usize,
    pub offered_id: usize,
    pub target_name: String,
    pub offered_name: String,
    pub target_position_label: String,
    pub target_position_icon: String,
    pub target_contract_end: String,
    pub target_yearly_salary: String,
    pub proposed_units: u64,
    pub desired_status_label: String,
    pub game_time: String,
    pub submitted_at: String,
    pub seller_due_at: String,
    pub player_due_at: String,
    pub completed_at: String,
    pub rejection_reason_ko: String,
    pub result_plan_id: String,
    pub success_news_count: usize,
    pub submit_process_id: u32,
    pub commit_process_id: u32,
    pub current_process_id: u32,
    pub offered_team_current: usize,
    pub target_team_current: usize,
    pub target_status_current: String,
    pub target_contracted_status_current: String,
    pub executed_plan_registry_count: usize,
    pub result_plan_occurrences: usize,
}

/// The same, with text as character sequences.
pub struct AsyncStatusViewV {
    pub proposal_present: bool,
    pub proposal_id: Seq<char>,
    pub state: Seq<char>,
    pub stage_ko: Seq<char>,
    pub requester_team_id: usize,
    pub recipient_team_id: usize,
    pub requester_team_name: Seq<char>,
    pub recipient_team_name: Seq<char>,
    pub target_id: usize,
    pub offered_id: usize,
    pub target_name: Seq<char>,
    pub offered_name: Seq<char>,
    pub target_position_label: Seq<char>,
    pub target_position_icon: Seq<char>,
    pub target_contract_end: Seq<char>,
    pub target_yearly_salary: Seq<char>,
    pub proposed_units: u64,
    pub desired_status_label: Seq<char>,
    pub game_time: Seq<char>,
    pub submitted_at: Seq<char>,
    pub seller_due_at: Seq<char>,
    pub player_due_at: Seq<char>,
    pub completed_at: Seq<char>,
    pub rejection_reason_ko: Seq<char>,
    pub result_plan_id: Seq<char>,
    pub success_news_count: usize,
    pub submit_process_id: u32,
    pub commit_process_id: u32,
    pub current_process_id: u32,
    pub offered_team_current: usize,
    pub target_team_current: usize,
    pub target_status_current: Seq<char>,
    pub target_contracted_status_current: Seq<char>,
    pub executed_plan_registry_count: usize,
    pub result_plan_occurrences: usize,
}

impl View for AsyncStatusView {
    type V = AsyncStatusViewV;

    open spec fn view(&self) -> AsyncStatusViewV {
        AsyncStatusViewV {
            proposal_present: self.proposal_present,
            proposal_id: self.proposal_id@,
            state: self.state@,
            stage_ko: self.stage_ko@,
            requester_team_id: self.requester_team_id,
            recipient_team_id: self.recipient_team_id,
            requester_team_name: self.requester_team_name@,
            recipient_team_name: self.recipient_team_name@,
            target_id: self.target_id,
            offered_id: self.offered_id,
            target_name: self.target_name@,
            offered_name: self.offered_name@,
            target_position_label: self.target_position_label@,
            target_position_icon: self.target_position_icon@,
            target_contract_end: self.target_contract_end@,
            target_yearly_salary: self.target_yearly_salary@,
            proposed_units: self.proposed_units,
            desired_status_label: self.desired_status_label@,
            game_time: self.game_time@,
            submitted_at: self.submitted_at@,
            seller_due_at: self.seller_due_at@,
            player_due_at: self.player_due_at@,
            completed_at: self.completed_at@,
            rejection_reason_ko: self.rejection_reason_ko@,
            result_plan_id: self.result_plan_id@,
            success_news_count: self.success_news_count,
            submit_process_id: self.submit_process_id,
            commit_process_id: self.commit_process_id,
            current_process_id: self.current_process_id,
            offered_team_current: self.offered_team_current,
            target_team_current: self.target_team_current,
            target_status_current: self.target_status_current@,
            target_contracted_status_current: self.target_contracted_status_current@,
            executed_plan_registry_count: self.executed_plan_registry_count,
            result_plan_occurrences: self.result_plan_occurrences,
        }
    }
}

#[verifier::opaque]
pub open spec fn parse_async_status_fields_spec(m: Map<Seq<char>, Seq<char>>) -> Result<AsyncStatusViewV, ViewFault> {
    if need_bool(m, "proposal_present"@) is Some {
        Err(ViewFault::Field(need_bool(m, "proposal_present"@)->0))
    } else if need_text(m, "proposal_id"@) is Some {
        Err(ViewFault::Field(need_text(m, "proposal_id"@)->0))
    } else if need_text(m, "state"@) is Some {
        Err(ViewFault::Field(need_text(m, "state"@)->0))
    } else if need_text(m, "stage_ko"@) is Some {
        Err(ViewFault::Field(need_text(m, "stage_ko"@)->0))
    } else if need_num(m, "requester_team_id"@, usize::MAX as nat) is Some {
        Err(ViewFault::Field(need_num(m, "requester_team_id"@, usize::MAX as nat)->0))
    } else if need_num(m, "recipient_team_id"@, usize::MAX as nat) is Some {
        Err(ViewFault::Field(need_num(m, "recipient_team_id"@, usize::MAX as nat)->0))
    } else if need_text(m, "requester_team_name"@) is Some {
        Err(ViewFault::Field(need_text(m, "requester_team_name"@)->0))
    } else if need_text(m, "recipient_team_name"@) is Some {
        Err(ViewFault::Field(need_text(m, "recipient_team_name"@)->0))
    } else if need_num(m, "target_id"@, usize::MAX as nat) is Some {
        Err(ViewFault::Field(need_num(m, "target_id"@, usize::MAX as nat)->0))
    } else if need_num(m, "offered_id"@, usize::MAX as nat) is Some {
        Err(ViewFault::Field(need_num(m, "offered_id"@, usize::MAX as nat)->0))
    } else if need_text(m, "target_name"@) is Some {
        Err(ViewFault::Field(need_text(m, "target_name"@)->0))
    } else if need_text(m, "offered_name"@) is Some {
        Err(ViewFault::Field(need_text(m, "offered_name"@)->0))
    } else if need_text(m, "target_position_label"@) is Some {
        Err(ViewFault::Field(need_text(m, "target_position_label"@)->0))
    } else if need_text(m, "target_position_icon"@) is Some {
        Err(ViewFault::Field(need_text(m, "target_position_icon"@)->0))
    } else if need_text(m, "target_contract_end"@) is Some {
        Err(ViewFault::Field(need_text(m, "target_contract_end"@)->0))
    } else if need_text(m, "target_yearly_salary"@) is Some {
        Err(ViewFault::Field(need_text(m, "target_yearly_salary"@)->0))
    } else if need_num(m, "proposed_units"@, u64::MAX as nat) is Some {
        Err(ViewFault::Field(need_num(m, "proposed_units"@, u64::MAX as nat)->0))
    } else if need_text(m, "desired_status_label"@) is Some {
        Err(ViewFault::Field(need_text(m, "desired_status_label"@)->0))
    } else if need_text(m, "game_time"@) is Some {
        Err(ViewFault::Field(need_text(m, "game_time"@)->0))
    } else if need_text(m, "submitted_at"@) is Some {
        Err(ViewFault::Field(need_text(m, "submitted_at"@)->0))
    } else if need_text(m, "seller_due_at"@) is Some {
        Err(ViewFault::Field(need_text(m, "seller_due_at"@)->0))
    } else if need_text(m, "player_due_at"@) is Some {
        Err(ViewFault::Field(need_text(m, "player_due_at"@)->0))
    } else if need_text(m, "completed_at"@) is Some {
        Err(ViewFault::Field(need_text(m, "completed_at"@)->0))
    } else if need_text(m, "rejection_reason_ko"@) is Some {
        Err(ViewFault::Field(need_text(m, "rejection_reason_ko"@)->0))
    } else if need_text(m, "result_plan_id"@) is Some {
        Err(ViewFault::Field(need_text(m, "result_plan_id"@)->0))
    } else if need_num(m, "success_news_count"@, usize::MAX as nat) is Some {
        Err(ViewFault::Field(need_num(m, "success_news_count"@, usize::MAX as nat)->0))
    } else if need_num(m, "submit_process_id"@, u64::MAX as nat) is Some {
        Err(ViewFault::Field(need_num(m, "submit_process_id"@, u64::MAX as nat)->0))
    } else if need_at_most(m, "submit_process_id"@, 4294967295) is Some {
        Err(ViewFault::Field(need_at_most(m, "submit_process_id"@, 4294967295)->0))
    } else if need_num(m, "commit_process_id"@, u64::MAX as nat) is Some {
        Err(ViewFault::Field(need_num(m, "commit_process_id"@, u64::MAX as nat)->0))
    } else if need_at_most(m, "commit_process_id"@, 4294967295) is Some {
        Err(ViewFault::Field(need_at_most(m, "commit_process_id"@, 4294967295)->0))
    } else if need_num(m, "current_process_id"@, u64::MAX as nat) is Some {
        Err(ViewFault::Field(need_num(m, "current_process_id"@, u64::MAX as nat)->0))
    } else if need_at_most(m, "current_process_id"@, 4294967295) is Some {
        Err(ViewFault::Field(need_at_most(m, "current_process_id"@, 4294967295)->0))
    } else if need_num(m, "offered_team_current"@, usize::MAX as nat) is Some {
        Err(ViewFault::Field(need_num(m, "offered_team_current"@, usize::MAX as nat)->0))
    } else if need_num(m, "target_team_current"@, usize::MAX as nat) is Some {
        Err(ViewFault::Field(need_num(m, "target_team_current"@, usize::MAX as nat)->0))
    } else if need_text(m, "target_status_current"@) is Some {
        Err(ViewFault::Field(need_text(m, "target_status_current"@)->0))
    } else if need_text(m, "target_contracted_status_current"@) is Some {
        Err(ViewFault::Field(need_text(m, "target_contracted_status_current"@)->0))
    } else if need_num(m, "executed_plan_registry_count"@, usize::MAX as nat) is Some {
        Err(ViewFault::Field(need_num(m, "executed_plan_registry_count"@, usize::MAX as nat)->0))
    } else if need_num(m, "result_plan_occurrences"@, usize::MAX as nat) is Some {
        Err(ViewFault::Field(need_num(m, "result_plan_occurrences"@, usize::MAX as nat)->0))
    } else {
        Ok(AsyncStatusViewV {
            proposal_present: bool_of(m, "proposal_present"@),
            proposal_id: m["proposal_id"@],
            state: m["state"@],
            stage_ko: m["stage_ko"@],
            requester_team_id: (num_of(m, "requester_team_id"@) as usize),
            recipient_team_id: (num_of(m, "recipient_team_id"@) as usize),
            requester_team_name: m["requester_team_name"@],
            recipient_team_name: m["recipient_team_name"@],
            target_id: (num_of(m, "target_id"@) as usize),
            offered_id: (num_of(m, "offered_id"@) as usize),
            target_name: m["target_name"@],
            offered_name: m["offered_name"@],
            target_position_label: m["target_position_label"@],
            target_position_icon: m["target_position_icon"@],
            target_contract_end: m["target_contract_end"@],
            target_yearly_salary: m["target_yearly_salary"@],
            proposed_units: (num_of(m, "proposed_units"@) as u64),
            desired_status_label: m["desired_status_label"@],
            game_time: m["game_time"@],
            submitted_at: m["submitted_at"@],
            seller_due_at: m["seller_due_at"@],
            player_due_at: m["player_due_at"@],
            completed_at: m["completed_at"@],
            rejection_reason_ko: m["rejection_reason_ko"@],
            result_plan_id: m["result_plan_id"@],
            success_news_count: (num_of(m, "success_news_count"@) as usize),
            submit_process_id: (num_of(m, "submit_process_id"@) as u32),
            commit_process_id: (num_of(m, "commit_process_id"@) as u32),
            current_process_id: (num_of(m, "current_process_id"@) as u32),
            offered_team_current: (num_of(m, "offered_team_current"@) as usize),
            target_team_current: (num_of(m, "target_team_current"@) as usize),
            target_status_current: m["target_status_current"@],
            target_contracted_status_current: m["target_contracted_status_current"@],
            executed_plan_registry_count: (num_of(m, "executed_plan_registry_count"@) as usize),
            result_plan_occurrences: (num_of(m, "result_plan_occurrences"@) as usize),
        })
    }
}

/// Reads the fields of a status answer that carries a proposal.
#[verifier::rlimit(60)]
pub fn parse_async_status_fields(m: &KvPayload) -> (r: Result<AsyncStatusView, ViewError>)
    ensures
        match parse_async_status_fields_spec(m@) {
            Ok(v) => r matches Ok(x) && x@ == v,
            Err(f) => r matches Err(e) && e@ == f,
        },
{
    proof {
        reveal(parse_async_status_fields_spec);
    }
    let v_proposal_present = match bool_field(m, "proposal_present") { Ok(v) => v, Err(e) => return Err(ViewError::Field(e)) };
    let v_proposal_id = match text_field(m, "proposal_id") { Ok(v) => v, Err(e) => return Err(ViewError::Field(e)) };
    let v_state = match text_field(m, "state") { Ok(v) => v, Err(e) => return Err(ViewError::Field(e)) };
    let v_stage_ko = match text_field(m, "stage_ko") { Ok(v) => v, Err(e) => return Err(ViewError::Field(e)) };
    let v_requester_team_id_raw = match num_field(m, "requester_team_id", usize::MAX as u64) { Ok(v) => v, Err(e) => return Err(ViewError::Field(e)) };
    proof { lemma_parse_unsigned_max(m@["requester_team_id"@], usize::MAX as nat, u64::MAX as nat); }
    let v_requester_team_id = v_requester_team_id_raw as usize;
    let v_recipient_team_id_raw = match num_field(m, "recipient_team_id", usize::MAX as u64) { Ok(v) => v, Err(e) => return Err(ViewError::Field(e)) };
    proof { lemma_parse_unsigned_max(m@["recipient_team_id"@], usize::MAX as nat, u64::MAX as nat); }
    let v_recipient_team_id = v_recipient_team_id_raw as usize;
    let v_requester_team_name = match text_field(m, "requester_team_name") { Ok(v) => v, Err(e) => return Err(ViewError::Field(e)) };
    let v_recipient_team_name = match text_field(m, "recipient_team_name") { Ok(v) => v, Err(e) => return Err(ViewError::Field(e)) };
    let v_target_id_raw = match num_field(m, "target_id", usize::MAX as u64) { Ok(v) => v, Err(e) => return Err(ViewError::Field(e)) };
    proof { lemma_parse_unsigned_max(m@["target_id"@], usize::MAX as nat, u64::MAX as nat); }
    let v_target_id = v_target_id_raw as usize;
    let v_offered_id_raw = match num_field(m, "offered_id", usize::MAX as u64) { Ok(v) => v, Err(e) => return Err(ViewError::Field(e)) };
    proof { lemma_parse_unsigned_max(m@["offered_id"@], usize::MAX as nat, u64::MAX as nat); }
    let v_offered_id = v_offered_id_raw as usize;
    let v_target_name = match text_field(m, "target_name") { Ok(v) => v, Err(e) => return Err(ViewError::Field(e)) };
    let v_offered_name = match text_field(m, "offered_name") { Ok(v) => v, Err(e) => return Err(ViewError::Field(e)) };
    let v_target_position_label = match text_field(m, "target_position_label") { Ok(v) => v, Err(e) => return Err(ViewError::Field(e)) };
    let v_target_position_icon = match text_field(m, "target_position_icon") { Ok(v) => v, Err(e) => return Err(ViewError::Field(e)) };
    let v_target_contract_end = match text_field(m, "target_contract_end") { Ok(v) => v, Err(e) => return Err(ViewError::Field(e)) };
    let v_target_yearly_salary = match text_field(m, "target_yearly_salary") { Ok(v) => v, Err(e) => return Err(ViewError::Field(e)) };
    let v_proposed_units = match num_field(m, "proposed_units", u64::MAX) { Ok(v) => v, Err(e) => return Err(ViewError::Field(e)) };
    let v_desired_status_label = match text_field(m, "desired_status_label") { Ok(v) => v, Err(e) => return Err(ViewError::Field(e)) };
    let v_game_time = match text_field(m, "game_time") { Ok(v) => v, Err(e) => return Err(ViewError::Field(e)) };
    let v_submitted_at = match text_field(m, "submitted_at") { Ok(v) => v, Err(e) => return Err(ViewError::Field(e)) };
    let v_seller_due_at = match text_field(m, "seller_due_at") { Ok(v) => v, Err(e) => return Err(ViewError::Field(e)) };
    let v_player_due_at = match text_field(m, "player_due_at") { Ok(v) => v, Err(e) => return Err(ViewError::Field(e)) };
    let v_completed_at = match text_field(m, "completed_at") { Ok(v) => v, Err(e) => return Err(ViewError::Field(e)) };
    let v_rejection_reason_ko = match text_field(m, "rejection_reason_ko") { Ok(v) => v, Err(e) => return Err(ViewError::Field(e)) };
    let v_result_plan_id = match text_field(m, "result_plan_id") { Ok(v) => v, Err(e) => return Err(ViewError::Field(e)) };
    let v_success_news_count_raw = match num_field(m, "success_news_count", usize::MAX as u64) { Ok(v) => v, Err(e) => return Err(ViewError::Field(e)) };
    proof { lemma_parse_unsigned_max(m@["success_news_count"@], usize::MAX as nat, u64::MAX as nat); }
    let v_success_news_count = v_success_news_count_raw as usize;
    let v_submit_process_id_raw = match num_field(m, "submit_process_id", u64::MAX) { Ok(v) => v, Err(e) => return Err(ViewError::Field(e)) };
    match at_most(v_submit_process_id_raw, "submit_process_id", 4294967295) { Ok(()) => {}, Err(e) => return Err(ViewError::Field(e)) }
    let v_submit_process_id = v_submit_process_id_raw as u32;
    let v_commit_process_id_raw = match num_field(m, "commit_process_id", u64::MAX) { Ok(v) => v, Err(e) => return Err(ViewError::Field(e)) };
    match at_most(v_commit_process_id_raw, "commit_process_id", 4294967295) { Ok(()) => {}, Err(e) => return Err(ViewError::Field(e)) }
    let v_commit_process_id = v_commit_process_id_raw as u32;
    let v_current_process_id_raw = match num_field(m, "current_process_id", u64::MAX) { Ok(v) => v, Err(e) => return Err(ViewError::Field(e)) };
    match at_most(v_current_process_id_raw, "current_process_id", 4294967295) { Ok(()) => {}, Err(e) => return Err(ViewError::Field(e)) }
    let v_current_process_id = v_current_process_id_raw as u32;
    let v_offered_team_current_raw = match num_field(m, "offered_team_current", usize::MAX as u64) { Ok(v) => v, Err(e) => return Err(ViewError::Field(e)) };
    proof { lemma_parse_unsigned_max(m@["offered_team_current"@], usize::MAX as nat, u64::MAX as nat); }
    let v_offered_team_current = v_offered_team_current_raw as usize;
    let v_target_team_current_raw = match num_field(m, "target_team_current", usize::MAX as u64) { Ok(v) => v, Err(e) => return Err(ViewError::Field(e)) };
    proof { lemma_parse_unsigned_max(m@["target_team_current"@], usize::MAX as nat, u64::MAX as nat); }
    let v_target_team_current = v_target_team_current_raw as usize;
    let v_target_status_current = match text_field(m, "target_status_current") { Ok(v) => v, Err(e) => return Err(ViewError::Field(e)) };
    let v_target_contracted_status_current = match text_field(m, "target_contracted_status_current") { Ok(v) => v, Err(e) => return Err(ViewError::Field(e)) };
    let v_executed_plan_registry_count_raw = match num_field(m, "executed_plan_registry_count", usize::MAX as u64) { Ok(v) => v, Err(e) => return Err(ViewError::Field(e)) };
    proof { lemma_parse_unsigned_max(m@["executed_plan_registry_count"@], usize::MAX as nat, u64::MAX as nat); }
    let v_executed_plan_registry_count = v_executed_plan_registry_count_raw as usize;
    let v_result_plan_occurrences_raw = match num_field(m, "result_plan_occurrences", usize::MAX as u64) { Ok(v) => v, Err(e) => return Err(ViewError::Field(e)) };
    proof { lemma_parse_unsigned_max(m@["result_plan_occurrences"@], usize::MAX as nat, u64::MAX as nat); }
    let v_result_plan_occurrences = v_result_plan_occurrences_raw as usize;
    Ok(AsyncStatusView {
        proposal_present: v_proposal_present,
        proposal_id: v_proposal_id,
        state: v_state,
        stage_ko: v_stage_ko,
        requester_team_id: v_requester_team_id,
        recipient_team_id: v_recipient_team_id,
        requester_team_name: v_requester_team_name,
        recipient_team_name: v_recipient_team_name,
        target_id: v_target_id,
        offered_id: v_offered_id,
        target_name: v_target_name,
        offered_name: v_offered_name,
        target_position_label: v_target_position_label,
        target_position_icon: v_target_position_icon,
        target_contract_end: v_target_contract_end,
        target_yearly_salary: v_target_yearly_salary,
        proposed_units: v_proposed_units,
        desired_status_label: v_desired_status_label,
        game_time: v_game_time,
        submitted_at: v_submitted_at,
        seller_due_at: v_seller_due_at,
        player_due_at: v_player_due_at,
        completed_at: v_completed_at,
        rejection_reason_ko: v_rejection_reason_ko,
        result_plan_id: v_result_plan_id,
        success_news_count: v_success_news_count,
        submit_process_id: v_submit_process_id,
        commit_process_id: v_commit_process_id,
        current_process_id: v_current_process_id,
        offered_team_current: v_offered_team_current,
        target_team_current: v_target_team_current,
        target_status_current: v_target_status_current,
        target_contracted_status_current: v_target_contracted_status_current,
        executed_plan_registry_count: v_executed_plan_registry_count,
        result_plan_occurrences: v_result_plan_occurrences,
    })
}

/// The first active offer of a player, as the client reads it.
#[derive(Debug, PartialEq, Eq)]
pub struct NativeOfferDetail {
    pub first_seen: String,
    pub state_text: String,
    pub deadline: String,
    pub stage: String,
    pub sequence: u64,
    pub active_offer_count: usize,
    pub reloaded: bool,
}

/// The same, with text as character sequences.
pub struct NativeOfferDetailV {
    pub first_seen: Seq<char>,
    pub state_text: Seq<char>,
    pub deadline: Seq<char>,
    pub stage: Seq<char>,
    pub sequence: u64,
    pub active_offer_count: usize,
    pub reloaded: bool,
}

impl View for NativeOfferDetail {
    type V = NativeOfferDetailV;

    open spec fn view(&self) -> NativeOfferDetailV {
        NativeOfferDetailV {
            first_seen: self.first_seen@,
            state_text: self.state_text@,
            deadline: self.deadline@,
            stage: self.stage@,
            sequence: self.sequence,
            active_offer_count: self.active_offer_count,
            reloaded: self.reloaded,
        }
    }
}

#[verifier::opaque]
pub open spec fn parse_native_offer_detail_spec(m: Map<Seq<char>, Seq<char>>) -> Result<NativeOfferDetailV, ViewFault> {
    if need_text(m, "first_seen"@) is Some {
        Err(ViewFault::Field(need_text(m, "first_seen"@)->0))
    } else if need_text(m, "state_text"@) is Some {
        Err(ViewFault::Field(need_text(m, "state_text"@)->0))
    } else if need_text(m, "deadline"@) is Some {
        Err(ViewFault::Field(need_text(m, "deadline"@)->0))
    } else if need_text(m, "stage"@) is Some {
        Err(ViewFault::Field(need_text(m, "stage"@)->0))
    } else if need_num(m, "sequence"@, u64::MAX as nat) is Some {
        Err(ViewFault::Field(need_num(m, "sequence"@, u64::MAX as nat)->0))
    } else if need_num(m, "active_offer_count"@, usize::MAX as nat) is Some {
        Err(ViewFault::Field(need_num(m, "active_offer_count"@, usize::MAX as nat)->0))
    } else if need_bool(m, "reloaded"@) is Some {
        Err(ViewFault::Field(need_bool(m, "reloaded"@)->0))
    } else {
        Ok(NativeOfferDetailV {
            first_seen: m["first_seen"@],
            state_text: m["state_text"@],
            deadline: m["deadline"@],
            stage: m["stage"@],
            sequence: (num_of(m, "sequence"@) as u64),
            active_offer_count: (num_of(m, "active_offer_count"@) as usize),
            reloaded: bool_of(m, "reloaded"@),
        })
    }
}

/// Reads the fields of a visible first-offer status.
#[verifier::rlimit(60)]
pub fn parse_native_offer_detail(m: &KvPayload) -> (r: Result<NativeOfferDetail, ViewError>)
    ensures
        match parse_native_offer_detail_spec(m@) {
            Ok(v) => r matches Ok(x) && x@ == v,
            Err(f) => r matches Err(e) && e@ == f,
        },
{
    proof {
        reveal(parse_native_offer_detail_spec);
    }
    let v_first_seen = match text_field(m, "first_seen") { Ok(v) => v, Err(e) => return Err(ViewError::Field(e)) };
    let v_state_text = match text_field(m, "state_text") { Ok(v) => v, Err(e) => return Err(ViewError::Field(e)) };
    let v_deadline = match text_field(m, "deadline") { Ok(v) => v, Err(e) => return Err(ViewError::Field(e)) };
    let v_stage = match text_field(m, "stage") { Ok(v) => v, Err(e) => return Err(ViewError::Field(e)) };
    let v_sequence = match num_field(m, "sequence", u64::MAX) { Ok(v) => v, Err(e) => return Err(ViewError::Field(e)) };
    let v_active_offer_count_raw = match num_field(m, "active_offer_count", usize::MAX as u64) { Ok(v) => v, Err(e) => return Err(ViewError::Field(e)) };
    proof { lemma_parse_unsigned_max(m@["active_offer_count"@], usize::MAX as nat, u64::MAX as nat); }
    let v_active_offer_count = v_active_offer_count_raw as usize;
    let v_reloaded = match bool_field(m, "reloaded") { Ok(v) => v, Err(e) => return Err(ViewError::Field(e)) };
    Ok(NativeOfferDetail {
        first_seen: v_first_seen,
        state_text: v_state_text,
        deadline: v_deadline,
        stage: v_stage,
        sequence: v_sequence,
        active_offer_count: v_active_offer_count,
        reloaded: v_reloaded,
    })
}

// ---------------------------------------------------------------------------
// What the client reads of the server's quote
// ---------------------------------------------------------------------------

/// The position of a key among the lines of a quote answer.
pub open spec fn quote_key_index(k: Seq<char>) -> int {
    if k == "status"@ {
        0
    } else if k == "requester_team_id"@ {
        1
    } else if k == "recipient_team_id"@ {
        2
    } else if k == "offered_id"@ {
        3
    } else if k == "target_id"@ {
        4
    } else if k == "region_id"@ {
        5
    } else if k == "offered_name"@ {
        6
    } else if k == "target_name"@ {
        7
    } else if k == "display_min_units"@ {
        8
    } else if k == "display_max_units"@ {
        9
    } else if k == "cash_budget_won"@ {
        10
    } else if k == "budget_units"@ {
        11
    } else if k == "cash_range_obscured"@ {
        12
    } else if k == "exact_threshold_disclosed"@ {
        13
    } else if k == "range_stable_for_pair"@ {
        14
    } else if k == "profile"@ {
        15
    } else if k == "game_time"@ {
        16
    } else if k == "cooldown_present"@ {
        17
    } else if k == "cooldown_fingerprint"@ {
        18
    } else if k == "cooldown_retry_at"@ {
        19
    } else if k == "cooldown_changeable"@ {
        20
    } else if k == "cooldown_exempt"@ {
        21
    } else {
        -1
    }
}

/// The lines of a quote answer have pairwise different keys.
#[verifier::spinoff_prover]
#[verifier::rlimit(100)]
pub(crate) proof fn lemma_quote_keys_distinct(q: QuotePayload)
    ensures
        forall|a: int, b: int|
            0 <= a < b < quote_fields(q).len() ==> #[trigger] quote_fields(q)[a].0 != #[trigger] quote_fields(q)[b].0,
        forall|a: int| 0 <= a < quote_fields(q).len() ==> key_ok(#[trigger] quote_fields(q)[a].0),
{
    let f = quote_fields(q);
    reveal_strlit("status");
    reveal_strlit("requester_team_id");
    reveal_strlit("recipient_team_id");
    reveal_strlit("offered_id");
    reveal_strlit("target_id");
    reveal_strlit("region_id");
    reveal_strlit("offered_name");
    reveal_strlit("target_name");
    reveal_strlit("display_min_units");
    reveal_strlit("display_max_units");
    reveal_strlit("cash_budget_won");
    reveal_strlit("budget_units");
    reveal_strlit("cash_range_obscured");
    reveal_strlit("exact_threshold_disclosed");
    reveal_strlit("range_stable_for_pair");
    reveal_strlit("profile");
    reveal_strlit("game_time");
    reveal_strlit("cooldown_present");
    reveal_strlit("cooldown_fingerprint");
    reveal_strlit("cooldown_retry_at");
    reveal_strlit("cooldown_changeable");
    reveal_strlit("cooldown_exempt");
    assert("requester_team_id"@.len() != "status"@.len());
    assert("recipient_team_id"@.len() != "status"@.len());
    assert("recipient_team_id"@[2] != "requester_team_id"@[2]);
    assert("offered_id"@.len() != "status"@.len());
    assert("offered_id"@.len() != "requester_team_id"@.len());
    assert("offered_id"@.len() != "recipient_team_id"@.len());
    assert("target_id"@.len() != "status"@.len());
    assert("target_id"@.len() != "requester_team_id"@.len());
    assert("target_id"@.len() != "recipient_team_id"@.len());
    assert("target_id"@.len() != "offered_id"@.len());
    assert("region_id"@.len() != "status"@.len());
    assert("region_id"@.len() != "requester_team_id"@.len());
    assert("region_id"@.len() != "recipient_team_id"@.len());
    assert("region_id"@.len() != "offered_id"@.len());
    assert("region_id"@[0] != "target_id"@[0]);
    assert("offered_name"@.len() != "status"@.len());
    assert("offered_name"@.len() != "requester_team_id"@.len());
    assert("offered_name"@.len() != "recipient_team_id"@.len());
    assert("offered_name"@.len() != "offered_id"@.len());
    assert("offered_name"@.len() != "target_id"@.len());
    assert("offered_name"@.len() != "region_id"@.len());
    assert("target_name"@.len() != "status"@.len());
    assert("target_name"@.len() != "requester_team_id"@.len());
    assert("target_name"@.len() != "recipient_team_id"@.len());
    assert("target_name"@.len() != "offered_id"@.len());
    assert("target_name"@.len() != "target_id"@.len());
    assert("target_name"@.len() != "region_id"@.len());
    assert("target_name"@.len() != "offered_name"@.len());
    assert("display_min_units"@.len() != "status"@.len());
    assert("display_min_units"@[0] != "requester_team_id"@[0]);
    assert("display_min_units"@[0] != "recipient_team_id"@[0]);
    assert("display_min_units"@.len() != "offered_id"@.len());
    assert("display_min_units"@.len() != "target_id"@.len());
    assert("display_min_units"@.len() != "region_id"@.len());
    assert("display_min_units"@.len() != "offered_name"@.len());
    assert("display_min_units"@.len() != "target_name"@.len());
    assert("display_max_units"@.len() != "status"@.len());
    assert("display_max_units"@[0] != "requester_team_id"@[0]);
    assert("display_max_units"@[0] != "recipient_team_id"@[0]);
    assert("display_max_units"@.len() != "offered_id"@.len());
    assert("display_max_units"@.len() != "target_id"@.len());
    assert("display_max_units"@.len() != "region_id"@.len());
    assert("display_max_units"@.len() != "offered_name"@.len());
    assert("display_max_units"@.len() != "target_name"@.len());
    assert("display_max_units"@[9] != "display_min_units"@[9]);
    assert("cash_budget_won"@.len() != "status"@.len());
    assert("cash_budget_won"@.len() != "requester_team_id"@.len());
    assert("cash_budget_won"@.len() != "recipient_team_id"@.len());
    assert("cash_budget_won"@.len() != "offered_id"@.len());
    assert("cash_budget_won"@.len() != "target_id"@.len());
    assert("cash_budget_won"@.len() != "region_id"@.len());
    assert("cash_budget_won"@.len() != "offered_name"@.len());
    assert("cash_budget_won"@.len() != "target_name"@.len());
    assert("cash_budget_won"@.len() != "display_min_units"@.len());
    assert("cash_budget_won"@.len() != "display_max_units"@.len());
    assert("budget_units"@.len() != "status"@.len());
    assert("budget_units"@.len() != "requester_team_id"@.len());
    assert("budget_units"@.len() != "recipient_team_id"@.len());
    assert("budget_units"@.len() != "offered_id"@.len());
    assert("budget_units"@.len() != "target_id"@.len());
    assert("budget_units"@.len() != "region_id"@.len());
    assert("budget_units"@[0] != "offered_name"@[0]);
    assert("budget_units"@.len() != "target_name"@.len());
    assert("budget_units"@.len() != "display_min_units"@.len());
    assert("budget_units"@.len() != "display_max_units"@.len());
    assert("budget_units"@.len() != "cash_budget_won"@.len());
    assert("cash_range_obscured"@.len() != "status"@.len());
    assert("cash_range_obscured"@.len() != "requester_team_id"@.len());
    assert("cash_range_obscured"@.len() != "recipient_team_id"@.len());
    assert("cash_range_obscured"@.len() != "offered_id"@.len());
    assert("cash_range_obscured"@.len() != "target_id"@.len());
    assert("cash_range_obscured"@.len() != "region_id"@.len());
    assert("cash_range_obscured"@.len() != "offered_name"@.len());
    assert("cash_range_obscured"@.len() != "target_name"@.len());
    assert("cash_range_obscured"@.len() != "display_min_units"@.len());
    assert("cash_range_obscured"@.len() != "display_max_units"@.len());
    assert("cash_range_obscured"@.len() != "cash_budget_won"@.len());
    assert("cash_range_obscured"@.len() != "budget_units"@.len());
    assert("exact_threshold_disclosed"@.len() != "status"@.len());
    assert("exact_threshold_disclosed"@.len() != "requester_team_id"@.len());
    assert("exact_threshold_disclosed"@.len() != "recipient_team_id"@.len());
    assert("exact_threshold_disclosed"@.len() != "offered_id"@.len());
    assert("exact_threshold_disclosed"@.len() != "target_id"@.len());
    assert("exact_threshold_disclosed"@.len() != "region_id"@.len());
    assert("exact_threshold_disclosed"@.len() != "offered_name"@.len());
    assert("exact_threshold_disclosed"@.len() != "target_name"@.len());
    assert("exact_threshold_disclosed"@.len() != "display_min_units"@.len());
    assert("exact_threshold_disclosed"@.len() != "display_max_units"@.len());
    assert("exact_threshold_disclosed"@.len() != "cash_budget_won"@.len());
    assert("exact_threshold_disclosed"@.len() != "budget_units"@.len());
    assert("exact_threshold_disclosed"@.len() != "cash_range_obscured"@.len());
    assert("range_stable_for_pair"@.len() != "status"@.len());
    assert("range_stable_for_pair"@.len() != "requester_team_id"@.len());
    assert("range_stable_for_pair"@.len() != "recipient_team_id"@.len());
    assert("range_stable_for_pair"@.len() != "offered_id"@.len());
    assert("range_stable_for_pair"@.len() != "target_id"@.len());
    assert("range_stable_for_pair"@.len() != "region_id"@.len());
    assert("range_stable_for_pair"@.len() != "offered_name"@.len());
    assert("range_stable_for_pair"@.len() != "target_name"@.len());
    assert("range_stable_for_pair"@.len() != "display_min_units"@.len());
    assert("range_stable_for_pair"@.len() != "display_max_units"@.len());
    assert("range_stable_for_pair"@.len() != "cash_budget_won"@.len());
    assert("range_stable_for_pair"@.len() != "budget_units"@.len());
    assert("range_stable_for_pair"@.len() != "cash_range_obscured"@.len());
    assert("range_stable_for_pair"@.len() != "exact_threshold_disclosed"@.len());
    assert("profile"@.len() != "status"@.len());
    assert("profile"@.len() != "requester_team_id"@.len());
    assert("profile"@.len() != "recipient_team_id"@.len());
    assert("profile"@.len() != "offered_id"@.len());
    assert("profile"@.len() != "target_id"@.len());
    assert("profile"@.len() != "region_id"@.len());
    assert("profile"@.len() != "offered_name"@.len());
    assert("profile"@.len() != "target_name"@.len());
    assert("profile"@.len() != "display_min_units"@.len());
    assert("profile"@.len() != "display_max_units"@.len());
    assert("profile"@.len() != "cash_budget_won"@.len());
    assert("profile"@.len() != "budget_units"@.len());
    assert("profile"@.len() != "cash_range_obscured"@.len());
    assert("profile"@.len() != "exact_threshold_disclosed"@.len());
    assert("profile"@.len() != "range_stable_for_pair"@.len());
    assert("game_time"@.len() != "status"@.len());
    assert("game_time"@.len() != "requester_team_id"@.len());
    assert("game_time"@.len() != "recipient_team_id"@.len());
    assert("game_time"@.len() != "offered_id"@.len());
    assert("game_time"@[0] != "target_id"@[0]);
    assert("game_time"@[0] != "region_id"@[0]);
    assert("game_time"@.len() != "offered_name"@.len());
    assert("game_time"@.len() != "target_name"@.len());
    assert("game_time"@.len() != "display_min_units"@.len());
    assert("game_time"@.len() != "display_max_units"@.len());
    assert("game_time"@.len() != "cash_budget_won"@.len());
    assert("game_time"@.len() != "budget_units"@.len());
    assert("game_time"@.len() != "cash_range_obscured"@.len());
    assert("game_time"@.len() != "exact_threshold_disclosed"@.len());
    assert("game_time"@.len() != "range_stable_for_pair"@.len());
    assert("game_time"@.len() != "profile"@.len());
    assert("cooldown_present"@.len() != "status"@.len());
    assert("cooldown_present"@.len() != "requester_team_id"@.len());
    assert("cooldown_present"@.len() != "recipient_team_id"@.len());
    assert("cooldown_present"@.len() != "offered_id"@.len());
    assert("cooldown_present"@.len() != "target_id"@.len());
    assert("cooldown_present"@.len() != "region_id"@.len());
    assert("cooldown_present"@.len() != "offered_name"@.len());
    assert("cooldown_present"@.len() != "target_name"@.len());
    assert("cooldown_present"@.len() != "display_min_units"@.len());
    assert("cooldown_present"@.len() != "display_max_units"@.len());
    assert("cooldown_present"@.len() != "cash_budget_won"@.len());
    assert("cooldown_present"@.len() != "budget_units"@.len());
    assert("cooldown_present"@.len() != "cash_range_obscured"@.len());
    assert("cooldown_present"@.len() != "exact_threshold_disclosed"@.len());
    assert("cooldown_present"@.len() != "range_stable_for_pair"@.len());
    assert("cooldown_present"@.len() != "profile"@.len());
    assert("cooldown_present"@.len() != "game_time"@.len());
    assert("cooldown_fingerprint"@.len() != "status"@.len());
    assert("cooldown_fingerprint"@.len() != "requester_team_id"@.len());
    assert("cooldown_fingerprint"@.len() != "recipient_team_id"@.len());
    assert("cooldown_fingerprint"@.len() != "offered_id"@.len());
    assert("cooldown_fingerprint"@.len() != "target_id"@.len());
    assert("cooldown_fingerprint"@.len() != "region_id"@.len());
    assert("cooldown_fingerprint"@.len() != "offered_name"@.len());
    assert("cooldown_fingerprint"@.len() != "target_name"@.len());
    assert("cooldown_fingerprint"@.len() != "display_min_units"@.len());
    assert("cooldown_fingerprint"@.len() != "display_max_units"@.len());
    assert("cooldown_fingerprint"@.len() != "cash_budget_won"@.len());
    assert("cooldown_fingerprint"@.len() != "budget_units"@.len());
    assert("cooldown_fingerprint"@.len() != "cash_range_obscured"@.len());
    assert("cooldown_fingerprint"@.len() != "exact_threshold_disclosed"@.len());
    assert("cooldown_fingerprint"@.len() != "range_stable_for_pair"@.len());
    assert("cooldown_fingerprint"@.len() != "profile"@.len());
    assert("cooldown_fingerprint"@.len() != "game_time"@.len());
    assert("cooldown_fingerprint"@.len() != "cooldown_present"@.len());
    assert("cooldown_retry_at"@.len() != "status"@.len());
    assert("cooldown_retry_at"@[0] != "requester_team_id"@[0]);
    assert("cooldown_retry_at"@[0] != "recipient_team_id"@[0]);
    assert("cooldown_retry_at"@.len() != "offered_id"@.len());
    assert("cooldown_retry_at"@.len() != "target_id"@.len());
    assert("cooldown_retry_at"@.len() != "region_id"@.len());
    assert("cooldown_retry_at"@.len() != "offered_name"@.len());
    assert("cooldown_retry_at"@.len() != "target_name"@.len());
    assert("cooldown_retry_at"@[0] != "display_min_units"@[0]);
    assert("cooldown_retry_at"@[0] != "display_max_units"@[0]);
    assert("cooldown_retry_at"@.len() != "cash_budget_won"@.len());
    assert("cooldown_retry_at"@.len() != "budget_units"@.len());
    assert("cooldown_retry_at"@.len() != "cash_range_obscured"@.len());
    assert("cooldown_retry_at"@.len() != "exact_threshold_disclosed"@.len());
    assert("cooldown_retry_at"@.len() != "range_stable_for_pair"@.len());
    assert("cooldown_retry_at"@.len() != "profile"@.len());
    assert("cooldown_retry_at"@.len() != "game_time"@.len());
    assert("cooldown_retry_at"@.len() != "cooldown_present"@.len());
    assert("cooldown_retry_at"@.len() != "cooldown_fingerprint"@.len());
    assert("cooldown_changeable"@.len() != "status"@.len());
    assert("cooldown_changeable"@.len() != "requester_team_id"@.len());
    assert("cooldown_changeable"@.len() != "recipient_team_id"@.len());
    assert("cooldown_changeable"@.len() != "offered_id"@.len());
    assert("cooldown_changeable"@.len() != "target_id"@.len());
    assert("cooldown_changeable"@.len() != "region_id"@.len());
    assert("cooldown_changeable"@.len() != "offered_name"@.len());
    assert("cooldown_changeable"@.len() != "target_name"@.len());
    assert("cooldown_changeable"@.len() != "display_min_units"@.len());
    assert("cooldown_changeable"@.len() != "display_max_units"@.len());
    assert("cooldown_changeable"@.len() != "cash_budget_won"@.len());
    assert("cooldown_changeable"@.len() != "budget_units"@.len());
    assert("cooldown_changeable"@[1] != "cash_range_obscured"@[1]);
    assert("cooldown_changeable"@.len() != "exact_threshold_disclosed"@.len());
    assert("cooldown_changeable"@.len() != "range_stable_for_pair"@.len());
    assert("cooldown_changeable"@.len() != "profile"@.len());
    assert("cooldown_changeable"@.len() != "game_time"@.len());
    assert("cooldown_changeable"@.len() != "cooldown_present"@.len());
    assert("cooldown_changeable"@.len() != "cooldown_fingerprint"@.len());
    assert("cooldown_changeable"@.len() != "cooldown_retry_at"@.len());
    assert("cooldown_exempt"@.len() != "status"@.len());
    assert("cooldown_exempt"@.len() != "requester_team_id"@.len());
    assert("cooldown_exempt"@.len() != "recipient_team_id"@.len());
    assert("cooldown_exempt"@.len() != "offered_id"@.len());
    assert("cooldown_exempt"@.len() != "target_id"@.len());
    assert("cooldown_exempt"@.len() != "region_id"@.len());
    assert("cooldown_exempt"@.len() != "offered_name"@.len());
    assert("cooldown_exempt"@.len() != "target_name"@.len());
    assert("cooldown_exempt"@.len() != "display_min_units"@.len());
    assert("cooldown_exempt"@.len() != "display_max_units"@.len());
    assert("cooldown_exempt"@[1] != "cash_budget_won"@[1]);
    assert("cooldown_exempt"@.len() != "budget_units"@.len());
    assert("cooldown_exempt"@.len() != "cash_range_obscured"@.len());
    assert("cooldown_exempt"@.len() != "exact_threshold_disclosed"@.len());
    assert("cooldown_exempt"@.len() != "range_stable_for_pair"@.len());
    assert("cooldown_exempt"@.len() != "profile"@.len());
    assert("cooldown_exempt"@.len() != "game_time"@.len());
    assert("cooldown_exempt"@.len() != "cooldown_present"@.len());
    assert("cooldown_exempt"@.len() != "cooldown_fingerprint"@.len());
    assert("cooldown_exempt"@.len() != "cooldown_retry_at"@.len());
    assert("cooldown_exempt"@.len() != "cooldown_changeable"@.len());
    assert forall|a: int| 0 <= a < 22 implies quote_key_index(#[trigger] f[a].0) == a && key_ok(f[a].0) by {
        if a == 0 {
            assert(f[0].0 == "status"@);
        } else if a == 1 {
            assert(f[1].0 == "requester_team_id"@);
        } else if a == 2 {
            assert(f[2].0 == "recipient_team_id"@);
        } else if a == 3 {
            assert(f[3].0 == "offered_id"@);
        } else if a == 4 {
            assert(f[4].0 == "target_id"@);
        } else if a == 5 {
            assert(f[5].0 == "region_id"@);
        } else if a == 6 {
            assert(f[6].0 == "offered_name"@);
        } else if a == 7 {
            assert(f[7].0 == "target_name"@);
        } else if a == 8 {
            assert(f[8].0 == "display_min_units"@);
        } else if a == 9 {
            assert(f[9].0 == "display_max_units"@);
        } else if a == 10 {
            assert(f[10].0 == "cash_budget_won"@);
        } else if a == 11 {
            assert(f[11].0 == "budget_units"@);
        } else if a == 12 {
            assert(f[12].0 == "cash_range_obscured"@);
        } else if a == 13 {
            assert(f[13].0 == "exact_threshold_disclosed"@);
        } else if a == 14 {
            assert(f[14].0 == "range_stable_for_pair"@);
        } else if a == 15 {
            assert(f[15].0 == "profile"@);
        } else if a == 16 {
            assert(f[16].0 == "game_time"@);
        } else if a == 17 {
            assert(f[17].0 == "cooldown_present"@);
        } else if a == 18 {
            assert(f[18].0 == "cooldown_fingerprint"@);
        } else if a == 19 {
            assert(f[19].0 == "cooldown_retry_at"@);
        } else if a == 20 {
            assert(f[20].0 == "cooldown_changeable"@);
        } else if a == 21 {
            assert(f[21].0 == "cooldown_exempt"@);
        }
    }
    assert forall|a: int, b: int| 0 <= a < b < f.len() implies #[trigger] f[a].0 != #[trigger] f[b].0 by {
        assert(quote_key_index(f[a].0) == a);
        assert(quote_key_index(f[b].0) == b);
    }
}


/// A quote answer reads back, on the client, as the quote that was sent:
/// the ids, the displayed range as the lower bound and ceiling of the offer,
/// the names and texts as sent (sanitized), and never the exact threshold.
/// It holds whenever every value that is sent survives a line of its own
/// (a name that ends in whitespace would come back trimmed).
#[verifier::spinoff_prover]
#[verifier::rlimit(100)]
pub proof fn lemma_quote_reads_back(q: QuotePayload)
    requires
        q.display_min_units <= q.display_max_units,
        value_ok(sanitize_spec(q.offered_name@)),
        value_ok(sanitize_spec(q.target_name@)),
        value_ok(q.cash_budget_won@),
        value_ok(q.profile_label@),
        value_ok(sanitize_spec(q.game_time@)),
        value_ok(sanitize_spec(q.cooldown_retry_at@)),
    ensures
        read_payload(payload_bytes(quote_fields(q))) == Ok::<Map<Seq<char>, Seq<char>>, Option<Seq<char>>>(
            fields_map(quote_fields(q)),
        ),
        parse_quote_view_spec(fields_map(quote_fields(q))) == Ok::<QuoteViewV, ViewFault>(
            QuoteViewV {
                cooldown_present: q.cooldown_present,
                cooldown_fingerprint: q.cooldown_fingerprint,
                cooldown_retry_at: sanitize_spec(q.cooldown_retry_at@),
                cooldown_changeable: q.cooldown_changeable,
                cooldown_exempt: q.cooldown_exempt,
                requester_team_id: q.requester_team_id,
                recipient_team_id: q.recipient_team_id,
                offered_id: q.offered_id,
                target_id: q.target_id,
                offered_name: sanitize_spec(q.offered_name@),
                target_name: sanitize_spec(q.target_name@),
                required_cash_won: 0,
                required_units: q.display_min_units,
                cash_offer_max_units: q.display_max_units,
                cash_range_obscured: true,
                exact_threshold_disclosed: false,
                cash_budget_won: q.cash_budget_won@,
                budget_units: q.budget_units,
            },
        ),
{
    let f = quote_fields(q);
    reveal_strlit("ok");
    reveal_strlit("true");
    reveal_strlit("false");
    lemma_quote_keys_distinct(q);
    lemma_dec_value_ok(q.requester_team_id as nat);
    lemma_parse_dec(q.requester_team_id as nat, u64::MAX as nat);
    lemma_parse_dec(q.requester_team_id as nat, usize::MAX as nat);
    lemma_dec_value_ok(q.recipient_team_id as nat);
    lemma_parse_dec(q.recipient_team_id as nat, u64::MAX as nat);
    lemma_parse_dec(q.recipient_team_id as nat, usize::MAX as nat);
    lemma_dec_value_ok(q.offered_id as nat);
    lemma_parse_dec(q.offered_id as nat, u64::MAX as nat);
    lemma_parse_dec(q.offered_id as nat, usize::MAX as nat);
    lemma_dec_value_ok(q.target_id as nat);
    lemma_parse_dec(q.target_id as nat, u64::MAX as nat);
    lemma_parse_dec(q.target_id as nat, usize::MAX as nat);
    lemma_dec_value_ok(q.region_id as nat);
    lemma_parse_dec(q.region_id as nat, u64::MAX as nat);
    lemma_parse_dec(q.region_id as nat, usize::MAX as nat);
    lemma_dec_value_ok(q.display_min_units as nat);
    lemma_parse_dec(q.display_min_units as nat, u64::MAX as nat);
    lemma_dec_value_ok(q.display_max_units as nat);
    lemma_parse_dec(q.display_max_units as nat, u64::MAX as nat);
    lemma_dec_value_ok(q.budget_units as nat);
    lemma_parse_dec(q.budget_units as nat, u64::MAX as nat);
    lemma_dec_value_ok(q.cooldown_fingerprint as nat);
    lemma_parse_dec(q.cooldown_fingerprint as nat, u64::MAX as nat);
    assert(value_ok(f[0].1));
    assert(value_ok(f[1].1));
    assert(value_ok(f[2].1));
    assert(value_ok(f[3].1));
    assert(value_ok(f[4].1));
    assert(value_ok(f[5].1));
    assert(value_ok(f[6].1));
    assert(value_ok(f[7].1));
    assert(value_ok(f[8].1));
    assert(value_ok(f[9].1));
    assert(value_ok(f[10].1));
    assert(value_ok(f[11].1));
    assert(value_ok(f[12].1));
    assert(value_ok(f[13].1));
    assert(value_ok(f[14].1));
    assert(value_ok(f[15].1));
    assert(value_ok(f[16].1));
    assert(value_ok(f[17].1));
    assert(value_ok(f[18].1));
    assert(value_ok(f[19].1));
    assert(value_ok(f[20].1));
    assert(value_ok(f[21].1));
    assert(fields_ok(f));
    lemma_render_roundtrip(f);
    lemma_fields_map_distinct(f, 0);
    lemma_fields_map_distinct(f, 1);
    lemma_fields_map_distinct(f, 2);
    lemma_fields_map_distinct(f, 3);
    lemma_fields_map_distinct(f, 4);
    lemma_fields_map_distinct(f, 5);
    lemma_fields_map_distinct(f, 6);
    lemma_fields_map_distinct(f, 7);
    lemma_fields_map_distinct(f, 8);
    lemma_fields_map_distinct(f, 9);
    lemma_fields_map_distinct(f, 10);
    lemma_fields_map_distinct(f, 11);
    lemma_fields_map_distinct(f, 12);
    lemma_fields_map_distinct(f, 13);
    lemma_fields_map_distinct(f, 14);
    lemma_fields_map_distinct(f, 15);
    lemma_fields_map_distinct(f, 16);
    lemma_fields_map_distinct(f, 17);
    lemma_fields_map_distinct(f, 18);
    lemma_fields_map_distinct(f, 19);
    lemma_fields_map_distinct(f, 20);
    lemma_fields_map_distinct(f, 21);
    assert("true"@ =~= seq!['t', 'r', 'u', 'e']);
    assert("false"@ =~= seq!['f', 'a', 'l', 's', 'e']);
    let m = fields_map(f);
    assert(need_bool(m, "cash_range_obscured"@) is None && bool_of(m, "cash_range_obscured"@));
    assert(need_bool(m, "exact_threshold_disclosed"@) is None && !bool_of(m, "exact_threshold_disclosed"@));
    assert(need_bool(m, "range_stable_for_pair"@) is None && bool_of(m, "range_stable_for_pair"@));
    assert(num_of(m, "display_min_units"@) == q.display_min_units);
    assert(num_of(m, "display_max_units"@) == q.display_max_units);
    assert(num_of(m, "requester_team_id"@) == q.requester_team_id);
    assert(lenient_flag_spec(m, "cooldown_present"@, false) == q.cooldown_present);
    assert(lenient_flag_spec(m, "cooldown_changeable"@, true) == q.cooldown_changeable);
    assert(lenient_num_spec(m, "cooldown_fingerprint"@) == q.cooldown_fingerprint);
    reveal(parse_quote_view_spec);
}


} // verus!

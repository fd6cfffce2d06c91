//! The client's side of the trade: what each answer of the server does to
//! the trade screen's state.
use vstd::prelude::*;
use crate::fields::{at_most, bool_of, need_bool, lemma_parse_unsigned_max, need_at_most, need_num, need_text, num_field, num_of, payload_fault, text_field, from_kv_error, DecodeError, DecodeFault};
use crate::kv::{fields_map, fields_ok, key_ok, lemma_fields_map_distinct, lemma_render_roundtrip, parse_kv_payload, read_payload, value_ok, KvPayload};
use crate::payload::{async_status_fields, payload_bytes, quote_fields, status_label_of, submitted_fields, AsyncStatusContext, QuotePayload};
use crate::proposal::{stage_ko_spec, state_name, AsyncTradeProposal};
use crate::text::{chars_eq, chars_of, lemma_parse_dec, parse_decimal, parse_unsigned, sanitize_spec, string_of};
use crate::fields::lemma_dec_value_ok;
use crate::receipt::bool_text;
use crate::views::{
    lenient_num, lenient_num_spec, lenient_text, lenient_text_spec, parse_async_status_fields, parse_async_status_fields_spec,
    parse_native_offer_detail, parse_native_offer_detail_spec, parse_quote_view, parse_quote_view_spec, AsyncStatusView,
    AsyncStatusViewV, NativeOfferDetail, QuoteView, QuoteViewV, ViewError, ViewFault, lemma_quote_keys_distinct, lemma_quote_reads_back,
};

verus! {

/// An optional `usize`: its value when present and readable, else `default`.
pub open spec fn lenient_usize_spec(m: Map<Seq<char>, Seq<char>>, k: Seq<char>, default: usize) -> usize {
    if m.contains_key(k) && parse_unsigned(m[k], usize::MAX as nat) is Some {
        parse_unsigned(m[k], usize::MAX as nat)->0 as usize
    } else {
        default
    }
}

pub fn lenient_usize(m: &KvPayload, key: &str, default: usize) -> (n: usize)
    ensures
        n == lenient_usize_spec(m@, key@, default),
{
    match m.get_str(key) {
        Some(v) => match parse_decimal(v.as_slice(), usize::MAX as u64) {
            Some(n) => n as usize,
            None => default,
        },
        None => default,
    }
}

fn text_is(a: &[char], b: &str) -> (r: bool)
    ensures
        r == (a@ == b@),
{
    let y = chars_of(b);
    chars_eq(a, y.as_slice())
}

// ---------------------------------------------------------------------------
// Status answers
// ---------------------------------------------------------------------------

/// The status view when no proposal is stored.
pub open spec fn no_proposal_view(m: Map<Seq<char>, Seq<char>>) -> AsyncStatusViewV {
    AsyncStatusViewV {
        proposal_present: false,
        proposal_id: Seq::<char>::empty(),
        state: "None"@,
        stage_ko: Seq::<char>::empty(),
        requester_team_id: usize::MAX,
        recipient_team_id: usize::MAX,
        requester_team_name: Seq::<char>::empty(),
        recipient_team_name: Seq::<char>::empty(),
        target_id: 0,
        offered_id: 0,
        target_name: Seq::<char>::empty(),
        offered_name: Seq::<char>::empty(),
        target_position_label: Seq::<char>::empty(),
        target_position_icon: Seq::<char>::empty(),
        target_contract_end: Seq::<char>::empty(),
        target_yearly_salary: "0"@,
        proposed_units: 0,
        desired_status_label: Seq::<char>::empty(),
        game_time: lenient_text_spec(m, "game_time"@, ""@),
        submitted_at: Seq::<char>::empty(),
        seller_due_at: Seq::<char>::empty(),
        player_due_at: Seq::<char>::empty(),
        completed_at: Seq::<char>::empty(),
        rejection_reason_ko: Seq::<char>::empty(),
        result_plan_id: Seq::<char>::empty(),
        success_news_count: 0,
        submit_process_id: 0,
        commit_process_id: 0,
        current_process_id: (num_of(m, "current_process_id"@) as u32),
        offered_team_current: usize::MAX,
        target_team_current: usize::MAX,
        target_status_current: "unknown"@,
        target_contracted_status_current: "unknown"@,
        executed_plan_registry_count: 0,
        result_plan_occurrences: 0,
    }
}

/// How a status answer reads: `none` gives the empty view, `ok` the
/// proposal's fields, anything else the answer's error detail.
#[verifier::opaque]
pub open spec fn async_status_spec(m: Map<Seq<char>, Seq<char>>) -> Result<AsyncStatusViewV, ViewFault> {
    if need_text(m, "status"@) is Some {
        Err(ViewFault::Field(need_text(m, "status"@)->0))
    } else if m["status"@] == "none"@ {
        if need_num(m, "current_process_id"@, u64::MAX as nat) is Some {
            Err(ViewFault::Field(need_num(m, "current_process_id"@, u64::MAX as nat)->0))
        } else if need_at_most(m, "current_process_id"@, 4294967295) is Some {
            Err(ViewFault::Field(need_at_most(m, "current_process_id"@, 4294967295)->0))
        } else {
            Ok(no_proposal_view(m))
        }
    } else if m["status"@] != "ok"@ {
        Err(ViewFault::Detail(lenient_text_spec(m, "detail"@, "unknown async status error"@)))
    } else {
        parse_async_status_fields_spec(m)
    }
}

/// Reads a status answer.
pub fn parse_async_status_view(m: &KvPayload) -> (r: Result<AsyncStatusView, ViewError>)
    ensures
        match async_status_spec(m@) {
            Ok(v) => r matches Ok(x) && x@ == v,
            Err(f) => r matches Err(e) && e@ == f,
        },
{
    proof {
        reveal(async_status_spec);
    }
    let status = match text_field(m, "status") {
        Ok(s) => s,
        Err(e) => return Err(ViewError::Field(e)),
    };
    let sc = chars_of(status.as_str());
    if text_is(sc.as_slice(), "none") {
        let raw = match num_field(m, "current_process_id", u64::MAX) {
            Ok(v) => v,
            Err(e) => return Err(ViewError::Field(e)),
        };
        match at_most(raw, "current_process_id", 4294967295) {
            Ok(()) => {},
            Err(e) => return Err(ViewError::Field(e)),
        }
        let pid = raw as u32;
        return Ok(AsyncStatusView {
            proposal_present: false,
            proposal_id: String::new(),
            state: string_of(chars_of("None").as_slice()),
            stage_ko: String::new(),
            requester_team_id: usize::MAX,
            recipient_team_id: usize::MAX,
            requester_team_name: String::new(),
            recipient_team_name: String::new(),
            target_id: 0,
            offered_id: 0,
            target_name: String::new(),
            offered_name: String::new(),
            target_position_label: String::new(),
            target_position_icon: String::new(),
            target_contract_end: String::new(),
            target_yearly_salary: string_of(chars_of("0").as_slice()),
            proposed_units: 0,
            desired_status_label: String::new(),
            game_time: lenient_text(m, "game_time", ""),
            submitted_at: String::new(),
            seller_due_at: String::new(),
            player_due_at: String::new(),
            completed_at: String::new(),
            rejection_reason_ko: String::new(),
            result_plan_id: String::new(),
            success_news_count: 0,
            submit_process_id: 0,
            commit_process_id: 0,
            current_process_id: pid,
            offered_team_current: usize::MAX,
            target_team_current: usize::MAX,
            target_status_current: string_of(chars_of("unknown").as_slice()),
            target_contracted_status_current: string_of(chars_of("unknown").as_slice()),
            executed_plan_registry_count: 0,
            result_plan_occurrences: 0,
        });
    }
    if !text_is(sc.as_slice(), "ok") {
        return Err(ViewError::Detail(lenient_text(m, "detail", "unknown async status error")));
    }
    parse_async_status_fields(m)
}

/// The first active offer of a player as the client shows it.
#[derive(Debug, PartialEq, Eq)]
pub struct NativeOfferStatusView {
    pub visible: bool,
    pub athlete_id: usize,
    pub first_seen: String,
    pub state_text: String,
    pub deadline: String,
    pub stage: String,
    pub sequence: u64,
    pub active_offer_count: usize,
    pub reloaded: bool,
}

pub struct NativeOfferStatusViewV {
    pub visible: bool,
    pub athlete_id: usize,
    pub first_seen: Seq<char>,
    pub state_text: Seq<char>,
    pub deadline: Seq<char>,
    pub stage: Seq<char>,
    pub sequence: u64,
    pub active_offer_count: usize,
    pub reloaded: bool,
}

impl View for NativeOfferStatusView {
    type V = NativeOfferStatusViewV;

    open spec fn view(&self) -> NativeOfferStatusViewV {
        NativeOfferStatusViewV {
            visible: self.visible,
            athlete_id: self.athlete_id,
            first_seen: self.first_seen@,
            state_text: self.state_text@,
            deadline: self.deadline@,
            stage: self.stage@,
            sequence: self.sequence,
            active_offer_count: self.active_offer_count,
            reloaded: self.reloaded,
        }
    }
}

/// How a first-offer status answer reads: `hidden` or `visible` with the
/// offer's fields, anything else the answer's error detail.
#[verifier::opaque]
pub open spec fn native_status_spec(m: Map<Seq<char>, Seq<char>>) -> Result<NativeOfferStatusViewV, ViewFault> {
    if need_text(m, "status"@) is Some {
        Err(ViewFault::Field(need_text(m, "status"@)->0))
    } else if need_num(m, "athlete_id"@, usize::MAX as nat) is Some {
        Err(ViewFault::Field(need_num(m, "athlete_id"@, usize::MAX as nat)->0))
    } else if m["status"@] == "hidden"@ {
        Ok(NativeOfferStatusViewV {
            visible: false,
            athlete_id: num_of(m, "athlete_id"@) as usize,
            first_seen: Seq::empty(),
            state_text: Seq::empty(),
            deadline: Seq::empty(),
            stage: Seq::empty(),
            sequence: 0,
            active_offer_count: 0,
            reloaded: false,
        })
    } else if m["status"@] != "visible"@ {
        Err(ViewFault::Detail(lenient_text_spec(m, "detail"@, "unknown first-offer status error"@)))
    } else {
        match parse_native_offer_detail_spec(m) {
            Err(f) => Err(f),
            Ok(d) => Ok(NativeOfferStatusViewV {
                visible: true,
                athlete_id: num_of(m, "athlete_id"@) as usize,
                first_seen: d.first_seen,
                state_text: d.state_text,
                deadline: d.deadline,
                stage: d.stage,
                sequence: d.sequence,
                active_offer_count: d.active_offer_count,
                reloaded: d.reloaded,
            }),
        }
    }
}

/// Reads a first-offer status answer.
pub fn parse_native_offer_status_view(m: &KvPayload) -> (r: Result<NativeOfferStatusView, ViewError>)
    ensures
        match native_status_spec(m@) {
            Ok(v) => r matches Ok(x) && x@ == v,
            Err(f) => r matches Err(e) && e@ == f,
        },
{
    proof {
        reveal(native_status_spec);
    }
    let status = match text_field(m, "status") {
        Ok(s) => s,
        Err(e) => return Err(ViewError::Field(e)),
    };
    let raw = match num_field(m, "athlete_id", usize::MAX as u64) {
        Ok(v) => v,
        Err(e) => return Err(ViewError::Field(e)),
    };
    proof {
        lemma_parse_unsigned_max(m@["athlete_id"@], usize::MAX as nat, u64::MAX as nat);
    }
    let athlete_id = raw as usize;
    let sc = chars_of(status.as_str());
    if text_is(sc.as_slice(), "hidden") {
        return Ok(NativeOfferStatusView {
            visible: false,
            athlete_id,
            first_seen: String::new(),
            state_text: String::new(),
            deadline: String::new(),
            stage: String::new(),
            sequence: 0,
            active_offer_count: 0,
            reloaded: false,
        });
    }
    if !text_is(sc.as_slice(), "visible") {
        return Err(ViewError::Detail(lenient_text(m, "detail", "unknown first-offer status error")));
    }
    let d = match parse_native_offer_detail(m) {
        Ok(d) => d,
        Err(e) => return Err(e),
    };
    Ok(NativeOfferStatusView {
        visible: true,
        athlete_id,
        first_seen: d.first_seen,
        state_text: d.state_text,
        deadline: d.deadline,
        stage: d.stage,
        sequence: d.sequence,
        active_offer_count: d.active_offer_count,
        reloaded: d.reloaded,
    })
}

// ---------------------------------------------------------------------------
// The trade screen's state and the answers that change it
// ---------------------------------------------------------------------------

/// A message kept for display.
#[derive(Debug, PartialEq, Eq)]
pub enum ClientMessage {
    /// A detail the server sent.
    Server(String),
    /// An answer that could not be read.
    Read(ViewError),
    /// A quote answer with a status other than `ok` or `error`.
    UnexpectedStatus(String),
}

pub enum ClientMessageV {
    Server(Seq<char>),
    Read(ViewFault),
    UnexpectedStatus(Seq<char>),
}

impl View for ClientMessage {
    type V = ClientMessageV;

    open spec fn view(&self) -> ClientMessageV {
        match self {
            ClientMessage::Server(s) => ClientMessageV::Server(s@),
            ClientMessage::Read(e) => ClientMessageV::Read(e@),
            ClientMessage::UnexpectedStatus(s) => ClientMessageV::UnexpectedStatus(s@),
        }
    }
}

pub open spec fn opt_msg(m: Option<ClientMessage>) -> Option<ClientMessageV> {
    match m {
        Some(x) => Some(x@),
        None => None,
    }
}

/// What the client knows of the trade between answers.
#[derive(Debug, PartialEq, Eq)]
pub struct ClientTradeState {
    pub baseline_verified: bool,
    pub validation_received: bool,
    pub floor_audit_received: bool,
    pub review_request_pending: bool,
    pub async_status_query_pending: bool,
    pub native_offer_status_query_pending: bool,
    pub async_status_view: Option<AsyncStatusView>,
    pub async_status_error: Option<ClientMessage>,
    pub review_error: Option<ClientMessage>,
    pub quote_error: Option<ClientMessage>,
    pub quote_view: Option<QuoteView>,
    pub quote_ui_dirty: bool,
    pub async_status_ui_dirty: bool,
    pub return_to_profile_pending: bool,
    pub season_used: bool,
    pub native_offer_status_view: Option<NativeOfferStatusView>,
    pub cash_input_state: u8,
}

pub struct ClientStateV {
    pub baseline_verified: bool,
    pub validation_received: bool,
    pub floor_audit_received: bool,
    pub review_request_pending: bool,
    pub async_status_query_pending: bool,
    pub native_offer_status_query_pending: bool,
    pub async_status_view: Option<AsyncStatusViewV>,
    pub async_status_error: Option<ClientMessageV>,
    pub review_error: Option<ClientMessageV>,
    pub quote_error: Option<ClientMessageV>,
    pub quote_view: Option<QuoteViewV>,
    pub quote_ui_dirty: bool,
    pub async_status_ui_dirty: bool,
    pub return_to_profile_pending: bool,
    pub season_used: bool,
    pub native_offer_status_view: Option<NativeOfferStatusViewV>,
    pub cash_input_state: u8,
}

impl View for ClientTradeState {
    type V = ClientStateV;

    open spec fn view(&self) -> ClientStateV {
        ClientStateV {
            baseline_verified: self.baseline_verified,
            validation_received: self.validation_received,
            floor_audit_received: self.floor_audit_received,
            review_request_pending: self.review_request_pending,
            async_status_query_pending: self.async_status_query_pending,
            native_offer_status_query_pending: self.native_offer_status_query_pending,
            async_status_view: match self.async_status_view {
                Some(v) => Some(v@),
                None => None,
            },
            async_status_error: opt_msg(self.async_status_error),
            review_error: opt_msg(self.review_error),
            quote_error: opt_msg(self.quote_error),
            quote_view: match self.quote_view {
                Some(v) => Some(v@),
                None => None,
            },
            quote_ui_dirty: self.quote_ui_dirty,
            async_status_ui_dirty: self.async_status_ui_dirty,
            return_to_profile_pending: self.return_to_profile_pending,
            season_used: self.season_used,
            native_offer_status_view: match self.native_offer_status_view {
                Some(v) => Some(v@),
                None => None,
            },
            cash_input_state: self.cash_input_state,
        }
    }
}

/// The view that a successful submission answer shows until the next status
/// answer arrives (fields the answer lacks take their placeholders).
pub open spec fn submitted_view(m: Map<Seq<char>, Seq<char>>, pid: u32) -> AsyncStatusViewV {
    AsyncStatusViewV {
        proposal_present: true,
        proposal_id: lenient_text_spec(m, "proposal_id"@, "unknown"@),
        state: lenient_text_spec(m, "state"@, "SellerReview"@),
        stage_ko: lenient_text_spec(m, "stage_ko"@, "판매 구단 검토"@),
        requester_team_id: lenient_usize_spec(m, "requester_team_id"@, 7),
        recipient_team_id: lenient_usize_spec(m, "recipient_team_id"@, usize::MAX),
        requester_team_name: lenient_text_spec(m, "requester_team_name"@, ""@),
        recipient_team_name: lenient_text_spec(m, "recipient_team_name"@, ""@),
        target_id: lenient_usize_spec(m, "target_id"@, 0),
        offered_id: lenient_usize_spec(m, "offered_id"@, 0),
        target_name: lenient_text_spec(m, "target_name"@, ""@),
        offered_name: lenient_text_spec(m, "offered_name"@, ""@),
        target_position_label: Seq::<char>::empty(),
        target_position_icon: Seq::<char>::empty(),
        target_contract_end: Seq::<char>::empty(),
        target_yearly_salary: "0"@,
        proposed_units: lenient_num_spec(m, "proposed_units"@),
        desired_status_label: lenient_text_spec(m, "desired_status_label"@, "핵심 선수"@),
        game_time: lenient_text_spec(m, "game_time"@, lenient_text_spec(m, "submitted_at"@, ""@)),
        submitted_at: lenient_text_spec(m, "submitted_at"@, ""@),
        seller_due_at: lenient_text_spec(m, "seller_due_at"@, ""@),
        player_due_at: lenient_text_spec(m, "player_due_at"@, ""@),
        completed_at: Seq::<char>::empty(),
        rejection_reason_ko: Seq::<char>::empty(),
        result_plan_id: Seq::<char>::empty(),
        success_news_count: 0,
        submit_process_id: pid,
        commit_process_id: 0,
        current_process_id: pid,
        offered_team_current: 7,
        target_team_current: usize::MAX,
        target_status_current: "pending"@,
        target_contracted_status_current: "pending"@,
        executed_plan_registry_count: 2,
        result_plan_occurrences: 0,
    }
}

fn submitted_view_exec(m: &KvPayload, pid: u32) -> (v: AsyncStatusView)
    ensures
        v@ == submitted_view(m@, pid),
{
    let game_time = match m.get_str("game_time") {
        Some(g) => string_of(g.as_slice()),
        None => lenient_text(m, "submitted_at", ""),
    };
    AsyncStatusView {
        proposal_present: true,
        proposal_id: lenient_text(m, "proposal_id", "unknown"),
        state: lenient_text(m, "state", "SellerReview"),
        stage_ko: lenient_text(m, "stage_ko", "판매 구단 검토"),
        requester_team_id: lenient_usize(m, "requester_team_id", 7),
        recipient_team_id: lenient_usize(m, "recipient_team_id", usize::MAX),
        requester_team_name: lenient_text(m, "requester_team_name", ""),
        recipient_team_name: lenient_text(m, "recipient_team_name", ""),
        target_id: lenient_usize(m, "target_id", 0),
        offered_id: lenient_usize(m, "offered_id", 0),
        target_name: lenient_text(m, "target_name", ""),
        offered_name: lenient_text(m, "offered_name", ""),
        target_position_label: String::new(),
        target_position_icon: String::new(),
        target_contract_end: String::new(),
        target_yearly_salary: string_of(chars_of("0").as_slice()),
        proposed_units: lenient_num(m, "proposed_units"),
        desired_status_label: lenient_text(m, "desired_status_label", "핵심 선수"),
        game_time: game_time,
        submitted_at: lenient_text(m, "submitted_at", ""),
        seller_due_at: lenient_text(m, "seller_due_at", ""),
        player_due_at: lenient_text(m, "player_due_at", ""),
        completed_at: String::new(),
        rejection_reason_ko: String::new(),
        result_plan_id: String::new(),
        success_news_count: 0,
        submit_process_id: pid,
        commit_process_id: 0,
        current_process_id: pid,
        offered_team_current: 7,
        target_team_current: usize::MAX,
        target_status_current: string_of(chars_of("pending").as_slice()),
        target_contracted_status_current: string_of(chars_of("pending").as_slice()),
        executed_plan_registry_count: 2,
        result_plan_occurrences: 0,
    }
}

/// A save-validation answer marks the trade enabled when its status is one of
/// the accepted ones.
pub open spec fn validation_step(s: ClientStateV, payload: Seq<u8>) -> ClientStateV {
    match read_payload(payload) {
        Ok(m) => if m.contains_key("status"@) && (m["status"@] == "baseline_verified"@ || m["status"@] == "none"@
            || m["status"@] == "async_proposal_present"@) {
            ClientStateV { baseline_verified: true, validation_received: true, ..s }
        } else {
            s
        },
        Err(_) => s,
    }
}

/// A submission answer shows the submitted proposal, or keeps the error.
pub open spec fn review_step(s: ClientStateV, payload: Seq<u8>, pid: u32) -> ClientStateV {
    let s1 = ClientStateV { review_request_pending: false, ..s };
    match read_payload(payload) {
        Ok(m) => if m.contains_key("status"@) && m["status"@] == "submitted"@ {
            ClientStateV {
                async_status_view: Some(submitted_view(m, pid)),
                async_status_error: None,
                return_to_profile_pending: true,
                async_status_ui_dirty: true,
                ..s1
            }
        } else {
            ClientStateV {
                review_error: Some(
                    ClientMessageV::Server(lenient_text_spec(m, "detail"@, "async proposal submission failed"@)),
                ),
                quote_ui_dirty: true,
                ..s1
            }
        },
        Err(e) => ClientStateV {
            review_error: Some(ClientMessageV::Read(ViewFault::Field(payload_fault(e)))),
            quote_ui_dirty: true,
            ..s1
        },
    }
}

/// A status answer records whether the season's trade is used, then shows the
/// status or keeps the error.
pub open spec fn status_step(s: ClientStateV, payload: Seq<u8>) -> ClientStateV {
    let season = match read_payload(payload) {
        Ok(m) => if m.contains_key("season_used"@) {
            m["season_used"@] == "true"@
        } else {
            s.season_used
        },
        Err(_) => s.season_used,
    };
    let s1 = ClientStateV { async_status_query_pending: false, season_used: season, ..s };
    match read_payload(payload) {
        Err(e) => ClientStateV { async_status_error: Some(ClientMessageV::Read(ViewFault::Field(payload_fault(e)))), ..s1 },
        Ok(m) => match async_status_spec(m) {
            Ok(v) => ClientStateV { async_status_view: Some(v), async_status_error: None, async_status_ui_dirty: true, ..s1 },
            Err(f) => ClientStateV { async_status_error: Some(ClientMessageV::Read(f)), ..s1 },
        },
    }
}

/// A first-offer status answer shows the status when it reads.
pub open spec fn native_step(s: ClientStateV, payload: Seq<u8>) -> ClientStateV {
    let s1 = ClientStateV { native_offer_status_query_pending: false, ..s };
    match read_payload(payload) {
        Ok(m) => match native_status_spec(m) {
            Ok(v) => ClientStateV { native_offer_status_view: Some(v), ..s1 },
            Err(_) => s1,
        },
        Err(_) => s1,
    }
}

/// The state after a quote failed with this message.
pub open spec fn quote_failed(s: ClientStateV, msg: ClientMessageV) -> ClientStateV {
    ClientStateV { quote_error: Some(msg), cash_input_state: 2, quote_ui_dirty: true, ..s }
}

/// A quote answer for the selected pair shows the quote; one for another pair
/// is ignored; a failed one keeps its message.
pub open spec fn quote_step(s: ClientStateV, payload: Seq<u8>, current_offered: usize, current_target: usize) -> ClientStateV {
    match read_payload(payload) {
        Err(e) => quote_failed(s, ClientMessageV::Read(ViewFault::Field(payload_fault(e)))),
        Ok(m) => if need_text(m, "status"@) is Some {
            quote_failed(s, ClientMessageV::Read(ViewFault::Field(need_text(m, "status"@)->0)))
        } else if m["status"@] == "ok"@ {
            match parse_quote_view_spec(m) {
                Ok(q) => if q.offered_id != current_offered || q.target_id != current_target {
                    s
                } else {
                    ClientStateV { quote_error: None, quote_view: Some(q), quote_ui_dirty: true, ..s }
                },
                Err(f) => quote_failed(s, ClientMessageV::Read(f)),
            }
        } else if m["status"@] == "error"@ {
            if need_text(m, "detail"@) is Some {
                quote_failed(s, ClientMessageV::Read(ViewFault::Field(need_text(m, "detail"@)->0)))
            } else {
                quote_failed(s, ClientMessageV::Server(m["detail"@]))
            }
        } else {
            quote_failed(s, ClientMessageV::UnexpectedStatus(m["status"@]))
        },
    }
}

/// What one answer (event name and payload) does to the state.
pub open spec fn client_step(
    s: ClientStateV,
    event: Seq<char>,
    payload: Seq<u8>,
    current_offered: usize,
    current_target: usize,
    pid: u32,
) -> ClientStateV {
    if event == "saved_trade_commit_validation_result"@ {
        validation_step(s, payload)
    } else if event == "replacement_floor_audit_result"@ {
        ClientStateV { floor_audit_received: true, ..s }
    } else if event == "async_trade_proposal_submit_result"@ {
        review_step(s, payload, pid)
    } else if event == "async_trade_proposal_status_result"@ {
        status_step(s, payload)
    } else if event == "first_active_offer_status_result"@ {
        native_step(s, payload)
    } else if event == "trade_quote_result"@ {
        quote_step(s, payload, current_offered, current_target)
    } else {
        s
    }
}

fn apply_validation(s: &mut ClientTradeState, payload: &[u8])
    ensures
        final(s)@ == validation_step(old(s)@, payload@),
{
    if let Ok(m) = parse_kv_payload(payload) {
        if let Some(st) = m.get_str("status") {
            if text_is(st.as_slice(), "baseline_verified") || text_is(st.as_slice(), "none") || text_is(
                st.as_slice(),
                "async_proposal_present",
            ) {
                s.baseline_verified = true;
                s.validation_received = true;
            }
        }
    }
}

fn apply_review(s: &mut ClientTradeState, payload: &[u8], pid: u32)
    ensures
        final(s)@ == review_step(old(s)@, payload@, pid),
{
    s.review_request_pending = false;
    match parse_kv_payload(payload) {
        Ok(m) => {
            let submitted = match m.get_str("status") {
                Some(st) => text_is(st.as_slice(), "submitted"),
                None => false,
            };
            if submitted {
                s.async_status_view = Some(submitted_view_exec(&m, pid));
                s.async_status_error = None;
                s.return_to_profile_pending = true;
                s.async_status_ui_dirty = true;
            } else {
                s.review_error = Some(ClientMessage::Server(lenient_text(&m, "detail", "async proposal submission failed")));
                s.quote_ui_dirty = true;
            }
        },
        Err(e) => {
            s.review_error = Some(ClientMessage::Read(ViewError::Field(from_kv_error(e))));
            s.quote_ui_dirty = true;
        },
    }
}

#[verifier::rlimit(80)]
#[verifier::spinoff_prover]
fn apply_status(s: &mut ClientTradeState, payload: &[u8])
    ensures
        final(s)@ == status_step(old(s)@, payload@),
{
    s.async_status_query_pending = false;
    match parse_kv_payload(payload) {
        Err(e) => {
            s.async_status_error = Some(ClientMessage::Read(ViewError::Field(from_kv_error(e))));
        },
        Ok(m) => {
            if let Some(raw) = m.get_str("season_used") {
                s.season_used = text_is(raw.as_slice(), "true");
            }
            match parse_async_status_view(&m) {
                Ok(v) => {
                    s.async_status_view = Some(v);
                    s.async_status_error = None;
                    s.async_status_ui_dirty = true;
                },
                Err(e) => {
                    s.async_status_error = Some(ClientMessage::Read(e));
                },
            }
        },
    }
}

fn apply_native(s: &mut ClientTradeState, payload: &[u8])
    ensures
        final(s)@ == native_step(old(s)@, payload@),
{
    s.native_offer_status_query_pending = false;
    if let Ok(m) = parse_kv_payload(payload) {
        if let Ok(v) = parse_native_offer_status_view(&m) {
            s.native_offer_status_view = Some(v);
        }
    }
}

fn quote_fail(s: &mut ClientTradeState, msg: ClientMessage)
    ensures
        final(s)@ == quote_failed(old(s)@, msg@),
{
    s.quote_error = Some(msg);
    s.cash_input_state = 2;
    s.quote_ui_dirty = true;
}

fn apply_quote(s: &mut ClientTradeState, payload: &[u8], current_offered: usize, current_target: usize)
    ensures
        final(s)@ == quote_step(old(s)@, payload@, current_offered, current_target),
{
    match parse_kv_payload(payload) {
        Err(e) => quote_fail(s, ClientMessage::Read(ViewError::Field(from_kv_error(e)))),
        Ok(m) => {
            let status = match text_field(&m, "status") {
                Ok(st) => st,
                Err(e) => {
                    quote_fail(s, ClientMessage::Read(ViewError::Field(e)));
                    return;
                },
            };
            let sc = chars_of(status.as_str());
            if text_is(sc.as_slice(), "ok") {
                match parse_quote_view(&m) {
                    Ok(q) => {
                        if q.offered_id != current_offered || q.target_id != current_target {
                            return;
                        }
                        s.quote_error = None;
                        s.quote_view = Some(q);
                        s.quote_ui_dirty = true;
                    },
                    Err(e) => quote_fail(s, ClientMessage::Read(e)),
                }
            } else if text_is(sc.as_slice(), "error") {
                match text_field(&m, "detail") {
                    Ok(d) => quote_fail(s, ClientMessage::Server(d)),
                    Err(e) => quote_fail(s, ClientMessage::Read(ViewError::Field(e))),
                }
            } else {
                quote_fail(s, ClientMessage::UnexpectedStatus(status));
            }
        },
    }
}

/// Applies one answer of the server to the state.  A quote for a pair other
/// than the one now selected is ignored.
pub fn handle_mod_event(
    s: &mut ClientTradeState,
    event: &str,
    payload: &[u8],
    current_offered: usize,
    current_target: usize,
    pid: u32,
)
    ensures
        final(s)@ == client_step(old(s)@, event@, payload@, current_offered, current_target, pid),
        final(s)@.quote_view != old(s)@.quote_view ==> (final(s)@.quote_view matches Some(v) && v.offered_id
            == current_offered && v.target_id == current_target),
{
    proof {
        lemma_quote_only_for_selected_pair(
            old(s)@,
            payload@,
            current_offered,
            current_target,
            pid,
            vstd::pervasive::arbitrary(),
        );
        assert(client_step(old(s)@, event@, payload@, current_offered, current_target, pid).quote_view
            != old(s)@.quote_view ==> (client_step(old(s)@, event@, payload@, current_offered, current_target, pid).quote_view matches Some(v) && v.offered_id
            == current_offered && v.target_id == current_target));
    }
    let ev = chars_of(event);
    if text_is(ev.as_slice(), "saved_trade_commit_validation_result") {
        apply_validation(s, payload);
    } else if text_is(ev.as_slice(), "replacement_floor_audit_result") {
        s.floor_audit_received = true;
    } else if text_is(ev.as_slice(), "async_trade_proposal_submit_result") {
        apply_review(s, payload, pid);
    } else if text_is(ev.as_slice(), "async_trade_proposal_status_result") {
        apply_status(s, payload);
    } else if text_is(ev.as_slice(), "first_active_offer_status_result") {
        apply_native(s, payload);
    } else if text_is(ev.as_slice(), "trade_quote_result") {
        apply_quote(s, payload, current_offered, current_target);
    }
}

/// The position of a key among the lines of a submission answer.
pub open spec fn submitted_key_index(k: Seq<char>) -> int {
    if k == "status"@ {
        0
    } else if k == "proposal_present"@ {
        1
    } else if k == "proposal_id"@ {
        2
    } else if k == "state"@ {
        3
    } else if k == "stage_ko"@ {
        4
    } else if k == "offered_id"@ {
        5
    } else if k == "target_id"@ {
        6
    } else if k == "offered_name"@ {
        7
    } else if k == "target_name"@ {
        8
    } else if k == "requester_team_id"@ {
        9
    } else if k == "recipient_team_id"@ {
        10
    } else if k == "requester_team_name"@ {
        11
    } else if k == "recipient_team_name"@ {
        12
    } else if k == "proposed_units"@ {
        13
    } else if k == "desired_status_label"@ {
        14
    } else if k == "game_time"@ {
        15
    } else if k == "submitted_at"@ {
        16
    } else if k == "seller_due_at"@ {
        17
    } else if k == "player_due_at"@ {
        18
    } else if k == "team_mutation"@ {
        19
    } else if k == "finance_mutation"@ {
        20
    } else if k == "contract_mutation"@ {
        21
    } else if k == "transaction_executed"@ {
        22
    } else {
        -1
    }
}

/// The lines of a submission answer have pairwise different keys, each of
/// which reads back.
#[verifier::spinoff_prover]
#[verifier::rlimit(100)]
proof fn lemma_submitted_keys_distinct(p: AsyncTradeProposal, rn: Seq<char>, cn: Seq<char>, gt: Seq<char>)
    ensures
        forall|a: int, b: int|
            0 <= a < b < submitted_fields(p, rn, cn, gt).len() ==> #[trigger] submitted_fields(p, rn, cn, gt)[a].0
                != #[trigger] submitted_fields(p, rn, cn, gt)[b].0,
        forall|a: int| 0 <= a < submitted_fields(p, rn, cn, gt).len() ==> key_ok(#[trigger] submitted_fields(p, rn, cn, gt)[a].0),
{
    let f = submitted_fields(p, rn, cn, gt);
    reveal_strlit("status");
    reveal_strlit("proposal_present");
    reveal_strlit("proposal_id");
    reveal_strlit("state");
    reveal_strlit("stage_ko");
    reveal_strlit("offered_id");
    reveal_strlit("target_id");
    reveal_strlit("offered_name");
    reveal_strlit("target_name");
    reveal_strlit("requester_team_id");
    reveal_strlit("recipient_team_id");
    reveal_strlit("requester_team_name");
    reveal_strlit("recipient_team_name");
    reveal_strlit("proposed_units");
    reveal_strlit("desired_status_label");
    reveal_strlit("game_time");
    reveal_strlit("submitted_at");
    reveal_strlit("seller_due_at");
    reveal_strlit("player_due_at");
    reveal_strlit("team_mutation");
    reveal_strlit("finance_mutation");
    reveal_strlit("contract_mutation");
    reveal_strlit("transaction_executed");
    assert("target_name"@[0] != "proposal_id"@[0]);
    assert("recipient_team_id"@[2] != "requester_team_id"@[2]);
    assert("contract_mutation"@[0] != "requester_team_id"@[0]);
    assert("contract_mutation"@[0] != "recipient_team_id"@[0]);
    assert("recipient_team_name"@[2] != "requester_team_name"@[2]);
    assert("game_time"@[0] != "target_id"@[0]);
    assert("submitted_at"@[0] != "offered_name"@[0]);
    assert("player_due_at"@[0] != "seller_due_at"@[0]);
    assert("team_mutation"@[0] != "seller_due_at"@[0]);
    assert("team_mutation"@[0] != "player_due_at"@[0]);
    assert("finance_mutation"@[0] != "proposal_present"@[0]);
    assert("transaction_executed"@[0] != "desired_status_label"@[0]);
    assert forall|a: int| 0 <= a < 23 implies submitted_key_index(#[trigger] f[a].0) == a && key_ok(f[a].0) by {
        if a == 0 {
            assert(f[0].0 == "status"@);
        } else if a == 1 {
            assert(f[1].0 == "proposal_present"@);
        } else if a == 2 {
            assert(f[2].0 == "proposal_id"@);
        } else if a == 3 {
            assert(f[3].0 == "state"@);
        } else if a == 4 {
            assert(f[4].0 == "stage_ko"@);
        } else if a == 5 {
            assert(f[5].0 == "offered_id"@);
        } else if a == 6 {
            assert(f[6].0 == "target_id"@);
        } else if a == 7 {
            assert(f[7].0 == "offered_name"@);
        } else if a == 8 {
            assert(f[8].0 == "target_name"@);
        } else if a == 9 {
            assert(f[9].0 == "requester_team_id"@);
        } else if a == 10 {
            assert(f[10].0 == "recipient_team_id"@);
        } else if a == 11 {
            assert(f[11].0 == "requester_team_name"@);
        } else if a == 12 {
            assert(f[12].0 == "recipient_team_name"@);
        } else if a == 13 {
            assert(f[13].0 == "proposed_units"@);
        } else if a == 14 {
            assert(f[14].0 == "desired_status_label"@);
        } else if a == 15 {
            assert(f[15].0 == "game_time"@);
        } else if a == 16 {
            assert(f[16].0 == "submitted_at"@);
        } else if a == 17 {
            assert(f[17].0 == "seller_due_at"@);
        } else if a == 18 {
            assert(f[18].0 == "player_due_at"@);
        } else if a == 19 {
            assert(f[19].0 == "team_mutation"@);
        } else if a == 20 {
            assert(f[20].0 == "finance_mutation"@);
        } else if a == 21 {
            assert(f[21].0 == "contract_mutation"@);
        } else if a == 22 {
            assert(f[22].0 == "transaction_executed"@);
        }
    }
    assert forall|a: int, b: int| 0 <= a < b < f.len() implies #[trigger] f[a].0 != #[trigger] f[b].0 by {
        assert(submitted_key_index(f[a].0) == a);
        assert(submitted_key_index(f[b].0) == b);
    }
}

/// A submission answer reads back, on the client, as the proposal that was
/// submitted: the screen shows it under review with its ids, names, units,
/// promised role and review dates as sent (names sanitized), and returns to
/// the player's profile.  It holds whenever every text that is sent survives
/// a line of its own (a name that ends in whitespace would come back
/// trimmed).
#[verifier::spinoff_prover]
#[verifier::rlimit(100)]
pub proof fn lemma_submitted_reads_back(
    s: ClientStateV,
    p: AsyncTradeProposal,
    requester_team_name: Seq<char>,
    recipient_team_name: Seq<char>,
    game_time: Seq<char>,
    pid: u32,
)
    requires
        value_ok(p.proposal_id@),
        value_ok(sanitize_spec(p.offered_name@)),
        value_ok(sanitize_spec(p.target_name@)),
        value_ok(sanitize_spec(requester_team_name)),
        value_ok(sanitize_spec(recipient_team_name)),
        value_ok(game_time),
        value_ok(p.submitted_at@),
        value_ok(p.seller_due_at@),
        value_ok(p.player_due_at@),
    ensures
        review_step(s, payload_bytes(submitted_fields(p, requester_team_name, recipient_team_name, game_time)), pid)
            == (ClientStateV {
            review_request_pending: false,
            async_status_view: Some(
                AsyncStatusViewV {
                    proposal_present: true,
                    proposal_id: p.proposal_id@,
                    state: state_name(p.state),
                    stage_ko: stage_ko_spec(p.state),
                    requester_team_id: p.requester_team_id,
                    recipient_team_id: p.recipient_team_id,
                    requester_team_name: sanitize_spec(requester_team_name),
                    recipient_team_name: sanitize_spec(recipient_team_name),
                    target_id: p.target_id,
                    offered_id: p.offered_id,
                    target_name: sanitize_spec(p.target_name@),
                    offered_name: sanitize_spec(p.offered_name@),
                    target_position_label: Seq::<char>::empty(),
                    target_position_icon: Seq::<char>::empty(),
                    target_contract_end: Seq::<char>::empty(),
                    target_yearly_salary: "0"@,
                    proposed_units: p.proposed_units,
                    desired_status_label: status_label_of(p.desired_status_choice),
                    game_time: game_time,
                    submitted_at: p.submitted_at@,
                    seller_due_at: p.seller_due_at@,
                    player_due_at: p.player_due_at@,
                    completed_at: Seq::<char>::empty(),
                    rejection_reason_ko: Seq::<char>::empty(),
                    result_plan_id: Seq::<char>::empty(),
                    success_news_count: 0,
                    submit_process_id: pid,
                    commit_process_id: 0,
                    current_process_id: pid,
                    offered_team_current: 7,
                    target_team_current: usize::MAX,
                    target_status_current: "pending"@,
                    target_contracted_status_current: "pending"@,
                    executed_plan_registry_count: 2,
                    result_plan_occurrences: 0,
                },
            ),
            async_status_error: None,
            return_to_profile_pending: true,
            async_status_ui_dirty: true,
            ..s
        }),
{
    let f = submitted_fields(p, requester_team_name, recipient_team_name, game_time);
    reveal_strlit("submitted");
    reveal_strlit("true");
    reveal_strlit("false");
    reveal_strlit("SellerReview");
    reveal_strlit("PlayerReview");
    reveal_strlit("Accepted");
    reveal_strlit("Rejected");
    reveal_strlit("Cancelled");
    reveal_strlit("판매 구단 검토");
    reveal_strlit("선수 검토");
    reveal_strlit("트레이드 성사");
    reveal_strlit("트레이드 결렬");
    reveal_strlit("트레이드 취소");
    reveal_strlit("핵심 선수");
    reveal_strlit("주요 선수");
    reveal_strlit("후보 선수");
    reveal_strlit("유망주");
    reveal_strlit("주전 선수");
    lemma_submitted_keys_distinct(p, requester_team_name, recipient_team_name, game_time);
    lemma_dec_value_ok(p.offered_id as nat);
    lemma_parse_dec(p.offered_id as nat, usize::MAX as nat);
    lemma_dec_value_ok(p.target_id as nat);
    lemma_parse_dec(p.target_id as nat, usize::MAX as nat);
    lemma_dec_value_ok(p.requester_team_id as nat);
    lemma_parse_dec(p.requester_team_id as nat, usize::MAX as nat);
    lemma_dec_value_ok(p.recipient_team_id as nat);
    lemma_parse_dec(p.recipient_team_id as nat, usize::MAX as nat);
    lemma_dec_value_ok(p.proposed_units as nat);
    lemma_parse_dec(p.proposed_units as nat, u64::MAX as nat);
    assert(value_ok(f[0].1));
    assert(value_ok(f[1].1));
    assert(value_ok(f[2].1));
    assert(value_ok(f[3].1));
    assert(value_ok(f[4].1));
    assert(value_ok(f[5].1));
    assert(value_ok(f[6].1));
    assert(value_ok(f[7].1));
    assert(value_ok(f[8].1));
    assert(value_ok(f[9].1));
    assert(value_ok(f[10].1));
    assert(value_ok(f[11].1));
    assert(value_ok(f[12].1));
    assert(value_ok(f[13].1));
    assert(value_ok(f[14].1));
    assert(value_ok(f[15].1));
    assert(value_ok(f[16].1));
    assert(value_ok(f[17].1));
    assert(value_ok(f[18].1));
    assert(value_ok(f[19].1));
    assert(value_ok(f[20].1));
    assert(value_ok(f[21].1));
    assert(value_ok(f[22].1));
    assert(fields_ok(f));
    lemma_render_roundtrip(f);
    lemma_fields_map_distinct(f, 0);
    lemma_fields_map_distinct(f, 1);
    lemma_fields_map_distinct(f, 2);
    lemma_fields_map_distinct(f, 3);
    lemma_fields_map_distinct(f, 4);
    lemma_fields_map_distinct(f, 5);
    lemma_fields_map_distinct(f, 6);
    lemma_fields_map_distinct(f, 7);
    lemma_fields_map_distinct(f, 8);
    lemma_fields_map_distinct(f, 9);
    lemma_fields_map_distinct(f, 10);
    lemma_fields_map_distinct(f, 11);
    lemma_fields_map_distinct(f, 12);
    lemma_fields_map_distinct(f, 13);
    lemma_fields_map_distinct(f, 14);
    lemma_fields_map_distinct(f, 15);
    lemma_fields_map_distinct(f, 16);
    lemma_fields_map_distinct(f, 17);
    lemma_fields_map_distinct(f, 18);
    lemma_fields_map_distinct(f, 19);
    lemma_fields_map_distinct(f, 20);
    lemma_fields_map_distinct(f, 21);
    lemma_fields_map_distinct(f, 22);
    let m = fields_map(f);
    assert(m["status"@] == "submitted"@);
    assert(submitted_view(m, pid).requester_team_id == p.requester_team_id);
    assert(submitted_view(m, pid).proposed_units == p.proposed_units);
}

/// The position of a key among the lines of a status answer that carries a
/// proposal.
pub open spec fn status_key_index(k: Seq<char>) -> int {
    if k == "season_used"@ {
        0
    } else if k == "status"@ {
        1
    } else if k == "proposal_present"@ {
        2
    } else if k == "proposal_id"@ {
        3
    } else if k == "state"@ {
        4
    } else if k == "stage_ko"@ {
        5
    } else if k == "requester_team_id"@ {
        6
    } else if k == "recipient_team_id"@ {
        7
    } else if k == "offered_id"@ {
        8
    } else if k == "target_id"@ {
        9
    } else if k == "offered_name"@ {
        10
    } else if k == "target_name"@ {
        11
    } else if k == "requester_team_name"@ {
        12
    } else if k == "recipient_team_name"@ {
        13
    } else if k == "target_position_label"@ {
        14
    } else if k == "target_position_icon"@ {
        15
    } else if k == "target_contract_end"@ {
        16
    } else if k == "target_yearly_salary"@ {
        17
    } else if k == "proposed_units"@ {
        18
    } else if k == "desired_status_label"@ {
        19
    } else if k == "game_time"@ {
        20
    } else if k == "proposed_cash_won"@ {
        21
    } else if k == "desired_status_choice"@ {
        22
    } else if k == "desired_status_key"@ {
        23
    } else if k == "submitted_at"@ {
        24
    } else if k == "seller_due_at"@ {
        25
    } else if k == "player_due_at"@ {
        26
    } else if k == "completed_at"@ {
        27
    } else if k == "rejection_actor"@ {
        28
    } else if k == "rejection_reason"@ {
        29
    } else if k == "rejection_reason_ko"@ {
        30
    } else if k == "result_plan_id"@ {
        31
    } else if k == "success_news_count"@ {
        32
    } else if k == "transition_count"@ {
        33
    } else if k == "submit_process_id"@ {
        34
    } else if k == "commit_process_id"@ {
        35
    } else if k == "current_process_id"@ {
        36
    } else if k == "offered_team_current"@ {
        37
    } else if k == "target_team_current"@ {
        38
    } else if k == "target_status_current"@ {
        39
    } else if k == "target_contracted_status_current"@ {
        40
    } else if k == "executed_plan_registry_count"@ {
        41
    } else if k == "result_plan_occurrences"@ {
        42
    } else if k == "database_mutation"@ {
        43
    } else if k == "transaction_executed"@ {
        44
    } else if k == "save_api_called"@ {
        45
    } else {
        -1
    }
}

/// The lines of a status answer that carries a proposal have pairwise
/// different keys, each of which reads back.
#[verifier::spinoff_prover]
#[verifier::rlimit(100)]
proof fn lemma_status_keys_distinct(season_used: bool, game_time: String, pid: u32, p: AsyncTradeProposal, c: AsyncStatusContext)
    ensures
        forall|a: int, b: int|
            0 <= a < b < async_status_fields(season_used, game_time, pid, Some((p, c))).len()
                ==> #[trigger] async_status_fields(season_used, game_time, pid, Some((p, c)))[a].0
                != #[trigger] async_status_fields(season_used, game_time, pid, Some((p, c)))[b].0,
        forall|a: int|
            0 <= a < async_status_fields(season_used, game_time, pid, Some((p, c))).len() ==> key_ok(
                #[trigger] async_status_fields(season_used, game_time, pid, Some((p, c)))[a].0,
            ),
{
    let f = async_status_fields(season_used, game_time, pid, Some((p, c)));
    reveal_strlit("season_used");
    reveal_strlit("status");
    reveal_strlit("proposal_present");
    reveal_strlit("proposal_id");
    reveal_strlit("state");
    reveal_strlit("stage_ko");
    reveal_strlit("requester_team_id");
    reveal_strlit("recipient_team_id");
    reveal_strlit("offered_id");
    reveal_strlit("target_id");
    reveal_strlit("offered_name");
    reveal_strlit("target_name");
    reveal_strlit("requester_team_name");
    reveal_strlit("recipient_team_name");
    reveal_strlit("target_position_label");
    reveal_strlit("target_position_icon");
    reveal_strlit("target_contract_end");
    reveal_strlit("target_yearly_salary");
    reveal_strlit("proposed_units");
    reveal_strlit("desired_status_label");
    reveal_strlit("game_time");
    reveal_strlit("proposed_cash_won");
    reveal_strlit("desired_status_choice");
    reveal_strlit("desired_status_key");
    reveal_strlit("submitted_at");
    reveal_strlit("seller_due_at");
    reveal_strlit("player_due_at");
    reveal_strlit("completed_at");
    reveal_strlit("rejection_actor");
    reveal_strlit("rejection_reason");
    reveal_strlit("rejection_reason_ko");
    reveal_strlit("result_plan_id");
    reveal_strlit("success_news_count");
    reveal_strlit("transition_count");
    reveal_strlit("submit_process_id");
    reveal_strlit("commit_process_id");
    reveal_strlit("current_process_id");
    reveal_strlit("offered_team_current");
    reveal_strlit("target_team_current");
    reveal_strlit("target_status_current");
    reveal_strlit("target_contracted_status_current");
    reveal_strlit("executed_plan_registry_count");
    reveal_strlit("result_plan_occurrences");
    reveal_strlit("database_mutation");
    reveal_strlit("transaction_executed");
    reveal_strlit("save_api_called");
    assert("proposal_id"@[0] != "season_used"@[0]);
    assert("recipient_team_id"@[2] != "requester_team_id"@[2]);
    assert("target_name"@[0] != "season_used"@[0]);
    assert("target_name"@[0] != "proposal_id"@[0]);
    assert("recipient_team_name"@[2] != "requester_team_name"@[2]);
    assert("target_contract_end"@[0] != "requester_team_name"@[0]);
    assert("target_contract_end"@[0] != "recipient_team_name"@[0]);
    assert("target_yearly_salary"@[7] != "target_position_icon"@[7]);
    assert("desired_status_label"@[0] != "target_position_icon"@[0]);
    assert("desired_status_label"@[0] != "target_yearly_salary"@[0]);
    assert("game_time"@[0] != "target_id"@[0]);
    assert("proposed_cash_won"@[0] != "requester_team_id"@[0]);
    assert("proposed_cash_won"@[0] != "recipient_team_id"@[0]);
    assert("desired_status_choice"@[0] != "target_position_label"@[0]);
    assert("submitted_at"@[0] != "offered_name"@[0]);
    assert("player_due_at"@[0] != "seller_due_at"@[0]);
    assert("completed_at"@[0] != "offered_name"@[0]);
    assert("completed_at"@[0] != "submitted_at"@[0]);
    assert("rejection_reason"@[0] != "proposal_present"@[0]);
    assert("rejection_reason_ko"@[2] != "requester_team_name"@[2]);
    assert("rejection_reason_ko"@[2] != "recipient_team_name"@[2]);
    assert("rejection_reason_ko"@[0] != "target_contract_end"@[0]);
    assert("result_plan_id"@[0] != "proposed_units"@[0]);
    assert("success_news_count"@[0] != "desired_status_key"@[0]);
    assert("transition_count"@[0] != "proposal_present"@[0]);
    assert("transition_count"@[0] != "rejection_reason"@[0]);
    assert("submit_process_id"@[0] != "requester_team_id"@[0]);
    assert("submit_process_id"@[0] != "recipient_team_id"@[0]);
    assert("submit_process_id"@[0] != "proposed_cash_won"@[0]);
    assert("commit_process_id"@[0] != "requester_team_id"@[0]);
    assert("commit_process_id"@[0] != "recipient_team_id"@[0]);
    assert("commit_process_id"@[0] != "proposed_cash_won"@[0]);
    assert("commit_process_id"@[0] != "submit_process_id"@[0]);
    assert("current_process_id"@[0] != "desired_status_key"@[0]);
    assert("current_process_id"@[0] != "success_news_count"@[0]);
    assert("offered_team_current"@[0] != "target_position_icon"@[0]);
    assert("offered_team_current"@[0] != "target_yearly_salary"@[0]);
    assert("offered_team_current"@[0] != "desired_status_label"@[0]);
    assert("target_team_current"@[0] != "requester_team_name"@[0]);
    assert("target_team_current"@[0] != "recipient_team_name"@[0]);
    assert("target_team_current"@[7] != "target_contract_end"@[7]);
    assert("target_team_current"@[0] != "rejection_reason_ko"@[0]);
    assert("target_status_current"@[7] != "target_position_label"@[7]);
    assert("target_status_current"@[0] != "desired_status_choice"@[0]);
    assert("database_mutation"@[0] != "requester_team_id"@[0]);
    assert("database_mutation"@[0] != "recipient_team_id"@[0]);
    assert("database_mutation"@[0] != "proposed_cash_won"@[0]);
    assert("database_mutation"@[0] != "submit_process_id"@[0]);
    assert("database_mutation"@[0] != "commit_process_id"@[0]);
    assert("transaction_executed"@[1] != "target_position_icon"@[1]);
    assert("transaction_executed"@[1] != "target_yearly_salary"@[1]);
    assert("transaction_executed"@[0] != "desired_status_label"@[0]);
    assert("transaction_executed"@[0] != "offered_team_current"@[0]);
    assert("save_api_called"@[0] != "rejection_actor"@[0]);
    assert forall|a: int| 0 <= a < 46 implies status_key_index(#[trigger] f[a].0) == a && key_ok(f[a].0) by {
        if a == 0 {
            assert(f[0].0 == "season_used"@);
        } else if a == 1 {
            assert(f[1].0 == "status"@);
        } else if a == 2 {
            assert(f[2].0 == "proposal_present"@);
        } else if a == 3 {
            assert(f[3].0 == "proposal_id"@);
        } else if a == 4 {
            assert(f[4].0 == "state"@);
        } else if a == 5 {
            assert(f[5].0 == "stage_ko"@);
        } else if a == 6 {
            assert(f[6].0 == "requester_team_id"@);
        } else if a == 7 {
            assert(f[7].0 == "recipient_team_id"@);
        } else if a == 8 {
            assert(f[8].0 == "offered_id"@);
        } else if a == 9 {
            assert(f[9].0 == "target_id"@);
        } else if a == 10 {
            assert(f[10].0 == "offered_name"@);
        } else if a == 11 {
            assert(f[11].0 == "target_name"@);
        } else if a == 12 {
            assert(f[12].0 == "requester_team_name"@);
        } else if a == 13 {
            assert(f[13].0 == "recipient_team_name"@);
        } else if a == 14 {
            assert(f[14].0 == "target_position_label"@);
        } else if a == 15 {
            assert(f[15].0 == "target_position_icon"@);
        } else if a == 16 {
            assert(f[16].0 == "target_contract_end"@);
        } else if a == 17 {
            assert(f[17].0 == "target_yearly_salary"@);
        } else if a == 18 {
            assert(f[18].0 == "proposed_units"@);
        } else if a == 19 {
            assert(f[19].0 == "desired_status_label"@);
        } else if a == 20 {
            assert(f[20].0 == "game_time"@);
        } else if a == 21 {
            assert(f[21].0 == "proposed_cash_won"@);
        } else if a == 22 {
            assert(f[22].0 == "desired_status_choice"@);
        } else if a == 23 {
            assert(f[23].0 == "desired_status_key"@);
        } else if a == 24 {
            assert(f[24].0 == "submitted_at"@);
        } else if a == 25 {
            assert(f[25].0 == "seller_due_at"@);
        } else if a == 26 {
            assert(f[26].0 == "player_due_at"@);
        } else if a == 27 {
            assert(f[27].0 == "completed_at"@);
        } else if a == 28 {
            assert(f[28].0 == "rejection_actor"@);
        } else if a == 29 {
            assert(f[29].0 == "rejection_reason"@);
        } else if a == 30 {
            assert(f[30].0 == "rejection_reason_ko"@);
        } else if a == 31 {
            assert(f[31].0 == "result_plan_id"@);
        } else if a == 32 {
            assert(f[32].0 == "success_news_count"@);
        } else if a == 33 {
            assert(f[33].0 == "transition_count"@);
        } else if a == 34 {
            assert(f[34].0 == "submit_process_id"@);
        } else if a == 35 {
            assert(f[35].0 == "commit_process_id"@);
        } else if a == 36 {
            assert(f[36].0 == "current_process_id"@);
        } else if a == 37 {
            assert(f[37].0 == "offered_team_current"@);
        } else if a == 38 {
            assert(f[38].0 == "target_team_current"@);
        } else if a == 39 {
            assert(f[39].0 == "target_status_current"@);
        } else if a == 40 {
            assert(f[40].0 == "target_contracted_status_current"@);
        } else if a == 41 {
            assert(f[41].0 == "executed_plan_registry_count"@);
        } else if a == 42 {
            assert(f[42].0 == "result_plan_occurrences"@);
        } else if a == 43 {
            assert(f[43].0 == "database_mutation"@);
        } else if a == 44 {
            assert(f[44].0 == "transaction_executed"@);
        } else if a == 45 {
            assert(f[45].0 == "save_api_called"@);
        }
    }
    assert forall|a: int, b: int| 0 <= a < b < f.len() implies #[trigger] f[a].0 != #[trigger] f[b].0 by {
        assert(status_key_index(f[a].0) == a);
        assert(status_key_index(f[b].0) == b);
    }
}

/// A status answer that carries a proposal reads back, on the client, as
/// that proposal and the state around it: ids, names and texts as sent
/// (those that are sanitized, sanitized), the numbers, the review dates, and
/// whether the season's trade is used.  It holds whenever every text that is
/// sent survives a line of its own (a name that ends in whitespace would come
/// back trimmed).
#[verifier::spinoff_prover]
#[verifier::rlimit(100)]
pub proof fn lemma_status_reads_back(
    s: ClientStateV,
    season_used: bool,
    game_time: String,
    pid: u32,
    p: AsyncTradeProposal,
    c: AsyncStatusContext,
)
    requires
        value_ok(p.proposal_id@),
        value_ok(sanitize_spec(p.offered_name@)),
        value_ok(sanitize_spec(p.target_name@)),
        value_ok(sanitize_spec(c.requester_team_name@)),
        value_ok(sanitize_spec(c.recipient_team_name@)),
        value_ok(sanitize_spec(c.target_position_label@)),
        value_ok(sanitize_spec(c.target_position_icon@)),
        value_ok(sanitize_spec(c.target_contract_end@)),
        value_ok(c.target_yearly_salary@),
        value_ok(game_time@),
        value_ok(p.desired_status_key@),
        value_ok(p.submitted_at@),
        value_ok(p.seller_due_at@),
        value_ok(p.player_due_at@),
        value_ok(p.completed_at@),
        value_ok(p.rejection_actor@),
        value_ok(p.rejection_reason@),
        value_ok(sanitize_spec(p.rejection_reason_ko@)),
        value_ok(p.result_plan_id@),
        value_ok(c.target_status_current@),
        value_ok(sanitize_spec(c.target_contracted_status_current@)),
    ensures
        status_step(s, payload_bytes(async_status_fields(season_used, game_time, pid, Some((p, c))))) == (ClientStateV {
            async_status_query_pending: false,
            season_used: season_used,
            async_status_view: Some(
                AsyncStatusViewV {
                    proposal_present: true,
                    proposal_id: p.proposal_id@,
                    state: state_name(p.state),
                    stage_ko: stage_ko_spec(p.state),
                    requester_team_id: p.requester_team_id,
                    recipient_team_id: p.recipient_team_id,
                    requester_team_name: sanitize_spec(c.requester_team_name@),
                    recipient_team_name: sanitize_spec(c.recipient_team_name@),
                    target_id: p.target_id,
                    offered_id: p.offered_id,
                    target_name: sanitize_spec(p.target_name@),
                    offered_name: sanitize_spec(p.offered_name@),
                    target_position_label: sanitize_spec(c.target_position_label@),
                    target_position_icon: sanitize_spec(c.target_position_icon@),
                    target_contract_end: sanitize_spec(c.target_contract_end@),
                    target_yearly_salary: c.target_yearly_salary@,
                    proposed_units: p.proposed_units,
                    desired_status_label: status_label_of(p.desired_status_choice),
                    game_time: game_time@,
                    submitted_at: p.submitted_at@,
                    seller_due_at: p.seller_due_at@,
                    player_due_at: p.player_due_at@,
                    completed_at: p.completed_at@,
                    rejection_reason_ko: sanitize_spec(p.rejection_reason_ko@),
                    result_plan_id: p.result_plan_id@,
                    success_news_count: c.success_news_count,
                    submit_process_id: p.submit_process_id,
                    commit_process_id: p.commit_process_id,
                    current_process_id: pid,
                    offered_team_current: c.offered_team_current,
                    target_team_current: c.target_team_current,
                    target_status_current: c.target_status_current@,
                    target_contracted_status_current: sanitize_spec(c.target_contracted_status_current@),
                    executed_plan_registry_count: c.executed_plan_registry_count,
                    result_plan_occurrences: c.result_plan_occurrences,
                },
            ),
            async_status_error: None,
            async_status_ui_dirty: true,
            ..s
        }),
{
    let f = async_status_fields(season_used, game_time, pid, Some((p, c)));
    reveal_strlit("none");
    reveal_strlit("ok");
    reveal_strlit("true");
    reveal_strlit("false");
    reveal_strlit("SellerReview");
    reveal_strlit("PlayerReview");
    reveal_strlit("Accepted");
    reveal_strlit("Rejected");
    reveal_strlit("Cancelled");
    reveal_strlit("판매 구단 검토");
    reveal_strlit("선수 검토");
    reveal_strlit("트레이드 성사");
    reveal_strlit("트레이드 결렬");
    reveal_strlit("트레이드 취소");
    reveal_strlit("핵심 선수");
    reveal_strlit("주요 선수");
    reveal_strlit("후보 선수");
    reveal_strlit("유망주");
    reveal_strlit("주전 선수");
    lemma_status_keys_distinct(season_used, game_time, pid, p, c);
    lemma_dec_value_ok(p.requester_team_id as nat);
    lemma_parse_dec(p.requester_team_id as nat, usize::MAX as nat);
    lemma_parse_dec(p.requester_team_id as nat, u64::MAX as nat);
    lemma_dec_value_ok(p.recipient_team_id as nat);
    lemma_parse_dec(p.recipient_team_id as nat, usize::MAX as nat);
    lemma_parse_dec(p.recipient_team_id as nat, u64::MAX as nat);
    lemma_dec_value_ok(p.offered_id as nat);
    lemma_parse_dec(p.offered_id as nat, usize::MAX as nat);
    lemma_parse_dec(p.offered_id as nat, u64::MAX as nat);
    lemma_dec_value_ok(p.target_id as nat);
    lemma_parse_dec(p.target_id as nat, usize::MAX as nat);
    lemma_parse_dec(p.target_id as nat, u64::MAX as nat);
    lemma_dec_value_ok(c.success_news_count as nat);
    lemma_parse_dec(c.success_news_count as nat, usize::MAX as nat);
    lemma_parse_dec(c.success_news_count as nat, u64::MAX as nat);
    lemma_dec_value_ok(c.offered_team_current as nat);
    lemma_parse_dec(c.offered_team_current as nat, usize::MAX as nat);
    lemma_parse_dec(c.offered_team_current as nat, u64::MAX as nat);
    lemma_dec_value_ok(c.target_team_current as nat);
    lemma_parse_dec(c.target_team_current as nat, usize::MAX as nat);
    lemma_parse_dec(c.target_team_current as nat, u64::MAX as nat);
    lemma_dec_value_ok(c.executed_plan_registry_count as nat);
    lemma_parse_dec(c.executed_plan_registry_count as nat, usize::MAX as nat);
    lemma_parse_dec(c.executed_plan_registry_count as nat, u64::MAX as nat);
    lemma_dec_value_ok(c.result_plan_occurrences as nat);
    lemma_parse_dec(c.result_plan_occurrences as nat, usize::MAX as nat);
    lemma_parse_dec(c.result_plan_occurrences as nat, u64::MAX as nat);
    lemma_dec_value_ok(p.proposed_units as nat);
    lemma_parse_dec(p.proposed_units as nat, u64::MAX as nat);
    lemma_dec_value_ok(p.proposed_cash_won as nat);
    lemma_parse_dec(p.proposed_cash_won as nat, u64::MAX as nat);
    lemma_dec_value_ok(p.desired_status_choice as nat);
    lemma_parse_dec(p.desired_status_choice as nat, u64::MAX as nat);
    lemma_dec_value_ok(p.transition_count as nat);
    lemma_parse_dec(p.transition_count as nat, u64::MAX as nat);
    lemma_dec_value_ok(p.submit_process_id as nat);
    lemma_parse_dec(p.submit_process_id as nat, u64::MAX as nat);
    lemma_dec_value_ok(p.commit_process_id as nat);
    lemma_parse_dec(p.commit_process_id as nat, u64::MAX as nat);
    lemma_dec_value_ok(pid as nat);
    lemma_parse_dec(pid as nat, u64::MAX as nat);
    assert(value_ok(f[0].1));
    assert(value_ok(f[1].1));
    assert(value_ok(f[2].1));
    assert(value_ok(f[3].1));
    assert(value_ok(f[4].1));
    assert(value_ok(f[5].1));
    assert(value_ok(f[6].1));
    assert(value_ok(f[7].1));
    assert(value_ok(f[8].1));
    assert(value_ok(f[9].1));
    assert(value_ok(f[10].1));
    assert(value_ok(f[11].1));
    assert(value_ok(f[12].1));
    assert(value_ok(f[13].1));
    assert(value_ok(f[14].1));
    assert(value_ok(f[15].1));
    assert(value_ok(f[16].1));
    assert(value_ok(f[17].1));
    assert(value_ok(f[18].1));
    assert(value_ok(f[19].1));
    assert(value_ok(f[20].1));
    assert(value_ok(f[21].1));
    assert(value_ok(f[22].1));
    assert(value_ok(f[23].1));
    assert(value_ok(f[24].1));
    assert(value_ok(f[25].1));
    assert(value_ok(f[26].1));
    assert(value_ok(f[27].1));
    assert(value_ok(f[28].1));
    assert(value_ok(f[29].1));
    assert(value_ok(f[30].1));
    assert(value_ok(f[31].1));
    assert(value_ok(f[32].1));
    assert(value_ok(f[33].1));
    assert(value_ok(f[34].1));
    assert(value_ok(f[35].1));
    assert(value_ok(f[36].1));
    assert(value_ok(f[37].1));
    assert(value_ok(f[38].1));
    assert(value_ok(f[39].1));
    assert(value_ok(f[40].1));
    assert(value_ok(f[41].1));
    assert(value_ok(f[42].1));
    assert(value_ok(f[43].1));
    assert(value_ok(f[44].1));
    assert(value_ok(f[45].1));
    assert(fields_ok(f));
    lemma_render_roundtrip(f);
    lemma_fields_map_distinct(f, 0);
    lemma_fields_map_distinct(f, 1);
    lemma_fields_map_distinct(f, 2);
    lemma_fields_map_distinct(f, 3);
    lemma_fields_map_distinct(f, 4);
    lemma_fields_map_distinct(f, 5);
    lemma_fields_map_distinct(f, 6);
    lemma_fields_map_distinct(f, 7);
    lemma_fields_map_distinct(f, 8);
    lemma_fields_map_distinct(f, 9);
    lemma_fields_map_distinct(f, 10);
    lemma_fields_map_distinct(f, 11);
    lemma_fields_map_distinct(f, 12);
    lemma_fields_map_distinct(f, 13);
    lemma_fields_map_distinct(f, 14);
    lemma_fields_map_distinct(f, 15);
    lemma_fields_map_distinct(f, 16);
    lemma_fields_map_distinct(f, 17);
    lemma_fields_map_distinct(f, 18);
    lemma_fields_map_distinct(f, 19);
    lemma_fields_map_distinct(f, 20);
    lemma_fields_map_distinct(f, 21);
    lemma_fields_map_distinct(f, 22);
    lemma_fields_map_distinct(f, 23);
    lemma_fields_map_distinct(f, 24);
    lemma_fields_map_distinct(f, 25);
    lemma_fields_map_distinct(f, 26);
    lemma_fields_map_distinct(f, 27);
    lemma_fields_map_distinct(f, 28);
    lemma_fields_map_distinct(f, 29);
    lemma_fields_map_distinct(f, 30);
    lemma_fields_map_distinct(f, 31);
    lemma_fields_map_distinct(f, 32);
    lemma_fields_map_distinct(f, 33);
    lemma_fields_map_distinct(f, 34);
    lemma_fields_map_distinct(f, 35);
    lemma_fields_map_distinct(f, 36);
    lemma_fields_map_distinct(f, 37);
    lemma_fields_map_distinct(f, 38);
    lemma_fields_map_distinct(f, 39);
    lemma_fields_map_distinct(f, 40);
    lemma_fields_map_distinct(f, 41);
    lemma_fields_map_distinct(f, 42);
    lemma_fields_map_distinct(f, 43);
    lemma_fields_map_distinct(f, 44);
    lemma_fields_map_distinct(f, 45);
    assert("true"@ =~= seq!['t', 'r', 'u', 'e']);
    assert("false"@ =~= seq!['f', 'a', 'l', 's', 'e']);
    let m = fields_map(f);
    assert(m["status"@] == "ok"@);
    assert(m["season_used"@] == "true"@ <==> season_used);
    assert(need_bool(m, "proposal_present"@) is None && bool_of(m, "proposal_present"@));
    reveal(async_status_spec);
    reveal(parse_async_status_fields_spec);
}

/// A status answer without a stored proposal reads back, on the client, as
/// the empty view at the answer's game time and process, and records whether
/// the season's trade is used.
#[verifier::spinoff_prover]
pub proof fn lemma_no_proposal_status_reads_back(s: ClientStateV, season_used: bool, game_time: String, pid: u32)
    requires
        value_ok(game_time@),
    ensures
        status_step(s, payload_bytes(async_status_fields(season_used, game_time, pid, None))) == (ClientStateV {
            async_status_query_pending: false,
            season_used: season_used,
            async_status_view: Some(
                AsyncStatusViewV { game_time: game_time@, current_process_id: pid, ..no_proposal_view(Map::empty()) },
            ),
            async_status_error: None,
            async_status_ui_dirty: true,
            ..s
        }),
{
    let f = async_status_fields(season_used, game_time, pid, None);
    reveal_strlit("none");
    reveal_strlit("true");
    reveal_strlit("false");
    reveal_strlit("status");
    reveal_strlit("proposal_present");
    reveal_strlit("season_used");
    reveal_strlit("game_time");
    reveal_strlit("current_process_id");
    reveal_strlit("database_mutation");
    lemma_dec_value_ok(pid as nat);
    lemma_parse_dec(pid as nat, u64::MAX as nat);
    assert(value_ok(f[0].1));
    assert(value_ok(f[1].1));
    assert(value_ok(f[2].1));
    assert(value_ok(f[3].1));
    assert(value_ok(f[4].1));
    assert(value_ok(f[5].1));
    assert forall|a: int| 0 <= a < f.len() implies key_ok(#[trigger] f[a].0) by {
        if a == 0 {
            assert(f[0].0 == "status"@);
        } else if a == 1 {
            assert(f[1].0 == "proposal_present"@);
        } else if a == 2 {
            assert(f[2].0 == "season_used"@);
        } else if a == 3 {
            assert(f[3].0 == "game_time"@);
        } else if a == 4 {
            assert(f[4].0 == "current_process_id"@);
        } else {
            assert(f[5].0 == "database_mutation"@);
        }
    }
    assert(fields_ok(f));
    assert forall|a: int, b: int| 0 <= a < b < f.len() implies #[trigger] f[a].0 != #[trigger] f[b].0 by {
        assert(f[a].0.len() != f[b].0.len());
    }
    lemma_render_roundtrip(f);
    lemma_fields_map_distinct(f, 0);
    lemma_fields_map_distinct(f, 1);
    lemma_fields_map_distinct(f, 2);
    lemma_fields_map_distinct(f, 3);
    lemma_fields_map_distinct(f, 4);
    lemma_fields_map_distinct(f, 5);
    let m = fields_map(f);
    assert("true"@ =~= seq!['t', 'r', 'u', 'e']);
    assert(m["season_used"@] == bool_text(season_used));
    reveal(async_status_spec);
    assert(no_proposal_view(m) == AsyncStatusViewV {
        game_time: game_time@,
        current_process_id: pid,
        ..no_proposal_view(Map::empty())
    });
}

/// A quote is shown only for the pair on screen: whatever the answer, the
/// quote shown changes only to a quote of the offered and target players
/// currently selected.  A server's quote for another pair (a late answer
/// for a player no longer offered) leaves the screen's state exactly as it
/// was, and one for the selected pair is shown with that pair.
#[verifier::spinoff_prover]
#[verifier::rlimit(60)]
pub proof fn lemma_quote_only_for_selected_pair(
    s: ClientStateV,
    payload: Seq<u8>,
    current_offered: usize,
    current_target: usize,
    pid: u32,
    q: QuotePayload,
)
    ensures
        ({
            let s2 = client_step(s, "trade_quote_result"@, payload, current_offered, current_target, pid);
            s2.quote_view != s.quote_view ==> (s2.quote_view matches Some(v) && v.offered_id == current_offered
                && v.target_id == current_target)
        }),
        forall|event: Seq<char>|
            #![trigger client_step(s, event, payload, current_offered, current_target, pid)]
            client_step(s, event, payload, current_offered, current_target, pid).quote_view != s.quote_view
                ==> (client_step(s, event, payload, current_offered, current_target, pid).quote_view matches Some(v)
                && v.offered_id == current_offered && v.target_id == current_target),
        ({
            let s2 = client_step(
                s,
                "trade_quote_result"@,
                payload_bytes(quote_fields(q)),
                current_offered,
                current_target,
                pid,
            );
            q.display_min_units <= q.display_max_units && value_ok(sanitize_spec(q.offered_name@)) && value_ok(
                sanitize_spec(q.target_name@),
            ) && value_ok(q.cash_budget_won@) && value_ok(q.profile_label@) && value_ok(sanitize_spec(q.game_time@))
                && value_ok(sanitize_spec(q.cooldown_retry_at@)) ==> {
                &&& (q.offered_id != current_offered || q.target_id != current_target) ==> s2 == s
                &&& (q.offered_id == current_offered && q.target_id == current_target) ==> (s2.quote_view matches Some(
                    v,
                ) && v.offered_id == q.offered_id && v.target_id == q.target_id && s2.quote_error is None)
            }
        }),
{
    reveal_strlit("trade_quote_result");
    reveal_strlit("saved_trade_commit_validation_result");
    reveal_strlit("replacement_floor_audit_result");
    reveal_strlit("async_trade_proposal_submit_result");
    reveal_strlit("async_trade_proposal_status_result");
    reveal_strlit("first_active_offer_status_result");
    assert("trade_quote_result"@.len() != "saved_trade_commit_validation_result"@.len());
    assert("trade_quote_result"@.len() != "replacement_floor_audit_result"@.len());
    assert("trade_quote_result"@.len() != "async_trade_proposal_submit_result"@.len());
    assert("trade_quote_result"@.len() != "async_trade_proposal_status_result"@.len());
    assert("trade_quote_result"@.len() != "first_active_offer_status_result"@.len());
    assert(client_step(s, "trade_quote_result"@, payload_bytes(quote_fields(q)), current_offered, current_target, pid)
        == quote_step(s, payload_bytes(quote_fields(q)), current_offered, current_target));
    if q.display_min_units <= q.display_max_units && value_ok(sanitize_spec(q.offered_name@)) && value_ok(
        sanitize_spec(q.target_name@),
    ) && value_ok(q.cash_budget_won@) && value_ok(q.profile_label@) && value_ok(sanitize_spec(q.game_time@))
        && value_ok(sanitize_spec(q.cooldown_retry_at@)) {
        lemma_quote_reads_back(q);
        reveal_strlit("ok");
        reveal_strlit("status");
        lemma_quote_keys_distinct(q);
        lemma_fields_map_distinct(quote_fields(q), 0);
        let m = fields_map(quote_fields(q));
        assert(quote_fields(q)[0] == ("status"@, "ok"@));
        assert(m.contains_key("status"@) && m["status"@] == "ok"@);
        assert(read_payload(payload_bytes(quote_fields(q))) == Ok::<Map<Seq<char>, Seq<char>>, Option<Seq<char>>>(m));
        assert(need_text(m, "status"@) is None);
        let v = parse_quote_view_spec(m)->Ok_0;
        assert(parse_quote_view_spec(m) is Ok);
        assert(v.offered_id == q.offered_id && v.target_id == q.target_id);
        assert(quote_step(s, payload_bytes(quote_fields(q)), current_offered, current_target) == (if v.offered_id
            != current_offered || v.target_id != current_target {
            s
        } else {
            ClientStateV { quote_error: None, quote_view: Some(v), quote_ui_dirty: true, ..s }
        }));
    }
}

} // verus!

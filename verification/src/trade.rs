//! The rules of a one-for-one trade: who may trade whom, the contract
//! fingerprints that seal a package, the ids that name a sealed command and a
//! proposal, and the cash and role terms a review checks.
use vstd::prelude::*;
use crate::hashing::{fnv1a64_bytes, fnv_spec};
use crate::kv::utf8_bytes;
use crate::status::{rank_of, strongest_existing_rank, trade_role_promise_allows, SquadStatus};
use crate::proposal::{is_terminal, AsyncTradeState};
use crate::text::{append_chars, append_str, chars_of, chars_eq, dec, decimal, hex16, hex_fixed, sanitize_chars, sanitize_spec, string_of};

verus! {

/// The value of one money unit (만원) in won.
pub const MONEY_UNIT_WON: u64 = 10_000;

// ---------------------------------------------------------------------------
// Athletes
// ---------------------------------------------------------------------------

/// A field position.
#[derive(Clone, Copy, Debug, PartialEq, Eq, Structural)]
pub enum Position {
    Top,
    Jungle,
    Mid,
    Bottom,
    Support,
}

/// The order of positions on roster lists.
pub fn custom_position_rank(position: Position) -> (r: u8)
    ensures
        position == Position::Top ==> r == 0,
        position == Position::Jungle ==> r == 1,
        position == Position::Mid ==> r == 2,
        position == Position::Bottom ==> r == 3,
        position == Position::Support ==> r == 4,
{
    match position {
        Position::Top => 0,
        Position::Jungle => 1,
        Position::Mid => 2,
        Position::Bottom => 3,
        Position::Support => 4,
    }
}

/// A team keeps its shape after giving away a player at `outgoing` when it
/// has another player there or gets one back at the same position.
pub fn structural_continuity(count_at_outgoing: usize, outgoing: Position, incoming: Position) -> (r: bool)
    ensures
        r <==> count_at_outgoing > 1 || incoming == outgoing,
{
    count_at_outgoing > 1 || incoming == outgoing
}

/// What is read of an athlete's contract to seal a trade; money amounts are
/// kept as the bits of their `f64` values.
#[derive(Clone, Debug, PartialEq, Eq)]
pub struct AthleteTradeSnapshot {
    pub id: usize,
    pub name: String,
    pub team_id: usize,
    pub start_date: String,
    pub end_date: String,
    pub weekly_salary_bits: u64,
    pub transfer_fee_bits: u64,
    pub incentives_debug: String,
    pub transfer_requests_debug: String,
    pub recruit_requests_debug: String,
    pub squad_status_debug: String,
}

/// The canonical text of a snapshot, fields joined by `|`, money as 16
/// upper-case hexadecimal digits of its bits, text sanitized.
pub open spec fn snapshot_text(s: AthleteTradeSnapshot) -> Seq<char> {
    dec(s.id as nat) + seq!['|'] + sanitize_spec(s.name@) + seq!['|'] + dec(s.team_id as nat) + seq!['|']
        + sanitize_spec(s.start_date@) + seq!['|'] + sanitize_spec(s.end_date@) + seq!['|']
        + hex_fixed(s.weekly_salary_bits as nat, 16) + seq!['|'] + hex_fixed(s.transfer_fee_bits as nat, 16)
        + seq!['|'] + sanitize_spec(s.incentives_debug@) + seq!['|'] + sanitize_spec(s.transfer_requests_debug@)
        + seq!['|'] + sanitize_spec(s.recruit_requests_debug@) + seq!['|'] + sanitize_spec(s.squad_status_debug@)
}

fn push_sanitized(out: &mut Vec<char>, s: &str)
    ensures
        final(out)@ == old(out)@ + sanitize_spec(s@),
{
    let c = chars_of(s);
    let v = sanitize_chars(c.as_slice());
    append_chars(out, v.as_slice());
}

/// FNV-1a of the canonical text of a snapshot: two snapshots with the same
/// fingerprint almost surely describe the same contract.
pub fn athlete_trade_fingerprint(s: &AthleteTradeSnapshot) -> (h: u64)
    ensures
        h == fnv_spec(vstd::utf8::encode_utf8(snapshot_text(*s))),
{
    let mut t: Vec<char> = Vec::new();
    append_chars(&mut t, decimal(s.id as u64).as_slice());
    t.push('|');
    push_sanitized(&mut t, s.name.as_str());
    t.push('|');
    append_chars(&mut t, decimal(s.team_id as u64).as_slice());
    t.push('|');
    push_sanitized(&mut t, s.start_date.as_str());
    t.push('|');
    push_sanitized(&mut t, s.end_date.as_str());
    t.push('|');
    append_chars(&mut t, hex16(s.weekly_salary_bits).as_slice());
    t.push('|');
    append_chars(&mut t, hex16(s.transfer_fee_bits).as_slice());
    t.push('|');
    push_sanitized(&mut t, s.incentives_debug.as_str());
    t.push('|');
    push_sanitized(&mut t, s.transfer_requests_debug.as_str());
    t.push('|');
    push_sanitized(&mut t, s.recruit_requests_debug.as_str());
    t.push('|');
    push_sanitized(&mut t, s.squad_status_debug.as_str());
    assert(t@ =~= snapshot_text(*s));
    let bytes = utf8_bytes(t.as_slice());
    fnv1a64_bytes(bytes.as_slice())
}

fn str_eq(a: &str, b: &str) -> (r: bool)
    ensures
        r == (a@ == b@),
{
    let x = chars_of(a);
    let y = chars_of(b);
    chars_eq(x.as_slice(), y.as_slice())
}

/// `after` is `before` moved to `expected_team_id` with nothing else of the
/// contract changed.
pub open spec fn moved_unchanged(before: AthleteTradeSnapshot, after: AthleteTradeSnapshot, expected_team_id: usize) -> bool {
    &&& after.team_id == expected_team_id
    &&& before.id == after.id
    &&& before.name@ == after.name@
    &&& before.start_date@ == after.start_date@
    &&& before.end_date@ == after.end_date@
    &&& before.weekly_salary_bits == after.weekly_salary_bits
    &&& before.transfer_fee_bits == after.transfer_fee_bits
    &&& before.incentives_debug@ == after.incentives_debug@
    &&& before.transfer_requests_debug@ == after.transfer_requests_debug@
    &&& before.recruit_requests_debug@ == after.recruit_requests_debug@
}

pub fn same_contract_except_team(before: &AthleteTradeSnapshot, after: &AthleteTradeSnapshot, expected_team_id: usize) -> (r: bool)
    ensures
        r == moved_unchanged(*before, *after, expected_team_id),
{
    after.team_id == expected_team_id && before.id == after.id && str_eq(before.name.as_str(), after.name.as_str())
        && str_eq(before.start_date.as_str(), after.start_date.as_str()) && str_eq(
        before.end_date.as_str(),
        after.end_date.as_str(),
    ) && before.weekly_salary_bits == after.weekly_salary_bits && before.transfer_fee_bits == after.transfer_fee_bits
        && str_eq(before.incentives_debug.as_str(), after.incentives_debug.as_str()) && str_eq(
        before.transfer_requests_debug.as_str(),
        after.transfer_requests_debug.as_str(),
    ) && str_eq(before.recruit_requests_debug.as_str(), after.recruit_requests_debug.as_str())
}

// ---------------------------------------------------------------------------
// Who may trade whom
// ---------------------------------------------------------------------------

/// Why a pair of players cannot be traded.
#[derive(Clone, Copy, Debug, PartialEq, Eq, Structural)]
pub enum PairError {
    /// The two players are the same player.
    SamePlayer,
    /// The outgoing player is not the requester's, or the incoming one is.
    WrongOwnership,
}

/// A trade is between two different players, the outgoing one of the
/// requester's team and the incoming one of another team.
pub fn require_fresh_trade_fixture(
    requester_team_id: usize,
    offered_id: usize,
    target_id: usize,
    offered_team_id: usize,
    target_team_id: usize,
) -> (r: Result<(), PairError>)
    ensures
        offered_id == target_id ==> r == Err::<(), PairError>(PairError::SamePlayer),
        offered_id != target_id && (offered_team_id != requester_team_id || target_team_id == requester_team_id)
            ==> r == Err::<(), PairError>(PairError::WrongOwnership),
        offered_id != target_id && offered_team_id == requester_team_id && target_team_id != requester_team_id
            ==> r is Ok,
{
    if offered_id == target_id {
        return Err(PairError::SamePlayer);
    }
    if offered_team_id != requester_team_id || target_team_id == requester_team_id {
        return Err(PairError::WrongOwnership);
    }
    Ok(())
}

/// Why a quote cannot be given for a pair.
#[derive(Clone, Copy, Debug, PartialEq, Eq, Structural)]
pub enum QuoteError {
    /// The outgoing player belongs to another team than the requester.
    OfferedNotRequesters { offered_team_id: usize, requester_team_id: usize },
    /// The incoming player is already the requester's.
    TargetAlreadyRequesters,
    /// The requester would be left without a player at the outgoing position.
    RequesterContinuity,
    /// The search for the threshold returned a result whose checks did not all hold.
    ThresholdFlags,
}

/// The ownership and continuity checks of a quote, in the order they are made.
pub fn quote_pair_checks(
    requester_team_id: usize,
    offered_team_id: usize,
    recipient_team_id: usize,
    requester_continuity_ok: bool,
) -> (r: Result<(), QuoteError>)
    ensures
        offered_team_id != requester_team_id ==> r == Err::<(), QuoteError>(
            QuoteError::OfferedNotRequesters { offered_team_id, requester_team_id },
        ),
        offered_team_id == requester_team_id && recipient_team_id == requester_team_id ==> r == Err::<(), QuoteError>(
            QuoteError::TargetAlreadyRequesters,
        ),
        offered_team_id == requester_team_id && recipient_team_id != requester_team_id && !requester_continuity_ok
            ==> r == Err::<(), QuoteError>(QuoteError::RequesterContinuity),
        offered_team_id == requester_team_id && recipient_team_id != requester_team_id && requester_continuity_ok
            ==> r is Ok,
{
    if offered_team_id != requester_team_id {
        return Err(QuoteError::OfferedNotRequesters { offered_team_id, requester_team_id });
    }
    if recipient_team_id == requester_team_id {
        return Err(QuoteError::TargetAlreadyRequesters);
    }
    if !requester_continuity_ok {
        return Err(QuoteError::RequesterContinuity);
    }
    Ok(())
}

/// The Korean message shown for a quote failure, chosen from its English
/// detail text.
pub open spec fn quote_message_spec(detail: Seq<char>) -> Seq<char> {
    if contains_spec(detail, "post-trade position continuity"@) {
        "이 조합은 트레이드 후 우리 팀 포지션이 비어 불가능합니다. 같은 포지션 선수끼리 교환하세요."@
    } else if contains_spec(detail, "already belongs to requester team"@) {
        "이미 우리 팀 선수입니다."@
    } else if contains_spec(detail, "not requester"@) {
        "보낼 선수가 우리 팀 소속이 아닙니다."@
    } else if contains_spec(detail, "was not found"@) {
        "선수 정보를 찾을 수 없습니다. 모달을 닫았다가 다시 여세요."@
    } else {
        "계산 실패: "@ + detail
    }
}

pub fn quote_error_message_ko(detail: &str) -> (s: String)
    ensures
        s@ == quote_message_spec(detail@),
{
    let d = chars_of(detail);
    let mut out: Vec<char> = Vec::new();
    if contains(d.as_slice(), chars_of("post-trade position continuity").as_slice()) {
        append_str(&mut out, "이 조합은 트레이드 후 우리 팀 포지션이 비어 불가능합니다. 같은 포지션 선수끼리 교환하세요.");
    } else if contains(d.as_slice(), chars_of("already belongs to requester team").as_slice()) {
        append_str(&mut out, "이미 우리 팀 선수입니다.");
    } else if contains(d.as_slice(), chars_of("not requester").as_slice()) {
        append_str(&mut out, "보낼 선수가 우리 팀 소속이 아닙니다.");
    } else if contains(d.as_slice(), chars_of("was not found").as_slice()) {
        append_str(&mut out, "선수 정보를 찾을 수 없습니다. 모달을 닫았다가 다시 여세요.");
    } else {
        append_str(&mut out, "계산 실패: ");
        append_chars(&mut out, d.as_slice());
    }
    assert(out@ =~= quote_message_spec(detail@));
    string_of(out.as_slice())
}

// ---------------------------------------------------------------------------
// Substrings
// ---------------------------------------------------------------------------

/// `pat` occurs in `s` starting at `i`.
pub open spec fn occurs_at(s: Seq<char>, pat: Seq<char>, i: int) -> bool {
    0 <= i && i + pat.len() <= s.len() && s.subrange(i, i + pat.len()) == pat
}

/// `str::contains`.
pub open spec fn contains_spec(s: Seq<char>, pat: Seq<char>) -> bool {
    exists|i: int| occurs_at(s, pat, i)
}

fn occurs_at_exec(s: &[char], pat: &[char], i: usize) -> (r: bool)
    requires
        i + pat@.len() <= s@.len(),
    ensures
        r == occurs_at(s@, pat@, i as int),
{
    let n = s.len();
    let mut j: usize = 0;
    while j < pat.len()
        invariant
            n == s@.len(),
            i + pat@.len() <= s@.len(),
            j <= pat@.len(),
            forall|k: int| 0 <= k < j ==> s@[i + k] == pat@[k],
        decreases pat@.len() - j,
    {
        assert(i + j < s@.len());
        if s[i + j] != pat[j] {
            assert(s@.subrange(i as int, i + pat@.len())[j as int] != pat@[j as int]);
            return false;
        }
        j = j + 1;
    }
    assert(s@.subrange(i as int, i + pat@.len()) =~= pat@);
    true
}

/// Whether `pat` occurs in `s`.
pub fn contains(s: &[char], pat: &[char]) -> (r: bool)
    ensures
        r == contains_spec(s@, pat@),
{
    if pat.len() > s.len() {
        proof {
            if contains_spec(s@, pat@) {
                let i = choose|i: int| occurs_at(s@, pat@, i);
                assert(occurs_at(s@, pat@, i));
            }
        }
        return false;
    }
    let last = s.len() - pat.len();
    let mut i: usize = 0;
    while i < last
        invariant
            last == s@.len() - pat@.len(),
            i <= last,
            forall|k: int| 0 <= k < i ==> !occurs_at(s@, pat@, k),
        decreases last - i,
    {
        if occurs_at_exec(s, pat, i) {
            return true;
        }
        i = i + 1;
    }
    if occurs_at_exec(s, pat, last) {
        return true;
    }
    proof {
        if contains_spec(s@, pat@) {
            let k = choose|k: int| occurs_at(s@, pat@, k);
            assert(!occurs_at(s@, pat@, k));
        }
    }
    false
}

// ---------------------------------------------------------------------------
// Ids of sealed commands and proposals
// ---------------------------------------------------------------------------

/// What a sealed command binds; money amounts are the bits of their `f64`
/// values.
#[derive(Debug, PartialEq, Eq)]
pub struct PlanBinding {
    pub requester_team_id: usize,
    pub recipient_team_id: usize,
    pub offered_id: usize,
    pub target_id: usize,
    pub proposed_cash_won: u64,
    pub desired_status_choice: u8,
    pub requester_roster_count: usize,
    pub recipient_roster_count: usize,
    pub offered_salary_bits: u64,
    pub target_salary_bits: u64,
    pub budget_bits: u64,
    pub game_time: String,
}

/// The canonical text of a binding.
pub open spec fn binding_text(b: PlanBinding) -> Seq<char> {
    "schema=2|requester="@ + dec(b.requester_team_id as nat) + "|recipient="@ + dec(b.recipient_team_id as nat)
        + "|offered="@ + dec(b.offered_id as nat) + "|target="@ + dec(b.target_id as nat) + "|cash="@ + dec(
        b.proposed_cash_won as nat,
    ) + "|status="@ + dec(b.desired_status_choice as nat) + "|requester_roster="@ + dec(
        b.requester_roster_count as nat,
    ) + "|recipient_roster="@ + dec(b.recipient_roster_count as nat) + "|offered_salary_bits="@ + hex_fixed(
        b.offered_salary_bits as nat,
        16,
    ) + "|target_salary_bits="@ + hex_fixed(b.target_salary_bits as nat, 16) + "|budget_bits="@ + hex_fixed(
        b.budget_bits as nat,
        16,
    ) + "|game_time="@ + b.game_time@
}

/// `T60-` and the 16 hexadecimal digits of the hash of the binding.
pub open spec fn plan_id_spec(b: PlanBinding) -> Seq<char> {
    "T60-"@ + hex_fixed(fnv_spec(vstd::utf8::encode_utf8(binding_text(b))) as nat, 16)
}

fn push_dec(out: &mut Vec<char>, n: u64)
    ensures
        final(out)@ == old(out)@ + dec(n as nat),
{
    let d = decimal(n);
    append_chars(out, d.as_slice());
}

/// The id of the plan that a sealed command carries out.
pub fn command_plan_id(b: &PlanBinding) -> (id: String)
    ensures
        id@ == plan_id_spec(*b),
{
    let mut t: Vec<char> = Vec::new();
    append_str(&mut t, "schema=2|requester=");
    push_dec(&mut t, b.requester_team_id as u64);
    append_str(&mut t, "|recipient=");
    push_dec(&mut t, b.recipient_team_id as u64);
    append_str(&mut t, "|offered=");
    push_dec(&mut t, b.offered_id as u64);
    append_str(&mut t, "|target=");
    push_dec(&mut t, b.target_id as u64);
    append_str(&mut t, "|cash=");
    push_dec(&mut t, b.proposed_cash_won);
    append_str(&mut t, "|status=");
    push_dec(&mut t, b.desired_status_choice as u64);
    append_str(&mut t, "|requester_roster=");
    push_dec(&mut t, b.requester_roster_count as u64);
    append_str(&mut t, "|recipient_roster=");
    push_dec(&mut t, b.recipient_roster_count as u64);
    append_str(&mut t, "|offered_salary_bits=");
    append_chars(&mut t, hex16(b.offered_salary_bits).as_slice());
    append_str(&mut t, "|target_salary_bits=");
    append_chars(&mut t, hex16(b.target_salary_bits).as_slice());
    append_str(&mut t, "|budget_bits=");
    append_chars(&mut t, hex16(b.budget_bits).as_slice());
    append_str(&mut t, "|game_time=");
    append_str(&mut t, b.game_time.as_str());
    assert(t@ =~= binding_text(*b));
    let bytes = utf8_bytes(t.as_slice());
    let h = fnv1a64_bytes(bytes.as_slice());
    let mut id: Vec<char> = Vec::new();
    append_str(&mut id, "T60-");
    append_chars(&mut id, hex16(h).as_slice());
    assert(id@ =~= plan_id_spec(*b));
    string_of(id.as_slice())
}

/// Why a command cannot be sealed.
#[derive(Clone, Copy, Debug, PartialEq, Eq, Structural)]
pub enum EnvelopeError {
    /// A player changed teams since the review.
    OwnershipChanged,
    /// A team has no contracted player.
    EmptyRoster,
}

/// The checks made before a command is sealed, in order.
pub fn envelope_checks(
    offered_team_id: usize,
    target_team_id: usize,
    requester_team_id: usize,
    recipient_team_id: usize,
    requester_roster_count: usize,
    recipient_roster_count: usize,
) -> (r: Result<(), EnvelopeError>)
    ensures
        offered_team_id != requester_team_id || target_team_id != recipient_team_id ==> r == Err::<(), EnvelopeError>(
            EnvelopeError::OwnershipChanged,
        ),
        offered_team_id == requester_team_id && target_team_id == recipient_team_id && (requester_roster_count == 0
            || recipient_roster_count == 0) ==> r == Err::<(), EnvelopeError>(EnvelopeError::EmptyRoster),
        offered_team_id == requester_team_id && target_team_id == recipient_team_id && requester_roster_count > 0
            && recipient_roster_count > 0 ==> r is Ok,
{
    if offered_team_id != requester_team_id || target_team_id != recipient_team_id {
        return Err(EnvelopeError::OwnershipChanged);
    }
    if requester_roster_count == 0 || recipient_roster_count == 0 {
        return Err(EnvelopeError::EmptyRoster);
    }
    Ok(())
}

/// The canonical text of a proposal id.
pub open spec fn proposal_id_text(
    requester: nat,
    recipient: nat,
    offered: nat,
    target: nat,
    cash: nat,
    status: nat,
    submitted_at: Seq<char>,
    pid: nat,
) -> Seq<char> {
    "T77|requester="@ + dec(requester) + "|recipient="@ + dec(recipient) + "|offered="@ + dec(offered) + "|target="@
        + dec(target) + "|cash="@ + dec(cash) + "|status="@ + dec(status) + "|submitted="@ + submitted_at + "|pid="@
        + dec(pid)
}

/// The id of a proposal: `T77-` and the hash of its canonical text, which
/// includes the submitting process id `pid`.
pub fn async_proposal_id(
    requester_team_id: usize,
    recipient_team_id: usize,
    offered_id: usize,
    target_id: usize,
    proposed_cash_won: u64,
    desired_status_choice: u8,
    submitted_at: &str,
    pid: u32,
) -> (id: String)
    ensures
        id@ == "T77-"@ + hex_fixed(
            fnv_spec(
                vstd::utf8::encode_utf8(
                    proposal_id_text(
                        requester_team_id as nat,
                        recipient_team_id as nat,
                        offered_id as nat,
                        target_id as nat,
                        proposed_cash_won as nat,
                        desired_status_choice as nat,
                        submitted_at@,
                        pid as nat,
                    ),
                ),
            ) as nat,
            16,
        ),
{
    let mut t: Vec<char> = Vec::new();
    append_str(&mut t, "T77|requester=");
    push_dec(&mut t, requester_team_id as u64);
    append_str(&mut t, "|recipient=");
    push_dec(&mut t, recipient_team_id as u64);
    append_str(&mut t, "|offered=");
    push_dec(&mut t, offered_id as u64);
    append_str(&mut t, "|target=");
    push_dec(&mut t, target_id as u64);
    append_str(&mut t, "|cash=");
    push_dec(&mut t, proposed_cash_won);
    append_str(&mut t, "|status=");
    push_dec(&mut t, desired_status_choice as u64);
    append_str(&mut t, "|submitted=");
    append_str(&mut t, submitted_at);
    append_str(&mut t, "|pid=");
    push_dec(&mut t, pid as u64);
    let ghost text = proposal_id_text(
        requester_team_id as nat,
        recipient_team_id as nat,
        offered_id as nat,
        target_id as nat,
        proposed_cash_won as nat,
        desired_status_choice as nat,
        submitted_at@,
        pid as nat,
    );
    assert(t@ =~= text);
    let bytes = utf8_bytes(t.as_slice());
    let h = fnv1a64_bytes(bytes.as_slice());
    let mut id: Vec<char> = Vec::new();
    append_str(&mut id, "T77-");
    append_chars(&mut id, hex16(h).as_slice());
    string_of(id.as_slice())
}

// ---------------------------------------------------------------------------
// Cash and role terms of a review
// ---------------------------------------------------------------------------

/// The cash of an offer that lies inside the displayed range.
#[derive(Clone, Copy, Debug, PartialEq, Eq, Structural)]
pub struct CashTerms {
    pub proposed_cash_won: u64,
    pub cash_meets_required: bool,
}

/// Why offered cash is refused.
#[derive(Clone, Copy, Debug, PartialEq, Eq, Structural)]
pub enum CashError {
    /// The displayed range is empty.
    RangeUnavailable { min: u64, max: u64 },
    /// The offer lies outside the displayed range.
    OutsideRange { min: u64, max: u64, found: u64 },
    /// The offer in won does not fit in 64 bits.
    Overflow,
}

/// Checks an offer of `proposed_units` against the displayed range, converts
/// it to won, and compares it with the hidden requirement.
pub fn review_cash_terms(min_units: u64, max_units: u64, proposed_units: u64, required_cash_won: u64) -> (r: Result<CashTerms, CashError>)
    ensures
        min_units > max_units ==> r == Err::<CashTerms, CashError>(CashError::RangeUnavailable { min: min_units, max: max_units }),
        min_units <= max_units && (proposed_units < min_units || proposed_units > max_units) ==> r == Err::<CashTerms, CashError>(
            CashError::OutsideRange { min: min_units, max: max_units, found: proposed_units },
        ),
        min_units <= proposed_units <= max_units && proposed_units * MONEY_UNIT_WON > u64::MAX ==> r == Err::<CashTerms, CashError>(
            CashError::Overflow,
        ),
        min_units <= proposed_units <= max_units && proposed_units * MONEY_UNIT_WON <= u64::MAX ==> r == Ok::<CashTerms, CashError>(
            CashTerms {
                proposed_cash_won: (proposed_units * MONEY_UNIT_WON) as u64,
                cash_meets_required: proposed_units * MONEY_UNIT_WON >= required_cash_won,
            },
        ),
{
    if min_units > max_units {
        return Err(CashError::RangeUnavailable { min: min_units, max: max_units });
    }
    if proposed_units < min_units || proposed_units > max_units {
        return Err(CashError::OutsideRange { min: min_units, max: max_units, found: proposed_units });
    }
    match proposed_units.checked_mul(MONEY_UNIT_WON) {
        None => Err(CashError::Overflow),
        Some(won) => Ok(CashTerms { proposed_cash_won: won, cash_meets_required: won >= required_cash_won }),
    }
}

/// What a review concludes from the cash terms and the answers of the seller
/// and of the player.
#[derive(Clone, Copy, Debug, PartialEq, Eq, Structural)]
pub struct ReviewVerdict {
    pub cash_within_offer_range: bool,
    pub role_promise_accepted: bool,
    pub player_accepted: bool,
    pub overall_approved: bool,
    pub last_player_without_replacement: bool,
}

/// The player accepts when the inherited contract is unchanged and the
/// promised role is acceptable; the trade is approved when the cash meets
/// the requirement and the budget, and the seller (consistently) and the
/// player accept.
pub fn review_verdict(
    terms: CashTerms,
    cash_within_budget: bool,
    seller_accepted: bool,
    seller_repeat_consistent: bool,
    contract_inherited: bool,
    current: SquadStatus,
    contracted: Option<SquadStatus>,
    promised: SquadStatus,
    structural_cover: bool,
) -> (v: ReviewVerdict)
    ensures
        v.cash_within_offer_range,
        v.role_promise_accepted == (rank_of(promised) <= strongest_existing_rank(current, contracted)),
        v.role_promise_accepted == (rank_of(promised) <= rank_of(current) && (contracted matches Some(c) ==> rank_of(
            promised,
        ) <= rank_of(c))),
        v.player_accepted == (contract_inherited && v.role_promise_accepted),
        v.overall_approved == (terms.cash_meets_required && cash_within_budget && seller_accepted
            && seller_repeat_consistent && v.player_accepted),
        v.last_player_without_replacement == !structural_cover,
{
    let role_promise_accepted = trade_role_promise_allows(current, contracted, promised);
    let player_accepted = contract_inherited && role_promise_accepted;
    let overall_approved = terms.cash_meets_required && cash_within_budget && seller_accepted
        && seller_repeat_consistent && player_accepted;
    ReviewVerdict {
        cash_within_offer_range: true,
        role_promise_accepted,
        player_accepted,
        overall_approved,
        last_player_without_replacement: !structural_cover,
    }
}

// ---------------------------------------------------------------------------
// Submitting a proposal
// ---------------------------------------------------------------------------

/// Why a proposal cannot be submitted.
#[derive(Clone, Copy, Debug, PartialEq, Eq, Structural)]
pub enum SubmitError {
    /// The pair of players is not a valid one-for-one trade.
    Pair(PairError),
    /// Trades are proposed only while the recruitment window is open.
    RecruitmentClosed,
    /// A trade was already completed this recruitment season.
    SeasonUsed,
    /// Another proposal is still in review (in this state).
    ProposalInProgress(AsyncTradeState),
    /// The same package was rejected and its cooldown has not passed.
    CooldownBlocked,
    /// One of the players is in an open negotiation.
    ActiveNegotiation,
    /// The client's region is not the server's.
    RegionMismatch { client: usize, server: usize },
    /// The offer lies outside the displayed range.
    OutsideRange { min: u64, max: u64 },
    /// The offer in won does not fit in 64 bits.
    CashOverflow,
}

/// What the submission checks look at before the quote is recomputed.
#[derive(Clone, Copy, Debug, PartialEq, Eq, Structural)]
pub struct SubmitFacts {
    pub requester_team_id: usize,
    pub offered_id: usize,
    pub target_id: usize,
    pub offered_team_id: usize,
    pub target_team_id: usize,
    pub recruit_open: bool,
    pub season_used: bool,
    pub existing_state: Option<AsyncTradeState>,
    pub cooldown_blocked: bool,
    pub active_negotiation: bool,
    pub client_region_id: usize,
    pub server_region_id: usize,
}

pub open spec fn submit_precheck_spec(f: SubmitFacts) -> Result<(), SubmitError> {
    if f.offered_id == f.target_id {
        Err(SubmitError::Pair(PairError::SamePlayer))
    } else if f.offered_team_id != f.requester_team_id || f.target_team_id == f.requester_team_id {
        Err(SubmitError::Pair(PairError::WrongOwnership))
    } else if !f.recruit_open {
        Err(SubmitError::RecruitmentClosed)
    } else if f.season_used {
        Err(SubmitError::SeasonUsed)
    } else if f.existing_state matches Some(st) && !is_terminal(st) {
        Err(SubmitError::ProposalInProgress(f.existing_state->0))
    } else if f.cooldown_blocked {
        Err(SubmitError::CooldownBlocked)
    } else if f.active_negotiation {
        Err(SubmitError::ActiveNegotiation)
    } else if f.client_region_id != f.server_region_id {
        Err(SubmitError::RegionMismatch { client: f.client_region_id, server: f.server_region_id })
    } else {
        Ok(())
    }
}

/// Every check passes: a valid pair, an open window, an unused season, no
/// stored proposal still in review (a finished one, accepted, rejected or
/// cancelled, does not count), no cooldown, no open negotiation and the
/// server's region.
pub open spec fn submit_all_clear(f: SubmitFacts) -> bool {
    &&& f.offered_id != f.target_id
    &&& f.offered_team_id == f.requester_team_id
    &&& f.target_team_id != f.requester_team_id
    &&& f.recruit_open
    &&& !f.season_used
    &&& match f.existing_state {
        None => true,
        Some(st) => st == AsyncTradeState::Accepted || st == AsyncTradeState::Rejected || st == AsyncTradeState::Cancelled,
    }
    &&& !f.cooldown_blocked
    &&& !f.active_negotiation
    &&& f.client_region_id == f.server_region_id
}

/// A proposal is accepted for review exactly when every check passes; a
/// stored proposal that is finished (accepted, rejected or cancelled) never
/// blocks a new one, and the answer is then the one given with no stored
/// proposal at all; only a proposal still in review is reported as in
/// progress.
pub proof fn lemma_submit_checks(f: SubmitFacts)
    ensures
        submit_precheck_spec(f) is Ok <==> submit_all_clear(f),
        (f.existing_state == Some(AsyncTradeState::Accepted) || f.existing_state == Some(AsyncTradeState::Rejected)
            || f.existing_state == Some(AsyncTradeState::Cancelled)) ==> submit_precheck_spec(f)
            == submit_precheck_spec(SubmitFacts { existing_state: None, ..f }),
        submit_precheck_spec(f) matches Err(SubmitError::ProposalInProgress(st)) ==> f.existing_state == Some(st)
            && (st == AsyncTradeState::SellerReview || st == AsyncTradeState::PlayerReview),
{
}

/// The checks made before a proposal is accepted for review, in order: a
/// valid pair, an open window, an unused season, no proposal in review (a
/// finished one may be replaced), no cooldown, no open negotiation, the
/// server's region.
pub fn submit_precheck(f: &SubmitFacts) -> (r: Result<(), SubmitError>)
    ensures
        r == submit_precheck_spec(*f),
        r is Ok <==> submit_all_clear(*f),
        r matches Err(SubmitError::ProposalInProgress(st)) ==> (st == AsyncTradeState::SellerReview || st
            == AsyncTradeState::PlayerReview),
{
    proof {
        lemma_submit_checks(*f);
    }
    match require_fresh_trade_fixture(f.requester_team_id, f.offered_id, f.target_id, f.offered_team_id, f.target_team_id) {
        Ok(()) => {},
        Err(e) => return Err(SubmitError::Pair(e)),
    }
    if !f.recruit_open {
        return Err(SubmitError::RecruitmentClosed);
    }
    if f.season_used {
        return Err(SubmitError::SeasonUsed);
    }
    if let Some(st) = f.existing_state {
        if !st.terminal() {
            return Err(SubmitError::ProposalInProgress(st));
        }
    }
    if f.cooldown_blocked {
        return Err(SubmitError::CooldownBlocked);
    }
    if f.active_negotiation {
        return Err(SubmitError::ActiveNegotiation);
    }
    if f.client_region_id != f.server_region_id {
        return Err(SubmitError::RegionMismatch { client: f.client_region_id, server: f.server_region_id });
    }
    Ok(())
}

/// One proposal at a time, one trade a season: while a proposal is in
/// review, or once the season's trade went through, every new proposal is
/// refused.
pub proof fn lemma_one_proposal_at_a_time(f: SubmitFacts)
    requires
        (f.existing_state matches Some(st) && !is_terminal(st)) || f.season_used,
    ensures
        submit_precheck_spec(f) is Err,
{
}

/// The cash of a submitted offer: inside the displayed range, in won.
pub fn submit_cash(proposed_units: u64, min_units: u64, max_units: u64) -> (r: Result<u64, SubmitError>)
    ensures
        (proposed_units < min_units || proposed_units > max_units) ==> r == Err::<u64, SubmitError>(
            SubmitError::OutsideRange { min: min_units, max: max_units },
        ),
        min_units <= proposed_units <= max_units && proposed_units * MONEY_UNIT_WON > u64::MAX ==> r == Err::<u64, SubmitError>(
            SubmitError::CashOverflow,
        ),
        min_units <= proposed_units <= max_units && proposed_units * MONEY_UNIT_WON <= u64::MAX ==> r == Ok::<u64, SubmitError>(
            (proposed_units * MONEY_UNIT_WON) as u64,
        ),
{
    if proposed_units < min_units || proposed_units > max_units {
        return Err(SubmitError::OutsideRange { min: min_units, max: max_units });
    }
    match proposed_units.checked_mul(MONEY_UNIT_WON) {
        Some(won) => Ok(won),
        None => Err(SubmitError::CashOverflow),
    }
}

/// How the seller values a sale of the target, as the game's policy reads it.
#[derive(Debug, Clone, Copy, PartialEq, Eq)]
pub enum SellerStance {
    ActivelySell,
    ProtectButListen,
}

/// The seller's profile for the target, mapped from the club's decision on
/// the player.
#[derive(Debug, PartialEq, Eq)]
pub struct SellerProfile {
    pub label: &'static str,
    pub stance: SellerStance,
    pub is_excess_sell: bool,
}

/// The decisions under which the seller is ready to let the player go.
pub open spec fn active_sell_decision(decision: Seq<char>) -> bool {
    decision == "SellIfGoodOffer"@ || decision == "ListForSale"@ || decision == "NonRenew"@ || decision
        == "RunDown"@
}

/// The profile for a decision, given by its name.
pub fn decision_mapped_profile(decision: &str) -> (p: SellerProfile)
    ensures
        active_sell_decision(decision@) ==> p == (SellerProfile {
            label: "DECISION_MAPPED_ACTIVE",
            stance: SellerStance::ActivelySell,
            is_excess_sell: true,
        }),
        !active_sell_decision(decision@) ==> p == (SellerProfile {
            label: "DECISION_MAPPED_PROTECT",
            stance: SellerStance::ProtectButListen,
            is_excess_sell: false,
        }),
{
    let d = chars_of(decision);
    let s = d.as_slice();
    if chars_eq(s, chars_of("SellIfGoodOffer").as_slice()) || chars_eq(s, chars_of("ListForSale").as_slice())
        || chars_eq(s, chars_of("NonRenew").as_slice()) || chars_eq(s, chars_of("RunDown").as_slice()) {
        SellerProfile { label: "DECISION_MAPPED_ACTIVE", stance: SellerStance::ActivelySell, is_excess_sell: true }
    } else {
        SellerProfile {
            label: "DECISION_MAPPED_PROTECT",
            stance: SellerStance::ProtectButListen,
            is_excess_sell: false,
        }
    }
}

} // verus!

//! Committing a sealed trade: the checks made before and after the batch of
//! changes, the registry update and receipt checks of persistence, and the
//! receipts that earlier trades left.
use vstd::prelude::*;
use crate::receipt::{ReceiptView, TradeCommitReceipt};
use crate::registry::{same_elements, sort_dedup, strictly_sorted, texts};
use crate::order::{lemma_lex_irreflexive, lex_lt};
use crate::status::{contracted_debug_spec, SquadStatus};
use crate::text::{chars_eq, chars_of};
use crate::trade::{moved_unchanged, same_contract_except_team, AthleteTradeSnapshot};

verus! {

fn text_is(a: &str, b: &str) -> (r: bool)
    ensures
        r == (a@ == b@),
{
    let x = chars_of(a);
    let y = chars_of(b);
    chars_eq(x.as_slice(), y.as_slice())
}

// ---------------------------------------------------------------------------
// Receipts
// ---------------------------------------------------------------------------

/// The key written for a promised-status choice.
pub open spec fn status_key_of(choice: u8) -> Seq<char> {
    if choice == 0 {
        "core"@
    } else if choice == 1 {
        "important"@
    } else if choice == 3 {
        "sub"@
    } else if choice == 4 {
        "prospect"@
    } else {
        "general"@
    }
}

/// A receipt that does not contradict itself: schema 2, two different teams
/// and players that swapped teams, the key of the promised status, a
/// verified rollback rehearsal and a registry with at least this plan.
pub open spec fn fresh_trade(r: ReceiptView) -> bool {
    &&& r.schema_version == 2
    &&& r.requester_team_id != r.recipient_team_id
    &&& r.offered_id != r.target_id
    &&& r.offered_team_after == r.recipient_team_id
    &&& r.target_team_after == r.requester_team_id
    &&& r.desired_status_key == status_key_of(r.desired_status_choice)
    &&& r.rollback_rehearsal_verified
    &&& r.executed_plan_registry_count >= 1
}

pub fn receipt_is_fresh_trade(receipt: &TradeCommitReceipt) -> (b: bool)
    ensures
        b == fresh_trade(receipt@),
{
    let (expected_key, _) = crate::status::desired_squad_status(receipt.desired_status_choice);
    receipt.schema_version == 2 && receipt.requester_team_id != receipt.recipient_team_id
        && receipt.offered_id != receipt.target_id && receipt.offered_team_after == receipt.recipient_team_id
        && receipt.target_team_after == receipt.requester_team_id && text_is(
        receipt.desired_status_key.as_str(),
        expected_key,
    ) && receipt.rollback_rehearsal_verified && receipt.executed_plan_registry_count >= 1
}

/// The first recorded trade of the historical fixture.
pub open spec fn first_trade(r: ReceiptView) -> bool {
    &&& r.schema_version == 1
    &&& r.plan_id == "T60-89617444924FD838"@
    &&& r.requester_team_id == 7 && r.recipient_team_id == 0
    &&& r.offered_id == 1512 && r.target_id == 1514
    &&& r.offered_name == "Jue"@ && r.target_name == "Zeus"@
    &&& r.proposed_cash_won == 207_340_000
    &&& r.desired_status_choice == 1 && r.desired_status_key == "important"@
    &&& r.offered_team_after == 0 && r.target_team_after == 7
    &&& r.target_status_after == "Important"@
    &&& r.executed_plan_registry_count == 1
}

/// The second recorded trade of the historical fixture.
pub open spec fn second_trade(r: ReceiptView) -> bool {
    &&& r.schema_version == 1
    &&& r.plan_id == "T60-83270E3A33D2F105"@
    &&& r.requester_team_id == 7 && r.recipient_team_id == 0
    &&& r.offered_id == 1568 && r.target_id == 1588
    &&& r.offered_name == "Zenit"@ && r.target_name == "Fill"@
    &&& r.proposed_cash_won == 0
    &&& r.desired_status_choice == 1 && r.desired_status_key == "important"@
    &&& r.offered_team_after == 0 && r.target_team_after == 7
    &&& r.target_status_after == "Important"@
    &&& r.executed_plan_registry_count == 2
}

pub fn receipt_is_first_trade(r: &TradeCommitReceipt) -> (b: bool)
    ensures
        b == first_trade(r@),
{
    r.schema_version == 1 && text_is(r.plan_id.as_str(), "T60-89617444924FD838") && r.requester_team_id == 7
        && r.recipient_team_id == 0 && r.offered_id == 1512 && r.target_id == 1514 && text_is(
        r.offered_name.as_str(),
        "Jue",
    ) && text_is(r.target_name.as_str(), "Zeus") && r.proposed_cash_won == 207_340_000
        && r.desired_status_choice == 1 && text_is(r.desired_status_key.as_str(), "important")
        && r.offered_team_after == 0 && r.target_team_after == 7 && text_is(r.target_status_after.as_str(), "Important")
        && r.executed_plan_registry_count == 1
}

pub fn receipt_is_second_trade(r: &TradeCommitReceipt) -> (b: bool)
    ensures
        b == second_trade(r@),
{
    r.schema_version == 1 && text_is(r.plan_id.as_str(), "T60-83270E3A33D2F105") && r.requester_team_id == 7
        && r.recipient_team_id == 0 && r.offered_id == 1568 && r.target_id == 1588 && text_is(
        r.offered_name.as_str(),
        "Zenit",
    ) && text_is(r.target_name.as_str(), "Fill") && r.proposed_cash_won == 0 && r.desired_status_choice == 1
        && text_is(r.desired_status_key.as_str(), "important") && r.offered_team_after == 0
        && r.target_team_after == 7 && text_is(r.target_status_after.as_str(), "Important")
        && r.executed_plan_registry_count == 2
}

// ---------------------------------------------------------------------------
// Persistence
// ---------------------------------------------------------------------------

/// Why a commit cannot be persisted.
#[derive(Clone, Copy, Debug, PartialEq, Eq, Structural)]
pub enum PersistError {
    /// The plan was executed before.
    PlanAlreadyExecuted,
    /// The receipt contradicts itself.
    ReceiptNotFresh,
}

/// The registry after adding a new plan: the registry's ids and the new one,
/// sorted, each once.  A plan already in the registry is refused, so no plan
/// is ever executed twice.
pub fn next_plan_registry(plan_ids: &[String], plan_id: &String) -> (r: Result<Vec<String>, PersistError>)
    ensures
        texts(plan_ids@).contains(plan_id@) ==> r == Err::<Vec<String>, PersistError>(PersistError::PlanAlreadyExecuted),
        !texts(plan_ids@).contains(plan_id@) ==> (r matches Ok(v) && strictly_sorted(texts(v@))
            && same_elements(texts(v@), texts(plan_ids@).push(plan_id@))),
{
    let mut k: usize = 0;
    while k < plan_ids.len()
        invariant
            k <= plan_ids@.len(),
            forall|j: int| 0 <= j < k ==> plan_ids@[j]@ != plan_id@,
        decreases plan_ids@.len() - k,
    {
        if text_is(plan_ids[k].as_str(), plan_id.as_str()) {
            assert(texts(plan_ids@)[k as int] == plan_id@);
            return Err(PersistError::PlanAlreadyExecuted);
        }
        k = k + 1;
    }
    assert(!texts(plan_ids@).contains(plan_id@)) by {
        if texts(plan_ids@).contains(plan_id@) {
            let j = choose|j: int| 0 <= j < texts(plan_ids@).len() && texts(plan_ids@)[j] == plan_id@;
            assert(plan_ids@[j]@ != plan_id@);
        }
    }
    let mut all: Vec<String> = Vec::new();
    let mut i: usize = 0;
    while i < plan_ids.len()
        invariant
            i <= plan_ids@.len(),
            all@ == plan_ids@.take(i as int),
        decreases plan_ids@.len() - i,
    {
        all.push(plan_ids[i].clone());
        assert(all@ =~= plan_ids@.take(i + 1));
        i = i + 1;
    }
    all.push(plan_id.clone());
    assert(plan_ids@.take(i as int) =~= plan_ids@);
    assert(texts(all@) =~= texts(plan_ids@).push(plan_id@));
    let sorted = sort_dedup(all.as_slice());
    Ok(sorted)
}

/// What persistence checks of a new receipt: the plan is new, and with the
/// registry count set the receipt does not contradict itself.
pub fn prepare_receipt_for_persistence(
    plan_ids: &[String],
    receipt: &mut TradeCommitReceipt,
) -> (r: Result<Vec<String>, PersistError>)
    ensures
        texts(plan_ids@).contains(old(receipt)@.plan_id) ==> r == Err::<Vec<String>, PersistError>(
            PersistError::PlanAlreadyExecuted,
        ),
        r matches Ok(v) ==> strictly_sorted(texts(v@)) && same_elements(texts(v@), texts(plan_ids@).push(old(receipt)@.plan_id))
            && final(receipt)@.executed_plan_registry_count == v@.len() && fresh_trade(final(receipt)@),
        !texts(plan_ids@).contains(old(receipt)@.plan_id) ==> (r is Ok <==> fresh_trade(
            ReceiptView { executed_plan_registry_count: final(receipt)@.executed_plan_registry_count, ..old(receipt)@ },
        )),
        final(receipt)@ == (ReceiptView { executed_plan_registry_count: final(receipt)@.executed_plan_registry_count, ..old(receipt)@ }),
{
    let registry = match next_plan_registry(plan_ids, &receipt.plan_id) {
        Ok(v) => v,
        Err(e) => return Err(e),
    };
    receipt.executed_plan_registry_count = registry.len();
    if !receipt_is_fresh_trade(receipt) {
        return Err(PersistError::ReceiptNotFresh);
    }
    Ok(registry)
}

/// How many times `x` occurs in `s`.
pub open spec fn count_of(s: Seq<Seq<char>>, x: Seq<char>) -> nat
    decreases s.len(),
{
    if s.len() == 0 {
        0
    } else {
        count_of(s.drop_last(), x) + if s.last() == x { 1nat } else { 0nat }
    }
}

proof fn lemma_count_absent(s: Seq<Seq<char>>, x: Seq<char>)
    requires
        !s.contains(x),
    ensures
        count_of(s, x) == 0,
    decreases s.len(),
{
    if s.len() > 0 {
        assert(s.drop_last().contains(x) ==> s.contains(x)) by {
            if s.drop_last().contains(x) {
                let j = choose|j: int| 0 <= j < s.drop_last().len() && s.drop_last()[j] == x;
                assert(s[j] == x);
            }
        }
        assert(s[s.len() - 1] == s.last());
        lemma_count_absent(s.drop_last(), x);
    }
}

/// A plan is recorded once: in the registry that adding a new plan gives
/// (sorted, each id once), the plan occurs exactly once.
pub proof fn lemma_plan_recorded_once(registry: Seq<Seq<char>>, before: Seq<Seq<char>>, plan: Seq<char>)
    requires
        strictly_sorted(registry),
        same_elements(registry, before.push(plan)),
    ensures
        count_of(registry, plan) == 1,
{
    assert(before.push(plan)[before.len() as int] == plan);
    assert(registry.contains(plan));
    lemma_sorted_count_one(registry, plan);
}

proof fn lemma_sorted_count_one(s: Seq<Seq<char>>, x: Seq<char>)
    requires
        strictly_sorted(s),
        s.contains(x),
    ensures
        count_of(s, x) == 1,
    decreases s.len(),
{
    let d = s.drop_last();
    assert(strictly_sorted(d)) by {
        assert forall|i: int, j: int| 0 <= i < j < d.len() implies lex_lt(#[trigger] d[i], #[trigger] d[j]) by {
            assert(d[i] == s[i] && d[j] == s[j]);
        }
    }
    if s.last() == x {
        assert(!d.contains(x)) by {
            if d.contains(x) {
                let j = choose|j: int| 0 <= j < d.len() && d[j] == x;
                assert(lex_lt(s[j], s[s.len() - 1]));
                lemma_lex_irreflexive(x);
            }
        }
        lemma_count_absent(d, x);
    } else {
        let j = choose|j: int| 0 <= j < s.len() && s[j] == x;
        assert(j != s.len() - 1);
        assert(d[j] == x);
        lemma_sorted_count_one(d, x);
    }
}

/// The plan occurs exactly once in the registry read back, the registry has
/// the recorded count, and the receipt read back is the one written.
pub open spec fn readback_ok(
    registry: Seq<Seq<char>>,
    expected_count: nat,
    written_plan_id: Seq<char>,
    decoded: ReceiptView,
    reencoded_matches: bool,
) -> bool {
    &&& count_of(registry, written_plan_id) == 1
    &&& registry.len() == expected_count
    &&& decoded.plan_id == written_plan_id
    &&& fresh_trade(decoded)
    &&& reencoded_matches
}

/// How many times `plan_id` occurs in the registry.
pub fn plan_count(registry: &[String], plan_id: &String) -> (n: usize)
    ensures
        n == count_of(texts(registry@), plan_id@),
{
    let ghost reg = texts(registry@);
    let mut count: usize = 0;
    let mut i: usize = 0;
    while i < registry.len()
        invariant
            i <= registry@.len(),
            reg == texts(registry@),
            count == count_of(reg.take(i as int), plan_id@),
            count <= i,
        decreases registry@.len() - i,
    {
        assert(reg.take(i + 1).drop_last() =~= reg.take(i as int));
        if text_is(registry[i].as_str(), plan_id.as_str()) {
            count = count + 1;
        }
        i = i + 1;
    }
    assert(reg.take(i as int) =~= reg);
    count
}

/// The check made on what persistence reads back.
pub fn persisted_commit_verified(
    decoded_registry: &[String],
    expected_count: usize,
    written_plan_id: &String,
    decoded_receipt: &TradeCommitReceipt,
    reencoded_matches: bool,
) -> (b: bool)
    ensures
        b == readback_ok(texts(decoded_registry@), expected_count as nat, written_plan_id@, decoded_receipt@, reencoded_matches),
{
    let ghost reg = texts(decoded_registry@);
    let mut count: usize = 0;
    let mut i: usize = 0;
    while i < decoded_registry.len()
        invariant
            i <= decoded_registry@.len(),
            reg == texts(decoded_registry@),
            count == count_of(reg.take(i as int), written_plan_id@),
            count <= i,
        decreases decoded_registry@.len() - i,
    {
        assert(reg.take(i + 1).drop_last() =~= reg.take(i as int));
        if text_is(decoded_registry[i].as_str(), written_plan_id.as_str()) {
            count = count + 1;
        }
        i = i + 1;
    }
    assert(reg.take(i as int) =~= reg);
    count == 1 && decoded_registry.len() == expected_count && text_is(
        decoded_receipt.plan_id.as_str(),
        written_plan_id.as_str(),
    ) && receipt_is_fresh_trade(decoded_receipt) && reencoded_matches
}

/// Remembers a committed plan in the running process, once.
pub fn remember_executed_plan(ids: &mut Vec<String>, plan_id: String)
    ensures
        texts(old(ids)@).contains(plan_id@) ==> final(ids)@ == old(ids)@,
        !texts(old(ids)@).contains(plan_id@) ==> final(ids)@ == old(ids)@.push(plan_id),
{
    let mut k: usize = 0;
    while k < ids.len()
        invariant
            k <= ids@.len(),
            forall|j: int| 0 <= j < k ==> ids@[j]@ != plan_id@,
        decreases ids@.len() - k,
    {
        if text_is(ids[k].as_str(), plan_id.as_str()) {
            assert(texts(ids@)[k as int] == plan_id@);
            return;
        }
        k = k + 1;
    }
    assert(!texts(ids@).contains(plan_id@)) by {
        if texts(ids@).contains(plan_id@) {
            let j = choose|j: int| 0 <= j < texts(ids@).len() && texts(ids@)[j] == plan_id@;
            assert(ids@[j]@ != plan_id@);
        }
    }
    ids.push(plan_id);
}

/// The answer to the saved-trade validation request: the fixture validation
/// is skipped, and only whether a receipt is stored is reported.
pub open spec fn validation_text(receipt_present: bool) -> Seq<char> {
    "status=none\nreceipt_present="@ + (if receipt_present { "true"@ } else { "false"@ })
        + "\nport056_test_fixture_validation_skipped=true\n"@
}

pub fn saved_trade_validation_payload(receipt_present: bool) -> (bytes: Vec<u8>)
    ensures
        bytes@ == vstd::utf8::encode_utf8(validation_text(receipt_present)),
{
    let mut t: Vec<char> = Vec::new();
    crate::text::append_str(&mut t, "status=none\nreceipt_present=");
    if receipt_present {
        crate::text::append_str(&mut t, "true");
    } else {
        crate::text::append_str(&mut t, "false");
    }
    crate::text::append_str(&mut t, "\nport056_test_fixture_validation_skipped=true\n");
    assert(t@ =~= validation_text(receipt_present));
    crate::kv::utf8_bytes(t.as_slice())
}

// ---------------------------------------------------------------------------
// The atomic batch
// ---------------------------------------------------------------------------

/// Why a sealed command is not carried out, or was undone.
#[derive(Clone, Copy, Debug, PartialEq, Eq, Structural)]
pub enum AtomicError {
    NotApproved,
    RecruitmentClosed,
    GameTimeChanged,
    OwnershipChanged,
    RosterChanged,
    SalaryChanged,
    FinanceInsufficient,
    ContractChanged,
    OfferedStatusChanged,
    TargetStatusNotApplied,
    ContractedStatusNotExact,
    FinanceDeltaMismatch,
    FinanceNotConserved,
    CountsChanged,
    PayrollMismatch,
    UnexpectedMutation,
    GameTimeChangedDuringBatch,
    ForcedRollbackRehearsal,
    RehearsalNotVerified,
}

/// What is compared before the batch runs; the money comparisons, made on
/// floating-point amounts, come in as their outcomes.
#[derive(Debug, PartialEq, Eq)]
pub struct SealedPrecheck {
    pub overall_approved: bool,
    pub plan_repeat_consistent: bool,
    pub recruit_open: bool,
    pub now: String,
    pub prepared_game_time: String,
    pub offered_team_before: usize,
    pub target_team_before: usize,
    pub requester_team_id: usize,
    pub recipient_team_id: usize,
    pub requester_roster: usize,
    pub recipient_roster: usize,
    pub sealed_requester_roster: usize,
    pub sealed_recipient_roster: usize,
    pub salaries_unchanged: bool,
    pub finance_sufficient: bool,
}

pub open spec fn precheck_spec(p: SealedPrecheck) -> Result<(), AtomicError> {
    if !p.overall_approved || !p.plan_repeat_consistent {
        Err(AtomicError::NotApproved)
    } else if !p.recruit_open {
        Err(AtomicError::RecruitmentClosed)
    } else if p.now@ != p.prepared_game_time@ {
        Err(AtomicError::GameTimeChanged)
    } else if p.offered_team_before != p.requester_team_id || p.target_team_before != p.recipient_team_id {
        Err(AtomicError::OwnershipChanged)
    } else if p.requester_roster != p.sealed_requester_roster || p.recipient_roster != p.sealed_recipient_roster {
        Err(AtomicError::RosterChanged)
    } else if !p.salaries_unchanged {
        Err(AtomicError::SalaryChanged)
    } else if !p.finance_sufficient {
        Err(AtomicError::FinanceInsufficient)
    } else {
        Ok(())
    }
}

/// Every precheck passes: the command is approved and consistent, the
/// window is open, the game time is the prepared one, each player is still
/// with the team that gives it up, the rosters are the sealed ones, the
/// salaries unchanged and the finances sufficient.
pub open spec fn precheck_all_clear(p: SealedPrecheck) -> bool {
    &&& p.overall_approved
    &&& p.plan_repeat_consistent
    &&& p.recruit_open
    &&& p.now@ == p.prepared_game_time@
    &&& p.offered_team_before == p.requester_team_id
    &&& p.target_team_before == p.recipient_team_id
    &&& p.requester_roster == p.sealed_requester_roster
    &&& p.recipient_roster == p.sealed_recipient_roster
    &&& p.salaries_unchanged
    &&& p.finance_sufficient
}

/// The batch may run only when every precheck passes; in particular never
/// when a player has left the team that gives it up: with the approval, the
/// window and the game time in order, a changed owner of either player is
/// refused as such.
pub proof fn lemma_precheck_guards_ownership(p: SealedPrecheck)
    ensures
        precheck_spec(p) is Ok <==> precheck_all_clear(p),
        precheck_spec(p) is Ok ==> p.offered_team_before == p.requester_team_id && p.target_team_before
            == p.recipient_team_id,
        p.overall_approved && p.plan_repeat_consistent && p.recruit_open && p.now@ == p.prepared_game_time@ && (
        p.offered_team_before != p.requester_team_id || p.target_team_before != p.recipient_team_id)
            ==> precheck_spec(p) == Err::<(), AtomicError>(AtomicError::OwnershipChanged),
{
}

/// The checks made before a sealed command changes anything, in order.
pub fn sealed_command_precheck(p: &SealedPrecheck) -> (r: Result<(), AtomicError>)
    ensures
        r == precheck_spec(*p),
        r is Ok <==> precheck_all_clear(*p),
        p.overall_approved && p.plan_repeat_consistent && p.recruit_open && p.now@ == p.prepared_game_time@ && (
        p.offered_team_before != p.requester_team_id || p.target_team_before != p.recipient_team_id) ==> r == Err::<
            (),
            AtomicError,
        >(AtomicError::OwnershipChanged),
{
    proof {
        lemma_precheck_guards_ownership(*p);
    }
    if !p.overall_approved || !p.plan_repeat_consistent {
        return Err(AtomicError::NotApproved);
    }
    if !p.recruit_open {
        return Err(AtomicError::RecruitmentClosed);
    }
    if !text_is(p.now.as_str(), p.prepared_game_time.as_str()) {
        return Err(AtomicError::GameTimeChanged);
    }
    if p.offered_team_before != p.requester_team_id || p.target_team_before != p.recipient_team_id {
        return Err(AtomicError::OwnershipChanged);
    }
    if p.requester_roster != p.sealed_requester_roster || p.recipient_roster != p.sealed_recipient_roster {
        return Err(AtomicError::RosterChanged);
    }
    if !p.salaries_unchanged {
        return Err(AtomicError::SalaryChanged);
    }
    if !p.finance_sufficient {
        return Err(AtomicError::FinanceInsufficient);
    }
    Ok(())
}

/// What is compared after the batch ran; the money comparisons again come
/// in as their outcomes.
#[derive(Debug, PartialEq, Eq)]
pub struct BatchEffects {
    pub offered_before: AthleteTradeSnapshot,
    pub offered_after: AthleteTradeSnapshot,
    pub target_before: AthleteTradeSnapshot,
    pub target_after: AthleteTradeSnapshot,
    pub offered_destination_team_id: usize,
    pub target_destination_team_id: usize,
    pub desired_status: SquadStatus,
    pub offered_contracted_before: Option<SquadStatus>,
    pub offered_contracted_after: String,
    pub target_contracted_after: String,
    pub finance_deltas_ok: bool,
    pub finance_conserved: bool,
    pub rosters_before: (usize, usize, usize),
    pub rosters_after: (usize, usize, usize),
    pub payrolls_ok: bool,
    pub mod_save_unchanged: bool,
    pub news_unchanged: bool,
    pub now: String,
    pub prepared_game_time: String,
    pub force_rollback_rehearsal: bool,
    pub rollback_rehearsal_verified: bool,
}

/// The debug name of a status.
pub open spec fn status_name(s: SquadStatus) -> Seq<char> {
    match s {
        SquadStatus::Core => "Core"@,
        SquadStatus::Important => "Important"@,
        SquadStatus::General => "General"@,
        SquadStatus::Sub => "Sub"@,
        SquadStatus::Prospect => "Prospect"@,
    }
}

pub open spec fn effects_spec(b: BatchEffects) -> Result<(), AtomicError> {
    if !(moved_unchanged(b.offered_before, b.offered_after, b.offered_destination_team_id) && moved_unchanged(
        b.target_before,
        b.target_after,
        b.target_destination_team_id,
    )) {
        Err(AtomicError::ContractChanged)
    } else if b.offered_after.squad_status_debug@ != b.offered_before.squad_status_debug@ {
        Err(AtomicError::OfferedStatusChanged)
    } else if b.target_after.squad_status_debug@ != status_name(b.desired_status) {
        Err(AtomicError::TargetStatusNotApplied)
    } else if b.offered_contracted_after@ != contracted_debug_spec(b.offered_contracted_before)
        || b.target_contracted_after@ != contracted_debug_spec(Some(b.desired_status)) {
        Err(AtomicError::ContractedStatusNotExact)
    } else if !b.finance_deltas_ok {
        Err(AtomicError::FinanceDeltaMismatch)
    } else if !b.finance_conserved {
        Err(AtomicError::FinanceNotConserved)
    } else if b.rosters_after != b.rosters_before {
        Err(AtomicError::CountsChanged)
    } else if !b.payrolls_ok {
        Err(AtomicError::PayrollMismatch)
    } else if !b.mod_save_unchanged || !b.news_unchanged {
        Err(AtomicError::UnexpectedMutation)
    } else if b.now@ != b.prepared_game_time@ {
        Err(AtomicError::GameTimeChangedDuringBatch)
    } else if b.force_rollback_rehearsal {
        Err(AtomicError::ForcedRollbackRehearsal)
    } else if !b.rollback_rehearsal_verified {
        Err(AtomicError::RehearsalNotVerified)
    } else {
        Ok(())
    }
}

/// Every effect check passes: both players moved to their new teams with
/// their contracts otherwise unchanged, the offered player's status kept and
/// the promise applied to the target, the contracted statuses exact, the
/// money moved and conserved, the counts and payrolls as expected, nothing
/// else changed, the game time unmoved, and the rehearsal verified without
/// being forced.
pub open spec fn effects_all_clear(b: BatchEffects) -> bool {
    &&& moved_unchanged(b.offered_before, b.offered_after, b.offered_destination_team_id)
    &&& moved_unchanged(b.target_before, b.target_after, b.target_destination_team_id)
    &&& b.offered_after.squad_status_debug@ == b.offered_before.squad_status_debug@
    &&& b.target_after.squad_status_debug@ == status_name(b.desired_status)
    &&& b.offered_contracted_after@ == contracted_debug_spec(b.offered_contracted_before)
    &&& b.target_contracted_after@ == contracted_debug_spec(Some(b.desired_status))
    &&& b.finance_deltas_ok
    &&& b.finance_conserved
    &&& b.rosters_after == b.rosters_before
    &&& b.payrolls_ok
    &&& b.mod_save_unchanged
    &&& b.news_unchanged
    &&& b.now@ == b.prepared_game_time@
    &&& !b.force_rollback_rehearsal
    &&& b.rollback_rehearsal_verified
}

/// A batch is kept only when every effect check passes; in particular a
/// player who did not end up with the receiving team, a promise not applied,
/// or a rehearsal that was forced or not verified always fails it.
pub proof fn lemma_effects_all_checked(b: BatchEffects)
    ensures
        effects_spec(b) is Ok <==> effects_all_clear(b),
        effects_spec(b) is Ok ==> b.offered_after.team_id == b.offered_destination_team_id
            && b.target_after.team_id == b.target_destination_team_id,
{
}

/// The checks made after the batch ran, in order: the contracts moved
/// unchanged, the statuses are exactly as promised, money and counts add up,
/// nothing else changed; a rehearsal stops here, and a real commit needs a
/// verified rehearsal.
pub fn batch_effect_check(b: &BatchEffects) -> (r: Result<(), AtomicError>)
    ensures
        r == effects_spec(*b),
        r is Ok <==> effects_all_clear(*b),
{
    proof {
        lemma_effects_all_checked(*b);
    }
    let inherited = same_contract_except_team(&b.offered_before, &b.offered_after, b.offered_destination_team_id)
        && same_contract_except_team(&b.target_before, &b.target_after, b.target_destination_team_id);
    if !inherited {
        return Err(AtomicError::ContractChanged);
    }
    if !text_is(b.offered_after.squad_status_debug.as_str(), b.offered_before.squad_status_debug.as_str()) {
        return Err(AtomicError::OfferedStatusChanged);
    }
    if !text_is(b.target_after.squad_status_debug.as_str(), crate::status::squad_status_label(b.desired_status)) {
        return Err(AtomicError::TargetStatusNotApplied);
    }
    if !text_is(b.offered_contracted_after.as_str(), crate::status::contracted_status_debug(b.offered_contracted_before))
        || !text_is(b.target_contracted_after.as_str(), crate::status::contracted_status_debug(Some(b.desired_status))) {
        return Err(AtomicError::ContractedStatusNotExact);
    }
    if !b.finance_deltas_ok {
        return Err(AtomicError::FinanceDeltaMismatch);
    }
    if !b.finance_conserved {
        return Err(AtomicError::FinanceNotConserved);
    }
    if b.rosters_after.0 != b.rosters_before.0 || b.rosters_after.1 != b.rosters_before.1 || b.rosters_after.2
        != b.rosters_before.2 {
        return Err(AtomicError::CountsChanged);
    }
    if !b.payrolls_ok {
        return Err(AtomicError::PayrollMismatch);
    }
    if !b.mod_save_unchanged || !b.news_unchanged {
        return Err(AtomicError::UnexpectedMutation);
    }
    if !text_is(b.now.as_str(), b.prepared_game_time.as_str()) {
        return Err(AtomicError::GameTimeChangedDuringBatch);
    }
    if b.force_rollback_rehearsal {
        return Err(AtomicError::ForcedRollbackRehearsal);
    }
    if !b.rollback_rehearsal_verified {
        return Err(AtomicError::RehearsalNotVerified);
    }
    Ok(())
}

// ---------------------------------------------------------------------------
// The state a commit touches, and its undoing
// ---------------------------------------------------------------------------

/// A team's finances, as the bits of the game's floating-point amounts.
#[derive(Clone, Copy, Debug, PartialEq, Eq, Structural)]
pub struct FinanceBits {
    pub total: u64,
    pub transfer: u64,
    pub salary: u64,
}

/// The save-data slots a commit writes.
#[derive(Debug, PartialEq, Eq)]
pub struct SaveSlots {
    pub registry: Option<Vec<u8>>,
    pub receipt: Option<Vec<u8>>,
    pub previous_receipt: Option<Vec<u8>>,
    pub oldest_receipt: Option<Vec<u8>>,
    pub season: Option<Vec<u8>>,
}

pub struct SaveSlotsV {
    pub registry: Option<Seq<u8>>,
    pub receipt: Option<Seq<u8>>,
    pub previous_receipt: Option<Seq<u8>>,
    pub oldest_receipt: Option<Seq<u8>>,
    pub season: Option<Seq<u8>>,
}

pub open spec fn opt_bytes(o: Option<Vec<u8>>) -> Option<Seq<u8>> {
    match o {
        Some(b) => Some(b@),
        None => None,
    }
}

impl View for SaveSlots {
    type V = SaveSlotsV;

    open spec fn view(&self) -> SaveSlotsV {
        SaveSlotsV {
            registry: opt_bytes(self.registry),
            receipt: opt_bytes(self.receipt),
            previous_receipt: opt_bytes(self.previous_receipt),
            oldest_receipt: opt_bytes(self.oldest_receipt),
            season: opt_bytes(self.season),
        }
    }
}

/// What a commit changes in the game: the two players' teams, the target's
/// status and promised status, both teams' finances, and the save slots.
#[derive(Debug, PartialEq, Eq)]
pub struct TradeWorld {
    pub offered_team: usize,
    pub target_team: usize,
    pub target_status: SquadStatus,
    pub target_contracted: Option<SquadStatus>,
    pub requester_finance: FinanceBits,
    pub recipient_finance: FinanceBits,
    pub save: SaveSlots,
}

pub struct TradeWorldV {
    pub offered_team: usize,
    pub target_team: usize,
    pub target_status: SquadStatus,
    pub target_contracted: Option<SquadStatus>,
    pub requester_finance: FinanceBits,
    pub recipient_finance: FinanceBits,
    pub save: SaveSlotsV,
}

impl View for TradeWorld {
    type V = TradeWorldV;

    open spec fn view(&self) -> TradeWorldV {
        TradeWorldV {
            offered_team: self.offered_team,
            target_team: self.target_team,
            target_status: self.target_status,
            target_contracted: self.target_contracted,
            requester_finance: self.requester_finance,
            recipient_finance: self.recipient_finance,
            save: self.save@,
        }
    }
}

/// The batch of a commit: where each player goes, the target's promised
/// status, and both teams' finances after the cash moved (computed by the
/// game's arithmetic).
#[derive(Clone, Copy, Debug, PartialEq, Eq, Structural)]
pub struct TradeBatch {
    pub offered_destination: usize,
    pub target_destination: usize,
    pub promised_status: SquadStatus,
    pub requester_finance_after: FinanceBits,
    pub recipient_finance_after: FinanceBits,
}

/// The world after the batch: the players moved, the promise applied, the
/// finances set; the save slots are not touched.
pub open spec fn applied(w: TradeWorldV, b: TradeBatch) -> TradeWorldV {
    TradeWorldV {
        offered_team: b.offered_destination,
        target_team: b.target_destination,
        target_status: b.promised_status,
        target_contracted: Some(b.promised_status),
        requester_finance: b.requester_finance_after,
        recipient_finance: b.recipient_finance_after,
        save: w.save,
    }
}

pub fn apply_batch(w: &mut TradeWorld, b: &TradeBatch)
    ensures
        final(w)@ == applied(old(w)@, *b),
{
    w.offered_team = b.offered_destination;
    w.target_team = b.target_destination;
    w.target_status = b.promised_status;
    w.target_contracted = Some(b.promised_status);
    w.requester_finance = b.requester_finance_after;
    w.recipient_finance = b.recipient_finance_after;
}

/// What is kept to undo a commit: every value the batch and the saving
/// change, as it was before.
pub struct Rollback {
    pub offered_team: usize,
    pub target_team: usize,
    pub target_status: SquadStatus,
    pub target_contracted: Option<SquadStatus>,
    pub requester_finance: FinanceBits,
    pub recipient_finance: FinanceBits,
    pub save: SaveSlots,
}

pub open spec fn rollback_view(r: Rollback) -> TradeWorldV {
    TradeWorldV {
        offered_team: r.offered_team,
        target_team: r.target_team,
        target_status: r.target_status,
        target_contracted: r.target_contracted,
        requester_finance: r.requester_finance,
        recipient_finance: r.recipient_finance,
        save: r.save@,
    }
}

fn copy_slot(o: &Option<Vec<u8>>) -> (r: Option<Vec<u8>>)
    ensures
        opt_bytes(r) == opt_bytes(*o),
{
    match o {
        Some(b) => Some(vstd::slice::slice_to_vec(b.as_slice())),
        None => None,
    }
}

fn copy_slots(s: &SaveSlots) -> (r: SaveSlots)
    ensures
        r@ == s@,
{
    SaveSlots {
        registry: copy_slot(&s.registry),
        receipt: copy_slot(&s.receipt),
        previous_receipt: copy_slot(&s.previous_receipt),
        oldest_receipt: copy_slot(&s.oldest_receipt),
        season: copy_slot(&s.season),
    }
}

/// Takes the undo record of the world before a commit.
pub fn rollback_of(w: &TradeWorld) -> (r: Rollback)
    ensures
        rollback_view(r) == w@,
{
    Rollback {
        offered_team: w.offered_team,
        target_team: w.target_team,
        target_status: w.target_status,
        target_contracted: w.target_contracted,
        requester_finance: w.requester_finance,
        recipient_finance: w.recipient_finance,
        save: copy_slots(&w.save),
    }
}

/// Puts every value the record kept back.
pub fn undo_commit(w: &mut TradeWorld, r: &Rollback)
    ensures
        final(w)@ == undone(old(w)@, *r),
{
    w.offered_team = r.offered_team;
    w.target_team = r.target_team;
    w.target_status = r.target_status;
    w.target_contracted = r.target_contracted;
    w.requester_finance = r.requester_finance;
    w.recipient_finance = r.recipient_finance;
    w.save = copy_slots(&r.save);
}

/// Writes the slots that saving the commit produced.
pub fn save_commit(w: &mut TradeWorld, slots: SaveSlots)
    ensures
        final(w)@ == saved(old(w)@, slots@),
{
    w.save = slots;
}

/// Whether the world is back exactly as recorded: the check after a forced
/// rollback.
pub fn rollback_exact(w: &TradeWorld, r: &Rollback) -> (b: bool)
    ensures
        b == (w@ == rollback_view(*r)),
{
    w.offered_team == r.offered_team && w.target_team == r.target_team && same_status(w.target_status, r.target_status)
        && same_promise(w.target_contracted, r.target_contracted) && same_finance(w.requester_finance, r.requester_finance)
        && same_finance(w.recipient_finance, r.recipient_finance) && same_slots(&w.save, &r.save)
}

fn same_status(a: SquadStatus, b: SquadStatus) -> (r: bool)
    ensures
        r == (a == b),
{
    a == b
}

fn same_promise(a: Option<SquadStatus>, b: Option<SquadStatus>) -> (r: bool)
    ensures
        r == (a == b),
{
    match (a, b) {
        (Some(x), Some(y)) => x == y,
        (None, None) => true,
        _ => false,
    }
}

fn same_finance(a: FinanceBits, b: FinanceBits) -> (r: bool)
    ensures
        r == (a == b),
{
    a.total == b.total && a.transfer == b.transfer && a.salary == b.salary
}

fn same_bytes(a: &Vec<u8>, b: &Vec<u8>) -> (r: bool)
    ensures
        r == (a@ == b@),
{
    if a.len() != b.len() {
        return false;
    }
    let mut i: usize = 0;
    while i < a.len()
        invariant
            i <= a@.len(),
            a@.len() == b@.len(),
            forall|j: int| 0 <= j < i ==> a@[j] == b@[j],
        decreases a@.len() - i,
    {
        if a[i] != b[i] {
            return false;
        }
        i = i + 1;
    }
    assert(a@ =~= b@);
    true
}

fn same_slot(a: &Option<Vec<u8>>, b: &Option<Vec<u8>>) -> (r: bool)
    ensures
        r == (opt_bytes(*a) == opt_bytes(*b)),
{
    match (a, b) {
        (Some(x), Some(y)) => same_bytes(x, y),
        (None, None) => true,
        _ => false,
    }
}

fn same_slots(a: &SaveSlots, b: &SaveSlots) -> (r: bool)
    ensures
        r == (a@ == b@),
{
    same_slot(&a.registry, &b.registry) && same_slot(&a.receipt, &b.receipt) && same_slot(
        &a.previous_receipt,
        &b.previous_receipt,
    ) && same_slot(&a.oldest_receipt, &b.oldest_receipt) && same_slot(&a.season, &b.season)
}

/// The world after undoing: every value the record kept, whatever the world
/// held.
pub open spec fn undone(w: TradeWorldV, r: Rollback) -> TradeWorldV {
    rollback_view(r)
}

/// The world after the commit's slots were saved.
pub open spec fn saved(w: TradeWorldV, slots: SaveSlotsV) -> TradeWorldV {
    TradeWorldV { save: slots, ..w }
}

/// A commit is all or nothing.  With the record taken before the commit:
/// undoing after the batch, or after the batch and the saving, gives back
/// exactly the world before (teams, statuses, finances and save slots), so
/// a failed commit leaves no half-applied trade; a rehearsal that undoes
/// the batch and applies it again leaves no net change; and a commit that
/// went through has both players moved, the promise applied, the finances
/// set and the new slots saved.
pub proof fn lemma_commit_all_or_nothing(w: TradeWorldV, b: TradeBatch, slots: SaveSlotsV, r: Rollback)
    requires
        rollback_view(r) == w,
    ensures
        undone(applied(w, b), r) == w,
        undone(saved(applied(w, b), slots), r) == w,
        applied(undone(applied(w, b), r), b) == applied(w, b),
        ({
            let c = saved(applied(w, b), slots);
            &&& c.offered_team == b.offered_destination
            &&& c.target_team == b.target_destination
            &&& c.target_status == b.promised_status
            &&& c.target_contracted == Some(b.promised_status)
            &&& c.requester_finance == b.requester_finance_after
            &&& c.recipient_finance == b.recipient_finance_after
            &&& c.save == slots
        }),
{
}

} // verus!

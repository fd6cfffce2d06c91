//! Squad statuses: their order, their names, the choices a requester can
//! promise, and the rule by which a promised role is acceptable.
use vstd::prelude::*;

verus! {

/// A player's role in a squad, strongest first.
#[derive(Clone, Copy, Debug, PartialEq, Eq, Structural)]
pub enum SquadStatus {
    Core,
    Important,
    General,
    Sub,
    Prospect,
}

/// Choice numbers for the promised status.
pub const STATUS_CORE: u8 = 0;
pub const STATUS_IMPORTANT: u8 = 1;
pub const STATUS_GENERAL: u8 = 2;
pub const STATUS_SUB: u8 = 3;
pub const STATUS_PROSPECT: u8 = 4;

/// UI action numbers that select a promised status.
pub const ACTION_STATUS_CORE: u8 = 5;
pub const ACTION_STATUS_IMPORTANT: u8 = 6;
pub const ACTION_STATUS_GENERAL: u8 = 7;
pub const ACTION_STATUS_SUB: u8 = 8;
pub const ACTION_STATUS_PROSPECT: u8 = 9;

/// The position of a status in the order Core < Important < General < Sub < Prospect.
pub open spec fn rank_of(s: SquadStatus) -> u8 {
    match s {
        SquadStatus::Core => 0,
        SquadStatus::Important => 1,
        SquadStatus::General => 2,
        SquadStatus::Sub => 3,
        SquadStatus::Prospect => 4,
    }
}

/// The status promised by a choice number, if the number is one.
pub open spec fn status_of_choice(choice: u8) -> Option<SquadStatus> {
    if choice == STATUS_CORE {
        Some(SquadStatus::Core)
    } else if choice == STATUS_IMPORTANT {
        Some(SquadStatus::Important)
    } else if choice == STATUS_GENERAL {
        Some(SquadStatus::General)
    } else if choice == STATUS_SUB {
        Some(SquadStatus::Sub)
    } else if choice == STATUS_PROSPECT {
        Some(SquadStatus::Prospect)
    } else {
        None
    }
}

/// The rank of a status (0 for Core up to 4 for Prospect).
pub fn squad_status_rank(status: SquadStatus) -> (r: u8)
    ensures
        r == rank_of(status),
{
    match status {
        SquadStatus::Core => 0,
        SquadStatus::Important => 1,
        SquadStatus::General => 2,
        SquadStatus::Sub => 3,
        SquadStatus::Prospect => 4,
    }
}

/// The English name of a status.
pub fn squad_status_label(status: SquadStatus) -> (r: &'static str)
    ensures
        status == SquadStatus::Core ==> r@ == "Core"@,
        status == SquadStatus::Important ==> r@ == "Important"@,
        status == SquadStatus::General ==> r@ == "General"@,
        status == SquadStatus::Sub ==> r@ == "Sub"@,
        status == SquadStatus::Prospect ==> r@ == "Prospect"@,
{
    match status {
        SquadStatus::Core => "Core",
        SquadStatus::Important => "Important",
        SquadStatus::General => "General",
        SquadStatus::Sub => "Sub",
        SquadStatus::Prospect => "Prospect",
    }
}

/// The Korean short name of a status shown on roster rows.
pub fn custom_squad_status_label(status: SquadStatus) -> (r: &'static str)
    ensures
        status == SquadStatus::Core ==> r@ == "핵심"@,
        status == SquadStatus::Important ==> r@ == "주요"@,
        status == SquadStatus::General ==> r@ == "주전"@,
        status == SquadStatus::Sub ==> r@ == "후보"@,
        status == SquadStatus::Prospect ==> r@ == "유망주"@,
{
    match status {
        SquadStatus::Core => "핵심",
        SquadStatus::Important => "주요",
        SquadStatus::General => "주전",
        SquadStatus::Sub => "후보",
        SquadStatus::Prospect => "유망주",
    }
}

/// Whether the status has a value floor for replacing the player (all but
/// Sub and Prospect).
pub fn has_value_replacement_floor(status: SquadStatus) -> (r: bool)
    ensures
        r <==> rank_of(status) <= 2,
{
    match status {
        SquadStatus::Core | SquadStatus::Important | SquadStatus::General => true,
        _ => false,
    }
}

/// The key and the Korean label of a promised-status choice; an unknown
/// choice reads as General.
pub fn desired_squad_status(choice: u8) -> (r: (&'static str, &'static str))
    ensures
        choice == STATUS_CORE ==> r.0@ == "core"@ && r.1@ == "핵심 선수"@,
        choice == STATUS_IMPORTANT ==> r.0@ == "important"@ && r.1@ == "주요 선수"@,
        choice == STATUS_SUB ==> r.0@ == "sub"@ && r.1@ == "후보 선수"@,
        choice == STATUS_PROSPECT ==> r.0@ == "prospect"@ && r.1@ == "유망주"@,
        choice != STATUS_CORE && choice != STATUS_IMPORTANT && choice != STATUS_SUB
            && choice != STATUS_PROSPECT ==> r.0@ == "general"@ && r.1@ == "주전 선수"@,
{
    if choice == STATUS_CORE {
        ("core", "핵심 선수")
    } else if choice == STATUS_IMPORTANT {
        ("important", "주요 선수")
    } else if choice == STATUS_SUB {
        ("sub", "후보 선수")
    } else if choice == STATUS_PROSPECT {
        ("prospect", "유망주")
    } else {
        ("general", "주전 선수")
    }
}

/// A choice number that names no status.
#[derive(Clone, Copy, Debug, PartialEq, Eq, Structural)]
pub struct UnsupportedStatusChoice(pub u8);

/// The status that a choice number promises.
pub fn desired_squad_status_value(choice: u8) -> (r: Result<SquadStatus, UnsupportedStatusChoice>)
    ensures
        match status_of_choice(choice) {
            Some(s) => r == Ok::<SquadStatus, UnsupportedStatusChoice>(s),
            None => r == Err::<SquadStatus, UnsupportedStatusChoice>(UnsupportedStatusChoice(choice)),
        },
{
    if choice == STATUS_CORE {
        Ok(SquadStatus::Core)
    } else if choice == STATUS_IMPORTANT {
        Ok(SquadStatus::Important)
    } else if choice == STATUS_GENERAL {
        Ok(SquadStatus::General)
    } else if choice == STATUS_SUB {
        Ok(SquadStatus::Sub)
    } else if choice == STATUS_PROSPECT {
        Ok(SquadStatus::Prospect)
    } else {
        Err(UnsupportedStatusChoice(choice))
    }
}

/// The promised-status choice that a status-menu action selects.
pub fn desired_squad_status_from_action(action: u8) -> (r: Option<u8>)
    ensures
        action == ACTION_STATUS_CORE ==> r == Some(STATUS_CORE),
        action == ACTION_STATUS_IMPORTANT ==> r == Some(STATUS_IMPORTANT),
        action == ACTION_STATUS_GENERAL ==> r == Some(STATUS_GENERAL),
        action == ACTION_STATUS_SUB ==> r == Some(STATUS_SUB),
        action == ACTION_STATUS_PROSPECT ==> r == Some(STATUS_PROSPECT),
        !(ACTION_STATUS_CORE <= action <= ACTION_STATUS_PROSPECT) ==> r is None,
{
    if action == ACTION_STATUS_CORE {
        Some(STATUS_CORE)
    } else if action == ACTION_STATUS_IMPORTANT {
        Some(STATUS_IMPORTANT)
    } else if action == ACTION_STATUS_GENERAL {
        Some(STATUS_GENERAL)
    } else if action == ACTION_STATUS_SUB {
        Some(STATUS_SUB)
    } else if action == ACTION_STATUS_PROSPECT {
        Some(STATUS_PROSPECT)
    } else {
        None
    }
}

/// The strongest (smallest) rank among the current status and the one the
/// contract already guarantees.
pub open spec fn strongest_existing_rank(current: SquadStatus, contracted: Option<SquadStatus>) -> u8 {
    match contracted {
        Some(c) => if rank_of(c) < rank_of(current) { rank_of(c) } else { rank_of(current) },
        None => rank_of(current),
    }
}

/// A promise never demotes: it is acceptable exactly when it is at least as
/// strong as the current status and at least as strong as the contracted
/// status, if there is one; so a promise weaker than either is refused.
pub proof fn lemma_promise_never_demotes(current: SquadStatus, contracted: Option<SquadStatus>, promised: SquadStatus)
    ensures
        (rank_of(promised) <= strongest_existing_rank(current, contracted)) <==> (rank_of(promised) <= rank_of(current)
            && (contracted matches Some(c) ==> rank_of(promised) <= rank_of(c))),
        rank_of(promised) > rank_of(current) ==> !(rank_of(promised) <= strongest_existing_rank(current, contracted)),
        strongest_existing_rank(current, contracted) == rank_of(current) || (contracted matches Some(c)
            && strongest_existing_rank(current, contracted) == rank_of(c)),
{
}

/// A promised role is acceptable when it keeps or improves on the strongest
/// of the current and the contracted status.
pub fn trade_role_promise_allows(current: SquadStatus, contracted: Option<SquadStatus>, promised: SquadStatus) -> (r: bool)
    ensures
        r <==> rank_of(promised) <= strongest_existing_rank(current, contracted),
        r <==> rank_of(promised) <= rank_of(current) && (contracted matches Some(c) ==> rank_of(promised) <= rank_of(c)),
{
    proof {
        lemma_promise_never_demotes(current, contracted, promised);
    }
    let current_rank = squad_status_rank(current);
    let strongest = match contracted {
        Some(c) => {
            let cr = squad_status_rank(c);
            if cr < current_rank { cr } else { current_rank }
        },
        None => current_rank,
    };
    squad_status_rank(promised) <= strongest
}

/// The contract length asked for when a player is traded with `days_left`
/// days on the contract: whole years rounded up, from 1 to 10 (1 when no days
/// are left).
pub open spec fn years_for_days(days_left: int) -> int {
    if days_left <= 0 {
        1
    } else {
        let y = (days_left + 364) / 365;
        if y < 1 { 1 } else if y > 10 { 10 } else { y }
    }
}

pub fn requested_years_from_contract_days(contract_days_left: i64) -> (r: usize)
    ensures
        r as int == years_for_days(contract_days_left as int),
{
    if contract_days_left <= 0 {
        return 1;
    }
    let y: u64 = (contract_days_left as u64 + 364) / 365;
    if y < 1 {
        1
    } else if y > 10 {
        10
    } else {
        y as usize
    }
}

/// What `{:?}` prints for a contracted status: `None` or `Some(<name>)`.
pub open spec fn contracted_debug_spec(s: Option<SquadStatus>) -> Seq<char> {
    match s {
        None => "None"@,
        Some(SquadStatus::Core) => "Some(Core)"@,
        Some(SquadStatus::Important) => "Some(Important)"@,
        Some(SquadStatus::General) => "Some(General)"@,
        Some(SquadStatus::Sub) => "Some(Sub)"@,
        Some(SquadStatus::Prospect) => "Some(Prospect)"@,
    }
}

/// The debug text of a contracted status.
pub fn contracted_status_debug(s: Option<SquadStatus>) -> (r: &'static str)
    ensures
        r@ == contracted_debug_spec(s),
{
    match s {
        None => "None",
        Some(SquadStatus::Core) => "Some(Core)",
        Some(SquadStatus::Important) => "Some(Important)",
        Some(SquadStatus::General) => "Some(General)",
        Some(SquadStatus::Sub) => "Some(Sub)",
        Some(SquadStatus::Prospect) => "Some(Prospect)",
    }
}

/// The status variant name used for styling a Korean status label; any
/// other text reads as `prospect`.
pub fn custom_status_variant(label: &str) -> (r: &'static str)
    ensures
        label@ == "후보"@ ==> r@ == "sub"@,
        label@ == "주전"@ ==> r@ == "general"@,
        label@ == "주요"@ ==> r@ == "important"@,
        label@ == "핵심"@ ==> r@ == "core"@,
        label@ != "후보"@ && label@ != "주전"@ && label@ != "주요"@ && label@ != "핵심"@ ==> r@ == "prospect"@,
{
    let l = crate::text::chars_of(label);
    let sub = crate::text::chars_of("후보");
    let general = crate::text::chars_of("주전");
    let important = crate::text::chars_of("주요");
    let core = crate::text::chars_of("핵심");
    proof {
        reveal_strlit("후보");
        reveal_strlit("주전");
        reveal_strlit("주요");
        reveal_strlit("핵심");
        assert("주전"@ != "후보"@) by { assert("주전"@[0] != "후보"@[0]); }
        assert("주요"@ != "후보"@) by { assert("주요"@[0] != "후보"@[0]); }
        assert("주요"@ != "주전"@) by { assert("주요"@[1] != "주전"@[1]); }
        assert("핵심"@ != "후보"@) by { assert("핵심"@[0] != "후보"@[0]); }
        assert("핵심"@ != "주전"@) by { assert("핵심"@[0] != "주전"@[0]); }
        assert("핵심"@ != "주요"@) by { assert("핵심"@[0] != "주요"@[0]); }
    }
    if crate::text::chars_eq(l.as_slice(), sub.as_slice()) {
        "sub"
    } else if crate::text::chars_eq(l.as_slice(), general.as_slice()) {
        "general"
    } else if crate::text::chars_eq(l.as_slice(), important.as_slice()) {
        "important"
    } else if crate::text::chars_eq(l.as_slice(), core.as_slice()) {
        "core"
    } else {
        "prospect"
    }
}

} // verus!

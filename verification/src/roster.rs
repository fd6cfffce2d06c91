//! Rosters: which team each athlete is contracted to and at which position,
//! the counts the trade rules read, and the players of the historical trade
//! fixture.
use vstd::prelude::*;
use crate::trade::Position;

verus! {

/// What the trade rules read of an athlete: the team of a running contract
/// (none when the athlete is not under contract) and the main position.
#[derive(Clone, Copy, Debug, PartialEq, Eq, Structural)]
pub struct RosterEntry {
    pub athlete_id: usize,
    pub contract_team_id: Option<usize>,
    pub position: Position,
}

/// How many entries are contracted to `team_id`.
pub open spec fn roster_count(entries: Seq<RosterEntry>, team_id: usize) -> nat
    decreases entries.len(),
{
    if entries.len() == 0 {
        0
    } else {
        roster_count(entries.drop_last(), team_id) + if entries.last().contract_team_id == Some(team_id) {
            1nat
        } else {
            0nat
        }
    }
}

/// How many entries are contracted to `team_id` at `position`.
pub open spec fn position_count(entries: Seq<RosterEntry>, team_id: usize, position: Position) -> nat
    decreases entries.len(),
{
    if entries.len() == 0 {
        0
    } else {
        position_count(entries.drop_last(), team_id, position) + if entries.last().contract_team_id == Some(team_id)
            && entries.last().position == position {
            1nat
        } else {
            0nat
        }
    }
}

/// The number of athletes under contract with `team_id`.
pub fn contracted_roster_count(entries: &[RosterEntry], team_id: usize) -> (n: usize)
    ensures
        n == roster_count(entries@, team_id),
{
    let mut n: usize = 0;
    let mut i: usize = 0;
    while i < entries.len()
        invariant
            i <= entries@.len(),
            n == roster_count(entries@.take(i as int), team_id),
            n <= i,
        decreases entries@.len() - i,
    {
        assert(entries@.take(i + 1).drop_last() =~= entries@.take(i as int));
        if entries[i].contract_team_id == Some(team_id) {
            n = n + 1;
        }
        i = i + 1;
    }
    assert(entries@.take(i as int) =~= entries@);
    n
}

/// The number of athletes under contract with `team_id` whose main position
/// is `position`.
pub fn team_position_count(entries: &[RosterEntry], team_id: usize, position: Position) -> (n: usize)
    ensures
        n == position_count(entries@, team_id, position),
{
    let mut n: usize = 0;
    let mut i: usize = 0;
    while i < entries.len()
        invariant
            i <= entries@.len(),
            n == position_count(entries@.take(i as int), team_id, position),
            n <= i,
        decreases entries@.len() - i,
    {
        assert(entries@.take(i + 1).drop_last() =~= entries@.take(i as int));
        if entries[i].contract_team_id == Some(team_id) && entries[i].position == position {
            n = n + 1;
        }
        i = i + 1;
    }
    assert(entries@.take(i as int) =~= entries@);
    n
}

/// A team keeps its shape after giving away its player at `outgoing` when it
/// has another player there or gets one back at the same position.
pub fn team_keeps_structure(entries: &[RosterEntry], team_id: usize, outgoing: Position, incoming: Position) -> (b: bool)
    ensures
        b <==> position_count(entries@, team_id, outgoing) > 1 || incoming == outgoing,
{
    let count = team_position_count(entries, team_id, outgoing);
    crate::trade::structural_continuity(count, outgoing, incoming)
}

/// The athletes of the two historical trades of the fixture.
pub open spec fn fixture_athlete(id: usize) -> bool {
    id == 1512 || id == 1514 || id == 1568 || id == 1588
}

pub fn is_historical_trade_fixture_athlete(athlete_id: usize) -> (b: bool)
    ensures
        b == fixture_athlete(athlete_id),
{
    athlete_id == 1512 || athlete_id == 1514 || athlete_id == 1568 || athlete_id == 1588
}

} // verus!

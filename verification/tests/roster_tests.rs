use lib::roster::{
    contracted_roster_count, is_historical_trade_fixture_athlete, team_keeps_structure, team_position_count,
    RosterEntry,
};
use lib::trade::Position;

fn entry(id: usize, team: Option<usize>, position: Position) -> RosterEntry {
    RosterEntry { athlete_id: id, contract_team_id: team, position }
}

fn roster() -> Vec<RosterEntry> {
    vec![
        entry(1, Some(7), Position::Mid),
        entry(2, Some(7), Position::Top),
        entry(3, Some(0), Position::Mid),
        entry(4, None, Position::Mid),
        entry(5, Some(7), Position::Mid),
    ]
}

#[test]
fn roster_counts() {
    let r = roster();
    assert_eq!(contracted_roster_count(&r, 7), 3);
    assert_eq!(contracted_roster_count(&r, 0), 1);
    assert_eq!(contracted_roster_count(&r, 9), 0);
    assert_eq!(team_position_count(&r, 7, Position::Mid), 2);
    assert_eq!(team_position_count(&r, 7, Position::Support), 0);
    assert_eq!(team_position_count(&r, 0, Position::Mid), 1);
}

#[test]
fn structure_after_a_trade() {
    let r = roster();
    assert!(team_keeps_structure(&r, 7, Position::Mid, Position::Top));
    assert!(!team_keeps_structure(&r, 7, Position::Top, Position::Mid));
    assert!(team_keeps_structure(&r, 7, Position::Top, Position::Top));
    assert!(!team_keeps_structure(&r, 0, Position::Mid, Position::Bottom));
}

#[test]
fn fixture_athletes() {
    for id in [1512, 1514, 1568, 1588] {
        assert!(is_historical_trade_fixture_athlete(id));
    }
    assert!(!is_historical_trade_fixture_athlete(0));
    assert!(!is_historical_trade_fixture_athlete(1513));
}

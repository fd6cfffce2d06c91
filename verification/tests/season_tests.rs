use lib::season::{current_recruit_season_key, season_usage_record, trade_season_already_used, RecruitWindow, YearSchedule};

fn schedules() -> Vec<YearSchedule> {
    vec![
        YearSchedule {
            id: 3,
            year: 2026,
            recruits: vec![
                RecruitWindow { start: "2026-01-01".to_string(), end: "2026-01-20".to_string() },
                RecruitWindow { start: "2026-06-01".to_string(), end: "2026-06-15".to_string() },
            ],
        },
        YearSchedule {
            id: 4,
            year: 2027,
            recruits: vec![RecruitWindow { start: "2027-01-01".to_string(), end: "2027-01-20".to_string() }],
        },
    ]
}

#[test]
fn open_season_keys() {
    let s = schedules();
    assert_eq!(current_recruit_season_key(&s, "2026-01-05"), Some("3|2026|2026-01-01".to_string()));
    assert_eq!(current_recruit_season_key(&s, "2026-01-20"), Some("3|2026|2026-01-01".to_string()));
    assert_eq!(current_recruit_season_key(&s, "2026-06-01"), Some("3|2026|2026-06-01".to_string()));
    assert_eq!(current_recruit_season_key(&s, "2027-01-10"), Some("4|2027|2027-01-01".to_string()));
    assert_eq!(current_recruit_season_key(&s, "2026-03-01"), None);
    assert_eq!(current_recruit_season_key(&[], "2026-01-05"), None);
}

#[test]
fn recorded_season_is_used_once() {
    let key = "3|2026|2026-01-01";
    let record = season_usage_record(key);
    assert_eq!(record, key.as_bytes().to_vec());
    assert!(trade_season_already_used(Some(&record), Some(key)));
    assert!(!trade_season_already_used(Some(&record), Some("3|2026|2026-06-01")));
    assert!(!trade_season_already_used(Some(&record), None));
    assert!(!trade_season_already_used(None, Some(key)));
    assert!(trade_season_already_used(Some(b"  3|2026|2026-01-01\n"), Some(key)));
    assert!(!trade_season_already_used(Some(&[0xff, 0xfe]), Some(key)));
}

#[test]
fn marked_season_is_used_in_that_season_only() {
    let s = schedules();
    let key = current_recruit_season_key(&s, "2026-01-05").unwrap();
    let record = season_usage_record(&key);
    let later = current_recruit_season_key(&s, "2026-01-19");
    assert!(trade_season_already_used(Some(&record), later.as_deref()));
    let next = current_recruit_season_key(&s, "2026-06-03");
    assert!(!trade_season_already_used(Some(&record), next.as_deref()));
    let closed = current_recruit_season_key(&s, "2026-03-01");
    assert!(!trade_season_already_used(Some(&record), closed.as_deref()));
    // a window whose first day ends in whitespace gives a key that never reads back as used
    let odd = vec![YearSchedule {
        id: 1,
        year: 2026,
        recruits: vec![RecruitWindow { start: "2026-01-01 ".to_string(), end: "2026-01-20".to_string() }],
    }];
    let odd_key = current_recruit_season_key(&odd, "2026-01-05").unwrap();
    assert!(!trade_season_already_used(Some(&season_usage_record(&odd_key)), Some(&odd_key)));
}

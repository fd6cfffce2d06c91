//! One trade per recruitment season: the key that names the open
//! recruitment window, the record kept when a trade is committed, and the
//! check made before the next proposal.  Dates are `YYYY-MM-DD` text, whose
//! text order is the order of the dates.
use vstd::prelude::*;
use crate::order::{lex_less, lex_lt};
use crate::text::{
    append_chars, chars_eq, chars_of, dec, decimal, is_whitespace, lemma_dec_shape, str_from_utf8, string_of, trim,
    trim_bounds, trim_end, trim_start,
};

verus! {

/// A recruitment window of a year's schedule, first and last day included.
pub struct RecruitWindow {
    pub start: String,
    pub end: String,
}

/// A year's schedule: its id, its year and its recruitment windows.
pub struct YearSchedule {
    pub id: usize,
    pub year: usize,
    pub recruits: Vec<RecruitWindow>,
}

/// `date` lies in the window from `start` to `end`.
pub open spec fn in_window(date: Seq<char>, start: Seq<char>, end: Seq<char>) -> bool {
    !lex_lt(date, start) && !lex_lt(end, date)
}

/// The key of a recruitment season: `<schedule id>|<year>|<first day>`.
pub open spec fn season_key(id: nat, year: nat, start: Seq<char>) -> Seq<char> {
    dec(id) + seq!['|'] + dec(year) + seq!['|'] + start
}

/// The first window, in the order of the schedule, that holds `date`.
pub open spec fn window_key(id: nat, year: nat, windows: Seq<RecruitWindow>, date: Seq<char>) -> Option<Seq<char>>
    decreases windows.len(),
{
    if windows.len() == 0 {
        None
    } else if in_window(date, windows[0].start@, windows[0].end@) {
        Some(season_key(id, year, windows[0].start@))
    } else {
        window_key(id, year, windows.drop_first(), date)
    }
}

/// The key of the recruitment season open on `date`: that of the first
/// schedule, in order, with a window holding the date.
pub open spec fn open_season_key(schedules: Seq<YearSchedule>, date: Seq<char>) -> Option<Seq<char>>
    decreases schedules.len(),
{
    if schedules.len() == 0 {
        None
    } else {
        match window_key(schedules[0].id as nat, schedules[0].year as nat, schedules[0].recruits@, date) {
            Some(k) => Some(k),
            None => open_season_key(schedules.drop_first(), date),
        }
    }
}

fn window_season_key(id: usize, year: usize, windows: &Vec<RecruitWindow>, date: &[char]) -> (r: Option<String>)
    ensures
        match window_key(id as nat, year as nat, windows@, date@) {
            Some(k) => r matches Some(s) && s@ == k,
            None => r is None,
        },
{
    let mut i: usize = 0;
    assert(windows@.skip(0) =~= windows@);
    while i < windows.len()
        invariant
            i <= windows@.len(),
            window_key(id as nat, year as nat, windows@, date@) == window_key(
                id as nat,
                year as nat,
                windows@.skip(i as int),
                date@,
            ),
        decreases windows@.len() - i,
    {
        let w = &windows[i];
        let start = chars_of(w.start.as_str());
        let end = chars_of(w.end.as_str());
        assert(windows@.skip(i as int)[0] == windows@[i as int]);
        if !lex_less(date, start.as_slice()) && !lex_less(end.as_slice(), date) {
            let mut key: Vec<char> = Vec::new();
            append_chars(&mut key, decimal(id as u64).as_slice());
            key.push('|');
            append_chars(&mut key, decimal(year as u64).as_slice());
            key.push('|');
            append_chars(&mut key, start.as_slice());
            assert(key@ =~= season_key(id as nat, year as nat, w.start@));
            return Some(string_of(key.as_slice()));
        }
        assert(windows@.skip(i as int).drop_first() =~= windows@.skip(i + 1));
        i = i + 1;
    }
    assert(windows@.skip(i as int) =~= Seq::<RecruitWindow>::empty());
    None
}

/// The key of the recruitment season open on `date`, if one is open.
pub fn current_recruit_season_key(schedules: &[YearSchedule], date: &str) -> (r: Option<String>)
    ensures
        match open_season_key(schedules@, date@) {
            Some(k) => r matches Some(s) && s@ == k,
            None => r is None,
        },
{
    let d = chars_of(date);
    let mut i: usize = 0;
    assert(schedules@.skip(0) =~= schedules@);
    while i < schedules.len()
        invariant
            i <= schedules@.len(),
            d@ == date@,
            open_season_key(schedules@, date@) == open_season_key(schedules@.skip(i as int), date@),
        decreases schedules@.len() - i,
    {
        let s = &schedules[i];
        assert(schedules@.skip(i as int)[0] == schedules@[i as int]);
        assert(schedules@.skip(i as int).drop_first() =~= schedules@.skip(i + 1));
        match window_season_key(s.id, s.year, &s.recruits, d.as_slice()) {
            Some(k) => return Some(k),
            None => {},
        }
        i = i + 1;
    }
    assert(schedules@.skip(i as int) =~= Seq::<YearSchedule>::empty());
    None
}

/// The season's trade is used when a season is open and the stored record,
/// read as UTF-8 and trimmed, is its key.
pub open spec fn season_used(stored: Option<Seq<u8>>, current: Option<Seq<char>>) -> bool {
    match (stored, current) {
        (Some(b), Some(k)) => vstd::utf8::valid_utf8(b) && trim(vstd::utf8::decode_utf8(b)) == k,
        _ => false,
    }
}

/// Whether the trade of the open season (`current`) was already made, given
/// the stored record.
pub fn trade_season_already_used(stored: Option<&[u8]>, current: Option<&str>) -> (b: bool)
    ensures
        b == season_used(
            match stored {
                Some(s) => Some(s@),
                None => None,
            },
            match current {
                Some(c) => Some(c@),
                None => None,
            },
        ),
{
    let key = match current {
        None => return false,
        Some(k) => k,
    };
    let bytes = match stored {
        None => return false,
        Some(b) => b,
    };
    let text = match str_from_utf8(bytes) {
        None => return false,
        Some(t) => t,
    };
    let c = chars_of(text);
    let (a, z) = trim_bounds(c.as_slice(), 0, c.len());
    assert(c@.subrange(0, c@.len() as int) =~= c@);
    let t = crate::text::copy_range(c.as_slice(), a, z);
    chars_eq(t.as_slice(), chars_of(key).as_slice())
}

/// The record kept when the season's trade is committed: the key's bytes.
pub fn season_usage_record(key: &str) -> (bytes: Vec<u8>)
    ensures
        bytes@ == vstd::utf8::encode_utf8(key@),
{
    let k = chars_of(key);
    crate::kv::utf8_bytes(k.as_slice())
}

/// A season key has no whitespace at either end.
pub open spec fn is_season_key(k: Seq<char>) -> bool {
    trim(k) == k
}

/// Once the season's trade is recorded, that season counts as used, and no
/// other season does.
pub proof fn lemma_recorded_season_is_used(key: Seq<char>, other: Seq<char>)
    requires
        is_season_key(key),
    ensures
        season_used(Some(vstd::utf8::encode_utf8(key)), Some(key)),
        other != key ==> !season_used(Some(vstd::utf8::encode_utf8(key)), Some(other)),
        !season_used(Some(vstd::utf8::encode_utf8(key)), None),
        !season_used(None, Some(other)),
{
    broadcast use vstd::utf8::encode_utf8_valid_utf8, vstd::utf8::encode_utf8_decode_utf8;
}

/// A window's first day that does not end in whitespace.
pub open spec fn clean_start(start: Seq<char>) -> bool {
    start.len() > 0 ==> !is_whitespace(start.last())
}

/// Every window of every schedule starts on such a day (as the game's dates
/// do).
pub open spec fn clean_schedules(schedules: Seq<YearSchedule>) -> bool {
    forall|i: int, j: int|
        0 <= i < schedules.len() && 0 <= j < schedules[i].recruits@.len() ==> clean_start(
            #[trigger] schedules[i].recruits@[j].start@,
        )
}

proof fn lemma_season_key_trimmed(id: nat, year: nat, start: Seq<char>)
    requires
        clean_start(start),
    ensures
        is_season_key(season_key(id, year, start)),
{
    let k = season_key(id, year, start);
    lemma_dec_shape(id);
    assert(k[0] == dec(id)[0]);
    assert('0' <= k[0] && k[0] <= '9');
    assert(trim_start(k) == k);
    if start.len() > 0 {
        assert(k.last() == start.last());
    } else {
        assert(k.last() == '|');
    }
    assert(trim_end(k) == k);
}

proof fn lemma_window_key_trimmed(id: nat, year: nat, windows: Seq<RecruitWindow>, date: Seq<char>)
    requires
        forall|j: int| 0 <= j < windows.len() ==> clean_start(#[trigger] windows[j].start@),
    ensures
        window_key(id, year, windows, date) matches Some(k) ==> is_season_key(k),
    decreases windows.len(),
{
    if windows.len() > 0 {
        if in_window(date, windows[0].start@, windows[0].end@) {
            lemma_season_key_trimmed(id, year, windows[0].start@);
        } else {
            let rest = windows.drop_first();
            assert forall|j: int| 0 <= j < rest.len() implies clean_start(#[trigger] rest[j].start@) by {
                assert(rest[j] == windows[j + 1]);
            }
            lemma_window_key_trimmed(id, year, rest, date);
        }
    }
}

/// The key of an open season is a season key (no whitespace at either end)
/// when the windows start on clean days.
pub proof fn lemma_open_season_key_trimmed(schedules: Seq<YearSchedule>, date: Seq<char>)
    requires
        clean_schedules(schedules),
    ensures
        open_season_key(schedules, date) matches Some(k) ==> is_season_key(k),
    decreases schedules.len(),
{
    if schedules.len() > 0 {
        let w = schedules[0].recruits@;
        assert forall|j: int| 0 <= j < w.len() implies clean_start(#[trigger] w[j].start@) by {
            assert(schedules[0].recruits@[j] == w[j]);
        }
        lemma_window_key_trimmed(schedules[0].id as nat, schedules[0].year as nat, w, date);
        let rest = schedules.drop_first();
        assert forall|i: int, j: int|
            0 <= i < rest.len() && 0 <= j < rest[i].recruits@.len() implies clean_start(
            #[trigger] rest[i].recruits@[j].start@,
        ) by {
            assert(rest[i] == schedules[i + 1]);
        }
        lemma_open_season_key_trimmed(rest, date);
    }
}

/// Marking the trade of the open season and checking again: once the key of
/// the season open on `date` is recorded, a check on any date in that same
/// season finds the season used, and a check in another season does not.
pub proof fn lemma_marked_season_is_used(schedules: Seq<YearSchedule>, date: Seq<char>, later: Seq<char>)
    requires
        clean_schedules(schedules),
        open_season_key(schedules, date) is Some,
    ensures
        open_season_key(schedules, later) == open_season_key(schedules, date) ==> season_used(
            Some(vstd::utf8::encode_utf8(open_season_key(schedules, date)->0)),
            open_season_key(schedules, later),
        ),
        open_season_key(schedules, later) != open_season_key(schedules, date) ==> !season_used(
            Some(vstd::utf8::encode_utf8(open_season_key(schedules, date)->0)),
            open_season_key(schedules, later),
        ),
{
    let k = open_season_key(schedules, date)->0;
    lemma_open_season_key_trimmed(schedules, date);
    match open_season_key(schedules, later) {
        Some(o) => lemma_recorded_season_is_used(k, o),
        None => lemma_recorded_season_is_used(k, k),
    }
}

/// Records the trade of the season open on `date` in the season slot of the
/// save data: the slot then holds the season's key, and the season counts as
/// used (for windows that start on clean days).  With no season open nothing
/// is written.
pub fn mark_trade_season_used(slot: &mut Option<Vec<u8>>, schedules: &[YearSchedule], date: &str) -> (r: Option<String>)
    ensures
        match open_season_key(schedules@, date@) {
            Some(k) => r matches Some(s) && s@ == k && (*final(slot) matches Some(b) && b@ == vstd::utf8::encode_utf8(k)),
            None => r is None && *final(slot) == *old(slot),
        },
        clean_schedules(schedules@) && r is Some ==> season_used(
            match *final(slot) {
                Some(b) => Some(b@),
                None => None,
            },
            open_season_key(schedules@, date@),
        ),
{
    let key = current_recruit_season_key(schedules, date);
    match key {
        Some(k) => {
            let record = season_usage_record(k.as_str());
            *slot = Some(record);
            proof {
                if clean_schedules(schedules@) {
                    lemma_marked_season_is_used(schedules@, date@, date@);
                }
            }
            Some(k)
        },
        None => None,
    }
}

} // verus!

//! Texts that the trade screen and the player profile show: compact times,
//! dates, status labels, the warnings that keep the submit button closed,
//! and the stage line of a pending proposal.
use vstd::prelude::*;
use crate::text::{append_chars, append_str, chars_eq, chars_of, dec, decimal, parse_decimal, parse_unsigned, string_of, trim, trim_bounds};
use crate::trade::{quote_error_message_ko, quote_message_spec, Position};

verus! {

// ---------------------------------------------------------------------------
// Byte prefixes of UTF-8 text
// ---------------------------------------------------------------------------

/// The number of UTF-8 bytes of a character.
pub open spec fn char_bytes(c: char) -> nat {
    if '\u{80}' > c {
        1
    } else if '\u{800}' > c {
        2
    } else if '\u{10000}' > c {
        3
    } else {
        4
    }
}

/// The number of UTF-8 bytes of a text.
pub open spec fn bytes_len(s: Seq<char>) -> nat
    decreases s.len(),
{
    if s.len() == 0 {
        0
    } else {
        char_bytes(s[0]) + bytes_len(s.drop_first())
    }
}

/// How many characters make up the first `n` bytes of `s`, if `n` bytes end
/// at a character boundary within `s` (what `str::get(..n)` succeeds on).
pub open spec fn prefix_chars(s: Seq<char>, n: nat) -> Option<nat>
    decreases s.len(),
{
    if n == 0 {
        Some(0)
    } else if s.len() == 0 || char_bytes(s[0]) > n {
        None
    } else {
        match prefix_chars(s.drop_first(), (n - char_bytes(s[0])) as nat) {
            Some(k) => Some(k + 1),
            None => None,
        }
    }
}

proof fn lemma_prefix_chars_bound(s: Seq<char>, n: nat)
    ensures
        prefix_chars(s, n) matches Some(k) ==> k <= s.len(),
    decreases s.len(),
{
    if n > 0 && s.len() > 0 && char_bytes(s[0]) <= n {
        lemma_prefix_chars_bound(s.drop_first(), (n - char_bytes(s[0])) as nat);
    }
}

fn char_len_utf8(c: char) -> (n: usize)
    ensures
        n == char_bytes(c),
{
    if '\u{80}' > c {
        1
    } else if '\u{800}' > c {
        2
    } else if '\u{10000}' > c {
        3
    } else {
        4
    }
}

/// The number of characters in the first `n` bytes of `s`, if that is a
/// character boundary.
pub fn prefix_char_count(s: &[char], n: usize) -> (r: Option<usize>)
    ensures
        match prefix_chars(s@, n as nat) {
            Some(k) => r matches Some(j) && j as nat == k,
            None => r is None,
        },
{
    let mut i: usize = 0;
    let mut left: usize = n;
    assert(s@.skip(0) =~= s@);
    proof {
        lemma_prefix_chars_bound(s@, n as nat);
    }
    while left > 0 && i < s.len() && char_len_utf8(s[i]) <= left
        invariant
            i <= s@.len(),
            left <= n,
            prefix_chars(s@, n as nat) == match prefix_chars(s@.skip(i as int), left as nat) {
                Some(k) => Some((k + i) as nat),
                None => None::<nat>,
            },
        decreases s@.len() - i,
    {
        let b = char_len_utf8(s[i]);
        assert(s@.skip(i as int)[0] == s@[i as int]);
        assert(s@.skip(i as int).drop_first() =~= s@.skip(i + 1));
        left = left - b;
        i = i + 1;
    }
    if left == 0 {
        Some(i)
    } else {
        None
    }
}

// ---------------------------------------------------------------------------
// Times and dates
// ---------------------------------------------------------------------------

/// `-` replaced by `/`.
pub open spec fn slashes(s: Seq<char>) -> Seq<char> {
    s.map_values(|c: char| if c == '-' { '/' } else { c })
}

/// A game time cut to `YYYY-MM-DD hh:mm` with slashes in the date; a
/// shorter text is kept.
pub open spec fn compact_time(v: Seq<char>) -> Seq<char> {
    if bytes_len(v) >= 16 {
        slashes(v.take(prefix_chars(v, 16)->0 as int))
    } else {
        v
    }
}

proof fn lemma_bytes_len_prefix(s: Seq<char>, n: nat)
    ensures
        bytes_len(s) >= n ==> (prefix_chars(s, n) is None || prefix_chars(s, n) is Some),
        prefix_chars(s, n) is Some ==> bytes_len(s) >= n,
    decreases s.len(),
{
    if n > 0 && s.len() > 0 && char_bytes(s[0]) <= n {
        lemma_bytes_len_prefix(s.drop_first(), (n - char_bytes(s[0])) as nat);
    }
}

fn slash_copy(s: &[char], k: usize) -> (v: Vec<char>)
    requires
        k <= s@.len(),
    ensures
        v@ == slashes(s@.take(k as int)),
{
    let mut v: Vec<char> = Vec::new();
    let mut i: usize = 0;
    while i < k
        invariant
            i <= k <= s@.len(),
            v@ == slashes(s@.take(i as int)),
        decreases k - i,
    {
        let c = s[i];
        v.push(if c == '-' { '/' } else { c });
        assert(v@ =~= slashes(s@.take(i + 1)));
        i = i + 1;
    }
    v
}

/// A text is cut at a byte count only where a character ends.
pub open spec fn cut_ok(v: Seq<char>, n: nat) -> bool {
    bytes_len(v) >= n ==> prefix_chars(v, n) is Some
}

/// The first sixteen bytes of a game time with `-` shown as `/`.
pub fn compact_async_time(value: &str) -> (s: String)
    requires
        cut_ok(value@, 16),
    ensures
        s@ == compact_time(value@),
{
    let v = chars_of(value);
    proof {
        lemma_bytes_len_prefix(v@, 16);
        lemma_prefix_chars_bound(v@, 16);
    }
    match prefix_char_count(v.as_slice(), 16) {
        Some(k) => {
            assert(bytes_len(value@) >= 16);
            assert(k as nat == prefix_chars(value@, 16)->0);
            let out = slash_copy(v.as_slice(), k);
            string_of(out.as_slice())
        },
        None => {
            assert(bytes_len(value@) < 16);
            string_of(v.as_slice())
        },
    }
}

/// What `str::get(..n)` gives, or the whole text when it fails.
pub open spec fn head_or_all(v: Seq<char>, n: nat) -> Seq<char> {
    match prefix_chars(v, n) {
        Some(k) => v.take(k as int),
        None => v,
    }
}

fn head_or_all_exec(v: &[char], n: usize) -> (h: Vec<char>)
    ensures
        h@ == head_or_all(v@, n as nat),
{
    proof {
        lemma_prefix_chars_bound(v@, n as nat);
    }
    match prefix_char_count(v, n) {
        Some(k) => crate::text::copy_range(v, 0, k),
        None => crate::text::copy_range(v, 0, v.len()),
    }
}

/// The date part (`YYYY-MM-DD`) of a game time.
pub fn projection_game_date(game_time: &str) -> (s: String)
    ensures
        s@ == head_or_all(game_time@, 10),
{
    let v = chars_of(game_time);
    let h = head_or_all_exec(v.as_slice(), 10);
    proof {
        lemma_prefix_chars_bound(v@, 10);
        if prefix_chars(v@, 10) is None {
            assert(v@.subrange(0, v@.len() as int) =~= v@);
        }
    }
    string_of(h.as_slice())
}

/// The pieces of `s` between `sep` characters (`str::split`).
pub open spec fn split_char(s: Seq<char>, sep: char) -> Seq<Seq<char>>
    decreases s.len(),
{
    if s.len() == 0 {
        seq![Seq::empty()]
    } else {
        let p = split_char(s.drop_last(), sep);
        if s.last() == sep {
            p.push(Seq::empty())
        } else {
            p.update(p.len() - 1, p.last().push(s.last()))
        }
    }
}

proof fn lemma_split_char_nonempty(s: Seq<char>, sep: char)
    ensures
        split_char(s, sep).len() >= 1,
    decreases s.len(),
{
    if s.len() > 0 {
        lemma_split_char_nonempty(s.drop_last(), sep);
    }
}

fn split_char_exec(s: &[char], sep: char) -> (parts: Vec<Vec<char>>)
    ensures
        parts@.map_values(|v: Vec<char>| v@) == split_char(s@, sep),
{
    let mut parts: Vec<Vec<char>> = Vec::new();
    let mut cur: Vec<char> = Vec::new();
    let mut i: usize = 0;
    assert(s@.take(0) =~= Seq::<char>::empty());
    while i < s.len()
        invariant
            i <= s@.len(),
            parts@.map_values(|v: Vec<char>| v@).push(cur@) == split_char(s@.take(i as int), sep),
        decreases s@.len() - i,
    {
        let c = s[i];
        let ghost before = split_char(s@.take(i as int), sep);
        assert(s@.take(i + 1).drop_last() =~= s@.take(i as int));
        assert(s@.take(i + 1).last() == c);
        if c == sep {
            let done = cur;
            parts.push(done);
            cur = Vec::new();
            assert(parts@.map_values(|v: Vec<char>| v@).push(cur@) =~= before.push(Seq::<char>::empty()));
        } else {
            cur.push(c);
            assert(parts@.map_values(|v: Vec<char>| v@).push(cur@) =~= before.update(before.len() - 1, before.last().push(c)));
        }
        i = i + 1;
    }
    assert(s@.take(i as int) =~= s@);
    let ghost all = parts@.map_values(|v: Vec<char>| v@).push(cur@);
    parts.push(cur);
    assert(parts@.map_values(|v: Vec<char>| v@) =~= all);
    parts
}

/// The `i`-th `-`-separated part of the date, read as a `u32`.
pub open spec fn date_part(date: Seq<char>, i: int) -> Option<nat> {
    let parts = split_char(date, '-');
    if i < parts.len() {
        parse_unsigned(parts[i], u32::MAX as nat)
    } else {
        None
    }
}

/// A date shown as `N년 N월 N일` (with `까지` when `until`), or the text as it
/// is when its first ten bytes are not a date.
pub open spec fn projection_date_text(v: Seq<char>, until: bool) -> Seq<char> {
    let date = head_or_all(v, 10);
    if date_part(date, 0) is Some && date_part(date, 1) is Some && date_part(date, 2) is Some {
        dec(date_part(date, 0)->0) + "년 "@ + dec(date_part(date, 1)->0) + "월 "@ + dec(date_part(date, 2)->0)
            + (if until { "일까지"@ } else { "일"@ })
    } else {
        v
    }
}

fn date_part_exec(parts: &Vec<Vec<char>>, i: usize) -> (r: Option<u64>)
    ensures
        match (if i < parts@.len() { parse_unsigned(parts@[i as int]@, u32::MAX as nat) } else { None }) {
            Some(n) => r == Some(n as u64),
            None => r is None,
        },
{
    if i < parts.len() {
        parse_decimal(parts[i].as_slice(), 4294967295)
    } else {
        None
    }
}

pub fn format_projection_date_with_suffix(value: &str, include_until: bool) -> (s: String)
    ensures
        s@ == projection_date_text(value@, include_until),
{
    let v = chars_of(value);
    let date = head_or_all_exec(v.as_slice(), 10);
    let parts = split_char_exec(date.as_slice(), '-');
    let ghost views = parts@.map_values(|x: Vec<char>| x@);
    let y = date_part_exec(&parts, 0);
    let m = date_part_exec(&parts, 1);
    let d = date_part_exec(&parts, 2);
    proof {
        lemma_split_char_nonempty(date@, '-');
        assert(forall|i: int| 0 <= i < parts@.len() ==> parts@[i]@ == #[trigger] views[i]);
    }
    match (y, m, d) {
        (Some(y), Some(m), Some(d)) => {
            let mut out: Vec<char> = Vec::new();
            append_chars(&mut out, decimal(y).as_slice());
            append_str(&mut out, "년 ");
            append_chars(&mut out, decimal(m).as_slice());
            append_str(&mut out, "월 ");
            append_chars(&mut out, decimal(d).as_slice());
            if include_until {
                append_str(&mut out, "일까지");
            } else {
                append_str(&mut out, "일");
            }
            assert(out@ =~= projection_date_text(value@, include_until));
            string_of(out.as_slice())
        },
        _ => string_of(v.as_slice()),
    }
}

pub fn format_projection_date(value: &str) -> (s: String)
    ensures
        s@ == projection_date_text(value@, true),
{
    format_projection_date_with_suffix(value, true)
}

pub fn format_projection_deadline_date(value: &str) -> (s: String)
    ensures
        s@ == projection_date_text(value@, false),
{
    format_projection_date_with_suffix(value, false)
}

// ---------------------------------------------------------------------------
// Labels
// ---------------------------------------------------------------------------

/// The Korean name and the icon of a position.
pub fn popup_position_visual(position: Position) -> (r: (&'static str, &'static str))
    ensures
        position == Position::Top ==> r.0@ == "탑"@ && r.1@ == "asset/base/ui/icons/top"@,
        position == Position::Jungle ==> r.0@ == "정글"@ && r.1@ == "asset/base/ui/icons/jungle"@,
        position == Position::Mid ==> r.0@ == "미드"@ && r.1@ == "asset/base/ui/icons/mid"@,
        position == Position::Bottom ==> r.0@ == "바텀"@ && r.1@ == "asset/base/ui/icons/bottom"@,
        position == Position::Support ==> r.0@ == "서포터"@ && r.1@ == "asset/base/ui/icons/support"@,
{
    match position {
        Position::Top => ("탑", "asset/base/ui/icons/top"),
        Position::Jungle => ("정글", "asset/base/ui/icons/jungle"),
        Position::Mid => ("미드", "asset/base/ui/icons/mid"),
        Position::Bottom => ("바텀", "asset/base/ui/icons/bottom"),
        Position::Support => ("서포터", "asset/base/ui/icons/support"),
    }
}

/// A status text, without `Some(`…`)` around it, as the label shown on a
/// pending contract row.
pub open spec fn status_label_text(raw: Seq<char>) -> Seq<char> {
    let t = trim(raw);
    let n = if t.len() >= 6 && t.take(5) == "Some("@ && t.last() == ')' {
        t.subrange(5, t.len() - 1)
    } else {
        t
    };
    if n == "Prospect"@ || n == "유망주"@ {
        "유망주"@
    } else if n == "Sub"@ || n == "후보"@ || n == "후보 선수"@ {
        "후보 선수"@
    } else if n == "General"@ || n == "주전"@ || n == "주전 선수"@ {
        "주전 선수"@
    } else if n == "Important"@ || n == "주요"@ || n == "주요 선수"@ {
        "주요 선수"@
    } else if n == "Core"@ || n == "핵심"@ || n == "핵심 선수"@ {
        "핵심 선수"@
    } else if n.len() == 0 || n == "unknown"@ || n == "pending"@ {
        "-"@
    } else {
        n
    }
}

fn is_one_of(n: &[char], a: &str, b: &str, c: &str) -> (r: bool)
    ensures
        r == (n@ == a@ || n@ == b@ || n@ == c@),
{
    chars_eq(n, chars_of(a).as_slice()) || chars_eq(n, chars_of(b).as_slice()) || chars_eq(n, chars_of(c).as_slice())
}

pub fn projection_current_squad_status_label(raw: &str) -> (s: String)
    ensures
        s@ == status_label_text(raw@),
{
    let r = chars_of(raw);
    let (a, b) = trim_bounds(r.as_slice(), 0, r.len());
    assert(r@.subrange(0, r@.len() as int) =~= r@);
    let t = crate::text::copy_range(r.as_slice(), a, b);
    let some = chars_of("Some(");
    proof {
        reveal_strlit("Some(");
    }
    let mut strip = false;
    if t.len() >= 6 && t[t.len() - 1] == ')' {
        let head = crate::text::copy_range(t.as_slice(), 0, 5);
        if chars_eq(head.as_slice(), some.as_slice()) {
            strip = true;
        }
        assert(head@ =~= t@.take(5));
    }
    let n = if strip {
        crate::text::copy_range(t.as_slice(), 5, t.len() - 1)
    } else {
        t
    };
    assert(t@.last() == t@[t@.len() - 1]);
    let out = if is_one_of(n.as_slice(), "Prospect", "유망주", "유망주") {
        "유망주"
    } else if is_one_of(n.as_slice(), "Sub", "후보", "후보 선수") {
        "후보 선수"
    } else if is_one_of(n.as_slice(), "General", "주전", "주전 선수") {
        "주전 선수"
    } else if is_one_of(n.as_slice(), "Important", "주요", "주요 선수") {
        "주요 선수"
    } else if is_one_of(n.as_slice(), "Core", "핵심", "핵심 선수") {
        "핵심 선수"
    } else if n.len() == 0 || is_one_of(n.as_slice(), "unknown", "pending", "pending") {
        "-"
    } else {
        return string_of(n.as_slice());
    };
    string_of(chars_of(out).as_slice())
}

// ---------------------------------------------------------------------------
// Warnings and stage lines
// ---------------------------------------------------------------------------

/// Why the trade cannot be submitted yet, in the order checked: no player
/// chosen, a failed quote, a cooldown, or no valid cash entered.
pub open spec fn block_reason_spec(
    no_player: bool,
    quote_failed: bool,
    cooldown_retry_at: Option<Seq<char>>,
    cash_input_state: u8,
    quote_present: bool,
    proposed_present: bool,
) -> Option<Seq<char>> {
    if no_player {
        Some("선수를 선택해주세요"@)
    } else if quote_failed {
        Some("이 조합은 트레이드할 수 없습니다"@)
    } else if cooldown_retry_at is Some {
        Some("이 선수에게는 "@ + compact_time(cooldown_retry_at->0) + " 이후 다시 제안할 수 있습니다"@)
    } else if !(cash_input_state == 1 && quote_present && proposed_present) {
        Some("제시 금액을 입력해주세요"@)
    } else {
        None
    }
}

pub fn trade_block_reason(
    no_player: bool,
    quote_failed: bool,
    cooldown_retry_at: Option<&str>,
    cash_input_state: u8,
    quote_present: bool,
    proposed_present: bool,
) -> (r: Option<String>)
    requires
        cooldown_retry_at matches Some(t) ==> cut_ok(t@, 16),
    ensures
        match block_reason_spec(
            no_player,
            quote_failed,
            match cooldown_retry_at {
                Some(t) => Some(t@),
                None => None,
            },
            cash_input_state,
            quote_present,
            proposed_present,
        ) {
            Some(t) => r matches Some(s) && s@ == t,
            None => r is None,
        },
{
    if no_player {
        return Some(string_of(chars_of("선수를 선택해주세요").as_slice()));
    }
    if quote_failed {
        return Some(string_of(chars_of("이 조합은 트레이드할 수 없습니다").as_slice()));
    }
    if let Some(t) = cooldown_retry_at {
        let mut out: Vec<char> = Vec::new();
        append_str(&mut out, "이 선수에게는 ");
        let c = compact_async_time(t);
        append_str(&mut out, c.as_str());
        append_str(&mut out, " 이후 다시 제안할 수 있습니다");
        return Some(string_of(out.as_slice()));
    }
    if !(cash_input_state == 1 && quote_present && proposed_present) {
        return Some(string_of(chars_of("제시 금액을 입력해주세요").as_slice()));
    }
    None
}

/// Whether a status view shows a proposal still under review.
pub open spec fn review_pending(proposal_present: bool, state: Seq<char>) -> bool {
    proposal_present && (state == "SellerReview"@ || state == "PlayerReview"@)
}

pub fn proposal_under_review(proposal_present: bool, state: &str) -> (b: bool)
    ensures
        b == review_pending(proposal_present, state@),
{
    let s = chars_of(state);
    proposal_present && (chars_eq(s.as_slice(), chars_of("SellerReview").as_slice()) || chars_eq(
        s.as_slice(),
        chars_of("PlayerReview").as_slice(),
    ))
}

/// The stage line shown on the profile of the player a pending proposal
/// targets: the stage, when the proposal was received, and when the current
/// review answers.
pub open spec fn stage_line(state: Seq<char>, submitted_at: Seq<char>, seller_due_at: Seq<char>, player_due_at: Seq<char>) -> Seq<char> {
    let seller = state == "SellerReview"@;
    "단계: "@ + (if seller { "판매 구단 검토"@ } else { "선수 검토"@ }) + " | 제안 접수 "@ + compact_time(submitted_at)
        + " | 응답 기한 "@ + compact_time(if seller { seller_due_at } else { player_due_at })
}

pub fn profile_stage_text(state: &str, submitted_at: &str, seller_due_at: &str, player_due_at: &str) -> (s: String)
    requires
        cut_ok(submitted_at@, 16),
        cut_ok(seller_due_at@, 16),
        cut_ok(player_due_at@, 16),
    ensures
        s@ == stage_line(state@, submitted_at@, seller_due_at@, player_due_at@),
{
    let st = chars_of(state);
    let seller = chars_eq(st.as_slice(), chars_of("SellerReview").as_slice());
    let mut out: Vec<char> = Vec::new();
    append_str(&mut out, "단계: ");
    if seller {
        append_str(&mut out, "판매 구단 검토");
    } else {
        append_str(&mut out, "선수 검토");
    }
    append_str(&mut out, " | 제안 접수 ");
    append_str(&mut out, compact_async_time(submitted_at).as_str());
    append_str(&mut out, " | 응답 기한 ");
    let due = if seller { seller_due_at } else { player_due_at };
    append_str(&mut out, compact_async_time(due).as_str());
    assert(out@ =~= stage_line(state@, submitted_at@, seller_due_at@, player_due_at@));
    string_of(out.as_slice())
}

/// The line shown on a player's profile for the first active offer on them.
pub open spec fn first_offer_line(first_seen: Seq<char>, state_text: Seq<char>, deadline: Seq<char>) -> Seq<char> {
    "제안 접수 "@ + compact_time(first_seen) + " | 현재 상태 "@ + state_text + " | 응답 기한 "@ + compact_time(deadline)
}

pub fn first_offer_status_text(first_seen: &str, state_text: &str, deadline: &str) -> (s: String)
    requires
        cut_ok(first_seen@, 16),
        cut_ok(deadline@, 16),
    ensures
        s@ == first_offer_line(first_seen@, state_text@, deadline@),
{
    let mut out: Vec<char> = Vec::new();
    append_str(&mut out, "제안 접수 ");
    append_str(&mut out, compact_async_time(first_seen).as_str());
    append_str(&mut out, " | 현재 상태 ");
    append_str(&mut out, state_text);
    append_str(&mut out, " | 응답 기한 ");
    append_str(&mut out, compact_async_time(deadline).as_str());
    assert(out@ =~= first_offer_line(first_seen@, state_text@, deadline@));
    string_of(out.as_slice())
}

/// What the cash input's status line shows.
#[derive(Debug, PartialEq, Eq)]
pub struct CashStatusDisplay {
    /// The input is locked.
    pub input_disabled: bool,
    /// Which of the three status labels is visible.
    pub idle: bool,
    pub valid: bool,
    pub invalid: bool,
    /// The text written in the invalid label, when it changes.
    pub invalid_text: Option<String>,
    /// The roster panel's guide warns that no player is chosen.
    pub guide_warning: bool,
}

/// The status line for the input state (0 idle, 1 valid, 2 invalid): with
/// no player chosen, or a failed quote, the input is locked and the invalid
/// label carries the warning; the label gets its usual text back once when
/// the warning goes away (`warning_shown` remembers whether it is on).
pub open spec fn cash_status_spec(
    state: u8,
    no_player: bool,
    quote_error: Option<Seq<char>>,
    warning_shown: bool,
) -> (bool, bool, bool, bool, Option<Seq<char>>, bool, bool) {
    let warning = if no_player {
        Some("선수를 선택해주세요"@)
    } else {
        match quote_error {
            Some(d) => Some(quote_message_spec(d)),
            None => None,
        }
    };
    match warning {
        Some(w) => (no_player || quote_error is Some, false, false, true, Some(w), no_player, true),
        None => (
            no_player || quote_error is Some,
            state == 0,
            state == 1,
            state == 2,
            if warning_shown { Some("숫자만 입력할 수 있습니다."@) } else { None },
            no_player,
            false,
        ),
    }
}

pub fn cash_status_display(state: u8, no_player: bool, quote_error: Option<&str>, warning_shown: &mut bool) -> (d: CashStatusDisplay)
    ensures
        cash_status_spec(
            state,
            no_player,
            match quote_error {
                Some(q) => Some(q@),
                None => None,
            },
            *old(warning_shown),
        ) == (
            d.input_disabled,
            d.idle,
            d.valid,
            d.invalid,
            match d.invalid_text {
                Some(t) => Some(t@),
                None => None,
            },
            d.guide_warning,
            *final(warning_shown),
        ),
{
    let input_disabled = no_player || quote_error.is_some();
    let warning: Option<String> = if no_player {
        Some(string_of(chars_of("선수를 선택해주세요").as_slice()))
    } else {
        match quote_error {
            Some(d) => Some(quote_error_message_ko(d)),
            None => None,
        }
    };
    match warning {
        Some(w) => {
            *warning_shown = true;
            CashStatusDisplay {
                input_disabled,
                idle: false,
                valid: false,
                invalid: true,
                invalid_text: Some(w),
                guide_warning: no_player,
            }
        },
        None => {
            let restore = *warning_shown;
            *warning_shown = false;
            CashStatusDisplay {
                input_disabled,
                idle: state == 0,
                valid: state == 1,
                invalid: state == 2,
                invalid_text: if restore {
                    Some(string_of(chars_of("숫자만 입력할 수 있습니다.").as_slice()))
                } else {
                    None
                },
                guide_warning: no_player,
            }
        },
    }
}

// ---------------------------------------------------------------------------
// Cash input
// ---------------------------------------------------------------------------

pub open spec fn is_ascii_digit(c: char) -> bool {
    '0' <= c && c <= '9'
}

/// The units typed in the cash input: the trimmed text, when it is a nonempty
/// run of ASCII digits that fits a `u64`.
pub open spec fn typed_units(text: Seq<char>) -> Option<nat> {
    let t = trim(text);
    if t.len() > 0 && (forall|i: int| 0 <= i < t.len() ==> is_ascii_digit(#[trigger] t[i])) {
        parse_unsigned(t, u64::MAX as nat)
    } else {
        None
    }
}

pub fn parse_cash_units(text: &str) -> (r: Option<u64>)
    ensures
        match typed_units(text@) {
            Some(n) => r == Some(n as u64),
            None => r is None,
        },
{
    let c = chars_of(text);
    let (a, b) = trim_bounds(c.as_slice(), 0, c.len());
    assert(c@.subrange(0, c@.len() as int) =~= c@);
    let t = crate::text::copy_range(c.as_slice(), a, b);
    if t.len() == 0 {
        return None;
    }
    let mut i: usize = 0;
    while i < t.len()
        invariant
            i <= t@.len(),
            t@ == trim(text@),
            forall|j: int| 0 <= j < i ==> is_ascii_digit(#[trigger] t@[j]),
        decreases t@.len() - i,
    {
        if !('0' <= t[i] && t[i] <= '9') {
            assert(!is_ascii_digit(t@[i as int]));
            return None;
        }
        i = i + 1;
    }
    parse_decimal(t.as_slice(), u64::MAX)
}

/// How typed cash compares with a quote.
#[derive(Clone, Copy, Debug, PartialEq, Eq, Structural)]
pub struct CashInputVerdict {
    pub meets_required: bool,
    pub within_offer_range: bool,
    pub valid: bool,
}

/// Typed `units` against a quote's lower bound and ceiling; `within_budget`
/// is the outcome of the budget comparison, made on a floating-point budget.
/// Without both a number and a quote, or when the units overflow in won,
/// nothing holds.
pub fn cash_input_verdict(units: Option<u64>, quote: Option<(u64, u64)>, within_budget: bool) -> (v: CashInputVerdict)
    ensures
        match (units, quote) {
            (Some(u), Some((req, max))) => if u as int * 10_000 <= u64::MAX {
                &&& v.meets_required == (u >= req)
                &&& v.within_offer_range == (req <= max && u >= req && u <= max)
                &&& v.valid == (within_budget && v.within_offer_range)
            } else {
                !v.meets_required && !v.within_offer_range && !v.valid
            },
            _ => !v.meets_required && !v.within_offer_range && !v.valid,
        },
{
    match (units, quote) {
        (Some(u), Some((req, max))) => {
            match u.checked_mul(10_000) {
                Some(_) => {
                    let within_offer_range = req <= max && u >= req && u <= max;
                    CashInputVerdict {
                        meets_required: u >= req,
                        within_offer_range,
                        valid: within_budget && within_offer_range,
                    }
                },
                None => CashInputVerdict { meets_required: false, within_offer_range: false, valid: false },
            }
        },
        _ => CashInputVerdict { meets_required: false, within_offer_range: false, valid: false },
    }
}

/// The trade button on the transfer offer screen: shown when the native
/// delegate button is, pressable only when every condition holds, with the
/// reason it is not as its label and hover hint.
#[derive(Debug, PartialEq, Eq)]
pub struct TradeEntryState {
    pub visible: bool,
    pub ready: bool,
    pub label: &'static str,
    /// Empty when the button is pressable.
    pub hint: &'static str,
    /// The hint may be shown under the cursor.
    pub tip_eligible: bool,
}

/// A proposal in review blocks the button for every player, not only the
/// one it targets.
pub open spec fn entry_ready_spec(
    delegate_visible: bool,
    template_ready: bool,
    baseline_ready: bool,
    target_id: usize,
    submit_in_flight: bool,
    in_review: bool,
    season_used: bool,
) -> bool {
    delegate_visible && template_ready && baseline_ready && target_id != 0 && !submit_in_flight
        && !in_review && !season_used
}

/// The label, in the order the reasons are checked.
pub open spec fn entry_label_spec(
    template_ready: bool,
    target_id: usize,
    submit_in_flight: bool,
    in_review: bool,
    review_state: Seq<char>,
    review_target_id: usize,
    season_used: bool,
) -> Seq<char> {
    if submit_in_flight {
        "제안 접수 중"@
    } else if in_review && review_target_id == target_id {
        if review_state == "SellerReview"@ {
            "판매 구단 검토 중"@
        } else {
            "선수 검토 중"@
        }
    } else if season_used {
        "이번 영입 시즌 트레이드 완료"@
    } else if in_review {
        "트레이드 진행 중"@
    } else if !template_ready {
        "UI 준비 중"@
    } else {
        "트레이드"@
    }
}

pub fn trade_entry_state(
    delegate_visible: bool,
    template_ready: bool,
    baseline_ready: bool,
    target_id: usize,
    submit_in_flight: bool,
    proposal_present: bool,
    proposal_state: &str,
    proposal_target_id: usize,
    season_used: bool,
) -> (e: TradeEntryState)
    ensures
        e.visible == delegate_visible,
        e.ready == entry_ready_spec(
            delegate_visible,
            template_ready,
            baseline_ready,
            target_id,
            submit_in_flight,
            review_pending(proposal_present, proposal_state@),
            season_used,
        ),
        e.label@ == entry_label_spec(
            template_ready,
            target_id,
            submit_in_flight,
            review_pending(proposal_present, proposal_state@),
            proposal_state@,
            proposal_target_id,
            season_used,
        ),
        e.hint@ == (if e.ready { ""@ } else { e.label@ }),
        e.tip_eligible == (!e.ready && delegate_visible),
{
    let in_review = proposal_under_review(proposal_present, proposal_state);
    let ready = delegate_visible && template_ready && baseline_ready && target_id != 0 && !submit_in_flight
        && !in_review && !season_used;
    let label: &'static str = if submit_in_flight {
        "제안 접수 중"
    } else if in_review && proposal_target_id == target_id {
        if chars_eq(chars_of(proposal_state).as_slice(), chars_of("SellerReview").as_slice()) {
            "판매 구단 검토 중"
        } else {
            "선수 검토 중"
        }
    } else if season_used {
        "이번 영입 시즌 트레이드 완료"
    } else if in_review {
        "트레이드 진행 중"
    } else if !template_ready {
        "UI 준비 중"
    } else {
        "트레이드"
    };
    let hint: &'static str = if ready {
        ""
    } else {
        label
    };
    TradeEntryState { visible: delegate_visible, ready, label, hint, tip_eligible: !ready && delegate_visible }
}

/// While a proposal is being submitted or is in review, the trade button is
/// not pressable for any player, the proposal's own target or another; nor
/// once a trade of this recruit season went through.
pub proof fn lemma_pending_blocks_every_target(
    delegate_visible: bool,
    template_ready: bool,
    baseline_ready: bool,
    target_id: usize,
    submit_in_flight: bool,
    proposal_present: bool,
    proposal_state: Seq<char>,
    season_used: bool,
)
    requires
        submit_in_flight || review_pending(proposal_present, proposal_state) || season_used,
    ensures
        !entry_ready_spec(
            delegate_visible,
            template_ready,
            baseline_ready,
            target_id,
            submit_in_flight,
            review_pending(proposal_present, proposal_state),
            season_used,
        ),
{
}

} // verus!

//! Reading UI click events: the node path of a click (`a.b.c`, also split at
//! `/` and `\`), the ids of players carried in node names, and the route a
//! click takes through the trade screen.
use vstd::prelude::*;
use crate::text::{all_digits, chars_eq, chars_of, digits_value, parse_decimal, parse_unsigned};
use crate::trade::{contains, contains_spec, occurs_at};

verus! {

// ---------------------------------------------------------------------------
// Path segments
// ---------------------------------------------------------------------------

pub open spec fn is_path_sep(c: char) -> bool {
    c == '.' || c == '/' || c == '\\'
}

/// The segments of a path between separators (at least one, maybe empty).
pub open spec fn path_segments(s: Seq<char>) -> Seq<Seq<char>>
    decreases s.len(),
{
    if s.len() == 0 {
        seq![Seq::empty()]
    } else {
        let p = path_segments(s.drop_last());
        if is_path_sep(s.last()) {
            p.push(Seq::empty())
        } else {
            p.update(p.len() - 1, p.last().push(s.last()))
        }
    }
}

proof fn lemma_path_segments_nonempty(s: Seq<char>)
    ensures
        path_segments(s).len() >= 1,
    decreases s.len(),
{
    if s.len() > 0 {
        lemma_path_segments_nonempty(s.drop_last());
    }
}

/// The segments of a path.
pub fn segments_of(path: &[char]) -> (segs: Vec<Vec<char>>)
    ensures
        segs@.map_values(|v: Vec<char>| v@) == path_segments(path@),
{
    let mut segs: Vec<Vec<char>> = Vec::new();
    let mut cur: Vec<char> = Vec::new();
    let mut i: usize = 0;
    assert(path@.take(0) =~= Seq::<char>::empty());
    while i < path.len()
        invariant
            i <= path@.len(),
            segs@.map_values(|v: Vec<char>| v@).push(cur@) == path_segments(path@.take(i as int)),
        decreases path@.len() - i,
    {
        let c = path[i];
        let ghost before = path_segments(path@.take(i as int));
        assert(path@.take(i + 1).drop_last() =~= path@.take(i as int));
        assert(path@.take(i + 1).last() == c);
        if c == '.' || c == '/' || c == '\\' {
            let done = cur;
            segs.push(done);
            cur = Vec::new();
            assert(segs@.map_values(|v: Vec<char>| v@).push(cur@) =~= before.push(Seq::<char>::empty()));
        } else {
            let ghost old_cur = cur@;
            cur.push(c);
            assert(segs@.map_values(|v: Vec<char>| v@).push(cur@) =~= before.update(
                before.len() - 1,
                before.last().push(c),
            ));
        }
        i = i + 1;
    }
    assert(path@.take(i as int) =~= path@);
    let ghost all = segs@.map_values(|v: Vec<char>| v@).push(cur@);
    segs.push(cur);
    assert(segs@.map_values(|v: Vec<char>| v@) =~= all);
    segs
}

/// Whether some segment of `path` is exactly `id`.
pub fn path_has_exact_node_id(path: &str, id: &str) -> (r: bool)
    ensures
        r == path_segments(path@).contains(id@),
{
    let p = chars_of(path);
    let want = chars_of(id);
    let segs = segments_of(p.as_slice());
    let ghost views = segs@.map_values(|v: Vec<char>| v@);
    let mut k: usize = 0;
    while k < segs.len()
        invariant
            k <= segs@.len(),
            views == segs@.map_values(|v: Vec<char>| v@),
            views == path_segments(path@),
            want@ == id@,
            forall|j: int| 0 <= j < k ==> views[j] != id@,
        decreases segs@.len() - k,
    {
        if chars_eq(segs[k].as_slice(), want.as_slice()) {
            assert(views[k as int] == id@);
            return true;
        }
        k = k + 1;
    }
    proof {
        if views.contains(id@) {
            let j = choose|j: int| 0 <= j < views.len() && views[j] == id@;
            assert(views[j] != id@);
        }
    }
    false
}

// ---------------------------------------------------------------------------
// Text predicates
// ---------------------------------------------------------------------------

/// `str::ends_with`.
pub open spec fn ends_with(s: Seq<char>, t: Seq<char>) -> bool {
    t.len() <= s.len() && s.skip(s.len() - t.len()) == t
}

/// `str::starts_with`.
pub open spec fn starts_with(s: Seq<char>, t: Seq<char>) -> bool {
    t.len() <= s.len() && s.take(t.len() as int) == t
}

fn ends_with_exec(s: &[char], t: &[char]) -> (r: bool)
    ensures
        r == ends_with(s@, t@),
{
    if t.len() > s.len() {
        return false;
    }
    let n = s.len();
    let off = s.len() - t.len();
    let mut i: usize = 0;
    while i < t.len()
        invariant
            n == s@.len(),
            off == s@.len() - t@.len(),
            i <= t@.len(),
            forall|j: int| 0 <= j < i ==> s@[off + j] == t@[j],
        decreases t@.len() - i,
    {
        assert(off + i < n);
        if s[off + i] != t[i] {
            assert(s@.skip(off as int)[i as int] != t@[i as int]);
            return false;
        }
        i = i + 1;
    }
    assert(s@.skip(off as int) =~= t@);
    true
}

pub(crate) fn starts_with_exec(s: &[char], t: &[char]) -> (r: bool)
    ensures
        r == starts_with(s@, t@),
{
    if t.len() > s.len() {
        return false;
    }
    let mut i: usize = 0;
    while i < t.len()
        invariant
            t@.len() <= s@.len(),
            i <= t@.len(),
            forall|j: int| 0 <= j < i ==> s@[j] == t@[j],
        decreases t@.len() - i,
    {
        if s[i] != t[i] {
            assert(s@.take(t@.len() as int)[i as int] != t@[i as int]);
            return false;
        }
        i = i + 1;
    }
    assert(s@.take(t@.len() as int) =~= t@);
    true
}

fn str_is(a: &str, b: &str) -> (r: bool)
    ensures
        r == (a@ == b@),
{
    let x = chars_of(a);
    let y = chars_of(b);
    chars_eq(x.as_slice(), y.as_slice())
}

fn str_contains(a: &str, b: &str) -> (r: bool)
    ensures
        r == contains_spec(a@, b@),
{
    let x = chars_of(a);
    let y = chars_of(b);
    contains(x.as_slice(), y.as_slice())
}

fn str_ends_with(a: &str, b: &str) -> (r: bool)
    ensures
        r == ends_with(a@, b@),
{
    let x = chars_of(a);
    let y = chars_of(b);
    ends_with_exec(x.as_slice(), y.as_slice())
}

/// Some id of `ids` occurs in the path or is the item.
pub open spec fn matches_any(path: Seq<char>, item: Seq<char>, ids: Seq<&str>) -> bool {
    exists|i: int| 0 <= i < ids.len() && (contains_spec(path, ids[i]@) || item == ids[i]@)
}

/// Whether the click's path contains one of `ids`, or its item is one of them.
pub fn event_matches_any(path: &str, item: &str, ids: &[&str]) -> (r: bool)
    ensures
        r == matches_any(path@, item@, ids@),
{
    let mut i: usize = 0;
    while i < ids.len()
        invariant
            i <= ids@.len(),
            forall|j: int| 0 <= j < i ==> !(contains_spec(path@, ids@[j]@) || item@ == ids@[j]@),
        decreases ids@.len() - i,
    {
        if str_contains(path, ids[i]) || str_is(item, ids[i]) {
            return true;
        }
        i = i + 1;
    }
    false
}

/// The id of the trade entry button.
pub open spec fn entry_id() -> Seq<char> {
    "pts_trade_entry"@
}

/// A click on the trade entry button, however the game reports it.
pub open spec fn entry_click(path: Seq<char>, item: Seq<char>) -> bool {
    item == entry_id() || path == entry_id() || path_segments(path).contains(entry_id())
        || contains_spec(path, entry_id()) || contains_spec(item, entry_id())
}

pub fn trade_entry_event(path: &str, item: &str) -> (r: bool)
    ensures
        r == entry_click(path@, item@),
{
    str_is(item, "pts_trade_entry") || str_is(path, "pts_trade_entry") || path_has_exact_node_id(path, "pts_trade_entry")
        || str_contains(path, "pts_trade_entry") || str_contains(item, "pts_trade_entry")
}

/// A click that submits an offer or delegates a scout in the game's own
/// negotiation screen.
pub open spec fn native_offer_submission(path: Seq<char>, item: Seq<char>) -> bool {
    ends_with(path, ".offer.data.row2.offer"@) || ends_with(path, ".offer.data.row2.delegate"@) || ends_with(
        path,
        ".data.row2.offer"@,
    ) || ends_with(path, ".data.row2.delegate"@) || ((item == "offer"@ || item == "delegate"@) && contains_spec(
        path,
        "offer.data.row2"@,
    ))
}

pub fn native_offer_submission_event(path: &str, item: &str) -> (r: bool)
    ensures
        r == native_offer_submission(path@, item@),
{
    str_ends_with(path, ".offer.data.row2.offer") || str_ends_with(path, ".offer.data.row2.delegate") || str_ends_with(
        path,
        ".data.row2.offer",
    ) || str_ends_with(path, ".data.row2.delegate") || ((str_is(item, "offer") || str_is(item, "delegate"))
        && str_contains(path, "offer.data.row2"))
}

/// A click on the contract button of a player's profile.
pub open spec fn profile_contract_click(path: Seq<char>, item: Seq<char>) -> bool {
    (contains_spec(path, "player_detail"@) && ends_with(path, ".data.row4.contract"@)) || (contains_spec(
        path,
        "player_detail"@,
    ) && item == "contract"@)
}

pub fn profile_native_contract_event(path: &str, item: &str) -> (r: bool)
    ensures
        r == profile_contract_click(path@, item@),
{
    (str_contains(path, "player_detail") && str_ends_with(path, ".data.row4.contract")) || (str_contains(
        path,
        "player_detail",
    ) && str_is(item, "contract"))
}

/// ASCII letters in lower case, other characters unchanged.
pub open spec fn ascii_lower(s: Seq<char>) -> Seq<char> {
    s.map_values(|c: char| if 'A' <= c && c <= 'Z' { ((c as u32) + 32) as char } else { c })
}

pub(crate) fn lower_exec(s: &[char]) -> (v: Vec<char>)
    ensures
        v@ == ascii_lower(s@),
{
    let mut v: Vec<char> = Vec::new();
    let mut i: usize = 0;
    while i < s.len()
        invariant
            i <= s@.len(),
            v@ == ascii_lower(s@.take(i as int)),
        decreases s@.len() - i,
    {
        let c = s[i];
        let d = match c {
            'A' => 'a',
            'B' => 'b',
            'C' => 'c',
            'D' => 'd',
            'E' => 'e',
            'F' => 'f',
            'G' => 'g',
            'H' => 'h',
            'I' => 'i',
            'J' => 'j',
            'K' => 'k',
            'L' => 'l',
            'M' => 'm',
            'N' => 'n',
            'O' => 'o',
            'P' => 'p',
            'Q' => 'q',
            'R' => 'r',
            'S' => 's',
            'T' => 't',
            'U' => 'u',
            'V' => 'v',
            'W' => 'w',
            'X' => 'x',
            'Y' => 'y',
            'Z' => 'z',
            _ => c,
        };
        v.push(d);
        assert(v@ =~= ascii_lower(s@.take(i + 1)));
        i = i + 1;
    }
    assert(s@.take(i as int) =~= s@);
    v
}

/// A click on the previous/next arrows of a player profile, whose path names
/// no player.
pub open spec fn profile_arrow_click(path: Seq<char>, item: Seq<char>) -> bool {
    let lower = ascii_lower(path);
    contains_spec(lower, "player_detail"@) && contains_spec(lower, "navigation"@) && exists|s: Seq<char>|
        #![trigger (seq![item] + path_segments(path)).contains(s)]
        (seq![item] + path_segments(path)).contains(s) && (ascii_lower(s) == "previous"@ || ascii_lower(s) == "prev"@
            || ascii_lower(s) == "next"@)
}

pub fn profile_navigation_without_exact_id(path: &str, item: &str) -> (r: bool)
    ensures
        r == profile_arrow_click(path@, item@),
{
    let p = chars_of(path);
    let lower = lower_exec(p.as_slice());
    if !contains(lower.as_slice(), chars_of("player_detail").as_slice()) || !contains(
        lower.as_slice(),
        chars_of("navigation").as_slice(),
    ) {
        return false;
    }
    let mut all: Vec<Vec<char>> = Vec::new();
    all.push(chars_of(item));
    let mut segs = segments_of(p.as_slice());
    all.append(&mut segs);
    let ghost views = all@.map_values(|v: Vec<char>| v@);
    assert(views =~= seq![item@] + path_segments(path@));
    let previous = chars_of("previous");
    let prev = chars_of("prev");
    let next = chars_of("next");
    let mut k: usize = 0;
    while k < all.len()
        invariant
            k <= all@.len(),
            views == all@.map_values(|v: Vec<char>| v@),
            previous@ == "previous"@ && prev@ == "prev"@ && next@ == "next"@,
            views == seq![item@] + path_segments(path@),
            contains_spec(ascii_lower(path@), "player_detail"@),
            contains_spec(ascii_lower(path@), "navigation"@),
            forall|j: int| 0 <= j < k ==> !(ascii_lower(views[j]) == "previous"@ || ascii_lower(views[j]) == "prev"@
                || ascii_lower(views[j]) == "next"@),
        decreases all@.len() - k,
    {
        let l = lower_exec(all[k].as_slice());
        if chars_eq(l.as_slice(), previous.as_slice()) || chars_eq(l.as_slice(), prev.as_slice()) || chars_eq(
            l.as_slice(),
            next.as_slice(),
        ) {
            assert(views[k as int] == all@[k as int]@);
            assert(views.contains(views[k as int]));
            assert((seq![item@] + path_segments(path@)).contains(views[k as int]));
            return true;
        }
        k = k + 1;
    }
    proof {
        if exists|s: Seq<char>|
            #![trigger views.contains(s)]
            views.contains(s) && (ascii_lower(s) == "previous"@ || ascii_lower(s) == "prev"@ || ascii_lower(s)
                == "next"@) {
            let s = choose|s: Seq<char>|
                #![trigger views.contains(s)]
                views.contains(s) && (ascii_lower(s) == "previous"@ || ascii_lower(s) == "prev"@ || ascii_lower(s)
                    == "next"@);
            let j = choose|j: int| 0 <= j < views.len() && views[j] == s;
            assert(!(ascii_lower(views[j]) == "previous"@ || ascii_lower(views[j]) == "prev"@ || ascii_lower(views[j])
                == "next"@));
        }
    }
    false
}

// ---------------------------------------------------------------------------
// Numbers carried in node names
// ---------------------------------------------------------------------------

pub open spec fn is_ascii_digit(c: char) -> bool {
    '0' <= c && c <= '9'
}

/// The digits at the start of `s`.
pub open spec fn digit_run(s: Seq<char>) -> Seq<char>
    decreases s.len(),
{
    if s.len() > 0 && is_ascii_digit(s[0]) {
        seq![s[0]] + digit_run(s.drop_first())
    } else {
        Seq::empty()
    }
}

proof fn lemma_digit_run_digits(s: Seq<char>)
    ensures
        all_digits(digit_run(s)),
        digit_run(s).len() <= s.len(),
        digit_run(s) == s.take(digit_run(s).len() as int),
    decreases s.len(),
{
    if s.len() > 0 && is_ascii_digit(s[0]) {
        lemma_digit_run_digits(s.drop_first());
        let r = digit_run(s.drop_first());
        assert(seq![s[0]] + r =~= s.take(r.len() as int + 1)) by {
            assert(r =~= s.drop_first().take(r.len() as int));
        }
        assert forall|i: int| 0 <= i < r.len() + 1 implies crate::text::is_digit(#[trigger] (seq![s[0]] + r)[i]) by {
            if i > 0 {
                assert((seq![s[0]] + r)[i] == r[i - 1]);
            }
        }
    } else {
        assert(s.take(0) =~= Seq::<char>::empty());
    }
}

/// The digits at the start of `s[from..]`, as an end index.
fn digit_run_end(s: &[char], from: usize) -> (end: usize)
    requires
        from <= s@.len(),
    ensures
        from <= end <= s@.len(),
        s@.subrange(from as int, end as int) == digit_run(s@.skip(from as int)),
{
    let mut i: usize = from;
    assert(s@.subrange(from as int, from as int) + digit_run(s@.skip(from as int)) =~= digit_run(s@.skip(from as int)));
    while i < s.len() && '0' <= s[i] && s[i] <= '9'
        invariant
            from <= i <= s@.len(),
            s@.subrange(from as int, i as int) + digit_run(s@.skip(i as int)) == digit_run(s@.skip(from as int)),
        decreases s@.len() - i,
    {
        assert(s@.skip(i as int).drop_first() =~= s@.skip(i + 1));
        assert(s@.subrange(from as int, i + 1) =~= s@.subrange(from as int, i as int) + seq![s@[i as int]]);
        i = i + 1;
    }
    assert(digit_run(s@.skip(i as int)) =~= Seq::<char>::empty());
    assert(s@.subrange(from as int, i as int) + Seq::<char>::empty() =~= s@.subrange(from as int, i as int));
    i
}

/// The first position at or after `i` where `pat` occurs in `s`.
pub open spec fn find_from(s: Seq<char>, pat: Seq<char>, i: int) -> Option<int>
    decreases s.len() + 1 - i,
{
    if i < 0 || i + pat.len() > s.len() {
        None
    } else if occurs_at(s, pat, i) {
        Some(i)
    } else {
        find_from(s, pat, i + 1)
    }
}

fn occurs_here(s: &[char], pat: &[char], i: usize) -> (r: bool)
    requires
        i + pat@.len() <= s@.len(),
    ensures
        r == occurs_at(s@, pat@, i as int),
{
    let n = s.len();
    let mut j: usize = 0;
    while j < pat.len()
        invariant
            n == s@.len(),
            i + pat@.len() <= s@.len(),
            j <= pat@.len(),
            forall|k: int| 0 <= k < j ==> s@[i + k] == pat@[k],
        decreases pat@.len() - j,
    {
        assert(i + j < s@.len());
        if s[i + j] != pat[j] {
            assert(s@.subrange(i as int, i + pat@.len())[j as int] != pat@[j as int]);
            return false;
        }
        j = j + 1;
    }
    assert(s@.subrange(i as int, i + pat@.len()) =~= pat@);
    true
}

/// `str::find`: the first occurrence of `pat` in `s`.
pub fn find(s: &[char], pat: &[char]) -> (r: Option<usize>)
    ensures
        match find_from(s@, pat@, 0) {
            Some(k) => r matches Some(j) && j as int == k,
            None => r is None,
        },
{
    if pat.len() > s.len() {
        return None;
    }
    let last = s.len() - pat.len();
    let mut i: usize = 0;
    while i < last
        invariant
            last == s@.len() - pat@.len(),
            i <= last,
            find_from(s@, pat@, 0) == find_from(s@, pat@, i as int),
        decreases last - i,
    {
        if occurs_here(s, pat, i) {
            return Some(i);
        }
        i = i + 1;
    }
    if occurs_here(s, pat, last) {
        return Some(last);
    }
    assert(find_from(s@, pat@, last + 1) is None);
    None
}

/// The number that follows the first occurrence of `prefix` in `s`: its
/// leading digits, if any, read as a `usize`.
pub open spec fn number_after(s: Seq<char>, prefix: Seq<char>) -> Option<nat> {
    match find_from(s, prefix, 0) {
        None => None,
        Some(k) => {
            let run = digit_run(s.skip(k + prefix.len()));
            if run.len() == 0 {
                None
            } else {
                parse_unsigned(run, usize::MAX as nat)
            }
        },
    }
}

fn number_after_exec(s: &[char], prefix: &[char]) -> (r: Option<usize>)
    ensures
        match number_after(s@, prefix@) {
            Some(v) => r == Some(v as usize),
            None => r is None,
        },
{
    let n = s.len();
    let k = match find(s, prefix) {
        None => return None,
        Some(k) => k,
    };
    proof {
        lemma_find_from_occurs(s@, prefix@, 0);
        let kk = find_from(s@, prefix@, 0)->0;
        assert(occurs_at(s@, prefix@, kk));
        assert(kk <= s@.len());
        assert(kk == k as int);
        assert(k + prefix@.len() <= n);
    }
    let start = k + prefix.len();
    let end = digit_run_end(s, start);
    if end == start {
        return None;
    }
    proof {
        lemma_digit_run_digits(s@.skip(start as int));
    }
    let run: Vec<char> = crate::text::copy_range(s, start, end);
    match parse_decimal(run.as_slice(), usize::MAX as u64) {
        None => None,
        Some(v) => Some(v as usize),
    }
}

proof fn lemma_find_from_occurs(s: Seq<char>, pat: Seq<char>, i: int)
    ensures
        find_from(s, pat, i) matches Some(k) ==> occurs_at(s, pat, k) && k >= i,
    decreases s.len() + 1 - i,
{
    if !(i < 0 || i + pat.len() > s.len()) && !occurs_at(s, pat, i) {
        lemma_find_from_occurs(s, pat, i + 1);
    }
}

/// The index of a roster slot named in a text: the number after
/// `pts_trade_custom_slot_`, below the 24 slots.
pub open spec fn slot_index_in(s: Seq<char>) -> Option<nat> {
    match number_after(s, "pts_trade_custom_slot_"@) {
        Some(v) => if v < 24 { Some(v) } else { None },
        None => None,
    }
}

/// The roster slot a click names: from the item first, else from the path.
pub fn custom_slot_index_from_click(path: &str, item: &str) -> (r: Option<usize>)
    ensures
        match slot_index_in(item@) {
            Some(v) => r == Some(v as usize),
            None => match slot_index_in(path@) {
                Some(v) => r == Some(v as usize),
                None => r is None,
            },
        },
{
    let prefix = chars_of("pts_trade_custom_slot_");
    let i = chars_of(item);
    match number_after_exec(i.as_slice(), prefix.as_slice()) {
        Some(v) => {
            if v < 24 {
                return Some(v);
            }
        },
        None => {},
    }
    let p = chars_of(path);
    match number_after_exec(p.as_slice(), prefix.as_slice()) {
        Some(v) => {
            if v < 24 {
                return Some(v);
            }
        },
        None => {},
    }
    None
}

/// The player id in a `view_detail_<id>` text.
pub fn parse_view_detail_id_from_text(value: &str) -> (r: Option<usize>)
    ensures
        match number_after(value@, "view_detail_"@) {
            Some(v) => r == Some(v as usize),
            None => r is None,
        },
{
    let v = chars_of(value);
    let prefix = chars_of("view_detail_");
    number_after_exec(v.as_slice(), prefix.as_slice())
}

/// The player id in a node name that starts with `prefix`: the leading digits
/// after it, followed by nothing or `_`; zero is not taken.
pub open spec fn id_after_prefix(seg: Seq<char>, prefix: Seq<char>) -> Option<nat> {
    if !starts_with(seg, prefix) {
        None
    } else {
        let raw = seg.skip(prefix.len() as int);
        let run = digit_run(raw);
        let rest = raw.skip(run.len() as int);
        if run.len() == 0 || !(rest.len() == 0 || rest[0] == '_') {
            None
        } else {
            match parse_unsigned(run, usize::MAX as nat) {
                Some(v) => if v != 0 { Some(v) } else { None },
                None => None,
            }
        }
    }
}

/// The node-name prefixes that carry a player id, in the order tried.
pub open spec fn identity_prefixes() -> Seq<Seq<char>> {
    seq!["view_detail_"@, "candidate_"@, "transfer_"@, "recruit_"@, "resign_"@]
}

/// The first id that one of the prefixes gives for a segment.
pub open spec fn id_in_segment(seg: Seq<char>) -> Option<nat> {
    let p = identity_prefixes();
    if id_after_prefix(seg, p[0]) is Some {
        id_after_prefix(seg, p[0])
    } else if id_after_prefix(seg, p[1]) is Some {
        id_after_prefix(seg, p[1])
    } else if id_after_prefix(seg, p[2]) is Some {
        id_after_prefix(seg, p[2])
    } else if id_after_prefix(seg, p[3]) is Some {
        id_after_prefix(seg, p[3])
    } else {
        id_after_prefix(seg, p[4])
    }
}

/// The first id found in a list of segments.
pub open spec fn first_segment_id(segs: Seq<Seq<char>>) -> Option<nat>
    decreases segs.len(),
{
    if segs.len() == 0 {
        None
    } else if id_in_segment(segs[0]) is Some {
        id_in_segment(segs[0])
    } else {
        first_segment_id(segs.drop_first())
    }
}

fn id_after_prefix_exec(seg: &[char], prefix: &[char]) -> (r: Option<usize>)
    ensures
        match id_after_prefix(seg@, prefix@) {
            Some(v) => r == Some(v as usize),
            None => r is None,
        },
{
    if !starts_with_exec(seg, prefix) {
        return None;
    }
    let start = prefix.len();
    let end = digit_run_end(seg, start);
    let ghost raw = seg@.skip(start as int);
    let ghost run = digit_run(raw);
    assert(run =~= seg@.subrange(start as int, end as int));
    assert(raw.skip(run.len() as int) =~= seg@.skip(end as int));
    if end == start {
        return None;
    }
    if !(end == seg.len() || seg[end] == '_') {
        return None;
    }
    proof {
        lemma_digit_run_digits(raw);
    }
    let digits = crate::text::copy_range(seg, start, end);
    match parse_decimal(digits.as_slice(), usize::MAX as u64) {
        None => None,
        Some(v) => if v != 0 {
            Some(v as usize)
        } else {
            None
        },
    }
}

/// The player id that a click carries in its item or in a segment of its
/// path (checked in that order), if any.
pub fn exact_view_detail_athlete_id_from_event(path: &str, item: &str) -> (r: Option<usize>)
    ensures
        match first_segment_id(seq![item@] + path_segments(path@)) {
            Some(v) => r == Some(v as usize),
            None => r is None,
        },
{
    let p = chars_of(path);
    let mut all: Vec<Vec<char>> = Vec::new();
    all.push(chars_of(item));
    let mut segs = segments_of(p.as_slice());
    all.append(&mut segs);
    let ghost views = all@.map_values(|v: Vec<char>| v@);
    assert(views =~= seq![item@] + path_segments(path@));
    let prefixes = [chars_of("view_detail_"), chars_of("candidate_"), chars_of("transfer_"), chars_of("recruit_"), chars_of("resign_")];
    assert(prefixes@.map_values(|v: Vec<char>| v@) =~= identity_prefixes());
    let mut k: usize = 0;
    assert(views.skip(0) =~= views);
    while k < all.len()
        invariant
            k <= all@.len(),
            views == all@.map_values(|v: Vec<char>| v@),
            views == seq![item@] + path_segments(path@),
            prefixes@.map_values(|v: Vec<char>| v@) == identity_prefixes(),
            first_segment_id(views) == first_segment_id(views.skip(k as int)),
        decreases all@.len() - k,
    {
        let seg = all[k].as_slice();
        let mut j: usize = 0;
        let mut found: Option<usize> = None;
        while j < 5
            invariant
                j <= 5,
                prefixes@.map_values(|v: Vec<char>| v@) == identity_prefixes(),
                seg@ == views[k as int],
                k < views.len(),
                views == seq![item@] + path_segments(path@),
                first_segment_id(views) == first_segment_id(views.skip(k as int)),
                found is None,
                forall|q: int| 0 <= q < j ==> id_after_prefix(seg@, #[trigger] identity_prefixes()[q]) is None,
            decreases 5 - j,
        {
            let r = id_after_prefix_exec(seg, prefixes[j].as_slice());
            if let Some(v) = r {
                proof {
                    assert(identity_prefixes()[j as int] == prefixes@[j as int]@);
                    assert(id_in_segment(seg@) == id_after_prefix(seg@, identity_prefixes()[j as int])) by {
                        assert(forall|q: int| 0 <= q < j ==> id_after_prefix(seg@, #[trigger] identity_prefixes()[q]) is None);
                        if j >= 1 { assert(id_after_prefix(seg@, identity_prefixes()[0]) is None); }
                        if j >= 2 { assert(id_after_prefix(seg@, identity_prefixes()[1]) is None); }
                        if j >= 3 { assert(id_after_prefix(seg@, identity_prefixes()[2]) is None); }
                        if j >= 4 { assert(id_after_prefix(seg@, identity_prefixes()[3]) is None); }
                    }
                    let sk = views.skip(k as int);
                    assert(sk.len() > 0);
                    assert(sk[0] == views[k as int]);
                    assert(id_in_segment(sk[0]) is Some);
                    assert(first_segment_id(sk) == id_in_segment(sk[0]));
                }
                return Some(v);
            }
            proof {
                assert(identity_prefixes()[j as int] == prefixes@[j as int]@);
            }
            j = j + 1;
        }
        proof {
            assert(id_after_prefix(seg@, identity_prefixes()[0]) is None);
            assert(id_after_prefix(seg@, identity_prefixes()[1]) is None);
            assert(id_after_prefix(seg@, identity_prefixes()[2]) is None);
            assert(id_after_prefix(seg@, identity_prefixes()[3]) is None);
            assert(id_after_prefix(seg@, identity_prefixes()[4]) is None);
            assert(views.skip(k as int)[0] == views[k as int]);
            assert(views.skip(k as int).drop_first() =~= views.skip(k + 1));
        }
        k = k + 1;
    }
    assert(views.skip(k as int) =~= Seq::<Seq<char>>::empty());
    None
}

/// The player that a click on the pending-contract row opens: the id the
/// click carries, else, for a click on the row's name, the target of the
/// active proposal.
pub open spec fn projection_click_target(path: Seq<char>, item: Seq<char>, active_target: Option<usize>) -> Option<nat> {
    let row = "pts_trade_pending_contract_slot_test79_active"@;
    if !(contains_spec(path, row) || contains_spec(item, row)) {
        None
    } else if first_segment_id(seq![item] + path_segments(path)) is Some {
        first_segment_id(seq![item] + path_segments(path))
    } else if !(item == "name"@ || path_segments(path).contains("name"@) || ends_with(path, ".name"@)
        || contains_spec(path, ".name."@)) {
        None
    } else {
        match active_target {
            Some(t) => Some(t as nat),
            None => None,
        }
    }
}

pub fn projection_profile_click_athlete_id(path: &str, item: &str, active_target: Option<usize>) -> (r: Option<usize>)
    ensures
        match projection_click_target(path@, item@, active_target) {
            Some(v) => r == Some(v as usize),
            None => r is None,
        },
{
    let row = "pts_trade_pending_contract_slot_test79_active";
    if !(str_contains(path, row) || str_contains(item, row)) {
        return None;
    }
    if let Some(id) = exact_view_detail_athlete_id_from_event(path, item) {
        return Some(id);
    }
    let name_click = str_is(item, "name") || path_has_exact_node_id(path, "name") || str_ends_with(path, ".name")
        || str_contains(path, ".name.");
    if !name_click {
        return None;
    }
    active_target
}


/// The id of roster slot `index` of the trade window: the prefix and the
/// index in at least two digits.
pub fn custom_slot_id(index: usize) -> (s: String)
    ensures
        s@ == "pts_trade_custom_slot_"@ + crate::text::dec_padded(index as nat, 2),
{
    let d = crate::text::decimal(index as u64);
    proof {
        crate::money::lemma_dec_nonempty(index as nat);
    }
    let mut out: Vec<char> = Vec::new();
    crate::text::append_str(&mut out, "pts_trade_custom_slot_");
    if d.len() < 2 {
        out.push('0');
        assert(Seq::new((2 - d@.len()) as nat, |i: int| '0') =~= seq!['0']);
    }
    crate::text::append_chars(&mut out, d.as_slice());
    assert(out@ =~= "pts_trade_custom_slot_"@ + crate::text::dec_padded(index as nat, 2));
    crate::text::string_of(out.as_slice())
}

/// The ids of the target value, the marker and the offered value of a
/// compared statistic.
pub fn custom_stat_ids(stat_id: &str) -> (r: (String, String, String))
    ensures
        r.0@ == "pts_trade_custom_stat_"@ + stat_id@ + "_target"@,
        r.1@ == "pts_trade_custom_stat_"@ + stat_id@ + "_marker"@,
        r.2@ == "pts_trade_custom_stat_"@ + stat_id@ + "_offered"@,
{
    let mut a: Vec<char> = Vec::new();
    crate::text::append_str(&mut a, "pts_trade_custom_stat_");
    crate::text::append_str(&mut a, stat_id);
    let mut b = a.clone();
    let mut c = a.clone();
    crate::text::append_str(&mut a, "_target");
    crate::text::append_str(&mut b, "_marker");
    crate::text::append_str(&mut c, "_offered");
    (crate::text::string_of(a.as_slice()), crate::text::string_of(b.as_slice()), crate::text::string_of(c.as_slice()))
}


/// The nodes of the status menu that open or close it.
pub open spec fn toggle_ids() -> Seq<&'static str> {
    seq!["pts_trade_runtime_status_toggle", "pts_trade_status_toggle", "pts_trade_runtime_status_value_core", "pts_trade_runtime_status_value_important", "pts_trade_runtime_status_value_general", "pts_trade_runtime_status_value_sub", "pts_trade_runtime_status_value_prospect", "pts_trade_status_value_core", "pts_trade_status_value_important", "pts_trade_status_value_general", "pts_trade_status_value_sub", "pts_trade_status_value_prospect", "pts_trade_status_arrow"]
}

/// The nodes of the status menu that choose core.
pub open spec fn core_ids() -> Seq<&'static str> {
    seq!["pts_trade_runtime_status_option_core", "pts_trade_status_option_core", "pts_trade_runtime_status_check_core", "pts_trade_status_check_core"]
}

/// The nodes of the status menu that choose important.
pub open spec fn important_ids() -> Seq<&'static str> {
    seq!["pts_trade_runtime_status_option_important", "pts_trade_status_option_important", "pts_trade_runtime_status_check_important", "pts_trade_status_check_important"]
}

/// The nodes of the status menu that choose general.
pub open spec fn general_ids() -> Seq<&'static str> {
    seq!["pts_trade_runtime_status_option_general", "pts_trade_status_option_general", "pts_trade_runtime_status_check_general", "pts_trade_status_check_general"]
}

/// The nodes of the status menu that choose sub.
pub open spec fn sub_ids() -> Seq<&'static str> {
    seq!["pts_trade_runtime_status_option_sub", "pts_trade_status_option_sub", "pts_trade_runtime_status_check_sub", "pts_trade_status_check_sub"]
}

/// The nodes of the status menu that choose prospect.
pub open spec fn prospect_ids() -> Seq<&'static str> {
    seq!["pts_trade_runtime_status_option_prospect", "pts_trade_status_option_prospect", "pts_trade_runtime_status_check_prospect", "pts_trade_status_check_prospect"]
}

/// The state of the trade screen that decides where a click goes.
#[derive(Clone, Copy, Debug, PartialEq, Eq, Structural)]
pub struct ClickFlags {
    pub popup_open: bool,
    pub transaction_executed: bool,
    pub duplicate_replay_verified: bool,
    pub rollback_completed: bool,
    pub trade_entry_active: bool,
}

/// Where a click goes.
#[derive(Clone, Copy, Debug, PartialEq, Eq, Structural)]
pub enum ClickRoute {
    /// A status-menu action (toggle, or one of the five statuses).
    Status(u8),
    /// The review (submit) button of the open trade window.
    Review,
    /// The commit button, with the action it takes now.
    Commit(u8),
    /// The cash input: left to the game.
    CashInput,
    /// The trade entry button.
    TradeEntry,
    /// Closes the trade window.
    Close,
    /// Swallowed while the trade window is open.
    Block,
    /// Not the trade screen's.
    Pass,
}

/// The action the commit button takes: close once the trade ran and its
/// replay was checked or once a rollback completed, block while an executed
/// trade awaits its check, else execute.
pub open spec fn commit_action(f: ClickFlags) -> u8 {
    if f.transaction_executed && f.duplicate_replay_verified {
        2
    } else if f.rollback_completed {
        2
    } else if f.transaction_executed {
        3
    } else {
        11
    }
}

pub open spec fn route_spec(path: Seq<char>, item: Seq<char>, f: ClickFlags) -> ClickRoute {
    if matches_any(path, item, toggle_ids()) {
        ClickRoute::Status(4)
    } else if matches_any(path, item, core_ids()) {
        ClickRoute::Status(5)
    } else if matches_any(path, item, important_ids()) {
        ClickRoute::Status(6)
    } else if matches_any(path, item, general_ids()) {
        ClickRoute::Status(7)
    } else if matches_any(path, item, sub_ids()) {
        ClickRoute::Status(8)
    } else if matches_any(path, item, prospect_ids()) {
        ClickRoute::Status(9)
    } else if f.popup_open && (contains_spec(path, "pts_cash_submit"@) || item == "pts_cash_submit"@) {
        ClickRoute::Review
    } else if f.popup_open && (contains_spec(path, "pts_trade_commit_confirm"@) || item == "pts_trade_commit_confirm"@) {
        ClickRoute::Commit(commit_action(f))
    } else if contains_spec(path, "pts_cash_input"@) || item == "pts_cash_input"@ {
        ClickRoute::CashInput
    } else if entry_click(path, item) || (f.trade_entry_active && item.len() == 0 && ends_with(path, ".data.row2"@)) {
        ClickRoute::TradeEntry
    } else {
        let is_popup = f.popup_open && (contains_spec(path, "pts_trade_modal_layer"@) || contains_spec(
            path,
            "pts_trade_custom_compare"@,
        ) || contains_spec(path, "pts_trade_cash_panel"@));
        let is_backdrop = f.popup_open && (contains_spec(path, "pts_trade_modal_backdrop"@) || item
            == "pts_trade_modal_backdrop"@);
        let is_close = is_backdrop || (is_popup && (contains_spec(path, "close_btn"@) || contains_spec(path, "cancel"@)
            || contains_spec(path, "pts_cash_cancel"@) || contains_spec(path, "pts_trade_custom_close"@) || item
            == "pts_trade_custom_close"@ || item == "close_btn"@ || item == "cancel"@ || item == "pts_cash_cancel"@));
        if is_close {
            ClickRoute::Close
        } else if is_popup {
            ClickRoute::Block
        } else {
            ClickRoute::Pass
        }
    }
}

/// The route of a click that neither opens a player from the pending-contract
/// row, nor is a blocked negotiation click, nor picks a roster slot in the
/// open window (those are decided first, from state outside this module).
/// The trade window's own actions (submitting, committing, closing, and
/// swallowing clicks) happen only while the window is open.
pub proof fn lemma_window_actions_need_open_window(path: Seq<char>, item: Seq<char>, f: ClickFlags)
    ensures
        (route_spec(path, item, f) is Review || route_spec(path, item, f) is Commit || route_spec(path, item, f) is Close
            || route_spec(path, item, f) is Block) ==> f.popup_open,
{
}

pub fn route_click(path: &str, item: &str, f: ClickFlags) -> (r: ClickRoute)
    ensures
        r == route_spec(path@, item@, f),
        (r is Review || r is Commit || r is Close || r is Block) ==> f.popup_open,
{
    proof {
        lemma_window_actions_need_open_window(path@, item@, f);
    }
    let toggle_ids_exec = ["pts_trade_runtime_status_toggle", "pts_trade_status_toggle", "pts_trade_runtime_status_value_core", "pts_trade_runtime_status_value_important", "pts_trade_runtime_status_value_general", "pts_trade_runtime_status_value_sub", "pts_trade_runtime_status_value_prospect", "pts_trade_status_value_core", "pts_trade_status_value_important", "pts_trade_status_value_general", "pts_trade_status_value_sub", "pts_trade_status_value_prospect", "pts_trade_status_arrow"];
    assert(toggle_ids_exec@ =~= toggle_ids());
    let core_ids_exec = ["pts_trade_runtime_status_option_core", "pts_trade_status_option_core", "pts_trade_runtime_status_check_core", "pts_trade_status_check_core"];
    assert(core_ids_exec@ =~= core_ids());
    let important_ids_exec = ["pts_trade_runtime_status_option_important", "pts_trade_status_option_important", "pts_trade_runtime_status_check_important", "pts_trade_status_check_important"];
    assert(important_ids_exec@ =~= important_ids());
    let general_ids_exec = ["pts_trade_runtime_status_option_general", "pts_trade_status_option_general", "pts_trade_runtime_status_check_general", "pts_trade_status_check_general"];
    assert(general_ids_exec@ =~= general_ids());
    let sub_ids_exec = ["pts_trade_runtime_status_option_sub", "pts_trade_status_option_sub", "pts_trade_runtime_status_check_sub", "pts_trade_status_check_sub"];
    assert(sub_ids_exec@ =~= sub_ids());
    let prospect_ids_exec = ["pts_trade_runtime_status_option_prospect", "pts_trade_status_option_prospect", "pts_trade_runtime_status_check_prospect", "pts_trade_status_check_prospect"];
    assert(prospect_ids_exec@ =~= prospect_ids());
    if event_matches_any(path, item, &toggle_ids_exec) {
        return ClickRoute::Status(4);
    }
    if event_matches_any(path, item, &core_ids_exec) {
        return ClickRoute::Status(5);
    }
    if event_matches_any(path, item, &important_ids_exec) {
        return ClickRoute::Status(6);
    }
    if event_matches_any(path, item, &general_ids_exec) {
        return ClickRoute::Status(7);
    }
    if event_matches_any(path, item, &sub_ids_exec) {
        return ClickRoute::Status(8);
    }
    if event_matches_any(path, item, &prospect_ids_exec) {
        return ClickRoute::Status(9);
    }
    if f.popup_open && (str_contains(path, "pts_cash_submit") || str_is(item, "pts_cash_submit")) {
        return ClickRoute::Review;
    }
    if f.popup_open && (str_contains(path, "pts_trade_commit_confirm") || str_is(item, "pts_trade_commit_confirm")) {
        let action: u8 = if f.transaction_executed && f.duplicate_replay_verified {
            2
        } else if f.rollback_completed {
            2
        } else if f.transaction_executed {
            3
        } else {
            11
        };
        return ClickRoute::Commit(action);
    }
    if str_contains(path, "pts_cash_input") || str_is(item, "pts_cash_input") {
        return ClickRoute::CashInput;
    }
    let item_chars = chars_of(item);
    let entry_parent_click = f.trade_entry_active && item_chars.len() == 0 && str_ends_with(path, ".data.row2");
    if trade_entry_event(path, item) || entry_parent_click {
        return ClickRoute::TradeEntry;
    }
    let is_popup = f.popup_open && (str_contains(path, "pts_trade_modal_layer") || str_contains(
        path,
        "pts_trade_custom_compare",
    ) || str_contains(path, "pts_trade_cash_panel"));
    let is_backdrop = f.popup_open && (str_contains(path, "pts_trade_modal_backdrop") || str_is(
        item,
        "pts_trade_modal_backdrop",
    ));
    let is_close = is_backdrop || (is_popup && (str_contains(path, "close_btn") || str_contains(path, "cancel")
        || str_contains(path, "pts_cash_cancel") || str_contains(path, "pts_trade_custom_close") || str_is(
        item,
        "pts_trade_custom_close",
    ) || str_is(item, "close_btn") || str_is(item, "cancel") || str_is(item, "pts_cash_cancel")));
    if is_close {
        ClickRoute::Close
    } else if is_popup {
        ClickRoute::Block
    } else {
        ClickRoute::Pass
    }
}

} // verus!

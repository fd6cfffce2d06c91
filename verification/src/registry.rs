//! The registry of executed plans kept in the save data: one plan id per
//! line, sorted, each id at most once.
use vstd::prelude::*;
use crate::kv::{lemma_segments_append_plain, lemma_segments_nonempty, lemma_segments_prefix, segments, utf8_bytes};
use crate::order::{lemma_lex_asymmetric, lemma_lex_irreflexive, lemma_lex_total, lemma_lex_transitive, lex_less, lex_lt};
use crate::plan::{plan_id_chars_ok, plan_id_ok};
use crate::text::{append_chars, chars_eq, chars_of, copy_range, str_from_utf8, string_of, trim, trim_bounds};

verus! {

/// The texts of a list of strings.
pub open spec fn texts(v: Seq<String>) -> Seq<Seq<char>> {
    v.map_values(|s: String| s@)
}

/// Each text comes strictly before the next: sorted, nothing twice.
pub open spec fn strictly_sorted(s: Seq<Seq<char>>) -> bool {
    forall|i: int, j: int| 0 <= i < j < s.len() ==> lex_lt(#[trigger] s[i], #[trigger] s[j])
}

/// The two lists hold the same texts.
pub open spec fn same_elements(a: Seq<Seq<char>>, b: Seq<Seq<char>>) -> bool {
    forall|x: Seq<char>| a.contains(x) <==> b.contains(x)
}

/// Two sorted lists of the same texts are the same list.
pub proof fn lemma_sorted_unique(a: Seq<Seq<char>>, b: Seq<Seq<char>>)
    requires
        strictly_sorted(a),
        strictly_sorted(b),
        same_elements(a, b),
    ensures
        a == b,
    decreases a.len(),
{
    if a.len() == 0 {
        if b.len() > 0 {
            assert(b.contains(b[0]));
        }
        assert(a =~= b);
    } else if b.len() == 0 {
        assert(a.contains(a[0]));
    } else {
        assert(a.contains(a[0]));
        assert(b.contains(b[0]));
        let ja = choose|j: int| 0 <= j < a.len() && a[j] == b[0];
        let jb = choose|j: int| 0 <= j < b.len() && b[j] == a[0];
        if a[0] != b[0] {
            assert(ja > 0);
            assert(jb > 0);
            assert(lex_lt(a[0], a[ja]));
            assert(lex_lt(b[0], b[jb]));
            lemma_lex_asymmetric(a[0], b[0]);
        }
        let ta = a.drop_first();
        let tb = b.drop_first();
        assert forall|i: int, j: int| 0 <= i < j < ta.len() implies lex_lt(#[trigger] ta[i], #[trigger] ta[j]) by {
            assert(ta[i] == a[i + 1] && ta[j] == a[j + 1]);
        }
        assert forall|i: int, j: int| 0 <= i < j < tb.len() implies lex_lt(#[trigger] tb[i], #[trigger] tb[j]) by {
            assert(tb[i] == b[i + 1] && tb[j] == b[j + 1]);
        }
        assert forall|x: Seq<char>| ta.contains(x) <==> tb.contains(x) by {
            if ta.contains(x) {
                let i = choose|i: int| 0 <= i < ta.len() && ta[i] == x;
                assert(a[i + 1] == x);
                assert(lex_lt(a[0], a[i + 1]));
                lemma_lex_irreflexive(x);
                assert(b.contains(x));
                let k = choose|k: int| 0 <= k < b.len() && b[k] == x;
                assert(k != 0);
                assert(tb[k - 1] == x);
            }
            if tb.contains(x) {
                let i = choose|i: int| 0 <= i < tb.len() && tb[i] == x;
                assert(b[i + 1] == x);
                assert(lex_lt(b[0], b[i + 1]));
                lemma_lex_irreflexive(x);
                assert(a.contains(x));
                let k = choose|k: int| 0 <= k < a.len() && a[k] == x;
                assert(k != 0);
                assert(ta[k - 1] == x);
            }
        }
        lemma_sorted_unique(ta, tb);
        assert(a =~= seq![a[0]] + ta);
        assert(b =~= seq![b[0]] + tb);
    }
}

fn texts_equal(a: &String, b: &String) -> (r: bool)
    ensures
        r == (a@ == b@),
{
    let x = chars_of(a.as_str());
    let y = chars_of(b.as_str());
    chars_eq(x.as_slice(), y.as_slice())
}

fn text_less(a: &String, b: &String) -> (r: bool)
    ensures
        r == lex_lt(a@, b@),
{
    let x = chars_of(a.as_str());
    let y = chars_of(b.as_str());
    lex_less(x.as_slice(), y.as_slice())
}

/// Inserts `x` at its place in a sorted list, unless it is there already.
fn insert_sorted(out: &mut Vec<String>, x: String)
    requires
        strictly_sorted(texts(old(out)@)),
    ensures
        strictly_sorted(texts(final(out)@)),
        forall|y: Seq<char>| texts(final(out)@).contains(y) <==> (texts(old(out)@).contains(y) || y == x@),
{
    let ghost old_t = texts(out@);
    let mut p: usize = 0;
    while p < out.len() && text_less(&out[p], &x)
        invariant
            p <= out@.len(),
            texts(out@) == old_t,
            strictly_sorted(old_t),
            forall|k: int| 0 <= k < p ==> lex_lt(#[trigger] old_t[k], x@),
        decreases out@.len() - p,
    {
        assert(old_t[p as int] == out@[p as int]@);
        p = p + 1;
    }
    if p < out.len() && texts_equal(&out[p], &x) {
        assert(old_t[p as int] == x@);
        assert(old_t.contains(x@));
        return;
    }
    proof {
        if p < out@.len() {
            assert(old_t[p as int] == out@[p as int]@);
            lemma_lex_total(old_t[p as int], x@);
        }
    }
    out.insert(p, x);
    let ghost new_t = texts(out@);
    assert(new_t =~= old_t.insert(p as int, x@));
    assert forall|i: int, j: int| 0 <= i < j < new_t.len() implies lex_lt(#[trigger] new_t[i], #[trigger] new_t[j]) by {
        if j < p {
            assert(new_t[i] == old_t[i] && new_t[j] == old_t[j]);
        } else if j == p {
            assert(new_t[i] == old_t[i]);
        } else if i < p {
            assert(new_t[i] == old_t[i] && new_t[j] == old_t[j - 1]);
        } else if i == p {
            assert(new_t[j] == old_t[j - 1]);
            if j - 1 > p {
                lemma_lex_transitive(x@, old_t[p as int], old_t[j - 1]);
            }
        } else {
            assert(new_t[i] == old_t[i - 1] && new_t[j] == old_t[j - 1]);
        }
    }
    assert forall|y: Seq<char>| new_t.contains(y) <==> (old_t.contains(y) || y == x@) by {
        if new_t.contains(y) {
            let k = choose|k: int| 0 <= k < new_t.len() && new_t[k] == y;
            if k < p {
                assert(old_t[k] == y);
            } else if k > p {
                assert(old_t[k - 1] == y);
            }
        }
        if old_t.contains(y) {
            let k = choose|k: int| 0 <= k < old_t.len() && old_t[k] == y;
            if k < p {
                assert(new_t[k] == y);
            } else {
                assert(new_t[k + 1] == y);
            }
        }
        if y == x@ {
            assert(new_t[p as int] == y);
        }
    }
}

/// The distinct texts of `ids`, sorted.
pub fn sort_dedup(ids: &[String]) -> (out: Vec<String>)
    ensures
        strictly_sorted(texts(out@)),
        same_elements(texts(out@), texts(ids@)),
{
    let mut out: Vec<String> = Vec::new();
    let mut k: usize = 0;
    assert(texts(out@) =~= Seq::<Seq<char>>::empty());
    while k < ids.len()
        invariant
            k <= ids@.len(),
            strictly_sorted(texts(out@)),
            forall|y: Seq<char>| texts(out@).contains(y) <==> texts(ids@.take(k as int)).contains(y),
        decreases ids@.len() - k,
    {
        let x = ids[k].clone();
        let ghost before = texts(out@);
        insert_sorted(&mut out, x);
        assert(texts(ids@.take(k + 1)) =~= texts(ids@.take(k as int)).push(ids@[k as int]@));
        assert forall|y: Seq<char>| texts(out@).contains(y) <==> texts(ids@.take(k + 1)).contains(y) by {
            let t = texts(ids@.take(k as int));
            if t.push(ids@[k as int]@).contains(y) && y != ids@[k as int]@ {
                let j = choose|j: int| 0 <= j < t.len() + 1 && t.push(ids@[k as int]@)[j] == y;
                assert(t[j] == y);
            }
            if t.contains(y) {
                let j = choose|j: int| 0 <= j < t.len() && t[j] == y;
                assert(t.push(ids@[k as int]@)[j] == y);
            }
            if y == ids@[k as int]@ {
                assert(t.push(ids@[k as int]@)[t.len() as int] == y);
            }
        }
        k = k + 1;
    }
    assert(ids@.take(k as int) =~= ids@);
    out
}

// ---------------------------------------------------------------------------
// Encoding
// ---------------------------------------------------------------------------

/// Each id followed by a newline.
pub open spec fn registry_text(ids: Seq<Seq<char>>) -> Seq<char>
    decreases ids.len(),
{
    if ids.len() == 0 {
        Seq::empty()
    } else {
        registry_text(ids.drop_last()) + ids.last() + seq!['\n']
    }
}

/// `bytes` is the registry of the distinct `ids`, in sorted order.
pub open spec fn encodes_registry(bytes: Seq<u8>, ids: Seq<Seq<char>>) -> bool {
    exists|order: Seq<Seq<char>>|
        #![trigger registry_text(order)]
        strictly_sorted(order) && same_elements(order, ids) && bytes == vstd::utf8::encode_utf8(registry_text(order))
}

/// Writes the registry: the distinct ids, sorted, one per line.
pub fn encode_executed_plan_registry(plan_ids: &[String]) -> (bytes: Vec<u8>)
    ensures
        encodes_registry(bytes@, texts(plan_ids@)),
{
    let sorted = sort_dedup(plan_ids);
    let ghost order = texts(sorted@);
    let mut text: Vec<char> = Vec::new();
    let mut i: usize = 0;
    while i < sorted.len()
        invariant
            i <= sorted@.len(),
            order == texts(sorted@),
            text@ == registry_text(order.take(i as int)),
        decreases sorted@.len() - i,
    {
        let c = chars_of(sorted[i].as_str());
        append_chars(&mut text, c.as_slice());
        text.push('\n');
        assert(order.take(i + 1).drop_last() =~= order.take(i as int));
        assert(text@ =~= registry_text(order.take(i + 1)));
        i = i + 1;
    }
    assert(order.take(i as int) =~= order);
    let bytes = utf8_bytes(text.as_slice());
    assert(strictly_sorted(order) && same_elements(order, texts(plan_ids@)) && bytes@ == vstd::utf8::encode_utf8(
        registry_text(order),
    ));
    bytes
}

// ---------------------------------------------------------------------------
// Decoding
// ---------------------------------------------------------------------------

/// What is wrong with a stored registry.
pub enum RegistryFault {
    InvalidUtf8,
    InvalidPlanId(Seq<char>),
    DuplicatePlanId(Seq<char>),
}

/// The same, with the offending id as a string.
#[derive(Debug, PartialEq, Eq)]
pub enum RegistryError {
    InvalidUtf8,
    InvalidPlanId(String),
    DuplicatePlanId(String),
}

impl View for RegistryError {
    type V = RegistryFault;

    open spec fn view(&self) -> RegistryFault {
        match self {
            RegistryError::InvalidUtf8 => RegistryFault::InvalidUtf8,
            RegistryError::InvalidPlanId(s) => RegistryFault::InvalidPlanId(s@),
            RegistryError::DuplicatePlanId(s) => RegistryFault::DuplicatePlanId(s@),
        }
    }
}

/// One line read after the ids `ids`: blank lines are skipped, an id must be
/// well formed and new.
pub open spec fn scan_step(ids: Seq<Seq<char>>, line: Seq<char>) -> Result<Seq<Seq<char>>, RegistryFault> {
    let t = trim(line);
    if t.len() == 0 {
        Ok(ids)
    } else if !plan_id_ok(t) {
        Err(RegistryFault::InvalidPlanId(t))
    } else if ids.contains(t) {
        Err(RegistryFault::DuplicatePlanId(t))
    } else {
        Ok(ids.push(t))
    }
}

/// The ids of the lines, in reading order, or the first fault.
pub open spec fn scan_registry(lines: Seq<Seq<char>>) -> Result<Seq<Seq<char>>, RegistryFault>
    decreases lines.len(),
{
    if lines.len() == 0 {
        Ok(Seq::empty())
    } else {
        match scan_registry(lines.drop_last()) {
            Err(e) => Err(e),
            Ok(ids) => scan_step(ids, lines.last()),
        }
    }
}

/// What stored registry bytes read as (trimmed lines, blank ones skipped).
pub open spec fn registry_ids(bytes: Seq<u8>) -> Result<Seq<Seq<char>>, RegistryFault> {
    if !vstd::utf8::valid_utf8(bytes) {
        Err(RegistryFault::InvalidUtf8)
    } else {
        scan_registry(segments(vstd::utf8::decode_utf8(bytes)))
    }
}

proof fn lemma_scan_prefix_err(lines: Seq<Seq<char>>, prefix: Seq<Seq<char>>)
    requires
        prefix.len() <= lines.len(),
        prefix == lines.take(prefix.len() as int),
        scan_registry(prefix) is Err,
    ensures
        scan_registry(lines) == scan_registry(prefix),
    decreases lines.len() - prefix.len(),
{
    if lines.len() > prefix.len() {
        assert(lines.drop_last().take(prefix.len() as int) =~= prefix);
        lemma_scan_prefix_err(lines.drop_last(), prefix);
    } else {
        assert(lines =~= prefix);
    }
}

/// Reads the line `[from, to)` of `chars` after the ids in `found`.
fn scan_line(chars: &[char], from: usize, to: usize, found: &mut Vec<String>) -> (r: Result<(), RegistryError>)
    requires
        from <= to <= chars@.len(),
    ensures
        match scan_step(texts(old(found)@), chars@.subrange(from as int, to as int)) {
            Ok(ids) => r is Ok && texts(final(found)@) == ids,
            Err(f) => r matches Err(e) && e@ == f && texts(final(found)@) == texts(old(found)@),
        },
{
    let (a, b) = trim_bounds(chars, from, to);
    if a == b {
        return Ok(());
    }
    let t = copy_range(chars, a, b);
    if !plan_id_chars_ok(t.as_slice()) {
        return Err(RegistryError::InvalidPlanId(string_of(t.as_slice())));
    }
    let ghost ts = texts(found@);
    let mut k: usize = 0;
    while k < found.len()
        invariant
            k <= found@.len(),
            ts == texts(found@),
            ts == texts(old(found)@),
            t@ == trim(chars@.subrange(from as int, to as int)),
            t@.len() > 0,
            plan_id_ok(t@),
            forall|j: int| 0 <= j < k ==> ts[j] != t@,
        decreases found@.len() - k,
    {
        let c = chars_of(found[k].as_str());
        if chars_eq(c.as_slice(), t.as_slice()) {
            assert(ts[k as int] == t@);
            assert(ts.contains(t@));
            return Err(RegistryError::DuplicatePlanId(string_of(t.as_slice())));
        }
        k = k + 1;
    }
    assert(!ts.contains(t@)) by {
        if ts.contains(t@) {
            let j = choose|j: int| 0 <= j < ts.len() && ts[j] == t@;
            assert(ts[j] != t@);
        }
    }
    let s = string_of(t.as_slice());
    found.push(s);
    assert(texts(found@) =~= ts.push(t@));
    Ok(())
}

/// Reads the registry.  Every non-blank line (trimmed) must be a plan id and
/// none may appear twice; the ids come back sorted.
pub fn decode_executed_plan_registry(bytes: &[u8]) -> (r: Result<Vec<String>, RegistryError>)
    ensures
        match registry_ids(bytes@) {
            Ok(ids) => r matches Ok(v) && strictly_sorted(texts(v@)) && same_elements(texts(v@), ids),
            Err(f) => r matches Err(e) && e@ == f,
        },
{
    let text = match str_from_utf8(bytes) {
        Some(t) => t,
        None => return Err(RegistryError::InvalidUtf8),
    };
    let chars = chars_of(text);
    let ghost all = chars@;
    let n = chars.len();
    let mut found: Vec<String> = Vec::new();
    let mut line_start: usize = 0;
    let mut i: usize = 0;
    let ghost mut done: Seq<Seq<char>> = Seq::empty();
    assert(segments(all.take(0)) =~= seq![Seq::<char>::empty()]);
    assert(all.subrange(0, 0) =~= Seq::<char>::empty());
    assert(done.push(all.subrange(0, 0)) =~= seq![Seq::<char>::empty()]);
    assert(texts(found@) =~= Seq::<Seq<char>>::empty());
    while i < n
        invariant
            n == all.len(),
            chars@ == all,
            vstd::utf8::valid_utf8(bytes@),
            all == vstd::utf8::decode_utf8(bytes@),
            line_start <= i <= n,
            segments(all.take(i as int)) == done.push(all.subrange(line_start as int, i as int)),
            scan_registry(done) == Ok::<Seq<Seq<char>>, RegistryFault>(texts(found@)),
        decreases n - i,
    {
        let ghost cur = all.subrange(line_start as int, i as int);
        assert(all.take(i + 1).drop_last() =~= all.take(i as int));
        if chars[i] == '\n' {
            let step = scan_line(chars.as_slice(), line_start, i, &mut found);
            let ghost prev_done = done;
            proof {
                done = done.push(cur);
                assert(done.drop_last() =~= prev_done);
            }
            match step {
                Ok(()) => {},
                Err(e) => {
                    proof {
                        assert(scan_registry(done) is Err);
                        assert(segments(all.take(i + 1)) =~= done.push(Seq::<char>::empty()));
                        lemma_segments_prefix(all, i + 1);
                        assert(all.take(n as int) =~= all);
                        let whole = segments(all);
                        assert forall|j: int| 0 <= j < done.len() implies done[j] == whole[j] by {
                            assert(segments(all.take(i + 1))[j] == done[j]);
                        }
                        assert(done =~= whole.take(done.len() as int));
                        lemma_scan_prefix_err(segments(all), done);
                    }
                    return Err(e);
                },
            }
            line_start = i + 1;
            assert(all.subrange(line_start as int, i + 1) =~= Seq::<char>::empty());
            assert(segments(all.take(i + 1)) =~= done.push(all.subrange(line_start as int, i + 1)));
        } else {
            let ghost p = segments(all.take(i as int));
            assert(all.take(i + 1).last() == all[i as int]);
            assert(all.subrange(line_start as int, i + 1) =~= cur.push(all[i as int]));
            assert(p.last() == cur);
            assert(segments(all.take(i + 1)) == p.update(p.len() - 1, cur.push(all[i as int])));
            assert(segments(all.take(i + 1)) =~= done.push(all.subrange(line_start as int, i + 1)));
        }
        i = i + 1;
    }
    let ghost cur = all.subrange(line_start as int, n as int);
    assert(all.take(n as int) =~= all);
    let step = scan_line(chars.as_slice(), line_start, n, &mut found);
    let ghost lines = done.push(cur);
    assert(lines.drop_last() =~= done);
    match step {
        Ok(()) => {
            let sorted = sort_dedup(found.as_slice());
            Ok(sorted)
        },
        Err(e) => Err(e),
    }
}

// ---------------------------------------------------------------------------
// Reading back what was written
// ---------------------------------------------------------------------------

/// Every text is a plan id.
pub open spec fn all_plan_ids(ids: Seq<Seq<char>>) -> bool {
    forall|i: int| 0 <= i < ids.len() ==> plan_id_ok(#[trigger] ids[i])
}

proof fn lemma_plan_id_plain(id: Seq<char>)
    requires
        plan_id_ok(id),
    ensures
        !id.contains('\n'),
        trim(id) == id,
{
    assert(!id.contains('\n')) by {
        if id.contains('\n') {
            let j = choose|j: int| 0 <= j < id.len() && id[j] == '\n';
            if j >= 4 {
                assert(crate::text::is_hex_digit(id[j]));
            }
        }
    }
    assert(id[19] == id.last());
    assert(crate::text::is_hex_digit(id[19]));
    assert(crate::text::trim_start(id) == id);
    assert(crate::text::trim_end(id) == id);
}

proof fn lemma_registry_segments(order: Seq<Seq<char>>)
    requires
        all_plan_ids(order),
    ensures
        segments(registry_text(order)) == order.push(Seq::<char>::empty()),
    decreases order.len(),
{
    if order.len() == 0 {
        assert(segments(Seq::<char>::empty()) =~= seq![Seq::<char>::empty()]);
        assert(order.push(Seq::<char>::empty()) =~= seq![Seq::<char>::empty()]);
    } else {
        let o0 = order.drop_last();
        assert forall|i: int| 0 <= i < o0.len() implies plan_id_ok(#[trigger] o0[i]) by {
            assert(o0[i] == order[i]);
        }
        lemma_registry_segments(o0);
        let id = order.last();
        assert(plan_id_ok(order[order.len() - 1]));
        lemma_plan_id_plain(id);
        let r0 = registry_text(o0);
        lemma_segments_append_plain(r0, id);
        lemma_segments_nonempty(r0);
        assert(registry_text(order) =~= (r0 + id).push('\n'));
        assert((r0 + id).push('\n').drop_last() =~= r0 + id);
        assert(Seq::<char>::empty() + id =~= id);
        assert(segments(r0 + id) =~= order);
    }
}

proof fn lemma_scan_sorted(order: Seq<Seq<char>>, n: int)
    requires
        all_plan_ids(order),
        strictly_sorted(order),
        0 <= n <= order.len(),
    ensures
        scan_registry(order.take(n)) == Ok::<Seq<Seq<char>>, RegistryFault>(order.take(n)),
    decreases n,
{
    if n == 0 {
        assert(order.take(0) =~= Seq::<Seq<char>>::empty());
    } else {
        lemma_scan_sorted(order, n - 1);
        assert(order.take(n).drop_last() =~= order.take(n - 1));
        let id = order[n - 1];
        assert(order.take(n).last() == id);
        lemma_plan_id_plain(id);
        assert(!order.take(n - 1).contains(id)) by {
            if order.take(n - 1).contains(id) {
                let t = order.take(n - 1);
                let k = choose|k: int| 0 <= k < t.len() && t[k] == id;
                assert(lex_lt(order[k], order[n - 1]));
                lemma_lex_irreflexive(id);
            }
        }
        assert(order.take(n - 1).push(id) =~= order.take(n));
    }
}

/// What the registry writes reads back as exactly the distinct ids, sorted
/// (the check made after every commit).
pub proof fn lemma_registry_roundtrip(bytes: Seq<u8>, ids: Seq<Seq<char>>)
    requires
        encodes_registry(bytes, ids),
        all_plan_ids(ids),
    ensures
        registry_ids(bytes) matches Ok(read) && strictly_sorted(read) && same_elements(read, ids),
{
    broadcast use vstd::utf8::encode_utf8_valid_utf8, vstd::utf8::encode_utf8_decode_utf8;

    let order = choose|order: Seq<Seq<char>>|
        #![trigger registry_text(order)]
        strictly_sorted(order) && same_elements(order, ids) && bytes == vstd::utf8::encode_utf8(registry_text(order));
    assert forall|i: int| 0 <= i < order.len() implies plan_id_ok(#[trigger] order[i]) by {
        assert(order.contains(order[i]));
        assert(ids.contains(order[i]));
        let k = choose|k: int| 0 <= k < ids.len() && ids[k] == order[i];
        assert(plan_id_ok(ids[k]));
    }
    lemma_registry_segments(order);
    lemma_scan_sorted(order, order.len() as int);
    assert(order.take(order.len() as int) =~= order);
    let lines = order.push(Seq::<char>::empty());
    assert(lines.drop_last() =~= order);
    assert(trim(Seq::<char>::empty()).len() == 0);
}

} // verus!

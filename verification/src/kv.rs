//! The `key=value` line payloads that the client and server exchange and that
//! the save data stores.
use vstd::prelude::*;
use crate::text::{append_chars, append_str, is_whitespace, trim_start, trim_end, chars_of, chars_eq, copy_range, first_index, lemma_first_index, string_of, str_from_utf8, trim, trim_bounds};

verus! {

/// The pieces of a payload separated by `\n` (`str::split('\n')`): always at
/// least one, possibly empty.
pub open spec fn segments(s: Seq<char>) -> Seq<Seq<char>>
    decreases s.len(),
{
    if s.len() == 0 {
        seq![Seq::empty()]
    } else {
        let p = segments(s.drop_last());
        if s.last() == '\n' {
            p.push(Seq::empty())
        } else {
            p.update(p.len() - 1, p.last().push(s.last()))
        }
    }
}

pub proof fn lemma_segments_nonempty(s: Seq<char>)
    ensures
        segments(s).len() >= 1,
    decreases s.len(),
{
    if s.len() > 0 {
        lemma_segments_nonempty(s.drop_last());
    }
}

/// How one line of a payload reads.
pub enum LineReading {
    Blank,
    Entry(Seq<char>, Seq<char>),
    Malformed(Seq<char>),
}

/// A line is trimmed; an empty one is skipped; otherwise it splits at its
/// first `=` into key and value, and a line without `=` is malformed.
pub open spec fn read_line(line: Seq<char>) -> LineReading {
    let t = trim(line);
    if t.len() == 0 {
        LineReading::Blank
    } else {
        match first_index(t, '=') {
            None => LineReading::Malformed(t),
            Some(k) => LineReading::Entry(t.take(k), t.skip(k + 1)),
        }
    }
}

/// Reads the lines in order into a map, a later key replacing an earlier one;
/// the first malformed line is the error.
pub open spec fn read_lines(lines: Seq<Seq<char>>) -> Result<Map<Seq<char>, Seq<char>>, Seq<char>>
    decreases lines.len(),
{
    if lines.len() == 0 {
        Ok(Map::empty())
    } else {
        match read_lines(lines.drop_last()) {
            Err(e) => Err(e),
            Ok(m) => match read_line(lines.last()) {
                LineReading::Blank => Ok(m),
                LineReading::Entry(k, v) => Ok(m.insert(k, v)),
                LineReading::Malformed(t) => Err(t),
            },
        }
    }
}

/// What a payload of bytes reads as: `Err(None)` for bytes that are not UTF-8,
/// `Err(Some(line))` for the first line without `=`, else the map.
pub open spec fn read_payload(bytes: Seq<u8>) -> Result<Map<Seq<char>, Seq<char>>, Option<Seq<char>>> {
    if !vstd::utf8::valid_utf8(bytes) {
        Err(None)
    } else {
        match read_lines(segments(vstd::utf8::decode_utf8(bytes))) {
            Ok(m) => Ok(m),
            Err(line) => Err(Some(line)),
        }
    }
}

/// One stored entry.
#[derive(Debug, PartialEq, Eq)]
pub struct KvEntry {
    pub key: Vec<char>,
    pub value: Vec<char>,
}

/// The map that a list of entries stands for: entries are applied in order.
pub open spec fn entries_map(e: Seq<KvEntry>) -> Map<Seq<char>, Seq<char>>
    decreases e.len(),
{
    if e.len() == 0 {
        Map::empty()
    } else {
        entries_map(e.drop_last()).insert(e.last().key@, e.last().value@)
    }
}

/// The value of the last entry with `key`.
pub open spec fn last_value(e: Seq<KvEntry>, key: Seq<char>) -> Option<Seq<char>>
    decreases e.len(),
{
    if e.len() == 0 {
        None
    } else if e.last().key@ == key {
        Some(e.last().value@)
    } else {
        last_value(e.drop_last(), key)
    }
}

pub proof fn lemma_last_value_is_map(e: Seq<KvEntry>, key: Seq<char>)
    ensures
        entries_map(e).contains_key(key) <==> last_value(e, key) is Some,
        last_value(e, key) matches Some(v) ==> entries_map(e)[key] == v,
    decreases e.len(),
{
    if e.len() > 0 {
        lemma_last_value_is_map(e.drop_last(), key);
    }
}

/// A parsed payload: a map from keys to values.
#[derive(Debug, PartialEq, Eq)]
pub struct KvPayload {
    pub entries: Vec<KvEntry>,
}

impl View for KvPayload {
    type V = Map<Seq<char>, Seq<char>>;

    open spec fn view(&self) -> Map<Seq<char>, Seq<char>> {
        entries_map(self.entries@)
    }
}

/// Why a payload could not be read.
#[derive(Debug, PartialEq, Eq)]
pub enum KvError {
    /// The bytes are not UTF-8.
    InvalidUtf8,
    /// This trimmed line has no `=`.
    NoEquals(String),
}

impl KvPayload {
    pub fn new() -> (p: KvPayload)
        ensures
            p@ == Map::<Seq<char>, Seq<char>>::empty(),
    {
        KvPayload { entries: Vec::new() }
    }

    /// Sets `key` to `value`, replacing an earlier value.
    pub fn insert(&mut self, key: Vec<char>, value: Vec<char>)
        ensures
            final(self)@ == old(self)@.insert(key@, value@),
    {
        let ghost k = key@;
        let ghost v = value@;
        self.entries.push(KvEntry { key, value });
        assert(self.entries@.drop_last() =~= old(self).entries@);
    }

    /// The value stored under `key`.
    pub fn get(&self, key: &[char]) -> (r: Option<&Vec<char>>)
        ensures
            r is Some <==> self@.contains_key(key@),
            r matches Some(v) ==> v@ == self@[key@],
    {
        proof {
            lemma_last_value_is_map(self.entries@, key@);
        }
        let mut i: usize = self.entries.len();
        assert(self.entries@.take(i as int) =~= self.entries@);
        while i > 0
            invariant
                i <= self.entries@.len(),
                last_value(self.entries@, key@) == last_value(self.entries@.take(i as int), key@),
            decreases i,
        {
            let e = &self.entries[i - 1];
            assert(self.entries@.take(i as int).drop_last() =~= self.entries@.take(i - 1));
            if chars_eq(e.key.as_slice(), key) {
                assert(last_value(self.entries@.take(i as int), key@) == Some(e.value@));
                proof {
                    lemma_last_value_is_map(self.entries@, key@);
                }
                return Some(&e.value);
            }
            i = i - 1;
        }
        proof {
            lemma_last_value_is_map(self.entries@, key@);
        }
        None
    }

    /// The value stored under the key spelled by `key`.
    pub fn get_str(&self, key: &str) -> (r: Option<&Vec<char>>)
        ensures
            r is Some <==> self@.contains_key(key@),
            r matches Some(v) ==> v@ == self@[key@],
    {
        let k = chars_of(key);
        self.get(k.as_slice())
    }
}

/// Splits off the line `[from, to)` of `chars` and records it.
fn read_one_line(chars: &[char], from: usize, to: usize, map: &mut KvPayload) -> (r: Result<(), KvError>)
    requires
        from <= to <= chars@.len(),
    ensures
        ({
            let line = chars@.subrange(from as int, to as int);
            match read_line(line) {
                LineReading::Blank => r is Ok && final(map)@ == old(map)@,
                LineReading::Entry(k, v) => r is Ok && final(map)@ == old(map)@.insert(k, v),
                LineReading::Malformed(t) => r matches Err(KvError::NoEquals(l)) && l@ == t,
            }
        }),
{
    let ghost line = chars@.subrange(from as int, to as int);
    let (a, b) = trim_bounds(chars, from, to);
    let ghost t = chars@.subrange(a as int, b as int);
    if a == b {
        assert(trim(line).len() == 0);
        return Ok(());
    }
    let mut k: usize = a;
    while k < b && chars[k] != '='
        invariant
            a <= k <= b <= chars@.len(),
            t == chars@.subrange(a as int, b as int),
            forall|j: int| 0 <= j < k - a ==> t[j] != '=',
        decreases b - k,
    {
        k = k + 1;
    }
    proof {
        lemma_first_index(t, '=');
    }
    if k == b {
        proof {
            if t.contains('=') {
                let j = choose|j: int| 0 <= j < t.len() && t[j] == '=';
                assert(t[j] != '=');
            }
        }
        let l = copy_range(chars, a, b);
        let s = string_of(l.as_slice());
        return Err(KvError::NoEquals(s));
    }
    proof {
        assert(t[k - a] == '=');
        assert(t.contains('='));
        let i = first_index(t, '=')->0;
        assert(i == k - a) by {
            if i < k - a {
                assert(t[i] != '=');
            }
            if i > k - a {
                assert(t[k - a] != '=');
            }
        }
    }
    let key = copy_range(chars, a, k);
    let value = copy_range(chars, k + 1, b);
    assert(key@ =~= t.take(k - a));
    assert(value@ =~= t.skip(k - a + 1));
    map.insert(key, value);
    Ok(())
}

/// Reads a `key=value` payload.
pub fn parse_kv_payload(bytes: &[u8]) -> (r: Result<KvPayload, KvError>)
    ensures
        match read_payload(bytes@) {
            Ok(m) => r matches Ok(p) && p@ == m,
            Err(None) => r matches Err(KvError::InvalidUtf8),
            Err(Some(line)) => r matches Err(KvError::NoEquals(l)) && l@ == line,
        },
{
    let text = match str_from_utf8(bytes) {
        Some(t) => t,
        None => return Err(KvError::InvalidUtf8),
    };
    let chars = chars_of(text);
    let ghost all = chars@;
    let n = chars.len();
    let mut map = KvPayload::new();
    let mut line_start: usize = 0;
    let mut i: usize = 0;
    let ghost mut done: Seq<Seq<char>> = Seq::empty();
    assert(segments(all.take(0)) =~= seq![Seq::<char>::empty()]);
    assert(all.subrange(0, 0) =~= Seq::<char>::empty());
    assert(done.push(all.subrange(0, 0)) =~= seq![Seq::<char>::empty()]);
    while i < n
        invariant
            n == all.len(),
            chars@ == all,
            vstd::utf8::valid_utf8(bytes@),
            all == vstd::utf8::decode_utf8(bytes@),
            line_start <= i <= n,
            segments(all.take(i as int)) == done.push(all.subrange(line_start as int, i as int)),
            read_lines(done) == Ok::<Map<Seq<char>, Seq<char>>, Seq<char>>(map@),
        decreases n - i,
    {
        let ghost cur = all.subrange(line_start as int, i as int);
        assert(all.take(i + 1).drop_last() =~= all.take(i as int));
        if chars[i] == '\n' {
            let step = read_one_line(chars.as_slice(), line_start, i, &mut map);
            let ghost prev_done = done;
            proof {
                done = done.push(cur);
                assert(done.drop_last() =~= prev_done);
            }
            match step {
                Ok(()) => {},
                Err(e) => {
                    proof {
                        assert(read_lines(done) is Err);
                        assert(segments(all.take(i + 1)) =~= done.push(Seq::<char>::empty()));
                        lemma_segments_prefix(all, i + 1);
                        assert(all.take(n as int) =~= all);
                        let whole = segments(all);
                        assert forall|j: int| 0 <= j < done.len() implies done[j] == whole[j] by {
                            assert(segments(all.take(i + 1))[j] == done[j]);
                        }
                        assert(done =~= whole.take(done.len() as int));
                        lemma_read_lines_prefix_err(segments(all), done);
                        assert(read_payload(bytes@) == match read_lines(done) {
                            Ok(m) => Ok(m),
                            Err(line) => Err(Some(line)),
                        });
                    }
                    return Err(e);
                },
            }
            line_start = i + 1;
            assert(all.subrange(line_start as int, i + 1) =~= Seq::<char>::empty());
            assert(segments(all.take(i + 1)) =~= done.push(all.subrange(line_start as int, i + 1)));
        } else {
            let ghost p = segments(all.take(i as int));
            assert(all.take(i + 1).last() == all[i as int]);
            assert(all.subrange(line_start as int, i + 1) =~= cur.push(all[i as int]));
            assert(p.last() == cur);
            assert(segments(all.take(i + 1)) == p.update(p.len() - 1, cur.push(all[i as int])));
            assert(segments(all.take(i + 1)) =~= done.push(all.subrange(line_start as int, i + 1)));
        }
        i = i + 1;
    }
    let ghost cur = all.subrange(line_start as int, n as int);
    assert(all.take(n as int) =~= all);
    let step = read_one_line(chars.as_slice(), line_start, n, &mut map);
    let ghost lines = done.push(cur);
    assert(lines.drop_last() =~= done);
    match step {
        Ok(()) => Ok(map),
        Err(e) => Err(e),
    }
}

/// The complete lines read so far are the first lines of the whole payload.
pub proof fn lemma_segments_prefix(s: Seq<char>, i: int)
    requires
        0 <= i <= s.len(),
    ensures
        segments(s.take(i)).len() <= segments(s).len(),
        forall|j: int|
            0 <= j < segments(s.take(i)).len() - 1 ==> #[trigger] segments(s.take(i))[j]
                == segments(s)[j],
    decreases s.len() - i,
{
    lemma_segments_nonempty(s);
    if i == s.len() {
        assert(s.take(i) =~= s);
    } else {
        let d = s.drop_last();
        assert(d.take(i) =~= s.take(i));
        lemma_segments_prefix(d, i);
        lemma_segments_nonempty(d);
        lemma_segments_nonempty(s.take(i));
    }
}

/// Once a prefix of the lines fails, the whole fails with the same line.
pub proof fn lemma_read_lines_prefix_err(lines: Seq<Seq<char>>, prefix: Seq<Seq<char>>)
    requires
        prefix.len() <= lines.len(),
        prefix == lines.take(prefix.len() as int),
        read_lines(prefix) is Err,
    ensures
        read_lines(lines) == read_lines(prefix),
    decreases lines.len() - prefix.len(),
{
    if lines.len() > prefix.len() {
        assert(lines.drop_last().take(prefix.len() as int) =~= prefix);
        lemma_read_lines_prefix_err(lines.drop_last(), prefix);
    } else {
        assert(lines =~= prefix);
    }
}

// ---------------------------------------------------------------------------
// Writing payloads
// ---------------------------------------------------------------------------

/// One line `key=value` and its newline.
pub open spec fn render_line(key: Seq<char>, value: Seq<char>) -> Seq<char> {
    key + seq!['='] + value + seq!['\n']
}

/// The text of a payload with these fields, in order.
pub open spec fn render(fields: Seq<(Seq<char>, Seq<char>)>) -> Seq<char>
    decreases fields.len(),
{
    if fields.len() == 0 {
        Seq::empty()
    } else {
        render(fields.drop_last()) + render_line(fields.last().0, fields.last().1)
    }
}

/// The map that reading the fields in order builds.
pub open spec fn fields_map(fields: Seq<(Seq<char>, Seq<char>)>) -> Map<Seq<char>, Seq<char>>
    decreases fields.len(),
{
    if fields.len() == 0 {
        Map::empty()
    } else {
        fields_map(fields.drop_last()).insert(fields.last().0, fields.last().1)
    }
}

/// A key of the map of some fields is the key of one of them.
pub proof fn lemma_fields_map_key_index(fields: Seq<(Seq<char>, Seq<char>)>, k: Seq<char>) -> (i: int)
    requires
        fields_map(fields).contains_key(k),
    ensures
        0 <= i < fields.len(),
        fields[i].0 == k,
    decreases fields.len(),
{
    if fields.len() == 0 {
        assert(false);
        0
    } else if fields.last().0 == k {
        fields.len() - 1
    } else {
        let i = lemma_fields_map_key_index(fields.drop_last(), k);
        i
    }
}

/// A key that reads back as itself: nonempty, not starting with whitespace,
/// without `=` or a newline.
pub open spec fn key_ok(k: Seq<char>) -> bool {
    &&& k.len() > 0
    &&& !is_whitespace(k[0])
    &&& !k.contains('=')
    &&& !k.contains('\n')
}

/// A value that reads back as itself: no newline and no trailing whitespace.
pub open spec fn value_ok(v: Seq<char>) -> bool {
    &&& !v.contains('\n')
    &&& (v.len() > 0 ==> !is_whitespace(v.last()))
}

pub open spec fn fields_ok(fields: Seq<(Seq<char>, Seq<char>)>) -> bool {
    forall|i: int| 0 <= i < fields.len() ==> key_ok(#[trigger] fields[i].0) && value_ok(fields[i].1)
}

/// Appending text without a newline extends the last piece.
pub proof fn lemma_segments_append_plain(s: Seq<char>, t: Seq<char>)
    requires
        !t.contains('\n'),
    ensures
        segments(s + t) == segments(s).update(segments(s).len() - 1, segments(s).last() + t),
    decreases t.len(),
{
    lemma_segments_nonempty(s);
    if t.len() == 0 {
        assert(s + t =~= s);
        assert(segments(s).last() + t =~= segments(s).last());
        assert(segments(s).update(segments(s).len() - 1, segments(s).last()) =~= segments(s));
    } else {
        let t0 = t.drop_last();
        assert(!t0.contains('\n')) by {
            if t0.contains('\n') {
                let j = choose|j: int| 0 <= j < t0.len() && t0[j] == '\n';
                assert(t[j] == '\n');
            }
        }
        assert(t.last() != '\n') by {
            assert(t[t.len() - 1] == t.last());
        }
        lemma_segments_append_plain(s, t0);
        assert((s + t).drop_last() =~= s + t0);
        assert((s + t).last() == t.last());
        lemma_segments_nonempty(s + t0);
        assert(segments(s).last() + t =~= (segments(s).last() + t0).push(t.last()));
        assert(segments(s + t) =~= segments(s).update(segments(s).len() - 1, segments(s).last() + t));
    }
}

/// The pieces of a rendered payload are its lines and one empty tail.
proof fn lemma_segments_render(fields: Seq<(Seq<char>, Seq<char>)>)
    requires
        fields_ok(fields),
    ensures
        segments(render(fields)).len() == fields.len() + 1,
        segments(render(fields)).last() == Seq::<char>::empty(),
        forall|i: int|
            0 <= i < fields.len() ==> #[trigger] segments(render(fields))[i] == fields[i].0 + seq![
                '=',
            ] + fields[i].1,
    decreases fields.len(),
{
    if fields.len() == 0 {
        assert(segments(Seq::<char>::empty()) == seq![Seq::<char>::empty()]);
    } else {
        let f0 = fields.drop_last();
        assert(fields_ok(f0)) by {
            assert forall|i: int| 0 <= i < f0.len() implies key_ok(#[trigger] f0[i].0) && value_ok(
                f0[i].1,
            ) by {
                assert(f0[i] == fields[i]);
            }
        }
        lemma_segments_render(f0);
        let (k, v) = fields.last();
        assert(key_ok(fields[fields.len() - 1].0) && value_ok(fields[fields.len() - 1].1));
        let body = k + seq!['='] + v;
        assert(!body.contains('\n')) by {
            if body.contains('\n') {
                let j = choose|j: int| 0 <= j < body.len() && body[j] == '\n';
                if j < k.len() {
                    assert(k[j] == '\n');
                } else if j > k.len() {
                    assert(v[j - k.len() - 1] == '\n');
                }
            }
        }
        let r0 = render(f0);
        lemma_segments_append_plain(r0, body);
        assert(render(fields) =~= (r0 + body).push('\n'));
        assert((r0 + body).push('\n').drop_last() =~= r0 + body);
        lemma_segments_nonempty(r0);
        assert(segments(r0).last() + body =~= body);
        let sr = segments(render(fields));
        assert(sr == segments(r0 + body).push(Seq::<char>::empty()));
        assert forall|i: int| 0 <= i < fields.len() implies #[trigger] sr[i] == fields[i].0 + seq![
            '=',
        ] + fields[i].1 by {
            if i < f0.len() {
                assert(f0[i] == fields[i]);
                assert(sr[i] == segments(r0)[i]);
            }
        }
    }
}

/// A well-formed line reads as its key and value.
proof fn lemma_read_rendered_line(k: Seq<char>, v: Seq<char>)
    requires
        key_ok(k),
        value_ok(v),
    ensures
        read_line(k + seq!['='] + v) == LineReading::Entry(k, v),
{
    let line = k + seq!['='] + v;
    assert(line[0] == k[0]);
    assert(trim_start(line) == line);
    assert(!is_whitespace(line.last())) by {
        if v.len() > 0 {
            assert(line.last() == v.last());
        } else {
            assert(line.last() == '=');
        }
    }
    assert(trim_end(line) == line);
    lemma_first_index(line, '=');
    assert(line[k.len() as int] == '=');
    assert(line.contains('='));
    let i = first_index(line, '=')->0;
    assert(i == k.len()) by {
        if i < k.len() {
            assert(k[i] == line[i]);
            assert(k.contains('='));
        }
        if i > k.len() {
            assert(line[k.len() as int] != '=');
        }
    }
    assert(line.take(i) =~= k);
    assert(line.skip(i + 1) =~= v);
}

proof fn lemma_read_lines_rendered(fields: Seq<(Seq<char>, Seq<char>)>, n: int)
    requires
        fields_ok(fields),
        0 <= n <= fields.len(),
    ensures
        read_lines(segments(render(fields)).take(n)) == Ok::<Map<Seq<char>, Seq<char>>, Seq<char>>(
            fields_map(fields.take(n)),
        ),
    decreases n,
{
    lemma_segments_render(fields);
    let sr = segments(render(fields));
    if n == 0 {
        assert(sr.take(0) =~= Seq::<Seq<char>>::empty());
        assert(fields.take(0) =~= Seq::<(Seq<char>, Seq<char>)>::empty());
    } else {
        lemma_read_lines_rendered(fields, n - 1);
        assert(sr.take(n).drop_last() =~= sr.take(n - 1));
        assert(fields.take(n).drop_last() =~= fields.take(n - 1));
        assert(key_ok(fields[n - 1].0) && value_ok(fields[n - 1].1));
        lemma_read_rendered_line(fields[n - 1].0, fields[n - 1].1);
        assert(sr.take(n).last() == sr[n - 1]);
    }
}

/// Reading back a rendered payload gives exactly its fields.
pub proof fn lemma_render_roundtrip(fields: Seq<(Seq<char>, Seq<char>)>)
    requires
        fields_ok(fields),
    ensures
        read_payload(vstd::utf8::encode_utf8(render(fields))) == Ok::<
            Map<Seq<char>, Seq<char>>,
            Option<Seq<char>>,
        >(fields_map(fields)),
{
    broadcast use vstd::utf8::encode_utf8_valid_utf8, vstd::utf8::encode_utf8_decode_utf8;

    lemma_segments_render(fields);
    let sr = segments(render(fields));
    lemma_read_lines_rendered(fields, fields.len() as int);
    assert(sr.take(fields.len() as int) =~= sr.drop_last());
    assert(fields.take(fields.len() as int) =~= fields);
    assert(sr.last() == Seq::<char>::empty());
    assert(read_line(Seq::<char>::empty()) == LineReading::Blank);
}

/// With distinct keys, each key maps to its own value.
pub proof fn lemma_fields_map_distinct(fields: Seq<(Seq<char>, Seq<char>)>, i: int)
    requires
        0 <= i < fields.len(),
        forall|a: int, b: int|
            0 <= a < b < fields.len() ==> #[trigger] fields[a].0 != #[trigger] fields[b].0,
    ensures
        fields_map(fields).contains_key(fields[i].0),
        fields_map(fields)[fields[i].0] == fields[i].1,
    decreases fields.len(),
{
    if i < fields.len() - 1 {
        let f0 = fields.drop_last();
        assert forall|a: int, b: int| 0 <= a < b < f0.len() implies #[trigger] f0[a].0
            != #[trigger] f0[b].0 by {
            assert(f0[a] == fields[a] && f0[b] == fields[b]);
        }
        assert(f0[i] == fields[i]);
        lemma_fields_map_distinct(f0, i);
        assert(fields[i].0 != fields[fields.len() - 1].0);
    }
}

/// Rendering one more field appends its line.
pub proof fn lemma_render_push(fields: Seq<(Seq<char>, Seq<char>)>, k: Seq<char>, v: Seq<char>)
    ensures
        render(fields.push((k, v))) == render(fields) + render_line(k, v),
{
    assert(fields.push((k, v)).drop_last() =~= fields);
}

/// Rendering a list of fields piece by piece gives the rendering of the whole.
pub proof fn lemma_render_concat(a: Seq<(Seq<char>, Seq<char>)>, b: Seq<(Seq<char>, Seq<char>)>)
    ensures
        render(a + b) == render(a) + render(b),
    decreases b.len(),
{
    if b.len() == 0 {
        assert(a + b =~= a);
        assert(render(a) + render(b) =~= render(a));
    } else {
        lemma_render_concat(a, b.drop_last());
        assert((a + b).drop_last() =~= a + b.drop_last());
        assert((a + b).last() == b.last());
        assert(render(a + b) =~= render(a) + render(b));
    }
}

/// Appends the line `key=value` to `out`.
pub fn push_line(out: &mut Vec<char>, key: &str, value: &[char])
    ensures
        final(out)@ == old(out)@ + render_line(key@, value@),
{
    append_str(out, key);
    out.push('=');
    append_chars(out, value);
    out.push('\n');
    assert(final(out)@ =~= old(out)@ + render_line(key@, value@));
}

/// The text of a list of fields, rendered in order.
pub fn render_fields(fields: &Vec<(&str, Vec<char>)>) -> (out: Vec<char>)
    ensures
        out@ == render(fields@.map_values(|f: (&str, Vec<char>)| (f.0@, f.1@))),
{
    let ghost all = fields@.map_values(|f: (&str, Vec<char>)| (f.0@, f.1@));
    let mut out: Vec<char> = Vec::new();
    let mut i: usize = 0;
    while i < fields.len()
        invariant
            i <= fields@.len(),
            all == fields@.map_values(|f: (&str, Vec<char>)| (f.0@, f.1@)),
            out@ == render(all.take(i as int)),
        decreases fields@.len() - i,
    {
        let (k, v) = &fields[i];
        push_line(&mut out, k, v.as_slice());
        proof {
            lemma_render_push(all.take(i as int), k@, v@);
            assert(all.take(i + 1) =~= all.take(i as int).push((k@, v@)));
        }
        i = i + 1;
    }
    assert(all.take(i as int) =~= all);
    out
}

/// The UTF-8 bytes of a text.
pub fn utf8_bytes(text: &[char]) -> (bytes: Vec<u8>)
    ensures
        bytes@ == vstd::utf8::encode_utf8(text@),
{
    crate::text::utf8_encode(text)
}

} // verus!

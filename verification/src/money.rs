//! Money amounts: the Korean display of cash in 만원 units (억, 천만), the
//! obscured cash range shown to the requester, and the offer ceiling.
use vstd::prelude::*;
use crate::hashing::{fnv1a64_bytes, fnv_spec};
use crate::kv::utf8_bytes;
use crate::text::{append_chars, append_str, chars_of, dec, dec_padded, decimal, string_of};

verus! {

// ---------------------------------------------------------------------------
// Numerals with thousands separators
// ---------------------------------------------------------------------------

/// `s` with a comma before every group of three characters counted from the
/// right.
pub open spec fn group_thousands(s: Seq<char>) -> Seq<char>
    decreases s.len(),
{
    if s.len() <= 3 {
        s
    } else {
        group_thousands(s.subrange(0, s.len() - 3)) + seq![','] + s.subrange(s.len() - 3, s.len() as int)
    }
}

/// The decimal numeral of `n` with thousands separators.
pub open spec fn commas(n: nat) -> Seq<char> {
    group_thousands(dec(n))
}

pub(crate) proof fn lemma_dec_nonempty(n: nat)
    ensures
        dec(n).len() >= 1,
    decreases n,
{
    if n >= 10 {
        lemma_dec_nonempty(n / 10);
    }
}

/// Appends `n` with thousands separators to `out`.
fn push_commas(out: &mut Vec<char>, n: u64)
    ensures
        final(out)@ == old(out)@ + commas(n as nat),
{
    let d = decimal(n);
    proof {
        lemma_dec_nonempty(n as nat);
    }
    let len = d.len();
    let head: usize = (len - 1) % 3 + 1;
    let mut body: Vec<char> = Vec::new();
    let mut i: usize = 0;
    while i < head
        invariant
            i <= head <= 3,
            head <= len == d@.len(),
            body@ == d@.subrange(0, i as int),
        decreases head - i,
    {
        body.push(d[i]);
        assert(body@ =~= d@.subrange(0, i + 1));
        i = i + 1;
    }
    assert(body@ == group_thousands(d@.subrange(0, head as int)));
    while i < len
        invariant
            1 <= head <= i <= len == d@.len(),
            (len - i) % 3 == 0,
            body@ == group_thousands(d@.subrange(0, i as int)),
        decreases len - i,
    {
        let ghost t = d@.subrange(0, i + 3);
        assert(t.subrange(0, t.len() - 3) =~= d@.subrange(0, i as int));
        body.push(',');
        body.push(d[i]);
        body.push(d[i + 1]);
        body.push(d[i + 2]);
        assert(t.subrange(t.len() - 3, t.len() as int) =~= seq![d@[i as int], d@[i + 1], d@[i + 2]]);
        assert(body@ =~= group_thousands(t));
        i = i + 3;
    }
    assert(d@.subrange(0, len as int) =~= d@);
    append_chars(out, body.as_slice());
}

/// `n` with thousands separators (1234567 reads `1,234,567`).
pub fn format_commas(value: u64) -> (s: String)
    ensures
        s@ == commas(value as nat),
{
    let mut out: Vec<char> = Vec::new();
    push_commas(&mut out, value);
    assert(out@ =~= commas(value as nat));
    string_of(out.as_slice())
}

// ---------------------------------------------------------------------------
// 억 and 천만 numbers
// ---------------------------------------------------------------------------

/// `s` without its trailing zeros.
pub open spec fn strip_zeros(s: Seq<char>) -> Seq<char>
    decreases s.len(),
{
    if s.len() > 0 && s.last() == '0' {
        strip_zeros(s.drop_last())
    } else {
        s
    }
}

/// `whole` with separators, then, unless `frac` is zero, a point and the
/// `width`-digit fraction without its trailing zeros.
pub open spec fn decimal_fraction(whole: nat, frac: nat, width: nat) -> Seq<char> {
    if frac == 0 {
        commas(whole)
    } else {
        commas(whole) + seq!['.'] + strip_zeros(dec_padded(frac, width))
    }
}

/// An amount of 만원 units as 억 (10,000 units), with up to four decimals.
pub open spec fn eok_number(units: nat) -> Seq<char> {
    decimal_fraction(units / 10000, units % 10000, 4)
}

/// An amount of 만원 units as 천만 (1,000 units), with up to three decimals.
pub open spec fn cheoman_number(units: nat) -> Seq<char> {
    decimal_fraction(units / 1000, units % 1000, 3)
}

/// Appends `dec_padded(n, width)` without its trailing zeros.
fn push_fraction(out: &mut Vec<char>, n: u64, width: usize)
    ensures
        final(out)@ == old(out)@ + strip_zeros(dec_padded(n as nat, width as nat)),
{
    let d = decimal(n);
    let mut v: Vec<char> = Vec::new();
    if d.len() < width {
        let k = width - d.len();
        let mut i: usize = 0;
        while i < k
            invariant
                i <= k,
                v@ == Seq::new(i as nat, |j: int| '0'),
            decreases k - i,
        {
            v.push('0');
            assert(v@ =~= Seq::new((i + 1) as nat, |j: int| '0'));
            i = i + 1;
        }
    }
    append_chars(&mut v, d.as_slice());
    assert(v@ =~= dec_padded(n as nat, width as nat));
    let ghost full = v@;
    while v.len() > 0 && v[v.len() - 1] == '0'
        invariant
            strip_zeros(v@) == strip_zeros(full),
        decreases v@.len(),
    {
        let ghost before = v@;
        v.pop();
        assert(v@ =~= before.drop_last());
    }
    append_chars(out, v.as_slice());
}

/// Appends `decimal_fraction(units / div, units % div, width)`.
fn push_decimal_fraction(out: &mut Vec<char>, units: u64, div: u64, width: usize)
    requires
        div > 0,
    ensures
        final(out)@ == old(out)@ + decimal_fraction((units / div) as nat, (units % div) as nat, width as nat),
{
    let whole = units / div;
    let frac = units % div;
    push_commas(out, whole);
    if frac != 0 {
        out.push('.');
        push_fraction(out, frac, width);
    }
    assert(final(out)@ =~= old(out)@ + decimal_fraction((units / div) as nat, (units % div) as nat, width as nat));
}

/// 만원 units read as 억 (15000 reads `1.5`).
pub fn format_eok_number(units_manwon: u64) -> (s: String)
    ensures
        s@ == eok_number(units_manwon as nat),
{
    let mut out: Vec<char> = Vec::new();
    push_decimal_fraction(&mut out, units_manwon, 10000, 4);
    assert(out@ =~= eok_number(units_manwon as nat));
    string_of(out.as_slice())
}

/// 만원 units read as 천만 (1500 reads `1.5`).
pub fn format_cheoman_number(units_manwon: u64) -> (s: String)
    ensures
        s@ == cheoman_number(units_manwon as nat),
{
    let mut out: Vec<char> = Vec::new();
    push_decimal_fraction(&mut out, units_manwon, 1000, 3);
    assert(out@ =~= cheoman_number(units_manwon as nat));
    string_of(out.as_slice())
}

/// The display of a cash amount: `0원`, so many 천만 원 below one 억, else
/// so many 억 원.
pub open spec fn cash_amount_text(units: nat) -> Seq<char> {
    if units == 0 {
        "0원"@
    } else if units <= 9999 {
        cheoman_number(units) + "천만 원"@
    } else {
        eok_number(units) + "억 원"@
    }
}

pub fn format_eok_amount(units_manwon: u64) -> (s: String)
    ensures
        s@ == eok_number(units_manwon as nat) + "억 원"@,
{
    let mut out: Vec<char> = Vec::new();
    push_decimal_fraction(&mut out, units_manwon, 10000, 4);
    append_str(&mut out, "억 원");
    string_of(out.as_slice())
}

pub fn format_cash_amount(units_manwon: u64) -> (s: String)
    ensures
        s@ == cash_amount_text(units_manwon as nat),
{
    let mut out: Vec<char> = Vec::new();
    if units_manwon == 0 {
        append_str(&mut out, "0원");
    } else if units_manwon <= 9_999 {
        push_decimal_fraction(&mut out, units_manwon, 1000, 3);
        append_str(&mut out, "천만 원");
    } else {
        push_decimal_fraction(&mut out, units_manwon, 10000, 4);
        append_str(&mut out, "억 원");
    }
    assert(out@ =~= cash_amount_text(units_manwon as nat));
    string_of(out.as_slice())
}

/// A bucket boundary: whole 억 with separators, then the 천 digit.
pub open spec fn eok_cheoman_bucket(units: nat) -> Seq<char> {
    commas(units / 10000) + "억 "@ + dec((units % 10000) / 1000) + "천"@
}

fn push_bucket(out: &mut Vec<char>, units: u64)
    ensures
        final(out)@ == old(out)@ + eok_cheoman_bucket(units as nat),
{
    push_commas(out, units / 10_000);
    append_str(out, "억 ");
    let d = decimal((units % 10_000) / 1_000);
    append_chars(out, d.as_slice());
    append_str(out, "천");
    assert(final(out)@ =~= old(out)@ + eok_cheoman_bucket(units as nat));
}

pub fn format_eok_cheoman_bucket(units_manwon: u64) -> (s: String)
    ensures
        s@ == eok_cheoman_bucket(units_manwon as nat),
{
    let mut out: Vec<char> = Vec::new();
    push_bucket(&mut out, units_manwon);
    assert(out@ =~= eok_cheoman_bucket(units_manwon as nat));
    string_of(out.as_slice())
}

/// `<min bucket> ~ <max bucket>`.
pub fn format_cash_range(min_units: u64, max_units: u64) -> (s: String)
    ensures
        s@ == eok_cheoman_bucket(min_units as nat) + " ~ "@ + eok_cheoman_bucket(max_units as nat),
{
    let mut out: Vec<char> = Vec::new();
    push_bucket(&mut out, min_units);
    append_str(&mut out, " ~ ");
    push_bucket(&mut out, max_units);
    assert(out@ =~= eok_cheoman_bucket(min_units as nat) + " ~ "@ + eok_cheoman_bucket(max_units as nat));
    string_of(out.as_slice())
}

/// A yearly salary given in tenths of 억 (rounded from the amount in won):
/// whole 억 with separators, and the tenth unless it is zero, then `억원`.
pub open spec fn salary_tenths_text(tenths: nat) -> Seq<char> {
    if tenths % 10 == 0 {
        commas(tenths / 10) + "억원"@
    } else {
        commas(tenths / 10) + seq!['.'] + dec(tenths % 10) + "억원"@
    }
}

pub fn format_salary_tenths(tenths: u64) -> (s: String)
    ensures
        s@ == salary_tenths_text(tenths as nat),
{
    let mut out: Vec<char> = Vec::new();
    push_commas(&mut out, tenths / 10);
    if tenths % 10 != 0 {
        out.push('.');
        append_chars(&mut out, decimal(tenths % 10).as_slice());
    }
    append_str(&mut out, "억원");
    assert(out@ =~= salary_tenths_text(tenths as nat));
    string_of(out.as_slice())
}

// ---------------------------------------------------------------------------
// The obscured cash range
// ---------------------------------------------------------------------------

/// `x` saturated to `u64`.
pub open spec fn sat(x: int) -> int {
    if x > u64::MAX { u64::MAX as int } else { x }
}

/// `a * b`, saturated to `u64::MAX`.
pub fn saturating_mul_u64(a: u64, b: u64) -> (r: u64)
    ensures
        r as int == sat(a as int * b as int),
{
    match a.checked_mul(b) {
        Some(v) => v,
        None => u64::MAX,
    }
}

/// The most cash an offer may carry: twice the requirement (saturating), at
/// most the budget.
pub open spec fn offer_ceiling(required_units: nat, budget_units: nat) -> int {
    let twice = sat(2 * required_units as int);
    if twice < budget_units { twice } else { budget_units as int }
}

pub fn cash_offer_max_units(required_units: u64, budget_units: u64) -> (r: u64)
    ensures
        r == offer_ceiling(required_units as nat, budget_units as nat),
{
    let twice = saturating_mul_u64(required_units, 2);
    if twice < budget_units { twice } else { budget_units }
}

/// The text whose hash seeds the range for a pair of teams and players.
pub open spec fn range_salt(requester: nat, recipient: nat, offered: nat, target: nat) -> Seq<char> {
    "PTS76_RANGE_SALT_8D41A3|requester="@ + dec(requester) + "|recipient="@ + dec(recipient)
        + "|offered="@ + dec(offered) + "|target="@ + dec(target)
}

/// The seed of the range: FNV-1a of the salt's UTF-8 bytes.
pub open spec fn range_seed(requester: nat, recipient: nat, offered: nat, target: nat) -> u64 {
    fnv_spec(vstd::utf8::encode_utf8(range_salt(requester, recipient, offered, target)))
}

/// `x` rotated left by 23 bits.
pub open spec fn rotl23(x: u64) -> u64 {
    (x << 23u64) | (x >> 41u64)
}

/// The obscured range for a requirement of `required` units and a seed:
/// `(display_min, display_max, lower_percent, upper_percent)`.  The lower
/// percent is 70 to 80, the upper 150 to 160; the bounds are the requirement
/// scaled by them (saturating; the lower rounded down, the upper up) and then
/// widened to whole 천만 (1,000 units).
pub open spec fn cash_range(required: nat, seed: u64) -> (int, int, int, int) {
    if required == 0 {
        (0, 0, 0, 0)
    } else {
        let lower_percent = 70 + seed % 11;
        let upper_percent = 150 + rotl23(seed) % 11;
        let lower_raw = sat(required as int * lower_percent) / 100;
        let upper_raw = sat(sat(required as int * upper_percent) + 99) / 100;
        ((lower_raw / 1000) * 1000, (sat(upper_raw + 999) / 1000) * 1000, lower_percent, upper_percent)
    }
}

/// The range shown to the requester in place of the exact requirement: stable
/// for the same teams and players, and containing the requirement.
pub fn stable_obscured_cash_range(
    required_units: u64,
    requester_team_id: usize,
    recipient_team_id: usize,
    offered_id: usize,
    target_id: usize,
) -> (r: (u64, u64, u8, u8))
    ensures
        (r.0 as int, r.1 as int, r.2 as int, r.3 as int) == cash_range(
            required_units as nat,
            range_seed(requester_team_id as nat, recipient_team_id as nat, offered_id as nat, target_id as nat),
        ),
{
    if required_units == 0 {
        return (0, 0, 0, 0);
    }
    let mut salt: Vec<char> = Vec::new();
    append_str(&mut salt, "PTS76_RANGE_SALT_8D41A3|requester=");
    append_chars(&mut salt, decimal(requester_team_id as u64).as_slice());
    append_str(&mut salt, "|recipient=");
    append_chars(&mut salt, decimal(recipient_team_id as u64).as_slice());
    append_str(&mut salt, "|offered=");
    append_chars(&mut salt, decimal(offered_id as u64).as_slice());
    append_str(&mut salt, "|target=");
    append_chars(&mut salt, decimal(target_id as u64).as_slice());
    assert(salt@ =~= range_salt(requester_team_id as nat, recipient_team_id as nat, offered_id as nat, target_id as nat));
    let bytes = utf8_bytes(salt.as_slice());
    let seed = fnv1a64_bytes(bytes.as_slice());
    let lower_percent: u8 = 70u8 + (seed % 11) as u8;
    let rotated: u64 = (seed << 23u64) | (seed >> 41u64);
    let upper_percent: u8 = 150u8 + (rotated % 11) as u8;
    let lower_raw = saturating_mul_u64(required_units, lower_percent as u64) / 100;
    let upper_raw = saturating_mul_u64(required_units, upper_percent as u64).saturating_add(99) / 100;
    let display_min_units = saturating_mul_u64(lower_raw / 1_000, 1_000);
    let display_max_units = upper_raw.saturating_add(999) / 1_000 * 1_000;
    (display_min_units, display_max_units, lower_percent, upper_percent)
}

/// For a requirement that does not saturate, the range contains it.
pub proof fn lemma_cash_range_contains(required: nat, seed: u64)
    requires
        0 < required,
        required * 160 + 99 <= u64::MAX,
    ensures
        cash_range(required, seed).0 <= required <= cash_range(required, seed).1,
{
    let lp = 70 + seed % 11;
    let up = 150 + rotl23(seed) % 11;
    assert(required * lp <= required * 80) by (nonlinear_arith)
        requires
            lp <= 80,
    ;
    assert(required * 150 <= required * up) by (nonlinear_arith)
        requires
            150 <= up,
    ;
    assert(required * up <= required * 160) by (nonlinear_arith)
        requires
            up <= 160,
    ;
    let lower_raw = (required * lp) / 100;
    let upper_raw = (required * up + 99) / 100;
    assert(lower_raw <= required);
    assert(upper_raw >= required);
}

} // verus!

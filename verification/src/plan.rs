//! Plan ids (`T60-` and sixteen hexadecimal digits) and the registry of
//! executed plans kept in the save data.
use vstd::prelude::*;
use crate::text::{chars_of, is_hex_digit};

verus! {

/// A plan id: `T60-` followed by sixteen hexadecimal digits.
pub open spec fn plan_id_ok(s: Seq<char>) -> bool {
    &&& s.len() == 20
    &&& s[0] == 'T' && s[1] == '6' && s[2] == '0' && s[3] == '-'
    &&& forall|i: int| 4 <= i < 20 ==> is_hex_digit(#[trigger] s[i])
}

/// Whether the characters form a plan id.
pub fn plan_id_chars_ok(s: &[char]) -> (b: bool)
    ensures
        b == plan_id_ok(s@),
{
    if s.len() != 20 {
        return false;
    }
    if !(s[0] == 'T' && s[1] == '6' && s[2] == '0' && s[3] == '-') {
        return false;
    }
    let mut i: usize = 4;
    while i < 20
        invariant
            4 <= i <= 20,
            s@.len() == 20,
            forall|j: int| 4 <= j < i ==> is_hex_digit(#[trigger] s@[j]),
        decreases 20 - i,
    {
        let c = s[i];
        if !(('0' <= c && c <= '9') || ('a' <= c && c <= 'f') || ('A' <= c && c <= 'F')) {
            assert(!is_hex_digit(s@[i as int]));
            return false;
        }
        i = i + 1;
    }
    true
}

/// Whether a plan id is well formed: twenty bytes, `T60-`, then ASCII
/// hexadecimal digits (for such text bytes and characters coincide).
pub fn valid_test60_plan_id(plan_id: &str) -> (b: bool)
    ensures
        b == plan_id_ok(plan_id@),
{
    let v = chars_of(plan_id);
    plan_id_chars_ok(v.as_slice())
}

} // verus!

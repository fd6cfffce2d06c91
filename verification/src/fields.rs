//! Reading typed fields out of a parsed payload, with the error that the first
//! missing or malformed field gives.
use vstd::prelude::*;
use crate::kv::{KvError, KvPayload};
use crate::text::{chars_of, dec, hex_fixed, all_digits, all_hex_digits, is_digit, is_hex_digit, is_whitespace, parse_decimal, parse_hex, parse_hex_u64, parse_unsigned, string_of, lemma_dec_shape, lemma_hex_fixed_shape};
use crate::kv::value_ok;

verus! {

/// Why a stored or received payload could not be decoded.
#[derive(Debug, PartialEq, Eq)]
pub enum DecodeError {
    /// The bytes are not UTF-8.
    InvalidUtf8,
    /// A line has no `=`.
    NoEquals(String),
    /// A required key is absent.
    MissingKey(String),
    /// The value of this key is not a number of its type.
    InvalidNumber(String),
    /// The number under this key does not fit its field.
    OutOfRange(String),
    /// The proposal state is not one of the five names.
    UnknownState(String),
    /// The schema version is not supported.
    UnsupportedSchema(u64),
    /// The schema version or the plan id of a receipt is invalid.
    InvalidReceipt,
    /// A boolean field is neither `true` nor `false`.
    InvalidBool(String, String),
}

/// The same, over sequences.
pub enum DecodeFault {
    InvalidUtf8,
    NoEquals(Seq<char>),
    MissingKey(Seq<char>),
    InvalidNumber(Seq<char>),
    OutOfRange(Seq<char>),
    UnknownState(Seq<char>),
    UnsupportedSchema(nat),
    InvalidReceipt,
    InvalidBool(Seq<char>, Seq<char>),
}

impl View for DecodeError {
    type V = DecodeFault;

    open spec fn view(&self) -> DecodeFault {
        match self {
            DecodeError::InvalidUtf8 => DecodeFault::InvalidUtf8,
            DecodeError::NoEquals(l) => DecodeFault::NoEquals(l@),
            DecodeError::MissingKey(k) => DecodeFault::MissingKey(k@),
            DecodeError::InvalidNumber(k) => DecodeFault::InvalidNumber(k@),
            DecodeError::OutOfRange(k) => DecodeFault::OutOfRange(k@),
            DecodeError::UnknownState(v) => DecodeFault::UnknownState(v@),
            DecodeError::UnsupportedSchema(n) => DecodeFault::UnsupportedSchema(*n as nat),
            DecodeError::InvalidReceipt => DecodeFault::InvalidReceipt,
            DecodeError::InvalidBool(k, v) => DecodeFault::InvalidBool(k@, v@),
        }
    }
}

/// The fault that a payload read error becomes.
pub open spec fn payload_fault(e: Option<Seq<char>>) -> DecodeFault {
    match e {
        None => DecodeFault::InvalidUtf8,
        Some(l) => DecodeFault::NoEquals(l),
    }
}

pub fn from_kv_error(e: KvError) -> (d: DecodeError)
    ensures
        e matches KvError::InvalidUtf8 ==> d@ == DecodeFault::InvalidUtf8,
        e matches KvError::NoEquals(l) ==> d@ == DecodeFault::NoEquals(l@),
{
    match e {
        KvError::InvalidUtf8 => DecodeError::InvalidUtf8,
        KvError::NoEquals(l) => DecodeError::NoEquals(l),
    }
}

/// A required text field.
pub open spec fn need_text(m: Map<Seq<char>, Seq<char>>, k: Seq<char>) -> Option<DecodeFault> {
    if m.contains_key(k) {
        None
    } else {
        Some(DecodeFault::MissingKey(k))
    }
}

/// A required unsigned field, read as Rust reads an integer whose maximum is `max`.
pub open spec fn need_num(m: Map<Seq<char>, Seq<char>>, k: Seq<char>, max: nat) -> Option<DecodeFault> {
    if !m.contains_key(k) {
        Some(DecodeFault::MissingKey(k))
    } else if parse_unsigned(m[k], max) is None {
        Some(DecodeFault::InvalidNumber(k))
    } else {
        None
    }
}

/// The number stored under `k`.
pub open spec fn num_of(m: Map<Seq<char>, Seq<char>>, k: Seq<char>) -> nat {
    parse_unsigned(m[k], u64::MAX as nat)->0
}

/// A number already read that must not exceed `max` (`T::try_from`).
pub open spec fn need_at_most(m: Map<Seq<char>, Seq<char>>, k: Seq<char>, max: nat) -> Option<DecodeFault> {
    if num_of(m, k) > max {
        Some(DecodeFault::OutOfRange(k))
    } else {
        None
    }
}

/// A required hexadecimal `u64` field.
pub open spec fn need_hex(m: Map<Seq<char>, Seq<char>>, k: Seq<char>) -> Option<DecodeFault> {
    if !m.contains_key(k) {
        Some(DecodeFault::MissingKey(k))
    } else if parse_hex_u64(m[k]) is None {
        Some(DecodeFault::InvalidNumber(k))
    } else {
        None
    }
}

pub open spec fn hex_of(m: Map<Seq<char>, Seq<char>>, k: Seq<char>) -> nat {
    parse_hex_u64(m[k])->0
}

/// A required `true`/`false` field.
pub open spec fn need_bool(m: Map<Seq<char>, Seq<char>>, k: Seq<char>) -> Option<DecodeFault> {
    if !m.contains_key(k) {
        Some(DecodeFault::MissingKey(k))
    } else if m[k] == seq!['t', 'r', 'u', 'e'] || m[k] == seq!['f', 'a', 'l', 's', 'e'] {
        None
    } else {
        Some(DecodeFault::InvalidBool(k, m[k]))
    }
}

pub open spec fn bool_of(m: Map<Seq<char>, Seq<char>>, k: Seq<char>) -> bool {
    m[k] == seq!['t', 'r', 'u', 'e']
}

/// Reads a required text field.
pub fn text_field(m: &KvPayload, key: &str) -> (r: Result<String, DecodeError>)
    ensures
        match need_text(m@, key@) {
            None => r matches Ok(s) && s@ == m@[key@],
            Some(f) => r matches Err(e) && e@ == f,
        },
{
    match m.get_str(key) {
        Some(v) => Ok(string_of(v.as_slice())),
        None => {
            let k = chars_of(key);
            Err(DecodeError::MissingKey(string_of(k.as_slice())))
        },
    }
}

/// Reads a required unsigned field whose type's maximum is `max`.
pub fn num_field(m: &KvPayload, key: &str, max: u64) -> (r: Result<u64, DecodeError>)
    ensures
        match need_num(m@, key@, max as nat) {
            None => r matches Ok(n) && n as nat == parse_unsigned(m@[key@], max as nat)->0,
            Some(f) => r matches Err(e) && e@ == f,
        },
{
    match m.get_str(key) {
        Some(v) => match parse_decimal(v.as_slice(), max) {
            Some(n) => Ok(n),
            None => {
                let k = chars_of(key);
                Err(DecodeError::InvalidNumber(string_of(k.as_slice())))
            },
        },
        None => {
            let k = chars_of(key);
            Err(DecodeError::MissingKey(string_of(k.as_slice())))
        },
    }
}

/// A value read with a smaller maximum is the same value read as `u64`.
pub proof fn lemma_parse_unsigned_max(s: Seq<char>, small: nat, large: nat)
    requires
        small <= large,
        parse_unsigned(s, small) is Some,
    ensures
        parse_unsigned(s, large) == parse_unsigned(s, small),
{
}

/// Checks that a number already read fits `max`.
pub fn at_most(n: u64, key: &str, max: u64) -> (r: Result<(), DecodeError>)
    ensures
        n <= max ==> r is Ok,
        n > max ==> (r matches Err(e) && e@ == DecodeFault::OutOfRange(key@)),
{
    if n > max {
        let k = chars_of(key);
        Err(DecodeError::OutOfRange(string_of(k.as_slice())))
    } else {
        Ok(())
    }
}

/// Reads a required hexadecimal field.
pub fn hex_field(m: &KvPayload, key: &str) -> (r: Result<u64, DecodeError>)
    ensures
        match need_hex(m@, key@) {
            None => r matches Ok(n) && n as nat == hex_of(m@, key@),
            Some(f) => r matches Err(e) && e@ == f,
        },
{
    match m.get_str(key) {
        Some(v) => match parse_hex(v.as_slice()) {
            Some(n) => Ok(n),
            None => {
                let k = chars_of(key);
                Err(DecodeError::InvalidNumber(string_of(k.as_slice())))
            },
        },
        None => {
            let k = chars_of(key);
            Err(DecodeError::MissingKey(string_of(k.as_slice())))
        },
    }
}

/// Reads a required `true`/`false` field.
pub fn bool_field(m: &KvPayload, key: &str) -> (r: Result<bool, DecodeError>)
    ensures
        match need_bool(m@, key@) {
            None => r matches Ok(b) && b == bool_of(m@, key@),
            Some(f) => r matches Err(e) && e@ == f,
        },
{
    let t = chars_of("true");
    let f = chars_of("false");
    proof {
        reveal_strlit("true");
        reveal_strlit("false");
        assert(t@ =~= seq!['t', 'r', 'u', 'e']);
        assert(f@ =~= seq!['f', 'a', 'l', 's', 'e']);
    }
    match m.get_str(key) {
        Some(v) => {
            if crate::text::chars_eq(v.as_slice(), t.as_slice()) {
                Ok(true)
            } else if crate::text::chars_eq(v.as_slice(), f.as_slice()) {
                Ok(false)
            } else {
                let k = chars_of(key);
                Err(DecodeError::InvalidBool(string_of(k.as_slice()), string_of(v.as_slice())))
            }
        },
        None => {
            let k = chars_of(key);
            Err(DecodeError::MissingKey(string_of(k.as_slice())))
        },
    }
}

/// A printed number is a value that reads back.
pub proof fn lemma_dec_value_ok(n: nat)
    ensures
        value_ok(dec(n)),
{
    lemma_dec_shape(n);
    let d = dec(n);
    assert(!d.contains('\n')) by {
        if d.contains('\n') {
            let j = choose|j: int| 0 <= j < d.len() && d[j] == '\n';
            assert(is_digit(d[j]));
        }
    }
    assert(is_digit(d[d.len() - 1]));
}

/// A printed hexadecimal number is a value that reads back.
pub proof fn lemma_hex_value_ok(n: nat)
    ensures
        value_ok(hex_fixed(n, 16)),
{
    lemma_hex_fixed_shape(n, 16);
    let d = hex_fixed(n, 16);
    assert(!d.contains('\n')) by {
        if d.contains('\n') {
            let j = choose|j: int| 0 <= j < d.len() && d[j] == '\n';
            assert(is_hex_digit(d[j]));
        }
    }
    assert(is_hex_digit(d[d.len() - 1]));
}

} // verus!

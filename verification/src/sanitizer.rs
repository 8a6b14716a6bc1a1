//! Field-level input checks: the format rules for addresses, hashes, chain
//! and device identifiers, numbers, booleans and bounded strings, and the
//! scan of every string in a request for injection patterns.
use vstd::prelude::*;
use crate::collections::StrMap;
use crate::middleware::{input_verdict, ComprehensiveSecurityMiddlewareService};
use crate::security::{valid_device_id_chars, validate_device_id};
use crate::text::{chars_of, concat2, concat3, decimal, owned, parse_unsigned, parse_unsigned_chars, str_eq, texts, u64_to_string};

verus! {

/// A JSON value as the checks see it: strings keep their text, other kinds
/// only their kind.
#[derive(Debug, Clone)]
pub enum JsonValue {
    Null,
    Bool(bool),
    Number,
    Str(String),
    /// An array or an object.
    Other,
}

/// The view of a `JsonValue`: strings as character sequences.
pub enum JsonView {
    Null,
    Bool(bool),
    Number,
    Str(Seq<char>),
    Other,
}

impl View for JsonValue {
    type V = JsonView;

    open spec fn view(&self) -> JsonView {
        match self {
            JsonValue::Null => JsonView::Null,
            JsonValue::Bool(b) => JsonView::Bool(*b),
            JsonValue::Number => JsonView::Number,
            JsonValue::Str(s) => JsonView::Str(s@),
            JsonValue::Other => JsonView::Other,
        }
    }
}

/// The outcome of checking a whole request.
pub struct ValidationResult {
    pub valid: bool,
    pub errors: Vec<String>,
    pub warnings: Vec<String>,
}

/// The field checker. Strings checked without an explicit limit may hold at
/// most `max_string_length` characters.
pub struct InputSanitizer {
    pub max_string_length: usize,
}

/// The limit on strings checked without an explicit one.
pub const DEFAULT_MAX_STRING_LENGTH: usize = 1000;

/// An ASCII hexadecimal digit.
pub open spec fn is_hex_digit(c: char) -> bool {
    ('0' <= c && c <= '9') || ('a' <= c && c <= 'f') || ('A' <= c && c <= 'F')
}

/// `s` is `0x` followed by at least one hexadecimal digit and nothing else.
pub open spec fn is_hex_string(s: Seq<char>) -> bool {
    &&& s.len() >= 3
    &&& s[0] == '0'
    &&& s[1] == 'x'
    &&& forall|i: int| 2 <= i < s.len() ==> #[trigger] is_hex_digit(s[i])
}

/// The problem with a string under the length limit `max`, if any.
pub open spec fn string_verdict(s: Seq<char>, max: nat) -> Option<Seq<char>> {
    if s.len() > max {
        Some("String exceeds maximum length of "@ + decimal(max))
    } else {
        None
    }
}

/// The problem with an account address: it must be `0x` and 40 hex digits.
pub open spec fn address_verdict(s: Seq<char>) -> Option<Seq<char>> {
    if is_hex_string(s) && s.len() == 42 {
        None
    } else {
        Some("Invalid Ethereum address format"@)
    }
}

/// The problem with a hash or signed transaction: it must be `0x` and hex digits.
pub open spec fn hash_verdict(s: Seq<char>) -> Option<Seq<char>> {
    if is_hex_string(s) {
        None
    } else {
        Some("Invalid hash format"@)
    }
}

/// The problem with a chain identifier: a positive decimal `u64`.
pub open spec fn chain_id_verdict(s: Seq<char>) -> Option<Seq<char>> {
    match parse_unsigned(s, u64::MAX as nat) {
        Some(v) => if v > 0 { None } else { Some("Invalid chain ID"@) },
        None => Some("Invalid chain ID"@),
    }
}

/// The problem with a device identifier (see `valid_device_id_chars`).
pub open spec fn device_id_verdict(s: Seq<char>) -> Option<Seq<char>> {
    if valid_device_id_chars(s) {
        None
    } else {
        Some("Invalid device ID format"@)
    }
}

/// The problem with a number: an unsigned decimal `u64`, within the bounds given.
pub open spec fn number_verdict(s: Seq<char>, min: Option<u64>, max: Option<u64>) -> Option<Seq<char>> {
    match parse_unsigned(s, u64::MAX as nat) {
        Some(v) => {
            if (min is Some && v < min->0) || (max is Some && v > max->0) {
                Some("Number out of range"@)
            } else {
                None
            }
        },
        None => Some("Invalid number format"@),
    }
}

/// The problem with a boolean: exactly `true` or `false`.
pub open spec fn boolean_verdict(s: Seq<char>) -> Option<Seq<char>> {
    if s == "true"@ || s == "false"@ {
        None
    } else {
        Some("Invalid boolean value"@)
    }
}

/// A check's answer as a `Result`: the accepted text, or the problem.
pub open spec fn verdict_matches(r: Result<String, String>, input: Seq<char>, v: Option<Seq<char>>) -> bool {
    match r {
        Ok(s) => v is None && s@ == input,
        Err(e) => v == Some(e@),
    }
}

/// The views of the string entries of a key/value list, in order.
pub open spec fn string_entries(p: Seq<(Seq<char>, String)>) -> Seq<(Seq<char>, Seq<char>)> {
    p.map_values(|e: (Seq<char>, String)| (e.0, e.1@))
}

/// The string-valued entries of a JSON object, in order.
pub open spec fn json_string_entries(p: Seq<(Seq<char>, JsonValue)>) -> Seq<(Seq<char>, Seq<char>)>
    decreases p.len(),
{
    if p.len() == 0 {
        Seq::empty()
    } else {
        let rest = json_string_entries(p.drop_last());
        match p.last().1 {
            JsonValue::Str(s) => rest.push((p.last().0, s@)),
            _ => rest,
        }
    }
}

/// The injection findings for a list of (name, text) entries, in order.
pub open spec fn injection_errors(p: Seq<(Seq<char>, Seq<char>)>) -> Seq<Seq<char>>
    decreases p.len(),
{
    if p.len() == 0 {
        Seq::empty()
    } else {
        let rest = injection_errors(p.drop_last());
        match input_verdict(p.last().1) {
            Some(e) => rest.push("Suspicious input in field "@ + p.last().0 + ": "@ + e),
            None => rest,
        }
    }
}

/// Every injection finding in a request: body strings, then path
/// parameters, then query parameters.
pub open spec fn request_injection_errors(
    body: Seq<(Seq<char>, JsonValue)>,
    params: Seq<(Seq<char>, String)>,
    query: Seq<(Seq<char>, String)>,
) -> Seq<Seq<char>> {
    injection_errors(json_string_entries(body)) + injection_errors(string_entries(params))
        + injection_errors(string_entries(query))
}

impl InputSanitizer {
    /// A checker with the default string limit.
    pub fn new() -> (s: Self)
        ensures
            s.max_string_length == DEFAULT_MAX_STRING_LENGTH,
    {
        InputSanitizer { max_string_length: DEFAULT_MAX_STRING_LENGTH }
    }

    /// Checks a string against `max_length`, or the default limit when none is given.
    pub fn sanitize_string(&self, s: &str, max_length: Option<usize>) -> (r: Result<String, String>)
        ensures
            verdict_matches(r, s@, string_verdict(s@, (match max_length { Some(m) => m, None => self.max_string_length }) as nat)),
    {
        let max = match max_length {
            Some(m) => m,
            None => self.max_string_length,
        };
        let n = s.unicode_len();
        if n > max {
            Err(concat2("String exceeds maximum length of ", u64_to_string(max as u64).as_str()))
        } else {
            Ok(owned(s))
        }
    }

    /// Checks an account address (see `address_verdict`).
    pub fn sanitize_address(&self, s: &str) -> (r: Result<String, String>)
        ensures
            verdict_matches(r, s@, address_verdict(s@)),
    {
        if hex_string(s) && s.unicode_len() == 42 {
            Ok(owned(s))
        } else {
            Err(owned("Invalid Ethereum address format"))
        }
    }

    /// Checks a hash or signed transaction (see `hash_verdict`).
    pub fn sanitize_hash(&self, s: &str) -> (r: Result<String, String>)
        ensures
            verdict_matches(r, s@, hash_verdict(s@)),
    {
        if hex_string(s) {
            Ok(owned(s))
        } else {
            Err(owned("Invalid hash format"))
        }
    }

    /// Checks a chain identifier (see `chain_id_verdict`).
    pub fn sanitize_chain_id(&self, s: &str) -> (r: Result<String, String>)
        ensures
            verdict_matches(r, s@, chain_id_verdict(s@)),
    {
        let cs = chars_of(s);
        match parse_unsigned_chars(&cs, u64::MAX) {
            Some(v) => {
                if v > 0 {
                    Ok(owned(s))
                } else {
                    Err(owned("Invalid chain ID"))
                }
            },
            None => Err(owned("Invalid chain ID")),
        }
    }

    /// Checks a device identifier (see `device_id_verdict`).
    pub fn sanitize_device_id(&self, s: &str) -> (r: Result<String, String>)
        ensures
            verdict_matches(r, s@, device_id_verdict(s@)),
    {
        if validate_device_id(s) {
            Ok(owned(s))
        } else {
            Err(owned("Invalid device ID format"))
        }
    }

    /// Checks a number against the optional bounds (see `number_verdict`).
    pub fn sanitize_number(&self, s: &str, min: Option<u64>, max: Option<u64>) -> (r: Result<String, String>)
        ensures
            verdict_matches(r, s@, number_verdict(s@, min, max)),
    {
        let cs = chars_of(s);
        match parse_unsigned_chars(&cs, u64::MAX) {
            Some(v) => {
                let below = match min {
                    Some(m) => v < m,
                    None => false,
                };
                let above = match max {
                    Some(m) => v > m,
                    None => false,
                };
                if below || above {
                    Err(owned("Number out of range"))
                } else {
                    Ok(owned(s))
                }
            },
            None => Err(owned("Invalid number format")),
        }
    }

    /// Checks a boolean (see `boolean_verdict`).
    pub fn sanitize_boolean(&self, s: &str) -> (r: Result<String, String>)
        ensures
            verdict_matches(r, s@, boolean_verdict(s@)),
    {
        if str_eq(s, "true") || str_eq(s, "false") {
            Ok(owned(s))
        } else {
            Err(owned("Invalid boolean value"))
        }
    }

    /// Scans every string of a request for injection patterns (see
    /// `request_injection_errors`); the request is valid when none is found.
    pub fn validate_request(
        &self,
        body: &StrMap<JsonValue>,
        params: &StrMap<String>,
        query: &StrMap<String>,
    ) -> (r: ValidationResult)
        ensures
            texts(r.errors@) == request_injection_errors(body.pairs(), params.pairs(), query.pairs()),
            r.valid == (r.errors@.len() == 0),
            r.warnings@.len() == 0,
    {
        let mut errors: Vec<String> = Vec::new();
        scan_json(body, &mut errors);
        scan_strings(params, &mut errors);
        scan_strings(query, &mut errors);
        assert(texts(errors@) =~= request_injection_errors(body.pairs(), params.pairs(), query.pairs()));
        let valid = errors.len() == 0;
        ValidationResult { valid, errors, warnings: Vec::new() }
    }
}

/// Whether `s` is `0x` followed by hexadecimal digits only (see `is_hex_string`).
fn hex_string(s: &str) -> (r: bool)
    ensures
        r == is_hex_string(s@),
{
    let cs = chars_of(s);
    if cs.len() < 3 || cs[0] != '0' || cs[1] != 'x' {
        return false;
    }
    let mut i: usize = 2;
    while i < cs.len()
        invariant
            cs@ == s@,
            2 <= i <= cs.len(),
            forall|k: int| 2 <= k < i ==> #[trigger] is_hex_digit(cs@[k]),
        decreases cs.len() - i,
    {
        let c = cs[i];
        if !(('0' <= c && c <= '9') || ('a' <= c && c <= 'f') || ('A' <= c && c <= 'F')) {
            assert(!is_hex_digit(s@[i as int]));
            return false;
        }
        i = i + 1;
    }
    true
}

/// Appends the finding for one (name, text) entry, if there is one.
fn scan_entry(name: &str, value: &str, errors: &mut Vec<String>)
    ensures
        texts(final(errors)@) == match input_verdict(value@) {
            Some(e) => texts(old(errors)@).push("Suspicious input in field "@ + name@ + ": "@ + e),
            None => texts(old(errors)@),
        },
{
    match ComprehensiveSecurityMiddlewareService::validate_input(value) {
        Ok(_) => {},
        Err(e) => {
            let msg = concat2(concat3("Suspicious input in field ", name, ": ").as_str(), e.as_str());
            let ghost before = errors@;
            errors.push(msg);
            assert(texts(errors@) =~= texts(before).push(msg@));
        },
    }
}

/// Appends the findings for the string members of a JSON object.
fn scan_json(body: &StrMap<JsonValue>, errors: &mut Vec<String>)
    ensures
        texts(final(errors)@) == texts(old(errors)@) + injection_errors(json_string_entries(body.pairs())),
{
    let n = body.len();
    let mut i: usize = 0;
    assert(body.pairs().subrange(0, 0) =~= Seq::<(Seq<char>, JsonValue)>::empty());
    assert(texts(errors@) =~= texts(old(errors)@) + injection_errors(json_string_entries(body.pairs().subrange(0, 0))));
    while i < n
        invariant
            n == body.pairs().len(),
            i <= n,
            texts(errors@) == texts(old(errors)@) + injection_errors(json_string_entries(body.pairs().subrange(0, i as int))),
        decreases n - i,
    {
        let (name, value) = body.entry_at(i);
        let ghost pre = body.pairs().subrange(0, i as int);
        let ghost next = body.pairs().subrange(0, i + 1);
        assert(next.drop_last() =~= pre);
        match value {
            JsonValue::Str(s) => {
                scan_entry(name.as_str(), s.as_str(), errors);
                assert(json_string_entries(next) == json_string_entries(pre).push((name@, s@)));
                assert(json_string_entries(next).drop_last() =~= json_string_entries(pre));
            },
            _ => {
                assert(json_string_entries(next) == json_string_entries(pre));
            },
        }
        assert(texts(errors@) =~= texts(old(errors)@) + injection_errors(json_string_entries(next)));
        i = i + 1;
    }
    assert(body.pairs().subrange(0, n as int) =~= body.pairs());
}

/// Appends the findings for a list of string parameters.
fn scan_strings(m: &StrMap<String>, errors: &mut Vec<String>)
    ensures
        texts(final(errors)@) == texts(old(errors)@) + injection_errors(string_entries(m.pairs())),
{
    let n = m.len();
    let mut i: usize = 0;
    assert(string_entries(m.pairs().subrange(0, 0)) =~= Seq::<(Seq<char>, Seq<char>)>::empty());
    assert(texts(errors@) =~= texts(old(errors)@) + injection_errors(string_entries(m.pairs().subrange(0, 0))));
    while i < n
        invariant
            n == m.pairs().len(),
            i <= n,
            texts(errors@) == texts(old(errors)@) + injection_errors(string_entries(m.pairs().subrange(0, i as int))),
        decreases n - i,
    {
        let (name, value) = m.entry_at(i);
        let ghost pre = string_entries(m.pairs().subrange(0, i as int));
        let ghost next = string_entries(m.pairs().subrange(0, i + 1));
        assert(next.drop_last() =~= pre);
        assert(next.last() == (name@, value@));
        scan_entry(name.as_str(), value.as_str(), errors);
        assert(texts(errors@) =~= texts(old(errors)@) + injection_errors(next));
        i = i + 1;
    }
    assert(m.pairs().subrange(0, n as int) =~= m.pairs());
}

} // verus!

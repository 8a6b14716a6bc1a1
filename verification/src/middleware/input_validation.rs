//! Per-route request validation: required fields, field types, length
//! limits, format checks for addresses, hashes, chain and device
//! identifiers, and the injection scan, with the presets for each route.
use vstd::prelude::*;
use crate::collections::StrMap;
use crate::middleware::reports;
use crate::sanitizer::{
    address_verdict, boolean_verdict, chain_id_verdict, device_id_verdict, hash_verdict, number_verdict,
    request_injection_errors, string_verdict, InputSanitizer, JsonValue, JsonView, ValidationResult,
    DEFAULT_MAX_STRING_LENGTH,
};
use crate::text::{
    byte_len, concat2, concat3, decimal, owned, split_chars, split_on, str_byte_len, str_eq,
    texts, u64_to_string,
};

verus! {

/// What a route's validation checks.
pub struct ValidationConfig {
    /// Fields that must be present in the body, the path or the query.
    pub required_fields: Vec<String>,
    /// Field name to type name (`string`, `address`, `hash`, `chain_id`,
    /// `device_id`, `number`, `boolean`; other names accept anything).
    pub field_types: StrMap<String>,
    /// Field name to the largest length, in bytes, of its text in the body.
    pub field_lengths: StrMap<usize>,
    pub address_fields: Vec<String>,
    pub hash_fields: Vec<String>,
    pub chain_id_fields: Vec<String>,
    pub device_id_fields: Vec<String>,
}

impl ValidationConfig {
    /// Nothing is checked but the injection scan.
    pub open spec fn is_empty(&self) -> bool {
        &&& self.required_fields@.len() == 0
        &&& self.field_types.pairs().len() == 0
        &&& self.field_lengths.pairs().len() == 0
        &&& self.address_fields@.len() == 0
        &&& self.hash_fields@.len() == 0
        &&& self.chain_id_fields@.len() == 0
        &&& self.device_id_fields@.len() == 0
    }

    /// A configuration that checks nothing but the injection scan.
    pub fn new() -> (c: Self)
        ensures
            c.is_empty(),
    {
        ValidationConfig {
            required_fields: Vec::new(),
            field_types: StrMap::new(),
            field_lengths: StrMap::new(),
            address_fields: Vec::new(),
            hash_fields: Vec::new(),
            chain_id_fields: Vec::new(),
            device_id_fields: Vec::new(),
        }
    }
}

impl Default for ValidationConfig {
    fn default() -> (c: Self)
        ensures
            c.is_empty(),
    {
        ValidationConfig::new()
    }
}

/// Request validation as it is installed in front of a route.
pub struct InputValidationMiddleware {
    pub config: ValidationConfig,
    pub sanitizer: InputSanitizer,
}

/// The four format checks applied to listed body fields.
pub enum FieldFormat {
    Address,
    Hash,
    ChainId,
    DeviceId,
}

/// The problem with `s` under a format check.
pub open spec fn format_verdict(kind: FieldFormat, s: Seq<char>) -> Option<Seq<char>> {
    match kind {
        FieldFormat::Address => address_verdict(s),
        FieldFormat::Hash => hash_verdict(s),
        FieldFormat::ChainId => chain_id_verdict(s),
        FieldFormat::DeviceId => device_id_verdict(s),
    }
}

/// The start of the error for a field that fails a format check.
pub open spec fn format_label(kind: FieldFormat) -> Seq<char> {
    match kind {
        FieldFormat::Address => "Invalid Ethereum address: "@,
        FieldFormat::Hash => "Invalid transaction hash: "@,
        FieldFormat::ChainId => "Invalid chain ID: "@,
        FieldFormat::DeviceId => "Invalid device ID: "@,
    }
}

/// The problem with a value under a type name; `max_len` is the limit for
/// strings checked without their own.
pub open spec fn type_verdict(max_len: nat, ty: Seq<char>, v: JsonView) -> Option<Seq<char>> {
    if ty == "string"@ {
        match v { JsonView::Str(s) => string_verdict(s, max_len), _ => Some("Field is not a string"@) }
    } else if ty == "address"@ {
        match v { JsonView::Str(s) => address_verdict(s), _ => Some("Field is not a string"@) }
    } else if ty == "hash"@ {
        match v { JsonView::Str(s) => hash_verdict(s), _ => Some("Field is not a string"@) }
    } else if ty == "chain_id"@ {
        match v { JsonView::Str(s) => chain_id_verdict(s), _ => Some("Field is not a string"@) }
    } else if ty == "device_id"@ {
        match v { JsonView::Str(s) => device_id_verdict(s), _ => Some("Field is not a string"@) }
    } else if ty == "number"@ {
        match v {
            JsonView::Str(s) => number_verdict(s, None, None),
            JsonView::Number => None,
            _ => Some("Field is not a number"@),
        }
    } else if ty == "boolean"@ {
        match v {
            JsonView::Str(s) => boolean_verdict(s),
            JsonView::Bool(_) => None,
            _ => Some("Field is not a boolean"@),
        }
    } else {
        None
    }
}

/// The value of field `f`: from the body, else the path, else the query.
pub open spec fn lookup(
    body: Map<Seq<char>, JsonValue>,
    params: Map<Seq<char>, String>,
    query: Map<Seq<char>, String>,
    f: Seq<char>,
) -> Option<JsonView> {
    if body.dom().contains(f) {
        Some(body[f]@)
    } else if params.dom().contains(f) {
        Some(JsonView::Str(params[f]@))
    } else if query.dom().contains(f) {
        Some(JsonView::Str(query[f]@))
    } else {
        None
    }
}

/// The errors for missing required fields, in order.
pub open spec fn required_errors(
    fields: Seq<Seq<char>>,
    body: Map<Seq<char>, JsonValue>,
    params: Map<Seq<char>, String>,
    query: Map<Seq<char>, String>,
) -> Seq<Seq<char>>
    decreases fields.len(),
{
    if fields.len() == 0 {
        Seq::empty()
    } else {
        let rest = required_errors(fields.drop_last(), body, params, query);
        if lookup(body, params, query, fields.last()) is Some {
            rest
        } else {
            rest.push("Missing required field: "@ + fields.last())
        }
    }
}

proof fn lemma_prefix_cancel(p: Seq<char>, a: Seq<char>, b: Seq<char>)
    requires
        p + a == p + b,
    ensures
        a == b,
{
    assert(a =~= (p + a).subrange(p.len() as int, (p + a).len() as int));
    assert(b =~= (p + b).subrange(p.len() as int, (p + b).len() as int));
}

/// A required field counts as given when the body, the path parameters or
/// the query holds it: such a field gets no "Missing required field" error,
/// and a listed field that none of the three holds gets one.
pub proof fn lemma_required_fields_found(
    fields: Seq<Seq<char>>,
    body: Map<Seq<char>, JsonValue>,
    params: Map<Seq<char>, String>,
    query: Map<Seq<char>, String>,
    f: Seq<char>,
)
    ensures
        body.dom().contains(f) || params.dom().contains(f) || query.dom().contains(f)
            ==> !required_errors(fields, body, params, query).contains("Missing required field: "@ + f),
        !(body.dom().contains(f) || params.dom().contains(f) || query.dom().contains(f)) && fields.contains(f)
            ==> required_errors(fields, body, params, query).contains("Missing required field: "@ + f),
    decreases fields.len(),
{
    if fields.len() > 0 {
        let init = fields.drop_last();
        let g = fields.last();
        lemma_required_fields_found(init, body, params, query, f);
        let rest = required_errors(init, body, params, query);
        let msg = "Missing required field: "@ + f;
        if body.dom().contains(f) || params.dom().contains(f) || query.dom().contains(f) {
            if lookup(body, params, query, g) is None {
                if rest.push("Missing required field: "@ + g).contains(msg) {
                    let k = choose|k: int| 0 <= k < rest.push("Missing required field: "@ + g).len()
                        && rest.push("Missing required field: "@ + g)[k] == msg;
                    if k < rest.len() {
                        assert(rest[k] == msg);
                    } else {
                        lemma_prefix_cancel("Missing required field: "@, g, f);
                    }
                }
            }
        } else if fields.contains(f) {
            let k = choose|k: int| 0 <= k < fields.len() && fields[k] == f;
            if k < init.len() {
                assert(init[k] == f);
                if lookup(body, params, query, g) is None {
                    let j = choose|j: int| 0 <= j < rest.len() && rest[j] == msg;
                    assert(rest.push("Missing required field: "@ + g)[j] == msg);
                }
            } else {
                assert(g == f);
                assert(rest.push(msg)[rest.len() as int] == msg);
            }
        }
    }
}

/// The errors for fields whose value does not have the declared type, in order.
pub open spec fn type_errors(
    types: Seq<(Seq<char>, String)>,
    max_len: nat,
    body: Map<Seq<char>, JsonValue>,
    params: Map<Seq<char>, String>,
    query: Map<Seq<char>, String>,
) -> Seq<Seq<char>>
    decreases types.len(),
{
    if types.len() == 0 {
        Seq::empty()
    } else {
        let rest = type_errors(types.drop_last(), max_len, body, params, query);
        let f = types.last().0;
        match lookup(body, params, query, f) {
            Some(v) => match type_verdict(max_len, types.last().1@, v) {
                Some(e) => rest.push("Invalid type for field "@ + f + ": "@ + e),
                None => rest,
            },
            None => rest,
        }
    }
}

/// The errors for body strings over their length limit, in order.
pub open spec fn length_errors(lengths: Seq<(Seq<char>, usize)>, body: Map<Seq<char>, JsonValue>) -> Seq<Seq<char>>
    decreases lengths.len(),
{
    if lengths.len() == 0 {
        Seq::empty()
    } else {
        let rest = length_errors(lengths.drop_last(), body);
        let (f, max) = lengths.last();
        if body.dom().contains(f) && body[f]@ is Str && byte_len(body[f]@->Str_0) > max {
            rest.push("Field "@ + f + " too long (max: "@ + decimal(max as nat) + ")"@)
        } else {
            rest
        }
    }
}

/// The errors for listed body strings that fail a format check, in order.
pub open spec fn format_errors(fields: Seq<Seq<char>>, body: Map<Seq<char>, JsonValue>, kind: FieldFormat) -> Seq<Seq<char>>
    decreases fields.len(),
{
    if fields.len() == 0 {
        Seq::empty()
    } else {
        let rest = format_errors(fields.drop_last(), body, kind);
        let f = fields.last();
        if body.dom().contains(f) && body[f]@ is Str && format_verdict(kind, body[f]@->Str_0) is Some {
            rest.push(format_label(kind) + f)
        } else {
            rest
        }
    }
}

/// Every error of a request, in the order the checks run: required
/// fields, types, lengths, addresses, hashes, chain identifiers, device
/// identifiers, then the injection scan.
pub open spec fn request_errors(
    sanitizer: InputSanitizer,
    config: ValidationConfig,
    body: StrMap<JsonValue>,
    params: StrMap<String>,
    query: StrMap<String>,
) -> Seq<Seq<char>> {
    required_errors(texts(config.required_fields@), body@, params@, query@)
        + type_errors(config.field_types.pairs(), sanitizer.max_string_length as nat, body@, params@, query@)
        + length_errors(config.field_lengths.pairs(), body@)
        + format_errors(texts(config.address_fields@), body@, FieldFormat::Address)
        + format_errors(texts(config.hash_fields@), body@, FieldFormat::Hash)
        + format_errors(texts(config.chain_id_fields@), body@, FieldFormat::ChainId)
        + format_errors(texts(config.device_id_fields@), body@, FieldFormat::DeviceId)
        + request_injection_errors(body.pairs(), params.pairs(), query.pairs())
}

fn push_text(errors: &mut Vec<String>, msg: String)
    ensures
        texts(final(errors)@) == texts(old(errors)@).push(msg@),
{
    let ghost before = errors@;
    errors.push(msg);
    assert(texts(errors@) =~= texts(before).push(msg@));
}

/// Checks `v` against the type name `ty` (see `type_verdict`).
fn check_type(sanitizer: &InputSanitizer, ty: &str, v: &JsonValue) -> (r: Result<(), String>)
    ensures
        reports(r, type_verdict(sanitizer.max_string_length as nat, ty@, v@)),
{
    let checked = if str_eq(ty, "string") {
        match v { JsonValue::Str(s) => sanitizer.sanitize_string(s.as_str(), None), _ => Err(owned("Field is not a string")) }
    } else if str_eq(ty, "address") {
        match v { JsonValue::Str(s) => sanitizer.sanitize_address(s.as_str()), _ => Err(owned("Field is not a string")) }
    } else if str_eq(ty, "hash") {
        match v { JsonValue::Str(s) => sanitizer.sanitize_hash(s.as_str()), _ => Err(owned("Field is not a string")) }
    } else if str_eq(ty, "chain_id") {
        match v { JsonValue::Str(s) => sanitizer.sanitize_chain_id(s.as_str()), _ => Err(owned("Field is not a string")) }
    } else if str_eq(ty, "device_id") {
        match v { JsonValue::Str(s) => sanitizer.sanitize_device_id(s.as_str()), _ => Err(owned("Field is not a string")) }
    } else if str_eq(ty, "number") {
        match v {
            JsonValue::Str(s) => sanitizer.sanitize_number(s.as_str(), None, None),
            JsonValue::Number => Ok(owned("")),
            _ => Err(owned("Field is not a number")),
        }
    } else if str_eq(ty, "boolean") {
        match v {
            JsonValue::Str(s) => sanitizer.sanitize_boolean(s.as_str()),
            JsonValue::Bool(_) => Ok(owned("")),
            _ => Err(owned("Field is not a boolean")),
        }
    } else {
        Ok(owned(""))
    };
    match checked {
        Ok(_) => Ok(()),
        Err(e) => Err(e),
    }
}

/// Checks `s` under a format check (see `format_verdict`).
fn check_format(sanitizer: &InputSanitizer, kind: &FieldFormat, s: &str) -> (ok: bool)
    ensures
        ok == (format_verdict(*kind, s@) is None),
{
    let r = match kind {
        FieldFormat::Address => sanitizer.sanitize_address(s),
        FieldFormat::Hash => sanitizer.sanitize_hash(s),
        FieldFormat::ChainId => sanitizer.sanitize_chain_id(s),
        FieldFormat::DeviceId => sanitizer.sanitize_device_id(s),
    };
    r.is_ok()
}

fn format_label_text(kind: &FieldFormat) -> (s: String)
    ensures
        s@ == format_label(*kind),
{
    match kind {
        FieldFormat::Address => owned("Invalid Ethereum address: "),
        FieldFormat::Hash => owned("Invalid transaction hash: "),
        FieldFormat::ChainId => owned("Invalid chain ID: "),
        FieldFormat::DeviceId => owned("Invalid device ID: "),
    }
}

fn check_required(
    fields: &Vec<String>,
    body: &StrMap<JsonValue>,
    params: &StrMap<String>,
    query: &StrMap<String>,
    errors: &mut Vec<String>,
)
    ensures
        texts(final(errors)@) == texts(old(errors)@) + required_errors(texts(fields@), body@, params@, query@),
{
    let ghost all = texts(fields@);
    let mut i: usize = 0;
    assert(texts(errors@) =~= texts(old(errors)@) + required_errors(all.subrange(0, 0), body@, params@, query@));
    while i < fields.len()
        invariant
            i <= fields.len(),
            all == texts(fields@),
            texts(errors@) == texts(old(errors)@) + required_errors(all.subrange(0, i as int), body@, params@, query@),
        decreases fields.len() - i,
    {
        let f = fields[i].as_str();
        let ghost pre = all.subrange(0, i as int);
        let ghost next = all.subrange(0, i + 1);
        assert(next.drop_last() =~= pre);
        assert(next.last() == f@);
        let found = body.contains_key(f) || params.contains_key(f) || query.contains_key(f);
        if !found {
            push_text(errors, concat2("Missing required field: ", f));
        }
        assert(texts(errors@) =~= texts(old(errors)@) + required_errors(next, body@, params@, query@));
        i = i + 1;
    }
    assert(all.subrange(0, fields.len() as int) =~= all);
}

fn check_types(
    sanitizer: &InputSanitizer,
    types: &StrMap<String>,
    body: &StrMap<JsonValue>,
    params: &StrMap<String>,
    query: &StrMap<String>,
    errors: &mut Vec<String>,
)
    ensures
        texts(final(errors)@) == texts(old(errors)@)
            + type_errors(types.pairs(), sanitizer.max_string_length as nat, body@, params@, query@),
{
    let ghost max = sanitizer.max_string_length as nat;
    let n = types.len();
    let mut i: usize = 0;
    assert(texts(errors@) =~= texts(old(errors)@) + type_errors(types.pairs().subrange(0, 0), max, body@, params@, query@));
    while i < n
        invariant
            n == types.pairs().len(),
            i <= n,
            max == sanitizer.max_string_length as nat,
            texts(errors@) == texts(old(errors)@) + type_errors(types.pairs().subrange(0, i as int), max, body@, params@, query@),
        decreases n - i,
    {
        let (field, ty) = types.entry_at(i);
        let f = field.as_str();
        let ghost pre = types.pairs().subrange(0, i as int);
        let ghost next = types.pairs().subrange(0, i + 1);
        assert(next.drop_last() =~= pre);
        assert(next.last().0 == f@ && next.last().1 == *ty);
        let verdict: Option<Result<(), String>> = match body.get(f) {
            Some(v) => Some(check_type(sanitizer, ty.as_str(), v)),
            None => match params.get(f) {
                Some(s) => {
                    let v = JsonValue::Str(s.clone());
                    Some(check_type(sanitizer, ty.as_str(), &v))
                },
                None => match query.get(f) {
                    Some(s) => {
                        let v = JsonValue::Str(s.clone());
                        Some(check_type(sanitizer, ty.as_str(), &v))
                    },
                    None => None,
                },
            },
        };
        match verdict {
            Some(Err(e)) => {
                push_text(errors, concat2(concat3("Invalid type for field ", f, ": ").as_str(), e.as_str()));
            },
            _ => {},
        }
        assert(texts(errors@) =~= texts(old(errors)@) + type_errors(next, max, body@, params@, query@));
        i = i + 1;
    }
    assert(types.pairs().subrange(0, n as int) =~= types.pairs());
}

fn check_lengths(lengths: &StrMap<usize>, body: &StrMap<JsonValue>, errors: &mut Vec<String>)
    ensures
        texts(final(errors)@) == texts(old(errors)@) + length_errors(lengths.pairs(), body@),
{
    let n = lengths.len();
    let mut i: usize = 0;
    assert(texts(errors@) =~= texts(old(errors)@) + length_errors(lengths.pairs().subrange(0, 0), body@));
    while i < n
        invariant
            n == lengths.pairs().len(),
            i <= n,
            texts(errors@) == texts(old(errors)@) + length_errors(lengths.pairs().subrange(0, i as int), body@),
        decreases n - i,
    {
        let (field, max) = lengths.entry_at(i);
        let f = field.as_str();
        let ghost pre = lengths.pairs().subrange(0, i as int);
        let ghost next = lengths.pairs().subrange(0, i + 1);
        assert(next.drop_last() =~= pre);
        assert(next.last() == (f@, *max));
        match body.get(f) {
            Some(JsonValue::Str(s)) => {
                if str_byte_len(s.as_str()) > *max {
                    let head = concat3("Field ", f, " too long (max: ");
                    push_text(errors, concat3(head.as_str(), u64_to_string(*max as u64).as_str(), ")"));
                }
            },
            _ => {},
        }
        assert(texts(errors@) =~= texts(old(errors)@) + length_errors(next, body@));
        i = i + 1;
    }
    assert(lengths.pairs().subrange(0, n as int) =~= lengths.pairs());
}

fn check_formats(
    sanitizer: &InputSanitizer,
    fields: &Vec<String>,
    kind: FieldFormat,
    body: &StrMap<JsonValue>,
    errors: &mut Vec<String>,
)
    ensures
        texts(final(errors)@) == texts(old(errors)@) + format_errors(texts(fields@), body@, kind),
{
    let ghost all = texts(fields@);
    let mut i: usize = 0;
    assert(texts(errors@) =~= texts(old(errors)@) + format_errors(all.subrange(0, 0), body@, kind));
    while i < fields.len()
        invariant
            i <= fields.len(),
            all == texts(fields@),
            texts(errors@) == texts(old(errors)@) + format_errors(all.subrange(0, i as int), body@, kind),
        decreases fields.len() - i,
    {
        let f = fields[i].as_str();
        let ghost pre = all.subrange(0, i as int);
        let ghost next = all.subrange(0, i + 1);
        assert(next.drop_last() =~= pre);
        assert(next.last() == f@);
        match body.get(f) {
            Some(JsonValue::Str(s)) => {
                if !check_format(sanitizer, &kind, s.as_str()) {
                    push_text(errors, concat2(format_label_text(&kind).as_str(), f));
                }
            },
            _ => {},
        }
        assert(texts(errors@) =~= texts(old(errors)@) + format_errors(next, body@, kind));
        i = i + 1;
    }
    assert(all.subrange(0, fields.len() as int) =~= all);
}

/// Validates a request against a route's configuration (see
/// `request_errors`); the request is valid when there is no error.
pub fn validate_request(
    sanitizer: &InputSanitizer,
    config: &ValidationConfig,
    body: &StrMap<JsonValue>,
    params: &StrMap<String>,
    query: &StrMap<String>,
) -> (r: ValidationResult)
    ensures
        texts(r.errors@) == request_errors(*sanitizer, *config, *body, *params, *query),
        r.valid == (r.errors@.len() == 0),
        r.warnings@.len() == 0,
{
    let mut errors: Vec<String> = Vec::new();
    check_required(&config.required_fields, body, params, query, &mut errors);
    check_types(sanitizer, &config.field_types, body, params, query, &mut errors);
    check_lengths(&config.field_lengths, body, &mut errors);
    check_formats(sanitizer, &config.address_fields, FieldFormat::Address, body, &mut errors);
    check_formats(sanitizer, &config.hash_fields, FieldFormat::Hash, body, &mut errors);
    check_formats(sanitizer, &config.chain_id_fields, FieldFormat::ChainId, body, &mut errors);
    check_formats(sanitizer, &config.device_id_fields, FieldFormat::DeviceId, body, &mut errors);
    let scan = sanitizer.validate_request(body, params, query);
    let ghost before = errors@;
    let mut scan_errors = scan.errors;
    errors.append(&mut scan_errors);
    assert(texts(errors@) =~= texts(before) + texts(scan.errors@));
    assert(texts(errors@) =~= request_errors(*sanitizer, *config, *body, *params, *query));
    let valid = errors.len() == 0;
    ValidationResult { valid, errors, warnings: Vec::new() }
}

/// The query parameters of a query string: each `&`-separated piece that
/// holds `=` gives the pair (text before the first `=`, text between it and
/// the next `=`); a later pair replaces an earlier one with the same name.
pub open spec fn query_map(pieces: Seq<Seq<char>>) -> Map<Seq<char>, Seq<char>>
    decreases pieces.len(),
{
    if pieces.len() == 0 {
        Map::empty()
    } else {
        let rest = query_map(pieces.drop_last());
        let parts = split_on(pieces.last(), '=');
        if parts.len() >= 2 {
            rest.insert(parts[0], parts[1])
        } else {
            rest
        }
    }
}

/// The views of the values of a string map.
pub open spec fn value_views(m: Map<Seq<char>, String>) -> Map<Seq<char>, Seq<char>> {
    m.map_values(|s: String| s@)
}

/// Reads the query parameters of a query string (see `query_map`).
pub fn query_pairs(query: &str) -> (m: StrMap<String>)
    ensures
        value_views(m@) == query_map(split_on(query@, '&')),
{
    let pieces = split_chars(query, '&');
    let ghost all = texts(pieces@);
    let mut m: StrMap<String> = StrMap::new();
    let mut i: usize = 0;
    assert(value_views(m@) =~= query_map(all.subrange(0, 0)));
    while i < pieces.len()
        invariant
            i <= pieces.len(),
            all == texts(pieces@),
            all == split_on(query@, '&'),
            value_views(m@) == query_map(all.subrange(0, i as int)),
        decreases pieces.len() - i,
    {
        let ghost pre = all.subrange(0, i as int);
        let ghost next = all.subrange(0, i + 1);
        assert(next.drop_last() =~= pre);
        assert(next.last() == pieces@[i as int]@);
        let parts = split_chars(pieces[i].as_str(), '=');
        if parts.len() >= 2 {
            let key = parts[0].clone();
            let value = parts[1].clone();
            let ghost old_m = m@;
            m.insert(key, value);
            assert(texts(parts@)[0] == parts@[0]@ && texts(parts@)[1] == parts@[1]@);
            assert(value_views(m@) =~= value_views(old_m).insert(key@, value@));
        }
        assert(value_views(m@) == query_map(next));
        i = i + 1;
    }
    assert(all.subrange(0, pieces.len() as int) =~= all);
    m
}

impl InputValidationMiddleware {
    /// Validation with the given configuration and the default field checker.
    pub fn new(config: ValidationConfig) -> (m: Self)
        ensures
            m.config == config,
            m.sanitizer.max_string_length == DEFAULT_MAX_STRING_LENGTH,
    {
        InputValidationMiddleware { config, sanitizer: InputSanitizer::new() }
    }

    /// Replaces the required fields.
    pub fn with_required_fields(self, fields: Vec<String>) -> (m: Self)
        ensures
            m.config == (ValidationConfig { required_fields: fields, ..self.config }),
            m.sanitizer == self.sanitizer,
    {
        let mut m = self;
        m.config.required_fields = fields;
        m
    }

    /// Replaces the field types.
    pub fn with_field_types(self, types: StrMap<String>) -> (m: Self)
        ensures
            m.config == (ValidationConfig { field_types: types, ..self.config }),
            m.sanitizer == self.sanitizer,
    {
        let mut m = self;
        m.config.field_types = types;
        m
    }

    /// Replaces the length limits.
    pub fn with_field_lengths(self, lengths: StrMap<usize>) -> (m: Self)
        ensures
            m.config == (ValidationConfig { field_lengths: lengths, ..self.config }),
            m.sanitizer == self.sanitizer,
    {
        let mut m = self;
        m.config.field_lengths = lengths;
        m
    }

    /// Replaces the address fields.
    pub fn with_address_fields(self, fields: Vec<String>) -> (m: Self)
        ensures
            m.config == (ValidationConfig { address_fields: fields, ..self.config }),
            m.sanitizer == self.sanitizer,
    {
        let mut m = self;
        m.config.address_fields = fields;
        m
    }

    /// Replaces the hash fields.
    pub fn with_hash_fields(self, fields: Vec<String>) -> (m: Self)
        ensures
            m.config == (ValidationConfig { hash_fields: fields, ..self.config }),
            m.sanitizer == self.sanitizer,
    {
        let mut m = self;
        m.config.hash_fields = fields;
        m
    }

    /// Replaces the chain identifier fields.
    pub fn with_chain_id_fields(self, fields: Vec<String>) -> (m: Self)
        ensures
            m.config == (ValidationConfig { chain_id_fields: fields, ..self.config }),
            m.sanitizer == self.sanitizer,
    {
        let mut m = self;
        m.config.chain_id_fields = fields;
        m
    }

    /// Replaces the device identifier fields.
    pub fn with_device_id_fields(self, fields: Vec<String>) -> (m: Self)
        ensures
            m.config == (ValidationConfig { device_id_fields: fields, ..self.config }),
            m.sanitizer == self.sanitizer,
    {
        let mut m = self;
        m.config.device_id_fields = fields;
        m
    }

    /// The service that validates requests with this configuration.
    pub fn into_service(self) -> (s: InputValidationService)
        ensures
            s.config == self.config,
            s.sanitizer == self.sanitizer,
    {
        InputValidationService { config: self.config, sanitizer: self.sanitizer }
    }
}

/// Request validation as it answers requests.
pub struct InputValidationService {
    pub config: ValidationConfig,
    pub sanitizer: InputSanitizer,
}

impl InputValidationService {
    /// Validates a request with this configuration (see `validate_request`).
    pub fn validate(&self, body: &StrMap<JsonValue>, params: &StrMap<String>, query: &StrMap<String>) -> (r: ValidationResult)
        ensures
            texts(r.errors@) == request_errors(self.sanitizer, self.config, *body, *params, *query),
            r.valid == (r.errors@.len() == 0),
    {
        validate_request(&self.sanitizer, &self.config, body, params, query)
    }
}

/// One name as a list.
fn names1(a: &str) -> (v: Vec<String>)
    ensures
        texts(v@) == seq![a@],
{
    let v = vec![owned(a)];
    assert(texts(v@) =~= seq![a@]);
    v
}

/// Two names as a list.
fn names2(a: &str, b: &str) -> (v: Vec<String>)
    ensures
        texts(v@) == seq![a@, b@],
{
    let v = vec![owned(a), owned(b)];
    assert(texts(v@) =~= seq![a@, b@]);
    v
}

/// The views of a list of (name, type) pairs.
pub open spec fn type_pairs(p: Seq<(Seq<char>, String)>) -> Seq<(Seq<char>, Seq<char>)> {
    p.map_values(|e: (Seq<char>, String)| (e.0, e.1@))
}

fn add_type(types: &mut StrMap<String>, name: &str, ty: &str)
    requires
        !old(types)@.dom().contains(name@),
    ensures
        type_pairs(final(types).pairs()) == type_pairs(old(types).pairs()).push((name@, ty@)),
        final(types)@.dom() == old(types)@.dom().insert(name@),
{
    let ghost before = types.pairs();
    types.insert(owned(name), owned(ty));
    assert(type_pairs(types.pairs()) =~= type_pairs(before).push((name@, ty@)));
}

/// Validation for transaction submission: `signed_tx` and `chain_id`
/// required; `signed_tx` a hash, `chain_id` a chain identifier, `device_id`
/// a device identifier.
pub fn validate_transaction_request() -> (m: InputValidationMiddleware)
    ensures
        texts(m.config.required_fields@) == seq!["signed_tx"@, "chain_id"@],
        type_pairs(m.config.field_types.pairs()) == seq![("signed_tx"@, "hash"@), ("chain_id"@, "chain_id"@), ("device_id"@, "device_id"@)],
        m.config.field_lengths.pairs().len() == 0,
        m.config.address_fields@.len() == 0,
        texts(m.config.hash_fields@) == seq!["signed_tx"@],
        texts(m.config.chain_id_fields@) == seq!["chain_id"@],
        texts(m.config.device_id_fields@) == seq!["device_id"@],
        m.sanitizer.max_string_length == DEFAULT_MAX_STRING_LENGTH,
{
    let mut types: StrMap<String> = StrMap::new();
    proof {
        reveal_strlit("signed_tx");
        reveal_strlit("chain_id");
        reveal_strlit("device_id");
        assert("chain_id"@.len() != "signed_tx"@.len());
        assert("device_id"@.len() != "chain_id"@.len());
        assert("device_id"@[0] != "signed_tx"@[0]);
    }
    add_type(&mut types, "signed_tx", "hash");
    add_type(&mut types, "chain_id", "chain_id");
    add_type(&mut types, "device_id", "device_id");
    assert(type_pairs(types.pairs()) =~= seq![("signed_tx"@, "hash"@), ("chain_id"@, "chain_id"@), ("device_id"@, "device_id"@)]);
    InputValidationMiddleware::new(ValidationConfig::new())
        .with_required_fields(names2("signed_tx", "chain_id"))
        .with_field_types(types)
        .with_hash_fields(names1("signed_tx"))
        .with_chain_id_fields(names1("chain_id"))
        .with_device_id_fields(names1("device_id"))
}

/// Validation for BLE routes: `device_id` required and a device identifier.
pub fn validate_ble_request() -> (m: InputValidationMiddleware)
    ensures
        texts(m.config.required_fields@) == seq!["device_id"@],
        type_pairs(m.config.field_types.pairs()) == seq![("device_id"@, "device_id"@)],
        m.config.field_lengths.pairs().len() == 0,
        m.config.address_fields@.len() == 0,
        m.config.hash_fields@.len() == 0,
        m.config.chain_id_fields@.len() == 0,
        texts(m.config.device_id_fields@) == seq!["device_id"@],
        m.sanitizer.max_string_length == DEFAULT_MAX_STRING_LENGTH,
{
    let mut types: StrMap<String> = StrMap::new();
    add_type(&mut types, "device_id", "device_id");
    assert(type_pairs(types.pairs()) =~= seq![("device_id"@, "device_id"@)]);
    InputValidationMiddleware::new(ValidationConfig::new())
        .with_required_fields(names1("device_id"))
        .with_field_types(types)
        .with_device_id_fields(names1("device_id"))
}

/// Validation for authentication: `device_id` and `public_key` required;
/// `device_id` a device identifier, `public_key` a string.
pub fn validate_auth_request() -> (m: InputValidationMiddleware)
    ensures
        texts(m.config.required_fields@) == seq!["device_id"@, "public_key"@],
        type_pairs(m.config.field_types.pairs()) == seq![("device_id"@, "device_id"@), ("public_key"@, "string"@)],
        m.config.field_lengths.pairs().len() == 0,
        m.config.address_fields@.len() == 0,
        m.config.hash_fields@.len() == 0,
        m.config.chain_id_fields@.len() == 0,
        texts(m.config.device_id_fields@) == seq!["device_id"@],
        m.sanitizer.max_string_length == DEFAULT_MAX_STRING_LENGTH,
{
    let mut types: StrMap<String> = StrMap::new();
    proof {
        reveal_strlit("device_id");
        reveal_strlit("public_key");
        assert("device_id"@.len() != "public_key"@.len());
    }
    add_type(&mut types, "device_id", "device_id");
    add_type(&mut types, "public_key", "string");
    assert(type_pairs(types.pairs()) =~= seq![("device_id"@, "device_id"@), ("public_key"@, "string"@)]);
    InputValidationMiddleware::new(ValidationConfig::new())
        .with_required_fields(names2("device_id", "public_key"))
        .with_field_types(types)
        .with_device_id_fields(names1("device_id"))
}

/// Validation for compressed payloads: `compressed_data`, `payload_type`
/// and `chain_id` required; the first two strings, `chain_id` a chain
/// identifier, `device_id` a device identifier.
pub fn validate_compressed_payload_request() -> (m: InputValidationMiddleware)
    ensures
        texts(m.config.required_fields@) == seq!["compressed_data"@, "payload_type"@, "chain_id"@],
        type_pairs(m.config.field_types.pairs()) == seq![("compressed_data"@, "string"@), ("payload_type"@, "string"@),
            ("chain_id"@, "chain_id"@), ("device_id"@, "device_id"@)],
        m.config.field_lengths.pairs().len() == 0,
        m.config.address_fields@.len() == 0,
        m.config.hash_fields@.len() == 0,
        texts(m.config.chain_id_fields@) == seq!["chain_id"@],
        texts(m.config.device_id_fields@) == seq!["device_id"@],
        m.sanitizer.max_string_length == DEFAULT_MAX_STRING_LENGTH,
{
    let mut types: StrMap<String> = StrMap::new();
    proof {
        reveal_strlit("compressed_data");
        reveal_strlit("payload_type");
        reveal_strlit("chain_id");
        reveal_strlit("device_id");
        assert("compressed_data"@.len() != "payload_type"@.len());
        assert("compressed_data"@.len() != "chain_id"@.len());
        assert("compressed_data"@.len() != "device_id"@.len());
        assert("payload_type"@.len() != "chain_id"@.len());
        assert("payload_type"@.len() != "device_id"@.len());
        assert("chain_id"@.len() != "device_id"@.len());
    }
    add_type(&mut types, "compressed_data", "string");
    add_type(&mut types, "payload_type", "string");
    add_type(&mut types, "chain_id", "chain_id");
    add_type(&mut types, "device_id", "device_id");
    assert(type_pairs(types.pairs()) =~= seq![("compressed_data"@, "string"@), ("payload_type"@, "string"@),
        ("chain_id"@, "chain_id"@), ("device_id"@, "device_id"@)]);
    let required = vec![owned("compressed_data"), owned("payload_type"), owned("chain_id")];
    assert(texts(required@) =~= seq!["compressed_data"@, "payload_type"@, "chain_id"@]);
    InputValidationMiddleware::new(ValidationConfig::new())
        .with_required_fields(required)
        .with_field_types(types)
        .with_chain_id_fields(names1("chain_id"))
        .with_device_id_fields(names1("device_id"))
}

} // verus!

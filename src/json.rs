//! JSON documents as the CLI prints them: a model of `serde_json` values, the
//! tolerant extraction of a document from noisy output, and the detection of
//! the envelope that holds the records.
use crate::text::{
    chars_of, contains, contains_chars, lemma_blank_has_no_escape, lemma_strip_ansi_idempotent, lines,
    rfind_before, rfind_char, slice_chars, split_lines, string_of, strip_ansi, strip_ansi_codes,
    texts, trim, trim_chars, trim_start_char, trim_start_char_chars, views, BOM,
};
use serde_json::Value;
use vstd::prelude::*;

verus! {

#[verifier::external_type_specification]
#[verifier::external_body]
pub struct ExValue(serde_json::Value);

#[verifier::external_type_specification]
#[verifier::external_body]
#[verifier::reject_recursive_types(K)]
#[verifier::reject_recursive_types(V)]
pub struct ExMap<K, V>(serde_json::Map<K, V>);

/// A JSON value as this library reads it. A number is seen through its
/// reading as an unsigned 64-bit integer, where it has one; an object is its
/// entries in the order in which `serde_json` walks them.
pub ghost enum Json {
    Null,
    Bool(bool),
    Num(Option<u64>),
    Str(Seq<char>),
    Arr(Seq<Json>),
    Obj(Seq<(Seq<char>, Json)>),
}

/// What a `serde_json::Value` holds.
pub uninterp spec fn json_of(v: Value) -> Json;

/// The entries of a `serde_json::Map`, in iteration order.
pub uninterp spec fn entries_of(m: serde_json::Map<String, Value>) -> Seq<(Seq<char>, Json)>;

/// What parsing a text yields: a document, or the one-based line at which
/// the parser stopped and its message.
pub ghost enum JsonParse {
    Doc(Json),
    Failed(usize, Seq<char>),
}

/// What `serde_json` makes of the text `s`.
pub uninterp spec fn json_parse(s: Seq<char>) -> JsonParse;

/// The document that `s` parses into, if it is one.
pub open spec fn parsed_json(s: Seq<char>) -> Option<Json> {
    match json_parse(s) {
        JsonParse::Doc(j) => Some(j),
        _ => None,
    }
}

/// Why a text is not a JSON document: the one-based line at which the
/// parser stopped, and its message.
#[derive(Debug, Clone, PartialEq, Eq)]
pub struct ParseFailure {
    pub line: usize,
    pub message: String,
}

/// What a sequence of `serde_json::Value`s holds.
pub open spec fn jsons(s: Seq<Value>) -> Seq<Json> {
    s.map_values(|v: Value| json_of(v))
}

/// The value of the first entry under `key`.
pub open spec fn entry_get(es: Seq<(Seq<char>, Json)>, key: Seq<char>) -> Option<Json>
    decreases es.len(),
{
    if es.len() == 0 {
        None
    } else if es[0].0 == key {
        Some(es[0].1)
    } else {
        entry_get(es.drop_first(), key)
    }
}

/// The values of the entries, in order.
pub open spec fn entry_values(es: Seq<(Seq<char>, Json)>) -> Seq<Json> {
    es.map_values(|e: (Seq<char>, Json)| e.1)
}

/// The objects among `s`, in order.
pub open spec fn objects_only(s: Seq<Json>) -> Seq<Json>
    decreases s.len(),
{
    if s.len() == 0 {
        Seq::empty()
    } else if s.last() is Obj {
        objects_only(s.drop_last()).push(s.last())
    } else {
        objects_only(s.drop_last())
    }
}

/// The array under `key`, when the value there is an array.
pub open spec fn array_under(es: Seq<(Seq<char>, Json)>, key: Seq<char>) -> Option<Seq<Json>> {
    match entry_get(es, key) {
        Some(Json::Arr(a)) => Some(a),
        _ => None,
    }
}

/// The array under the first wrapper key, tried in the order
/// `drives`, `data`, `result`, `items`, `rows`, that holds one.
pub open spec fn wrapped_records(es: Seq<(Seq<char>, Json)>) -> Option<Seq<Json>> {
    if array_under(es, "drives"@) is Some {
        array_under(es, "drives"@)
    } else if array_under(es, "data"@) is Some {
        array_under(es, "data"@)
    } else if array_under(es, "result"@) is Some {
        array_under(es, "result"@)
    } else if array_under(es, "items"@) is Some {
        array_under(es, "items"@)
    } else {
        array_under(es, "rows"@)
    }
}

/// The records that a document holds: a bare array; else the array under a
/// wrapper key; else the values of an object that are objects themselves, if
/// there is one. Any other document holds no record sequence.
pub open spec fn records_of(j: Json) -> Option<Seq<Json>> {
    match j {
        Json::Arr(a) => Some(a),
        Json::Obj(es) => {
            if wrapped_records(es) is Some {
                wrapped_records(es)
            } else if objects_only(entry_values(es)).len() > 0 {
                Some(objects_only(entry_values(es)))
            } else {
                None
            }
        },
        _ => None,
    }
}

/// `s[start..=end]` parsed, where the end lies after the start.
pub open spec fn parse_slice(s: Seq<char>, start: int, end: Option<int>) -> Option<Json> {
    match end {
        Some(e) => if e > start {
            parsed_json(s.subrange(start, e + 1))
        } else {
            None
        },
        None => None,
    }
}

/// The first index at or after `i` that opens a document: `{` or `[`.
pub open spec fn find_opener(s: Seq<char>, i: int) -> Option<int>
    decreases s.len() - i,
{
    if i < 0 || i >= s.len() {
        None
    } else if s[i] == '{' || s[i] == '[' {
        Some(i)
    } else {
        find_opener(s, i + 1)
    }
}

/// The character that closes what `c` opens.
pub open spec fn closer_of(c: char) -> char {
    if c == '{' {
        '}'
    } else {
        ']'
    }
}

/// The document between the first `{` or `[` and the last character that
/// closes it.
pub open spec fn parse_embedded(s: Seq<char>) -> Option<Json> {
    match find_opener(s, 0) {
        Some(st) => parse_slice(s, st, rfind_before(s, closer_of(s[st]), s.len() as int)),
        None => None,
    }
}

/// Whether a trimmed line looks like the start of a document.
pub open spec fn opens_document(t: Seq<char>) -> bool {
    t.len() > 0 && (t[0] == '{' || t[0] == '[')
}

/// The first line that, trimmed, opens a document and parses on its own.
pub open spec fn first_json_line(ls: Seq<Seq<char>>) -> Option<Json>
    decreases ls.len(),
{
    if ls.len() == 0 {
        None
    } else if opens_document(trim(ls[0])) && parsed_json(trim(ls[0])) is Some {
        parsed_json(trim(ls[0]))
    } else {
        first_json_line(ls.drop_first())
    }
}

/// The text that the flexible parse works on.
pub open spec fn flex_clean(raw: Seq<char>) -> Seq<char> {
    trim(strip_ansi(raw))
}

/// The document that the flexible parse finds in `raw`: the whole cleaned
/// text; else an embedded slice; else the first line that is a document.
pub open spec fn parse_flex(raw: Seq<char>) -> Option<Json> {
    let c = flex_clean(raw);
    if parsed_json(c) is Some {
        parsed_json(c)
    } else if parse_embedded(c) is Some {
        parse_embedded(c)
    } else {
        first_json_line(lines(c))
    }
}

/// Relies on `serde_json::from_str::<Value>`, and on `serde_json::Error`'s
/// `line` and `Display` for a failure: all depend on the text alone.
#[verifier::external_body]
pub(crate) fn parse_json(s: &str) -> (r: Result<Value, ParseFailure>)
    ensures
        r matches Ok(v) ==> json_parse(s@) == JsonParse::Doc(json_of(v)),
        r matches Err(f) ==> json_parse(s@) == JsonParse::Failed(f.line, f.message@),
{
    serde_json::from_str::<Value>(s).map_err(|e| ParseFailure { line: e.line(), message: e.to_string() })
}

/// Relies on `serde_json::to_string_pretty`, for diagnostics only.
#[verifier::external_body]
pub(crate) fn pretty_json(v: &Value) -> (r: String) {
    serde_json::to_string_pretty(v).unwrap_or_else(|_| String::from("<failed to pretty print>"))
}

/// Relies on `Map::get`: keys are unique, so the entry under `key` is the first.
#[verifier::external_body]
pub(crate) fn object_get<'a>(m: &'a serde_json::Map<String, Value>, key: &str) -> (r: Option<&'a Value>)
    ensures
        r is Some <==> entry_get(entries_of(*m), key@) is Some,
        r matches Some(x) ==> entry_get(entries_of(*m), key@) == Some(json_of(*x)),
{
    m.get(key)
}

/// Relies on `Map::values`: the values in iteration order.
#[verifier::external_body]
pub(crate) fn object_values(m: &serde_json::Map<String, Value>) -> (r: Vec<Value>)
    ensures
        jsons(r@) == entry_values(entries_of(*m)),
{
    m.values().cloned().collect()
}

pub assume_specification[ Value::as_array ](v: &Value) -> (r: Option<&Vec<Value>>)
    ensures
        r is Some <==> json_of(*v) is Arr,
        r matches Some(a) ==> json_of(*v) == Json::Arr(jsons(a@)),
;

pub assume_specification[ Value::as_object ](v: &Value) -> (r: Option<&serde_json::Map<String, Value>>)
    ensures
        r is Some <==> json_of(*v) is Obj,
        r matches Some(m) ==> json_of(*v) == Json::Obj(entries_of(*m)),
;

pub assume_specification[ Value::is_object ](v: &Value) -> (r: bool)
    ensures
        r == json_of(*v) is Obj,
;

pub assume_specification[ Value::as_str ](v: &Value) -> (r: Option<&str>)
    ensures
        r is Some <==> json_of(*v) is Str,
        r matches Some(s) ==> json_of(*v) == Json::Str(s@),
;

pub assume_specification[ Value::as_u64 ](v: &Value) -> (r: Option<u64>)
    ensures
        json_of(*v) is Num ==> json_of(*v) == Json::Num(r),
        !(json_of(*v) is Num) ==> r is None,
;

pub assume_specification[ Value::is_null ](v: &Value) -> (r: bool)
    ensures
        r == json_of(*v) is Null,
;

pub assume_specification[ <Value as Clone>::clone ](v: &Value) -> (r: Value)
    ensures
        r == *v,
;

pub assume_specification[ <serde_json::Map<String, Value> as Clone>::clone ](m: &serde_json::Map<String, Value>) -> (r:
    serde_json::Map<String, Value>)
    ensures
        r == *m,
;

/// A copy of `v`.
pub fn clone_values(v: &Vec<Value>) -> (r: Vec<Value>)
    ensures
        r@ == v@,
{
    let mut r: Vec<Value> = Vec::new();
    let mut i: usize = 0;
    while i < v.len()
        invariant
            i <= v.len(),
            r@ == v@.take(i as int),
        decreases v.len() - i,
    {
        r.push(v[i].clone());
        i = i + 1;
        proof { assert(r@ =~= v@.take(i as int)); }
    }
    proof { assert(r@ =~= v@); }
    r
}

/// The array under `key` in `m`, when the value there is an array.
fn array_under_key(m: &serde_json::Map<String, Value>, key: &str) -> (r: Option<Vec<Value>>)
    ensures
        r is Some <==> array_under(entries_of(*m), key@) is Some,
        r matches Some(a) ==> array_under(entries_of(*m), key@) == Some(jsons(a@)),
{
    match object_get(m, key) {
        Some(inner) => match inner.as_array() {
            Some(arr) => Some(clone_values(arr)),
            None => None,
        },
        None => None,
    }
}

/// The values of `m` that are objects, in iteration order.
fn object_members(m: &serde_json::Map<String, Value>) -> (r: Vec<Value>)
    ensures
        jsons(r@) == objects_only(entry_values(entries_of(*m))),
{
    let vals = object_values(m);
    let ghost all = jsons(vals@);
    let mut r: Vec<Value> = Vec::new();
    let mut i: usize = 0;
    while i < vals.len()
        invariant
            i <= vals.len(),
            all == jsons(vals@),
            jsons(r@) == objects_only(all.take(i as int)),
        decreases vals.len() - i,
    {
        proof {
            assert(all.take(i + 1).drop_last() =~= all.take(i as int));
            assert(all.take(i + 1).last() == json_of(vals@[i as int]));
        }
        if vals[i].is_object() {
            r.push(vals[i].clone());
            proof { assert(jsons(r@) =~= jsons(r@.drop_last()).push(json_of(vals@[i as int]))); }
        }
        i = i + 1;
    }
    proof { assert(all.take(vals.len() as int) =~= all); }
    r
}

/// The records that the document `v` holds (see `records_of`).
pub fn extract_drives_from_value(v: &Value) -> (r: Option<Vec<Value>>)
    ensures
        r is Some <==> records_of(json_of(*v)) is Some,
        r matches Some(a) ==> records_of(json_of(*v)) == Some(jsons(a@)),
{
    if let Some(arr) = v.as_array() {
        return Some(clone_values(arr));
    }
    match v.as_object() {
        Some(m) => {
            if let Some(a) = array_under_key(m, "drives") {
                return Some(a);
            }
            if let Some(a) = array_under_key(m, "data") {
                return Some(a);
            }
            if let Some(a) = array_under_key(m, "result") {
                return Some(a);
            }
            if let Some(a) = array_under_key(m, "items") {
                return Some(a);
            }
            if let Some(a) = array_under_key(m, "rows") {
                return Some(a);
            }
            let vals = object_members(m);
            if vals.len() > 0 {
                Some(vals)
            } else {
                None
            }
        },
        None => None,
    }
}

/// An index as an integer.
pub open spec fn as_int(o: Option<usize>) -> Option<int> {
    match o {
        Some(i) => Some(i as int),
        None => None,
    }
}

/// The first index of `v` that opens a document.
fn first_opener(v: &Vec<char>) -> (r: Option<usize>)
    ensures
        r matches Some(i) ==> find_opener(v@, 0) == Some(i as int) && i < v@.len(),
        r is None ==> find_opener(v@, 0) is None,
{
    let mut i: usize = 0;
    while i < v.len()
        invariant
            i <= v.len(),
            find_opener(v@, i as int) == find_opener(v@, 0),
        decreases v.len() - i,
    {
        if v[i] == '{' || v[i] == '[' {
            return Some(i);
        }
        i = i + 1;
    }
    None
}

/// Parses `c[start..=end]`, where the end lies after the start.
fn parse_chars_slice(c: &Vec<char>, start: usize, end: Option<usize>) -> (r: Option<Value>)
    requires
        start < c.len(),
        end matches Some(e) ==> e < c.len(),
    ensures
        r is Some <==> parse_slice(c@, start as int, as_int(end)) is Some,
        r matches Some(v) ==> parse_slice(c@, start as int, as_int(end)) == Some(
            json_of(v),
        ),
{
    match end {
        Some(e) => {
            if e > start {
                let piece = string_of(&slice_chars(c, start, e + 1));
                match parse_json(piece.as_str()) {
                    Ok(v) => Some(v),
                    Err(_) => None,
                }
            } else {
                None
            }
        },
        None => None,
    }
}

/// The first line of `ls` that, trimmed, opens a document and parses.
fn parse_first_json_line(ls: &Vec<Vec<char>>) -> (r: Option<Value>)
    ensures
        r is Some <==> first_json_line(views(ls@)) is Some,
        r matches Some(v) ==> first_json_line(views(ls@)) == Some(json_of(v)),
{
    let ghost all = views(ls@);
    proof { assert(all.subrange(0, all.len() as int) =~= all); }
    let mut k: usize = 0;
    while k < ls.len()
        invariant
            k <= ls.len(),
            all == views(ls@),
            all.len() == ls.len(),
            first_json_line(all.subrange(k as int, all.len() as int)) == first_json_line(all),
        decreases ls.len() - k,
    {
        proof {
            assert(all.subrange(k as int, all.len() as int).drop_first() =~= all.subrange(
                k + 1,
                all.len() as int,
            ));
            assert(all.subrange(k as int, all.len() as int)[0] == ls@[k as int]@);
        }
        let t = trim_chars(&ls[k]);
        if t.len() > 0 && (t[0] == '{' || t[0] == '[') {
            let text = string_of(&t);
            if let Ok(v) = parse_json(text.as_str()) {
                return Some(v);
            }
        }
        k = k + 1;
    }
    proof { assert(all.subrange(k as int, all.len() as int) =~= Seq::<Seq<char>>::empty()); }
    None
}

/// Finds and parses a JSON document in CLI output (see `parse_flex`): the
/// whole ANSI-stripped, trimmed text; else the slice from the first `{` or
/// `[` to the last character that closes it; else the first line that parses. When
/// nothing parses, the failure is that of parsing the whole cleaned text.
pub fn try_parse_json_flex(raw: &str) -> (r: Result<Value, ParseFailure>)
    ensures
        r is Ok <==> parse_flex(raw@) is Some,
        r matches Ok(v) ==> parse_flex(raw@) == Some(json_of(v)),
        r matches Err(f) ==> json_parse(flex_clean(raw@)) == JsonParse::Failed(f.line, f.message@),
{
    let stripped = strip_ansi_codes(raw);
    let c = trim_chars(&chars_of(stripped.as_str()));
    let cleaned = string_of(&c);
    let whole = parse_json(cleaned.as_str());
    if whole.is_ok() {
        return whole;
    }
    if let Some(st) = first_opener(&c) {
        let closer = if c[st] == '{' {
            '}'
        } else {
            ']'
        };
        if let Some(v) = parse_chars_slice(&c, st, rfind_char(&c, closer)) {
            return Ok(v);
        }
    }
    let ls = split_lines(&c);
    match parse_first_json_line(&ls) {
        Some(v) => Ok(v),
        None => whole,
    }
}

/// Whether output text carries an obvious error message.
pub open spec fn has_error_marker(c: Seq<char>) -> bool {
    contains(c, "Error:"@) || contains(c, "error:"@)
}

/// CLI output with ANSI sequences, surrounding white space and leading
/// byte-order marks removed.
pub open spec fn cleaned_output(raw: Seq<char>) -> Seq<char> {
    trim_start_char(trim(strip_ansi(raw)), BOM)
}

/// Why CLI output yielded no record sequence.
#[derive(Debug, Clone, PartialEq, Eq)]
pub enum OutputError {
    /// Nothing was printed.
    Empty,
    /// The output carries an error message instead of a document.
    ErrorMarker { text: String },
    /// No document could be found; the parser's line, where it gave one.
    Unparseable { text: String, line: usize, message: String },
    /// A document was found, in none of the known envelopes.
    UnexpectedShape { structure: String },
}

/// How CLI output classifies: nothing printed; an error message; no
/// document; a document in no known envelope; or the records it holds.
pub ghost enum Outcome {
    Empty,
    ErrorMarker(Seq<char>),
    Unparseable(Seq<char>, JsonParse),
    UnexpectedShape,
    Records(Seq<Json>),
}

/// The classification of `raw`, checked in that order on its cleaned text.
pub open spec fn output_outcome(raw: Seq<char>) -> Outcome {
    let c = cleaned_output(raw);
    if c.len() == 0 {
        Outcome::Empty
    } else if has_error_marker(c) {
        Outcome::ErrorMarker(c)
    } else {
        match parse_flex(c) {
            None => Outcome::Unparseable(c, json_parse(flex_clean(c))),
            Some(j) => match records_of(j) {
                None => Outcome::UnexpectedShape,
                Some(rs) => Outcome::Records(rs),
            },
        }
    }
}

/// Whether `r` reports the outcome `o`.
pub open spec fn reports(o: Outcome, r: Result<Vec<Value>, OutputError>) -> bool {
    match o {
        Outcome::Empty => r matches Err(OutputError::Empty),
        Outcome::ErrorMarker(c) => r matches Err(OutputError::ErrorMarker { text }) && text@ == c,
        Outcome::Unparseable(c, p) => r matches Err(OutputError::Unparseable { text, line, message })
            && text@ == c && p == JsonParse::Failed(line, message@),
        Outcome::UnexpectedShape => r matches Err(OutputError::UnexpectedShape { .. }),
        Outcome::Records(rs) => r matches Ok(recs) && jsons(recs@) == rs,
    }
}

/// Turns raw CLI output into the sequence of records it holds.
pub fn normalize(raw: &str) -> (r: Result<Vec<Value>, OutputError>)
    ensures
        reports(output_outcome(raw@), r),
{
    let stripped = strip_ansi_codes(raw);
    let c = trim_start_char_chars(&trim_chars(&chars_of(stripped.as_str())), BOM);
    let cleaned = string_of(&c);
    if c.len() == 0 {
        return Err(OutputError::Empty);
    }
    if contains_chars(&c, "Error:") || contains_chars(&c, "error:") {
        return Err(OutputError::ErrorMarker { text: cleaned });
    }
    match try_parse_json_flex(cleaned.as_str()) {
        Ok(v) => match extract_drives_from_value(&v) {
            Some(recs) => Ok(recs),
            None => Err(OutputError::UnexpectedShape { structure: pretty_json(&v) }),
        },
        Err(f) => Err(OutputError::Unparseable { text: cleaned, line: f.line, message: f.message }),
    }
}

/// Output that cleans to nothing is its own outcome, told apart from output
/// that does not parse; empty output is such output.
pub proof fn lemma_empty_output(raw: Seq<char>)
    ensures
        cleaned_output(raw).len() == 0 ==> output_outcome(raw) == Outcome::Empty,
        output_outcome(Seq::<char>::empty()) == Outcome::Empty,
{
    let e = Seq::<char>::empty();
    assert(strip_ansi(e) =~= e);
    assert(trim(e) =~= e);
    assert(cleaned_output(e) =~= e);
}

/// The keys of the entries, in order.
pub open spec fn entry_keys(es: Seq<(Seq<char>, Json)>) -> Seq<Seq<char>> {
    es.map_values(|e: (Seq<char>, Json)| e.0)
}

/// Relies on `Map::keys`: the keys in iteration order.
#[verifier::external_body]
pub(crate) fn object_keys(m: &serde_json::Map<String, Value>) -> (r: Vec<String>)
    ensures
        texts(r@) == entry_keys(entries_of(*m)),
{
    m.keys().cloned().collect()
}

/// What a wallet's text shows when inspected: its top-level keys where it is
/// a JSON object, and its pretty form where it is JSON at all.
#[derive(Debug, Clone, PartialEq, Eq)]
pub struct WalletView {
    pub keys: Option<Vec<String>>,
    pub pretty: Option<String>,
}

/// Inspects a wallet's text without changing it.
pub fn inspect_wallet(content: &str) -> (r: WalletView)
    ensures
        r.pretty is Some <==> parsed_json(content@) is Some,
        r.keys is Some <==> parsed_json(content@) matches Some(Json::Obj(_)),
        r.keys matches Some(ks) ==> parsed_json(content@) == Some(Json::Obj(es_of(content@)))
            && texts(ks@) == entry_keys(es_of(content@)),
{
    match parse_json(content) {
        Ok(v) => {
            let keys = match v.as_object() {
                Some(m) => Some(object_keys(m)),
                None => None,
            };
            WalletView { keys, pretty: Some(pretty_json(&v)) }
        },
        Err(_) => WalletView { keys: None, pretty: None },
    }
}

/// The entries of the object that `s` parses into.
pub open spec fn es_of(s: Seq<char>) -> Seq<(Seq<char>, Json)> {
    match parsed_json(s) {
        Some(Json::Obj(es)) => es,
        _ => Seq::empty(),
    }
}

/// Normalizing output that was already stripped of ANSI sequences gives what
/// normalizing the raw output gives.
pub proof fn lemma_outcome_of_stripped(raw: Seq<char>)
    ensures
        output_outcome(strip_ansi(raw)) == output_outcome(raw),
{
    lemma_strip_ansi_idempotent(raw);
}

/// Output that is nothing but white space and byte-order marks is empty
/// output, never a parse failure.
pub proof fn lemma_blank_output_is_empty(raw: Seq<char>)
    requires
        trim_start_char(trim(raw), BOM).len() == 0,
    ensures
        output_outcome(raw) == Outcome::Empty,
{
    lemma_blank_has_no_escape(raw);
}

} // verus!

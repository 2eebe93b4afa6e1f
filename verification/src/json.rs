//! JSON documents as the library reads them.
//!
//! Parsing is serde_json's; the parsed value is converted one for one into
//! [`Json`], on which every lookup the library makes is verified code.
use vstd::prelude::*;

use crate::text::{chars_of, matches_at_exec, push_range, str_eq, trim, trim_bounds};

verus! {

/// A JSON value. Numbers carry no payload: nothing here reads one.
#[derive(Debug)]
pub enum Json {
    Null,
    Bool(bool),
    Number,
    Str(String),
    Array(Vec<Json>),
    /// Members in serde_json's iteration order; keys are distinct.
    Object(Vec<(String, Json)>),
}

/// The document serde_json reads from `text`, if `text` is valid JSON.
pub uninterp spec fn parsed_json(text: Seq<char>) -> Option<Json>;

/// How serde_json displays the member `key` of the document in `text`
/// (compact JSON), if `text` is a JSON object with that member.
pub uninterp spec fn displayed_member(text: Seq<char>, key: Seq<char>) -> Option<Seq<char>>;

#[verifier::external_type_specification]
#[verifier::external_body]
pub struct ExValue(serde_json::Value);

/// Converts a parsed serde_json value variant by variant.
#[verifier::external_body]
fn from_value(v: &serde_json::Value) -> Json {
    match v {
        serde_json::Value::Null => Json::Null,
        serde_json::Value::Bool(b) => Json::Bool(*b),
        serde_json::Value::Number(_) => Json::Number,
        serde_json::Value::String(s) => Json::Str(s.clone()),
        serde_json::Value::Array(items) => Json::Array(items.iter().map(from_value).collect()),
        serde_json::Value::Object(members) => Json::Object(
            members.iter().map(|(k, m)| (k.clone(), from_value(m))).collect(),
        ),
    }
}

/// `serde_json::from_str::<serde_json::Value>`: the document in `text`, or
/// `None` when `text` is not valid JSON. The contract names the result and
/// claims nothing else of serde_json's grammar.
#[verifier::external_body]
pub(crate) fn parse_json(text: &str) -> (r: Option<Json>)
    ensures
        r == parsed_json(text@),
{
    match serde_json::from_str::<serde_json::Value>(text) {
        Ok(v) => Some(from_value(&v)),
        Err(_) => None,
    }
}

/// `serde_json::from_str`, then `Value::get` and its `Display`: the member
/// `key` of the document in `text`, rendered as compact JSON. The contract
/// names the rendering and claims nothing of it; it states that there is one
/// exactly when the same parse, as [`parse_json`] reads it, is an object with
/// a member `key` (`get` finds members of objects only).
#[verifier::external_body]
pub(crate) fn member_display(text: &str, key: &str) -> (r: Option<String>)
    ensures
        match r {
            Some(s) => displayed_member(text@, key@) == Some(s@),
            None => displayed_member(text@, key@) is None,
        },
        r is Some <==> (parsed_json(text@) matches Some(j) && member(j, key@) is Some),
{
    match serde_json::from_str::<serde_json::Value>(text) {
        Ok(v) => v.get(key).map(|m| m.to_string()),
        Err(_) => None,
    }
}

// ------------------------------------------------------------------ model output

/// `s` with every leading repetition of `pat` removed.
pub open spec fn strip_prefixes(s: Seq<char>, pat: Seq<char>) -> Seq<char>
    decreases s.len(),
{
    if pat.len() > 0 && pat.len() <= s.len() && s.take(pat.len() as int) == pat {
        strip_prefixes(s.skip(pat.len() as int), pat)
    } else {
        s
    }
}

/// `s` with every trailing repetition of `pat` removed.
pub open spec fn strip_suffixes(s: Seq<char>, pat: Seq<char>) -> Seq<char>
    decreases s.len(),
{
    if pat.len() > 0 && pat.len() <= s.len() && s.skip(s.len() - pat.len()) == pat {
        strip_suffixes(s.take(s.len() - pat.len()), pat)
    } else {
        s
    }
}

/// Model output with a surrounding Markdown code fence removed: models
/// often wrap the JSON they were asked for in one.
pub open spec fn unfenced(raw: Seq<char>) -> Seq<char> {
    trim(strip_suffixes(strip_prefixes(strip_prefixes(trim(raw), "```json"@), "```"@), "```"@))
}

/// Advances `lo` past every repetition of `pat` at the start of `v[lo..hi]`.
fn strip_prefixes_bound(v: &Vec<char>, pat: &Vec<char>, lo: usize, hi: usize) -> (r: usize)
    requires
        lo <= hi <= v.len(),
    ensures
        lo <= r <= hi,
        strip_prefixes(v@.subrange(lo as int, hi as int), pat@) == v@.subrange(r as int, hi as int),
{
    let mut l = lo;
    while pat.len() > 0 && pat.len() <= hi - l && matches_at_exec(v, pat, l)
        invariant
            lo <= l <= hi <= v.len(),
            strip_prefixes(v@.subrange(lo as int, hi as int), pat@) == strip_prefixes(
                v@.subrange(l as int, hi as int),
                pat@,
            ),
        decreases hi - l,
    {
        let ghost sub = v@.subrange(l as int, hi as int);
        assert(sub.take(pat.len() as int) =~= v@.subrange(l as int, l + pat.len()));
        assert(sub.skip(pat.len() as int) =~= v@.subrange(l + pat.len(), hi as int));
        l = l + pat.len();
    }
    proof {
        let sub = v@.subrange(l as int, hi as int);
        if pat.len() > 0 && pat.len() <= hi - l {
            assert(sub.take(pat.len() as int) =~= v@.subrange(l as int, l + pat.len()));
        }
    }
    l
}

/// Pulls `hi` before every repetition of `pat` at the end of `v[lo..hi]`.
fn strip_suffixes_bound(v: &Vec<char>, pat: &Vec<char>, lo: usize, hi: usize) -> (r: usize)
    requires
        lo <= hi <= v.len(),
    ensures
        lo <= r <= hi,
        strip_suffixes(v@.subrange(lo as int, hi as int), pat@) == v@.subrange(lo as int, r as int),
{
    let mut h = hi;
    while pat.len() > 0 && pat.len() <= h - lo && matches_at_exec(v, pat, h - pat.len())
        invariant
            lo <= h <= hi <= v.len(),
            strip_suffixes(v@.subrange(lo as int, hi as int), pat@) == strip_suffixes(
                v@.subrange(lo as int, h as int),
                pat@,
            ),
        decreases h,
    {
        let ghost sub = v@.subrange(lo as int, h as int);
        assert(sub.skip(sub.len() - pat.len()) =~= v@.subrange(h - pat.len(), h as int));
        assert(sub.take(sub.len() - pat.len()) =~= v@.subrange(lo as int, h - pat.len()));
        h = h - pat.len();
    }
    proof {
        let sub = v@.subrange(lo as int, h as int);
        if pat.len() > 0 && pat.len() <= h - lo {
            assert(sub.skip(sub.len() - pat.len()) =~= v@.subrange(h - pat.len(), h as int));
        }
    }
    h
}

/// Model output with a surrounding code fence removed.
pub fn unfence(raw: &str) -> (r: String)
    ensures
        r@ == unfenced(raw@),
{
    let v = chars_of(raw);
    let json_fence = chars_of("```json");
    let fence = chars_of("```");
    let (lo0, hi0) = trim_bounds(&v, 0, v.len());
    assert(v@.subrange(0, v.len() as int) =~= v@);
    let lo1 = strip_prefixes_bound(&v, &json_fence, lo0, hi0);
    let lo2 = strip_prefixes_bound(&v, &fence, lo1, hi0);
    let hi1 = strip_suffixes_bound(&v, &fence, lo2, hi0);
    let (lo, hi) = trim_bounds(&v, lo2, hi1);
    let mut r = String::new();
    push_range(&mut r, &v, lo, hi);
    r
}

/// Index of the first member at or after `i` whose key is `key`.
pub open spec fn member_index_from(members: Seq<(String, Json)>, key: Seq<char>, i: int) -> Option<
    int,
>
    decreases members.len() - i,
{
    if i < 0 || i >= members.len() {
        None
    } else if members[i].0@ == key {
        Some(i)
    } else {
        member_index_from(members, key, i + 1)
    }
}

/// The member `key` of an object; `None` for other values or a missing key,
/// as `serde_json::Value::get` has it.
pub open spec fn member(j: Json, key: Seq<char>) -> Option<Json> {
    match j {
        Json::Object(members) => match member_index_from(members@, key, 0) {
            Some(k) => Some(members@[k].1),
            None => None,
        },
        _ => None,
    }
}

/// Element `i` of an array; `None` for other values or out of range.
pub open spec fn element(j: Json, i: int) -> Option<Json> {
    match j {
        Json::Array(items) => if 0 <= i < items@.len() {
            Some(items@[i])
        } else {
            None
        },
        _ => None,
    }
}

/// Member lookup through an optional value, as `value["key"]` chains.
pub open spec fn at_key(j: Option<Json>, key: Seq<char>) -> Option<Json> {
    match j {
        Some(v) => member(v, key),
        None => None,
    }
}

/// Element lookup through an optional value, as `value[i]` chains.
pub open spec fn at_index(j: Option<Json>, i: int) -> Option<Json> {
    match j {
        Some(v) => element(v, i),
        None => None,
    }
}

/// The text of a string value, as `Value::as_str`.
pub open spec fn str_of(j: Option<Json>) -> Option<Seq<char>> {
    match j {
        Some(Json::Str(s)) => Some(s@),
        _ => None,
    }
}

/// The text of a string value, empty for anything else.
pub open spec fn str_or_empty(j: Option<Json>) -> Seq<char> {
    match str_of(j) {
        Some(s) => s,
        None => Seq::empty(),
    }
}

pub fn get_member<'a>(j: &'a Json, key: &str) -> (r: Option<&'a Json>)
    ensures
        match r {
            Some(v) => member(*j, key@) == Some(*v),
            None => member(*j, key@) is None,
        },
{
    match j {
        Json::Object(members) => {
            let mut i: usize = 0;
            #[verifier::loop_isolation(false)]
            while i < members.len()
                invariant
                    i <= members.len(),
                    member_index_from(members@, key@, 0) == member_index_from(
                        members@,
                        key@,
                        i as int,
                    ),
                decreases members.len() - i,
            {
                if str_eq(members[i].0.as_str(), key) {
                    assert(member_index_from(members@, key@, i as int) == Some(i as int));
                    return Some(&members[i].1);
                }
                i += 1;
            }
            None
        },
        _ => None,
    }
}

pub fn at_key_exec<'a>(j: Option<&'a Json>, key: &str) -> (r: Option<&'a Json>)
    ensures
        match r {
            Some(v) => at_key(deref_opt(j), key@) == Some(*v),
            None => at_key(deref_opt(j), key@) is None,
        },
{
    match j {
        Some(v) => get_member(v, key),
        None => None,
    }
}

pub fn at_index_exec<'a>(j: Option<&'a Json>, i: usize) -> (r: Option<&'a Json>)
    ensures
        match r {
            Some(v) => at_index(deref_opt(j), i as int) == Some(*v),
            None => at_index(deref_opt(j), i as int) is None,
        },
{
    match j {
        Some(Json::Array(items)) => if i < items.len() {
            Some(&items[i])
        } else {
            None
        },
        _ => None,
    }
}

/// An optional reference as an optional value.
pub open spec fn deref_opt(j: Option<&Json>) -> Option<Json> {
    match j {
        Some(v) => Some(*v),
        None => None,
    }
}

pub fn str_or_empty_exec(j: Option<&Json>) -> (r: String)
    ensures
        r@ == str_or_empty(deref_opt(j)),
{
    match j {
        Some(Json::Str(s)) => s.clone(),
        _ => String::new(),
    }
}

pub fn str_of_exec(j: Option<&Json>) -> (r: Option<String>)
    ensures
        match r {
            Some(s) => str_of(deref_opt(j)) == Some(s@),
            None => str_of(deref_opt(j)) is None,
        },
{
    match j {
        Some(Json::Str(s)) => Some(s.clone()),
        _ => None,
    }
}

} // verus!

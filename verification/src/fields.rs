use vstd::prelude::*;

use crate::json::{
    views_of_entries, views_of_values, spec_get, get_field, clone_number, clone_value, JsonNumber,
    JsonNumberV, JsonValue, JsonView,
};

verus! {

use crate::json::{lemma_views_of_entries, lemma_views_of_values};

/// The character sequence of a string view; meaningful when `v is Str`.
pub open spec fn jv_str(v: JsonView) -> Seq<char> {
    match v {
        JsonView::Str(s) => s,
        _ => Seq::empty(),
    }
}

/// The number of a numeric view; meaningful when `v is Num`.
pub open spec fn jv_num(v: JsonView) -> JsonNumberV {
    match v {
        JsonView::Num(n) => n,
        _ => JsonNumberV::UInt(0),
    }
}

/// A required string field.
pub open spec fn spec_req_string(o: Seq<(Seq<char>, JsonView)>, key: Seq<char>) -> Option<
    Seq<char>,
> {
    match spec_get(o, key) {
        Some(JsonView::Str(s)) => Some(s),
        _ => None,
    }
}

/// A required boolean field.
pub open spec fn spec_req_bool(o: Seq<(Seq<char>, JsonView)>, key: Seq<char>) -> Option<bool> {
    match spec_get(o, key) {
        Some(JsonView::Bool(b)) => Some(b),
        _ => None,
    }
}

/// A required non-negative integer field.
pub open spec fn spec_req_u64(o: Seq<(Seq<char>, JsonView)>, key: Seq<char>) -> Option<u64> {
    match spec_get(o, key) {
        Some(JsonView::Num(JsonNumberV::UInt(u))) => Some(u),
        _ => None,
    }
}

/// A required non-negative integer field that must fit in `u32`.
pub open spec fn spec_req_u32(o: Seq<(Seq<char>, JsonView)>, key: Seq<char>) -> Option<u32> {
    match spec_req_u64(o, key) {
        Some(u) => if u <= u32::MAX as u64 {
            Some(u as u32)
        } else {
            None
        },
        None => None,
    }
}

/// A required non-negative integer field that must fit in `u16`.
pub open spec fn spec_req_u16(o: Seq<(Seq<char>, JsonView)>, key: Seq<char>) -> Option<u16> {
    match spec_req_u64(o, key) {
        Some(u) => if u <= u16::MAX as u64 {
            Some(u as u16)
        } else {
            None
        },
        None => None,
    }
}

/// A required non-negative integer field that must fit in `u8`.
pub open spec fn spec_req_u8(o: Seq<(Seq<char>, JsonView)>, key: Seq<char>) -> Option<u8> {
    match spec_req_u64(o, key) {
        Some(u) => if u <= u8::MAX as u64 {
            Some(u as u8)
        } else {
            None
        },
        None => None,
    }
}

/// A required numeric field of any numeric shape.
pub open spec fn spec_req_num(o: Seq<(Seq<char>, JsonView)>, key: Seq<char>) -> Option<
    JsonNumberV,
> {
    match spec_get(o, key) {
        Some(JsonView::Num(n)) => Some(n),
        _ => None,
    }
}

/// A required field of any shape, passed through verbatim.
pub open spec fn spec_req_value(o: Seq<(Seq<char>, JsonView)>, key: Seq<char>) -> Option<
    JsonView,
> {
    spec_get(o, key)
}

/// An optional string field: absent or null is accepted as nothing.
pub open spec fn spec_opt_string(o: Seq<(Seq<char>, JsonView)>, key: Seq<char>) -> Option<
    Option<Seq<char>>,
> {
    match spec_get(o, key) {
        None => Some(None),
        Some(JsonView::Null) => Some(None),
        Some(JsonView::Str(s)) => Some(Some(s)),
        Some(_) => None,
    }
}

/// An optional boolean field: absent or null is accepted as nothing.
pub open spec fn spec_opt_bool(o: Seq<(Seq<char>, JsonView)>, key: Seq<char>) -> Option<
    Option<bool>,
> {
    match spec_get(o, key) {
        None => Some(None),
        Some(JsonView::Null) => Some(None),
        Some(JsonView::Bool(b)) => Some(Some(b)),
        Some(_) => None,
    }
}

/// An optional non-negative integer field.
pub open spec fn spec_opt_u64(o: Seq<(Seq<char>, JsonView)>, key: Seq<char>) -> Option<
    Option<u64>,
> {
    match spec_get(o, key) {
        None => Some(None),
        Some(JsonView::Null) => Some(None),
        Some(JsonView::Num(JsonNumberV::UInt(u))) => Some(Some(u)),
        Some(_) => None,
    }
}

/// An optional non-negative integer field that must fit in `u32`.
pub open spec fn spec_opt_u32(o: Seq<(Seq<char>, JsonView)>, key: Seq<char>) -> Option<
    Option<u32>,
> {
    match spec_opt_u64(o, key) {
        Some(Some(u)) => if u <= u32::MAX as u64 {
            Some(Some(u as u32))
        } else {
            None
        },
        Some(None) => Some(None),
        None => None,
    }
}

/// An optional non-negative integer field that must fit in `u8`.
pub open spec fn spec_opt_u8(o: Seq<(Seq<char>, JsonView)>, key: Seq<char>) -> Option<
    Option<u8>,
> {
    match spec_opt_u64(o, key) {
        Some(Some(u)) => if u <= u8::MAX as u64 {
            Some(Some(u as u8))
        } else {
            None
        },
        Some(None) => Some(None),
        None => None,
    }
}

/// An optional signed integer field that must fit in `i32`.
pub open spec fn spec_opt_i32(o: Seq<(Seq<char>, JsonView)>, key: Seq<char>) -> Option<
    Option<i32>,
> {
    match spec_get(o, key) {
        None => Some(None),
        Some(JsonView::Null) => Some(None),
        Some(JsonView::Num(JsonNumberV::UInt(u))) => if u <= i32::MAX as u64 {
            Some(Some(u as i32))
        } else {
            None
        },
        Some(JsonView::Num(JsonNumberV::Int(i))) => if i32::MIN as i64 <= i <= i32::MAX as i64 {
            Some(Some(i as i32))
        } else {
            None
        },
        Some(_) => None,
    }
}

/// An optional signed integer field that must fit in `i8`.
pub open spec fn spec_opt_i8(o: Seq<(Seq<char>, JsonView)>, key: Seq<char>) -> Option<
    Option<i8>,
> {
    match spec_get(o, key) {
        None => Some(None),
        Some(JsonView::Null) => Some(None),
        Some(JsonView::Num(JsonNumberV::UInt(u))) => if u <= i8::MAX as u64 {
            Some(Some(u as i8))
        } else {
            None
        },
        Some(JsonView::Num(JsonNumberV::Int(i))) => if i8::MIN as i64 <= i <= i8::MAX as i64 {
            Some(Some(i as i8))
        } else {
            None
        },
        Some(_) => None,
    }
}

/// All items of an array as strings, when each one is a string.
pub open spec fn spec_strings_of(items: Seq<JsonView>) -> Option<Seq<Seq<char>>> {
    if forall|i: int| 0 <= i < items.len() ==> (#[trigger] items[i]) is Str {
        Some(Seq::new(items.len(), |i: int| jv_str(items[i])))
    } else {
        None
    }
}

/// All items of an array as numbers, when each one is a number.
pub open spec fn spec_nums_of(items: Seq<JsonView>) -> Option<Seq<JsonNumberV>> {
    if forall|i: int| 0 <= i < items.len() ==> (#[trigger] items[i]) is Num {
        Some(Seq::new(items.len(), |i: int| jv_num(items[i])))
    } else {
        None
    }
}

/// All entries of an object with string values, keys kept in order.
pub open spec fn spec_str_entries_of(kvs: Seq<(Seq<char>, JsonView)>) -> Option<
    Seq<(Seq<char>, Seq<char>)>,
> {
    if forall|i: int| 0 <= i < kvs.len() ==> (#[trigger] kvs[i]).1 is Str {
        Some(Seq::new(kvs.len(), |i: int| (kvs[i].0, jv_str(kvs[i].1))))
    } else {
        None
    }
}

/// All entries of an object whose values are strings or null, null read as
/// nothing, keys kept in order.
pub open spec fn spec_optstr_entries_of(kvs: Seq<(Seq<char>, JsonView)>) -> Option<
    Seq<(Seq<char>, Option<Seq<char>>)>,
> {
    if forall|i: int|
        0 <= i < kvs.len() ==> (#[trigger] kvs[i]).1 is Str || kvs[i].1 is Null {
        Some(
            Seq::new(
                kvs.len(),
                |i: int|
                    (
                        kvs[i].0,
                        if kvs[i].1 is Str {
                            Some(jv_str(kvs[i].1))
                        } else {
                            None
                        },
                    ),
            ),
        )
    } else {
        None
    }
}

/// All entries of an object with numeric values, keys kept in order.
pub open spec fn spec_num_entries_of(kvs: Seq<(Seq<char>, JsonView)>) -> Option<
    Seq<(Seq<char>, JsonNumberV)>,
> {
    if forall|i: int| 0 <= i < kvs.len() ==> (#[trigger] kvs[i]).1 is Num {
        Some(Seq::new(kvs.len(), |i: int| (kvs[i].0, jv_num(kvs[i].1))))
    } else {
        None
    }
}

/// A required array field of strings.
pub open spec fn spec_req_string_seq(o: Seq<(Seq<char>, JsonView)>, key: Seq<char>) -> Option<
    Seq<Seq<char>>,
> {
    match spec_get(o, key) {
        Some(JsonView::Arr(items)) => spec_strings_of(items),
        _ => None,
    }
}

/// A required array field of numbers.
pub open spec fn spec_req_num_seq(o: Seq<(Seq<char>, JsonView)>, key: Seq<char>) -> Option<
    Seq<JsonNumberV>,
> {
    match spec_get(o, key) {
        Some(JsonView::Arr(items)) => spec_nums_of(items),
        _ => None,
    }
}

/// An optional array field of strings.
pub open spec fn spec_opt_string_seq(o: Seq<(Seq<char>, JsonView)>, key: Seq<char>) -> Option<
    Option<Seq<Seq<char>>>,
> {
    match spec_get(o, key) {
        None => Some(None),
        Some(JsonView::Null) => Some(None),
        Some(JsonView::Arr(items)) => match spec_strings_of(items) {
            Some(ss) => Some(Some(ss)),
            None => None,
        },
        Some(_) => None,
    }
}

/// A required object field whose values are strings or null.
pub open spec fn spec_req_optstr_map(o: Seq<(Seq<char>, JsonView)>, key: Seq<char>) -> Option<
    Seq<(Seq<char>, Option<Seq<char>>)>,
> {
    match spec_get(o, key) {
        Some(JsonView::Obj(kvs)) => spec_optstr_entries_of(kvs),
        _ => None,
    }
}

/// An optional object field whose values are strings or null.
pub open spec fn spec_opt_optstr_map(o: Seq<(Seq<char>, JsonView)>, key: Seq<char>) -> Option<
    Option<Seq<(Seq<char>, Option<Seq<char>>)>>,
> {
    match spec_get(o, key) {
        None => Some(None),
        Some(JsonView::Null) => Some(None),
        Some(JsonView::Obj(kvs)) => match spec_optstr_entries_of(kvs) {
            Some(es) => Some(Some(es)),
            None => None,
        },
        Some(_) => None,
    }
}

/// An optional object field with string values.
pub open spec fn spec_opt_str_map(o: Seq<(Seq<char>, JsonView)>, key: Seq<char>) -> Option<
    Option<Seq<(Seq<char>, Seq<char>)>>,
> {
    match spec_get(o, key) {
        None => Some(None),
        Some(JsonView::Null) => Some(None),
        Some(JsonView::Obj(kvs)) => match spec_str_entries_of(kvs) {
            Some(es) => Some(Some(es)),
            None => None,
        },
        Some(_) => None,
    }
}

/// An optional object field with numeric values.
pub open spec fn spec_opt_num_map(o: Seq<(Seq<char>, JsonView)>, key: Seq<char>) -> Option<
    Option<Seq<(Seq<char>, JsonNumberV)>>,
> {
    match spec_get(o, key) {
        None => Some(None),
        Some(JsonView::Null) => Some(None),
        Some(JsonView::Obj(kvs)) => match spec_num_entries_of(kvs) {
            Some(es) => Some(Some(es)),
            None => None,
        },
        Some(_) => None,
    }
}

/// An optional object field whose values are passed through verbatim.
pub open spec fn spec_opt_value_map(o: Seq<(Seq<char>, JsonView)>, key: Seq<char>) -> Option<
    Option<Seq<(Seq<char>, JsonView)>>,
> {
    match spec_get(o, key) {
        None => Some(None),
        Some(JsonView::Null) => Some(None),
        Some(JsonView::Obj(kvs)) => Some(Some(kvs)),
        Some(_) => None,
    }
}


/// Reads a required string field.
pub(crate) fn req_string(entries: &Vec<(String, JsonValue)>, key: &str) -> (r: Option<String>)
    ensures
        r.deep_view() == spec_req_string(views_of_entries(entries@), key@),
{
    match get_field(entries, key) {
        Some(v) => match v {
            JsonValue::Str(s) => Some(s.clone()),
            _ => None,
        },
        None => None,
    }
}

/// Reads a required boolean field.
pub(crate) fn req_bool(entries: &Vec<(String, JsonValue)>, key: &str) -> (r: Option<bool>)
    ensures
        r.deep_view() == spec_req_bool(views_of_entries(entries@), key@),
{
    match get_field(entries, key) {
        Some(v) => match v {
            JsonValue::Bool(b) => Some(*b),
            _ => None,
        },
        None => None,
    }
}

/// Reads a required non-negative integer field.
pub(crate) fn req_u64(entries: &Vec<(String, JsonValue)>, key: &str) -> (r: Option<u64>)
    ensures
        r.deep_view() == spec_req_u64(views_of_entries(entries@), key@),
{
    match get_field(entries, key) {
        Some(v) => match v {
            JsonValue::Num(n) => match n {
                JsonNumber::UInt(u) => Some(*u),
                _ => None,
            },
            _ => None,
        },
        None => None,
    }
}

/// Reads a required integer field that must fit in `u32`.
pub(crate) fn req_u32(entries: &Vec<(String, JsonValue)>, key: &str) -> (r: Option<u32>)
    ensures
        r.deep_view() == spec_req_u32(views_of_entries(entries@), key@),
{
    match req_u64(entries, key) {
        Some(u) => if u <= u32::MAX as u64 {
            Some(u as u32)
        } else {
            None
        },
        None => None,
    }
}

/// Reads a required integer field that must fit in `u16`.
pub(crate) fn req_u16(entries: &Vec<(String, JsonValue)>, key: &str) -> (r: Option<u16>)
    ensures
        r.deep_view() == spec_req_u16(views_of_entries(entries@), key@),
{
    match req_u64(entries, key) {
        Some(u) => if u <= u16::MAX as u64 {
            Some(u as u16)
        } else {
            None
        },
        None => None,
    }
}

/// Reads a required integer field that must fit in `u8`.
pub(crate) fn req_u8(entries: &Vec<(String, JsonValue)>, key: &str) -> (r: Option<u8>)
    ensures
        r.deep_view() == spec_req_u8(views_of_entries(entries@), key@),
{
    match req_u64(entries, key) {
        Some(u) => if u <= u8::MAX as u64 {
            Some(u as u8)
        } else {
            None
        },
        None => None,
    }
}

/// Reads a required numeric field of any numeric shape.
pub(crate) fn req_num(entries: &Vec<(String, JsonValue)>, key: &str) -> (r: Option<JsonNumber>)
    ensures
        r.deep_view() == spec_req_num(views_of_entries(entries@), key@),
{
    match get_field(entries, key) {
        Some(v) => match v {
            JsonValue::Num(n) => Some(clone_number(n)),
            _ => None,
        },
        None => None,
    }
}

/// Reads a required field of any shape, copied verbatim.
pub(crate) fn req_value(entries: &Vec<(String, JsonValue)>, key: &str) -> (r: Option<JsonValue>)
    ensures
        r.deep_view() == spec_req_value(views_of_entries(entries@), key@),
{
    match get_field(entries, key) {
        Some(v) => Some(clone_value(v)),
        None => None,
    }
}

/// Reads an optional string field.
pub(crate) fn opt_string(entries: &Vec<(String, JsonValue)>, key: &str) -> (r: Option<
    Option<String>,
>)
    ensures
        r.deep_view() == spec_opt_string(views_of_entries(entries@), key@),
{
    match get_field(entries, key) {
        None => Some(None),
        Some(v) => match v {
            JsonValue::Null => Some(None),
            JsonValue::Str(s) => Some(Some(s.clone())),
            _ => None,
        },
    }
}

/// Reads an optional boolean field.
pub(crate) fn opt_bool(entries: &Vec<(String, JsonValue)>, key: &str) -> (r: Option<
    Option<bool>,
>)
    ensures
        r.deep_view() == spec_opt_bool(views_of_entries(entries@), key@),
{
    match get_field(entries, key) {
        None => Some(None),
        Some(v) => match v {
            JsonValue::Null => Some(None),
            JsonValue::Bool(b) => Some(Some(*b)),
            _ => None,
        },
    }
}

/// Reads an optional non-negative integer field.
pub(crate) fn opt_u64(entries: &Vec<(String, JsonValue)>, key: &str) -> (r: Option<Option<u64>>)
    ensures
        r.deep_view() == spec_opt_u64(views_of_entries(entries@), key@),
{
    match get_field(entries, key) {
        None => Some(None),
        Some(v) => match v {
            JsonValue::Null => Some(None),
            JsonValue::Num(n) => match n {
                JsonNumber::UInt(u) => Some(Some(*u)),
                _ => None,
            },
            _ => None,
        },
    }
}

/// Reads an optional integer field that must fit in `u32`.
pub(crate) fn opt_u32(entries: &Vec<(String, JsonValue)>, key: &str) -> (r: Option<Option<u32>>)
    ensures
        r.deep_view() == spec_opt_u32(views_of_entries(entries@), key@),
{
    match opt_u64(entries, key) {
        Some(x) => match x {
            Some(u) => if u <= u32::MAX as u64 {
                Some(Some(u as u32))
            } else {
                None
            },
            None => Some(None),
        },
        None => None,
    }
}

/// Reads an optional integer field that must fit in `u8`.
pub(crate) fn opt_u8(entries: &Vec<(String, JsonValue)>, key: &str) -> (r: Option<Option<u8>>)
    ensures
        r.deep_view() == spec_opt_u8(views_of_entries(entries@), key@),
{
    match opt_u64(entries, key) {
        Some(x) => match x {
            Some(u) => if u <= u8::MAX as u64 {
                Some(Some(u as u8))
            } else {
                None
            },
            None => Some(None),
        },
        None => None,
    }
}

/// Reads an optional signed integer field that must fit in `i32`.
pub(crate) fn opt_i32(entries: &Vec<(String, JsonValue)>, key: &str) -> (r: Option<Option<i32>>)
    ensures
        r.deep_view() == spec_opt_i32(views_of_entries(entries@), key@),
{
    match get_field(entries, key) {
        None => Some(None),
        Some(v) => match v {
            JsonValue::Null => Some(None),
            JsonValue::Num(n) => match n {
                JsonNumber::UInt(u) => if *u <= i32::MAX as u64 {
                    Some(Some(*u as i32))
                } else {
                    None
                },
                JsonNumber::Int(i) => if i32::MIN as i64 <= *i && *i <= i32::MAX as i64 {
                    Some(Some(*i as i32))
                } else {
                    None
                },
                _ => None,
            },
            _ => None,
        },
    }
}

/// Reads an optional signed integer field that must fit in `i8`.
pub(crate) fn opt_i8(entries: &Vec<(String, JsonValue)>, key: &str) -> (r: Option<Option<i8>>)
    ensures
        r.deep_view() == spec_opt_i8(views_of_entries(entries@), key@),
{
    match get_field(entries, key) {
        None => Some(None),
        Some(v) => match v {
            JsonValue::Null => Some(None),
            JsonValue::Num(n) => match n {
                JsonNumber::UInt(u) => if *u <= i8::MAX as u64 {
                    Some(Some(*u as i8))
                } else {
                    None
                },
                JsonNumber::Int(i) => if i8::MIN as i64 <= *i && *i <= i8::MAX as i64 {
                    Some(Some(*i as i8))
                } else {
                    None
                },
                _ => None,
            },
            _ => None,
        },
    }
}


/// Converts an array's items into strings, when each one is a string.
pub(crate) fn string_items(items: &Vec<JsonValue>) -> (r: Option<Vec<String>>)
    ensures
        r.deep_view() == spec_strings_of(views_of_values(items@)),
{
    let ghost ivs = views_of_values(items@);
    proof {
        lemma_views_of_values(items@);
    }
    let mut out: Vec<String> = Vec::new();
    let mut i: usize = 0;
    while i < items.len()
        invariant
            ivs == views_of_values(items@),
            ivs.len() == items@.len(),
            forall|j: int| 0 <= j < items@.len() ==> ivs[j] == items@[j].deep_view(),
            0 <= i <= items@.len(),
            out@.len() == i,
            forall|j: int| 0 <= j < i ==> (#[trigger] ivs[j]) is Str && out@[j]@ == jv_str(ivs[j]),
        decreases items@.len() - i,
    {
        match &items[i] {
            JsonValue::Str(s) => out.push(s.clone()),
            _ => {
                proof {
                    assert(!((#[trigger] ivs[i as int]) is Str));
                }
                return None;
            },
        }
        i += 1;
    }
    proof {
        assert(spec_strings_of(ivs) is Some);
        assert(out.deep_view() =~= spec_strings_of(ivs)->Some_0);
    }
    Some(out)
}

/// Converts an array's items into numbers, when each one is a number.
pub(crate) fn num_items(items: &Vec<JsonValue>) -> (r: Option<Vec<JsonNumber>>)
    ensures
        r.deep_view() == spec_nums_of(views_of_values(items@)),
{
    let ghost ivs = views_of_values(items@);
    proof {
        lemma_views_of_values(items@);
    }
    let mut out: Vec<JsonNumber> = Vec::new();
    let mut i: usize = 0;
    while i < items.len()
        invariant
            ivs == views_of_values(items@),
            ivs.len() == items@.len(),
            forall|j: int| 0 <= j < items@.len() ==> ivs[j] == items@[j].deep_view(),
            0 <= i <= items@.len(),
            out@.len() == i,
            forall|j: int|
                0 <= j < i ==> (#[trigger] ivs[j]) is Num && out@[j].deep_view() == jv_num(ivs[j]),
        decreases items@.len() - i,
    {
        match &items[i] {
            JsonValue::Num(n) => out.push(clone_number(n)),
            _ => {
                proof {
                    assert(!((#[trigger] ivs[i as int]) is Num));
                }
                return None;
            },
        }
        i += 1;
    }
    proof {
        assert(spec_nums_of(ivs) is Some);
        assert(out.deep_view() =~= spec_nums_of(ivs)->Some_0);
    }
    Some(out)
}

/// Converts an object's entries into string pairs, when each value is a
/// string.
pub(crate) fn str_entries(kvs: &Vec<(String, JsonValue)>) -> (r: Option<Vec<(String, String)>>)
    ensures
        r.deep_view() == spec_str_entries_of(views_of_entries(kvs@)),
{
    let ghost evs = views_of_entries(kvs@);
    proof {
        lemma_views_of_entries(kvs@);
    }
    let mut out: Vec<(String, String)> = Vec::new();
    let mut i: usize = 0;
    while i < kvs.len()
        invariant
            evs == views_of_entries(kvs@),
            evs.len() == kvs@.len(),
            forall|j: int| 0 <= j < kvs@.len() ==> evs[j] == (kvs@[j].0@, kvs@[j].1.deep_view()),
            0 <= i <= kvs@.len(),
            out@.len() == i,
            forall|j: int|
                0 <= j < i ==> (#[trigger] evs[j]).1 is Str && out@[j].0@ == evs[j].0
                    && out@[j].1@ == jv_str(evs[j].1),
        decreases kvs@.len() - i,
    {
        let pair = &kvs[i];
        match &pair.1 {
            JsonValue::Str(val) => out.push((pair.0.clone(), val.clone())),
            _ => {
                proof {
                    assert(!((#[trigger] evs[i as int]).1 is Str));
                }
                return None;
            },
        }
        i += 1;
    }
    proof {
        assert(spec_str_entries_of(evs) is Some);
        assert(out.deep_view() =~= spec_str_entries_of(evs)->Some_0);
    }
    Some(out)
}

/// Converts an object's entries into pairs of key and optional string,
/// when each value is a string or null.
pub(crate) fn optstr_entries(kvs: &Vec<(String, JsonValue)>) -> (r: Option<
    Vec<(String, Option<String>)>,
>)
    ensures
        r.deep_view() == spec_optstr_entries_of(views_of_entries(kvs@)),
{
    let ghost evs = views_of_entries(kvs@);
    proof {
        lemma_views_of_entries(kvs@);
    }
    let mut out: Vec<(String, Option<String>)> = Vec::new();
    let mut i: usize = 0;
    while i < kvs.len()
        invariant
            evs == views_of_entries(kvs@),
            evs.len() == kvs@.len(),
            forall|j: int| 0 <= j < kvs@.len() ==> evs[j] == (kvs@[j].0@, kvs@[j].1.deep_view()),
            0 <= i <= kvs@.len(),
            out@.len() == i,
            forall|j: int|
                0 <= j < i ==> ((#[trigger] evs[j]).1 is Str || evs[j].1 is Null) && out@[j].0@
                    == evs[j].0 && out@[j].1.deep_view() == (if evs[j].1 is Str {
                    Some(jv_str(evs[j].1))
                } else {
                    None
                }),
        decreases kvs@.len() - i,
    {
        let pair = &kvs[i];
        match &pair.1 {
            JsonValue::Str(val) => out.push((pair.0.clone(), Some(val.clone()))),
            JsonValue::Null => out.push((pair.0.clone(), None)),
            _ => {
                proof {
                    assert(!((#[trigger] evs[i as int]).1 is Str));
                }
                return None;
            },
        }
        i += 1;
    }
    proof {
        assert(spec_optstr_entries_of(evs) is Some);
        assert(out.deep_view() =~= spec_optstr_entries_of(evs)->Some_0);
    }
    Some(out)
}

/// Converts an object's entries into pairs of key and number, when each
/// value is a number.
pub(crate) fn num_entries(kvs: &Vec<(String, JsonValue)>) -> (r: Option<
    Vec<(String, JsonNumber)>,
>)
    ensures
        r.deep_view() == spec_num_entries_of(views_of_entries(kvs@)),
{
    let ghost evs = views_of_entries(kvs@);
    proof {
        lemma_views_of_entries(kvs@);
    }
    let mut out: Vec<(String, JsonNumber)> = Vec::new();
    let mut i: usize = 0;
    while i < kvs.len()
        invariant
            evs == views_of_entries(kvs@),
            evs.len() == kvs@.len(),
            forall|j: int| 0 <= j < kvs@.len() ==> evs[j] == (kvs@[j].0@, kvs@[j].1.deep_view()),
            0 <= i <= kvs@.len(),
            out@.len() == i,
            forall|j: int|
                0 <= j < i ==> (#[trigger] evs[j]).1 is Num && out@[j].0@ == evs[j].0
                    && out@[j].1.deep_view() == jv_num(evs[j].1),
        decreases kvs@.len() - i,
    {
        let pair = &kvs[i];
        match &pair.1 {
            JsonValue::Num(n) => out.push((pair.0.clone(), clone_number(n))),
            _ => {
                proof {
                    assert(!((#[trigger] evs[i as int]).1 is Num));
                }
                return None;
            },
        }
        i += 1;
    }
    proof {
        assert(spec_num_entries_of(evs) is Some);
        assert(out.deep_view() =~= spec_num_entries_of(evs)->Some_0);
    }
    Some(out)
}

/// Copies an object's entries verbatim.
pub(crate) fn value_entries(kvs: &Vec<(String, JsonValue)>) -> (r: Vec<(String, JsonValue)>)
    ensures
        r.deep_view() == views_of_entries(kvs@),
{
    let ghost evs = views_of_entries(kvs@);
    proof {
        lemma_views_of_entries(kvs@);
    }
    let mut out: Vec<(String, JsonValue)> = Vec::new();
    let mut i: usize = 0;
    while i < kvs.len()
        invariant
            evs == views_of_entries(kvs@),
            evs.len() == kvs@.len(),
            forall|j: int| 0 <= j < kvs@.len() ==> evs[j] == (kvs@[j].0@, kvs@[j].1.deep_view()),
            0 <= i <= kvs@.len(),
            out@.len() == i,
            forall|j: int|
                0 <= j < i ==> out@[j].0@ == (#[trigger] evs[j]).0 && out@[j].1.deep_view()
                    == evs[j].1,
        decreases kvs@.len() - i,
    {
        let pair = &kvs[i];
        out.push((pair.0.clone(), clone_value(&pair.1)));
        i += 1;
    }
    proof {
        assert(out.deep_view() =~= evs);
    }
    out
}


/// Reads a required array field of strings.
pub(crate) fn req_string_vec(entries: &Vec<(String, JsonValue)>, key: &str) -> (r: Option<
    Vec<String>,
>)
    ensures
        r.deep_view() == spec_req_string_seq(views_of_entries(entries@), key@),
{
    match get_field(entries, key) {
        Some(v) => match v {
            JsonValue::Arr(items) => string_items(items),
            _ => None,
        },
        None => None,
    }
}

/// Reads a required array field of numbers.
pub(crate) fn req_num_vec(entries: &Vec<(String, JsonValue)>, key: &str) -> (r: Option<
    Vec<JsonNumber>,
>)
    ensures
        r.deep_view() == spec_req_num_seq(views_of_entries(entries@), key@),
{
    match get_field(entries, key) {
        Some(v) => match v {
            JsonValue::Arr(items) => num_items(items),
            _ => None,
        },
        None => None,
    }
}

/// Reads an optional array field of strings.
pub(crate) fn opt_string_vec(entries: &Vec<(String, JsonValue)>, key: &str) -> (r: Option<
    Option<Vec<String>>,
>)
    ensures
        r.deep_view() == spec_opt_string_seq(views_of_entries(entries@), key@),
{
    match get_field(entries, key) {
        None => Some(None),
        Some(v) => match v {
            JsonValue::Null => Some(None),
            JsonValue::Arr(items) => match string_items(items) {
                Some(ss) => Some(Some(ss)),
                None => None,
            },
            _ => None,
        },
    }
}

/// Reads a required object field whose values are strings or null.
pub(crate) fn req_optstr_map(entries: &Vec<(String, JsonValue)>, key: &str) -> (r: Option<
    Vec<(String, Option<String>)>,
>)
    ensures
        r.deep_view() == spec_req_optstr_map(views_of_entries(entries@), key@),
{
    match get_field(entries, key) {
        Some(v) => match v {
            JsonValue::Obj(kvs) => optstr_entries(kvs),
            _ => None,
        },
        None => None,
    }
}

/// Reads an optional object field whose values are strings or null.
pub(crate) fn opt_optstr_map(entries: &Vec<(String, JsonValue)>, key: &str) -> (r: Option<
    Option<Vec<(String, Option<String>)>>,
>)
    ensures
        r.deep_view() == spec_opt_optstr_map(views_of_entries(entries@), key@),
{
    match get_field(entries, key) {
        None => Some(None),
        Some(v) => match v {
            JsonValue::Null => Some(None),
            JsonValue::Obj(kvs) => match optstr_entries(kvs) {
                Some(es) => Some(Some(es)),
                None => None,
            },
            _ => None,
        },
    }
}

/// Reads an optional object field with string values.
pub(crate) fn opt_str_map(entries: &Vec<(String, JsonValue)>, key: &str) -> (r: Option<
    Option<Vec<(String, String)>>,
>)
    ensures
        r.deep_view() == spec_opt_str_map(views_of_entries(entries@), key@),
{
    match get_field(entries, key) {
        None => Some(None),
        Some(v) => match v {
            JsonValue::Null => Some(None),
            JsonValue::Obj(kvs) => match str_entries(kvs) {
                Some(es) => Some(Some(es)),
                None => None,
            },
            _ => None,
        },
    }
}

/// Reads an optional object field with numeric values.
pub(crate) fn opt_num_map(entries: &Vec<(String, JsonValue)>, key: &str) -> (r: Option<
    Option<Vec<(String, JsonNumber)>>,
>)
    ensures
        r.deep_view() == spec_opt_num_map(views_of_entries(entries@), key@),
{
    match get_field(entries, key) {
        None => Some(None),
        Some(v) => match v {
            JsonValue::Null => Some(None),
            JsonValue::Obj(kvs) => match num_entries(kvs) {
                Some(es) => Some(Some(es)),
                None => None,
            },
            _ => None,
        },
    }
}

/// Reads an optional object field whose values are copied verbatim.
pub(crate) fn opt_value_map(entries: &Vec<(String, JsonValue)>, key: &str) -> (r: Option<
    Option<Vec<(String, JsonValue)>>,
>)
    ensures
        r.deep_view() == spec_opt_value_map(views_of_entries(entries@), key@),
{
    match get_field(entries, key) {
        None => Some(None),
        Some(v) => match v {
            JsonValue::Null => Some(None),
            JsonValue::Obj(kvs) => Some(Some(value_entries(kvs))),
            _ => None,
        },
    }
}

} // verus!

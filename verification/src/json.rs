use vstd::prelude::*;

verus! {

/// A JSON number. Non-negative integers and negative integers are carried
/// exactly; any other number is carried as its shortest decimal rendering.
#[derive(Clone, Debug, PartialEq, Eq)]
pub enum JsonNumber {
    UInt(u64),
    Int(i64),
    Dec(String),
}

/// A JSON document held as plain values. An object is a sequence of
/// key-value pairs; a document that came from the parser has each key at
/// most once, in ascending key order.
#[derive(Debug, PartialEq, Eq)]
pub enum JsonValue {
    Null,
    Bool(bool),
    Num(JsonNumber),
    Str(String),
    Arr(Vec<JsonValue>),
    Obj(Vec<(String, JsonValue)>),
}

/// The mathematical value of a `JsonNumber`.
pub ghost enum JsonNumberV {
    UInt(u64),
    Int(i64),
    Dec(Seq<char>),
}

/// The mathematical value of a `JsonValue`: the same tree over sequences.
pub ghost enum JsonView {
    Null,
    Bool(bool),
    Num(JsonNumberV),
    Str(Seq<char>),
    Arr(Seq<JsonView>),
    Obj(Seq<(Seq<char>, JsonView)>),
}

impl DeepView for JsonNumber {
    type V = JsonNumberV;

    open spec fn deep_view(&self) -> JsonNumberV {
        match self {
            JsonNumber::UInt(u) => JsonNumberV::UInt(*u),
            JsonNumber::Int(i) => JsonNumberV::Int(*i),
            JsonNumber::Dec(s) => JsonNumberV::Dec(s@),
        }
    }
}

broadcast use {
    vstd::std_specs::vec::axiom_vec_decreases_to_view,
    vstd::std_specs::vec::axiom_vec_index_decreases,
    vstd::seq::axiom_seq_index_decreases,
};

/// The views of an array's items, in order.
pub open spec fn views_of_values(items: Seq<JsonValue>) -> Seq<JsonView>
    decreases items,
{
    if items.len() == 0 {
        Seq::empty()
    } else {
        seq![items[0].deep_view()] + views_of_values(items.drop_first())
    }
}

/// The views of an object's entries, in order.
pub open spec fn views_of_entries(entries: Seq<(String, JsonValue)>) -> Seq<
    (Seq<char>, JsonView),
>
    decreases entries,
{
    if entries.len() == 0 {
        Seq::empty()
    } else {
        seq![(entries[0].0@, entries[0].1.deep_view())] + views_of_entries(entries.drop_first())
    }
}

impl DeepView for JsonValue {
    type V = JsonView;

    open spec fn deep_view(&self) -> JsonView
        decreases *self,
    {
        match self {
            JsonValue::Null => JsonView::Null,
            JsonValue::Bool(b) => JsonView::Bool(*b),
            JsonValue::Num(n) => JsonView::Num(n.deep_view()),
            JsonValue::Str(s) => JsonView::Str(s@),
            JsonValue::Arr(items) => JsonView::Arr(views_of_values(items@)),
            JsonValue::Obj(entries) => JsonView::Obj(views_of_entries(entries@)),
        }
    }
}

/// `views_of_values` is the item-wise view.
pub proof fn lemma_views_of_values(items: Seq<JsonValue>)
    ensures
        views_of_values(items).len() == items.len(),
        forall|i: int| 0 <= i < items.len() ==> views_of_values(items)[i] == items[i].deep_view(),
    decreases items.len(),
{
    if items.len() > 0 {
        lemma_views_of_values(items.drop_first());
        assert(views_of_values(items) == seq![items[0].deep_view()] + views_of_values(
            items.drop_first(),
        ));
        assert forall|i: int| 0 <= i < items.len() implies views_of_values(items)[i]
            == items[i].deep_view() by {
            if i > 0 {
                assert(views_of_values(items)[i] == views_of_values(items.drop_first())[i - 1]);
                assert(items.drop_first()[i - 1] == items[i]);
            }
        }
    }
}

/// `views_of_entries` is the entry-wise view.
pub proof fn lemma_views_of_entries(entries: Seq<(String, JsonValue)>)
    ensures
        views_of_entries(entries).len() == entries.len(),
        forall|i: int|
            0 <= i < entries.len() ==> views_of_entries(entries)[i] == (
                entries[i].0@,
                entries[i].1.deep_view(),
            ),
    decreases entries.len(),
{
    if entries.len() > 0 {
        lemma_views_of_entries(entries.drop_first());
        assert(views_of_entries(entries) == seq![(entries[0].0@, entries[0].1.deep_view())]
            + views_of_entries(entries.drop_first()));
        assert forall|i: int| 0 <= i < entries.len() implies views_of_entries(entries)[i] == (
            entries[i].0@,
            entries[i].1.deep_view(),
        ) by {
            if i > 0 {
                assert(views_of_entries(entries)[i] == views_of_entries(entries.drop_first())[i
                    - 1]);
                assert(entries.drop_first()[i - 1] == entries[i]);
            }
        }
    }
}

#[verifier::external_type_specification]
#[verifier::external_body]
pub struct ExValue(serde_json::Value);

#[verifier::external_type_specification]
#[verifier::external_body]
pub struct ExNumber(serde_json::Number);

/// The document that a JSON text denotes, if the text is valid JSON: the
/// outcome of the trusted parsing step below, named so that the decoders'
/// contracts can speak of it. Parsing is a function of the text alone.
pub uninterp spec fn json_doc_of(text: Seq<char>) -> Option<JsonView>;

/// Relies on serde_json::Number: a parsed number is exactly one of a
/// non-negative integer (`as_u64`), a negative integer (`as_i64`), or a
/// finite double, which `Display` renders as its shortest decimal form.
#[verifier::external_body]
fn number_to_model(n: &serde_json::Number) -> JsonNumber {
    if let Some(u) = n.as_u64() {
        JsonNumber::UInt(u)
    } else if let Some(i) = n.as_i64() {
        JsonNumber::Int(i)
    } else {
        JsonNumber::Dec(n.to_string())
    }
}

/// Relies on serde_json::Value: mirrors each of its six variants into the
/// library's own model, one arm per variant. Object entries come from the
/// map's iterator, which walks a BTreeMap, so keys arrive unique and in
/// ascending order.
#[verifier::external_body]
fn value_to_model(v: &serde_json::Value) -> JsonValue {
    match v {
        serde_json::Value::Null => JsonValue::Null,
        serde_json::Value::Bool(b) => JsonValue::Bool(*b),
        serde_json::Value::Number(n) => JsonValue::Num(number_to_model(n)),
        serde_json::Value::String(s) => JsonValue::Str(s.clone()),
        serde_json::Value::Array(a) => JsonValue::Arr(a.iter().map(value_to_model).collect()),
        serde_json::Value::Object(m) => JsonValue::Obj(
            m.iter().map(|(k, x)| (k.clone(), value_to_model(x))).collect(),
        ),
    }
}

/// Relies on serde_json::from_str::<serde_json::Value>: returns the parsed
/// document when the text is valid JSON and nothing when it is not; the
/// outcome depends on the text alone.
#[verifier::external_body]
pub fn parse_json(text: &str) -> (r: Option<JsonValue>)
    ensures
        r.deep_view() == json_doc_of(text@),
{
    match serde_json::from_str::<serde_json::Value>(text) {
        Ok(v) => Some(value_to_model(&v)),
        Err(_) => None,
    }
}

/// The first value bound to `key`, scanning the entries in order.
pub open spec fn spec_get(entries: Seq<(Seq<char>, JsonView)>, key: Seq<char>) -> Option<JsonView>
    decreases entries.len(),
{
    if entries.len() == 0 {
        None
    } else if entries[0].0 == key {
        Some(entries[0].1)
    } else {
        spec_get(entries.drop_first(), key)
    }
}

/// Looks `key` up among an object's entries, first match wins.
pub fn get_field<'a>(entries: &'a Vec<(String, JsonValue)>, key: &str) -> (r: Option<
    &'a JsonValue,
>)
    ensures
        match r {
            Some(v) => spec_get(views_of_entries(entries@), key@) == Some(v.deep_view()),
            None => spec_get(views_of_entries(entries@), key@) is None,
        },
{
    let ghost evs = views_of_entries(entries@);
    proof {
        lemma_views_of_entries(entries@);
        assert(evs.skip(0) =~= evs);
    }
    let k = String::from_str(key);
    let mut i: usize = 0;
    while i < entries.len()
        invariant
            0 <= i <= entries@.len(),
            k@ == key@,
            evs == views_of_entries(entries@),
            evs.len() == entries@.len(),
            forall|j: int|
                0 <= j < entries@.len() ==> evs[j] == (entries@[j].0@, entries@[j].1.deep_view()),
            spec_get(evs, key@) == spec_get(evs.skip(i as int), key@),
        decreases entries@.len() - i,
    {
        proof {
            assert(evs.skip(i as int)[0] == evs[i as int]);
            assert(evs.skip(i as int).drop_first() =~= evs.skip(i as int + 1));
        }
        if entries[i].0 == k {
            return Some(&entries[i].1);
        }
        i += 1;
    }
    proof {
        assert(evs.skip(i as int) =~= Seq::<(Seq<char>, JsonView)>::empty());
    }
    None
}

/// A copy of a JSON number, equal at the view level.
pub fn clone_number(n: &JsonNumber) -> (r: JsonNumber)
    ensures
        r.deep_view() == n.deep_view(),
{
    match n {
        JsonNumber::UInt(u) => JsonNumber::UInt(*u),
        JsonNumber::Int(i) => JsonNumber::Int(*i),
        JsonNumber::Dec(s) => JsonNumber::Dec(s.clone()),
    }
}

/// A copy of a JSON document, equal at the view level.
#[verifier::loop_isolation(false)]
pub fn clone_value(v: &JsonValue) -> (r: JsonValue)
    ensures
        r.deep_view() == v.deep_view(),
    decreases *v,
{
    match v {
        JsonValue::Null => JsonValue::Null,
        JsonValue::Bool(b) => JsonValue::Bool(*b),
        JsonValue::Num(n) => JsonValue::Num(clone_number(n)),
        JsonValue::Str(s) => JsonValue::Str(s.clone()),
        JsonValue::Arr(items) => {
            let mut out: Vec<JsonValue> = Vec::new();
            let mut i: usize = 0;
            while i < items.len()
                invariant
                    0 <= i <= items@.len(),
                    out@.len() == i,
                    forall|j: int| 0 <= j < i ==> out@[j].deep_view() == items@[j].deep_view(),
                decreases items@.len() - i,
            {
                proof {
                    assert(decreases_to!(*v => *items));
                    assert(decreases_to!(*items => items@[i as int]));
                }
                out.push(clone_value(&items[i]));
                i += 1;
            }
            proof {
                lemma_views_of_values(out@);
                lemma_views_of_values(items@);
                assert(views_of_values(out@) =~= views_of_values(items@));
            }
            JsonValue::Arr(out)
        },
        JsonValue::Obj(entries) => {
            let mut out: Vec<(String, JsonValue)> = Vec::new();
            let mut i: usize = 0;
            while i < entries.len()
                invariant
                    0 <= i <= entries@.len(),
                    out@.len() == i,
                    forall|j: int|
                        0 <= j < i ==> out@[j].0@ == entries@[j].0@ && out@[j].1.deep_view()
                            == entries@[j].1.deep_view(),
                decreases entries@.len() - i,
            {
                proof {
                    assert(decreases_to!(*v => *entries));
                    assert(decreases_to!(*entries => entries@[i as int]));
                }
                let pair = &entries[i];
                out.push((pair.0.clone(), clone_value(&pair.1)));
                i += 1;
            }
            proof {
                lemma_views_of_entries(out@);
                lemma_views_of_entries(entries@);
                assert(views_of_entries(out@) =~= views_of_entries(entries@));
            }
            JsonValue::Obj(out)
        },
    }
}

} // verus!

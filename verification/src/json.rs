//! The JSON document tree that tool calls, parameters and schemas are made of,
//! together with its mathematical model.

use vstd::prelude::*;

verus! {

/// An owned JSON document. Numbers are held as signed 64-bit integers; an
/// object is an ordered list of key/value entries, as produced by a parser.
#[derive(Debug, PartialEq, Eq, Hash)]
pub enum JsonValue {
    Null,
    Bool(bool),
    Int(i64),
    Str(String),
    Arr(Vec<JsonValue>),
    Obj(Vec<(String, JsonValue)>),
}

/// The mathematical model of a [`JsonValue`]: the same tree over `int`,
/// `Seq<char>` and `Seq`.
#[verifier::ext_equal]
pub enum JsonModel {
    Null,
    Bool(bool),
    Int(int),
    Str(Seq<char>),
    Arr(Seq<JsonModel>),
    Obj(Seq<(Seq<char>, JsonModel)>),
}

impl JsonValue {
    /// The model of this document.
    pub open spec fn model(self) -> JsonModel
        decreases self,
    {
        match self {
            JsonValue::Null => JsonModel::Null,
            JsonValue::Bool(b) => JsonModel::Bool(b),
            JsonValue::Int(i) => JsonModel::Int(i as int),
            JsonValue::Str(s) => JsonModel::Str(s@),
            JsonValue::Arr(v) => JsonModel::Arr(Self::model_elems(v@)),
            JsonValue::Obj(v) => JsonModel::Obj(Self::model_entries(v@)),
        }
    }

    /// The models of the elements of an array, in order.
    pub open spec fn model_elems(s: Seq<JsonValue>) -> Seq<JsonModel>
        decreases s,
    {
        if s.len() == 0 {
            Seq::empty()
        } else {
            seq![s[0].model()] + Self::model_elems(s.drop_first())
        }
    }

    /// The models of the entries of an object, in order.
    pub open spec fn model_entries(s: Seq<(String, JsonValue)>) -> Seq<(Seq<char>, JsonModel)>
        decreases s,
    {
        if s.len() == 0 {
            Seq::empty()
        } else {
            seq![(s[0].0@, s[0].1.model())] + Self::model_entries(s.drop_first())
        }
    }
}

/// The value under `key` in an ordered list of object entries: the first entry
/// whose key matches, if any.
pub open spec fn lookup_entry(m: Seq<(Seq<char>, JsonModel)>, key: Seq<char>) -> Option<
    JsonModel,
>
    decreases m,
{
    if m.len() == 0 {
        Option::None
    } else if m[0].0 == key {
        Option::Some(m[0].1)
    } else {
        lookup_entry(m.drop_first(), key)
    }
}

/// Whether two strings hold the same characters.
pub fn str_eq(a: &str, b: &str) -> (r: bool)
    ensures
        r == (a@ == b@),
{
    let sa: String = a.to_owned();
    let sb: String = b.to_owned();
    sa == sb
}

/// A borrowed view of the value under `key` among object entries, searching in
/// order and stopping at the first match.
pub fn get_entry<'a>(entries: &'a Vec<(String, JsonValue)>, key: &str) -> (r: Option<
    &'a JsonValue,
>)
    ensures
        match r {
            Option::Some(v) => lookup_entry(JsonValue::model_entries(entries@), key@)
                == Option::Some(v.model()),
            Option::None => lookup_entry(JsonValue::model_entries(entries@), key@)
                is None,
        },
{
    proof {
        lemma_model_entries(entries@);
    }
    let ghost m = JsonValue::model_entries(entries@);
    proof {
        assert(m.skip(0) =~= m);
    }
    let mut i: usize = 0;
    while i < entries.len()
        invariant
            i <= entries.len(),
            m == JsonValue::model_entries(entries@),
            m.len() == entries@.len(),
            forall|k: int| 0 <= k < m.len() ==> m[k] == (entries@[k].0@, entries@[k].1.model()),
            lookup_entry(m, key@) == lookup_entry(m.skip(i as int), key@),
        decreases entries.len() - i,
    {
        if str_eq(entries[i].0.as_str(), key) {
            proof {
                assert(m.skip(i as int)[0] == m[i as int]);
            }
            return Option::Some(&entries[i].1);
        }
        proof {
            assert(m.skip(i as int)[0] == m[i as int]);
            assert(m.skip(i as int).drop_first() =~= m.skip(i as int + 1));
        }
        i = i + 1;
    }
    proof {
        assert(m.skip(entries@.len() as int) =~= Seq::empty());
    }
    Option::None
}

/// An exact copy of a document: a fresh tree with the same model.
#[verifier::loop_isolation(false)]
pub fn deep_copy(v: &JsonValue) -> (r: JsonValue)
    ensures
        r.model() == v.model(),
    decreases v,
{
    match v {
        JsonValue::Null => JsonValue::Null,
        JsonValue::Bool(b) => JsonValue::Bool(*b),
        JsonValue::Int(i) => JsonValue::Int(*i),
        JsonValue::Str(s) => JsonValue::Str(s.clone()),
        JsonValue::Arr(elems) => {
            let mut out: Vec<JsonValue> = Vec::new();
            let mut i: usize = 0;
            while i < elems.len()
                invariant
                    i <= elems.len(),
                    out@.len() == i,
                    forall|k: int| 0 <= k < i ==> out@[k].model() == elems@[k].model(),
                decreases elems.len() - i,
            {
                let c = deep_copy(&elems[i]);
                out.push(c);
                i = i + 1;
            }
            proof {
                lemma_model_elems(out@);
                lemma_model_elems(elems@);
                assert(JsonValue::model_elems(out@) =~= JsonValue::model_elems(elems@));
            }
            JsonValue::Arr(out)
        },
        JsonValue::Obj(entries) => JsonValue::Obj(copy_entries(entries)),
    }
}

/// An exact copy of an object's entries: fresh keys and values with the same
/// models, in the same order.
#[verifier::loop_isolation(false)]
pub fn copy_entries(entries: &Vec<(String, JsonValue)>) -> (r: Vec<(String, JsonValue)>)
    ensures
        JsonValue::model_entries(r@) == JsonValue::model_entries(entries@),
    decreases entries,
{
    let mut out: Vec<(String, JsonValue)> = Vec::new();
    let mut i: usize = 0;
    while i < entries.len()
        invariant
            i <= entries.len(),
            out@.len() == i,
            forall|k: int|
                0 <= k < i ==> out@[k].0@ == entries@[k].0@ && out@[k].1.model()
                    == entries@[k].1.model(),
        decreases entries.len() - i,
    {
        let key = entries[i].0.clone();
        let c = deep_copy(&entries[i].1);
        out.push((key, c));
        i = i + 1;
    }
    proof {
        lemma_model_entries(out@);
        lemma_model_entries(entries@);
        assert(JsonValue::model_entries(out@) =~= JsonValue::model_entries(entries@));
    }
    out
}

/// An object with one entry.
pub fn obj1(k1: &str, v1: JsonValue) -> (r: JsonValue)
    ensures
        r.model() == JsonModel::Obj(seq![(k1@, v1.model())]),
{
    let mut entries: Vec<(String, JsonValue)> = Vec::new();
    entries.push((k1.to_owned(), v1));
    proof {
        lemma_model_entries(entries@);
        assert(JsonValue::model_entries(entries@) =~= seq![(k1@, entries@[0].1.model())]);
    }
    JsonValue::Obj(entries)
}

/// An object with two entries, in order.
pub fn obj2(k1: &str, v1: JsonValue, k2: &str, v2: JsonValue) -> (r: JsonValue)
    ensures
        r.model() == JsonModel::Obj(seq![(k1@, v1.model()), (k2@, v2.model())]),
{
    let mut entries: Vec<(String, JsonValue)> = Vec::new();
    entries.push((k1.to_owned(), v1));
    entries.push((k2.to_owned(), v2));
    proof {
        lemma_model_entries(entries@);
        assert(JsonValue::model_entries(entries@) =~= seq![
            (k1@, entries@[0].1.model()),
            (k2@, entries@[1].1.model()),
        ]);
    }
    JsonValue::Obj(entries)
}

/// An object with three entries, in order.
pub fn obj3(k1: &str, v1: JsonValue, k2: &str, v2: JsonValue, k3: &str, v3: JsonValue) -> (r:
    JsonValue)
    ensures
        r.model() == JsonModel::Obj(
            seq![(k1@, v1.model()), (k2@, v2.model()), (k3@, v3.model())],
        ),
{
    let mut entries: Vec<(String, JsonValue)> = Vec::new();
    entries.push((k1.to_owned(), v1));
    entries.push((k2.to_owned(), v2));
    entries.push((k3.to_owned(), v3));
    proof {
        lemma_model_entries(entries@);
        assert(JsonValue::model_entries(entries@) =~= seq![
            (k1@, entries@[0].1.model()),
            (k2@, entries@[1].1.model()),
            (k3@, entries@[2].1.model()),
        ]);
    }
    JsonValue::Obj(entries)
}

/// An array of two strings, in order.
pub fn arr2str(s1: &str, s2: &str) -> (r: JsonValue)
    ensures
        r.model() == JsonModel::Arr(
            seq![JsonModel::Str(s1@), JsonModel::Str(s2@)],
        ),
{
    let mut elems: Vec<JsonValue> = Vec::new();
    elems.push(JsonValue::Str(s1.to_owned()));
    elems.push(JsonValue::Str(s2.to_owned()));
    proof {
        lemma_model_elems(elems@);
        assert(JsonValue::model_elems(elems@) =~= seq![
            JsonModel::Str(s1@),
            JsonModel::Str(s2@),
        ]);
    }
    JsonValue::Arr(elems)
}

/// The element models of an array are the models of its elements, index by index.
pub broadcast proof fn lemma_model_elems(s: Seq<JsonValue>)
    ensures
        #[trigger] JsonValue::model_elems(s).len() == s.len(),
        forall|i: int|
            0 <= i < s.len() ==> JsonValue::model_elems(s)[i] == s[i].model(),
    decreases s.len(),
{
    if s.len() > 0 {
        lemma_model_elems(s.drop_first());
        assert forall|i: int| 0 <= i < s.len() implies JsonValue::model_elems(s)[i]
            == s[i].model() by {
            if i > 0 {
                assert(s.drop_first()[i - 1] == s[i]);
            }
        }
    }
}

/// The entry models of an object are the models of its entries, index by index.
pub broadcast proof fn lemma_model_entries(s: Seq<(String, JsonValue)>)
    ensures
        #[trigger] JsonValue::model_entries(s).len() == s.len(),
        forall|i: int|
            0 <= i < s.len() ==> JsonValue::model_entries(s)[i] == (s[i].0@, s[i].1.model()),
    decreases s.len(),
{
    if s.len() > 0 {
        lemma_model_entries(s.drop_first());
        assert forall|i: int| 0 <= i < s.len() implies JsonValue::model_entries(s)[i]
            == (s[i].0@, s[i].1.model()) by {
            if i > 0 {
                assert(s.drop_first()[i - 1] == s[i]);
            }
        }
    }
}

impl View for JsonValue {
    type V = JsonModel;

    open spec fn view(&self) -> JsonModel {
        self.model()
    }
}

} // verus!

verus! {

#[verifier::external_type_specification]
#[verifier::external_body]
pub struct ExValue(serde_json::Value);

/// What `serde_json::from_str` yields on a given text: one document,
/// determined by the text alone, or nothing when the text is not valid JSON.
pub uninterp spec fn parsed_value(s: Seq<char>) -> Option<serde_json::Value>;

/// The library's reading of a parsed document: determined by the document
/// alone.
pub uninterp spec fn converted_value(v: serde_json::Value) -> Option<JsonValue>;

/// Relies on `serde_json::from_str`: parsing is a function of the text alone,
/// and text that is not valid JSON is refused.
#[verifier::external_body]
fn parse_text(s: &str) -> (r: Option<serde_json::Value>)
    ensures
        r == parsed_value(s@),
{
    serde_json::from_str::<serde_json::Value>(s).ok()
}

/// Relies on `serde_json::Value`: each variant is carried over by its own
/// arm, moving the fields; numbers that do not fit in an `i64` are refused.
#[verifier::external_body]
fn convert_value(v: &serde_json::Value) -> (r: Option<JsonValue>)
    ensures
        r == converted_value(*v),
{
    match v {
        serde_json::Value::Null => Some(JsonValue::Null),
        serde_json::Value::Bool(b) => Some(JsonValue::Bool(*b)),
        serde_json::Value::Number(n) => n.as_i64().map(JsonValue::Int),
        serde_json::Value::String(s) => Some(JsonValue::Str(s.clone())),
        serde_json::Value::Array(a) => a.iter().map(convert_value).collect::<Option<Vec<JsonValue>>>().map(JsonValue::Arr),
        serde_json::Value::Object(m) => m.iter().map(|(k, x)| convert_value(x).map(|j| (k.clone(), j))).collect::<Option<Vec<(String, JsonValue)>>>().map(JsonValue::Obj),
    }
}

/// The document tree a JSON text denotes, or nothing when the text is not
/// valid JSON or holds a number outside `i64`.
pub open spec fn parsed_json(s: Seq<char>) -> Option<JsonValue> {
    match parsed_value(s) {
        Option::Some(v) => converted_value(v),
        Option::None => Option::None,
    }
}

/// Reads a JSON text into a document tree. Returns nothing when the text is
/// not valid JSON, or when it holds a number outside `i64`.
pub fn json_from_str(s: &str) -> (r: Option<JsonValue>)
    ensures
        r == parsed_json(s@),
{
    match parse_text(s) {
        Option::Some(v) => convert_value(&v),
        Option::None => Option::None,
    }
}

} // verus!

//! Parameter schemas — the compiled form of each function's JSON Schema — and
//! the validator that checks a parameters object against one.

use vstd::prelude::*;
use vstd::string::StringExecFns;

use crate::json::get_entry;
use crate::json::lookup_entry;
use crate::json::str_eq;
use crate::json::JsonModel;
use crate::json::JsonValue;

verus! {

/// The JSON type a parameter is declared with. `Num` accepts any numeric
/// value; `Any` places no constraint.
#[derive(Debug, Clone, Copy, PartialEq, Eq)]
pub enum JsonType {
    Null,
    Bool,
    Int,
    Num,
    Str,
    Arr,
    Obj,
    Any,
}

/// Whether a value is of the declared type.
pub open spec fn type_accepts(t: JsonType, m: JsonModel) -> bool {
    match t {
        JsonType::Null => m is Null,
        JsonType::Bool => m is Bool,
        JsonType::Int => m is Int,
        JsonType::Num => m is Int,
        JsonType::Str => m is Str,
        JsonType::Arr => m is Arr,
        JsonType::Obj => m is Obj,
        JsonType::Any => true,
    }
}

/// Whether `v` is of the declared type.
pub fn value_has_type(t: JsonType, v: &JsonValue) -> (r: bool)
    ensures
        r == type_accepts(t, v.model()),
{
    match t {
        JsonType::Null => matches!(v, JsonValue::Null),
        JsonType::Bool => matches!(v, JsonValue::Bool(_)),
        JsonType::Int => matches!(v, JsonValue::Int(_)),
        JsonType::Num => matches!(v, JsonValue::Int(_)),
        JsonType::Str => matches!(v, JsonValue::Str(_)),
        JsonType::Arr => matches!(v, JsonValue::Arr(_)),
        JsonType::Obj => matches!(v, JsonValue::Obj(_)),
        JsonType::Any => true,
    }
}

/// One parameter of a function: its name, its declared type, and whether a
/// call must supply it.
#[derive(Debug, Clone)]
pub struct ParamDecl {
    pub name: String,
    pub typ: JsonType,
    pub required: bool,
}

impl ParamDecl {
    /// The model of this declaration.
    pub open spec fn model(self) -> (Seq<char>, JsonType, bool) {
        (self.name@, self.typ, self.required)
    }
}

/// The compiled parameter schema of one function: the object schema its
/// `parameters` field must satisfy, as a list of declarations. Parameters not
/// declared here are permitted and unconstrained.
#[derive(Debug, Clone)]
pub struct ParamSchema {
    pub params: Vec<ParamDecl>,
}

impl ParamSchema {
    /// The model of this schema.
    pub open spec fn model(self) -> Seq<(Seq<char>, JsonType, bool)> {
        self.params@.map_values(|d: ParamDecl| d.model())
    }
}

/// Whether the parameters object satisfies one declaration: a declared
/// parameter that is present must have the declared type, and a required one
/// must be present.
pub open spec fn decl_accepts(
    d: (Seq<char>, JsonType, bool),
    obj: Seq<(Seq<char>, JsonModel)>,
) -> bool {
    match lookup_entry(obj, d.0) {
        Option::Some(v) => type_accepts(d.1, v),
        Option::None => !d.2,
    }
}

/// Whether the parameters object satisfies every declaration of the schema.
pub open spec fn schema_accepts(
    s: Seq<(Seq<char>, JsonType, bool)>,
    obj: Seq<(Seq<char>, JsonModel)>,
) -> bool {
    forall|i: int| 0 <= i < s.len() ==> decl_accepts(s[i], obj)
}

/// The first declaration the parameters object violates, if any.
pub open spec fn first_violation(
    s: Seq<(Seq<char>, JsonType, bool)>,
    obj: Seq<(Seq<char>, JsonModel)>,
) -> Option<int>
    decreases s,
{
    if s.len() == 0 {
        Option::None
    } else if !decl_accepts(s[0], obj) {
        Option::Some(0)
    } else {
        match first_violation(s.drop_first(), obj) {
            Option::Some(i) => Option::Some(i + 1),
            Option::None => Option::None,
        }
    }
}

/// How a parameters object failed its schema: the path of the offending
/// parameter, in JSON-pointer form, and the constraint that was violated.
#[derive(Debug, PartialEq, Eq)]
pub struct SchemaViolation {
    pub path: String,
    pub detail: String,
}

/// The detail text for a required parameter that is missing.
pub open spec fn spec_missing_detail() -> Seq<char> {
    "the required parameter is missing"@
}

/// The detail text for a parameter whose value has the wrong type.
pub open spec fn spec_type_detail() -> Seq<char> {
    "the value does not have the declared type"@
}

/// Checks a parameters object against a function's compiled schema, in
/// declaration order, and reports the first violation: a missing required
/// parameter, or a declared parameter whose value has the wrong type.
#[verifier::loop_isolation(false)]
pub fn validate_parameters(schema: &ParamSchema, parameters: &Vec<(String, JsonValue)>) -> (r:
    Result<(), SchemaViolation>)
    ensures
        r is Ok <==> schema_accepts(schema.model(), JsonValue::model_entries(parameters@)),
        r matches Err(v) ==> {
            let s = schema.model();
            let obj = JsonValue::model_entries(parameters@);
            &&& first_violation(s, obj) matches Option::Some(i)
                && v.path@ == "/"@ + s[i].0
                && v.detail@ == (if lookup_entry(obj, s[i].0) is None {
                    spec_missing_detail()
                } else {
                    spec_type_detail()
                })
            &&& v.path@.len() > 0
        },
{
    let ghost s = schema.model();
    let ghost obj = JsonValue::model_entries(parameters@);
    proof {
        assert(s.skip(0) =~= s);
    }
    let mut i: usize = 0;
    while i < schema.params.len()
        invariant
            i <= schema.params.len(),
            forall|k: int| 0 <= k < i ==> decl_accepts(s[k], obj),
            first_violation(s.skip(i as int), obj) matches Option::Some(j)
                ==> first_violation(s, obj) == Option::Some(j + i),
            first_violation(s.skip(i as int), obj) is None ==> first_violation(s, obj) is None,
        decreases schema.params.len() - i,
    {
        let d = &schema.params[i];
        let present = get_entry(parameters, d.name.as_str());
        let ok = match present {
            Option::Some(v) => value_has_type(d.typ, v),
            Option::None => !d.required,
        };
        if !ok {
            proof {
                assert(s.skip(i as int)[0] == s[i as int]);
                lemma_first_violation_head(s, obj, i as int);
            }
            let mut path: String = "/".to_owned();
            path.append(d.name.as_str());
            let detail: String = match present {
                Option::Some(_) => "the value does not have the declared type".to_owned(),
                Option::None => "the required parameter is missing".to_owned(),
            };
            proof {
                reveal_strlit("/");
            }
            return Result::Err(SchemaViolation { path, detail });
        }
        proof {
            assert(s.skip(i as int)[0] == s[i as int]);
            assert(s.skip(i as int).drop_first() =~= s.skip(i as int + 1));
        }
        i = i + 1;
    }
    proof {
        assert(s.skip(s.len() as int) =~= Seq::empty());
    }
    Result::Ok(())
}

/// Whether a key is removed when a schema document is cleaned: `title`
/// everywhere, and `$schema` at the top level only.
pub open spec fn dropped_key(k: Seq<char>, top: bool) -> bool {
    k == "title"@ || (top && k == "$schema"@)
}

/// A schema document after cleaning: dropped keys removed from every object,
/// other values kept in order, objects below the top level treated as nested.
pub open spec fn strip_model(m: JsonModel, top: bool) -> JsonModel
    decreases m,
{
    match m {
        JsonModel::Obj(es) => JsonModel::Obj(strip_entries_model(es, top)),
        _ => m,
    }
}

/// Object entries after cleaning: entries under a dropped key removed, the
/// values of the others cleaned as nested documents.
pub open spec fn strip_entries_model(
    es: Seq<(Seq<char>, JsonModel)>,
    top: bool,
) -> Seq<(Seq<char>, JsonModel)>
    decreases es,
{
    if es.len() == 0 {
        Seq::empty()
    } else if dropped_key(es[0].0, top) {
        strip_entries_model(es.drop_first(), top)
    } else {
        seq![(es[0].0, strip_model(es[0].1, false))] + strip_entries_model(es.drop_first(), top)
    }
}

/// Appending one entry to the input appends its cleaned form (or nothing) to
/// the output.
proof fn lemma_strip_entries_push(
    es: Seq<(Seq<char>, JsonModel)>,
    x: (Seq<char>, JsonModel),
    top: bool,
)
    ensures
        strip_entries_model(es.push(x), top) == strip_entries_model(es, top) + (if dropped_key(
            x.0,
            top,
        ) {
            Seq::<(Seq<char>, JsonModel)>::empty()
        } else {
            seq![(x.0, strip_model(x.1, false))]
        }),
    decreases es.len(),
{
    if es.len() == 0 {
        assert(es.push(x)[0] == x);
        assert(es.push(x).drop_first() =~= Seq::<(Seq<char>, JsonModel)>::empty());
        assert(strip_entries_model(Seq::<(Seq<char>, JsonModel)>::empty(), top)
            =~= Seq::<(Seq<char>, JsonModel)>::empty());
        assert(strip_entries_model(es, top) =~= Seq::<(Seq<char>, JsonModel)>::empty());
        if dropped_key(x.0, top) {
            assert(strip_entries_model(es.push(x), top) =~= strip_entries_model(es, top));
        } else {
            assert(strip_entries_model(es.push(x), top) =~= strip_entries_model(es, top)
                + seq![(x.0, strip_model(x.1, false))]);
        }
    } else {
        assert(es.push(x)[0] == es[0]);
        assert(es.push(x).drop_first() =~= es.drop_first().push(x));
        lemma_strip_entries_push(es.drop_first(), x, top);
        if dropped_key(es[0].0, top) {
            assert(strip_entries_model(es, top) + (if dropped_key(x.0, top) {
                Seq::<(Seq<char>, JsonModel)>::empty()
            } else {
                seq![(x.0, strip_model(x.1, false))]
            }) =~= strip_entries_model(es.push(x), top));
        } else {
            assert(strip_entries_model(es, top) + (if dropped_key(x.0, top) {
                Seq::<(Seq<char>, JsonModel)>::empty()
            } else {
                seq![(x.0, strip_model(x.1, false))]
            }) =~= strip_entries_model(es.push(x), top));
        }
    }
}

/// The cleaned form of a document, built fresh.
#[verifier::loop_isolation(false)]
fn strip_value(v: &JsonValue, top: bool) -> (r: JsonValue)
    ensures
        r.model() == strip_model(v.model(), top),
    decreases v,
{
    match v {
        JsonValue::Obj(entries) => {
            let mut out: Vec<(String, JsonValue)> = Vec::new();
            let ghost es = JsonValue::model_entries(entries@);
            proof {
                crate::json::lemma_model_entries(entries@);
                assert(es.take(0) =~= Seq::empty());
            }
            let mut i: usize = 0;
            while i < entries.len()
                invariant
                    i <= entries.len(),
                    JsonValue::model_entries(out@) == strip_entries_model(
                        es.take(i as int),
                        top,
                    ),
                decreases entries.len() - i,
            {
                let key = &entries[i].0;
                let dropped = if str_eq(key.as_str(), "title") {
                    true
                } else if top {
                    str_eq(key.as_str(), "$schema")
                } else {
                    false
                };
                proof {
                    assert(es.take(i as int + 1) =~= es.take(i as int).push(es[i as int]));
                    lemma_strip_entries_push(es.take(i as int), es[i as int], top);
                }
                if !dropped {
                    let cleaned = strip_value(&entries[i].1, false);
                    let ghost before = out@;
                    out.push((key.clone(), cleaned));
                    proof {
                        crate::json::lemma_model_entries(before);
                        crate::json::lemma_model_entries(out@);
                        assert(JsonValue::model_entries(out@) =~= JsonValue::model_entries(
                            before,
                        ).push((es[i as int].0, strip_model(es[i as int].1, false))));
                        assert(strip_entries_model(es.take(i as int), top).push(
                            (es[i as int].0, strip_model(es[i as int].1, false)),
                        ) =~= strip_entries_model(es.take(i as int), top) + seq![
                            (es[i as int].0, strip_model(es[i as int].1, false)),
                        ]);
                    }
                }
                i = i + 1;
            }
            proof {
                assert(es.take(entries@.len() as int) =~= es);
            }
            JsonValue::Obj(out)
        },
        _ => {
            let r = crate::json::deep_copy(v);
            r
        },
    }
}

/// Cleans a schema document for presentation: removes the `$schema` and
/// `title` keys at the top level, and the `title` key from every object below
/// it.
pub fn clean_up_schema(schema: &mut JsonValue)
    ensures
        final(schema).model() == strip_model(old(schema).model(), true),
{
    let cleaned = strip_value(schema, true);
    *schema = cleaned;
}

/// Cleans a nested schema document: removes the `title` key from this object
/// and every object below it.
pub fn clean_up_schema_rest(schema: &mut JsonValue)
    ensures
        final(schema).model() == strip_model(old(schema).model(), false),
{
    let cleaned = strip_value(schema, false);
    *schema = cleaned;
}

/// If every declaration before `i` holds and declaration `i` fails, then `i`
/// is the first violation.
proof fn lemma_first_violation_head(
    s: Seq<(Seq<char>, JsonType, bool)>,
    obj: Seq<(Seq<char>, JsonModel)>,
    i: int,
)
    requires
        0 <= i < s.len(),
        forall|k: int| 0 <= k < i ==> decl_accepts(s[k], obj),
        !decl_accepts(s[i], obj),
    ensures
        first_violation(s, obj) == Option::Some(i),
    decreases i,
{
    if i == 0 {
    } else {
        lemma_first_violation_head(s.drop_first(), obj, i - 1);
        assert(forall|k: int|
            0 <= k < i - 1 ==> s.drop_first()[k] == s[k + 1]);
        assert(s.drop_first()[i - 1] == s[i]);
    }
}

} // verus!

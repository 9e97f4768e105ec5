//! The tool registry: owns a collection of tools with pairwise-disjoint
//! function names, merges their schemas, parses raw call envelopes, validates
//! parameters, and dispatches calls to the owning tool.

use vstd::prelude::*;

use crate::errors::FunctionCallError;
use crate::errors::FunctionCallParsingError;
use crate::errors::ParsingErrorModel;
use crate::json::copy_entries;
use crate::json::get_entry;
use crate::json::json_from_str;
use crate::json::lookup_entry;
use crate::json::parsed_json;
use crate::json::str_eq;
use crate::json::JsonModel;
use crate::json::JsonValue;
use crate::schema::first_violation;
use crate::schema::schema_accepts;
use crate::schema::spec_missing_detail;
use crate::schema::spec_type_detail;
use crate::schema::validate_parameters;
use crate::tool::Tool;

verus! {

/// Which envelope field carries the function name: `function_name`, or the
/// shorter `name`. Chosen once per [`ToolBox`], at construction.
#[derive(Debug, Clone, Copy, PartialEq, Eq)]
pub enum NameKey {
    FunctionName,
    Name,
}

impl NameKey {
    /// The characters of the chosen field name.
    pub open spec fn spec_key(self) -> Seq<char> {
        match self {
            NameKey::FunctionName => "function_name"@,
            NameKey::Name => "name"@,
        }
    }

    /// The chosen field name.
    pub fn key_str(&self) -> (r: &'static str)
        ensures
            r@ == self.spec_key(),
    {
        match self {
            NameKey::FunctionName => "function_name",
            NameKey::Name => "name",
        }
    }
}

/// The shape of the merged schema document a [`ToolBox`] emits: a single
/// combined schema whose `oneOf` lists one alternative per function, or a
/// tool list with one `function` entry per function. Chosen once per
/// [`ToolBox`], at construction.
#[derive(Debug, Clone, Copy, PartialEq, Eq)]
pub enum SchemaFormat {
    OneOf,
    ToolList,
}

/// A parsed call envelope: a function name and a parameters object, ready
/// for dispatch. Only a [`ToolBox`]'s parse methods produce one, so a value
/// of this type has passed the envelope checks of the box that made it.
#[derive(Debug, PartialEq, Eq, Hash, Default)]
pub struct FunctionCallArgs {
    function_name: String,
    parameters: Vec<(String, JsonValue)>,
}

impl FunctionCallArgs {
    /// The characters of the function name.
    pub closed spec fn spec_name(self) -> Seq<char> {
        self.function_name@
    }

    /// The model of the parameters object.
    pub closed spec fn spec_parameters(self) -> Seq<(Seq<char>, JsonModel)> {
        JsonValue::model_entries(self.parameters@)
    }

    /// The function name this call names.
    pub fn function_name(&self) -> (r: &String)
        ensures
            r@ == self.spec_name(),
    {
        &self.function_name
    }

    /// The parameters object of this call.
    pub fn parameters(&self) -> (r: &Vec<(String, JsonValue)>)
        ensures
            JsonValue::model_entries(r@) == self.spec_parameters(),
    {
        &self.parameters
    }

    /// This call, taken apart into its function name and parameters.
    pub fn into_parts(self) -> (r: (String, Vec<(String, JsonValue)>))
        ensures
            r.0@ == self.spec_name(),
            JsonValue::model_entries(r.1@) == self.spec_parameters(),
    {
        (self.function_name, self.parameters)
    }
}

/// The envelope a call is carried in: an object holding the function name
/// under `key` and the parameters object under `parameters`.
pub open spec fn envelope_of(
    name: Seq<char>,
    params: Seq<(Seq<char>, JsonModel)>,
    key: Seq<char>,
) -> JsonModel {
    JsonModel::Obj(
        seq![(key, JsonModel::Str(name)), ("parameters"@, JsonModel::Obj(params))],
    )
}

/// What parsing a call envelope yields: the function name and parameters of a
/// well-shaped envelope, or the envelope error its shape earns, checked in
/// this order: the input must be an object, must hold the name field, the
/// name must be a string, must hold a `parameters` field, and the parameters
/// must be an object.
pub open spec fn envelope_spec(m: JsonModel, key: Seq<char>) -> Result<
    (Seq<char>, Seq<(Seq<char>, JsonModel)>),
    ParsingErrorModel,
> {
    match m {
        JsonModel::Obj(es) => match lookup_entry(es, key) {
            Option::None => Result::Err(ParsingErrorModel::MissingName(m)),
            Option::Some(nv) => match nv {
                JsonModel::Str(name) => match lookup_entry(es, "parameters"@) {
                    Option::None => Result::Err(ParsingErrorModel::MissingParameters(m)),
                    Option::Some(pv) => match pv {
                        JsonModel::Obj(ps) => Result::Ok((name, ps)),
                        _ => Result::Err(ParsingErrorModel::ParametersNotAnObject(m)),
                    },
                },
                _ => Result::Err(ParsingErrorModel::NameNotAString(m)),
            },
        },
        _ => Result::Err(ParsingErrorModel::EnvelopeNotAnObject(m)),
    }
}

/// One `oneOf` alternative of the combined schema document: an object schema
/// requiring the function name as a constant under `key` and the function's
/// parameter schema under `parameters`.
pub open spec fn one_of_alternative(name: Seq<char>, schema: JsonModel, key: Seq<char>) -> JsonModel {
    JsonModel::Obj(
        seq![
            ("type"@, JsonModel::Str("object"@)),
            (
                "properties"@,
                JsonModel::Obj(
                    seq![
                        (key, JsonModel::Obj(seq![("const"@, JsonModel::Str(name))])),
                        ("parameters"@, schema),
                    ],
                ),
            ),
            (
                "required"@,
                JsonModel::Arr(seq![JsonModel::Str(key), JsonModel::Str("parameters"@)]),
            ),
        ],
    )
}

/// One entry of the tool-list schema document: a `function` entry carrying
/// the function's name and parameter schema.
pub open spec fn tool_list_entry(name: Seq<char>, schema: JsonModel) -> JsonModel {
    JsonModel::Obj(
        seq![
            ("type"@, JsonModel::Str("function"@)),
            (
                "function"@,
                JsonModel::Obj(
                    seq![("name"@, JsonModel::Str(name)), ("parameters"@, schema)],
                ),
            ),
        ],
    )
}

/// The merged schema, rendered in the chosen shape: a combined schema whose
/// `oneOf` lists one alternative per function, or a tool list with one
/// `function` entry per function.
pub open spec fn schema_document_model(
    entries: Seq<(Seq<char>, JsonModel)>,
    key: Seq<char>,
    format: SchemaFormat,
) -> JsonModel {
    match format {
        SchemaFormat::OneOf => JsonModel::Obj(
            seq![
                ("$schema"@, JsonModel::Str("http://json-schema.org/draft-07/schema#"@)),
                (
                    "oneOf"@,
                    JsonModel::Arr(
                        entries.map_values(
                            |e: (Seq<char>, JsonModel)| one_of_alternative(e.0, e.1, key),
                        ),
                    ),
                ),
            ],
        ),
        SchemaFormat::ToolList => JsonModel::Obj(
            seq![
                (
                    "tools"@,
                    JsonModel::Arr(
                        entries.map_values(|e: (Seq<char>, JsonModel)| tool_list_entry(e.0, e.1)),
                    ),
                ),
            ],
        ),
    }
}

/// Whether `e` is the schema-mismatch report that calling `name` with
/// `params` earns under the parameter schema `s`: it names the function, the
/// first violated declaration's path, and the constraint that was violated.
pub open spec fn mismatch_describes(
    name: Seq<char>,
    params: Seq<(Seq<char>, JsonModel)>,
    s: Seq<(Seq<char>, crate::schema::JsonType, bool)>,
    e: FunctionCallError,
) -> bool {
    e matches FunctionCallError::SchemaMismatch {
        function_name,
        violation_path,
        violation_detail,
    } && function_name@ == name && (first_violation(s, params) matches Option::Some(v)
        && violation_path@ == "/"@ + s[v].0
        && violation_detail@ == (if lookup_entry(params, s[v].0) is None {
        spec_missing_detail()
    } else {
        spec_type_detail()
    })) && violation_path@.len() > 0
}

/// A registry of tools that can be called by name with schema-checked
/// arguments. The box owns its tools; their function names are pairwise
/// disjoint, enforced when a tool is added. Calls are parsed, resolved and
/// validated here, then dispatched to the owning tool.
pub struct ToolBox<T> {
    /// All the tools a caller can reach, in registration order.
    tools: Vec<T>,
    /// The merged schema document: each registered function's schema, keyed
    /// by function name, in registration order.
    schema: Vec<(String, JsonValue)>,
    /// The envelope field that carries the function name.
    name_key: NameKey,
    /// The shape of the emitted schema document.
    format: SchemaFormat,
}

/// A [`ToolBox`] for hosts that keep everything on one thread: the same
/// registry; the name only records the intent.
pub type ToolBoxLocal<T> = ToolBox<T>;

/// Whether no name is provided by both of two tools' name lists.
pub open spec fn names_disjoint(a: Seq<Seq<char>>, b: Seq<Seq<char>>) -> bool {
    forall|n: Seq<char>| a.contains(n) ==> !b.contains(n)
}

/// The first tool in the list providing `name`, if any.
pub open spec fn first_tool_with<T: Tool>(tools: Seq<T>, name: Seq<char>) -> Option<int>
    decreases tools,
{
    if tools.len() == 0 {
        Option::None
    } else if tools[0].spec_names().contains(name) {
        Option::Some(0)
    } else {
        match first_tool_with(tools.drop_first(), name) {
            Option::Some(i) => Option::Some(i + 1),
            Option::None => Option::None,
        }
    }
}

/// If no tool before `i` provides `name` and tool `i` does, then `i` is the
/// first tool with `name`.
proof fn lemma_first_tool_with_head<T: Tool>(tools: Seq<T>, name: Seq<char>, i: int)
    requires
        0 <= i < tools.len(),
        forall|k: int| 0 <= k < i ==> !(#[trigger] tools[k].spec_names()).contains(name),
        tools[i].spec_names().contains(name),
    ensures
        first_tool_with(tools, name) == Option::Some(i),
    decreases i,
{
    if i == 0 {
    } else {
        assert(forall|k: int|
            0 <= k < i - 1 ==> tools.drop_first()[k] == tools[k + 1]);
        assert(tools.drop_first()[i - 1] == tools[i]);
        lemma_first_tool_with_head(tools.drop_first(), name, i - 1);
    }
}

/// The first tool with `name`, when there is one, lies in the list and
/// provides `name`.
proof fn lemma_first_tool_with_some<T: Tool>(tools: Seq<T>, name: Seq<char>)
    ensures
        first_tool_with(tools, name) matches Option::Some(i) ==> (0 <= i < tools.len()
            && tools[i].spec_names().contains(name)),
    decreases tools.len(),
{
    if tools.len() > 0 {
        lemma_first_tool_with_some(tools.drop_first(), name);
    }
}

/// If no tool provides `name`, no tool is the first with it.
proof fn lemma_first_tool_with_none<T: Tool>(tools: Seq<T>, name: Seq<char>)
    requires
        forall|k: int|
            0 <= k < tools.len() ==> !(#[trigger] tools[k].spec_names()).contains(name),
    ensures
        first_tool_with(tools, name) is None,
    decreases tools.len(),
{
    if tools.len() > 0 {
        assert(forall|k: int|
            0 <= k < tools.len() - 1 ==> tools.drop_first()[k] == tools[k + 1]);
        lemma_first_tool_with_none(tools.drop_first(), name);
    }
}

impl<T: Tool> ToolBox<T> {
    /// The registered tools, in registration order.
    pub closed spec fn spec_tools(self) -> Seq<T> {
        self.tools@
    }

    /// The model of the merged schema document.
    pub closed spec fn spec_schema(self) -> Seq<(Seq<char>, JsonModel)> {
        JsonValue::model_entries(self.schema@)
    }

    /// The envelope field that carries the function name.
    pub closed spec fn spec_name_key(self) -> NameKey {
        self.name_key
    }

    /// The shape of the emitted schema document.
    pub closed spec fn spec_format(self) -> SchemaFormat {
        self.format
    }

    /// The registry invariant: every tool's names are distinct, and no two
    /// tools share a name.
    pub open spec fn wf(self) -> bool {
        &&& forall|k: int, l: int|
            0 <= k < l < self.spec_tools().len() ==> names_disjoint(
                (#[trigger] self.spec_tools()[k]).spec_names(),
                (#[trigger] self.spec_tools()[l]).spec_names(),
            )
        &&& forall|k: int, a: int, b: int|
            0 <= k < self.spec_tools().len() && 0 <= a < b
                < self.spec_tools()[k].spec_names().len()
                ==> #[trigger] self.spec_tools()[k].spec_names()[a]
                    != #[trigger] self.spec_tools()[k].spec_names()[b]
    }

    /// The first registered tool providing `name`, if any.
    pub open spec fn spec_resolve(self, name: Seq<char>) -> Option<int> {
        first_tool_with(self.spec_tools(), name)
    }

    /// Under the registry invariant, at most one registered tool provides
    /// any given function name, so the order of the dispatch scan cannot
    /// affect which tool a call reaches.
    pub proof fn lemma_unique_owner(self, name: Seq<char>, i: int, j: int)
        requires
            self.wf(),
            0 <= i < self.spec_tools().len(),
            0 <= j < self.spec_tools().len(),
            self.spec_tools()[i].spec_names().contains(name),
            self.spec_tools()[j].spec_names().contains(name),
        ensures
            i == j,
    {
        if i < j {
            assert(names_disjoint(
                self.spec_tools()[i].spec_names(),
                self.spec_tools()[j].spec_names(),
            ));
        } else if j < i {
            assert(names_disjoint(
                self.spec_tools()[j].spec_names(),
                self.spec_tools()[i].spec_names(),
            ));
        }
    }

    /// An empty registry: no tools, an empty schema document, the function
    /// name carried under `function_name`, and the combined `oneOf` schema
    /// shape.
    pub fn new() -> (r: Self)
        ensures
            r.spec_tools() == Seq::<T>::empty(),
            r.spec_schema() == Seq::<(Seq<char>, JsonModel)>::empty(),
            r.spec_name_key() == NameKey::FunctionName,
            r.spec_format() == SchemaFormat::OneOf,
            r.wf(),
    {
        ToolBox {
            tools: Vec::new(),
            schema: Vec::new(),
            name_key: NameKey::FunctionName,
            format: SchemaFormat::OneOf,
        }
    }

    /// This registry, reading the function name from the given envelope
    /// field instead.
    pub fn with_name_key(self, name_key: NameKey) -> (r: Self)
        ensures
            r.spec_tools() == self.spec_tools(),
            r.spec_schema() == self.spec_schema(),
            r.spec_name_key() == name_key,
            r.spec_format() == self.spec_format(),
    {
        ToolBox { name_key, ..self }
    }

    /// This registry, emitting its schema document in the given shape
    /// instead.
    pub fn with_schema_format(self, format: SchemaFormat) -> (r: Self)
        ensures
            r.spec_tools() == self.spec_tools(),
            r.spec_schema() == self.spec_schema(),
            r.spec_name_key() == self.spec_name_key(),
            r.spec_format() == format,
    {
        ToolBox { format, ..self }
    }

    /// The merged schema document: each registered function's schema, keyed
    /// by function name, in registration order.
    pub fn schema(&self) -> (r: &Vec<(String, JsonValue)>)
        ensures
            JsonValue::model_entries(r@) == self.spec_schema(),
    {
        &self.schema
    }

    /// Adds `tool` to this registry. The addition is atomic: if any function
    /// name the tool provides is already provided by a registered tool, the
    /// rejected tool is handed back unchanged and the registry is untouched;
    /// otherwise the registry takes ownership of the tool and appends the
    /// tool's schema entries to the merged schema document, so the merged
    /// document's keys become the union of the old keys and the tool's keys.
    #[verifier::loop_isolation(false)]
    pub fn add_tool(&mut self, tool: T) -> (r: Result<(), T>)
        ensures
            r is Ok <==> (forall|k: int|
                0 <= k < old(self).spec_tools().len() ==> names_disjoint(
                    (#[trigger] old(self).spec_tools()[k]).spec_names(),
                    tool.spec_names(),
                )),
            r is Ok ==> {
                &&& final(self).spec_tools() == old(self).spec_tools().push(tool)
                &&& final(self).spec_schema() == old(self).spec_schema() + tool.spec_schema()
                &&& final(self).spec_name_key() == old(self).spec_name_key()
                &&& final(self).spec_format() == old(self).spec_format()
            },
            r matches Err(t) ==> t == tool && *final(self) == *old(self),
            old(self).wf() ==> final(self).wf(),
    {
        let new_names = tool.function_names();
        let ghost tn = tool.spec_names();
        let mut k: usize = 0;
        while k < self.tools.len()
            invariant
                k <= self.tools.len(),
                *self == *old(self),
                forall|k2: int|
                    0 <= k2 < k ==> names_disjoint(
                        (#[trigger] self.tools@[k2]).spec_names(),
                        tn,
                    ),
            decreases self.tools.len() - k,
        {
            let existing = self.tools[k].function_names();
            let ghost en = self.tools@[k as int].spec_names();
            let mut a: usize = 0;
            while a < existing.len()
                invariant
                    a <= existing.len(),
                    forall|a2: int, b2: int|
                        0 <= a2 < a && 0 <= b2 < new_names@.len()
                            ==> #[trigger] existing@[a2]@ != #[trigger] new_names@[b2]@,
                decreases existing.len() - a,
            {
                let mut b: usize = 0;
                while b < new_names.len()
                    invariant
                        b <= new_names.len(),
                        forall|b2: int|
                            0 <= b2 < b ==> existing@[a as int]@ != #[trigger] new_names@[b2]@,
                    decreases new_names.len() - b,
                {
                    if str_eq(existing[a].as_str(), new_names[b].as_str()) {
                        proof {
                            let w = en[a as int];
                            assert(en[a as int] == existing@[a as int]@);
                            assert(tn[b as int] == new_names@[b as int]@);
                            assert(en.contains(w));
                            assert(tn.contains(w));
                            assert(!names_disjoint(en, tn));
                            assert(old(self).spec_tools()[k as int].spec_names() == en);
                            assert(!(forall|k2: int|
                                0 <= k2 < old(self).spec_tools().len() ==> names_disjoint(
                                    (#[trigger] old(self).spec_tools()[k2]).spec_names(),
                                    tn,
                                )));
                        }
                        return Result::Err(tool);
                    }
                    b = b + 1;
                }
                a = a + 1;
            }
            proof {
                assert forall|n: Seq<char>| en.contains(n) implies !tn.contains(n) by {
                    if tn.contains(n) {
                        let a2 = choose|a2: int| 0 <= a2 < en.len() && en[a2] == n;
                        let b2 = choose|b2: int| 0 <= b2 < tn.len() && tn[b2] == n;
                        assert(existing@[a2]@ == n);
                        assert(new_names@[b2]@ == n);
                    }
                }
                assert(names_disjoint(en, tn));
            }
            k = k + 1;
        }
        let mut entries = tool.schema();
        let ghost old_schema = self.schema@;
        let ghost tool_entries = entries@;
        self.schema.append(&mut entries);
        self.tools.push(tool);
        proof {
            crate::json::lemma_model_entries(old_schema);
            crate::json::lemma_model_entries(tool_entries);
            crate::json::lemma_model_entries(self.schema@);
            assert(JsonValue::model_entries(self.schema@) =~= JsonValue::model_entries(
                old_schema,
            ) + JsonValue::model_entries(tool_entries));
            if old(self).wf() {
                let ts = self.tools@;
                assert forall|kk: int, ll: int|
                    0 <= kk < ll < ts.len() implies names_disjoint(
                    (#[trigger] ts[kk]).spec_names(),
                    (#[trigger] ts[ll]).spec_names(),
                ) by {
                    if ll < ts.len() - 1 {
                        assert(old(self).spec_tools()[kk] == ts[kk]);
                        assert(old(self).spec_tools()[ll] == ts[ll]);
                    } else {
                        assert(ts[ll].spec_names() == tn);
                        assert(names_disjoint(old(self).spec_tools()[kk].spec_names(), tn));
                    }
                }
            }
        }
        Result::Ok(())
    }

    /// What dispatching a parsed call yields: the name resolves against the
    /// registered tools in order; an unknown name earns
    /// [`FunctionCallError::FunctionNotFound`]; parameters violating the
    /// resolved function's schema earn [`FunctionCallError::SchemaMismatch`]
    /// naming the first violation, and the tool is never invoked; otherwise
    /// the call reaches the owning tool, whose own outcome comes back — at
    /// worst a [`FunctionCallError::Parsing`] report from converting a
    /// parameter to the function's native type.
    pub open spec fn dispatch_post(
        self,
        name: Seq<char>,
        params: Seq<(Seq<char>, JsonModel)>,
        r: Result<Result<T::Output, T::Error>, FunctionCallError>,
    ) -> bool {
        match self.spec_resolve(name) {
            Option::None => r matches Err(e) && e matches FunctionCallError::FunctionNotFound {
                function_name,
            } && function_name@ == name,
            Option::Some(i) => {
                let s = self.spec_tools()[i].spec_param_schema(name);
                if schema_accepts(s, params) {
                    r is Ok || (r matches Err(e) && e is Parsing)
                } else {
                    r matches Err(e) && mismatch_describes(name, params, s, e)
                }
            },
        }
    }

    /// What resolving a parsed call yields without invoking anything: the
    /// index of the owning tool when the name is known and the parameters
    /// pass its schema, the call handed back unchanged beside it; otherwise
    /// the dispatch error the call earns.
    pub open spec fn resolve_post(
        self,
        name: Seq<char>,
        params: Seq<(Seq<char>, JsonModel)>,
        call: FunctionCallArgs,
        r: Result<(usize, FunctionCallArgs), FunctionCallError>,
    ) -> bool {
        match self.spec_resolve(name) {
            Option::None => r matches Err(e)
                && e matches FunctionCallError::FunctionNotFound { function_name }
                && function_name@ == name,
            Option::Some(i) => {
                let s = self.spec_tools()[i].spec_param_schema(name);
                if schema_accepts(s, params) {
                    r == Result::<(usize, FunctionCallArgs), FunctionCallError>::Ok(
                        (i as usize, call),
                    )
                } else {
                    r matches Err(e) && mismatch_describes(name, params, s, e)
                }
            },
        }
    }

    /// The decision half of dispatch: resolves the call's name against the
    /// registered tools in order and validates the parameters against the
    /// resolved function's schema, without invoking anything. A host whose
    /// tools suspend resolves a call here, then performs the invocation the
    /// result names.
    #[verifier::loop_isolation(false)]
    pub fn resolve_call(&self, function_call: FunctionCallArgs) -> (r: Result<
        (usize, FunctionCallArgs),
        FunctionCallError,
    >)
        ensures
            self.resolve_post(
                function_call.spec_name(),
                function_call.spec_parameters(),
                function_call,
                r,
            ),
    {
        let FunctionCallArgs { function_name, parameters } = function_call;
        let ghost nm = function_name@;
        let ghost ps = JsonValue::model_entries(parameters@);
        let mut i: usize = 0;
        while i < self.tools.len()
            invariant
                i <= self.tools.len(),
                forall|k: int|
                    0 <= k < i ==> !(#[trigger] self.tools@[k].spec_names()).contains(nm),
            decreases self.tools.len() - i,
        {
            let names = self.tools[i].function_names();
            let ghost en = self.tools@[i as int].spec_names();
            let mut j: usize = 0;
            while j < names.len()
                invariant
                    j <= names.len(),
                    forall|l: int| 0 <= l < j ==> #[trigger] names@[l]@ != nm,
                decreases names.len() - j,
            {
                if str_eq(names[j].as_str(), function_name.as_str()) {
                    proof {
                        assert(en[j as int] == names@[j as int]@);
                        assert(en.contains(nm));
                        lemma_first_tool_with_head(self.tools@, nm, i as int);
                    }
                    let pschema = self.tools[i].param_schema(&function_name);
                    match validate_parameters(&pschema, &parameters) {
                        Result::Err(v) => {
                            return Result::Err(
                                FunctionCallError::SchemaMismatch {
                                    function_name,
                                    violation_path: v.path,
                                    violation_detail: v.detail,
                                },
                            );
                        },
                        Result::Ok(()) => {
                            return Result::Ok(
                                (i, FunctionCallArgs { function_name, parameters }),
                            );
                        },
                    }
                }
                j = j + 1;
            }
            proof {
                assert forall|l: int| 0 <= l < en.len() implies en[l] != nm by {
                    assert(names@[l]@ == en[l]);
                }
                if en.contains(nm) {
                    let l = choose|l: int| 0 <= l < en.len() && en[l] == nm;
                    assert(false);
                }
            }
            i = i + 1;
        }
        proof {
            lemma_first_tool_with_none(self.tools@, nm);
        }
        Result::Err(FunctionCallError::FunctionNotFound { function_name })
    }

    /// Dispatches a parsed call: resolves the name against the registered
    /// tools in order, validates the parameters against the resolved
    /// function's schema, and only then invokes the owning tool.
    pub fn call_from_args(&self, function_call: FunctionCallArgs) -> (r: Result<
        Result<T::Output, T::Error>,
        FunctionCallError,
    >)
        ensures
            self.dispatch_post(
                function_call.spec_name(),
                function_call.spec_parameters(),
                r,
            ),
    {
        let ghost nm = function_call.spec_name();
        let ghost ps = function_call.spec_parameters();
        match self.resolve_call(function_call) {
            Result::Err(e) => Result::Err(e),
            Result::Ok((index, call)) => {
                proof {
                    broadcast use vstd::std_specs::vec::axiom_spec_len;

                    lemma_first_tool_with_some(self.tools@, nm);
                    if let Option::Some(i) = self.spec_resolve(nm) {
                        assert(self.tools.len() == self.tools@.len());
                        assert(index as int == i);
                        assert(self.tools@[index as int].spec_names().contains(nm));
                        assert(call == function_call);
                    }
                }
                let (function_name, parameters) = call.into_parts();
                self.tools[index].call_function(&function_name, parameters)
            },
        }
    }

    /// Calls the tool owning the named function with the given envelope: the
    /// envelope's shape is checked first, then the name is resolved, the
    /// parameters are validated, and the owning tool is invoked.
    pub fn call_from_value(&self, function_call: JsonValue) -> (r: Result<
        Result<T::Output, T::Error>,
        FunctionCallError,
    >)
        ensures
            envelope_spec(function_call.model(), self.spec_name_key().spec_key())
                matches Result::Err(em) ==> (r matches Err(e)
                && e matches FunctionCallError::Parsing { issue } && issue@ == em.spec_message()),
            envelope_spec(function_call.model(), self.spec_name_key().spec_key())
                matches Result::Ok(p) ==> self.dispatch_post(p.0, p.1, r),
    {
        match self.into_function_call_from_value(function_call) {
            Result::Ok(fc) => self.call_from_args(fc),
            Result::Err(e) => Result::Err(e.into_call_error()),
        }
    }

    /// Calls the tool owning the named function with the given envelope
    /// text: the text must be valid JSON, and the rest proceeds as
    /// [`ToolBox::call_from_value`].
    pub fn call_from_str(&self, function_call: &str) -> (r: Result<
        Result<T::Output, T::Error>,
        FunctionCallError,
    >)
        ensures
            parsed_json(function_call@) is None ==> (r matches Err(e)
                && e matches FunctionCallError::Parsing { issue } && issue@
                == ParsingErrorModel::InvalidJson.spec_message()),
            parsed_json(function_call@) matches Option::Some(j) ==> {
                &&& envelope_spec(j.model(), self.spec_name_key().spec_key())
                    matches Result::Err(em) ==> (r matches Err(e)
                    && e matches FunctionCallError::Parsing { issue } && issue@
                    == em.spec_message())
                &&& envelope_spec(j.model(), self.spec_name_key().spec_key())
                    matches Result::Ok(p) ==> self.dispatch_post(p.0, p.1, r)
            },
    {
        match self.into_function_call_from_str(function_call) {
            Result::Ok(fc) => self.call_from_args(fc),
            Result::Err(e) => Result::Err(e.into_call_error()),
        }
    }

    /// The merged schema, emitted in the shape chosen at construction: a
    /// single combined schema whose `oneOf` lists one alternative per
    /// function, or a tool list with one `function` entry per function.
    #[verifier::loop_isolation(false)]
    pub fn schema_document(&self) -> (r: JsonValue)
        ensures
            r.model() == schema_document_model(
                self.spec_schema(),
                self.spec_name_key().spec_key(),
                self.spec_format(),
            ),
    {
        let key = self.name_key.key_str();
        let ghost entries_model = self.spec_schema();
        let mut items: Vec<JsonValue> = Vec::new();
        proof {
            crate::json::lemma_model_entries(self.schema@);
        }
        let mut i: usize = 0;
        while i < self.schema.len()
            invariant
                i <= self.schema.len(),
                items@.len() == i,
                forall|k: int|
                    0 <= k < i ==> #[trigger] items@[k].model() == (match self.spec_format() {
                        SchemaFormat::OneOf => one_of_alternative(
                            entries_model[k].0,
                            entries_model[k].1,
                            self.spec_name_key().spec_key(),
                        ),
                        SchemaFormat::ToolList => tool_list_entry(
                            entries_model[k].0,
                            entries_model[k].1,
                        ),
                    }),
            decreases self.schema.len() - i,
        {
            let name = &self.schema[i].0;
            let value = crate::json::deep_copy(&self.schema[i].1);
            let item = match self.format {
                SchemaFormat::OneOf => crate::json::obj3(
                    "type",
                    JsonValue::Str("object".to_owned()),
                    "properties",
                    crate::json::obj2(
                        key,
                        crate::json::obj1("const", JsonValue::Str(name.clone())),
                        "parameters",
                        value,
                    ),
                    "required",
                    crate::json::arr2str(key, "parameters"),
                ),
                SchemaFormat::ToolList => crate::json::obj2(
                    "type",
                    JsonValue::Str("function".to_owned()),
                    "function",
                    crate::json::obj2(
                        "name",
                        JsonValue::Str(name.clone()),
                        "parameters",
                        value,
                    ),
                ),
            };
            items.push(item);
            i = i + 1;
        }
        proof {
            crate::json::lemma_model_elems(items@);
            match self.spec_format() {
                SchemaFormat::OneOf => {
                    assert(JsonValue::model_elems(items@) =~= entries_model.map_values(
                        |e: (Seq<char>, JsonModel)| one_of_alternative(
                            e.0,
                            e.1,
                            self.spec_name_key().spec_key(),
                        ),
                    ));
                },
                SchemaFormat::ToolList => {
                    assert(JsonValue::model_elems(items@) =~= entries_model.map_values(
                        |e: (Seq<char>, JsonModel)| tool_list_entry(e.0, e.1),
                    ));
                },
            }
        }
        let r = match self.format {
            SchemaFormat::OneOf => crate::json::obj2(
                "$schema",
                JsonValue::Str("http://json-schema.org/draft-07/schema#".to_owned()),
                "oneOf",
                JsonValue::Arr(items),
            ),
            SchemaFormat::ToolList => crate::json::obj1("tools", JsonValue::Arr(items)),
        };
        proof {
            assert(r.model() =~~= schema_document_model(
                self.spec_schema(),
                self.spec_name_key().spec_key(),
                self.spec_format(),
            ));
        }
        r
    }

    /// Reads a JSON value as a call envelope, checking its shape alone: the
    /// result of [`envelope_spec`] on the input's model, with the box's
    /// configured name field.
    pub fn into_function_call_from_value(&self, input: JsonValue) -> (r: Result<
        FunctionCallArgs,
        FunctionCallParsingError,
    >)
        ensures
            match r {
                Result::Ok(fc) => envelope_spec(input.model(), self.spec_name_key().spec_key())
                    == Result::<_, ParsingErrorModel>::Ok((fc.spec_name(), fc.spec_parameters())),
                Result::Err(e) => envelope_spec(input.model(), self.spec_name_key().spec_key())
                    == Result::<(Seq<char>, Seq<(Seq<char>, JsonModel)>), _>::Err(e.model()),
            },
    {
        let key = self.name_key.key_str();
        match input {
            JsonValue::Obj(entries) => {
                let name: String = match get_entry(&entries, key) {
                    Option::Some(v) => match v {
                        JsonValue::Str(s) => s.clone(),
                        _ => {
                            return Result::Err(FunctionCallParsingError::NameNotAString {
                                input: JsonValue::Obj(entries),
                            });
                        },
                    },
                    Option::None => {
                        return Result::Err(FunctionCallParsingError::MissingName {
                            input: JsonValue::Obj(entries),
                        });
                    },
                };
                let parameters: Vec<(String, JsonValue)> = match get_entry(
                    &entries,
                    "parameters",
                ) {
                    Option::Some(v) => match v {
                        JsonValue::Obj(ps) => copy_entries(ps),
                        _ => {
                            return Result::Err(FunctionCallParsingError::ParametersNotAnObject {
                                input: JsonValue::Obj(entries),
                            });
                        },
                    },
                    Option::None => {
                        return Result::Err(FunctionCallParsingError::MissingParameters {
                            input: JsonValue::Obj(entries),
                        });
                    },
                };
                Result::Ok(FunctionCallArgs { function_name: name, parameters })
            },
            other => Result::Err(FunctionCallParsingError::EnvelopeNotAnObject { input: other }),
        }
    }

    /// Reads a text as a call envelope: the text must be valid JSON, and the
    /// document it denotes must have the envelope shape.
    pub fn into_function_call_from_str(&self, input: &str) -> (r: Result<
        FunctionCallArgs,
        FunctionCallParsingError,
    >)
        ensures
            parsed_json(input@) is None ==> r == Result::<FunctionCallArgs, _>::Err(
                FunctionCallParsingError::InvalidJson,
            ),
            parsed_json(input@) matches Option::Some(j) ==> match r {
                Result::Ok(fc) => envelope_spec(j.model(), self.spec_name_key().spec_key())
                    == Result::<_, ParsingErrorModel>::Ok((fc.spec_name(), fc.spec_parameters())),
                Result::Err(e) => envelope_spec(j.model(), self.spec_name_key().spec_key())
                    == Result::<(Seq<char>, Seq<(Seq<char>, JsonModel)>), _>::Err(e.model()),
            },
    {
        match json_from_str(input) {
            Option::Some(v) => self.into_function_call_from_value(v),
            Option::None => Result::Err(FunctionCallParsingError::InvalidJson),
        }
    }

    /// Writes a parsed call back into its envelope: an object carrying the
    /// function name under the box's configured field and the parameters
    /// under `parameters`. Parsing the result yields the same call back.
    pub fn serialize_call(&self, call: &FunctionCallArgs) -> (r: JsonValue)
        ensures
            r.model() == envelope_of(
                call.spec_name(),
                call.spec_parameters(),
                self.spec_name_key().spec_key(),
            ),
    {
        let mut entries: Vec<(String, JsonValue)> = Vec::new();
        entries.push(
            (self.name_key.key_str().to_owned(), JsonValue::Str(call.function_name.clone())),
        );
        entries.push(("parameters".to_owned(), JsonValue::Obj(copy_entries(&call.parameters))));
        proof {
            crate::json::lemma_model_entries(entries@);
            assert(JsonValue::model_entries(entries@) =~= seq![
                (self.spec_name_key().spec_key(), JsonModel::Str(call.spec_name())),
                ("parameters"@, JsonModel::Obj(call.spec_parameters())),
            ]);
        }
        JsonValue::Obj(entries)
    }
}

/// Parsing the envelope that carries `name` and `params` yields them back.
pub proof fn lemma_envelope_round_trip(
    name: Seq<char>,
    params: Seq<(Seq<char>, JsonModel)>,
    key: NameKey,
)
    ensures
        envelope_spec(envelope_of(name, params, key.spec_key()), key.spec_key())
            == Result::<(Seq<char>, Seq<(Seq<char>, JsonModel)>), ParsingErrorModel>::Ok(
            (name, params),
        ),
{
    reveal_strlit("function_name");
    reveal_strlit("name");
    reveal_strlit("parameters");
    let es = seq![
        (key.spec_key(), JsonModel::Str(name)),
        ("parameters"@, JsonModel::Obj(params)),
    ];
    match key {
        NameKey::FunctionName => {
            assert("function_name"@.len() == 13);
            assert(key.spec_key() != "parameters"@);
        },
        NameKey::Name => {
            assert("name"@.len() == 4);
            assert(key.spec_key() != "parameters"@);
        },
    }
    assert(es[0].0 == key.spec_key());
    assert(lookup_entry(es, key.spec_key()) == Option::Some(JsonModel::Str(name)));
    assert(es.drop_first() =~= seq![("parameters"@, JsonModel::Obj(params))]);
    assert(lookup_entry(es.drop_first(), "parameters"@) == Option::Some(
        JsonModel::Obj(params),
    ));
    assert(lookup_entry(es, "parameters"@) == Option::Some(JsonModel::Obj(params)));
}

} // verus!

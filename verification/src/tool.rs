//! The capability a tool offers: named functions, a schema describing them,
//! and an invocation entry point.

use vstd::prelude::*;

use crate::errors::FunctionCallError;
use crate::json::JsonModel;
use crate::json::JsonValue;
use crate::schema::schema_accepts;
use crate::schema::JsonType;
use crate::schema::ParamSchema;

verus! {

/// A named, schema-described, callable capability. A tool provides one or
/// more functions; a [`crate::ToolBox`](crate::ToolBox) owns a collection of
/// tools whose function names are pairwise disjoint and dispatches calls to
/// them.
///
/// A tool's result and error types are fixed by `Output` and `Error`. Tools
/// whose functions return unrelated concrete types unify them through these
/// associated types: an enum over the concrete result types where they
/// differ, or a marker type with no values for `Error` when no function can
/// fail.
pub trait Tool {
    type Output;

    type Error;

    /// The function names this tool provides, in order. An implementation
    /// states its own names; the default stands for none.
    open spec fn spec_names(&self) -> Seq<Seq<char>> {
        Seq::empty()
    }

    /// The tool's schema document: one entry per function, keyed by the
    /// function's name, holding that function's schema. An implementation
    /// states its own document; the default stands for an empty one.
    open spec fn spec_schema(&self) -> Seq<(Seq<char>, JsonModel)> {
        Seq::empty()
    }

    /// The compiled parameter schema of the named function. An
    /// implementation states its own schemas; the default stands for a
    /// schema without declarations.
    open spec fn spec_param_schema(&self, name: Seq<char>) -> Seq<(Seq<char>, JsonType, bool)> {
        Seq::empty()
    }

    /// The names of the functions this tool provides: at least one, with no
    /// name repeated.
    fn function_names(&self) -> (r: Vec<String>)
        ensures
            r@.map_values(|s: String| s@) == self.spec_names(),
            r.len() > 0,
            forall|i: int, j: int|
                0 <= i < j < self.spec_names().len() ==> self.spec_names()[i]
                    != self.spec_names()[j],
    ;

    /// The schema for the functions available to call on this tool, keyed by
    /// function name, in the order of [`Tool::function_names`].
    fn schema(&self) -> (r: Vec<(String, JsonValue)>)
        ensures
            JsonValue::model_entries(r@) == self.spec_schema(),
            self.spec_schema().len() == self.spec_names().len(),
            forall|i: int|
                0 <= i < self.spec_schema().len() ==> self.spec_schema()[i].0
                    == self.spec_names()[i],
    ;

    /// The compiled parameter schema of the named function, used to validate
    /// a call's parameters before the function runs.
    fn param_schema(&self, name: &String) -> (r: ParamSchema)
        requires
            self.spec_names().contains(name@),
        ensures
            r.model() == self.spec_param_schema(name@),
    ;

    /// Runs the named function on the given parameters. The registry calls
    /// this only after the parameters passed the function's schema; the
    /// remaining failure of the machinery is a parameter that cannot be
    /// converted to the function's native type, reported as
    /// [`FunctionCallError::Parsing`]. The inner result is the function's
    /// own outcome.
    fn call_function(&self, name: &String, parameters: Vec<(String, JsonValue)>) -> (r: Result<
        Result<Self::Output, Self::Error>,
        FunctionCallError,
    >)
        requires
            self.spec_names().contains(name@),
            schema_accepts(
                self.spec_param_schema(name@),
                JsonValue::model_entries(parameters@),
            ),
        ensures
            r matches Err(e) ==> e is Parsing,
    ;
}

} // verus!

//! The errors of the dispatch machinery: envelope-shape errors raised while
//! reading a raw tool call, and the call-level errors a caller sees.

use vstd::prelude::*;
use vstd::string::StringExecFns;

use crate::json::JsonModel;
use crate::json::JsonValue;

verus! {

/// Why a raw tool call could not be read as a call envelope. Every variant but
/// [`FunctionCallParsingError::InvalidJson`] carries the offending input, so a
/// host can show the caller what it received.
#[derive(Debug, PartialEq, Eq)]
pub enum FunctionCallParsingError {
    /// The input text is not valid JSON.
    InvalidJson,
    /// The input is JSON, but its top level is not an object.
    EnvelopeNotAnObject { input: JsonValue },
    /// The envelope has no function-name field.
    MissingName { input: JsonValue },
    /// The envelope's function-name field is not a string.
    NameNotAString { input: JsonValue },
    /// The envelope has no `parameters` field.
    MissingParameters { input: JsonValue },
    /// The envelope's `parameters` field is not an object.
    ParametersNotAnObject { input: JsonValue },
}

/// The model of a [`FunctionCallParsingError`]: the same shape over
/// [`JsonModel`].
pub enum ParsingErrorModel {
    InvalidJson,
    EnvelopeNotAnObject(JsonModel),
    MissingName(JsonModel),
    NameNotAString(JsonModel),
    MissingParameters(JsonModel),
    ParametersNotAnObject(JsonModel),
}

impl ParsingErrorModel {
    /// The text shown for an envelope error of this shape.
    pub open spec fn spec_message(self) -> Seq<char> {
        match self {
            ParsingErrorModel::InvalidJson => "The tool call is not valid json"@,
            ParsingErrorModel::EnvelopeNotAnObject(m) => "The tool call is not a json object"@,
            ParsingErrorModel::MissingName(m) =>
                "The tool call is missing the function name field"@,
            ParsingErrorModel::NameNotAString(m) =>
                "The tool call function name field is not a string"@,
            ParsingErrorModel::MissingParameters(m) =>
                "The tool call is missing the `parameters` field"@,
            ParsingErrorModel::ParametersNotAnObject(m) =>
                "The tool call `parameters` field is not an object"@,
        }
    }
}

impl FunctionCallParsingError {
    /// The model of this error.
    pub open spec fn model(self) -> ParsingErrorModel {
        match self {
            FunctionCallParsingError::InvalidJson => ParsingErrorModel::InvalidJson,
            FunctionCallParsingError::EnvelopeNotAnObject { input } =>
                ParsingErrorModel::EnvelopeNotAnObject(input.model()),
            FunctionCallParsingError::MissingName { input } =>
                ParsingErrorModel::MissingName(input.model()),
            FunctionCallParsingError::NameNotAString { input } =>
                ParsingErrorModel::NameNotAString(input.model()),
            FunctionCallParsingError::MissingParameters { input } =>
                ParsingErrorModel::MissingParameters(input.model()),
            FunctionCallParsingError::ParametersNotAnObject { input } =>
                ParsingErrorModel::ParametersNotAnObject(input.model()),
        }
    }

    /// The text shown for this error.
    pub open spec fn spec_message(self) -> Seq<char> {
        self.model().spec_message()
    }

    /// A line telling the caller what was wrong with the envelope, phrased so
    /// that a language model can correct the call and retry.
    pub fn message(&self) -> (r: String)
        ensures
            r@ == self.spec_message(),
    {
        match self {
            FunctionCallParsingError::InvalidJson => "The tool call is not valid json".to_owned(),
            FunctionCallParsingError::EnvelopeNotAnObject { .. } =>
                "The tool call is not a json object".to_owned(),
            FunctionCallParsingError::MissingName { .. } =>
                "The tool call is missing the function name field".to_owned(),
            FunctionCallParsingError::NameNotAString { .. } =>
                "The tool call function name field is not a string".to_owned(),
            FunctionCallParsingError::MissingParameters { .. } =>
                "The tool call is missing the `parameters` field".to_owned(),
            FunctionCallParsingError::ParametersNotAnObject { .. } =>
                "The tool call `parameters` field is not an object".to_owned(),
        }
    }

    /// This error as seen through the call entry points: an issue report under
    /// [`FunctionCallError::Parsing`].
    pub fn into_call_error(self) -> (r: FunctionCallError)
        ensures
            r matches FunctionCallError::Parsing { issue } && issue@ == self.spec_message(),
    {
        FunctionCallError::Parsing { issue: self.message() }
    }
}

/// An error of the dispatch machinery itself, as opposed to a failure of the
/// tool that ran: the call never reached a tool function's own logic.
#[derive(Debug, PartialEq, Eq)]
pub enum FunctionCallError {
    /// The resolved name does not match any registered function.
    FunctionNotFound { function_name: String },
    /// The parameters are present but violate the function's declared schema.
    /// The path points at the offending parameter; the detail names the
    /// constraint that was violated.
    SchemaMismatch {
        function_name: String,
        violation_path: String,
        violation_detail: String,
    },
    /// The envelope could not be read, or a parameter passed the schema but
    /// could not be converted to the tool's native type.
    Parsing { issue: String },
}

impl FunctionCallError {
    /// The error raised when `function_name` matches no registered function.
    pub fn function_not_found(function_name: String) -> (r: Self)
        ensures
            r == (FunctionCallError::FunctionNotFound { function_name }),
    {
        Self::FunctionNotFound { function_name }
    }

    /// The error raised when an input could not be read or converted.
    pub fn parsing(issue: String) -> (r: Self)
        ensures
            r == (FunctionCallError::Parsing { issue }),
    {
        Self::Parsing { issue }
    }

    /// The text shown for this error.
    pub open spec fn spec_message(self) -> Seq<char> {
        match self {
            FunctionCallError::FunctionNotFound { function_name } =>
                "The function with name `"@ + function_name@
                    + "` was not found in the toolbox"@,
            FunctionCallError::SchemaMismatch { function_name, violation_path, violation_detail } =>
                "The call to `"@ + function_name@ + "` does not follow the schema at `"@
                    + violation_path@ + "`: "@ + violation_detail@,
            FunctionCallError::Parsing { issue } =>
                "An issue occured parsing against the schema:\n"@ + issue@,
        }
    }

    /// A line telling the caller what went wrong, phrased so that a language
    /// model can correct the call and retry.
    pub fn message(&self) -> (r: String)
        ensures
            r@ == self.spec_message(),
    {
        match self {
            FunctionCallError::FunctionNotFound { function_name } => {
                let mut s: String = "The function with name `".to_owned();
                s.append(function_name.as_str());
                s.append("` was not found in the toolbox");
                s
            },
            FunctionCallError::SchemaMismatch {
                function_name,
                violation_path,
                violation_detail,
            } => {
                let mut s: String = "The call to `".to_owned();
                s.append(function_name.as_str());
                s.append("` does not follow the schema at `");
                s.append(violation_path.as_str());
                s.append("`: ");
                s.append(violation_detail.as_str());
                s
            },
            FunctionCallError::Parsing { issue } => {
                let mut s: String = "An issue occured parsing against the schema:\n".to_owned();
                s.append(issue.as_str());
                s
            },
        }
    }
}

} // verus!

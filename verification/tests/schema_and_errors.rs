use std::convert::Infallible;

use llmtoolbox::clean_up_schema;
use llmtoolbox::clean_up_schema_rest;
use llmtoolbox::validate_parameters;
use llmtoolbox::FunctionCallError;
use llmtoolbox::FunctionCallParsingError;
use llmtoolbox::JsonType;
use llmtoolbox::JsonValue;
use llmtoolbox::NameKey;
use llmtoolbox::ParamDecl;
use llmtoolbox::ParamSchema;
use llmtoolbox::SchemaFormat;
use llmtoolbox::Tool;
use llmtoolbox::ToolBox;

fn obj(entries: Vec<(&str, JsonValue)>) -> JsonValue {
    JsonValue::Obj(
        entries
            .into_iter()
            .map(|(k, v)| (k.to_string(), v))
            .collect(),
    )
}

fn s(text: &str) -> JsonValue {
    JsonValue::Str(text.to_string())
}

#[test]
fn clean_up_removes_top_level_markers() {
    let mut schema = obj(vec![
        ("$schema", s("http://json-schema.org/draft-07/schema#")),
        ("title", s("Greeting")),
        (
            "properties",
            obj(vec![
                ("title", s("kept-value-is-dropped-by-key")),
                ("greeting", obj(vec![("type", s("string")), ("title", s("inner"))])),
            ]),
        ),
    ]);
    clean_up_schema(&mut schema);
    let expected = obj(vec![(
        "properties",
        obj(vec![("greeting", obj(vec![("type", s("string"))]))]),
    )]);
    assert_eq!(schema, expected);
}

#[test]
fn clean_up_rest_keeps_top_level_dollar_schema() {
    let mut schema = obj(vec![
        ("$schema", s("http://json-schema.org/draft-07/schema#")),
        ("title", s("Greeting")),
        ("inner", obj(vec![("title", s("x")), ("kept", JsonValue::Int(1))])),
    ]);
    clean_up_schema_rest(&mut schema);
    let expected = obj(vec![
        ("$schema", s("http://json-schema.org/draft-07/schema#")),
        ("inner", obj(vec![("kept", JsonValue::Int(1))])),
    ]);
    assert_eq!(schema, expected);
}

#[test]
fn clean_up_leaves_non_objects_alone() {
    let mut value = JsonValue::Arr(vec![
        obj(vec![("title", s("untouched: arrays are not cleaned"))]),
        JsonValue::Int(3),
    ]);
    let expected = value.clone_for_test();
    clean_up_schema(&mut value);
    assert_eq!(value, expected);
}

trait CloneForTest {
    fn clone_for_test(&self) -> JsonValue;
}

impl CloneForTest for JsonValue {
    fn clone_for_test(&self) -> JsonValue {
        llmtoolbox::json::deep_copy(self)
    }
}

fn greeting_schema() -> ParamSchema {
    ParamSchema {
        params: vec![
            ParamDecl {
                name: "greeting".to_string(),
                typ: JsonType::Str,
                required: true,
            },
            ParamDecl {
                name: "volume".to_string(),
                typ: JsonType::Int,
                required: false,
            },
        ],
    }
}

#[test]
fn validation_accepts_matching_parameters() {
    let params = vec![
        ("greeting".to_string(), s("hi")),
        ("volume".to_string(), JsonValue::Int(3)),
    ];
    assert!(validate_parameters(&greeting_schema(), &params).is_ok());
}

#[test]
fn validation_accepts_omitted_optional_parameters() {
    let params = vec![("greeting".to_string(), s("hi"))];
    assert!(validate_parameters(&greeting_schema(), &params).is_ok());
}

#[test]
fn validation_accepts_undeclared_extra_parameters() {
    let params = vec![
        ("greeting".to_string(), s("hi")),
        ("extra".to_string(), JsonValue::Bool(true)),
    ];
    assert!(validate_parameters(&greeting_schema(), &params).is_ok());
}

#[test]
fn validation_reports_missing_required_parameter() {
    let params = vec![("volume".to_string(), JsonValue::Int(3))];
    let violation = validate_parameters(&greeting_schema(), &params).unwrap_err();
    assert_eq!(violation.path, "/greeting");
    assert_eq!(violation.detail, "the required parameter is missing");
}

#[test]
fn validation_reports_wrong_type() {
    let params = vec![
        ("greeting".to_string(), s("hi")),
        ("volume".to_string(), s("loud")),
    ];
    let violation = validate_parameters(&greeting_schema(), &params).unwrap_err();
    assert_eq!(violation.path, "/volume");
    assert_eq!(violation.detail, "the value does not have the declared type");
}

#[test]
fn validation_types_match_json_values() {
    let cases = vec![
        (JsonType::Null, JsonValue::Null, true),
        (JsonType::Bool, JsonValue::Bool(false), true),
        (JsonType::Int, JsonValue::Int(-2), true),
        (JsonType::Num, JsonValue::Int(7), true),
        (JsonType::Str, s("x"), true),
        (JsonType::Arr, JsonValue::Arr(vec![]), true),
        (JsonType::Obj, obj(vec![]), true),
        (JsonType::Any, s("anything"), true),
        (JsonType::Str, JsonValue::Int(1), false),
        (JsonType::Int, s("1"), false),
    ];
    for (typ, value, accepted) in cases {
        let schema = ParamSchema {
            params: vec![ParamDecl {
                name: "p".to_string(),
                typ,
                required: true,
            }],
        };
        let params = vec![("p".to_string(), value)];
        assert_eq!(
            validate_parameters(&schema, &params).is_ok(),
            accepted,
            "type {typ:?}"
        );
    }
}

#[derive(Debug)]
struct OneTool;

impl Tool for OneTool {
    type Output = String;
    type Error = Infallible;

    fn function_names(&self) -> Vec<String> {
        vec!["greet".to_string()]
    }

    fn schema(&self) -> Vec<(String, JsonValue)> {
        vec![("greet".to_string(), obj(vec![("type", s("object"))]))]
    }

    fn param_schema(&self, _name: &String) -> ParamSchema {
        ParamSchema { params: vec![] }
    }

    fn call_function(
        &self,
        _name: &String,
        _parameters: Vec<(String, JsonValue)>,
    ) -> Result<Result<String, Infallible>, FunctionCallError> {
        Ok(Ok("ok".to_string()))
    }
}

#[test]
fn schema_document_one_of_shape() {
    let mut toolbox: ToolBox<OneTool> = ToolBox::new();
    toolbox.add_tool(OneTool).unwrap();
    let document = toolbox.schema_document();
    let expected = obj(vec![
        ("$schema", s("http://json-schema.org/draft-07/schema#")),
        (
            "oneOf",
            JsonValue::Arr(vec![obj(vec![
                ("type", s("object")),
                (
                    "properties",
                    obj(vec![
                        ("function_name", obj(vec![("const", s("greet"))])),
                        ("parameters", obj(vec![("type", s("object"))])),
                    ]),
                ),
                (
                    "required",
                    JsonValue::Arr(vec![s("function_name"), s("parameters")]),
                ),
            ])]),
        ),
    ]);
    assert_eq!(document, expected);
}

#[test]
fn schema_document_tool_list_shape() {
    let mut toolbox: ToolBox<OneTool> = ToolBox::new()
        .with_name_key(NameKey::Name)
        .with_schema_format(SchemaFormat::ToolList);
    toolbox.add_tool(OneTool).unwrap();
    let document = toolbox.schema_document();
    let expected = obj(vec![(
        "tools",
        JsonValue::Arr(vec![obj(vec![
            ("type", s("function")),
            (
                "function",
                obj(vec![
                    ("name", s("greet")),
                    ("parameters", obj(vec![("type", s("object"))])),
                ]),
            ),
        ])]),
    )]);
    assert_eq!(document, expected);
}

#[test]
fn envelope_errors_name_their_cause() {
    let toolbox: ToolBox<OneTool> = ToolBox::new();

    match toolbox.into_function_call_from_value(JsonValue::Int(3)) {
        Err(FunctionCallParsingError::EnvelopeNotAnObject { input }) => {
            assert_eq!(input, JsonValue::Int(3))
        }
        other => panic!("expected EnvelopeNotAnObject, got {other:?}"),
    }

    let missing_name = obj(vec![("parameters", obj(vec![]))]);
    match toolbox.into_function_call_from_value(missing_name) {
        Err(FunctionCallParsingError::MissingName { .. }) => {}
        other => panic!("expected MissingName, got {other:?}"),
    }

    let name_not_string = obj(vec![
        ("function_name", JsonValue::Int(1)),
        ("parameters", obj(vec![])),
    ]);
    match toolbox.into_function_call_from_value(name_not_string) {
        Err(FunctionCallParsingError::NameNotAString { .. }) => {}
        other => panic!("expected NameNotAString, got {other:?}"),
    }

    let missing_parameters = obj(vec![("function_name", s("greet"))]);
    match toolbox.into_function_call_from_value(missing_parameters) {
        Err(FunctionCallParsingError::MissingParameters { .. }) => {}
        other => panic!("expected MissingParameters, got {other:?}"),
    }

    let parameters_not_object = obj(vec![
        ("function_name", s("greet")),
        ("parameters", JsonValue::Int(2)),
    ]);
    match toolbox.into_function_call_from_value(parameters_not_object) {
        Err(FunctionCallParsingError::ParametersNotAnObject { .. }) => {}
        other => panic!("expected ParametersNotAnObject, got {other:?}"),
    }

    match toolbox.into_function_call_from_str("]") {
        Err(FunctionCallParsingError::InvalidJson) => {}
        other => panic!("expected InvalidJson, got {other:?}"),
    }
}

#[test]
fn error_messages_are_exact() {
    assert_eq!(
        FunctionCallError::function_not_found("bye".to_string()).message(),
        "The function with name `bye` was not found in the toolbox"
    );
    assert_eq!(
        FunctionCallError::parsing("oops".to_string()).message(),
        "An issue occured parsing against the schema:\noops"
    );
    assert_eq!(
        FunctionCallParsingError::InvalidJson.message(),
        "The tool call is not valid json"
    );
    let mismatch = FunctionCallError::SchemaMismatch {
        function_name: "greet".to_string(),
        violation_path: "/greeting".to_string(),
        violation_detail: "the required parameter is missing".to_string(),
    };
    assert_eq!(
        mismatch.message(),
        "The call to `greet` does not follow the schema at `/greeting`: \
         the required parameter is missing"
    );
}

#[test]
fn numbers_outside_i64_are_refused_as_text() {
    let toolbox: ToolBox<OneTool> = ToolBox::new();
    match toolbox.into_function_call_from_str(
        r#"{"function_name":"greet","parameters":{"big":18446744073709551615}}"#,
    ) {
        Err(FunctionCallParsingError::InvalidJson) => {}
        other => panic!("expected InvalidJson for an overflowing number, got {other:?}"),
    }
}

#[test]
fn parsed_text_matches_hand_built_value() {
    let toolbox: ToolBox<OneTool> = ToolBox::new();
    let from_text = toolbox
        .into_function_call_from_str(
            r#"{"function_name":"greet","parameters":{"flag":true,"n":-4,"nothing":null}}"#,
        )
        .unwrap();
    let from_value = toolbox
        .into_function_call_from_value(obj(vec![
            ("function_name", s("greet")),
            (
                "parameters",
                obj(vec![
                    ("flag", JsonValue::Bool(true)),
                    ("n", JsonValue::Int(-4)),
                    ("nothing", JsonValue::Null),
                ]),
            ),
        ]))
        .unwrap();
    assert_eq!(from_text, from_value);
}

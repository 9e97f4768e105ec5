use std::any::Any;
use std::convert::Infallible;
use std::fmt::Display;

use llmtoolbox::FunctionCallError;
use llmtoolbox::JsonType;
use llmtoolbox::JsonValue;
use llmtoolbox::ParamDecl;
use llmtoolbox::ParamSchema;
use llmtoolbox::Tool;
use llmtoolbox::ToolBox;
use llmtoolbox::ToolBoxLocal;

#[derive(Debug)]
struct MyTool<T: Display + Sync> {
    #[allow(dead_code)]
    display: T,
}

impl<T: Display + Sync> MyTool<T> {
    fn new(display: T) -> Self {
        Self { display }
    }

    fn greet(&self, greeting: &str) -> String {
        println!("Greetings!");
        format!("This is the greeting `{greeting}`")
    }

    fn goodbye(&self) -> u32 {
        println!("Goodbye!");
        0
    }
}

fn greet_param_schema() -> ParamSchema {
    ParamSchema {
        params: vec![ParamDecl {
            name: "greeting".to_string(),
            typ: JsonType::Str,
            required: true,
        }],
    }
}

fn my_tool_schema() -> Vec<(String, JsonValue)> {
    vec![
        (
            "greet".to_string(),
            JsonValue::Obj(vec![
                ("type".to_string(), JsonValue::Str("object".to_string())),
                (
                    "properties".to_string(),
                    JsonValue::Obj(vec![(
                        "greeting".to_string(),
                        JsonValue::Obj(vec![(
                            "type".to_string(),
                            JsonValue::Str("string".to_string()),
                        )]),
                    )]),
                ),
            ]),
        ),
        (
            "goodbye".to_string(),
            JsonValue::Obj(vec![(
                "type".to_string(),
                JsonValue::Str("object".to_string()),
            )]),
        ),
    ]
}

fn get<'a>(parameters: &'a [(String, JsonValue)], key: &str) -> Option<&'a JsonValue> {
    parameters.iter().find(|(k, _)| k == key).map(|(_, v)| v)
}

impl<T: Display + Sync> Tool for MyTool<T> {
    type Output = Box<dyn Any>;
    type Error = Infallible;

    fn function_names(&self) -> Vec<String> {
        vec!["greet".to_string(), "goodbye".to_string()]
    }

    fn schema(&self) -> Vec<(String, JsonValue)> {
        my_tool_schema()
    }

    fn param_schema(&self, name: &String) -> ParamSchema {
        if name == "greet" {
            greet_param_schema()
        } else {
            ParamSchema { params: vec![] }
        }
    }

    fn call_function(
        &self,
        name: &String,
        parameters: Vec<(String, JsonValue)>,
    ) -> Result<Result<Box<dyn Any>, Infallible>, FunctionCallError> {
        match name.as_str() {
            "greet" => {
                let greeting = match get(&parameters, "greeting") {
                    Some(JsonValue::Str(s)) => s.clone(),
                    _ => {
                        return Err(FunctionCallError::parsing(
                            "Missing `greeting` param".to_string(),
                        ))
                    }
                };
                Ok(Ok(Box::new(self.greet(&greeting))))
            }
            "goodbye" => Ok(Ok(Box::new(self.goodbye()))),
            _ => Err(FunctionCallError::function_not_found(name.clone())),
        }
    }
}

fn greet_call_value() -> JsonValue {
    JsonValue::Obj(vec![
        (
            "function_name".to_string(),
            JsonValue::Str("greet".to_string()),
        ),
        (
            "parameters".to_string(),
            JsonValue::Obj(vec![(
                "greeting".to_string(),
                JsonValue::Str("This is a greeting".to_string()),
            )]),
        ),
    ])
}

#[test]
fn dyn_tool_works() {
    let mut toolbox: ToolBoxLocal<MyTool<String>> = ToolBoxLocal::new();
    toolbox.add_tool(MyTool::new("".to_owned())).unwrap();
    let tool_call_value = greet_call_value();
    let message = match toolbox.call_from_value(tool_call_value) {
        Ok(Ok(tool_result)) => tool_result,
        Ok(Err(_)) => panic!("infallible"),
        Err(error) => panic!("{}", error.message()),
    };
    match message.downcast::<String>() {
        Ok(message) => assert_eq!(
            *message,
            "This is the greeting `This is a greeting`".to_owned()
        ),
        Err(_) => panic!("Not the corect type"),
    }
}

#[test]
fn test_it() {
    let mut toolbox: ToolBoxLocal<MyTool<&'static str>> = ToolBoxLocal::new();
    toolbox.add_tool(MyTool::new("")).unwrap();
    let tool_call_value = greet_call_value();
    let message = match toolbox.call_from_value(tool_call_value) {
        Ok(Ok(tool_result)) => tool_result,
        Ok(Err(_)) => panic!("infallible"),
        Err(error) => panic!("{}", error.message()),
    };
    match message.downcast::<String>() {
        Ok(message) => assert_eq!(
            *message,
            "This is the greeting `This is a greeting`".to_owned()
        ),
        Err(_) => panic!("Not the corect type"),
    }
    let schema = toolbox.schema_document();
    assert!(matches!(schema, JsonValue::Obj(_)));
}

fn assert_send_sync<T: Send + Sync>() {}

#[test]
fn thread_safe_test() {
    assert_send_sync::<ToolBox<MyTool<String>>>();
    let mut toolbox: ToolBox<MyTool<String>> = ToolBox::new();
    toolbox.add_tool(MyTool::new("".to_owned())).unwrap();
    let tool_call_value = greet_call_value();
    let message = match toolbox.call_from_value(tool_call_value) {
        Ok(Ok(tool_result)) => tool_result,
        Ok(Err(_)) => panic!("infallible"),
        Err(error) => panic!("{}", error.message()),
    };
    match message.downcast::<String>() {
        Ok(message) => assert_eq!(
            *message,
            "This is the greeting `This is a greeting`".to_owned()
        ),
        Err(_) => panic!("Not the corect type"),
    }
}

#[derive(Debug)]
struct StringTool;

impl StringTool {
    fn greet(&self, greeting: &str) -> String {
        println!("Greetings!");
        format!("This is the greeting `{greeting}`")
    }
}

impl Tool for StringTool {
    type Output = String;
    type Error = Infallible;

    fn function_names(&self) -> Vec<String> {
        vec!["greet".to_string()]
    }

    fn schema(&self) -> Vec<(String, JsonValue)> {
        vec![(
            "greet".to_string(),
            JsonValue::Obj(vec![(
                "type".to_string(),
                JsonValue::Str("object".to_string()),
            )]),
        )]
    }

    fn param_schema(&self, _name: &String) -> ParamSchema {
        greet_param_schema()
    }

    fn call_function(
        &self,
        name: &String,
        parameters: Vec<(String, JsonValue)>,
    ) -> Result<Result<String, Infallible>, FunctionCallError> {
        match name.as_str() {
            "greet" => {
                let greeting = match get(&parameters, "greeting") {
                    Some(JsonValue::Str(s)) => s.clone(),
                    _ => {
                        return Err(FunctionCallError::parsing(
                            "Missing `greeting` param".to_string(),
                        ))
                    }
                };
                Ok(Ok(self.greet(&greeting)))
            }
            _ => Err(FunctionCallError::function_not_found(name.clone())),
        }
    }
}

#[test]
fn mod_test_it() {
    let mut toolbox: ToolBoxLocal<StringTool> = ToolBoxLocal::new();
    toolbox.add_tool(StringTool).unwrap();
    let tool_call_value = greet_call_value();
    match toolbox.call_from_value(tool_call_value) {
        Ok(Ok(tool_result)) => assert_eq!(
            *tool_result,
            "This is the greeting `This is a greeting`".to_owned()
        ),
        Ok(Err(_)) => panic!("infallible"),
        Err(error) => panic!("{}", error.message()),
    };
}

#[derive(Debug)]
struct FallibleTool;

impl Tool for FallibleTool {
    type Output = String;
    type Error = std::io::Error;

    fn function_names(&self) -> Vec<String> {
        vec!["greet".to_string()]
    }

    fn schema(&self) -> Vec<(String, JsonValue)> {
        vec![(
            "greet".to_string(),
            JsonValue::Obj(vec![(
                "type".to_string(),
                JsonValue::Str("object".to_string()),
            )]),
        )]
    }

    fn param_schema(&self, _name: &String) -> ParamSchema {
        greet_param_schema()
    }

    fn call_function(
        &self,
        name: &String,
        parameters: Vec<(String, JsonValue)>,
    ) -> Result<Result<String, std::io::Error>, FunctionCallError> {
        match name.as_str() {
            "greet" => {
                let greeting = match get(&parameters, "greeting") {
                    Some(JsonValue::Str(s)) => s.clone(),
                    _ => {
                        return Err(FunctionCallError::parsing(
                            "Missing `greeting` param".to_string(),
                        ))
                    }
                };
                println!("Greetings!");
                Ok(Ok(format!("This is the greeting `{greeting}`")))
            }
            _ => Err(FunctionCallError::function_not_found(name.clone())),
        }
    }
}

#[test]
fn with_result_test_it() {
    let mut toolbox: ToolBoxLocal<FallibleTool> = ToolBoxLocal::new();
    toolbox.add_tool(FallibleTool).unwrap();
    let tool_call_value = greet_call_value();
    match toolbox.call_from_value(tool_call_value) {
        Ok(okay) => match okay {
            Ok(okay) => assert_eq!(
                *okay,
                "This is the greeting `This is a greeting`".to_owned()
            ),
            Err(error) => panic!("{error}"),
        },
        Err(error) => panic!("{}", error.message()),
    };
}

#[test]
fn different_ok_same_err_test_it() {
    let mut toolbox: ToolBoxLocal<FallibleTool> = ToolBoxLocal::new();
    toolbox.add_tool(FallibleTool).unwrap();
    let tool_call_value = greet_call_value();
    match toolbox.call_from_value(tool_call_value) {
        Ok(okay) => match okay {
            Ok(okay) => assert_eq!(
                okay,
                "This is the greeting `This is a greeting`".to_owned()
            ),
            Err(error) => {
                let error: std::io::Error = error;
                panic!("{error}")
            }
        },
        Err(error) => panic!("{}", error.message()),
    };
}

#[test]
fn generics_test_it() {
    let mut toolbox: ToolBoxLocal<MyTool<&'static str>> = ToolBoxLocal::new();
    toolbox.add_tool(MyTool::new("")).unwrap();
    let tool_call_value = greet_call_value();
    let message = match toolbox.call_from_value(tool_call_value) {
        Ok(Ok(tool_result)) => tool_result,
        Ok(Err(_)) => panic!("infallible"),
        Err(error) => panic!("{}", error.message()),
    };
    match message.downcast::<String>() {
        Ok(message) => assert_eq!(
            *message,
            "This is the greeting `This is a greeting`".to_owned()
        ),
        Err(_) => panic!("Not the corect type"),
    }
}

//! A registry of named, schema-described tools that can be called by name
//! with untrusted JSON input. The registry owns the tools, keeps their
//! function names disjoint, merges their schemas into one document for the
//! caller, parses raw call envelopes, validates parameters against each
//! function's declared schema, and dispatches a validated call to the owning
//! tool.

pub mod errors;
pub mod json;
pub mod schema;
pub mod tool;
pub mod toolbox;

pub use errors::FunctionCallError;
pub use errors::FunctionCallParsingError;
pub use errors::ParsingErrorModel;
pub use json::JsonModel;
pub use json::JsonValue;
pub use schema::clean_up_schema;
pub use schema::clean_up_schema_rest;
pub use schema::validate_parameters;
pub use schema::JsonType;
pub use schema::ParamDecl;
pub use schema::ParamSchema;
pub use schema::SchemaViolation;
pub use tool::Tool;
pub use toolbox::FunctionCallArgs;
pub use toolbox::NameKey;
pub use toolbox::SchemaFormat;
pub use toolbox::ToolBox;
pub use toolbox::ToolBoxLocal;

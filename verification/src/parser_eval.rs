//! Parser evaluation documents: which parser inputs are evaluated, and the
//! stable codes of the ways an evaluation fails.
use vstd::prelude::*;

use crate::json::{json_get, object_get, JsonValue};
use crate::text::{concat3, str_eq};

verus! {

/// Why a parser document could not be evaluated.
#[derive(Clone, Debug, PartialEq, Eq)]
pub enum ParserEvalError {
    InvalidDocument(String),
    InvalidInput(String),
    Parse(String),
    Validation(String),
    SerializeOutput(String),
}

pub open spec fn parser_error_code(e: ParserEvalError) -> Seq<char> {
    match e {
        ParserEvalError::InvalidDocument(_) => "invalid_document"@,
        ParserEvalError::InvalidInput(_) => "invalid_input"@,
        ParserEvalError::Parse(_) => "parse_error"@,
        ParserEvalError::Validation(_) => "validation_error"@,
        ParserEvalError::SerializeOutput(_) => "serialize_output"@,
    }
}

impl ParserEvalError {
    /// The stable code of the failure.
    pub fn code(&self) -> (r: &'static str)
        ensures
            r@ == parser_error_code(*self),
    {
        match self {
            ParserEvalError::InvalidDocument(_) => "invalid_document",
            ParserEvalError::InvalidInput(_) => "invalid_input",
            ParserEvalError::Parse(_) => "parse_error",
            ParserEvalError::Validation(_) => "validation_error",
            ParserEvalError::SerializeOutput(_) => "serialize_output",
        }
    }

    /// The failure's message.
    pub fn message(&self) -> (r: &str)
        ensures
            r@ == match self {
                ParserEvalError::InvalidDocument(m) => m@,
                ParserEvalError::InvalidInput(m) => m@,
                ParserEvalError::Parse(m) => m@,
                ParserEvalError::Validation(m) => m@,
                ParserEvalError::SerializeOutput(m) => m@,
            },
    {
        match self {
            ParserEvalError::InvalidDocument(m) => m.as_str(),
            ParserEvalError::InvalidInput(m) => m.as_str(),
            ParserEvalError::Parse(m) => m.as_str(),
            ParserEvalError::Validation(m) => m.as_str(),
            ParserEvalError::SerializeOutput(m) => m.as_str(),
        }
    }
}

/// The parser inputs that can be evaluated.
pub open spec fn supported_parser_kind(kind: Seq<char>) -> bool {
    kind == "parser.validateSkillMarkdown"@ || kind == "parser.validateRunnerManifestYaml"@ || kind
        == "parser.validateGraphYaml"@ || kind == "parser.validateToolManifestJson"@ || kind
        == "parser.validateSkillSource"@ || kind == "parser.validateSkillArtifactContract"@ || kind
        == "parser.extractSkillQualityProfile"@ || kind == "parser.resolvePostRunReflectPolicy"@
        || kind == "parser.validateSkillInstall"@
}

pub fn is_supported_parser_kind(kind: &str) -> (b: bool)
    ensures
        b == supported_parser_kind(kind@),
{
    str_eq(kind, "parser.validateSkillMarkdown") || str_eq(kind, "parser.validateRunnerManifestYaml")
        || str_eq(kind, "parser.validateGraphYaml") || str_eq(kind, "parser.validateToolManifestJson")
        || str_eq(kind, "parser.validateSkillSource") || str_eq(
        kind,
        "parser.validateSkillArtifactContract",
    ) || str_eq(kind, "parser.extractSkillQualityProfile") || str_eq(
        kind,
        "parser.resolvePostRunReflectPolicy",
    ) || str_eq(kind, "parser.validateSkillInstall")
}

pub open spec fn string_member(object: Seq<(String, JsonValue)>, key: Seq<char>) -> Option<Seq<char>> {
    match json_get(object, key) {
        Some(JsonValue::String(s)) => Some(s@),
        _ => None,
    }
}

/// The kind a parser document names: that of its `input` envelope where it
/// has one, else its own.
pub open spec fn document_kind(document: JsonValue) -> Option<Seq<char>> {
    match document {
        JsonValue::Object(fields) => match json_get(fields@, "input"@) {
            Some(JsonValue::Object(input)) => string_member(input@, "kind"@),
            _ => string_member(fields@, "kind"@),
        },
        _ => None,
    }
}

fn string_member_exec<'a>(object: &'a Vec<(String, JsonValue)>, key: &str) -> (r: Option<&'a str>)
    ensures
        match string_member(object@, key@) {
            Some(s) => r matches Some(x) && x@ == s,
            None => r is None,
        },
{
    match object_get(object, key) {
        Some(JsonValue::String(s)) => Some(s.as_str()),
        _ => None,
    }
}

pub fn parser_document_kind(document: &JsonValue) -> (r: Option<&str>)
    ensures
        match document_kind(*document) {
            Some(k) => r matches Some(x) && x@ == k,
            None => r is None,
        },
{
    match document {
        JsonValue::Object(fields) => match object_get(fields, "input") {
            Some(JsonValue::Object(input)) => string_member_exec(input, "kind"),
            _ => string_member_exec(fields, "kind"),
        },
        _ => None,
    }
}

/// A document that names an unsupported kind is refused before it is read
/// as a parser input.
pub fn check_parser_document_kind(document: &JsonValue) -> (r: Result<(), ParserEvalError>)
    ensures
        match document_kind(*document) {
            Some(k) => if supported_parser_kind(k) {
                r is Ok
            } else {
                r matches Err(ParserEvalError::InvalidInput(m)) && m@
                    == "unsupported parser input kind '"@ + k + "'"@
            },
            None => r is Ok,
        },
{
    match parser_document_kind(document) {
        Some(kind) => if is_supported_parser_kind(kind) {
            Ok(())
        } else {
            Err(
                ParserEvalError::InvalidInput(
                    concat3("unsupported parser input kind '", kind, "'"),
                ),
            )
        },
        None => Ok(()),
    }
}

} // verus!

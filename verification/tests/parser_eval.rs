use runx_runtime::json::JsonValue;
use runx_runtime::parser_eval::{
    check_parser_document_kind, is_supported_parser_kind, parser_document_kind, ParserEvalError,
};

fn object(members: Vec<(&str, JsonValue)>) -> JsonValue {
    JsonValue::Object(members.into_iter().map(|(k, v)| (k.to_owned(), v)).collect())
}

#[test]
fn rejects_unsupported_parser_kind_before_deserializing() -> Result<(), String> {
    let document = object(vec![("kind", JsonValue::String("parser.unknown".to_owned()))]);
    let error = match check_parser_document_kind(&document) {
        Ok(_) => return Err("unsupported parser kind must fail closed".into()),
        Err(error) => error,
    };
    assert_eq!(error.code(), "invalid_input");
    assert!(error.message().contains("unsupported parser input kind"));
    assert_eq!(error.message(), "unsupported parser input kind 'parser.unknown'");
    Ok(())
}

#[test]
fn input_envelope_kind_takes_precedence() {
    let document = object(vec![
        ("kind", JsonValue::String("parser.unknown".to_owned())),
        (
            "input",
            object(vec![("kind", JsonValue::String("parser.validateGraphYaml".to_owned()))]),
        ),
    ]);
    assert_eq!(parser_document_kind(&document), Some("parser.validateGraphYaml"));
    assert!(check_parser_document_kind(&document).is_ok());
}

#[test]
fn document_without_kind_is_left_to_the_reader() {
    let document = object(vec![("markdown", JsonValue::String("# x".to_owned()))]);
    assert_eq!(parser_document_kind(&document), None);
    assert!(check_parser_document_kind(&document).is_ok());
}

#[test]
fn supported_kinds_and_error_codes() {
    assert!(is_supported_parser_kind("parser.validateSkillMarkdown"));
    assert!(is_supported_parser_kind("parser.validateSkillInstall"));
    assert!(!is_supported_parser_kind("parser.validateskillmarkdown"));
    assert_eq!(ParserEvalError::InvalidDocument("x".into()).code(), "invalid_document");
    assert_eq!(ParserEvalError::Parse("x".into()).code(), "parse_error");
    assert_eq!(ParserEvalError::Validation("x".into()).code(), "validation_error");
    assert_eq!(ParserEvalError::SerializeOutput("m".into()).message(), "m");
}

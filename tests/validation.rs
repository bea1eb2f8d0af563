use shader_validator::decimal::decimal_text;
use shader_validator::diagnostics::{ShaderError, ShaderErrorList, ShaderErrorSeverity, ValidationError};
use shader_validator::dispatch::{file_tree_reply, resolve_language, validate_file_reply, RequestError};
use shader_validator::language::ShadingLanguage;
use shader_validator::location::locate;
use shader_validator::protocol::{ValidateFileError, ValidateFileResponse};

fn list_of(errors: Vec<ShaderError>) -> ShaderErrorList {
    let mut list = ShaderErrorList::new();
    for e in errors {
        list.push(e);
    }
    list
}

fn parser_error(line: usize, pos: usize) -> ShaderError {
    ShaderError::ParserErr {
        severity: ShaderErrorSeverity::Error,
        error: "expected ';'".to_string(),
        line,
        pos,
    }
}

fn semantic_error(source: &str, spans: Vec<usize>) -> ShaderError {
    ShaderError::ValidationErr(ValidationError {
        source: source.to_string(),
        message: "type mismatch".to_string(),
        debug_line: "TypeMismatch".to_string(),
        debug: "TypeMismatch { expected: f32 }".to_string(),
        spans,
        emitted: "".to_string(),
    })
}

fn reply(outcome: Result<Result<(), ShaderErrorList>, String>) -> ValidateFileResponse {
    match validate_file_reply(outcome) {
        Ok(r) => r,
        Err(e) => panic!("expected a verdict, got {:?}", e),
    }
}

#[test]
fn language_identifiers_are_exact() {
    assert_eq!(ShadingLanguage::parse("wgsl"), Ok(ShadingLanguage::Wgsl));
    assert_eq!(ShadingLanguage::parse("hlsl"), Ok(ShadingLanguage::Hlsl));
    assert_eq!(ShadingLanguage::parse(""), Err(()));
    assert_eq!(ShadingLanguage::parse("WGSL"), Err(()));
    assert_eq!(ShadingLanguage::parse("glsl"), Err(()));
    assert_eq!(ShadingLanguage::parse("wgsl "), Err(()));
    assert_eq!(ShadingLanguage::Hlsl.identifier(), "hlsl");
}

#[test]
fn unknown_language_is_invalid_params() {
    match resolve_language("") {
        Err(RequestError::InvalidParams(m)) => assert_eq!(m, "Invalid shading language: "),
        other => panic!("unexpected {:?}", other),
    }
    match resolve_language("glsl") {
        Err(RequestError::InvalidParams(m)) => assert_eq!(m, "Invalid shading language: glsl"),
        other => panic!("unexpected {:?}", other),
    }
    assert!(matches!(resolve_language("wgsl"), Ok(ShadingLanguage::Wgsl)));
}

#[test]
fn parser_error_at_line_three_column_five() {
    let r = reply(Ok(Err(list_of(vec![parser_error(3, 5)]))));
    assert!(!r.is_ok);
    assert_eq!(r.messages.len(), 1);
    match &r.messages[0] {
        ValidateFileError::ParserErr { severity, error, scopes, line, pos } => {
            assert_eq!(severity, "Error");
            assert_eq!(error, "expected ';'");
            assert!(scopes.is_empty());
            assert_eq!(*line, 3);
            assert_eq!(*pos, 5);
        }
        other => panic!("unexpected {:?}", other),
    }
}

#[test]
fn valid_file_is_ok_with_no_messages() {
    let r = reply(Ok(Ok(())));
    assert!(r.is_ok);
    assert!(r.messages.is_empty());
}

#[test]
fn empty_diagnostic_list_is_ok() {
    let r = reply(Ok(Err(ShaderErrorList::new())));
    assert!(r.is_ok);
    assert!(r.messages.is_empty());
}

#[test]
fn severities_are_sent_by_name() {
    let severities = [
        (ShaderErrorSeverity::Warning, "Warning"),
        (ShaderErrorSeverity::Information, "Information"),
        (ShaderErrorSeverity::Hint, "Hint"),
    ];
    for (s, name) in severities {
        let e = ShaderError::ParserErr { severity: s, error: "x".to_string(), line: 1, pos: 1 };
        let r = reply(Ok(Err(list_of(vec![e]))));
        assert!(!r.is_ok);
        match &r.messages[0] {
            ValidateFileError::ParserErr { severity, .. } => assert_eq!(severity, name),
            other => panic!("unexpected {:?}", other),
        }
    }
}

#[test]
fn semantic_error_with_span_is_positioned() {
    let r = reply(Ok(Err(list_of(vec![semantic_error("a\nbcd\ne", vec![4, 0])]))));
    assert!(!r.is_ok);
    match &r.messages[0] {
        ValidateFileError::ParserErr { severity, error, line, pos, .. } => {
            assert_eq!(severity, "Error");
            assert_eq!(error, "type mismatch.\n\nTypeMismatch { expected: f32 }");
            assert_eq!(*line, 2);
            assert_eq!(*pos, 3);
        }
        other => panic!("unexpected {:?}", other),
    }
}

#[test]
fn semantic_error_without_span_is_validation_error() {
    for spans in [vec![], vec![99]] {
        let r = reply(Ok(Err(list_of(vec![semantic_error("fn f() {}", spans)]))));
        match &r.messages[0] {
            ValidateFileError::ValidationErr { message, debug } => {
                assert_eq!(message, "type mismatch.\n\nTypeMismatch { expected: f32 }");
                assert_eq!(debug, "TypeMismatch { expected: f32 }");
            }
            other => panic!("unexpected {:?}", other),
        }
    }
}

#[test]
fn other_diagnostics_are_unknown_errors_in_order() {
    let list = list_of(vec![
        ShaderError::IoErr("NotFound".to_string()),
        ShaderError::InternalErr("backend crashed".to_string()),
        parser_error(1, 2),
    ]);
    let r = reply(Ok(Err(list)));
    assert!(!r.is_ok);
    assert_eq!(r.messages.len(), 3);
    match &r.messages[0] {
        ValidateFileError::UnknownError(t) => assert_eq!(t, "IoErr: NotFound"),
        other => panic!("unexpected {:?}", other),
    }
    match &r.messages[1] {
        ValidateFileError::UnknownError(t) => assert_eq!(t, "InternalErr: backend crashed"),
        other => panic!("unexpected {:?}", other),
    }
    assert!(matches!(r.messages[2], ValidateFileError::ParserErr { line: 1, pos: 2, .. }));
}

#[test]
fn missing_toolchain_is_a_request_error() {
    match validate_file_reply(Err("Failed to create DXC".to_string())) {
        Err(RequestError::Internal(m)) => assert_eq!(m, "Failed to create DXC"),
        other => panic!("unexpected {:?}", other),
    }
    match file_tree_reply::<u32>(Err("Failed to create DXC".to_string())) {
        Err(RequestError::Internal(m)) => assert_eq!(m, "Failed to create DXC"),
        other => panic!("unexpected {:?}", other),
    }
}

#[test]
fn file_tree_of_unparsable_file_is_null_but_validation_reports() {
    let tree = file_tree_reply::<u32>(Ok(Err(list_of(vec![parser_error(3, 5)]))));
    assert!(matches!(tree, Ok(None)));
    let r = reply(Ok(Err(list_of(vec![parser_error(3, 5)]))));
    assert!(!r.is_ok);
    assert!(!r.messages.is_empty());
    assert!(matches!(file_tree_reply::<u32>(Ok(Ok(7))), Ok(Some(7))));
}

#[test]
fn error_response_is_ok_only_when_empty() {
    let r = ValidateFileResponse::error(&list_of(vec![parser_error(1, 1)]));
    assert!(!r.is_ok);
    assert_eq!(r.messages.len(), 1);
    let empty = ValidateFileResponse::error(&ShaderErrorList::new());
    assert!(empty.is_ok);
    assert!(empty.messages.is_empty());
    let ok = ValidateFileResponse::ok();
    assert!(ok.is_ok);
    assert!(ok.messages.is_empty());
}

#[test]
fn locations_count_lines_and_characters() {
    let l = locate("abc".as_bytes(), 0);
    assert_eq!((l.line, l.column), (1, 1));
    let l = locate("ab\n\ncd".as_bytes(), 5);
    assert_eq!((l.line, l.column), (3, 2));
    let l = locate("\u{e9}\u{e9}x\ny".as_bytes(), 4);
    assert_eq!((l.line, l.column), (1, 5));
    let l = locate("a\n".as_bytes(), 1);
    assert_eq!((l.line, l.column), (1, 2));
    let l = locate("a\n".as_bytes(), 2);
    assert_eq!((l.line, l.column), (2, 1));
}

#[test]
fn decimal_numbers() {
    assert_eq!(decimal_text(0), "0");
    assert_eq!(decimal_text(7), "7");
    assert_eq!(decimal_text(10), "10");
    assert_eq!(decimal_text(1234), "1234");
    assert_eq!(decimal_text(usize::MAX), usize::MAX.to_string());
}

#[test]
fn parse_failures_keep_the_backend_message() {
    match ShaderError::from_parse_failure("expected ';'".to_string(), Some((3, 5)), "full".to_string()) {
        ShaderError::ParserErr { severity, error, line, pos } => {
            assert_eq!(severity, ShaderErrorSeverity::Error);
            assert_eq!(error, "expected ';'");
            assert_eq!((line, pos), (3, 5));
        }
        other => panic!("unexpected {:?}", other),
    }
    match ShaderError::from_parse_failure("m".to_string(), None, "full".to_string()) {
        ShaderError::InternalErr(t) => assert_eq!(t, "full"),
        other => panic!("unexpected {:?}", other),
    }
}

#[test]
fn span_at_end_of_source_is_positioned() {
    let r = reply(Ok(Err(list_of(vec![semantic_error("ab\n", vec![3])]))));
    match &r.messages[0] {
        ValidateFileError::ParserErr { line, pos, .. } => assert_eq!((*line, *pos), (2, 1)),
        other => panic!("unexpected {:?}", other),
    }
}

#[test]
fn columns_count_bytes() {
    let r = reply(Ok(Err(list_of(vec![semantic_error("\u{e9}x", vec![2])]))));
    match &r.messages[0] {
        ValidateFileError::ParserErr { line, pos, .. } => assert_eq!((*line, *pos), (1, 3)),
        other => panic!("unexpected {:?}", other),
    }
}

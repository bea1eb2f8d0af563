use shader_validator::diagnostics::{ShaderError, ShaderErrorList, ShaderErrorSeverity, ValidationError};
use shader_validator::output_message::{OutputMessage, Palette};

fn plain_palette() -> Palette {
    Palette {
        success: "Success".to_string(),
        arrow: "-->".to_string(),
        error: "Error".to_string(),
        warning: "Warning".to_string(),
        information: "Information".to_string(),
        hint: "Hint".to_string(),
    }
}

fn list_of(errors: Vec<ShaderError>) -> ShaderErrorList {
    let mut list = ShaderErrorList::new();
    for e in errors {
        list.push(e);
    }
    list
}

#[test]
fn success_names_the_path() {
    let m = OutputMessage::success_with("shaders/a.wgsl", &plain_palette());
    assert!(!m.is_err);
    assert_eq!(m.text, "\u{2705} Success shaders/a.wgsl");
    assert_eq!(m.exit_code(), 0);
}

#[test]
fn success_through_the_terminal_palette() {
    let m = OutputMessage::success("shaders/a.wgsl");
    assert!(!m.is_err);
    assert!(m.text.contains("Success"));
    assert!(m.text.ends_with(" shaders/a.wgsl"));
    let m = OutputMessage::from_outcome("b.wgsl", Ok(Ok(())));
    assert!(!m.is_err);
    assert!(m.text.contains("Success"));
    assert!(m.text.contains("b.wgsl"));
}

#[test]
fn failure_blocks_in_order() {
    let list = list_of(vec![
        ShaderError::ParserErr {
            severity: ShaderErrorSeverity::Warning,
            error: "unused variable".to_string(),
            line: 12,
            pos: 4,
        },
        ShaderError::IoErr("NotFound".to_string()),
        ShaderError::InternalErr("boom".to_string()),
        ShaderError::ValidationErr(ValidationError {
            source: "x".to_string(),
            message: "bad".to_string(),
            debug_line: "Bad".to_string(),
            debug: "Bad {\n}".to_string(),
            spans: vec![],
            emitted: "none".to_string(),
        }),
    ]);
    let m = OutputMessage::error_with("a.wgsl", &list, &plain_palette());
    assert!(m.is_err);
    assert_eq!(
        m.text,
        "--> a.wgsl:12:4\nWarning: unused variable\n\
         \u{274c} a.wgsl \nNotFound\n\
         \u{274c} a.wgsl \nboom\n\
         \u{274c} a.wgsl \nBad none\n"
    );
    assert_ne!(m.exit_code(), 0);
}

#[test]
fn failure_through_the_terminal_palette() {
    let list = list_of(vec![ShaderError::InternalErr("boom".to_string())]);
    let m = OutputMessage::error("a.wgsl", list);
    assert!(m.is_err);
    assert_eq!(m.text, "\u{274c} a.wgsl \nboom\n");
}

#[test]
fn construction_failure_is_an_error_message() {
    let m = OutputMessage::from_outcome("a.hlsl", Err("Failed to create DXC".to_string()));
    assert!(m.is_err);
    assert_eq!(m.text, "\u{274c} a.hlsl \nFailed to create DXC\n");
    assert_eq!(m.exit_code(), 1);
}

#[test]
fn empty_failure_list_counts_as_success() {
    let m = OutputMessage::from_outcome("a.wgsl", Ok(Err(ShaderErrorList::new())));
    assert!(!m.is_err);
}

#[test]
fn colored_labels_are_painted() {
    colored::control::set_override(true);
    let p = Palette::new();
    assert_ne!(p.error, "Error");
    assert!(p.error.starts_with("\x1b["));
    assert!(p.error.contains("Error"));
    assert!(p.error.ends_with("\x1b[0m"));
    assert!(p.arrow.contains("-->"));
    assert_ne!(p.arrow, "-->");
    let m = OutputMessage::success("x.wgsl");
    assert!(m.text.contains("\x1b["));
    assert_eq!(p.error, "\x1b[1;31mError\x1b[0m");
    assert_eq!(p.warning, "\x1b[1;33mWarning\x1b[0m");
    assert_eq!(p.information, "\x1b[1;34mInformation\x1b[0m");
    assert_eq!(p.hint, "\x1b[1;90mHint\x1b[0m");
    assert_eq!(p.arrow, "\x1b[34m-->\x1b[0m");
    assert_eq!(p.success, "\x1b[1;92mSuccess\x1b[0m");
    assert_eq!(strip(&m.text), "\u{2705} Success x.wgsl");
    let list = list_of(vec![ShaderError::ParserErr {
        severity: ShaderErrorSeverity::Error,
        error: "unexpected token".to_string(),
        line: 3,
        pos: 5,
    }]);
    let e = OutputMessage::error("shader.wgsl", list);
    assert!(e.is_err);
    assert_eq!(strip(&e.text), "--> shader.wgsl:3:5\nError: unexpected token\n");
    colored::control::set_override(false);
    let p = Palette::new();
    assert_eq!(p.hint, "Hint");
}

fn strip(s: &str) -> String {
    let mut out = String::new();
    let mut in_escape = false;
    for c in s.chars() {
        if in_escape {
            in_escape = c != 'm';
        } else if c == '\x1b' {
            in_escape = true;
        } else {
            out.push(c);
        }
    }
    out
}

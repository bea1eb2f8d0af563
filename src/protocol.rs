use vstd::prelude::*;

use crate::diagnostics::{
    severity_name, Diagnostic, ShaderError, ShaderErrorList, ShaderErrorSeverity,
    ValidationError, ValidationModel,
};
use crate::location::{column_at, line_at, locate};

verus! {

/// One diagnostic as the service sends it.
#[derive(Debug)]
pub enum ValidateFileError {
    ParserErr { severity: String, error: String, scopes: Vec<String>, line: usize, pos: usize },
    ValidationErr { message: String, debug: String },
    UnknownError(String),
}

/// What a `ValidateFileError` holds, as values.
pub enum WireMessage {
    Parser { severity: Seq<char>, error: Seq<char>, scopes: Seq<Seq<char>>, line: int, pos: int },
    Validation { message: Seq<char>, debug: Seq<char> },
    Unknown(Seq<char>),
}

impl View for ValidateFileError {
    type V = WireMessage;

    open spec fn view(&self) -> WireMessage {
        match self {
            ValidateFileError::ParserErr { severity, error, scopes, line, pos } => WireMessage::Parser {
                severity: severity@,
                error: error@,
                scopes: scopes@.map_values(|s: String| s@),
                line: *line as int,
                pos: *pos as int,
            },
            ValidateFileError::ValidationErr { message, debug } => WireMessage::Validation {
                message: message@,
                debug: debug@,
            },
            ValidateFileError::UnknownError(t) => WireMessage::Unknown(t@),
        }
    }
}

/// The answer to a request to validate a file.
#[derive(Debug)]
pub struct ValidateFileResponse {
    pub is_ok: bool,
    pub messages: Vec<ValidateFileError>,
}

/// What a `ValidateFileResponse` holds, as values.
pub struct ResponseModel {
    pub is_ok: bool,
    pub messages: Seq<WireMessage>,
}

impl View for ValidateFileResponse {
    type V = ResponseModel;

    open spec fn view(&self) -> ResponseModel {
        ResponseModel {
            is_ok: self.is_ok,
            messages: self.messages@.map_values(|m: ValidateFileError| m@),
        }
    }
}

/// The text sent for a semantic failure: the short message, then the verbose one.
pub open spec fn detailed_text(v: ValidationModel) -> Seq<char> {
    v.message + seq!['.', '\n', '\n'] + v.debug
}

/// Whether the first span of a semantic failure starts within its source (at
/// most at its end), and the source leaves room for line and column counts.
pub open spec fn span_resolvable(v: ValidationModel) -> bool {
    v.spans.len() > 0 && (v.spans[0] as int) <= v.source.len() < usize::MAX
}

/// The text sent for a diagnostic that the wire schema has no variant for.
pub open spec fn unknown_text(d: Diagnostic) -> Seq<char> {
    match d {
        Diagnostic::Io(c) => seq!['I', 'o', 'E', 'r', 'r', ':', ' '] + c,
        Diagnostic::Internal(m) => seq!['I', 'n', 't', 'e', 'r', 'n', 'a', 'l', 'E', 'r', 'r', ':', ' ']
            + m,
        _ => Seq::empty(),
    }
}

/// How each diagnostic is sent: positioned ones keep their shape, a semantic
/// failure becomes positioned when its first span resolves, and the rest are
/// sent as text.
pub open spec fn wire_of(d: Diagnostic) -> WireMessage {
    match d {
        Diagnostic::Parser { severity, error, line, pos } => WireMessage::Parser {
            severity: severity_name(severity),
            error,
            scopes: Seq::empty(),
            line,
            pos,
        },
        Diagnostic::Validation(v) => if span_resolvable(v) {
            WireMessage::Parser {
                severity: severity_name(ShaderErrorSeverity::Error),
                error: detailed_text(v),
                scopes: Seq::empty(),
                line: line_at(v.source, v.spans[0] as int),
                pos: column_at(v.source, v.spans[0] as int),
            }
        } else {
            WireMessage::Validation { message: detailed_text(v), debug: v.debug }
        },
        _ => WireMessage::Unknown(unknown_text(d)),
    }
}

/// The response for the diagnostics of one validation.
pub open spec fn response_of(errors: Seq<Diagnostic>) -> ResponseModel {
    ResponseModel {
        is_ok: errors.len() == 0,
        messages: errors.map_values(|d: Diagnostic| wire_of(d)),
    }
}

fn detailed_message(v: &ValidationError) -> (r: String)
    ensures
        r@ == detailed_text(v@),
{
    let mut r = v.message.clone();
    proof { reveal_strlit(".\n\n"); }
    r.append(".\n\n");
    r.append(v.debug.as_str());
    assert(r@ =~= detailed_text(v@));
    r
}

impl ValidateFileError {
    /// The wire form of one diagnostic.
    pub fn from_diagnostic(e: &ShaderError) -> (r: ValidateFileError)
        ensures
            r@ == wire_of(e@),
    {
        match e {
            ShaderError::ParserErr { severity, error, line, pos } => {
                let r = ValidateFileError::ParserErr {
                    severity: severity.to_string(),
                    error: error.clone(),
                    scopes: Vec::new(),
                    line: *line,
                    pos: *pos,
                };
                assert(r@->Parser_scopes =~= Seq::<Seq<char>>::empty());
                r
            },
            ShaderError::ValidationErr(v) => {
                let bytes = v.source.as_str().as_bytes();
                let n = bytes.len();
                if v.spans.len() > 0 && v.spans[0] <= n && n < usize::MAX {
                    let loc = locate(bytes, v.spans[0]);
                    let r = ValidateFileError::ParserErr {
                        severity: ShaderErrorSeverity::Error.to_string(),
                        error: detailed_message(v),
                        scopes: Vec::new(),
                        line: loc.line,
                        pos: loc.column,
                    };
                    assert(r@->Parser_scopes =~= Seq::<Seq<char>>::empty());
                    r
                } else {
                    ValidateFileError::ValidationErr {
                        message: detailed_message(v),
                        debug: v.debug.clone(),
                    }
                }
            },
            ShaderError::IoErr(c) => {
                proof { reveal_strlit("IoErr: "); }
                let mut t = String::from_str("IoErr: ");
                t.append(c.as_str());
                assert(t@ =~= unknown_text(e@));
                ValidateFileError::UnknownError(t)
            },
            ShaderError::InternalErr(m) => {
                proof { reveal_strlit("InternalErr: "); }
                let mut t = String::from_str("InternalErr: ");
                t.append(m.as_str());
                assert(t@ =~= unknown_text(e@));
                ValidateFileError::UnknownError(t)
            },
        }
    }
}

impl ValidateFileResponse {
    /// The response of a validation that found nothing.
    pub fn ok() -> (r: ValidateFileResponse)
        ensures
            r@ == response_of(Seq::empty()),
    {
        let r = ValidateFileResponse { is_ok: true, messages: Vec::new() };
        assert(r@.messages =~= response_of(Seq::empty()).messages);
        r
    }

    /// The response for the diagnostics of a validation: ok exactly when
    /// there are none.
    pub fn error(error_list: &ShaderErrorList) -> (r: ValidateFileResponse)
        ensures
            r@ == response_of(error_list@),
    {
        let mut messages: Vec<ValidateFileError> = Vec::new();
        let mut i: usize = 0;
        while i < error_list.errors.len()
            invariant
                i <= error_list.errors@.len(),
                messages@.len() == i,
                forall|j: int| 0 <= j < i ==> #[trigger] messages@[j]@ == wire_of(error_list.errors@[j]@),
            decreases error_list.errors@.len() - i,
        {
            let m = ValidateFileError::from_diagnostic(&error_list.errors[i]);
            messages.push(m);
            i = i + 1;
        }
        let r = ValidateFileResponse { is_ok: error_list.errors.len() == 0, messages };
        assert(r@.messages =~= response_of(error_list@).messages);
        r
    }
}

} // verus!

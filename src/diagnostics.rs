use vstd::prelude::*;

verus! {

/// How serious a diagnostic is.
#[derive(Clone, Copy, Debug, PartialEq, Eq, Structural)]
pub enum ShaderErrorSeverity {
    Error,
    Warning,
    Information,
    Hint,
}

/// The name under which a severity is shown and sent.
pub open spec fn severity_name(s: ShaderErrorSeverity) -> Seq<char> {
    match s {
        ShaderErrorSeverity::Error => seq!['E', 'r', 'r', 'o', 'r'],
        ShaderErrorSeverity::Warning => seq!['W', 'a', 'r', 'n', 'i', 'n', 'g'],
        ShaderErrorSeverity::Information => seq![
            'I', 'n', 'f', 'o', 'r', 'm', 'a', 't', 'i', 'o', 'n'
        ],
        ShaderErrorSeverity::Hint => seq!['H', 'i', 'n', 't'],
    }
}

impl ShaderErrorSeverity {
    /// The name of this severity.
    pub fn to_string(&self) -> (r: String)
        ensures
            r@ == severity_name(*self),
    {
        let r = match self {
            ShaderErrorSeverity::Error => {
                proof { reveal_strlit("Error"); }
                String::from_str("Error")
            },
            ShaderErrorSeverity::Warning => {
                proof { reveal_strlit("Warning"); }
                String::from_str("Warning")
            },
            ShaderErrorSeverity::Information => {
                proof { reveal_strlit("Information"); }
                String::from_str("Information")
            },
            ShaderErrorSeverity::Hint => {
                proof { reveal_strlit("Hint"); }
                String::from_str("Hint")
            },
        };
        assert(r@ =~= severity_name(*self));
        r
    }
}

/// A failure found by semantic validation of a module.
///
/// `source` is the text that was validated; `spans` are the byte offsets at
/// which the backend's spans start, in the backend's order; `message`,
/// `debug_line` and `debug` are the backend's short, one-line debug and
/// multi-line debug renderings of its error, and `emitted` describes what the
/// backend had produced.
#[derive(Clone, Debug)]
pub struct ValidationError {
    pub source: String,
    pub message: String,
    pub debug_line: String,
    pub debug: String,
    pub spans: Vec<usize>,
    pub emitted: String,
}

/// What a `ValidationError` holds, as values.
pub struct ValidationModel {
    pub source: Seq<u8>,
    pub message: Seq<char>,
    pub debug_line: Seq<char>,
    pub debug: Seq<char>,
    pub spans: Seq<usize>,
    pub emitted: Seq<char>,
}

impl View for ValidationError {
    type V = ValidationModel;

    open spec fn view(&self) -> ValidationModel {
        ValidationModel {
            source: vstd::utf8::encode_utf8(self.source@),
            message: self.message@,
            debug_line: self.debug_line@,
            debug: self.debug@,
            spans: self.spans@,
            emitted: self.emitted@,
        }
    }
}

/// One diagnostic, whichever backend it came from.
#[derive(Clone, Debug)]
pub enum ShaderError {
    /// A positioned diagnostic from lexing or parsing, with 1-based line and column.
    ParserErr { severity: ShaderErrorSeverity, error: String, line: usize, pos: usize },
    /// A failure of semantic validation.
    ValidationErr(ValidationError),
    /// The input could not be read; holds the rendering of the native cause.
    IoErr(String),
    /// Any other failure of the backend.
    InternalErr(String),
}

/// What a `ShaderError` holds, as values.
pub enum Diagnostic {
    Parser { severity: ShaderErrorSeverity, error: Seq<char>, line: int, pos: int },
    Validation(ValidationModel),
    Io(Seq<char>),
    Internal(Seq<char>),
}

impl View for ShaderError {
    type V = Diagnostic;

    open spec fn view(&self) -> Diagnostic {
        match self {
            ShaderError::ParserErr { severity, error, line, pos } => Diagnostic::Parser {
                severity: *severity,
                error: error@,
                line: *line as int,
                pos: *pos as int,
            },
            ShaderError::ValidationErr(v) => Diagnostic::Validation(v@),
            ShaderError::IoErr(c) => Diagnostic::Io(c@),
            ShaderError::InternalErr(m) => Diagnostic::Internal(m@),
        }
    }
}

impl ShaderError {
    /// The diagnostic for a failed parse: an error at the backend's position
    /// when it gave one, with the backend's message unchanged; otherwise an
    /// internal failure carrying the backend's full rendering.
    pub fn from_parse_failure(message: String, position: Option<(usize, usize)>, rendering: String) -> (r: ShaderError)
        ensures
            position matches Some((line, pos)) ==> r@ == (Diagnostic::Parser {
                severity: ShaderErrorSeverity::Error,
                error: message@,
                line: line as int,
                pos: pos as int,
            }),
            position is None ==> r@ == Diagnostic::Internal(rendering@),
    {
        match position {
            Some((line, pos)) => ShaderError::ParserErr {
                severity: ShaderErrorSeverity::Error,
                error: message,
                line,
                pos,
            },
            None => ShaderError::InternalErr(rendering),
        }
    }
}

/// The diagnostics of one validation, in the order the backend emitted them.
#[derive(Clone, Debug)]
pub struct ShaderErrorList {
    pub errors: Vec<ShaderError>,
}

impl View for ShaderErrorList {
    type V = Seq<Diagnostic>;

    open spec fn view(&self) -> Seq<Diagnostic> {
        self.errors@.map_values(|e: ShaderError| e@)
    }
}

impl ShaderErrorList {
    /// A list with no diagnostics.
    pub fn new() -> (r: ShaderErrorList)
        ensures
            r@ == Seq::<Diagnostic>::empty(),
    {
        let r = ShaderErrorList { errors: Vec::new() };
        assert(r@ =~= Seq::<Diagnostic>::empty());
        r
    }

    /// Appends a diagnostic after those already held.
    pub fn push(&mut self, e: ShaderError)
        ensures
            final(self)@ == old(self)@.push(e@),
    {
        self.errors.push(e);
        assert(self@ =~= old(self)@.push(e@));
    }

    /// Whether the list holds no diagnostic, which is what a successful validation yields.
    pub fn is_empty(&self) -> (r: bool)
        ensures
            r == (self@.len() == 0),
    {
        self.errors.len() == 0
    }
}

} // verus!

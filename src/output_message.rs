use vstd::prelude::*;

use crate::decimal::{decimal, decimal_text};
use crate::diagnostics::{severity_name, Diagnostic, ShaderError, ShaderErrorList, ShaderErrorSeverity};
use crate::terminal::{
    escape_free, lemma_escape_free_concat, lemma_strip_plain, lemma_strip_shown, paint, paint_bold, sgr,
    shows, strip_escapes, Highlight,
};

verus! {

/// A message for the terminal, and whether it reports a failure.
pub struct OutputMessage {
    pub is_err: bool,
    pub text: String,
}

/// The painted labels that terminal output is built from.
pub struct Palette {
    pub success: String,
    pub arrow: String,
    pub error: String,
    pub warning: String,
    pub information: String,
    pub hint: String,
}

/// What a `Palette` holds, as values.
pub struct PaletteModel {
    pub success: Seq<char>,
    pub arrow: Seq<char>,
    pub error: Seq<char>,
    pub warning: Seq<char>,
    pub information: Seq<char>,
    pub hint: Seq<char>,
}

impl View for Palette {
    type V = PaletteModel;

    open spec fn view(&self) -> PaletteModel {
        PaletteModel {
            success: self.success@,
            arrow: self.arrow@,
            error: self.error@,
            warning: self.warning@,
            information: self.information@,
            hint: self.hint@,
        }
    }
}

/// The label of the success line.
pub open spec fn success_label() -> Seq<char> {
    seq!['S', 'u', 'c', 'c', 'e', 's', 's']
}

/// The label that points at a source position.
pub open spec fn arrow_label() -> Seq<char> {
    seq!['-', '-', '>']
}

impl PaletteModel {
    /// Each entry shows its label in its own style.
    pub open spec fn wf(self) -> bool {
        &&& shows(self.success, success_label(), success_style())
        &&& shows(self.arrow, arrow_label(), arrow_style())
        &&& shows(self.error, severity_name(ShaderErrorSeverity::Error), severity_style(ShaderErrorSeverity::Error))
        &&& shows(self.warning, severity_name(ShaderErrorSeverity::Warning), severity_style(ShaderErrorSeverity::Warning))
        &&& shows(
            self.information,
            severity_name(ShaderErrorSeverity::Information),
            severity_style(ShaderErrorSeverity::Information),
        )
        &&& shows(self.hint, severity_name(ShaderErrorSeverity::Hint), severity_style(ShaderErrorSeverity::Hint))
    }

    /// The painted name of a severity.
    pub open spec fn severity(self, s: ShaderErrorSeverity) -> Seq<char> {
        match s {
            ShaderErrorSeverity::Error => self.error,
            ShaderErrorSeverity::Warning => self.warning,
            ShaderErrorSeverity::Information => self.information,
            ShaderErrorSeverity::Hint => self.hint,
        }
    }
}

/// The style of the success label: bright green, bold.
pub open spec fn success_style() -> Seq<char> {
    sgr(Highlight::BrightGreen, true)
}

/// The style of the position arrow: blue.
pub open spec fn arrow_style() -> Seq<char> {
    sgr(Highlight::Blue, false)
}

/// The color of each severity's name.
pub open spec fn severity_highlight(s: ShaderErrorSeverity) -> Highlight {
    match s {
        ShaderErrorSeverity::Error => Highlight::Red,
        ShaderErrorSeverity::Warning => Highlight::Yellow,
        ShaderErrorSeverity::Information => Highlight::Blue,
        ShaderErrorSeverity::Hint => Highlight::BrightBlack,
    }
}

/// The style of each severity's name: its color, bold.
pub open spec fn severity_style(s: ShaderErrorSeverity) -> Seq<char> {
    sgr(severity_highlight(s), true)
}

/// The labels without any style, as shown when coloring is off.
pub open spec fn plain_palette() -> PaletteModel {
    PaletteModel {
        success: success_label(),
        arrow: arrow_label(),
        error: severity_name(ShaderErrorSeverity::Error),
        warning: severity_name(ShaderErrorSeverity::Warning),
        information: severity_name(ShaderErrorSeverity::Information),
        hint: severity_name(ShaderErrorSeverity::Hint),
    }
}

/// The line that reports a successful validation of `path`.
pub open spec fn success_text(path: Seq<char>, marker: Seq<char>) -> Seq<char> {
    seq!['\u{2705}', ' '] + marker + seq![' '] + path
}

/// The head of a block that reports a failure without a position.
pub open spec fn failure_head(path: Seq<char>) -> Seq<char> {
    seq!['\u{274c}', ' '] + path + seq![' ', '\n']
}

/// The block that reports one diagnostic found in `path`.
pub open spec fn block_text(path: Seq<char>, d: Diagnostic, pal: PaletteModel) -> Seq<char> {
    match d {
        Diagnostic::Parser { severity, error, line, pos } => pal.arrow + (position_text(path, line, pos) + (
            pal.severity(severity) + message_tail(error)
        )),
        Diagnostic::Validation(v) => failure_head(path) + v.debug_line + seq![' '] + v.emitted + seq![
            '\n',
        ],
        Diagnostic::Io(c) => failure_head(path) + c + seq!['\n'],
        Diagnostic::Internal(m) => failure_head(path) + m + seq!['\n'],
    }
}

/// The blocks of all diagnostics, in the order they were emitted.
pub open spec fn blocks_text(path: Seq<char>, ds: Seq<Diagnostic>, pal: PaletteModel) -> Seq<char>
    decreases ds.len(),
{
    if ds.len() == 0 {
        Seq::empty()
    } else {
        blocks_text(path, ds.drop_last(), pal) + block_text(path, ds.last(), pal)
    }
}

/// Whether `needle` stands somewhere in `hay`.
pub open spec fn contains(hay: Seq<char>, needle: Seq<char>) -> bool {
    exists|i: int| 0 <= i <= hay.len() - needle.len() && #[trigger] hay.subrange(i, i + needle.len()) == needle
}

impl Palette {
    /// Paints every label.
    pub fn new() -> (r: Palette)
        ensures
            r@.wf(),
    {
        proof {
            reveal_strlit("Success");
            reveal_strlit("-->");
            reveal_strlit("Error");
            reveal_strlit("Warning");
            reveal_strlit("Information");
            reveal_strlit("Hint");
        }
        assert("Success"@ =~= success_label());
        assert("-->"@ =~= arrow_label());
        assert("Error"@ =~= severity_name(ShaderErrorSeverity::Error));
        assert("Warning"@ =~= severity_name(ShaderErrorSeverity::Warning));
        assert("Information"@ =~= severity_name(ShaderErrorSeverity::Information));
        assert("Hint"@ =~= severity_name(ShaderErrorSeverity::Hint));
        Palette {
            success: paint_bold("Success", Highlight::BrightGreen),
            arrow: paint("-->", Highlight::Blue),
            error: paint_bold("Error", Highlight::Red),
            warning: paint_bold("Warning", Highlight::Yellow),
            information: paint_bold("Information", Highlight::Blue),
            hint: paint_bold("Hint", Highlight::BrightBlack),
        }
    }

    fn severity(&self, s: ShaderErrorSeverity) -> (r: &String)
        ensures
            r@ == self@.severity(s),
    {
        match s {
            ShaderErrorSeverity::Error => &self.error,
            ShaderErrorSeverity::Warning => &self.warning,
            ShaderErrorSeverity::Information => &self.information,
            ShaderErrorSeverity::Hint => &self.hint,
        }
    }
}

fn failure_head_text(path: &str) -> (r: String)
    ensures
        r@ == failure_head(path@),
{
    proof {
        reveal_strlit("\u{274c} ");
        reveal_strlit(" \n");
    }
    let mut r = String::from_str("\u{274c} ");
    r.append(path);
    r.append(" \n");
    assert(r@ =~= failure_head(path@));
    r
}

/// Renders the block of one diagnostic.
pub fn block(path: &str, e: &ShaderError, palette: &Palette) -> (r: String)
    ensures
        r@ == block_text(path@, e@, palette@),
{
    proof {
        reveal_strlit(" ");
        reveal_strlit(":");
        reveal_strlit("\n");
        reveal_strlit(": ");
    }
    match e {
        ShaderError::ParserErr { severity, error, line, pos } => {
            let mut r = palette.arrow.clone();
            r.append(" ");
            r.append(path);
            r.append(":");
            let l = decimal_text(*line);
            r.append(l.as_str());
            r.append(":");
            let p = decimal_text(*pos);
            r.append(p.as_str());
            r.append("\n");
            r.append(palette.severity(*severity).as_str());
            r.append(": ");
            r.append(error.as_str());
            r.append("\n");
            assert(r@ =~= block_text(path@, e@, palette@));
            r
        },
        ShaderError::ValidationErr(v) => {
            let mut r = failure_head_text(path);
            r.append(v.debug_line.as_str());
            r.append(" ");
            r.append(v.emitted.as_str());
            r.append("\n");
            assert(r@ =~= block_text(path@, e@, palette@));
            r
        },
        ShaderError::IoErr(c) => {
            let mut r = failure_head_text(path);
            r.append(c.as_str());
            r.append("\n");
            assert(r@ =~= block_text(path@, e@, palette@));
            r
        },
        ShaderError::InternalErr(m) => {
            let mut r = failure_head_text(path);
            r.append(m.as_str());
            r.append("\n");
            assert(r@ =~= block_text(path@, e@, palette@));
            r
        },
    }
}

impl OutputMessage {
    /// The message for a file that validated: the painted affirmative label and the path.
    pub fn success(path: &str) -> (r: OutputMessage)
        ensures
            !r.is_err,
            exists|marker: Seq<char>| #[trigger] shows(marker, success_label(), success_style())
                && r.text@ == success_text(path@, marker),
    {
        let palette = Palette::new();
        OutputMessage::success_with(path, &palette)
    }

    /// The success message, with the labels of `palette`.
    pub fn success_with(path: &str, palette: &Palette) -> (r: OutputMessage)
        ensures
            !r.is_err,
            r.text@ == success_text(path@, palette@.success),
    {
        proof {
            reveal_strlit("\u{2705} ");
            reveal_strlit(" ");
        }
        let mut text = String::from_str("\u{2705} ");
        text.append(palette.success.as_str());
        text.append(" ");
        text.append(path);
        assert(text@ =~= success_text(path@, palette@.success));
        OutputMessage { is_err: false, text }
    }

    /// The message for a failed validation: one block per diagnostic, in order.
    pub fn error(path: &str, error_list: ShaderErrorList) -> (r: OutputMessage)
        ensures
            r.is_err,
            exists|pal: PaletteModel| #[trigger] pal.wf() && r.text@ == blocks_text(path@, error_list@, pal),
    {
        let palette = Palette::new();
        OutputMessage::error_with(path, &error_list, &palette)
    }

    /// The failure message, with the labels of `palette`.
    pub fn error_with(path: &str, error_list: &ShaderErrorList, palette: &Palette) -> (r: OutputMessage)
        ensures
            r.is_err,
            r.text@ == blocks_text(path@, error_list@, palette@),
    {
        let mut text = String::new();
        let mut i: usize = 0;
        while i < error_list.errors.len()
            invariant
                i <= error_list.errors@.len(),
                text@ == blocks_text(path@, error_list@.take(i as int), palette@),
            decreases error_list.errors@.len() - i,
        {
            let b = block(path, &error_list.errors[i], palette);
            proof {
                assert(error_list@.take(i + 1).drop_last() =~= error_list@.take(i as int));
            }
            text.append(b.as_str());
            i = i + 1;
        }
        assert(error_list@.take(i as int) =~= error_list@);
        OutputMessage { is_err: true, text }
    }

    /// The message for the outcome of building a validator (`Err` with the
    /// reason) and running it on `path`.
    pub fn from_outcome(path: &str, outcome: Result<Result<(), ShaderErrorList>, String>) -> (r: OutputMessage)
        ensures
            outcome matches Err(m) ==> (r.is_err && r.text@ == failure_head(path@) + m@ + seq!['\n']),
            outcome matches Ok(Ok(_)) ==> (!r.is_err && exists|marker: Seq<char>| #[trigger] shows(marker, success_label(), success_style())
                && r.text@ == success_text(path@, marker)),
            outcome matches Ok(Err(list)) ==> (r.is_err == (list@.len() > 0)),
            outcome matches Ok(Err(list)) ==> (list@.len() == 0 ==> exists|marker: Seq<char>| #[trigger] shows(marker, success_label(), success_style())
                && r.text@ == success_text(path@, marker)),
            outcome matches Ok(Err(list)) ==> (list@.len() > 0 ==> exists|pal: PaletteModel| #[trigger] pal.wf()
                && r.text@ == blocks_text(path@, list@, pal)),
    {
        match outcome {
            Err(m) => {
                proof { reveal_strlit("\n"); }
                let mut text = failure_head_text(path);
                text.append(m.as_str());
                text.append("\n");
                assert(text@ =~= failure_head(path@) + m@ + seq!['\n']);
                OutputMessage { is_err: true, text }
            },
            Ok(Ok(())) => OutputMessage::success(path),
            Ok(Err(list)) => {
                if list.is_empty() {
                    OutputMessage::success(path)
                } else {
                    OutputMessage::error(path, list)
                }
            },
        }
    }

    /// The process exit code for this message: 0 exactly when it reports no failure.
    pub fn exit_code(&self) -> (r: i32)
        ensures
            r == 0 <==> !self.is_err,
    {
        if self.is_err { 1 } else { 0 }
    }
}

/// A success message holds its painted label and the path it is about.
pub proof fn lemma_success_names_path(path: Seq<char>, marker: Seq<char>)
    ensures
        contains(success_text(path, marker), marker),
        contains(success_text(path, marker), path),
{
    let t = success_text(path, marker);
    let m = marker.len() as int;
    let n = path.len() as int;
    assert(t.subrange(2, 2 + m) =~= marker);
    assert(t.subrange(3 + m, 3 + m + n) =~= path);
}

/// A failure message is the blocks of the earlier diagnostics followed by the
/// block of the last one, so blocks keep the order of emission.
pub proof fn lemma_blocks_in_emission_order(path: Seq<char>, ds: Seq<Diagnostic>, d: Diagnostic, pal: PaletteModel)
    ensures
        blocks_text(path, ds.push(d), pal) == blocks_text(path, ds, pal) + block_text(path, d, pal),
{
    assert(ds.push(d).drop_last() =~= ds);
}

/// Every block names the path of the file it reports on.
pub proof fn lemma_block_names_path(path: Seq<char>, d: Diagnostic, pal: PaletteModel)
    ensures
        contains(block_text(path, d, pal), path),
{
    let b = block_text(path, d, pal);
    let n = path.len() as int;
    match d {
        Diagnostic::Parser { .. } => {
            let k = pal.arrow.len() as int + 1;
            assert(b.subrange(k, k + n) =~= path);
        },
        _ => {
            assert(b.subrange(2, 2 + n) =~= path);
        },
    }
}

proof fn lemma_decimal_escape_free(n: nat)
    ensures
        escape_free(decimal(n)),
    decreases n,
{
    if n >= 10 {
        lemma_decimal_escape_free(n / 10);
        lemma_escape_free_concat(decimal(n / 10), seq![crate::decimal::digit_char(n % 10)]);
    }
}

proof fn lemma_labels_escape_free()
    ensures
        escape_free(success_label()),
        escape_free(arrow_label()),
        forall|s: ShaderErrorSeverity| escape_free(#[trigger] severity_name(s)),
{
    assert forall|s: ShaderErrorSeverity| escape_free(#[trigger] severity_name(s)) by {
        match s {
            ShaderErrorSeverity::Error => {},
            ShaderErrorSeverity::Warning => {},
            ShaderErrorSeverity::Information => {},
            ShaderErrorSeverity::Hint => {},
        }
    }
}

/// Once its escape sequences are left out, the success message reads
/// "✅ Success " followed by the path (for a path without escape characters).
pub proof fn lemma_success_visible_text(path: Seq<char>, marker: Seq<char>)
    requires
        shows(marker, success_label(), success_style()),
        escape_free(path),
    ensures
        strip_escapes(success_text(path, marker)) == success_text(path, success_label()),
{
    lemma_labels_escape_free();
    let head = seq!['\u{2705}', ' '];
    let tail = seq![' '] + path;
    lemma_escape_free_concat(seq![' '], path);
    lemma_strip_plain(tail, Seq::empty());
    assert(tail + Seq::<char>::empty() =~= tail);
    lemma_strip_shown(marker, success_label(), Highlight::BrightGreen, true, tail);
    lemma_strip_plain(head, marker + tail);
    assert(success_text(path, marker) =~= head + (marker + tail));
    assert(success_text(path, success_label()) =~= head + (success_label() + tail));
}

/// The name of every severity is bold, and no two severities share a style.
pub proof fn lemma_severity_styles()
    ensures
        forall|s: ShaderErrorSeverity| (#[trigger] severity_style(s)).subrange(0, 4) == seq!['\x1b', '[', '1', ';'],
        forall|a: ShaderErrorSeverity, b: ShaderErrorSeverity| a != b ==> #[trigger] severity_style(a) != #[trigger] severity_style(b),
{
    assert forall|s: ShaderErrorSeverity| (#[trigger] severity_style(s)).subrange(0, 4) == seq!['\x1b', '[', '1', ';'] by {
        assert(severity_style(s).subrange(0, 4) =~= seq!['\x1b', '[', '1', ';']);
    }
    assert forall|a: ShaderErrorSeverity, b: ShaderErrorSeverity| a != b implies #[trigger] severity_style(a) != #[trigger] severity_style(b) by {
        let x = severity_style(a);
        let y = severity_style(b);
        assert(x[4] != y[4] || x[5] != y[5]);
    }
}

/// The position part of a positioned block: the path, line and column.
pub open spec fn position_text(path: Seq<char>, line: int, pos: int) -> Seq<char> {
    seq![' '] + path + seq![':'] + decimal(line as nat) + seq![':'] + decimal(pos as nat) + seq!['\n']
}

proof fn lemma_position_escape_free(path: Seq<char>, line: int, pos: int)
    requires
        escape_free(path),
    ensures
        escape_free(position_text(path, line, pos)),
{
    lemma_decimal_escape_free(line as nat);
    lemma_decimal_escape_free(pos as nat);
    lemma_escape_free_concat(seq![' '], path);
    lemma_escape_free_concat(seq![' '] + path, seq![':']);
    lemma_escape_free_concat(seq![' '] + path + seq![':'], decimal(line as nat));
    lemma_escape_free_concat(seq![' '] + path + seq![':'] + decimal(line as nat), seq![':']);
    lemma_escape_free_concat(seq![' '] + path + seq![':'] + decimal(line as nat) + seq![':'], decimal(pos as nat));
    lemma_escape_free_concat(
        seq![' '] + path + seq![':'] + decimal(line as nat) + seq![':'] + decimal(pos as nat),
        seq!['\n'],
    );
}

/// The message part of a positioned block, after the severity.
pub open spec fn message_tail(error: Seq<char>) -> Seq<char> {
    seq![':', ' '] + error + seq!['\n']
}

proof fn lemma_message_tail_visible(error: Seq<char>)
    requires
        escape_free(error),
    ensures
        strip_escapes(message_tail(error)) == message_tail(error),
{
    let b = message_tail(error);
    lemma_escape_free_concat(seq![':', ' '], error);
    lemma_escape_free_concat(seq![':', ' '] + error, seq!['\n']);
    lemma_strip_plain(b, Seq::empty());
    assert(b + Seq::<char>::empty() =~= b);
}

proof fn lemma_parser_block_visible_text(
    path: Seq<char>,
    severity: ShaderErrorSeverity,
    error: Seq<char>,
    line: int,
    pos: int,
    pal: PaletteModel,
)
    requires
        pal.wf(),
        escape_free(path),
        escape_free(error),
    ensures
        ({
            let d = Diagnostic::Parser { severity, error, line, pos };
            strip_escapes(block_text(path, d, pal)) == block_text(path, d, plain_palette())
        }),
{
    let d = Diagnostic::Parser { severity, error, line, pos };
    lemma_labels_escape_free();
    let b = message_tail(error);
    let a = position_text(path, line, pos);
    lemma_message_tail_visible(error);
    lemma_position_escape_free(path, line, pos);
    lemma_strip_shown(pal.severity(severity), severity_name(severity), severity_highlight(severity), true, b);
    lemma_strip_plain(a, pal.severity(severity) + b);
    let rest = a + (pal.severity(severity) + b);
    lemma_strip_shown(pal.arrow, arrow_label(), Highlight::Blue, false, rest);
}

/// Once its escape sequences are left out, the block of a diagnostic reads as
/// it does with coloring off (for a path and texts without escape characters).
pub proof fn lemma_block_visible_text(path: Seq<char>, d: Diagnostic, pal: PaletteModel)
    requires
        pal.wf(),
        escape_free(path),
        d matches Diagnostic::Parser { error, .. } ==> escape_free(error),
        d matches Diagnostic::Validation(v) ==> escape_free(v.debug_line) && escape_free(v.emitted),
        d matches Diagnostic::Io(c) ==> escape_free(c),
        d matches Diagnostic::Internal(m) ==> escape_free(m),
    ensures
        strip_escapes(block_text(path, d, pal)) == block_text(path, d, plain_palette()),
{
    lemma_labels_escape_free();
    let e = Seq::<char>::empty();
    match d {
        Diagnostic::Parser { severity, error, line, pos } => {
            lemma_parser_block_visible_text(path, severity, error, line, pos, pal);
        },
        _ => {
            let t = block_text(path, d, pal);
            lemma_escape_free_concat(seq!['\u{274c}', ' '], path);
            lemma_escape_free_concat(seq!['\u{274c}', ' '] + path, seq![' ', '\n']);
            let h = failure_head(path);
            match d {
                Diagnostic::Validation(v) => {
                    lemma_escape_free_concat(h, v.debug_line);
                    lemma_escape_free_concat(h + v.debug_line, seq![' ']);
                    lemma_escape_free_concat(h + v.debug_line + seq![' '], v.emitted);
                    lemma_escape_free_concat(h + v.debug_line + seq![' '] + v.emitted, seq!['\n']);
                },
                Diagnostic::Io(c) => {
                    lemma_escape_free_concat(h, c);
                    lemma_escape_free_concat(h + c, seq!['\n']);
                },
                Diagnostic::Internal(m) => {
                    lemma_escape_free_concat(h, m);
                    lemma_escape_free_concat(h + m, seq!['\n']);
                },
                _ => {},
            }
            lemma_strip_plain(t, e);
            assert(t + e =~= t);
        },
    }
}

} // verus!

use vstd::prelude::*;

use colored::Colorize;

verus! {

/// The colors the terminal output uses.
#[derive(Clone, Copy, Debug, PartialEq, Eq, Structural)]
pub enum Highlight {
    Red,
    Yellow,
    Blue,
    BrightBlack,
    BrightGreen,
}

/// The sequence that ends a styled span on a terminal.
pub open spec fn style_reset() -> Seq<char> {
    seq!['\x1b', '[', '0', 'm']
}

/// Whether a text holds no escape character.
pub open spec fn escape_free(s: Seq<char>) -> bool {
    forall|i: int| 0 <= i < s.len() ==> s[i] != '\x1b'
}

/// The two decimal digits of a color's foreground code.
pub open spec fn color_code(h: Highlight) -> Seq<char> {
    match h {
        Highlight::Red => seq!['3', '1'],
        Highlight::Yellow => seq!['3', '3'],
        Highlight::Blue => seq!['3', '4'],
        Highlight::BrightBlack => seq!['9', '0'],
        Highlight::BrightGreen => seq!['9', '2'],
    }
}

/// The escape sequence that starts a span in color `h`, bold when `bold`.
pub open spec fn sgr(h: Highlight, bold: bool) -> Seq<char> {
    seq!['\x1b', '['] + (if bold { seq!['1', ';'] } else { Seq::empty() }) + color_code(h) + seq!['m']
}

/// Whether `r` shows `s` on a terminal: `s` unchanged when coloring is
/// switched off, else `s` between `style` and the reset sequence. (When the
/// switch flips while the text is written, the style may come out empty.)
pub open spec fn shows(r: Seq<char>, s: Seq<char>, style: Seq<char>) -> bool {
    ||| r == s
    ||| r == s + style_reset()
    ||| r == style + s + style_reset()
}

/// Relies on colored's `Colorize::color` and the `Display` of `ColoredString`:
/// the text is written as it is when coloring is off (which colored decides
/// from the environment), else between the style that `compute_style` builds
/// (`ESC [`, the foreground code, `m`) and the reset sequence; an input
/// without escape characters holds no reset sequence to be rewritten.
#[verifier::external_body]
pub(crate) fn paint(s: &str, h: Highlight) -> (r: String)
    requires
        escape_free(s@),
    ensures
        shows(r@, s@, sgr(h, false)),
{
    let c = match h {
        Highlight::Red => colored::Color::Red,
        Highlight::Yellow => colored::Color::Yellow,
        Highlight::Blue => colored::Color::Blue,
        Highlight::BrightBlack => colored::Color::BrightBlack,
        Highlight::BrightGreen => colored::Color::BrightGreen,
    };
    s.color(c).to_string()
}

/// Relies on colored's `Colorize::color` and `Colorize::bold` and the `Display`
/// of `ColoredString`, as `paint` does; bold adds `1;` before the color code
/// in the style sequence.
#[verifier::external_body]
pub(crate) fn paint_bold(s: &str, h: Highlight) -> (r: String)
    requires
        escape_free(s@),
    ensures
        shows(r@, s@, sgr(h, true)),
{
    let c = match h {
        Highlight::Red => colored::Color::Red,
        Highlight::Yellow => colored::Color::Yellow,
        Highlight::Blue => colored::Color::Blue,
        Highlight::BrightBlack => colored::Color::BrightBlack,
        Highlight::BrightGreen => colored::Color::BrightGreen,
    };
    s.color(c).bold().to_string()
}

/// The text a terminal shows of `s`: every escape sequence, from the escape
/// character through the `m` that ends it, left out. `in_escape` says whether
/// `s` starts inside such a sequence.
pub open spec fn strip_from(s: Seq<char>, in_escape: bool) -> Seq<char>
    decreases s.len(),
{
    if s.len() == 0 {
        Seq::empty()
    } else if in_escape {
        strip_from(s.drop_first(), s[0] != 'm')
    } else if s[0] == '\x1b' {
        strip_from(s.drop_first(), true)
    } else {
        seq![s[0]] + strip_from(s.drop_first(), false)
    }
}

/// The visible text of `s`, its escape sequences left out.
pub open spec fn strip_escapes(s: Seq<char>) -> Seq<char> {
    strip_from(s, false)
}

/// Text without escapes is shown as it is.
pub proof fn lemma_strip_plain(x: Seq<char>, y: Seq<char>)
    requires
        escape_free(x),
    ensures
        strip_escapes(x + y) == x + strip_escapes(y),
    decreases x.len(),
{
    if x.len() == 0 {
        assert(x + y =~= y);
    } else {
        let t = x.drop_first();
        assert((x + y).drop_first() =~= t + y);
        assert((x + y)[0] == x[0]);
        lemma_strip_plain(t, y);
        assert(seq![x[0]] + (t + y) =~= x + y);
        assert(seq![x[0]] + (t + strip_escapes(y)) =~= x + strip_escapes(y));
    }
}

proof fn lemma_strip_sequence_tail(t: Seq<char>, y: Seq<char>)
    requires
        forall|i: int| 0 <= i < t.len() ==> t[i] != 'm',
    ensures
        strip_from(t + seq!['m'] + y, true) == strip_escapes(y),
    decreases t.len(),
{
    let u = t + seq!['m'] + y;
    if t.len() == 0 {
        assert(u.drop_first() =~= y);
        assert(u[0] == 'm');
    } else {
        let t2 = t.drop_first();
        assert(u.drop_first() =~= t2 + seq!['m'] + y);
        assert(u[0] == t[0]);
        lemma_strip_sequence_tail(t2, y);
    }
}

/// A style sequence followed by text shows only the text.
pub proof fn lemma_strip_sgr(h: Highlight, bold: bool, y: Seq<char>)
    ensures
        strip_escapes(sgr(h, bold) + y) == strip_escapes(y),
{
    let t = seq!['['] + (if bold { seq!['1', ';'] } else { Seq::empty() }) + color_code(h);
    assert(sgr(h, bold) + y =~= seq!['\x1b'] + (t + seq!['m'] + y));
    assert(forall|i: int| 0 <= i < t.len() ==> t[i] != 'm');
    let u = seq!['\x1b'] + (t + seq!['m'] + y);
    assert(u.drop_first() =~= t + seq!['m'] + y);
    lemma_strip_sequence_tail(t, y);
}

/// The reset sequence followed by text shows only the text.
pub proof fn lemma_strip_reset(y: Seq<char>)
    ensures
        strip_escapes(style_reset() + y) == strip_escapes(y),
{
    let t = seq!['[', '0'];
    assert(forall|i: int| 0 <= i < t.len() ==> t[i] != 'm');
    let u = style_reset() + y;
    assert(u.drop_first() =~= t + seq!['m'] + y);
    lemma_strip_sequence_tail(t, y);
}

/// A label painted in a style, followed by more text, shows as the label
/// followed by what that text shows.
pub proof fn lemma_strip_shown(r: Seq<char>, s: Seq<char>, h: Highlight, bold: bool, y: Seq<char>)
    requires
        shows(r, s, sgr(h, bold)),
        escape_free(s),
    ensures
        strip_escapes(r + y) == s + strip_escapes(y),
{
    lemma_strip_reset(y);
    lemma_strip_plain(s, style_reset() + y);
    if r == s {
        lemma_strip_plain(s, y);
    } else if r == s + style_reset() {
        assert(r + y =~= s + (style_reset() + y));
    } else {
        assert(r + y =~= sgr(h, bold) + (s + (style_reset() + y)));
        lemma_strip_sgr(h, bold, s + (style_reset() + y));
    }
}

/// Two texts without escapes give a text without escapes.
pub proof fn lemma_escape_free_concat(a: Seq<char>, b: Seq<char>)
    requires
        escape_free(a),
        escape_free(b),
    ensures
        escape_free(a + b),
{
    assert forall|i: int| 0 <= i < (a + b).len() implies (a + b)[i] != '\x1b' by {
        if i < a.len() {
            assert((a + b)[i] == a[i]);
        } else {
            assert((a + b)[i] == b[i - a.len()]);
        }
    }
}

} // verus!
